//! Capture and replay core of a system-wide accent-combination keyboard layer: the
//! virtual-key table, the classification of hook events, the dead-key-aware translation
//! session, the verdict replay protocol and the lifecycle of the hook listeners.
pub mod keys;
pub mod unicode;
pub mod translator;
pub mod events;
pub mod lifecycle;
pub mod listener;
pub mod input_simulator;
pub mod engine;
pub mod controllers;
