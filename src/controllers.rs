use vstd::prelude::*;
use crate::engine::WindowEngine;
use crate::lifecycle::{HookLifecycle, HookPhase, StartAction};

verus! {

/// The typing mode: English leaves keystrokes alone, French runs the capture engine.
#[derive(Clone, Copy, Debug, PartialEq, Eq, Structural)]
pub enum Language {
    English,
    French,
}

/// The mode together with the engine that it drives. The mode is switched from one source
/// of toggle and mode events at a time, and at most one engine instance is active.
#[derive(Debug)]
pub struct AppState {
    pub language: Language,
    pub engine: WindowEngine,
}

impl AppState {
    pub open spec fn wf(&self) -> bool {
        self.engine.wf()
    }

    /// English, with both listeners stopped.
    pub fn new() -> (r: AppState)
        ensures
            r.wf(),
            r.language == Language::English,
            r.engine.listener.mouse_key.phase == HookPhase::Stopped,
    {
        AppState { language: Language::English, engine: WindowEngine::new() }
    }
}

/// The other mode.
pub open spec fn toggled(language: Language) -> Language {
    match language {
        Language::English => Language::French,
        Language::French => Language::English,
    }
}

/// The main listener after switching to `language`: French starts it, English stops it.
pub open spec fn listener_after_change(listener: HookLifecycle, language: Language) -> HookLifecycle {
    match language {
        Language::French => listener.after_start().0,
        Language::English => listener.after_stop(),
    }
}

/// Starts the engine. Returns whether the caller must spawn a fresh instance (a hook
/// thread and a dispatcher over a new channel); that happens only when none exists.
pub fn start_engine(app: &mut AppState) -> (r: bool)
    requires
        old(app).wf(),
    ensures
        final(app).wf(),
        final(app).language == old(app).language,
        final(app).engine.listener.mouse_key == old(app).engine.listener.mouse_key.after_start().0,
        final(app).engine.listener.shortcut == old(app).engine.listener.shortcut,
        r == (old(app).engine.listener.mouse_key.phase == HookPhase::Stopped),
{
    let action = app.engine.start();
    action == StartAction::Spawn
}

/// Stops the engine. Returns whether an active instance was asked to stop; a second call
/// in a row changes nothing and returns `false`.
pub fn stop_engine(app: &mut AppState) -> (r: bool)
    requires
        old(app).wf(),
    ensures
        final(app).wf(),
        final(app).language == old(app).language,
        final(app).engine.listener.mouse_key == old(app).engine.listener.mouse_key.after_stop(),
        final(app).engine.listener.shortcut == old(app).engine.listener.shortcut,
        r == old(app).engine.listener.mouse_key.run_flag,
{
    app.engine.stop()
}

/// Switches to `language`, starting the engine for French and stopping it for English.
/// Returns whether the caller must spawn a fresh engine instance.
pub fn change_language(app: &mut AppState, language: Language) -> (r: bool)
    requires
        old(app).wf(),
    ensures
        final(app).wf(),
        final(app).language == language,
        final(app).engine.listener.mouse_key == listener_after_change(
            old(app).engine.listener.mouse_key,
            language,
        ),
        final(app).engine.listener.shortcut == old(app).engine.listener.shortcut,
        r == (language == Language::French && old(app).engine.listener.mouse_key.phase
            == HookPhase::Stopped),
{
    app.language = language;
    match language {
        Language::French => start_engine(app),
        Language::English => {
            stop_engine(app);
            false
        },
    }
}

/// Switches to the other mode; see `change_language`.
pub fn toggle_language(app: &mut AppState) -> (r: bool)
    requires
        old(app).wf(),
    ensures
        final(app).wf(),
        final(app).language == toggled(old(app).language),
        final(app).engine.listener.mouse_key == listener_after_change(
            old(app).engine.listener.mouse_key,
            toggled(old(app).language),
        ),
        final(app).engine.listener.shortcut == old(app).engine.listener.shortcut,
        r == (old(app).language == Language::English && old(app).engine.listener.mouse_key.phase
            == HookPhase::Stopped),
{
    let new_language = match app.language {
        Language::English => Language::French,
        Language::French => Language::English,
    };
    change_language(app, new_language)
}

/// Switching to a mode twice in a row acts once: the second switch spawns nothing and
/// leaves the listener as the first one left it.
pub proof fn lemma_change_language_idempotent(listener: HookLifecycle, language: Language)
    requires
        listener.wf(),
    ensures
        listener_after_change(listener_after_change(listener, language), language)
            == listener_after_change(listener, language),
        language == Language::French ==> listener.after_start().0.after_start().1
            != StartAction::Spawn,
{
}

} // verus!
