use vstd::prelude::*;

verus! {

/// Where a hook listener stands between its start and its teardown.
#[derive(Clone, Copy, Debug, PartialEq, Eq, Structural)]
pub enum HookPhase {
    /// No hook installed, no sender held.
    Stopped,
    /// The hook thread is installing its hooks.
    Starting,
    /// All hooks installed; the message pump runs.
    Running,
    /// Shutdown requested; the pump has not observed it yet.
    Stopping,
}

/// What a start request leads to.
#[derive(Clone, Copy, Debug, PartialEq, Eq, Structural)]
pub enum StartAction {
    /// A fresh hook thread must be spawned.
    Spawn,
    /// The instance that was shutting down keeps running; nothing is installed again.
    Resume,
    /// The listener already runs; the request is refused.
    Rejected,
}

/// The state machine of one hook listener: its run flag, whether it holds the channel
/// sender, and how many of its hooks are installed.
///
/// The run flag is advisory: `stop` only clears it, and the hooks stay installed until the
/// pump observes the cleared flag on its next wake.
#[derive(Clone, Copy, Debug, PartialEq, Eq, Structural)]
pub struct HookLifecycle {
    pub phase: HookPhase,
    pub run_flag: bool,
    pub sender_attached: bool,
    pub installed: usize,
    pub hook_count: usize,
}

impl HookLifecycle {
    pub open spec fn wf(self) -> bool {
        &&& 1 <= self.hook_count
        &&& self.installed <= self.hook_count
        &&& match self.phase {
            HookPhase::Stopped => !self.run_flag && !self.sender_attached && self.installed == 0,
            HookPhase::Starting => self.sender_attached && self.installed < self.hook_count,
            HookPhase::Running => self.run_flag && self.sender_attached && self.installed
                == self.hook_count,
            HookPhase::Stopping => !self.run_flag && self.sender_attached && self.installed
                == self.hook_count,
        }
    }

    /// The state after a start request, and what the request leads to.
    pub open spec fn after_start(self) -> (HookLifecycle, StartAction) {
        match self.phase {
            HookPhase::Stopped => (
                HookLifecycle {
                    phase: HookPhase::Starting,
                    run_flag: true,
                    sender_attached: true,
                    installed: 0,
                    ..self
                },
                StartAction::Spawn,
            ),
            HookPhase::Stopping => (
                HookLifecycle { phase: HookPhase::Running, run_flag: true, ..self },
                StartAction::Resume,
            ),
            HookPhase::Starting => if self.run_flag {
                (self, StartAction::Rejected)
            } else {
                (HookLifecycle { run_flag: true, ..self }, StartAction::Resume)
            },
            HookPhase::Running => (self, StartAction::Rejected),
        }
    }

    /// The state after a stop request: the flag is cleared, nothing else is torn down.
    pub open spec fn after_stop(self) -> HookLifecycle {
        match self.phase {
            HookPhase::Running => HookLifecycle {
                phase: HookPhase::Stopping,
                run_flag: false,
                ..self
            },
            _ => HookLifecycle { run_flag: false, ..self },
        }
    }

    /// A stopped listener that will install `hook_count` hooks when started.
    pub fn new(hook_count: usize) -> (r: HookLifecycle)
        requires
            1 <= hook_count,
        ensures
            r.wf(),
            r.phase == HookPhase::Stopped,
            r.hook_count == hook_count,
    {
        HookLifecycle {
            phase: HookPhase::Stopped,
            run_flag: false,
            sender_attached: false,
            installed: 0,
            hook_count,
        }
    }

    /// Whether the listener counts as active: started and not asked to stop.
    pub fn is_active(&self) -> (r: bool)
        ensures
            r == self.run_flag,
    {
        self.run_flag
    }

    /// Requests the listener to run. Only a stopped listener spawns a hook thread; one
    /// that was asked to stop and has not yet torn down is told to go on; a running one
    /// refuses, so that no second set of hooks is ever installed.
    pub fn start(&mut self) -> (r: StartAction)
        requires
            old(self).wf(),
        ensures
            final(self).wf(),
            (*final(self), r) == old(self).after_start(),
    {
        match self.phase {
            HookPhase::Stopped => {
                self.phase = HookPhase::Starting;
                self.run_flag = true;
                self.sender_attached = true;
                self.installed = 0;
                StartAction::Spawn
            },
            HookPhase::Stopping => {
                self.phase = HookPhase::Running;
                self.run_flag = true;
                StartAction::Resume
            },
            HookPhase::Starting => {
                if self.run_flag {
                    StartAction::Rejected
                } else {
                    self.run_flag = true;
                    StartAction::Resume
                }
            },
            HookPhase::Running => StartAction::Rejected,
        }
    }

    /// Requests the listener to stop by clearing its run flag. Returns whether a listener
    /// that was active received the request; on a stopped listener this changes nothing.
    pub fn stop(&mut self) -> (r: bool)
        requires
            old(self).wf(),
        ensures
            final(self).wf(),
            *final(self) == old(self).after_stop(),
            r == old(self).run_flag,
    {
        let was_running = self.run_flag;
        self.run_flag = false;
        if self.phase == HookPhase::Running {
            self.phase = HookPhase::Stopping;
        }
        was_running
    }

    /// Records that the hook thread installed one more hook. Returns whether all hooks are
    /// now installed; the listener then runs, or goes straight to stopping when a stop
    /// came in meanwhile.
    pub fn hook_installed(&mut self) -> (r: bool)
        requires
            old(self).wf(),
            old(self).phase == HookPhase::Starting,
        ensures
            final(self).wf(),
            final(self).installed == old(self).installed + 1,
            final(self).run_flag == old(self).run_flag,
            final(self).hook_count == old(self).hook_count,
            r == (final(self).installed == final(self).hook_count),
            !r ==> final(self).phase == HookPhase::Starting,
            r && old(self).run_flag ==> final(self).phase == HookPhase::Running,
            r && !old(self).run_flag ==> final(self).phase == HookPhase::Stopping,
    {
        self.installed = self.installed + 1;
        if self.installed == self.hook_count {
            if self.run_flag {
                self.phase = HookPhase::Running;
            } else {
                self.phase = HookPhase::Stopping;
            }
            true
        } else {
            false
        }
    }

    /// Records that installing the next hook failed. Returns how many hooks were installed
    /// before, which the hook thread uninstalls in reverse order before reporting the
    /// failure; the listener is then stopped.
    pub fn install_failed(&mut self) -> (r: usize)
        requires
            old(self).wf(),
            old(self).phase == HookPhase::Starting,
        ensures
            final(self).wf(),
            r == old(self).installed,
            final(self).phase == HookPhase::Stopped,
            final(self).hook_count == old(self).hook_count,
    {
        let installed = self.installed;
        self.phase = HookPhase::Stopped;
        self.run_flag = false;
        self.sender_attached = false;
        self.installed = 0;
        installed
    }

    /// Called by the message pump each time it wakes. Returns whether it keeps pumping;
    /// when the run flag is cleared it returns `false`, and the hook thread uninstalls all
    /// hooks in reverse order and drops its sender, which this state records.
    pub fn pump_wake(&mut self) -> (r: bool)
        requires
            old(self).wf(),
            old(self).phase == HookPhase::Running || old(self).phase == HookPhase::Stopping,
        ensures
            final(self).wf(),
            r == old(self).run_flag,
            r ==> *final(self) == *old(self),
            !r ==> final(self).phase == HookPhase::Stopped,
            final(self).hook_count == old(self).hook_count,
    {
        if self.run_flag {
            true
        } else {
            self.phase = HookPhase::Stopped;
            self.sender_attached = false;
            self.installed = 0;
            false
        }
    }
}

/// A stop request is idempotent: a second one changes nothing. A start request on a
/// running listener is refused and leaves it, and its installed hooks, as they were.
pub proof fn lemma_stop_start_guards(s: HookLifecycle)
    requires
        s.wf(),
    ensures
        s.after_stop().wf(),
        s.after_stop().after_stop() == s.after_stop(),
        s.phase == HookPhase::Running ==> s.after_start() == (s, StartAction::Rejected),
        s.after_start().0.wf(),
        s.after_start().1 == StartAction::Spawn <==> s.phase == HookPhase::Stopped,
        s.after_start().1 != StartAction::Spawn ==> s.after_start().0.installed == s.installed,
{
}

} // verus!
