//! The wizard state machine.
//!
//! `IntroApp` owns the step position and the pending sub-dialog state. It
//! consumes discrete user intents (advance, retreat, choose, resolve the
//! overwrite prompt, quit) and produces, where a transition asks for it, a
//! `ConfigAction` that tells the surrounding event loop whether to perform
//! one forced configuration write. Invalid intents for the current state are
//! no-ops, never errors: the wizard must not misbehave on unexpected input
//! ordering from a loosely-typed event source.

use vstd::prelude::*;

verus! {

/// The sub-dialog overlaid on the current step, with an explicit idle case.
/// A non-idle value is only ever reached on the final step.
#[derive(Clone, Copy, PartialEq, Eq, Structural, Debug)]
pub enum PendingDecision {
    Idle,
    AwaitingConfigChoice,
    AwaitingOverwriteConfirmation,
}

/// What the event loop must do after a transition: nothing, or perform one
/// configuration write with the force flag set.
#[derive(Clone, Copy, PartialEq, Eq, Structural, Debug)]
pub enum ConfigAction {
    NoWrite,
    ForcedWrite,
}

/// The wizard state. Mutated only through the transition methods below.
pub struct IntroApp {
    current_step: usize,
    total_steps: usize,
    should_quit: bool,
    should_continue_to_config: bool,
    host_config_exists: bool,
    pending: PendingDecision,
}

impl IntroApp {
    /// Well-formedness: the step count is the fixed constant, the step stays
    /// in range, and a pending sub-dialog exists only on the final step.
    pub open spec fn wf(self) -> bool {
        &&& self.spec_total_steps() == 3
        &&& self.spec_current_step() < self.spec_total_steps()
        &&& (!(self.spec_pending() is Idle) ==> self.spec_current_step() == self.spec_total_steps()
            - 1)
    }

    pub closed spec fn spec_current_step(self) -> usize {
        self.current_step
    }

    pub closed spec fn spec_total_steps(self) -> usize {
        self.total_steps
    }

    pub closed spec fn spec_pending(self) -> PendingDecision {
        self.pending
    }

    pub closed spec fn spec_should_exit(self) -> bool {
        self.should_quit
    }

    pub closed spec fn spec_should_continue(self) -> bool {
        self.should_continue_to_config
    }

    pub closed spec fn spec_config_exists(self) -> bool {
        self.host_config_exists
    }

    /// An advance intent moves the step only while no sub-dialog is pending,
    /// the session is neither exited nor handed off, and a later step exists.
    pub open spec fn can_advance(self) -> bool {
        &&& self.spec_pending() is Idle
        &&& !self.spec_should_exit()
        &&& !self.spec_should_continue()
        &&& self.spec_current_step() + 1 < self.spec_total_steps()
    }

    /// A retreat intent moves the step only away from the first step and only
    /// while the session has not been handed off to configuration.
    pub open spec fn can_retreat(self) -> bool {
        &&& self.spec_current_step() > 0
        &&& !self.spec_should_continue()
    }

    /// Start a session: step zero, no sub-dialog, not exited, not handed off.
    /// The existence snapshot of the host configuration is taken once, here.
    pub fn new(host_config_exists: bool) -> (app: IntroApp)
        ensures
            app.wf(),
            app.spec_current_step() == 0,
            app.spec_total_steps() == 3,
            !app.spec_should_exit(),
            !app.spec_should_continue(),
            app.spec_config_exists() == host_config_exists,
            app.spec_pending() is Idle,
    {
        IntroApp {
            current_step: 0,
            total_steps: 3,
            should_quit: false,
            should_continue_to_config: false,
            host_config_exists,
            pending: PendingDecision::Idle,
        }
    }

    /// Advance by one step; landing on the final step opens the
    /// configuration choice. Otherwise a no-op.
    pub fn next_step(&mut self)
        requires
            old(self).wf(),
        ensures
            final(self).wf(),
            final(self).spec_total_steps() == old(self).spec_total_steps(),
            final(self).spec_should_exit() == old(self).spec_should_exit(),
            final(self).spec_should_continue() == old(self).spec_should_continue(),
            final(self).spec_config_exists() == old(self).spec_config_exists(),
            old(self).can_advance() ==> {
                &&& final(self).spec_current_step() == old(self).spec_current_step() + 1
                &&& final(self).spec_pending() == (if old(self).spec_current_step() + 2
                    == old(self).spec_total_steps() {
                    PendingDecision::AwaitingConfigChoice
                } else {
                    old(self).spec_pending()
                })
            },
            !old(self).can_advance() ==> *final(self) == *old(self),
    {
        if matches!(self.pending, PendingDecision::Idle) && !self.should_quit
            && !self.should_continue_to_config && self.current_step < self.total_steps - 1 {
            self.current_step = self.current_step + 1;
            // Reaching the last step opens the configuration choice.
            if self.current_step == self.total_steps - 1 {
                self.pending = PendingDecision::AwaitingConfigChoice;
            }
        }
    }

    /// Retreat by one step; going back abandons any pending sub-dialog, since
    /// the decision being made is no longer in front of the user. A no-op on
    /// the first step.
    pub fn prev_step(&mut self)
        requires
            old(self).wf(),
        ensures
            final(self).wf(),
            final(self).spec_total_steps() == old(self).spec_total_steps(),
            final(self).spec_should_exit() == old(self).spec_should_exit(),
            final(self).spec_should_continue() == old(self).spec_should_continue(),
            final(self).spec_config_exists() == old(self).spec_config_exists(),
            old(self).can_retreat() ==> {
                &&& final(self).spec_current_step() == old(self).spec_current_step() - 1
                &&& final(self).spec_pending() is Idle
            },
            !old(self).can_retreat() ==> *final(self) == *old(self),
    {
        if self.current_step > 0 && !self.should_continue_to_config {
            self.current_step = self.current_step - 1;
            self.pending = PendingDecision::Idle;
        }
    }

    /// Hand the session off to the follow-on configuration flow and ask the
    /// event loop for one forced configuration write.
    pub fn configure_and_continue(&mut self) -> (action: ConfigAction)
        ensures
            action is ForcedWrite,
            final(self).spec_should_continue(),
            final(self).spec_current_step() == old(self).spec_current_step(),
            final(self).spec_total_steps() == old(self).spec_total_steps(),
            final(self).spec_should_exit() == old(self).spec_should_exit(),
            final(self).spec_config_exists() == old(self).spec_config_exists(),
            final(self).spec_pending() == old(self).spec_pending(),
    {
        self.should_continue_to_config = true;
        ConfigAction::ForcedWrite
    }

    /// Answer the configuration choice. Meaningful only while that choice is
    /// pending; otherwise, and on any unrecognised character, a no-op.
    ///
    /// Accepting while a conflicting configuration was detected opens the
    /// overwrite confirmation instead of acting; accepting otherwise hands
    /// off with one forced write; declining or skipping hands off without
    /// any write.
    pub fn handle_config_choice(&mut self, choice: char) -> (action: ConfigAction)
        requires
            old(self).wf(),
        ensures
            final(self).wf(),
            final(self).spec_total_steps() == old(self).spec_total_steps(),
            final(self).spec_current_step() == old(self).spec_current_step(),
            final(self).spec_should_exit() == old(self).spec_should_exit(),
            final(self).spec_config_exists() == old(self).spec_config_exists(),
            action is ForcedWrite <==> {
                &&& old(self).spec_pending() is AwaitingConfigChoice
                &&& (choice == 'y' || choice == 'Y')
                &&& !old(self).spec_config_exists()
            },
            old(self).spec_pending() is AwaitingConfigChoice ==> {
                if choice == 'y' || choice == 'Y' {
                    if old(self).spec_config_exists() {
                        &&& final(self).spec_pending() is AwaitingOverwriteConfirmation
                        &&& final(self).spec_should_continue()
                            == old(self).spec_should_continue()
                    } else {
                        &&& final(self).spec_pending() is Idle
                        &&& final(self).spec_should_continue()
                    }
                } else if choice == 'n' || choice == 'N' || choice == 's' || choice == 'S' {
                    &&& final(self).spec_pending() is Idle
                    &&& final(self).spec_should_continue()
                } else {
                    *final(self) == *old(self)
                }
            },
            !(old(self).spec_pending() is AwaitingConfigChoice) ==> *final(self) == *old(self),
    {
        if !matches!(self.pending, PendingDecision::AwaitingConfigChoice) {
            return ConfigAction::NoWrite;
        }
        let action: ConfigAction;
        match choice {
            'y' | 'Y' => {
                if self.host_config_exists {
                    // Do not act yet: ask before overwriting.
                    self.pending = PendingDecision::AwaitingOverwriteConfirmation;
                    return ConfigAction::NoWrite;
                } else {
                    action = self.configure_and_continue();
                }
            },
            'n' | 'N' => {
                self.should_continue_to_config = true;
                action = ConfigAction::NoWrite;
            },
            's' | 'S' => {
                self.should_continue_to_config = true;
                action = ConfigAction::NoWrite;
            },
            _ => {
                return ConfigAction::NoWrite;
            },
        }
        self.pending = PendingDecision::Idle;
        action
    }

    /// Answer the overwrite confirmation. Meaningful only while it is
    /// pending; otherwise a no-op. Confirming hands off with one forced
    /// write; declining hands off without touching the settings file.
    pub fn handle_overwrite_response(&mut self, overwrite: bool) -> (action: ConfigAction)
        requires
            old(self).wf(),
        ensures
            final(self).wf(),
            final(self).spec_total_steps() == old(self).spec_total_steps(),
            final(self).spec_current_step() == old(self).spec_current_step(),
            final(self).spec_should_exit() == old(self).spec_should_exit(),
            final(self).spec_config_exists() == old(self).spec_config_exists(),
            action is ForcedWrite <==> {
                &&& old(self).spec_pending() is AwaitingOverwriteConfirmation
                &&& overwrite
            },
            old(self).spec_pending() is AwaitingOverwriteConfirmation ==> {
                &&& final(self).spec_pending() is Idle
                &&& final(self).spec_should_continue()
            },
            !(old(self).spec_pending() is AwaitingOverwriteConfirmation) ==> *final(self)
                == *old(self),
    {
        if !matches!(self.pending, PendingDecision::AwaitingOverwriteConfirmation) {
            return ConfigAction::NoWrite;
        }
        let action: ConfigAction;
        if overwrite {
            action = self.configure_and_continue();
        } else {
            self.should_continue_to_config = true;
            action = ConfigAction::NoWrite;
        }
        self.pending = PendingDecision::Idle;
        action
    }

    /// Quit the wizard. Terminal: the external loop must stop polling.
    pub fn skip_intro(&mut self)
        ensures
            final(self).spec_should_exit(),
            final(self).spec_current_step() == old(self).spec_current_step(),
            final(self).spec_total_steps() == old(self).spec_total_steps(),
            final(self).spec_should_continue() == old(self).spec_should_continue(),
            final(self).spec_config_exists() == old(self).spec_config_exists(),
            final(self).spec_pending() == old(self).spec_pending(),
    {
        self.should_quit = true;
    }

    pub fn is_awaiting_config_choice(&self) -> (r: bool)
        ensures
            r == (self.spec_pending() is AwaitingConfigChoice),
    {
        matches!(self.pending, PendingDecision::AwaitingConfigChoice)
    }

    pub fn is_showing_overwrite_prompt(&self) -> (r: bool)
        ensures
            r == (self.spec_pending() is AwaitingOverwriteConfirmation),
    {
        matches!(self.pending, PendingDecision::AwaitingOverwriteConfirmation)
    }

    pub fn should_continue(&self) -> (r: bool)
        ensures
            r == self.spec_should_continue(),
    {
        self.should_continue_to_config
    }

    pub fn should_exit(&self) -> (r: bool)
        ensures
            r == self.spec_should_exit(),
    {
        self.should_quit
    }

    pub fn current_step(&self) -> (r: usize)
        ensures
            r == self.spec_current_step(),
    {
        self.current_step
    }

    pub fn total_steps(&self) -> (r: usize)
        ensures
            r == self.spec_total_steps(),
    {
        self.total_steps
    }
}

} // verus!
