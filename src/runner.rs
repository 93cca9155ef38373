use vstd::prelude::*;

verus! {

/// How the engine asked to stop: normally, or with a (non-zero) error code.
#[derive(Clone, Copy, Debug, PartialEq, Eq, Structural)]
pub enum AppExit {
    Success,
    Error(u8),
}

/// What the frame loop must do next.
#[derive(Clone, Copy, Debug, PartialEq, Eq, Structural)]
pub enum RunnerAction {
    /// Run one engine update, then report whether it asked to exit.
    RunUpdate,
    /// Block until the next vertical blank, then report that it passed.
    WaitForVBlank,
    /// Stop, returning this exit status.
    Exit(AppExit),
}

/// Where the frame loop stands.
#[derive(Clone, Copy, Debug, PartialEq, Eq, Structural)]
pub enum RunnerPhase {
    AwaitingUpdate,
    AwaitingVBlank,
    Exited(AppExit),
}

/// The loop is paced by the blank alone: the actions, from the first, alternate between an
/// update and a single wait, and an exit can only come right after an update.
pub open spec fn paced(actions: Seq<RunnerAction>) -> bool {
    forall|i: int|
        0 <= i < actions.len() ==> #[trigger] actions[i] == if i % 2 == 0 {
            RunnerAction::RunUpdate
        } else if actions[i] is Exit {
            actions[i]
        } else {
            RunnerAction::WaitForVBlank
        }
}

/// The frame runner's decisions: one engine update per display frame.
pub struct FrameRunner {
    pub phase: RunnerPhase,
    pub issued: Ghost<Seq<RunnerAction>>,
}

impl FrameRunner {
    pub open spec fn wf(&self) -> bool {
        &&& paced(self.issued@)
        &&& self.issued@.len() > 0
        &&& match self.phase {
            RunnerPhase::AwaitingUpdate => self.issued@.last() == RunnerAction::RunUpdate,
            RunnerPhase::AwaitingVBlank => self.issued@.last() == RunnerAction::WaitForVBlank,
            RunnerPhase::Exited(e) => self.issued@.last() == RunnerAction::Exit(e),
        }
        &&& forall|i: int|
            0 <= i < self.issued@.len() - 1 ==> !(#[trigger] self.issued@[i] is Exit)
    }

    /// Starts the loop: the first action is an update.
    pub fn start() -> (r: (FrameRunner, RunnerAction))
        ensures
            r.0.wf(),
            r.1 == RunnerAction::RunUpdate,
            r.0.phase == RunnerPhase::AwaitingUpdate,
            r.0.issued@ == seq![RunnerAction::RunUpdate],
    {
        let ghost first = seq![RunnerAction::RunUpdate];
        let runner = FrameRunner { phase: RunnerPhase::AwaitingUpdate, issued: Ghost(first) };
        (runner, RunnerAction::RunUpdate)
    }

    /// The update has run: stop with its exit status if it asked for one, else wait for
    /// the next vertical blank, however long the update took.
    pub fn update_finished(&mut self, exit: Option<AppExit>) -> (r: RunnerAction)
        requires
            old(self).wf(),
            old(self).phase == RunnerPhase::AwaitingUpdate,
        ensures
            final(self).wf(),
            final(self).issued@ == old(self).issued@.push(r),
            r == match exit {
                Some(e) => RunnerAction::Exit(e),
                None => RunnerAction::WaitForVBlank,
            },
            final(self).phase == match exit {
                Some(e) => RunnerPhase::Exited(e),
                None => RunnerPhase::AwaitingVBlank,
            },
    {
        let action = match exit {
            Some(e) => {
                self.phase = RunnerPhase::Exited(e);
                RunnerAction::Exit(e)
            },
            None => {
                self.phase = RunnerPhase::AwaitingVBlank;
                RunnerAction::WaitForVBlank
            },
        };
        proof {
            let old_log = self.issued@;
            let new_log = old_log.push(action);
            assert(old_log[old_log.len() - 1] == RunnerAction::RunUpdate);
            assert(old_log.len() % 2 == 1) by {
                if old_log.len() % 2 == 0 {
                    assert(old_log[old_log.len() - 1] != RunnerAction::RunUpdate);
                }
            }
            assert(new_log[new_log.len() - 1] == action);
            assert forall|i: int| 0 <= i < new_log.len() - 1 implies !(#[trigger] new_log[i] is Exit) by {
                assert(new_log[i] == old_log[i]);
            }
            assert forall|i: int| 0 <= i < new_log.len() implies #[trigger] new_log[i] == if i % 2 == 0 {
                RunnerAction::RunUpdate
            } else if new_log[i] is Exit {
                new_log[i]
            } else {
                RunnerAction::WaitForVBlank
            } by {
                if i < old_log.len() {
                    assert(new_log[i] == old_log[i]);
                }
            }
        }
        self.issued = Ghost(self.issued@.push(action));
        action
    }

    /// The vertical blank has passed: run the next update.
    pub fn vblank_passed(&mut self) -> (r: RunnerAction)
        requires
            old(self).wf(),
            old(self).phase == RunnerPhase::AwaitingVBlank,
        ensures
            final(self).wf(),
            final(self).issued@ == old(self).issued@.push(r),
            r == RunnerAction::RunUpdate,
            final(self).phase == RunnerPhase::AwaitingUpdate,
    {
        self.phase = RunnerPhase::AwaitingUpdate;
        let action = RunnerAction::RunUpdate;
        proof {
            let old_log = self.issued@;
            let new_log = old_log.push(action);
            assert(old_log[old_log.len() - 1] == RunnerAction::WaitForVBlank);
            assert(old_log.len() % 2 == 0) by {
                if old_log.len() % 2 == 1 {
                    assert(old_log[old_log.len() - 1] == RunnerAction::RunUpdate);
                }
            }
            assert(new_log[new_log.len() - 1] == action);
            assert forall|i: int| 0 <= i < new_log.len() - 1 implies !(#[trigger] new_log[i] is Exit) by {
                assert(new_log[i] == old_log[i]);
            }
            assert forall|i: int| 0 <= i < new_log.len() implies #[trigger] new_log[i] == if i % 2 == 0 {
                RunnerAction::RunUpdate
            } else if new_log[i] is Exit {
                new_log[i]
            } else {
                RunnerAction::WaitForVBlank
            } by {
                if i < old_log.len() {
                    assert(new_log[i] == old_log[i]);
                }
            }
        }
        self.issued = Ghost(self.issued@.push(action));
        action
    }
}

/// Between any two updates the loop waits for exactly one vertical blank, and never runs
/// two updates back to back.
pub proof fn lemma_frame_pacing(runner: &FrameRunner, i: int, j: int)
    requires
        runner.wf(),
        0 <= i < j < runner.issued@.len(),
        runner.issued@[i] == RunnerAction::RunUpdate,
        runner.issued@[j] == RunnerAction::RunUpdate,
        forall|k: int| i < k < j ==> #[trigger] runner.issued@[k] != RunnerAction::RunUpdate,
    ensures
        j == i + 2,
        runner.issued@[i + 1] == RunnerAction::WaitForVBlank,
{
    let log = runner.issued@;
    assert(log[i + 1] == if (i + 1) % 2 == 0 {
        RunnerAction::RunUpdate
    } else if log[i + 1] is Exit {
        log[i + 1]
    } else {
        RunnerAction::WaitForVBlank
    });
    assert(log[j] == if j % 2 == 0 {
        RunnerAction::RunUpdate
    } else if log[j] is Exit {
        log[j]
    } else {
        RunnerAction::WaitForVBlank
    });
    assert(i % 2 == 0);
    assert(j % 2 == 0);
    if j > i + 2 {
        assert(log[i + 2] == RunnerAction::RunUpdate);
    }
    assert(!(log[i + 1] is Exit));
}

/// Replaces the engine's default driver with the frame loop.
#[derive(Clone, Copy, Debug, Default)]
pub struct AgbRunnerPlugin;

} // verus!
