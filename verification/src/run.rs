//! The perception-decision-action loop for one automation run: watch the
//! regions by their sampled hashes, decide through the oracle only when a
//! hash changed, gate the decision on risk, act, and resume watching. The
//! run owns its action context; a cooperative stop takes effect only at a
//! state-machine boundary.

use vstd::prelude::*;
use crate::domain::Region;
use crate::context::ActionContext;
use crate::ports::{ScreenCapture, Automation, AutoEvent, AutoCall, call_outcome, HashProbe, AudioNotifier};
use crate::llm::LLMClient;
use crate::action::{
    LLMPromptGenerationAction, TypeText, ActionOutcome, ActionError, execute_post,
};
use crate::context::expand_spec;

verus! {

/// Where one automation run stands.
#[derive(Debug)]
pub enum RunState {
    /// Not started; no baseline exists yet.
    Idle,
    /// Polling: hashes are compared against the baseline.
    Watching,
    /// A change was observed; the oracle decides the next step.
    Deciding,
    /// The decision bound a prompt; resulting actions execute.
    Acting,
    /// The oracle declared the task complete.
    Completed { reason: String },
    /// A decision step failed; the error chain is kept for audit.
    Failed { error: ActionError },
    /// An external stop signal ended the run.
    Cancelled,
}

/// The run state a decision outcome leads to.
pub open spec fn decided_state(r: Result<ActionOutcome, ActionError>) -> RunState {
    match r {
        Ok(ActionOutcome::Done) => RunState::Acting,
        Ok(ActionOutcome::Completed { reason }) => RunState::Completed { reason },
        Err(error) => RunState::Failed { error },
    }
}

/// One automation run: the watched regions, their baseline hashes, the
/// run-scoped variable context, and the state machine position.
pub struct AutomationRun {
    regions: Vec<Region>,
    downscale: u32,
    baseline: Vec<u64>,
    state: RunState,
    context: ActionContext,
}

impl AutomationRun {
    /// The state machine position.
    pub closed spec fn spec_state(&self) -> RunState {
        self.state
    }

    /// The baseline hashes, one per watched region.
    pub closed spec fn spec_baseline(&self) -> Seq<u64> {
        self.baseline@
    }

    /// The run's variable bindings.
    pub closed spec fn spec_vars(&self) -> Map<Seq<char>, Seq<char>> {
        self.context@
    }

    /// The watched regions.
    pub closed spec fn spec_regions(&self) -> Seq<Region> {
        self.regions@
    }

    /// The configured downscale factor.
    pub closed spec fn spec_downscale(&self) -> u32 {
        self.downscale
    }

    /// The capture port answered one hash query per region, in region
    /// order, right after its earlier queries, and the baseline holds
    /// exactly those answers.
    pub open spec fn baseline_probed(
        &self,
        probes_old: Seq<HashProbe>,
        probes_new: Seq<HashProbe>,
    ) -> bool {
        &&& probes_new.len() == probes_old.len() + self.spec_regions().len()
        &&& probes_new.take(probes_old.len() as int) == probes_old
        &&& forall|i: int|
            0 <= i < self.spec_regions().len() ==> #[trigger] probes_new[probes_old.len() + i]
                == (HashProbe {
                id: self.spec_regions()[i].id@,
                rect: self.spec_regions()[i].rect,
                downscale: self.spec_downscale(),
                result: self.spec_baseline()[i],
            })
    }

    /// A started run holds one baseline hash per region.
    pub open spec fn wf(&self) -> bool {
        self.spec_state() is Idle || self.spec_baseline().len() == self.spec_regions().len()
    }

    /// A run over these regions, not yet started.
    pub fn new(regions: Vec<Region>, downscale: u32) -> (r: Self)
        ensures
            r.spec_state() is Idle,
            r.spec_regions() == regions@,
            r.spec_vars() == Map::<Seq<char>, Seq<char>>::empty(),
            r.wf(),
    {
        AutomationRun {
            regions,
            downscale,
            baseline: Vec::new(),
            state: RunState::Idle,
            context: ActionContext::new(),
        }
    }

    /// The current state.
    pub fn state(&self) -> (r: &RunState)
        ensures
            r == self.spec_state(),
    {
        &self.state
    }

    /// The run's variable context.
    pub fn vars(&self) -> (r: &ActionContext)
        ensures
            r@ == self.spec_vars(),
    {
        &self.context
    }

    /// Begin watching: query the port once per region, in order, and store
    /// the answers as the baseline.
    pub fn start<C: ScreenCapture>(&mut self, capture: &mut C)
        requires
            old(self).spec_state() is Idle,
        ensures
            final(self).spec_state() is Watching,
            final(self).spec_baseline().len() == final(self).spec_regions().len(),
            final(self).spec_regions() == old(self).spec_regions(),
            final(self).spec_vars() == old(self).spec_vars(),
            final(self).wf(),
            final(self).baseline_probed(old(capture).probes(), final(capture).probes()),
    {
        let ghost probes0 = capture.probes();
        let mut hashes: Vec<u64> = Vec::new();
        let mut i: usize = 0;
        while i < self.regions.len()
            invariant
                i <= self.regions@.len(),
                hashes@.len() == i,
                self.regions@ == old(self).spec_regions(),
                self.downscale == old(self).spec_downscale(),
                capture.probes().len() == probes0.len() + i,
                capture.probes().take(probes0.len() as int) == probes0,
                forall|q: int|
                    0 <= q < i ==> #[trigger] capture.probes()[probes0.len() + q]
                        == (HashProbe {
                        id: self.regions@[q].id@,
                        rect: self.regions@[q].rect,
                        downscale: self.downscale,
                        result: hashes@[q],
                    }),
            decreases self.regions@.len() - i,
        {
            let ghost probes_pre = capture.probes();
            let h = capture.hash_region(&self.regions[i], self.downscale);
            hashes.push(h);
            proof {
                assert(capture.probes().take(probes0.len() as int) =~= probes0);
                assert(forall|q: int|
                    0 <= q < i ==> #[trigger] capture.probes()[probes0.len() + q]
                        == probes_pre[probes0.len() + q]);
            }
            i += 1;
        }
        self.baseline = hashes;
        self.state = RunState::Watching;
    }

    /// One poll tick: recompute every region's hash and compare with the
    /// baseline. On no change the run stays Watching and no decision is
    /// made; on a change the baseline is updated first — so fast screen
    /// churn during a decision is not mistaken for no-change later — and
    /// the run moves to Deciding.
    pub fn poll_tick<C: ScreenCapture>(&mut self, capture: &mut C) -> (changed: bool)
        requires
            old(self).spec_state() is Watching,
            old(self).wf(),
        ensures
            changed == (final(self).spec_baseline() != old(self).spec_baseline()),
            final(self).spec_state() == (if changed {
                RunState::Deciding
            } else {
                RunState::Watching
            }),
            final(self).spec_baseline().len() == old(self).spec_baseline().len(),
            final(self).spec_regions() == old(self).spec_regions(),
            final(self).spec_vars() == old(self).spec_vars(),
            final(self).wf(),
            final(self).baseline_probed(old(capture).probes(), final(capture).probes()),
    {
        let ghost probes0 = capture.probes();
        let ghost old_baseline = self.baseline@;
        let mut changed = false;
        let mut i: usize = 0;
        while i < self.regions.len()
            invariant
                i <= self.regions@.len(),
                self.baseline@.len() == old_baseline.len() == self.regions@.len(),
                self.regions@ == old(self).spec_regions(),
                self.downscale == old(self).spec_downscale(),
                self.context@ == old(self).spec_vars(),
                self.state == old(self).spec_state(),
                capture.probes().len() == probes0.len() + i,
                capture.probes().take(probes0.len() as int) == probes0,
                forall|q: int|
                    0 <= q < i ==> #[trigger] capture.probes()[probes0.len() + q]
                        == (HashProbe {
                        id: self.regions@[q].id@,
                        rect: self.regions@[q].rect,
                        downscale: self.downscale,
                        result: self.baseline@[q],
                    }),
                forall|k: int|
                    i <= k < old_baseline.len() ==> #[trigger] self.baseline@[k]
                        == old_baseline[k],
                changed == (exists|k: int|
                    0 <= k < i && #[trigger] self.baseline@[k] != old_baseline[k]),
            decreases self.regions@.len() - i,
        {
            let ghost pre = self.baseline@;
            let ghost probes_pre = capture.probes();
            let ghost was_changed = changed;
            let h = capture.hash_region(&self.regions[i], self.downscale);
            if h != self.baseline[i] {
                changed = true;
            }
            self.baseline.set(i, h);
            proof {
                assert(capture.probes().take(probes0.len() as int) =~= probes0);
                assert forall|q: int|
                    0 <= q < i + 1 implies #[trigger] capture.probes()[probes0.len() + q]
                    == (HashProbe {
                    id: self.regions@[q].id@,
                    rect: self.regions@[q].rect,
                    downscale: self.downscale,
                    result: self.baseline@[q],
                }) by {
                    if q < i {
                        assert(capture.probes()[probes0.len() + q] == probes_pre[probes0.len()
                            + q]);
                        assert(self.baseline@[q] == pre[q]);
                    } else {
                        assert(capture.probes()[probes0.len() + q] == (HashProbe {
                            id: self.regions@[q].id@,
                            rect: self.regions@[q].rect,
                            downscale: self.downscale,
                            result: h,
                        }));
                        assert(self.baseline@[q] == h);
                    }
                }
                assert(old_baseline[i as int] == pre[i as int]);
                assert forall|k: int|
                    i + 1 <= k < old_baseline.len() implies #[trigger] self.baseline@[k]
                    == old_baseline[k] by {
                    assert(self.baseline@[k] == pre[k]);
                }
                if changed {
                    if was_changed {
                        let k0 = choose|k: int|
                            0 <= k < i && #[trigger] pre[k] != old_baseline[k];
                        assert(self.baseline@[k0] == pre[k0]);
                        assert(0 <= k0 < i + 1 && self.baseline@[k0] != old_baseline[k0]);
                    } else {
                        assert(self.baseline@[i as int] == h);
                        assert(0 <= i < i + 1 && self.baseline@[i as int] != old_baseline[
                            i as int
                        ]);
                    }
                } else {
                    assert forall|k: int|
                        0 <= k < i + 1 implies #[trigger] self.baseline@[k] == old_baseline[
                        k
                    ] by {
                        if k < i {
                            assert(self.baseline@[k] == pre[k]);
                        } else {
                            assert(self.baseline@[k] == h);
                        }
                    }
                }
            }
            i += 1;
        }
        proof {
            if changed {
                let k0 = choose|k: int|
                    0 <= k < i && #[trigger] self.baseline@[k] != old_baseline[k];
                assert(self.baseline@[k0] != old_baseline[k0]);
                assert(self.baseline@ != old_baseline);
            } else {
                assert(self.baseline@ =~= old_baseline);
            }
        }
        if changed {
            self.state = RunState::Deciding;
        } else {
            self.state = RunState::Watching;
        }
        changed
    }

    /// Run the decision step: execute the prompt-generation action against
    /// this run's context, surface its result, and pin the run state to it:
    /// a bound prompt moves the run to Acting; a completion decision
    /// terminates it cleanly; any error — risk breach, validation, capture
    /// or exhausted oracle — terminates it Failed with the error kept for
    /// audit. The result itself obeys the decision step's full contract.
    pub fn decide<C: ScreenCapture, L: LLMClient, N: AudioNotifier>(
        &mut self,
        action: &LLMPromptGenerationAction,
        capture: &C,
        llm: &L,
        audio: &mut N,
    ) -> (r: Result<ActionOutcome, ActionError>)
        requires
            old(self).spec_state() is Deciding,
        ensures
            execute_post(
                action.region_ids@,
                action.all_regions@,
                action.risk_threshold,
                action.variable_name@,
                old(self).spec_vars(),
                final(self).spec_vars(),
                old(audio).alarm_count(),
                final(audio).alarm_count(),
                r,
            ),
            final(self).spec_state() == decided_state(r),
            final(self).spec_regions() == old(self).spec_regions(),
            final(self).spec_baseline() == old(self).spec_baseline(),
            old(self).wf() ==> final(self).wf(),
    {
        let r = action.execute(capture, llm, audio, &mut self.context);
        match &r {
            Ok(ActionOutcome::Done) => {
                self.state = RunState::Acting;
            },
            Ok(ActionOutcome::Completed { reason }) => {
                self.state = RunState::Completed { reason: reason.clone() };
            },
            Err(error) => {
                self.state = RunState::Failed { error: error.duplicate() };
            },
        }
        r
    }

    /// Execute a text action resulting from the decision (for example one
    /// consuming the bound variable), then resume watching.
    pub fn act_type_text<A: Automation>(&mut self, action: &TypeText, automation: &mut A) -> (r:
        Result<(), String>)
        requires
            old(self).spec_state() is Acting,
            old(self).wf(),
        ensures
            final(automation).events() == old(automation).events().push(
                AutoCall {
                    event: AutoEvent::TypedText {
                        text: expand_spec(action.text@, old(self).spec_vars()),
                    },
                    outcome: call_outcome(r),
                },
            ),
            final(self).spec_state() is Watching,
            final(self).spec_vars() == old(self).spec_vars(),
            final(self).spec_baseline() == old(self).spec_baseline(),
            final(self).spec_regions() == old(self).spec_regions(),
            final(self).wf(),
    {
        let r = action.execute(automation, &mut self.context);
        self.state = RunState::Watching;
        r
    }

    /// An external stop signal: end the run without further action
    /// execution, whatever state it is in.
    pub fn cancel(&mut self)
        ensures
            final(self).spec_state() is Cancelled,
            final(self).spec_vars() == old(self).spec_vars(),
    {
        self.state = RunState::Cancelled;
    }
}

} // verus!
