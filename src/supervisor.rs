//! The routing supervisor: a command processor that owns at most one active
//! link and replaces it when a new route is requested.
//!
//! The supervisor decides; its caller acts. Each command or step outcome handed
//! in yields one `Action` for the caller to carry out, and while a link is being
//! opened the caller reports each step's outcome back before taking the next
//! command, so commands are applied strictly in arrival order.
use vstd::prelude::*;
use crate::gain::{adjusted, GainControl, MAX_GAIN};
use crate::link::{
    built_before, failure_of, input_built_before, next_step, output_built_before, step_failure,
    step_index, LinkError, LinkStep, LINK_STEPS,
};

verus! {

/// Where the supervisor stands.
#[derive(PartialEq, Eq, Structural, Clone, Copy, Debug)]
pub enum Phase {
    /// No link is active.
    Idle,
    /// A link to input device `input` is being opened; `step` is under way.
    Opening { input: usize, step: LinkStep },
    /// A link to input device `input` is active.
    Linked { input: usize },
}

/// An operation requested by the control surface.
#[derive(PartialEq, Eq, Structural, Clone, Copy, Debug)]
pub enum Command {
    /// Route the input device with this index to the output.
    Start(usize),
    /// Add this many thousandths to the gain.
    AdjustGain(i32),
}

/// What the caller must do next.
#[derive(PartialEq, Eq, Structural, Clone, Copy, Debug)]
pub enum Action {
    /// Close the active link first when `close_active` holds, then carry out
    /// `step` of opening a link on input device `input`, and report its outcome.
    Perform { close_active: bool, input: usize, step: LinkStep },
    /// The streams built for input device `input` now form the active link.
    Established { input: usize },
    /// Opening failed with `error`: tear down the input stream if `input_built`
    /// and the output stream if `output_built`, and report the error.
    Abandon { error: LinkError, input_built: bool, output_built: bool },
    /// The gain changed: the capture callback must scale by this level from now on.
    PublishGain(u32),
}

/// The supervisor's state as the laws see it.
pub struct SupervisorView {
    pub phase: Phase,
    pub gain: nat,
}

/// Whether the supervisor can take a command (no link is half-open).
pub open spec fn settled(p: Phase) -> bool {
    !(p is Opening)
}

/// The state and action after a command, from a settled state.
pub open spec fn on_command(v: SupervisorView, cmd: Command) -> (SupervisorView, Action) {
    match cmd {
        Command::Start(input) => (
            SupervisorView { phase: Phase::Opening { input, step: LinkStep::FindInput }, gain: v.gain },
            Action::Perform { close_active: v.phase is Linked, input, step: LinkStep::FindInput },
        ),
        Command::AdjustGain(delta) => {
            let g = adjusted(v.gain as int, delta as int);
            (SupervisorView { phase: v.phase, gain: g as nat }, Action::PublishGain(g as u32))
        },
    }
}

/// The state and action after the step under way succeeded (`ok`) or failed.
pub open spec fn on_outcome(v: SupervisorView, ok: bool) -> (SupervisorView, Action)
    recommends
        v.phase is Opening,
{
    match v.phase {
        Phase::Opening { input, step } => if !ok {
            (
                SupervisorView { phase: Phase::Idle, gain: v.gain },
                Action::Abandon {
                    error: failure_of(step),
                    input_built: input_built_before(step),
                    output_built: output_built_before(step),
                },
            )
        } else if step_index(step) + 1 == LINK_STEPS {
            (SupervisorView { phase: Phase::Linked { input }, gain: v.gain }, Action::Established { input })
        } else {
            let next = choose|n: LinkStep| step_index(n) == step_index(step) + 1;
            (
                SupervisorView { phase: Phase::Opening { input, step: next }, gain: v.gain },
                Action::Perform { close_active: false, input, step: next },
            )
        },
        _ => (v, Action::PublishGain(v.gain as u32)),
    }
}

/// The state after the outcomes `outcomes`, reported one after another.
pub open spec fn after_outcomes(v: SupervisorView, outcomes: Seq<bool>) -> SupervisorView
    decreases outcomes.len(),
{
    if outcomes.len() == 0 {
        v
    } else {
        after_outcomes(on_outcome(v, outcomes[0]).0, outcomes.drop_first())
    }
}

/// The actions produced by reporting the outcomes `outcomes`, in order.
pub open spec fn outcome_actions(v: SupervisorView, outcomes: Seq<bool>) -> Seq<Action>
    decreases outcomes.len(),
{
    if outcomes.len() == 0 {
        Seq::empty()
    } else {
        let (w, a) = on_outcome(v, outcomes[0]);
        seq![a] + outcome_actions(w, outcomes.drop_first())
    }
}

/// Whether `a` carries out a step of opening a link on `input` and closes nothing.
pub open spec fn continues_opening(a: Action, input: usize) -> bool {
    a matches Action::Perform { close_active, input: device, .. } && !close_active && device == input
}

/// Outcomes of a link whose every step succeeds, reported from step `s` on.
pub open spec fn successes_from(s: LinkStep) -> Seq<bool> {
    Seq::new((LINK_STEPS - step_index(s)) as nat, |i: int| true)
}

proof fn lemma_step_has_successor(s: LinkStep)
    requires
        step_index(s) + 1 < LINK_STEPS,
    ensures
        exists|n: LinkStep| step_index(n) == step_index(s) + 1,
{
    match s {
        LinkStep::FindInput => assert(step_index(LinkStep::ConfigureInput) == 1),
        LinkStep::ConfigureInput => assert(step_index(LinkStep::BuildInput) == 2),
        LinkStep::BuildInput => assert(step_index(LinkStep::FindOutput) == 3),
        LinkStep::FindOutput => assert(step_index(LinkStep::ConfigureOutput) == 4),
        LinkStep::ConfigureOutput => assert(step_index(LinkStep::BuildOutput) == 5),
        LinkStep::BuildOutput => assert(step_index(LinkStep::StartInput) == 6),
        LinkStep::StartInput => assert(step_index(LinkStep::StartOutput) == 7),
        LinkStep::StartOutput => {},
    }
}

/// Once opening has reached step `s`, success of every remaining step links the
/// input device; every action before the last carries out a step on that device
/// without closing anything, and the last establishes the link.
pub proof fn lemma_clean_open(input: usize, gain: nat, s: LinkStep)
    ensures
        after_outcomes(SupervisorView { phase: Phase::Opening { input, step: s }, gain }, successes_from(s))
            == (SupervisorView { phase: Phase::Linked { input }, gain }),
        outcome_actions(SupervisorView { phase: Phase::Opening { input, step: s }, gain }, successes_from(s)).len()
            == successes_from(s).len(),
        outcome_actions(SupervisorView { phase: Phase::Opening { input, step: s }, gain }, successes_from(s)).last()
            == (Action::Established { input }),
        forall|i: int| 0 <= i < successes_from(s).len() - 1 ==>
            continues_opening(
                #[trigger] outcome_actions(SupervisorView { phase: Phase::Opening { input, step: s }, gain }, successes_from(s))[i],
                input,
            ),
    decreases LINK_STEPS - step_index(s),
{
    let v = SupervisorView { phase: Phase::Opening { input, step: s }, gain };
    let o = successes_from(s);
    assert(o[0]);
    if step_index(s) + 1 == LINK_STEPS {
        let w = on_outcome(v, true).0;
        assert(o.drop_first() =~= Seq::<bool>::empty());
        assert(after_outcomes(w, Seq::<bool>::empty()) == w);
        assert(outcome_actions(w, Seq::<bool>::empty()) == Seq::<Action>::empty());
        assert(outcome_actions(v, o) =~= seq![Action::Established { input }]);
    } else {
        lemma_step_has_successor(s);
        let next = choose|n: LinkStep| step_index(n) == step_index(s) + 1;
        lemma_clean_open(input, gain, next);
        assert(o.drop_first() =~= successes_from(next));
        let w = SupervisorView { phase: Phase::Opening { input, step: next }, gain };
        assert(on_outcome(v, true) == (w, Action::Perform { close_active: false, input, step: next }));
        let rest = outcome_actions(w, successes_from(next));
        assert(outcome_actions(v, o) == seq![Action::Perform { close_active: false, input, step: next }] + rest);
        assert forall|i: int| 0 <= i < o.len() - 1 implies
            continues_opening(#[trigger] outcome_actions(v, o)[i], input) by {
            if i > 0 {
                assert(outcome_actions(v, o)[i] == rest[i - 1]);
            }
        }
    }
}

/// A `Start` whose input device cannot be found (invalid or disconnected)
/// leaves the supervisor idle with a `StreamOpenError` and nothing to tear
/// down; a later `Start` whose steps all succeed still links its device.
pub proof fn lemma_failed_start_recovers(v: SupervisorView, bad: usize, good: usize)
    requires
        settled(v.phase),
    ensures
        on_outcome(on_command(v, Command::Start(bad)).0, false).0.phase == Phase::Idle,
        on_outcome(on_command(v, Command::Start(bad)).0, false).1 == (Action::Abandon {
            error: LinkError::StreamOpenError,
            input_built: false,
            output_built: false,
        }),
        after_outcomes(
            on_command(on_outcome(on_command(v, Command::Start(bad)).0, false).0, Command::Start(good)).0,
            successes_from(LinkStep::FindInput),
        ).phase == (Phase::Linked { input: good }),
{
    let idle = on_outcome(on_command(v, Command::Start(bad)).0, false).0;
    lemma_clean_open(good, idle.gain, LinkStep::FindInput);
}

/// Replacing an active link: `Start` on another device first closes the link
/// that is active, before any step of the new one, and closes nothing after
/// that; when every step succeeds the one active link is bound to the new device.
pub proof fn lemma_replace_closes_first(old_input: usize, new_input: usize, gain: nat)
    ensures
        on_command(SupervisorView { phase: Phase::Linked { input: old_input }, gain }, Command::Start(new_input)).1
            == (Action::Perform { close_active: true, input: new_input, step: LinkStep::FindInput }),
        after_outcomes(
            on_command(SupervisorView { phase: Phase::Linked { input: old_input }, gain }, Command::Start(new_input)).0,
            successes_from(LinkStep::FindInput),
        ) == (SupervisorView { phase: Phase::Linked { input: new_input }, gain }),
        forall|i: int| 0 <= i < LINK_STEPS - 1 ==>
            continues_opening(
                #[trigger] outcome_actions(
                    on_command(SupervisorView { phase: Phase::Linked { input: old_input }, gain }, Command::Start(new_input)).0,
                    successes_from(LinkStep::FindInput),
                )[i],
                new_input,
            ),
{
    lemma_clean_open(new_input, gain, LinkStep::FindInput);
}

/// A supervisor of one link at a time, with the gain that outlives any link.
pub struct RoutingSupervisor {
    phase: Phase,
    gain: GainControl,
}

impl RoutingSupervisor {
    /// The phase and the gain level.
    pub closed spec fn view(&self) -> SupervisorView {
        SupervisorView { phase: self.phase, gain: self.gain@ }
    }

    /// The gain is within its bounds.
    pub closed spec fn wf(&self) -> bool {
        self.gain.wf()
    }

    /// An idle supervisor with the gain at `level` thousandths.
    pub fn new(level: u32) -> (s: RoutingSupervisor)
        requires
            level <= MAX_GAIN,
        ensures
            s.wf(),
            s@ == (SupervisorView { phase: Phase::Idle, gain: level as nat }),
    {
        RoutingSupervisor { phase: Phase::Idle, gain: GainControl::with_level(level) }
    }

    /// Where the supervisor stands.
    pub fn phase(&self) -> (p: Phase)
        ensures
            p == self@.phase,
    {
        self.phase
    }

    /// The gain level, in thousandths.
    pub fn gain(&self) -> (g: u32)
        ensures
            g == self@.gain,
    {
        self.gain.get()
    }

    /// Whether the supervisor can take a command.
    pub fn is_settled(&self) -> (r: bool)
        ensures
            r == settled(self@.phase),
    {
        !matches!(self.phase, Phase::Opening { .. })
    }

    /// Applies a command. `Start` begins opening a new link, closing the active
    /// one first; `AdjustGain` changes the gain and leaves the link alone.
    pub fn handle(&mut self, cmd: Command) -> (a: Action)
        requires
            old(self).wf(),
            settled(old(self)@.phase),
        ensures
            final(self).wf(),
            (final(self)@, a) == on_command(old(self)@, cmd),
    {
        match cmd {
            Command::Start(input) => {
                let close_active = matches!(self.phase, Phase::Linked { .. });
                self.phase = Phase::Opening { input, step: LinkStep::FindInput };
                Action::Perform { close_active, input, step: LinkStep::FindInput }
            },
            Command::AdjustGain(delta) => {
                self.gain.set(delta);
                Action::PublishGain(self.gain.get())
            },
        }
    }

    /// Takes the outcome of the step under way: on success the next step (or
    /// the new link), on failure the teardown of whatever was built, leaving
    /// the supervisor idle.
    pub fn step_finished(&mut self, ok: bool) -> (a: Action)
        requires
            old(self).wf(),
            old(self)@.phase is Opening,
        ensures
            final(self).wf(),
            (final(self)@, a) == on_outcome(old(self)@, ok),
    {
        match self.phase {
            Phase::Opening { input, step } => {
                if !ok {
                    self.phase = Phase::Idle;
                    let (input_built, output_built) = built_before(step);
                    Action::Abandon { error: step_failure(step), input_built, output_built }
                } else {
                    match next_step(step) {
                        Some(next) => {
                            self.phase = Phase::Opening { input, step: next };
                            Action::Perform { close_active: false, input, step: next }
                        },
                        None => {
                            self.phase = Phase::Linked { input };
                            Action::Established { input }
                        },
                    }
                }
            },
            _ => Action::PublishGain(self.gain.get()),
        }
    }
}

} // verus!
