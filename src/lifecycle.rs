use vstd::prelude::*;

use crate::clock::rfc3339_layout;
use crate::event::{joined, join_command, EventKind, LifecycleEvent};

verus! {

/// How a run ended: the command completed with a success status, or it could
/// not be run, or it exited with a failure status.
#[derive(PartialEq, Eq, Structural, Clone, Copy, Debug)]
pub enum Verdict {
    Finished,
    Crashed,
}

/// Where a run stands.
#[derive(PartialEq, Eq, Structural, Clone, Copy, Debug)]
pub enum Phase {
    /// Nothing has happened yet.
    NotStarted,
    /// The start event is out for delivery.
    Announcing,
    /// The command is out to be run.
    Running,
    /// The closing event is out for delivery.
    Reporting(Verdict),
    /// Both events were delivered.
    Done(Verdict),
    /// The start event could not be delivered; the command was never run.
    AnnounceFailed,
    /// The closing event could not be delivered.
    ReportFailed(Verdict),
}

/// Why a run failed as a whole.
#[derive(Debug)]
pub enum RunError {
    /// The command line is empty.
    Configuration,
    /// A notification could not be delivered.
    Delivery { reason: String },
}

/// What the caller reports back to a run.
#[derive(Debug)]
pub enum Input {
    /// Start the run.
    Begin,
    /// The event last handed out was delivered.
    Delivered,
    /// The event last handed out could not be delivered.
    DeliveryFailed { reason: String },
    /// The command ran and exited; `status` describes its exit status.
    Exited { success: bool, status: String, elapsed_secs: u64 },
    /// The command could not be started or waited on.
    SpawnFailed { error: String, elapsed_secs: u64 },
}

/// What a run asks of the caller next.
#[derive(Debug)]
pub enum Action {
    /// Deliver this event, then report `Delivered` or `DeliveryFailed`.
    Deliver(LifecycleEvent),
    /// Run `program` with `args`, then report `Exited` or `SpawnFailed`.
    Spawn { program: String, args: Vec<String> },
    /// The run is over, with this result.
    Finish(Result<Verdict, RunError>),
}

/// Whether a run in phase `p` takes input `i`.
pub open spec fn accepts(p: Phase, i: Input) -> bool {
    match p {
        Phase::NotStarted => i is Begin,
        Phase::Announcing => i is Delivered || i is DeliveryFailed,
        Phase::Running => i is Exited || i is SpawnFailed,
        Phase::Reporting(_) => i is Delivered || i is DeliveryFailed,
        _ => false,
    }
}

/// How a command's end decides the verdict.
pub open spec fn verdict_of(i: Input) -> Verdict {
    match i {
        Input::Exited { success, .. } => if success {
            Verdict::Finished
        } else {
            Verdict::Crashed
        },
        _ => Verdict::Crashed,
    }
}

/// The phase after input `i` in phase `p`.
pub open spec fn next_phase(p: Phase, i: Input) -> Phase {
    match p {
        Phase::NotStarted => Phase::Announcing,
        Phase::Announcing => if i is Delivered {
            Phase::Running
        } else {
            Phase::AnnounceFailed
        },
        Phase::Running => Phase::Reporting(verdict_of(i)),
        Phase::Reporting(v) => if i is Delivered {
            Phase::Done(v)
        } else {
            Phase::ReportFailed(v)
        },
        _ => p,
    }
}

/// The kinds of the events handed out for delivery on input `i` in phase `p`.
pub open spec fn emission(p: Phase, i: Input) -> Seq<EventKind> {
    match p {
        Phase::NotStarted => seq![EventKind::Started],
        Phase::Running => match verdict_of(i) {
            Verdict::Finished => seq![EventKind::Finished],
            Verdict::Crashed => seq![EventKind::Crashed],
        },
        _ => Seq::empty(),
    }
}

/// Whether input `i` in phase `p` sends the command out to be run.
pub open spec fn spawns(p: Phase, i: Input) -> bool {
    p is Announcing && i is Delivered
}

/// The text that explains a failed command end.
pub open spec fn failure_text(i: Input) -> Seq<char> {
    match i {
        Input::Exited { status, .. } => status@,
        Input::SpawnFailed { error, .. } => error@,
        _ => Seq::empty(),
    }
}

/// The whole seconds that a command end reports.
pub open spec fn elapsed_of(i: Input) -> u64 {
    match i {
        Input::Exited { elapsed_secs, .. } => elapsed_secs,
        Input::SpawnFailed { elapsed_secs, .. } => elapsed_secs,
        _ => 0,
    }
}

/// The action that a run of `commands` in phase `p` answers input `i` with.
/// An event's timestamp is the time at which it was made, and is left open.
pub open spec fn step_action(commands: Seq<String>, p: Phase, i: Input, a: Action) -> bool {
    match p {
        Phase::NotStarted => a matches Action::Deliver(e) && e matches LifecycleEvent::Started {
            command_text,
            ..
        } && command_text@ == joined(commands),
        Phase::Announcing => match i {
            Input::DeliveryFailed { reason } => a == Action::Finish(
                Err(RunError::Delivery { reason }),
            ),
            _ => a matches Action::Spawn { program, args } && program == commands[0] && args@
                == commands.drop_first(),
        },
        Phase::Running => match verdict_of(i) {
            Verdict::Finished => a matches Action::Deliver(e) && e matches LifecycleEvent::Finished {
                elapsed_secs,
                ..
            } && elapsed_secs == elapsed_of(i),
            Verdict::Crashed => a matches Action::Deliver(e) && e matches LifecycleEvent::Crashed {
                command_text,
                error_text,
                elapsed_secs,
                ..
            } && command_text@ == joined(commands) && error_text@ == failure_text(i) && elapsed_secs
                == elapsed_of(i),
        },
        Phase::Reporting(v) => match i {
            Input::DeliveryFailed { reason } => a == Action::Finish(
                Err(RunError::Delivery { reason }),
            ),
            _ => a == Action::Finish(Ok(v)),
        },
        _ => false,
    }
}

/// The phase reached from `p` after `inputs`, one after another.
pub open spec fn after(p: Phase, inputs: Seq<Input>) -> Phase
    decreases inputs.len(),
{
    if inputs.len() == 0 {
        p
    } else {
        after(next_phase(p, inputs[0]), inputs.drop_first())
    }
}

/// Whether a run in phase `p` takes each of `inputs` in turn.
pub open spec fn accepts_all(p: Phase, inputs: Seq<Input>) -> bool
    decreases inputs.len(),
{
    inputs.len() == 0 || (accepts(p, inputs[0]) && accepts_all(
        next_phase(p, inputs[0]),
        inputs.drop_first(),
    ))
}

/// The kinds of the events handed out for delivery along `inputs` from `p`.
pub open spec fn emitted(p: Phase, inputs: Seq<Input>) -> Seq<EventKind>
    decreases inputs.len(),
{
    if inputs.len() == 0 {
        Seq::empty()
    } else {
        emission(p, inputs[0]) + emitted(next_phase(p, inputs[0]), inputs.drop_first())
    }
}

/// How many times the command is sent out to be run along `inputs` from `p`.
pub open spec fn spawn_count(p: Phase, inputs: Seq<Input>) -> nat
    decreases inputs.len(),
{
    if inputs.len() == 0 {
        0
    } else {
        (if spawns(p, inputs[0]) {
            1nat
        } else {
            0nat
        }) + spawn_count(next_phase(p, inputs[0]), inputs.drop_first())
    }
}

/// The event kind that reports a verdict.
pub open spec fn verdict_kind(v: Verdict) -> EventKind {
    match v {
        Verdict::Finished => EventKind::Finished,
        Verdict::Crashed => EventKind::Crashed,
    }
}

/// The kinds of the events handed out by the time a run reaches phase `p`.
pub open spec fn attempted(p: Phase) -> Seq<EventKind> {
    match p {
        Phase::NotStarted => Seq::empty(),
        Phase::Announcing | Phase::Running | Phase::AnnounceFailed => seq![EventKind::Started],
        Phase::Reporting(v) | Phase::Done(v) | Phase::ReportFailed(v) => seq![
            EventKind::Started,
            verdict_kind(v),
        ],
    }
}

/// Whether the command has been sent out to be run by the time a run reaches
/// phase `p`.
pub open spec fn spawned(p: Phase) -> bool {
    !(p is NotStarted || p is Announcing || p is AnnounceFailed)
}

proof fn lemma_emitted_extends(p: Phase, inputs: Seq<Input>)
    requires
        accepts_all(p, inputs),
    ensures
        attempted(p) + emitted(p, inputs) == attempted(after(p, inputs)),
        spawn_count(p, inputs) <= 1,
        spawned(after(p, inputs)) == (spawned(p) || spawn_count(p, inputs) == 1),
        spawned(p) ==> spawn_count(p, inputs) == 0,
    decreases inputs.len(),
{
    if inputs.len() == 0 {
        assert(attempted(p) + emitted(p, inputs) =~= attempted(p));
    } else {
        let q = next_phase(p, inputs[0]);
        lemma_emitted_extends(q, inputs.drop_first());
        assert(attempted(q) =~= attempted(p) + emission(p, inputs[0]));
        assert(attempted(p) + emitted(p, inputs) =~= attempted(q) + emitted(q, inputs.drop_first()));
    }
}

/// A run driven from its start to a closing report hands out exactly two
/// events: the start, then the finish if the command succeeded or the crash
/// if it failed. The command is sent out to be run exactly once on the way.
pub proof fn lemma_lifecycle_order(inputs: Seq<Input>)
    requires
        accepts_all(Phase::NotStarted, inputs),
    ensures
        after(Phase::NotStarted, inputs) == Phase::Done(Verdict::Finished) ==> emitted(
            Phase::NotStarted,
            inputs,
        ) == seq![EventKind::Started, EventKind::Finished],
        after(Phase::NotStarted, inputs) == Phase::Done(Verdict::Crashed) ==> emitted(
            Phase::NotStarted,
            inputs,
        ) == seq![EventKind::Started, EventKind::Crashed],
        after(Phase::NotStarted, inputs) is Done ==> spawn_count(Phase::NotStarted, inputs) == 1,
{
    lemma_emitted_extends(Phase::NotStarted, inputs);
    assert(attempted(Phase::NotStarted) + emitted(Phase::NotStarted, inputs) =~= emitted(
        Phase::NotStarted,
        inputs,
    ));
}

/// When the start event cannot be delivered, the run ends on that report with
/// a delivery error: it takes no further input, hands out no other event, and
/// never sends the command out to be run.
pub proof fn lemma_failed_announcement(inputs: Seq<Input>)
    requires
        accepts_all(Phase::NotStarted, inputs),
        inputs.len() >= 2,
        inputs[1] is DeliveryFailed,
    ensures
        inputs.len() == 2,
        after(Phase::NotStarted, inputs) == Phase::AnnounceFailed,
        emitted(Phase::NotStarted, inputs) == seq![EventKind::Started],
        spawn_count(Phase::NotStarted, inputs) == 0,
        forall|c: Seq<String>, a: Action|
            step_action(c, Phase::Announcing, inputs[1], a) ==> (a matches Action::Finish(
                Err(RunError::Delivery { .. }),
            )),
{
    let rest = inputs.drop_first();
    assert(rest[0] == inputs[1]);
    assert(next_phase(Phase::NotStarted, inputs[0]) == Phase::Announcing);
    assert(next_phase(Phase::Announcing, rest[0]) == Phase::AnnounceFailed);
    let tail = rest.drop_first();
    assert(accepts_all(Phase::Announcing, rest));
    assert(accepts_all(Phase::AnnounceFailed, tail));
    assert(tail.len() == 0);
    assert(after(Phase::AnnounceFailed, tail) == Phase::AnnounceFailed);
    assert(after(Phase::Announcing, rest) == Phase::AnnounceFailed);
    lemma_emitted_extends(Phase::NotStarted, inputs);
    assert(attempted(Phase::NotStarted) + emitted(Phase::NotStarted, inputs) =~= emitted(
        Phase::NotStarted,
        inputs,
    ));
}

/// One run of a command line, from its announcement to its closing report.
pub struct Run {
    commands: Vec<String>,
    phase: Phase,
}

impl Run {
    /// The command line being run.
    pub closed spec fn command_spec(&self) -> Seq<String> {
        self.commands@
    }

    pub closed spec fn phase_spec(&self) -> Phase {
        self.phase
    }

    pub closed spec fn wf(&self) -> bool {
        self.commands@.len() > 0
    }

    /// A run of `commands`; an empty command line is refused before anything
    /// is delivered or spawned.
    pub fn new(commands: Vec<String>) -> (r: Result<Run, RunError>)
        ensures
            commands@.len() == 0 <==> r matches Err(RunError::Configuration),
            commands@.len() > 0 <==> r is Ok,
            r matches Ok(run) ==> run.wf() && run.command_spec() == commands@ && run.phase_spec()
                == Phase::NotStarted,
    {
        if commands.len() == 0 {
            Err(RunError::Configuration)
        } else {
            Ok(Run { commands, phase: Phase::NotStarted })
        }
    }

    pub fn phase(&self) -> (r: Phase)
        ensures
            r == self.phase_spec(),
    {
        self.phase
    }

    /// Whether the run takes `input` now.
    pub fn accepts(&self, input: &Input) -> (r: bool)
        ensures
            r == accepts(self.phase_spec(), *input),
    {
        match self.phase {
            Phase::NotStarted => matches!(input, Input::Begin),
            Phase::Announcing | Phase::Reporting(_) => matches!(
                input,
                Input::Delivered | Input::DeliveryFailed { .. }
            ),
            Phase::Running => matches!(input, Input::Exited { .. } | Input::SpawnFailed { .. }),
            _ => false,
        }
    }

    /// Takes what the caller reports and says what to do next.
    pub fn step(&mut self, input: Input) -> (a: Action)
        requires
            old(self).wf(),
            accepts(old(self).phase_spec(), input),
        ensures
            final(self).wf(),
            final(self).command_spec() == old(self).command_spec(),
            final(self).phase_spec() == next_phase(old(self).phase_spec(), input),
            step_action(old(self).command_spec(), old(self).phase_spec(), input, a),
            a is Deliver <==> emission(old(self).phase_spec(), input).len() == 1,
            a matches Action::Deliver(e) ==> emission(old(self).phase_spec(), input) == seq![
                e.kind(),
            ] && rfc3339_layout(e.stamp()),
            a is Spawn <==> spawns(old(self).phase_spec(), input),
    {
        match self.phase {
            Phase::NotStarted => {
                self.phase = Phase::Announcing;
                Action::Deliver(LifecycleEvent::started(join_command(&self.commands)))
            },
            Phase::Announcing => match input {
                Input::DeliveryFailed { reason } => {
                    self.phase = Phase::AnnounceFailed;
                    Action::Finish(Err(RunError::Delivery { reason }))
                },
                _ => {
                    self.phase = Phase::Running;
                    let program = self.commands[0].clone();
                    let mut args: Vec<String> = Vec::new();
                    let mut i: usize = 1;
                    while i < self.commands.len()
                        invariant
                            1 <= i <= self.commands@.len(),
                            args@ == self.commands@.subrange(1, i as int),
                        decreases self.commands@.len() - i,
                    {
                        args.push(self.commands[i].clone());
                        proof {
                            assert(args@ =~= self.commands@.subrange(1, i + 1));
                        }
                        i = i + 1;
                    }
                    proof {
                        assert(args@ =~= self.commands@.drop_first());
                    }
                    Action::Spawn { program, args }
                },
            },
            Phase::Running => match input {
                Input::Exited { success, status, elapsed_secs } => {
                    if success {
                        self.phase = Phase::Reporting(Verdict::Finished);
                        Action::Deliver(LifecycleEvent::finished(elapsed_secs))
                    } else {
                        self.phase = Phase::Reporting(Verdict::Crashed);
                        Action::Deliver(
                            LifecycleEvent::crashed(
                                join_command(&self.commands),
                                status,
                                elapsed_secs,
                            ),
                        )
                    }
                },
                Input::SpawnFailed { error, elapsed_secs } => {
                    self.phase = Phase::Reporting(Verdict::Crashed);
                    Action::Deliver(
                        LifecycleEvent::crashed(join_command(&self.commands), error, elapsed_secs),
                    )
                },
                // Ruled out by `requires`: a running command ends by `Exited` or `SpawnFailed`.
                _ => Action::Finish(Err(RunError::Configuration)),
            },
            Phase::Reporting(v) => match input {
                Input::DeliveryFailed { reason } => {
                    self.phase = Phase::ReportFailed(v);
                    Action::Finish(Err(RunError::Delivery { reason }))
                },
                _ => {
                    self.phase = Phase::Done(v);
                    Action::Finish(Ok(v))
                },
            },
            // Ruled out by `requires`: a run that has ended takes no input.
            _ => Action::Finish(Err(RunError::Configuration)),
        }
    }
}

} // verus!
