//! Remote execution: the commands of a batch, how a batch's step results
//! are consumed, how a live event stream is consumed, and the lifetime of
//! the execution context.

use vstd::prelude::*;

verus! {

/// One remote instruction.
pub enum ExeCommand {
    /// Installs the workload image.
    Deploy,
    /// Starts the runtime.
    Start { args: Vec<String> },
    /// Runs an entry point of the workload.
    Run { entry_point: String, args: Vec<String>, capture_output: bool },
    /// Copies a resource from one URL to another.
    Transfer { from: String, to: String },
}

/// The result of one step of a batch, as the remote side reports it.
pub enum StepEvent {
    StepSuccess { output: String },
    StepFailed { message: String },
}

/// Why a batch did not complete.
pub enum BatchError {
    /// Step `step` failed; the steps after it were not run. Steps before it
    /// were applied and are not rolled back.
    StepFailed { step: usize, message: String },
    /// The remote side stopped reporting after `completed` successful steps.
    Incomplete { completed: usize },
}

/// What is known of a batch in progress.
pub struct BatchView {
    pub commands: Seq<ExeCommand>,
    pub outputs: Seq<String>,
    pub failure: Option<(usize, String)>,
}

impl BatchView {
    pub open spec fn wf(self) -> bool {
        &&& self.outputs.len() <= self.commands.len()
        &&& self.failure matches Some((step, _)) ==> step == self.outputs.len()
            && step < self.commands.len()
    }

    /// The step to run next: the first one without a result, unless one failed.
    pub open spec fn next_step(self) -> Option<usize> {
        if self.failure is None && self.outputs.len() < self.commands.len() {
            Some(self.outputs.len() as usize)
        } else {
            None
        }
    }

    /// The state after the result of the next step comes in.
    pub open spec fn record(self, event: StepEvent) -> BatchView {
        match event {
            StepEvent::StepSuccess { output } => BatchView {
                outputs: self.outputs.push(output),
                ..self
            },
            StepEvent::StepFailed { message } => BatchView {
                failure: Some((self.outputs.len() as usize, message)),
                ..self
            },
        }
    }

    /// What the batch amounts to: the outputs of all steps, the failure of
    /// one step, or too few results.
    pub open spec fn outcome(self) -> Result<Seq<String>, BatchError> {
        match self.failure {
            Some((step, message)) => Err(BatchError::StepFailed { step, message }),
            None => if self.outputs.len() == self.commands.len() {
                Ok(self.outputs)
            } else {
                Err(BatchError::Incomplete { completed: self.outputs.len() as usize })
            },
        }
    }
}

/// A batch whose steps run strictly in order and stop at the first failure.
pub struct BatchRun {
    commands: Vec<ExeCommand>,
    outputs: Vec<String>,
    failure: Option<(usize, String)>,
}

impl View for BatchRun {
    type V = BatchView;

    closed spec fn view(&self) -> BatchView {
        BatchView { commands: self.commands@, outputs: self.outputs@, failure: self.failure }
    }
}

impl BatchRun {
    pub fn new(commands: Vec<ExeCommand>) -> (r: BatchRun)
        ensures
            r@ == (BatchView { commands: commands@, outputs: Seq::empty(), failure: None }),
            r@.wf(),
    {
        BatchRun { commands, outputs: Vec::new(), failure: None }
    }

    /// The index of the command to submit next, or `None` once every step
    /// has succeeded or one has failed.
    pub fn next_step(&self) -> (r: Option<usize>)
        ensures
            r == self@.next_step(),
    {
        if self.failure.is_none() && self.outputs.len() < self.commands.len() {
            Some(self.outputs.len())
        } else {
            None
        }
    }

    pub fn command(&self, index: usize) -> (r: &ExeCommand)
        requires
            index < self@.commands.len(),
        ensures
            *r == self@.commands[index as int],
    {
        &self.commands[index]
    }

    /// Records the result of the step that `next_step` named.
    pub fn record(&mut self, event: StepEvent)
        requires
            old(self)@.wf(),
            old(self)@.next_step() is Some,
        ensures
            final(self)@ == old(self)@.record(event),
            final(self)@.wf(),
    {
        match event {
            StepEvent::StepSuccess { output } => {
                self.outputs.push(output);
            },
            StepEvent::StepFailed { message } => {
                self.failure = Some((self.outputs.len(), message));
            },
        }
    }

    /// The outputs of every step, or the error that stopped the batch.
    pub fn finish(self) -> (r: Result<Vec<String>, BatchError>)
        ensures
            match (r, self@.outcome()) {
                (Ok(outs), Ok(expected)) => outs@ == expected,
                (Err(e), Err(expected)) => e == expected,
                _ => false,
            },
    {
        match self.failure {
            Some((step, message)) => Err(BatchError::StepFailed { step, message }),
            None => if self.outputs.len() == self.commands.len() {
                Ok(self.outputs)
            } else {
                Err(BatchError::Incomplete { completed: self.outputs.len() })
            },
        }
    }
}

/// The view after feeding `events` in order, stopping once no step is left.
pub open spec fn record_all(v: BatchView, events: Seq<StepEvent>) -> BatchView
    decreases events.len(),
{
    if events.len() == 0 || v.next_step() is None {
        v
    } else {
        record_all(v.record(events[0]), events.drop_first())
    }
}

/// Collects the step results of a batch submitted as a whole. Results after
/// the first failure, or after the last step, are not read.
pub fn execute_commands(commands: Vec<ExeCommand>, events: Vec<StepEvent>) -> (r: Result<
    Vec<String>,
    BatchError,
>)
    ensures
        ({
            let v = record_all(
                BatchView { commands: commands@, outputs: Seq::empty(), failure: None },
                events@,
            );
            match (r, v.outcome()) {
                (Ok(outs), Ok(expected)) => outs@ == expected,
                (Err(e), Err(expected)) => e == expected,
                _ => false,
            }
        }),
{
    let ghost all = events@;
    let mut run = BatchRun::new(commands);
    let mut events = events;
    let ghost start = run@;
    while events.len() > 0 && run.next_step().is_some()
        invariant
            run@.wf(),
            record_all(start, all) == record_all(run@, events@),
        decreases events.len(),
    {
        let ghost rest = events@;
        let event = events.remove(0);
        assert(rest.drop_first() =~= events@);
        run.record(event);
    }
    assert(record_all(run@, events@) == run@);
    run.finish()
}

/// A batch that stops at a failed step runs nothing after it, and reports
/// that step and its message.
pub proof fn lemma_batch_abort(v: BatchView, message: String, later: Seq<StepEvent>)
    requires
        v.wf(),
        v.next_step() is Some,
    ensures
        ({
            let failed = v.record(StepEvent::StepFailed { message });
            &&& failed.next_step() is None
            &&& record_all(failed, later) == failed
            &&& failed.outcome() == Err::<Seq<String>, BatchError>(
                BatchError::StepFailed { step: v.outputs.len() as usize, message },
            )
            &&& failed.outputs == v.outputs
        }),
{
    let failed = v.record(StepEvent::StepFailed { message });
    assert(failed.next_step() is None);
    if later.len() > 0 {
        assert(record_all(failed, later) == failed);
    }
}

/// An event of a long-running remote process.
pub enum RuntimeEvent {
    StdOut(Vec<u8>),
    StdErr(Vec<u8>),
    Finished { return_code: i32, message: Option<String> },
}

/// How a remote process ended.
pub struct RemoteExit {
    pub return_code: i32,
    pub message: Option<String>,
}

impl RemoteExit {
    /// A zero return code.
    pub fn succeeded(&self) -> (r: bool)
        ensures
            r == (self.return_code == 0),
    {
        self.return_code == 0
    }
}

/// What to do with one event of the stream.
pub enum StreamAction {
    /// Forward these bytes to the standard output sink.
    ForwardStdOut(Vec<u8>),
    /// Forward these bytes to the standard error sink.
    ForwardStdErr(Vec<u8>),
    /// The process ended: stop pulling.
    Stop,
}

/// Consumes the event stream of one remote process.
pub struct StreamConsumer {
    /// Standard output bytes seen so far (saturating), for progress display.
    pub stdout_bytes: u64,
    pub exit: Option<RemoteExit>,
}

pub open spec fn saturating_add(a: u64, b: nat) -> u64 {
    if a + b <= u64::MAX {
        (a + b) as u64
    } else {
        u64::MAX
    }
}

impl StreamConsumer {
    pub fn new() -> (r: StreamConsumer)
        ensures
            r.stdout_bytes == 0,
            r.exit is None,
    {
        StreamConsumer { stdout_bytes: 0, exit: None }
    }

    /// Once the process has ended, nothing more is pulled.
    pub fn is_finished(&self) -> (r: bool)
        ensures
            r == self.exit is Some,
    {
        self.exit.is_some()
    }

    /// Takes the next event: output is handed on at once, and `Finished`
    /// ends the stream.
    pub fn on_event(&mut self, event: RuntimeEvent) -> (r: StreamAction)
        requires
            old(self).exit is None,
        ensures
            match event {
                RuntimeEvent::StdOut(bytes) => {
                    &&& r == StreamAction::ForwardStdOut(bytes)
                    &&& final(self).stdout_bytes == saturating_add(
                        old(self).stdout_bytes,
                        bytes@.len(),
                    )
                    &&& final(self).exit is None
                },
                RuntimeEvent::StdErr(bytes) => {
                    &&& r == StreamAction::ForwardStdErr(bytes)
                    &&& final(self).stdout_bytes == old(self).stdout_bytes
                    &&& final(self).exit is None
                },
                RuntimeEvent::Finished { return_code, message } => {
                    &&& r == StreamAction::Stop
                    &&& final(self).stdout_bytes == old(self).stdout_bytes
                    &&& final(self).exit == Some(RemoteExit { return_code, message })
                },
            },
    {
        match event {
            RuntimeEvent::StdOut(bytes) => {
                let n = bytes.len() as u64;
                self.stdout_bytes = self.stdout_bytes.saturating_add(n);
                StreamAction::ForwardStdOut(bytes)
            },
            RuntimeEvent::StdErr(bytes) => StreamAction::ForwardStdErr(bytes),
            RuntimeEvent::Finished { return_code, message } => {
                self.exit = Some(RemoteExit { return_code, message });
                StreamAction::Stop
            },
        }
    }
}

/// Why a stream gave no exit.
pub enum StreamError {
    /// The stream ended after `pulled` events without a `Finished` event.
    ClosedEarly { pulled: usize },
}

pub open spec fn is_finished_event(e: RuntimeEvent) -> bool {
    e is Finished
}

/// Consumes a stream up to and including its first `Finished` event and
/// returns how the process ended and how many events were pulled.
pub fn consume_stream(events: Vec<RuntimeEvent>) -> (r: Result<(RemoteExit, usize), StreamError>)
    ensures
        match r {
            Ok((exit, pulled)) => {
                &&& 0 < pulled <= events@.len()
                &&& events@[pulled - 1] == RuntimeEvent::Finished {
                    return_code: exit.return_code,
                    message: exit.message,
                }
                &&& forall|i: int| 0 <= i < pulled - 1 ==> !is_finished_event(#[trigger] events@[i])
            },
            Err(StreamError::ClosedEarly { pulled }) => {
                &&& pulled == events@.len()
                &&& forall|i: int| 0 <= i < events@.len() ==> !is_finished_event(#[trigger] events@[i])
            },
        },
{
    let ghost all = events@;
    let total = events.len();
    let mut consumer = StreamConsumer::new();
    let mut pending = events;
    let mut pulled: usize = 0;
    while pending.len() > 0
        invariant
            pulled + pending@.len() == all.len(),
            all.len() == total,
            all == events@,
            pending@ == all.subrange(pulled as int, all.len() as int),
            consumer.exit is None,
            forall|i: int| 0 <= i < pulled ==> !is_finished_event(#[trigger] all[i]),
        decreases pending.len(),
    {
        let ghost rest = pending@;
        let event = pending.remove(0);
        assert(rest.drop_first() =~= pending@);
        assert(all[pulled as int] == event);
        pulled = pulled + 1;
        let ghost seen = event;
        let _ = consumer.on_event(event);
        match consumer.exit {
            Some(exit) => {
                assert(seen == RuntimeEvent::Finished {
                    return_code: exit.return_code,
                    message: exit.message,
                });
                return Ok((exit, pulled));
            },
            None => {
                assert(all.subrange(pulled as int, all.len() as int) =~= pending@);
            },
        }
    }
    Err(StreamError::ClosedEarly { pulled })
}

/// The live remote runtime bound to an agreement.
pub struct ExecutionContext {
    pub activity_id: String,
    pub destroyed: bool,
}

/// Whether tearing down a context in state `destroyed` sends a teardown,
/// and the state after it.
pub open spec fn destroy_outcome(destroyed: bool) -> (bool, bool) {
    (true, !destroyed)
}

impl ExecutionContext {
    pub fn new(activity_id: String) -> (r: ExecutionContext)
        ensures
            r.activity_id == activity_id,
            !r.destroyed,
    {
        ExecutionContext { activity_id, destroyed: false }
    }

    /// Tears the context down: returns `true` when the teardown request is to
    /// be sent, which happens on the first call only.
    pub fn destroy(&mut self) -> (send_teardown: bool)
        ensures
            (final(self).destroyed, send_teardown) == destroy_outcome(old(self).destroyed),
            final(self).activity_id == old(self).activity_id,
    {
        let send_teardown = !self.destroyed;
        self.destroyed = true;
        send_teardown
    }
}

/// Destroying twice is harmless: the second call sends nothing and changes
/// nothing.
pub proof fn lemma_destroy_idempotent(destroyed: bool)
    ensures
        ({
            let (after_first, _) = destroy_outcome(destroyed);
            let (after_second, second_sends) = destroy_outcome(after_first);
            &&& after_second == after_first
            &&& !second_sends
            &&& after_first
        }),
{
}

/// The batch that installs the workload and starts its runtime.
pub fn deploy_and_start() -> (r: Vec<ExeCommand>)
    ensures
        r@.len() == 2,
        r@[0] == ExeCommand::Deploy,
        r@[1] matches ExeCommand::Start { args } && args@.len() == 0,
{
    vec![ExeCommand::Deploy, ExeCommand::Start { args: Vec::new() }]
}

/// The command that runs the prover on the node, with its output streamed.
pub fn prover_run_command() -> (r: ExeCommand)
    ensures
        r matches ExeCommand::Run { entry_point, args, capture_output }
            && entry_point@ == "/bin/yagna-prover"@ && args@.len() == 1 && args@[0]@
            == "ya-prover"@ && capture_output,
{
    ExeCommand::Run {
        entry_point: String::from_str("/bin/yagna-prover"),
        args: vec![String::from_str("ya-prover")],
        capture_output: true,
    }
}

} // verus!
