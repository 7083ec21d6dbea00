//! The operation executor: which call a command makes against the runtime,
//! what the call's outcome reports, and how a batch of calls runs.

use vstd::prelude::*;

verus! {

/// Seconds that the runtime waits for a container to stop before it kills it.
pub const STOP_TIMEOUT_SECS: u32 = 10;

/// One call against the runtime on behalf of the user.
pub enum RuntimeCall {
    Start { id: String },
    Stop { id: String, timeout_secs: u32 },
    Restart { id: String, timeout_secs: u32 },
    Remove { id: String, force: bool, volumes: bool },
}

/// Mathematical value of a [`RuntimeCall`].
pub enum RuntimeCallView {
    Start { id: Seq<char> },
    Stop { id: Seq<char>, timeout_secs: u32 },
    Restart { id: Seq<char>, timeout_secs: u32 },
    Remove { id: Seq<char>, force: bool, volumes: bool },
}

impl RuntimeCallView {
    /// The container that the call is about.
    pub open spec fn id(self) -> Seq<char> {
        match self {
            RuntimeCallView::Start { id } => id,
            RuntimeCallView::Stop { id, .. } => id,
            RuntimeCallView::Restart { id, .. } => id,
            RuntimeCallView::Remove { id, .. } => id,
        }
    }

    /// Whether the call makes the container stop, so that the runtime will
    /// report a `die` event for it.
    pub open spec fn stops(self) -> bool {
        self is Stop || self is Restart
    }
}

impl View for RuntimeCall {
    type V = RuntimeCallView;

    open spec fn view(&self) -> RuntimeCallView {
        match self {
            RuntimeCall::Start { id } => RuntimeCallView::Start { id: id@ },
            RuntimeCall::Stop { id, timeout_secs } => RuntimeCallView::Stop {
                id: id@,
                timeout_secs: *timeout_secs,
            },
            RuntimeCall::Restart { id, timeout_secs } => RuntimeCallView::Restart {
                id: id@,
                timeout_secs: *timeout_secs,
            },
            RuntimeCall::Remove { id, force, volumes } => RuntimeCallView::Remove {
                id: id@,
                force: *force,
                volumes: *volumes,
            },
        }
    }
}

impl RuntimeCall {
    /// The container that the call is about.
    pub fn id(&self) -> (id: &String)
        ensures
            id@ == self@.id(),
    {
        match self {
            RuntimeCall::Start { id } => id,
            RuntimeCall::Stop { id, .. } => id,
            RuntimeCall::Restart { id, .. } => id,
            RuntimeCall::Remove { id, .. } => id,
        }
    }
}

/// The call that starts container `id`.
pub fn start_container(id: String) -> (call: RuntimeCall)
    ensures
        call@ == (RuntimeCallView::Start { id: id@ }),
{
    RuntimeCall::Start { id }
}

/// The call that stops container `id`, giving it ten seconds.
pub fn stop_container(id: String) -> (call: RuntimeCall)
    ensures
        call@ == (RuntimeCallView::Stop { id: id@, timeout_secs: STOP_TIMEOUT_SECS }),
{
    RuntimeCall::Stop { id, timeout_secs: STOP_TIMEOUT_SECS }
}

/// The call that restarts container `id`, giving it ten seconds to stop.
pub fn restart_container(id: String) -> (call: RuntimeCall)
    ensures
        call@ == (RuntimeCallView::Restart { id: id@, timeout_secs: STOP_TIMEOUT_SECS }),
{
    RuntimeCall::Restart { id, timeout_secs: STOP_TIMEOUT_SECS }
}

/// The call that removes container `id`: without force, so a running
/// container is refused, and leaving its volumes.
pub fn remove_container(id: String) -> (call: RuntimeCall)
    ensures
        call@ == (RuntimeCallView::Remove { id: id@, force: false, volumes: false }),
{
    RuntimeCall::Remove { id, force: false, volumes: false }
}

/// What a call that came to `outcome` reports: the container's id where it
/// succeeded, the failure's message where it failed.
pub open spec fn report(call: RuntimeCallView, outcome: Result<(), String>) -> Result<
    Seq<char>,
    Seq<char>,
> {
    match outcome {
        Ok(_) => Ok(call.id()),
        Err(message) => Err(message@),
    }
}

/// The view of a completion report.
pub open spec fn report_view(result: Result<String, String>) -> Result<Seq<char>, Seq<char>> {
    match result {
        Ok(id) => Ok(id@),
        Err(message) => Err(message@),
    }
}

/// Reports the completion of `call`.
pub fn action_result(call: RuntimeCall, outcome: Result<(), String>) -> (result: Result<
    String,
    String,
>)
    ensures
        report_view(result) == report(call@, outcome),
{
    match outcome {
        Ok(_) => {
            let id = match call {
                RuntimeCall::Start { id } => id,
                RuntimeCall::Stop { id, .. } => id,
                RuntimeCall::Restart { id, .. } => id,
                RuntimeCall::Remove { id, .. } => id,
            };
            Ok(id)
        },
        Err(message) => Err(message),
    }
}

/// A batch of calls that run one after another. The first failure ends the
/// batch: the calls after it are never made, and those before it stay done.
pub struct BatchRun {
    calls: Vec<RuntimeCall>,
    done: usize,
    last_result: Result<String, String>,
}

/// Mathematical value of a [`BatchRun`].
pub struct BatchView {
    /// The calls of the batch, in the order in which they are made.
    pub calls: Seq<RuntimeCallView>,
    /// How many calls have been made and have reported.
    pub done: nat,
    /// The report of the call made last; success with an empty id before
    /// the first call.
    pub last_result: Result<Seq<char>, Seq<char>>,
}

impl BatchView {
    /// A batch of which no call has been made yet.
    pub open spec fn start(calls: Seq<RuntimeCallView>) -> BatchView {
        BatchView { calls, done: 0, last_result: Ok(Seq::empty()) }
    }

    /// Whether no further call is to be made: one failed, or all are done.
    pub open spec fn finished(self) -> bool {
        self.last_result is Err || self.done >= self.calls.len()
    }

    /// The call to make next.
    pub open spec fn next_call(self) -> Option<RuntimeCallView> {
        if self.finished() {
            None
        } else {
            Some(self.calls[self.done as int])
        }
    }

    /// The batch once the call made next has come to `outcome`. A finished
    /// batch stays as it is.
    pub open spec fn record(self, outcome: Result<(), String>) -> BatchView {
        if self.finished() {
            self
        } else {
            BatchView {
                done: self.done + 1,
                last_result: report(self.calls[self.done as int], outcome),
                ..self
            }
        }
    }

    /// The batch after the outcomes of its calls have come in, in order.
    pub open spec fn run(self, outcomes: Seq<Result<(), String>>) -> BatchView
        decreases outcomes.len(),
    {
        if outcomes.len() == 0 {
            self
        } else {
            self.run(outcomes.drop_last()).record(outcomes.last())
        }
    }
}

impl View for BatchRun {
    type V = BatchView;

    closed spec fn view(&self) -> BatchView {
        BatchView {
            calls: self.calls@.map_values(|call: RuntimeCall| call@),
            done: self.done as nat,
            last_result: report_view(self.last_result),
        }
    }
}

impl BatchRun {
    #[verifier::type_invariant]
    spec fn within_calls(self) -> bool {
        self.done <= self.calls@.len()
    }

    /// A batch of `calls`, none of them made yet.
    pub fn new(calls: Vec<RuntimeCall>) -> (batch: BatchRun)
        ensures
            batch@ == BatchView::start(calls@.map_values(|call: RuntimeCall| call@)),
    {
        BatchRun { calls, done: 0, last_result: Ok(String::new()) }
    }

    /// Whether no further call is to be made.
    pub fn finished(&self) -> (finished: bool)
        ensures
            finished == self@.finished(),
    {
        self.last_result.is_err() || self.done >= self.calls.len()
    }

    /// The call to make next, if any.
    pub fn next_call(&self) -> (next: Option<&RuntimeCall>)
        ensures
            match next {
                Some(call) => self@.next_call() == Some(call@),
                None => self@.next_call() is None,
            },
    {
        if self.finished() {
            None
        } else {
            Some(&self.calls[self.done])
        }
    }

    /// Records the outcome of the call that [`BatchRun::next_call`] named.
    /// Once the batch is finished, further outcomes change nothing.
    pub fn record(&mut self, outcome: Result<(), String>)
        ensures
            final(self)@ == old(self)@.record(outcome),
    {
        proof {
            use_type_invariant(&*self);
        }
        let count = self.calls.len();
        if self.last_result.is_ok() && self.done < count {
            let next = self.done + 1;
            let result = match outcome {
                Ok(_) => Ok(self.calls[self.done].id().clone()),
                Err(message) => Err(message),
            };
            self.last_result = result;
            self.done = next;
        }
    }

    /// The result of the batch: the first failure, or else the report of
    /// the call made last.
    pub fn result(self) -> (result: Result<String, String>)
        ensures
            report_view(result) == self@.last_result,
    {
        self.last_result
    }
}

/// A batch whose calls all succeed makes every call and reports the id of
/// the last one; an empty batch reports success with an empty id.
pub proof fn lemma_batch_all_succeed(
    calls: Seq<RuntimeCallView>,
    outcomes: Seq<Result<(), String>>,
)
    requires
        outcomes.len() <= calls.len(),
        forall|i: int| 0 <= i < outcomes.len() ==> outcomes[i] is Ok,
    ensures
        BatchView::start(calls).run(outcomes).done == outcomes.len(),
        BatchView::start(calls).run(outcomes).calls == calls,
        BatchView::start(calls).run(outcomes).last_result == if outcomes.len() == 0 {
            Ok::<Seq<char>, Seq<char>>(Seq::empty())
        } else {
            Ok::<Seq<char>, Seq<char>>(calls[outcomes.len() - 1].id())
        },
        outcomes.len() == calls.len() ==> BatchView::start(calls).run(outcomes).finished(),
    decreases outcomes.len(),
{
    if outcomes.len() > 0 {
        let earlier = outcomes.drop_last();
        lemma_batch_all_succeed(calls, earlier);
        assert(outcomes.last() is Ok);
    }
}

/// The first failure ends a batch: its message is the result, the calls
/// before it stay done, and whatever is reported afterwards changes nothing.
pub proof fn lemma_batch_first_failure(
    calls: Seq<RuntimeCallView>,
    outcomes: Seq<Result<(), String>>,
    k: int,
)
    requires
        0 <= k < outcomes.len(),
        k < calls.len(),
        outcomes[k] is Err,
        forall|i: int| 0 <= i < k ==> outcomes[i] is Ok,
    ensures
        BatchView::start(calls).run(outcomes).finished(),
        BatchView::start(calls).run(outcomes).done == k + 1,
        BatchView::start(calls).run(outcomes).last_result == Err::<Seq<char>, Seq<char>>(
            outcomes[k]->Err_0@,
        ),
        BatchView::start(calls).run(outcomes).next_call() is None,
    decreases outcomes.len(),
{
    let earlier = outcomes.drop_last();
    if k == outcomes.len() - 1 {
        lemma_batch_all_succeed(calls, earlier);
    } else {
        assert(earlier[k] == outcomes[k]);
        lemma_batch_first_failure(calls, earlier, k);
    }
}

} // verus!
