//! Per-platform dispatch: picking a strategy, marshal decisions, and the
//! dedicated worker's lifecycle.
//!
//! Three mutually exclusive strategies exist, selected once per process from
//! the runtime platform. Direct runs work inline on the calling thread.
//! Main-thread marshal runs inline when already on the UI thread and
//! otherwise schedules onto it — asynchronously when the caller does not need
//! the result, else blocking until the UI thread produced one. The dedicated
//! runner owns a worker thread that pumps the platform's event queue and
//! drains a FIFO task queue; its lifecycle is the state machine below.

use vstd::prelude::*;

use crate::error::WebViewError;
use crate::handle::Platform;

verus! {

/// How work reaches the thread that owns the platform's UI loop.
#[derive(Clone, Copy, PartialEq, Eq, Structural, Debug)]
pub enum Strategy {
    /// The caller already is the UI thread: run the body inline.
    Direct,
    /// The process has one OS-identified UI thread: marshal onto it.
    MainThreadMarshal,
    /// The UI loop lives on a worker thread the dispatcher itself owns.
    DedicatedThread,
}

/// The one strategy each platform uses, chosen once per process.
pub fn strategy_for(platform: Platform) -> (s: Strategy)
    ensures
        platform is Linux ==> s is DedicatedThread,
        platform is MacOs ==> s is MainThreadMarshal,
        platform is Windows ==> s is Direct,
        platform is Unsupported ==> s is Direct,
{
    match platform {
        Platform::Linux => Strategy::DedicatedThread,
        Platform::MacOs => Strategy::MainThreadMarshal,
        // With no resolver support every operation fails before it reaches a
        // native call, so inline dispatch is safe there too.
        Platform::Windows | Platform::Unsupported => Strategy::Direct,
    }
}

/// What a main-thread marshal does with one unit of work.
#[derive(Clone, Copy, PartialEq, Eq, Structural, Debug)]
pub enum MarshalDecision {
    /// Already on the UI thread: run inline, return the result synchronously.
    RunInline,
    /// The caller does not need the result: schedule it asynchronously and
    /// report success at once. The caller must not assume it has completed.
    FireAndForget,
    /// Schedule it and block until the UI thread produced the result.
    BlockUntilDone,
}

/// Decides how the main-thread marshal dispatches one unit of work, given
/// whether the current thread is the UI thread and whether the caller needs
/// the result. Only the bounds-repositioning path forgoes its result.
pub fn marshal_decision(on_ui_thread: bool, needs_result: bool) -> (d: MarshalDecision)
    ensures
        on_ui_thread ==> d is RunInline,
        !on_ui_thread && !needs_result ==> d is FireAndForget,
        !on_ui_thread && needs_result ==> d is BlockUntilDone,
{
    if on_ui_thread {
        MarshalDecision::RunInline
    } else if needs_result {
        MarshalDecision::BlockUntilDone
    } else {
        MarshalDecision::FireAndForget
    }
}

/// Where the dedicated runner stands in its life.
pub enum RunnerPhase {
    /// No worker exists yet; the first use spawns it.
    Uninitialized,
    /// The worker is performing one-time UI-toolkit initialization.
    Initializing,
    /// The worker is draining the task queue and pumping events.
    Ready,
    /// Toolkit initialization failed; terminal and permanent for the process.
    /// The recorded message is replayed to every subsequent dispatch.
    Failed(String),
}

/// The dedicated runner's lifecycle and its FIFO queue of pending tasks,
/// named by ticket. Callers enqueue a ticket and block on a rendezvous until
/// the worker executed that task; the worker takes tickets strictly in
/// submission order, which totally orders all dispatched operations.
pub struct DedicatedRunner {
    phase: RunnerPhase,
    queue: Vec<u64>,
    next_ticket: u64,
}

impl DedicatedRunner {
    /// Where the runner stands in its life.
    pub closed spec fn phase(&self) -> RunnerPhase {
        self.phase
    }

    /// The tickets waiting to run, oldest first.
    pub closed spec fn tasks(&self) -> Seq<u64> {
        self.queue@
    }

    /// The ticket the next submission will get.
    pub closed spec fn ticket_counter(&self) -> u64 {
        self.next_ticket
    }

    /// A runner that has never been used.
    pub fn new() -> (r: DedicatedRunner)
        ensures
            r.phase() is Uninitialized,
            r.tasks() == Seq::<u64>::empty(),
            r.ticket_counter() == 0,
    {
        DedicatedRunner { phase: RunnerPhase::Uninitialized, queue: Vec::new(), next_ticket: 0 }
    }

    /// The ticket the next submission will get, without changing anything.
    /// Lets a caller confirm the ticket counter is not exhausted.
    pub fn peek_next_ticket(&self) -> (t: u64)
        ensures
            t == self.ticket_counter(),
    {
        self.next_ticket
    }

    /// First use: moves an untouched runner to initializing and tells the
    /// caller to spawn the worker; at any later phase nothing changes.
    pub fn begin_init(&mut self) -> (spawn: bool)
        ensures
            spawn == (old(self).phase() is Uninitialized),
            old(self).phase() is Uninitialized ==> final(self).phase() is Initializing,
            !(old(self).phase() is Uninitialized) ==> *final(self) == *old(self),
            final(self).tasks() == old(self).tasks(),
            final(self).ticket_counter() == old(self).ticket_counter(),
    {
        match self.phase {
            RunnerPhase::Uninitialized => {
                self.phase = RunnerPhase::Initializing;
                true
            },
            _ => false,
        }
    }

    /// The worker reports the outcome of one-time toolkit initialization:
    /// success makes the runner ready; failure is terminal, with the message
    /// recorded for replay.
    pub fn complete_init(&mut self, outcome: Result<(), String>)
        requires
            old(self).phase() is Initializing,
        ensures
            outcome is Ok ==> final(self).phase() is Ready,
            outcome matches Err(m) ==> final(self).phase() == RunnerPhase::Failed(m),
            final(self).tasks() == old(self).tasks(),
            final(self).ticket_counter() == old(self).ticket_counter(),
    {
        match outcome {
            Ok(()) => {
                self.phase = RunnerPhase::Ready;
            },
            Err(m) => {
                self.phase = RunnerPhase::Failed(m);
            },
        }
    }

    /// Enqueues one task at the back of the queue and returns its ticket —
    /// unless initialization failed, in which case the recorded error is
    /// replayed at once, without retrying initialization.
    pub fn submit(&mut self) -> (r: Result<u64, WebViewError>)
        requires
            old(self).phase() is Ready || old(self).phase() matches RunnerPhase::Failed(_),
            old(self).ticket_counter() < u64::MAX,
        ensures
            final(self).phase() == old(self).phase(),
            old(self).phase() is Ready ==> (r matches Ok(t) && t == old(self).ticket_counter()
                && final(self).tasks() == old(self).tasks().push(t) && final(self).ticket_counter()
                == old(self).ticket_counter() + 1),
            old(self).phase() matches RunnerPhase::Failed(m) ==> (r matches Err(e) && e
                == WebViewError::PlatformInit(m) && *final(self) == *old(self)),
    {
        if let RunnerPhase::Failed(m) = &self.phase {
            Err(WebViewError::PlatformInit(m.clone()))
        } else {
            let ticket = self.next_ticket;
            self.next_ticket = self.next_ticket + 1;
            self.queue.push(ticket);
            Ok(ticket)
        }
    }

    /// The worker takes the oldest pending task, if any: tasks leave the
    /// queue strictly in submission order.
    pub fn take_task(&mut self) -> (r: Option<u64>)
        ensures
            final(self).phase() == old(self).phase(),
            final(self).ticket_counter() == old(self).ticket_counter(),
            old(self).tasks().len() == 0 ==> r is None && *final(self) == *old(self),
            old(self).tasks().len() > 0 ==> (r matches Some(t) && t == old(self).tasks()[0]
                && final(self).tasks() == old(self).tasks().remove(0)),
    {
        if self.queue.len() == 0 {
            None
        } else {
            Some(self.queue.remove(0))
        }
    }
}

/// Runs the body inline on the calling thread and hands its result back.
/// This is the whole of dispatch on platforms whose callers already run on
/// the thread that owns the UI loop.
pub fn run_on_main_thread<R, F: FnOnce() -> Result<R, WebViewError>>(f: F) -> (r: Result<
    R,
    WebViewError,
>)
    requires
        call_requires(f, ()),
    ensures
        call_ensures(f, (), r),
{
    f()
}

} // verus!
