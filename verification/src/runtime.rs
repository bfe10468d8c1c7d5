//! What kind of runtime to run on.

use vstd::prelude::*;

verus! {

#[derive(Debug, Clone, Copy, PartialEq, Eq, Structural)]
pub enum RuntimeType {
    SingleThread,
    MultiThreadWorkStealing,
    MultiThreadNoWorkStealing,
}

impl Default for RuntimeType {
    fn default() -> (r: RuntimeType)
        ensures
            r == RuntimeType::SingleThread,
    {
        RuntimeType::SingleThread
    }
}

impl RuntimeType {
    pub fn recommended() -> (r: RuntimeType)
        ensures
            r == RuntimeType::MultiThreadNoWorkStealing,
    {
        RuntimeType::MultiThreadNoWorkStealing
    }
}

/// Whether the machine may have so many processors. It is a relation and picks no
/// number.
pub uninterp spec fn may_have_processors(n: usize) -> bool;

/// Calls `num_cpus::get`. How many processors there are depends on the machine, so
/// that all that is claimed is that it may have so many; there is at least one.
#[verifier::external_body]
fn processors() -> (r: usize)
    ensures
        r >= 1,
        may_have_processors(r),
{
    num_cpus::get()
}

/// The runtime that is to be built.
#[derive(Debug, Clone, Copy, PartialEq, Eq, Structural)]
pub enum RuntimePlan {
    CurrentThread,
    /// As many threads as the runtime sees fit.
    MultiThread,
    MultiThreadOf { threads: usize },
}

/// The number of threads: as many as were asked for, or else one for each
/// processor.
pub open spec fn thread_count(asked: Option<usize>, processors: usize) -> usize {
    match asked {
        Some(n) => n,
        None => processors,
    }
}

/// The runtime of a type, with the threads that were asked for, on a machine
/// with so many processors.
pub open spec fn plan_of(
    runtime_type: RuntimeType,
    asked: Option<usize>,
    processors: usize,
) -> RuntimePlan {
    match runtime_type {
        RuntimeType::SingleThread => RuntimePlan::CurrentThread,
        RuntimeType::MultiThreadWorkStealing => RuntimePlan::MultiThread,
        RuntimeType::MultiThreadNoWorkStealing => RuntimePlan::MultiThreadOf {
            threads: thread_count(asked, processors),
        },
    }
}

/// The runtime of a type on a machine with so many processors.
pub fn plan_for(runtime_type: RuntimeType, threads: Option<usize>, processors: usize) -> (r:
    RuntimePlan)
    ensures
        r == plan_of(runtime_type, threads, processors),
{
    match runtime_type {
        RuntimeType::SingleThread => RuntimePlan::CurrentThread,
        RuntimeType::MultiThreadWorkStealing => RuntimePlan::MultiThread,
        RuntimeType::MultiThreadNoWorkStealing => RuntimePlan::MultiThreadOf {
            threads: match threads {
                Some(n) => n,
                None => processors,
            },
        },
    }
}

/// The runtime of a type on this machine.
pub fn plan(runtime_type: RuntimeType, threads: Option<usize>) -> (r: RuntimePlan)
    ensures
        exists|n: usize|
            n >= 1 && may_have_processors(n) && r == #[trigger] plan_of(runtime_type, threads, n),
{
    let n = processors();
    plan_for(runtime_type, threads, n)
}

/// Which runtime the program is to run on.
#[derive(Debug)]
pub struct ProtocolRuntime {
    runtime_type: RuntimeType,
    threads: Option<usize>,
}

/// The mathematical model of a [`ProtocolRuntime`].
pub struct RuntimeView {
    pub runtime_type: RuntimeType,
    pub threads: Option<usize>,
}

impl View for ProtocolRuntime {
    type V = RuntimeView;

    closed spec fn view(&self) -> RuntimeView {
        RuntimeView { runtime_type: self.runtime_type, threads: self.threads }
    }
}

impl ProtocolRuntime {
    pub fn new() -> (r: ProtocolRuntime)
        ensures
            r@ == (RuntimeView { runtime_type: RuntimeType::SingleThread, threads: None }),
    {
        ProtocolRuntime { runtime_type: RuntimeType::default(), threads: None }
    }

    pub fn with_type(self, runtime_type: RuntimeType) -> (r: ProtocolRuntime)
        ensures
            r@ == (RuntimeView { runtime_type, ..self@ }),
    {
        ProtocolRuntime { runtime_type, ..self }
    }

    pub fn with_threads(self, threads: usize) -> (r: ProtocolRuntime)
        ensures
            r@ == (RuntimeView { threads: Some(threads), ..self@ }),
    {
        ProtocolRuntime { threads: Some(threads), ..self }
    }

    /// The number of threads: as many as were asked for, or else one for each
    /// processor.
    pub fn get_thread_count(&self) -> (r: usize)
        ensures
            self@.threads matches Some(n) ==> r == n,
            self@.threads is None ==> r >= 1 && may_have_processors(r),
    {
        match self.threads {
            Some(n) => n,
            None => processors(),
        }
    }

    /// The runtime that is to be built on this machine.
    pub fn plan(&self) -> (r: RuntimePlan)
        ensures
            exists|n: usize|
                n >= 1 && may_have_processors(n) && r == #[trigger] plan_of(
                    self@.runtime_type,
                    self@.threads,
                    n,
                ),
    {
        plan(self.runtime_type, self.threads)
    }
}

impl Default for ProtocolRuntime {
    fn default() -> (r: ProtocolRuntime)
        ensures
            r@ == (RuntimeView { runtime_type: RuntimeType::SingleThread, threads: None }),
    {
        ProtocolRuntime::new()
    }
}

/// A single thread runs by itself, work stealing leaves the number of threads to the
/// runtime, and without it there are as many as were asked for, or else one for each
/// processor.
pub proof fn law_plan_follows_the_type(asked: Option<usize>, n: usize, processors: usize)
    ensures
        plan_of(RuntimeType::SingleThread, asked, processors) == RuntimePlan::CurrentThread,
        plan_of(RuntimeType::MultiThreadWorkStealing, asked, processors)
            == RuntimePlan::MultiThread,
        plan_of(RuntimeType::MultiThreadNoWorkStealing, Some(n), processors) == (
        RuntimePlan::MultiThreadOf { threads: n }),
        plan_of(RuntimeType::MultiThreadNoWorkStealing, None, processors) == (
        RuntimePlan::MultiThreadOf { threads: processors }),
        thread_count(Some(n), processors) == n,
        thread_count(None, processors) == processors,
{
}

/// A runtime is of the type and has the threads that it is given.
pub proof fn law_runtime_takes_its_settings(
    t: RuntimeType,
    n: usize,
    fresh: ProtocolRuntime,
    typed: ProtocolRuntime,
    threaded: ProtocolRuntime,
    count: usize,
    processors: usize,
    plan: RuntimePlan,
)
    requires
        call_ensures(ProtocolRuntime::new, (), fresh),
        call_ensures(ProtocolRuntime::with_type, (fresh, t), typed),
        call_ensures(ProtocolRuntime::with_threads, (typed, n), threaded),
        call_ensures(ProtocolRuntime::get_thread_count, (&threaded,), count),
        call_ensures(plan_for, (t, Some(n), processors), plan),
    ensures
        fresh@.runtime_type == RuntimeType::SingleThread && fresh@.threads is None,
        threaded@.runtime_type == t,
        count == n,
        t == RuntimeType::MultiThreadNoWorkStealing ==> plan == (RuntimePlan::MultiThreadOf {
            threads: n,
        }),
        t == RuntimeType::SingleThread ==> plan == RuntimePlan::CurrentThread,
        t == RuntimeType::MultiThreadWorkStealing ==> plan == RuntimePlan::MultiThread,
{
}

} // verus!
