//! Tasks and the combinators that build tasks from tasks.
//!
//! A task takes an input and the shared resources, which it owns while it
//! runs, and hands back a result together with the shared resources as it
//! left them.  Executing a task consumes it: a task runs at most once.
//!
//! What a task does is described by two predicates.  `accepts` says on which
//! inputs and shared resources it may be run; `yields` relates them to every
//! outcome the run can have.  The combinators define both for the composed
//! task from those of its parts, and each constructor states them for the
//! task it returns, so that a caller can reason about a task it has built
//! from closures.
use vstd::prelude::*;
use crate::error::LoadError;

verus! {

/// One composable, single-use unit of loading work.
pub trait Task<I, S>: Sized {
    /// What the task produces when it succeeds.
    type Output;

    /// The task may be run on `input` with the shared resources `shared`.
    spec fn accepts(&self, input: I, shared: S) -> bool;

    /// Run on `input` with `shared`, the task can end with `outcome`: its
    /// result, and the shared resources as it leaves them.
    spec fn yields(&self, input: I, shared: S, outcome: (Result<Self::Output, LoadError>, S)) -> bool;

    /// Runs the task once.
    fn execute(self, input: I, shared: S) -> (outcome: (Result<Self::Output, LoadError>, S))
        requires
            self.accepts(input, shared),
        ensures
            self.yields(input, shared, outcome),
    ;
}

/// A task that is one step function.
pub struct Step<F> {
    pub action: F,
}

impl<F> Step<F> {
    /// Wraps a step function.  The task accepts what the function requires and
    /// yields what the function ensures.
    pub fn new<I, S, O>(action: F) -> (step: Step<F>) where
        F: FnOnce(I, S) -> (Result<O, LoadError>, S),

        ensures
            step.action == action,
            forall|input: I, shared: S| #[trigger]
                step.accepts(input, shared) == call_requires(action, (input, shared)),
            forall|input: I, shared: S, outcome: (Result<O, LoadError>, S)| #[trigger]
                step.yields(input, shared, outcome) == call_ensures(
                    action,
                    (input, shared),
                    outcome,
                ),
    {
        Step { action }
    }
}

impl<I, S, O, F: FnOnce(I, S) -> (Result<O, LoadError>, S)> Task<I, S> for Step<F> {
    type Output = O;

    open spec fn accepts(&self, input: I, shared: S) -> bool {
        call_requires(self.action, (input, shared))
    }

    open spec fn yields(&self, input: I, shared: S, outcome: (Result<O, LoadError>, S)) -> bool {
        call_ensures(self.action, (input, shared), outcome)
    }

    fn execute(self, input: I, shared: S) -> (outcome: (Result<O, LoadError>, S)) {
        (self.action)(input, shared)
    }
}

/// `task.map(f)` may run where `task` may, provided `f` may be called on every
/// output `task` can succeed with, together with the shared resources it leaves.
pub open spec fn map_accepts<I, S, O, P, T, F>(task: T, f: F, input: I, shared: S) -> bool where
    T: Task<I, S, Output = O>,
    F: FnOnce(O, S) -> (Result<P, LoadError>, S),
 {
    &&& task.accepts(input, shared)
    &&& forall|out: O, mid: S| #[trigger]
        task.yields(input, shared, (Ok(out), mid)) ==> call_requires(f, (out, mid))
}

/// `task.map(f)` ends as `f` does on the output of `task` and the shared
/// resources `task` left; where `task` fails it ends as `task` did.
pub open spec fn map_yields<I, S, O, P, T, F>(
    task: T,
    f: F,
    input: I,
    shared: S,
    outcome: (Result<P, LoadError>, S),
) -> bool where T: Task<I, S, Output = O>, F: FnOnce(O, S) -> (Result<P, LoadError>, S) {
    exists|first: (Result<O, LoadError>, S)| #[trigger]
        task.yields(input, shared, first) && match first.0 {
            Ok(out) => call_ensures(f, (out, first.1), outcome),
            Err(e) => outcome == (Err::<P, LoadError>(e), first.1),
        }
}

/// `first.sequence(second)` may run where `first` may, provided `second` may
/// run on the shared resources that any success of `first` leaves.
pub open spec fn sequence_accepts<I, S, O, A, B>(first: A, second: B, input: I, shared: S) -> bool where
    A: Task<I, S, Output = O>,
    B: Task<I, S>,
 {
    &&& first.accepts(input, shared)
    &&& forall|out: O, mid: S| #[trigger]
        first.yields(input, shared, (Ok(out), mid)) ==> second.accepts(input, mid)
}

/// `first.sequence(second)` ends as `second` does on the shared resources
/// `first` left; where `first` fails it ends as `first` did.
pub open spec fn sequence_yields<I, S, O, P, A, B>(
    first: A,
    second: B,
    input: I,
    shared: S,
    outcome: (Result<P, LoadError>, S),
) -> bool where A: Task<I, S, Output = O>, B: Task<I, S, Output = P> {
    exists|lead: (Result<O, LoadError>, S)| #[trigger]
        first.yields(input, shared, lead) && match lead.0 {
            Ok(_) => second.yields(input, lead.1, outcome),
            Err(e) => outcome == (Err::<P, LoadError>(e), lead.1),
        }
}

/// `first.join(second, combine)` may run where `first.sequence(second)` may,
/// provided `combine` may be called on every pair of outputs.
pub open spec fn join_accepts<I, S, O, P, R, A, B, C>(
    first: A,
    second: B,
    combine: C,
    input: I,
    shared: S,
) -> bool where A: Task<I, S, Output = O>, B: Task<I, S, Output = P>, C: FnOnce((O, P)) -> R {
    &&& first.accepts(input, shared)
    &&& forall|left: O, mid: S| #[trigger]
        first.yields(input, shared, (Ok(left), mid)) ==> {
            &&& second.accepts(input, mid)
            &&& forall|right: P, last: S| #[trigger]
                second.yields(input, mid, (Ok(right), last)) ==> call_requires(
                    combine,
                    ((left, right),),
                )
        }
}

/// How `first.join(second, combine)` ends once `first` has ended with `lead`.
pub open spec fn join_after<I, S, O, P, R, B, C>(
    lead: (Result<O, LoadError>, S),
    second: B,
    combine: C,
    input: I,
    outcome: (Result<R, LoadError>, S),
) -> bool where B: Task<I, S, Output = P>, C: FnOnce((O, P)) -> R {
    match lead.0 {
        Ok(left) => exists|follow: (Result<P, LoadError>, S)| #[trigger]
            second.yields(input, lead.1, follow) && outcome.1 == follow.1 && match follow.0 {
                Ok(right) => outcome.0 is Ok && call_ensures(
                    combine,
                    ((left, right),),
                    outcome.0->Ok_0,
                ),
                Err(e) => outcome.0 == Err::<R, LoadError>(e),
            },
        Err(e) => outcome == (Err::<R, LoadError>(e), lead.1),
    }
}

/// `first.join(second, combine)` runs `first`, then `second` on the shared
/// resources `first` left, and ends with what `combine` makes of the pair
/// (output of `first`, output of `second`); it ends as the first task that
/// fails did.
pub open spec fn join_yields<I, S, O, P, R, A, B, C>(
    first: A,
    second: B,
    combine: C,
    input: I,
    shared: S,
    outcome: (Result<R, LoadError>, S),
) -> bool where A: Task<I, S, Output = O>, B: Task<I, S, Output = P>, C: FnOnce((O, P)) -> R {
    exists|lead: (Result<O, LoadError>, S)| #[trigger]
        first.yields(input, shared, lead) && join_after::<I, S, O, P, R, B, C>(
            lead,
            second,
            combine,
            input,
            outcome,
        )
}

/// `first.serialize(step)` may run where `first` may, provided `step` may run
/// on every output `first` can succeed with and the shared resources it leaves.
pub open spec fn serialize_accepts<I, S, O, A, B>(first: A, step: B, input: I, shared: S) -> bool where
    A: Task<I, S, Output = O>,
    B: Task<O, S>,
 {
    &&& first.accepts(input, shared)
    &&& forall|out: O, mid: S| #[trigger]
        first.yields(input, shared, (Ok(out), mid)) ==> step.accepts(out, mid)
}

/// `first.serialize(step)` ends as `step` does on the output of `first` and
/// the shared resources `first` left; where `first` fails it ends as `first` did.
pub open spec fn serialize_yields<I, S, O, P, A, B>(
    first: A,
    step: B,
    input: I,
    shared: S,
    outcome: (Result<P, LoadError>, S),
) -> bool where A: Task<I, S, Output = O>, B: Task<O, S, Output = P> {
    exists|lead: (Result<O, LoadError>, S)| #[trigger]
        first.yields(input, shared, lead) && match lead.0 {
            Ok(out) => step.yields(out, lead.1, outcome),
            Err(e) => outcome == (Err::<P, LoadError>(e), lead.1),
        }
}

/// A task followed by a function of its output and the shared resources.
pub struct Mapped<T, F> {
    pub task: T,
    pub f: F,
}

impl<I, S, O, P, T, F> Task<I, S> for Mapped<T, F> where
    T: Task<I, S, Output = O>,
    F: FnOnce(O, S) -> (Result<P, LoadError>, S),
 {
    type Output = P;

    open spec fn accepts(&self, input: I, shared: S) -> bool {
        map_accepts(self.task, self.f, input, shared)
    }

    open spec fn yields(&self, input: I, shared: S, outcome: (Result<P, LoadError>, S)) -> bool {
        map_yields(self.task, self.f, input, shared, outcome)
    }

    fn execute(self, input: I, shared: S) -> (outcome: (Result<P, LoadError>, S)) {
        let (first, mid) = self.task.execute(input, shared);
        match first {
            Ok(out) => (self.f)(out, mid),
            Err(e) => (Err(e), mid),
        }
    }
}

/// Two tasks run one after the other; the output of the first is dropped.
pub struct Sequenced<A, B> {
    pub first: A,
    pub second: B,
}

impl<I: Copy, S, O, P, A, B> Task<I, S> for Sequenced<A, B> where
    A: Task<I, S, Output = O>,
    B: Task<I, S, Output = P>,
 {
    type Output = P;

    open spec fn accepts(&self, input: I, shared: S) -> bool {
        sequence_accepts(self.first, self.second, input, shared)
    }

    open spec fn yields(&self, input: I, shared: S, outcome: (Result<P, LoadError>, S)) -> bool {
        sequence_yields(self.first, self.second, input, shared, outcome)
    }

    fn execute(self, input: I, shared: S) -> (outcome: (Result<P, LoadError>, S)) {
        let (lead, mid) = self.first.execute(input, shared);
        match lead {
            Ok(_) => self.second.execute(input, mid),
            Err(e) => (Err(e), mid),
        }
    }
}

/// Two tasks run one after the other; their outputs are combined.
pub struct Joined<A, B, C> {
    pub first: A,
    pub second: B,
    pub combine: C,
}

impl<I: Copy, S, O, P, R, A, B, C> Task<I, S> for Joined<A, B, C> where
    A: Task<I, S, Output = O>,
    B: Task<I, S, Output = P>,
    C: FnOnce((O, P)) -> R,
 {
    type Output = R;

    open spec fn accepts(&self, input: I, shared: S) -> bool {
        join_accepts(self.first, self.second, self.combine, input, shared)
    }

    open spec fn yields(&self, input: I, shared: S, outcome: (Result<R, LoadError>, S)) -> bool {
        join_yields(self.first, self.second, self.combine, input, shared, outcome)
    }

    fn execute(self, input: I, shared: S) -> (outcome: (Result<R, LoadError>, S)) {
        let (lead, mid) = self.first.execute(input, shared);
        match lead {
            Ok(left) => {
                let (follow, last) = self.second.execute(input, mid);
                match follow {
                    Ok(right) => (Ok((self.combine)((left, right))), last),
                    Err(e) => (Err(e), last),
                }
            },
            Err(e) => (Err(e), mid),
        }
    }
}

/// A task followed by a task that takes its output as input.
pub struct Serialized<A, B> {
    pub first: A,
    pub step: B,
}

impl<I, S, O, P, A, B> Task<I, S> for Serialized<A, B> where
    A: Task<I, S, Output = O>,
    B: Task<O, S, Output = P>,
 {
    type Output = P;

    open spec fn accepts(&self, input: I, shared: S) -> bool {
        serialize_accepts(self.first, self.step, input, shared)
    }

    open spec fn yields(&self, input: I, shared: S, outcome: (Result<P, LoadError>, S)) -> bool {
        serialize_yields(self.first, self.step, input, shared, outcome)
    }

    fn execute(self, input: I, shared: S) -> (outcome: (Result<P, LoadError>, S)) {
        let (lead, mid) = self.first.execute(input, shared);
        match lead {
            Ok(out) => self.step.execute(out, mid),
            Err(e) => (Err(e), mid),
        }
    }
}

/// The combinators, as methods of every task.  Each consumes its parts and
/// returns the composed task; nothing runs until the composed task is executed.
pub trait Compose<I, S, O>: Task<I, S, Output = O> {
    /// `self`, then `f` on its output and the shared resources.
    fn map<P, F>(self, f: F) -> (mapped: Mapped<Self, F>) where
        F: FnOnce(O, S) -> (Result<P, LoadError>, S),

        ensures
            mapped.task == self,
            mapped.f == f,
            forall|input: I, shared: S| #[trigger]
                mapped.accepts(input, shared) == map_accepts(self, f, input, shared),
            forall|input: I, shared: S, outcome: (Result<P, LoadError>, S)| #[trigger]
                mapped.yields(input, shared, outcome) == map_yields(self, f, input, shared, outcome),
    ;

    /// `self`, then `second`; the outputs go to `combine` as the pair
    /// (output of `self`, output of `second`).
    fn join<P, R, B, C>(self, second: B, combine: C) -> (joined: Joined<Self, B, C>) where
        I: Copy,
        B: Task<I, S, Output = P>,
        C: FnOnce((O, P)) -> R,

        ensures
            joined.first == self,
            joined.second == second,
            joined.combine == combine,
            forall|input: I, shared: S| #[trigger]
                joined.accepts(input, shared) == join_accepts(self, second, combine, input, shared),
            forall|input: I, shared: S, outcome: (Result<R, LoadError>, S)| #[trigger]
                joined.yields(input, shared, outcome) == join_yields(
                    self,
                    second,
                    combine,
                    input,
                    shared,
                    outcome,
                ),
    ;

    /// `self`, then `second`; the output of `self` is dropped.
    fn sequence<P, B>(self, second: B) -> (plan: Sequenced<Self, B>) where
        I: Copy,
        B: Task<I, S, Output = P>,

        ensures
            plan.first == self,
            plan.second == second,
            forall|input: I, shared: S| #[trigger]
                plan.accepts(input, shared) == sequence_accepts(self, second, input, shared),
            forall|input: I, shared: S, outcome: (Result<P, LoadError>, S)| #[trigger]
                plan.yields(input, shared, outcome) == sequence_yields(
                    self,
                    second,
                    input,
                    shared,
                    outcome,
                ),
    ;

    /// `self`, then `step` on the output of `self`.
    fn serialize<P, B>(self, step: B) -> (chain: Serialized<Self, B>) where B: Task<O, S, Output = P>
        ensures
            chain.first == self,
            chain.step == step,
            forall|input: I, shared: S| #[trigger]
                chain.accepts(input, shared) == serialize_accepts(self, step, input, shared),
            forall|input: I, shared: S, outcome: (Result<P, LoadError>, S)| #[trigger]
                chain.yields(input, shared, outcome) == serialize_yields(
                    self,
                    step,
                    input,
                    shared,
                    outcome,
                ),
    ;
}

impl<I, S, O, T: Task<I, S, Output = O>> Compose<I, S, O> for T {
    fn map<P, F>(self, f: F) -> (mapped: Mapped<Self, F>) where
        F: FnOnce(O, S) -> (Result<P, LoadError>, S),
     {
        Mapped { task: self, f }
    }

    fn join<P, R, B, C>(self, second: B, combine: C) -> (joined: Joined<Self, B, C>) where
        I: Copy,
        B: Task<I, S, Output = P>,
        C: FnOnce((O, P)) -> R,
     {
        Joined { first: self, second, combine }
    }

    fn sequence<P, B>(self, second: B) -> (plan: Sequenced<Self, B>) where
        I: Copy,
        B: Task<I, S, Output = P>,
     {
        Sequenced { first: self, second }
    }

    fn serialize<P, B>(self, step: B) -> (chain: Serialized<Self, B>) where B: Task<O, S, Output = P> {
        Serialized { first: self, step }
    }
}

/// A task that needs nothing but the shared resources.
pub trait DrawTask<S, O>: Task<(), S, Output = O> {
    /// Runs the task once against the shared resources.
    fn resolve(self, shared: S) -> (outcome: (Result<O, LoadError>, S))
        requires
            self.accepts((), shared),
        ensures
            self.yields((), shared, outcome),
    ;
}

impl<S, O, T: Task<(), S, Output = O>> DrawTask<S, O> for T {
    fn resolve(self, shared: S) -> (outcome: (Result<O, LoadError>, S)) {
        self.execute((), shared)
    }
}

/// `task` with its input supplied: a task that needs nothing but the shared
/// resources, and runs `task` on `input`.
pub fn with_input<I, S, O, T>(input: I, task: T) -> (supplied: impl Task<(), S, Output = O>) where
    T: Task<I, S, Output = O>,

    ensures
        forall|shared: S| task.accepts(input, shared) ==> #[trigger] supplied.accepts((), shared),
        forall|shared: S, outcome: (Result<O, LoadError>, S)| #[trigger]
            supplied.yields((), shared, outcome) ==> task.yields(input, shared, outcome),
{
    let hand = move |unit: (), shared: S| -> (handed: (Result<I, LoadError>, S))
        ensures
            handed == (Ok::<I, LoadError>(input), shared),
        {
            (Ok(input), shared)
        };
    Step::new(hand).serialize(task)
}

} // verus!
