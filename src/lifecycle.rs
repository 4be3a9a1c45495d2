//! The lifecycle of the selected control plugin: bind its entry points,
//! attach, invoke it once, detach, and derive the run's exit status.
//!
//! The entry points are carried as opaque handles `A`, `D` and `I` (for
//! `Attach`, `Detach` and `Invoke`), which the embedding program resolves and
//! calls; this machine decides which call comes next and with what.
use vstd::prelude::*;

verus! {

/// The logical address of the one operation a run performs.
pub const CONTROL_ADDRESS: &'static str = "control.run";

/// The JSON text of an empty object, passed as payload and as options.
pub const EMPTY_OBJECT: &'static str = "{}";

/// The three entry points resolved from the one selected library.
#[derive(Clone, Copy)]
pub struct ControlBinding<A, D, I> {
    pub attach: A,
    pub detach: D,
    pub invoke: I,
}

/// Why a run failed after a plugin was selected.
#[derive(Clone, Copy, PartialEq, Eq, Structural)]
pub enum LifecycleError {
    /// `Attach`, `Detach` or `Invoke` could not be resolved again.
    SymbolResolution,
    /// `Attach` returned zero.
    AttachFailed,
}

/// How `Detach` went. Either way the run succeeds.
#[derive(Clone, Copy, PartialEq, Eq, Structural)]
pub enum DetachStatus {
    Clean,
    /// `Detach` returned zero; worth a warning only.
    Failed,
}

/// How a run that reached the lifecycle ended.
#[derive(Clone, Copy, PartialEq, Eq, Structural)]
pub enum Outcome {
    Succeeded { detach: DetachStatus },
    Failed(LifecycleError),
}

/// The state of the lifecycle.
#[derive(Clone, Copy)]
pub enum Stage<A, D, I> {
    Unbound,
    Bound(ControlBinding<A, D, I>),
    Attached(ControlBinding<A, D, I>),
    Invoked(ControlBinding<A, D, I>),
    Finished(Outcome),
}

/// What the embedding program does next.
pub enum LifecycleAction<A, D, I> {
    /// Look up `Attach`, `Detach` and `Invoke` by name in the selected library.
    ResolveEntryPoints,
    /// Call `attach` with `dispatch` as the dispatch callback and a fresh
    /// diagnostic buffer.
    CallAttach { attach: A, dispatch: I },
    /// Call `invoke` with these three texts and copy out the response.
    CallInvoke { invoke: I, address: &'static str, payload: &'static str, options: &'static str },
    /// Call `detach` with a fresh diagnostic buffer.
    CallDetach { detach: D },
    /// End the run with this exit status.
    Exit { status: i32, outcome: Outcome },
}

/// What the embedding program observed when it did the current action.
pub enum LifecycleEvent<A, D, I> {
    Resolved { attach: Option<A>, detach: Option<D>, invoke: Option<I> },
    AttachReturned { status: i32 },
    InvokeReturned,
    DetachReturned { status: i32 },
}

/// The process exit status of an outcome: zero exactly for success.
pub open spec fn exit_status(outcome: Outcome) -> i32 {
    match outcome {
        Outcome::Succeeded { .. } => 0,
        Outcome::Failed(_) => 1,
    }
}

/// The action owed in `stage`.
pub open spec fn action_of<A, D, I>(stage: Stage<A, D, I>) -> LifecycleAction<A, D, I> {
    match stage {
        Stage::Unbound => LifecycleAction::ResolveEntryPoints,
        Stage::Bound(b) => LifecycleAction::CallAttach { attach: b.attach, dispatch: b.invoke },
        Stage::Attached(b) => LifecycleAction::CallInvoke {
            invoke: b.invoke,
            address: CONTROL_ADDRESS,
            payload: EMPTY_OBJECT,
            options: EMPTY_OBJECT,
        },
        Stage::Invoked(b) => LifecycleAction::CallDetach { detach: b.detach },
        Stage::Finished(o) => LifecycleAction::Exit { status: exit_status(o), outcome: o },
    }
}

/// The stage that follows `stage` once `ev` was observed. An event that does
/// not answer the current action leaves the stage as it is.
pub open spec fn next_stage<A, D, I>(stage: Stage<A, D, I>, ev: LifecycleEvent<A, D, I>) -> Stage<A, D, I> {
    match (stage, ev) {
        (Stage::Unbound, LifecycleEvent::Resolved { attach, detach, invoke }) => match (attach, detach, invoke) {
            (Some(a), Some(d), Some(i)) => Stage::Bound(ControlBinding { attach: a, detach: d, invoke: i }),
            _ => Stage::Finished(Outcome::Failed(LifecycleError::SymbolResolution)),
        },
        (Stage::Bound(b), LifecycleEvent::AttachReturned { status }) => if status == 0 {
            Stage::Finished(Outcome::Failed(LifecycleError::AttachFailed))
        } else {
            Stage::Attached(b)
        },
        (Stage::Attached(b), LifecycleEvent::InvokeReturned) => Stage::Invoked(b),
        (Stage::Invoked(_), LifecycleEvent::DetachReturned { status }) => Stage::Finished(
            Outcome::Succeeded {
                detach: if status == 0 {
                    DetachStatus::Failed
                } else {
                    DetachStatus::Clean
                },
            },
        ),
        _ => stage,
    }
}

/// The lifecycle of the selected control plugin.
pub struct Lifecycle<A, D, I> {
    pub stage: Stage<A, D, I>,
}

impl<A: Copy, D: Copy, I: Copy> Lifecycle<A, D, I> {
    /// A lifecycle whose entry points are not yet bound.
    pub fn new() -> (r: Lifecycle<A, D, I>)
        ensures
            r.stage is Unbound,
    {
        Lifecycle { stage: Stage::Unbound }
    }

    /// Whether the run has ended.
    pub fn is_finished(&self) -> (r: bool)
        ensures
            r == (self.stage is Finished),
    {
        match &self.stage {
            Stage::Finished(_) => true,
            _ => false,
        }
    }

    /// The action owed now.
    pub fn action(&self) -> (r: LifecycleAction<A, D, I>)
        ensures
            r == action_of(self.stage),
    {
        match &self.stage {
            Stage::Unbound => LifecycleAction::ResolveEntryPoints,
            Stage::Bound(b) => LifecycleAction::CallAttach { attach: b.attach, dispatch: b.invoke },
            Stage::Attached(b) => LifecycleAction::CallInvoke {
                invoke: b.invoke,
                address: CONTROL_ADDRESS,
                payload: EMPTY_OBJECT,
                options: EMPTY_OBJECT,
            },
            Stage::Invoked(b) => LifecycleAction::CallDetach { detach: b.detach },
            Stage::Finished(o) => {
                let status: i32 = match o {
                    Outcome::Succeeded { .. } => 0,
                    Outcome::Failed(_) => 1,
                };
                LifecycleAction::Exit { status, outcome: *o }
            },
        }
    }

    /// Takes in what was observed when the current action was done.
    pub fn advance(&mut self, ev: LifecycleEvent<A, D, I>)
        ensures
            final(self).stage == next_stage(old(self).stage, ev),
    {
        let next = match (&self.stage, ev) {
            (Stage::Unbound, LifecycleEvent::Resolved { attach, detach, invoke }) => match (attach, detach, invoke) {
                (Some(a), Some(d), Some(i)) => Stage::Bound(ControlBinding { attach: a, detach: d, invoke: i }),
                _ => Stage::Finished(Outcome::Failed(LifecycleError::SymbolResolution)),
            },
            (Stage::Bound(b), LifecycleEvent::AttachReturned { status }) => if status == 0 {
                Stage::Finished(Outcome::Failed(LifecycleError::AttachFailed))
            } else {
                Stage::Attached(*b)
            },
            (Stage::Attached(b), LifecycleEvent::InvokeReturned) => Stage::Invoked(*b),
            (Stage::Invoked(_), LifecycleEvent::DetachReturned { status }) => Stage::Finished(
                Outcome::Succeeded {
                    detach: if status == 0 {
                        DetachStatus::Failed
                    } else {
                        DetachStatus::Clean
                    },
                },
            ),
            (s, _) => *s,
        };
        self.stage = next;
    }
}

} // verus!
