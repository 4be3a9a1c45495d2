//! A model of a whole lifecycle run, driven by the transitions of
//! [`Lifecycle`]: a plugin whose entry points answer each call in a fixed
//! way. The laws of the lifecycle are stated and proved over it.
//!
//! [`Lifecycle`]: crate::lifecycle::Lifecycle
use vstd::prelude::*;
use crate::lifecycle::{
    action_of, next_stage, ControlBinding, DetachStatus, LifecycleAction, LifecycleError,
    LifecycleEvent, Outcome, Stage,
};

verus! {

/// How the selected library answers: which entry points resolve, and what
/// `Attach` and `Detach` return.
pub struct PluginModel<A, D, I> {
    pub attach: Option<A>,
    pub detach: Option<D>,
    pub invoke: Option<I>,
    pub attach_status: i32,
    pub detach_status: i32,
}

/// What doing `action` against `p` observes.
pub open spec fn plugin_reply<A, D, I>(p: PluginModel<A, D, I>, action: LifecycleAction<A, D, I>) -> LifecycleEvent<A, D, I> {
    match action {
        LifecycleAction::ResolveEntryPoints => LifecycleEvent::Resolved {
            attach: p.attach,
            detach: p.detach,
            invoke: p.invoke,
        },
        LifecycleAction::CallAttach { .. } => LifecycleEvent::AttachReturned { status: p.attach_status },
        LifecycleAction::CallDetach { .. } => LifecycleEvent::DetachReturned { status: p.detach_status },
        _ => LifecycleEvent::InvokeReturned,
    }
}

/// The actions from `stage` on, at most `fuel + 1` of them, each answered by `p`.
pub open spec fn drive<A, D, I>(stage: Stage<A, D, I>, p: PluginModel<A, D, I>, fuel: nat) -> Seq<LifecycleAction<A, D, I>>
    decreases fuel,
{
    let a = action_of(stage);
    if fuel == 0 || stage is Finished {
        seq![a]
    } else {
        seq![a] + drive(next_stage(stage, plugin_reply(p, a)), p, (fuel - 1) as nat)
    }
}

/// Every action of a run against `p`, from the unbound stage to the exit.
pub open spec fn run<A, D, I>(p: PluginModel<A, D, I>) -> Seq<LifecycleAction<A, D, I>> {
    drive(Stage::Unbound, p, 4)
}

/// All three entry points resolve.
pub open spec fn resolves<A, D, I>(p: PluginModel<A, D, I>) -> bool {
    p.attach is Some && p.detach is Some && p.invoke is Some
}

/// `Attach` is reached and succeeds.
pub open spec fn attach_succeeds<A, D, I>(p: PluginModel<A, D, I>) -> bool {
    resolves(p) && p.attach_status != 0
}

proof fn lemma_run_shape<A, D, I>(p: PluginModel<A, D, I>)
    ensures
        !resolves(p) ==> run(p) == seq![
            LifecycleAction::<A, D, I>::ResolveEntryPoints,
            LifecycleAction::Exit { status: 1, outcome: Outcome::Failed(LifecycleError::SymbolResolution) },
        ],
        resolves(p) && p.attach_status == 0 ==> run(p) == seq![
            LifecycleAction::<A, D, I>::ResolveEntryPoints,
            LifecycleAction::CallAttach { attach: p.attach->0, dispatch: p.invoke->0 },
            LifecycleAction::Exit { status: 1, outcome: Outcome::Failed(LifecycleError::AttachFailed) },
        ],
        attach_succeeds(p) ==> run(p) == seq![
            LifecycleAction::<A, D, I>::ResolveEntryPoints,
            LifecycleAction::CallAttach { attach: p.attach->0, dispatch: p.invoke->0 },
            action_of(Stage::Attached(ControlBinding { attach: p.attach->0, detach: p.detach->0, invoke: p.invoke->0 })),
            LifecycleAction::CallDetach { detach: p.detach->0 },
            LifecycleAction::Exit {
                status: 0,
                outcome: Outcome::Succeeded {
                    detach: if p.detach_status == 0 {
                        DetachStatus::Failed
                    } else {
                        DetachStatus::Clean
                    },
                },
            },
        ],
{
    reveal_with_fuel(drive, 5);
    if !resolves(p) {
        assert(run(p) =~= seq![
            LifecycleAction::<A, D, I>::ResolveEntryPoints,
            LifecycleAction::Exit { status: 1, outcome: Outcome::Failed(LifecycleError::SymbolResolution) },
        ]);
    } else if p.attach_status == 0 {
        assert(run(p) =~= seq![
            LifecycleAction::<A, D, I>::ResolveEntryPoints,
            LifecycleAction::CallAttach { attach: p.attach->0, dispatch: p.invoke->0 },
            LifecycleAction::Exit { status: 1, outcome: Outcome::Failed(LifecycleError::AttachFailed) },
        ]);
    } else {
        let b = ControlBinding { attach: p.attach->0, detach: p.detach->0, invoke: p.invoke->0 };
        assert(run(p) =~= seq![
            LifecycleAction::<A, D, I>::ResolveEntryPoints,
            LifecycleAction::CallAttach { attach: p.attach->0, dispatch: p.invoke->0 },
            action_of(Stage::Attached(b)),
            LifecycleAction::CallDetach { detach: p.detach->0 },
            LifecycleAction::Exit {
                status: 0,
                outcome: Outcome::Succeeded {
                    detach: if p.detach_status == 0 {
                        DetachStatus::Failed
                    } else {
                        DetachStatus::Clean
                    },
                },
            },
        ]);
    }
}

/// The dispatch callback handed to `Attach` is the `Invoke` entry point
/// resolved from the same library, and so is the entry point later invoked.
pub proof fn lemma_dispatch_is_own_invoke<A, D, I>(p: PluginModel<A, D, I>)
    ensures
        forall|i: int| 0 <= i < run(p).len() && (#[trigger] run(p)[i]) is CallAttach
            ==> p.invoke == Some(run(p)[i]->dispatch),
        forall|i: int| 0 <= i < run(p).len() && (#[trigger] run(p)[i]) is CallInvoke
            ==> p.invoke == Some(run(p)[i]->invoke),
{
    lemma_run_shape(p);
}

/// `Invoke` is only ever called with the address `control.run` and with `{}`
/// as payload and as options.
pub proof fn lemma_invoke_arguments<A, D, I>(p: PluginModel<A, D, I>)
    ensures
        forall|i: int| 0 <= i < run(p).len() && (#[trigger] run(p)[i]) is CallInvoke ==> {
            &&& run(p)[i]->address@ == "control.run"@
            &&& run(p)[i]->payload@ == "{}"@
            &&& run(p)[i]->options@ == "{}"@
        },
{
    lemma_run_shape(p);
}

/// `Detach` is called exactly when `Attach` was called and succeeded, and
/// then exactly once.
pub proof fn lemma_detach_once_iff_attached<A, D, I>(p: PluginModel<A, D, I>)
    ensures
        (exists|i: int| 0 <= i < run(p).len() && (#[trigger] run(p)[i]) is CallDetach) <==> attach_succeeds(p),
        forall|i: int, j: int|
            0 <= i < run(p).len() && 0 <= j < run(p).len() && (#[trigger] run(p)[i]) is CallDetach
                && (#[trigger] run(p)[j]) is CallDetach ==> i == j,
{
    lemma_run_shape(p);
    if attach_succeeds(p) {
        assert(run(p)[3] is CallDetach);
    }
}

/// When `Attach` returns zero the run exits with a nonzero status, and
/// neither `Invoke` nor `Detach` is called.
pub proof fn lemma_failed_attach_ends_run<A, D, I>(p: PluginModel<A, D, I>)
    requires
        p.attach_status == 0,
    ensures
        forall|i: int| 0 <= i < run(p).len() ==> !((#[trigger] run(p)[i]) is CallInvoke) && !(run(p)[i] is CallDetach),
        run(p).last() is Exit,
        run(p).last()->status != 0,
{
    lemma_run_shape(p);
}

/// The run exits with status zero exactly when the entry points resolve and
/// `Attach` succeeds: what `Detach` returns never changes it.
pub proof fn lemma_exit_status<A, D, I>(p: PluginModel<A, D, I>)
    ensures
        run(p).last() is Exit,
        run(p).last()->status == 0 <==> attach_succeeds(p),
{
    lemma_run_shape(p);
}

/// A `Detach` that returns zero still ends the run with status zero, once
/// `Attach` and `Invoke` went through; the failure is kept only as a warning.
pub proof fn lemma_failed_detach_still_succeeds<A, D, I>(p: PluginModel<A, D, I>)
    requires
        attach_succeeds(p),
        p.detach_status == 0,
    ensures
        run(p).last() == (LifecycleAction::<A, D, I>::Exit {
            status: 0,
            outcome: Outcome::Succeeded { detach: DetachStatus::Failed },
        }),
{
    lemma_run_shape(p);
}

} // verus!
