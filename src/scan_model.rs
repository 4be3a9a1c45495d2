//! A model of a whole scan, driven by the transitions of [`Discovery`]: a
//! directory whose entries, and the libraries they hold, answer every step
//! in a fixed way. The laws of the scan are stated and proved over it.
//!
//! [`Discovery`]: crate::discovery::Discovery
use vstd::prelude::*;
use crate::discovery::{
    awaits_entry, control_type, is_candidate, is_final, next_step, EntryPoints, Observed, ScanError,
    ScanStep,
};

verus! {

/// How a library file behaves when it is probed.
pub struct LibraryModel {
    pub loads: bool,
    pub entry_points: EntryPoints,
    pub report_status: i32,
    pub plugin_type: Option<Seq<u8>>,
    pub plugin_id: usize,
}

/// A directory entry as listing and probing reveal it.
pub struct EntryModel {
    /// Whether the listing could read this entry.
    pub readable: bool,
    pub name: Seq<u8>,
    pub is_file: bool,
    pub library: LibraryModel,
}

/// What reading `e` from the listing observes.
pub open spec fn entry_event(e: EntryModel) -> Observed {
    if e.readable {
        Observed::Entry { name: e.name, is_file: e.is_file }
    } else {
        Observed::EntryUnreadable
    }
}

/// A step that probes the current candidate.
pub open spec fn is_probe_step(step: ScanStep) -> bool {
    step is Load || step is ResolveEntryPoints || step is CallReport
}

/// What doing the probing step `step` on `e` observes.
pub open spec fn probe_reply(e: EntryModel, step: ScanStep) -> Observed {
    match step {
        ScanStep::Load => if e.library.loads {
            Observed::Loaded
        } else {
            Observed::LoadFailed
        },
        ScanStep::ResolveEntryPoints => Observed::Resolved(e.library.entry_points),
        _ => Observed::Reported {
            status: e.library.report_status,
            plugin_type: e.library.plugin_type,
            plugin_id: e.library.plugin_id,
        },
    }
}

/// A listed entry that the scan accepts as the control plugin.
pub open spec fn is_eligible(prefix: Seq<u8>, suffix: Seq<u8>, e: EntryModel) -> bool {
    &&& e.readable
    &&& is_candidate(prefix, suffix, e.name, e.is_file)
    &&& e.library.loads
    &&& e.library.entry_points.attach
    &&& e.library.entry_points.detach
    &&& e.library.entry_points.invoke
    &&& e.library.entry_points.report
    &&& e.library.report_status != 0
    &&& e.library.plugin_type == Some(control_type())
}

/// The probing of `e` from `step`, at most `fuel` steps of it: the step
/// reached and the steps done.
pub open spec fn probe_run(prefix: Seq<u8>, suffix: Seq<u8>, step: ScanStep, e: EntryModel, fuel: nat) -> (ScanStep, Seq<ScanStep>)
    decreases fuel,
{
    if fuel == 0 || !is_probe_step(step) {
        (step, Seq::empty())
    } else {
        let (reached, done) = probe_run(
            prefix,
            suffix,
            next_step(prefix, suffix, step, probe_reply(e, step)),
            e,
            (fuel - 1) as nat,
        );
        (reached, seq![step] + done)
    }
}

/// The handling of entry `e` from a step that awaits it.
pub open spec fn handle_entry(prefix: Seq<u8>, suffix: Seq<u8>, step: ScanStep, e: EntryModel) -> (ScanStep, Seq<ScanStep>) {
    let (reached, done) = probe_run(prefix, suffix, next_step(prefix, suffix, step, entry_event(e)), e, 3);
    (reached, seq![step] + done)
}

/// The handling of `entries`, in order, from `step`, and then of the end of
/// the listing: the step reached and the steps done.
pub open spec fn walk(prefix: Seq<u8>, suffix: Seq<u8>, step: ScanStep, entries: Seq<EntryModel>) -> (ScanStep, Seq<ScanStep>)
    decreases entries.len(),
{
    if !awaits_entry(step) {
        (step, Seq::empty())
    } else if entries.len() == 0 {
        (next_step(prefix, suffix, step, Observed::EndOfEntries), seq![step])
    } else {
        let (reached, done) = handle_entry(prefix, suffix, step, entries[0]);
        let (last, rest) = walk(prefix, suffix, reached, entries.drop_first());
        (last, done + rest)
    }
}

/// Every step of the scan of a directory, the final one last.
pub open spec fn scan(prefix: Seq<u8>, suffix: Seq<u8>, readable: bool, entries: Seq<EntryModel>) -> Seq<ScanStep> {
    let opened = next_step(
        prefix,
        suffix,
        ScanStep::OpenDirectory,
        if readable {
            Observed::DirectoryOpened
        } else {
            Observed::DirectoryUnreadable
        },
    );
    let (last, done) = walk(prefix, suffix, opened, entries);
    seq![ScanStep::OpenDirectory] + done + seq![last]
}

proof fn lemma_handle_entry(prefix: Seq<u8>, suffix: Seq<u8>, step: ScanStep, e: EntryModel)
    requires
        awaits_entry(step),
    ensures
        is_eligible(prefix, suffix, e) ==> handle_entry(prefix, suffix, step, e).0 == (ScanStep::Select { plugin_id: e.library.plugin_id }),
        !is_eligible(prefix, suffix, e) ==> awaits_entry(handle_entry(prefix, suffix, step, e).0),
        !(e.readable && is_candidate(prefix, suffix, e.name, e.is_file)) ==> !handle_entry(prefix, suffix, step, e).1.contains(ScanStep::Load),
{
    reveal_with_fuel(probe_run, 4);
    let first = next_step(prefix, suffix, step, entry_event(e));
    if !(e.readable && is_candidate(prefix, suffix, e.name, e.is_file)) {
        assert(first == ScanStep::NextEntry);
        let tr = handle_entry(prefix, suffix, step, e).1;
        assert(tr =~= seq![step]);
        assert(step != ScanStep::Load);
        assert(!tr.contains(ScanStep::Load)) by {
            if tr.contains(ScanStep::Load) {
                let i = choose|i: int| 0 <= i < tr.len() && tr[i] == ScanStep::Load;
                assert(tr[i] == step);
            }
        }
    }
}

proof fn lemma_walk_without_control(prefix: Seq<u8>, suffix: Seq<u8>, step: ScanStep, entries: Seq<EntryModel>)
    requires
        awaits_entry(step),
        forall|i: int| 0 <= i < entries.len() ==> !is_eligible(prefix, suffix, #[trigger] entries[i]),
    ensures
        walk(prefix, suffix, step, entries).0 == ScanStep::Fail(ScanError::NoControlPluginFound),
        (forall|i: int| 0 <= i < entries.len() ==> !(#[trigger] entries[i].readable && is_candidate(prefix, suffix, entries[i].name, entries[i].is_file)))
            ==> !walk(prefix, suffix, step, entries).1.contains(ScanStep::Load),
    decreases entries.len(),
{
    if entries.len() == 0 {
        let tr = walk(prefix, suffix, step, entries).1;
        assert(tr =~= seq![step]);
        assert(!tr.contains(ScanStep::Load)) by {
            if tr.contains(ScanStep::Load) {
                let i = choose|i: int| 0 <= i < tr.len() && tr[i] == ScanStep::Load;
                assert(tr[i] == step);
            }
        }
    } else {
        let e = entries[0];
        let rest = entries.drop_first();
        lemma_handle_entry(prefix, suffix, step, e);
        let (reached, done) = handle_entry(prefix, suffix, step, e);
        assert forall|i: int| 0 <= i < rest.len() implies !is_eligible(prefix, suffix, #[trigger] rest[i]) by {
            assert(rest[i] == entries[i + 1]);
        }
        lemma_walk_without_control(prefix, suffix, reached, rest);
        if forall|i: int| 0 <= i < entries.len() ==> !(#[trigger] entries[i].readable && is_candidate(prefix, suffix, entries[i].name, entries[i].is_file)) {
            assert(!(entries[0].readable && is_candidate(prefix, suffix, e.name, e.is_file)));
            assert forall|i: int| 0 <= i < rest.len() implies !(#[trigger] rest[i].readable && is_candidate(prefix, suffix, rest[i].name, rest[i].is_file)) by {
                assert(rest[i] == entries[i + 1]);
            }
            let tail = walk(prefix, suffix, reached, rest).1;
            let tr = done + tail;
            assert(!tr.contains(ScanStep::Load)) by {
                if tr.contains(ScanStep::Load) {
                    let i = choose|i: int| 0 <= i < tr.len() && tr[i] == ScanStep::Load;
                    if i < done.len() {
                        assert(done.contains(ScanStep::Load));
                    } else {
                        assert(tail[i - done.len()] == ScanStep::Load);
                        assert(tail.contains(ScanStep::Load));
                    }
                }
            }
        }
    }
}

/// With a readable directory in which no entry is a regular file named like
/// a dynamic library, no library is loaded and the scan fails because no
/// control plugin was found.
pub proof fn lemma_no_candidate_no_plugin(prefix: Seq<u8>, suffix: Seq<u8>, entries: Seq<EntryModel>)
    requires
        forall|i: int| 0 <= i < entries.len() ==> !(#[trigger] entries[i].readable && is_candidate(prefix, suffix, entries[i].name, entries[i].is_file)),
    ensures
        scan(prefix, suffix, true, entries).last() == ScanStep::Fail(ScanError::NoControlPluginFound),
        !scan(prefix, suffix, true, entries).contains(ScanStep::Load),
{
    lemma_walk_without_control(prefix, suffix, ScanStep::NextEntry, entries);
    let (last, done) = walk(prefix, suffix, ScanStep::NextEntry, entries);
    let tr = scan(prefix, suffix, true, entries);
    assert(tr =~= seq![ScanStep::OpenDirectory] + done + seq![last]);
    assert(!tr.contains(ScanStep::Load)) by {
        if tr.contains(ScanStep::Load) {
            let i = choose|i: int| 0 <= i < tr.len() && tr[i] == ScanStep::Load;
            if 1 <= i < 1 + done.len() {
                assert(done[i - 1] == ScanStep::Load);
                assert(done.contains(ScanStep::Load));
            }
        }
    }
}

proof fn lemma_walk_first_control(prefix: Seq<u8>, suffix: Seq<u8>, step: ScanStep, entries: Seq<EntryModel>, k: int)
    requires
        awaits_entry(step),
        0 <= k < entries.len(),
        is_eligible(prefix, suffix, entries[k]),
        forall|j: int| 0 <= j < k ==> !is_eligible(prefix, suffix, #[trigger] entries[j]),
    ensures
        walk(prefix, suffix, step, entries) == walk(prefix, suffix, step, entries.take(k + 1)),
        walk(prefix, suffix, step, entries).0 == (ScanStep::Select { plugin_id: entries[k].library.plugin_id }),
    decreases k,
{
    let short = entries.take(k + 1);
    let e = entries[0];
    assert(short[0] == e);
    lemma_handle_entry(prefix, suffix, step, e);
    let (reached, done) = handle_entry(prefix, suffix, step, e);
    let rest = entries.drop_first();
    assert(walk(prefix, suffix, step, entries) == (walk(prefix, suffix, reached, rest).0, done + walk(prefix, suffix, reached, rest).1));
    assert(walk(prefix, suffix, step, short) == (walk(prefix, suffix, reached, short.drop_first()).0, done + walk(prefix, suffix, reached, short.drop_first()).1));
    if k == 0 {
        assert(!awaits_entry(reached));
        assert(walk(prefix, suffix, reached, rest) == (reached, Seq::<ScanStep>::empty()));
        assert(walk(prefix, suffix, reached, short.drop_first()) == (reached, Seq::<ScanStep>::empty()));
    } else {
        assert(!is_eligible(prefix, suffix, entries[0]));
        assert forall|j: int| 0 <= j < k - 1 implies !is_eligible(prefix, suffix, #[trigger] rest[j]) by {
            assert(rest[j] == entries[j + 1]);
        }
        assert(rest[k - 1] == entries[k]);
        lemma_walk_first_control(prefix, suffix, reached, rest, k - 1);
        assert(short.drop_first() =~= rest.take(k));
    }
}

/// The scan selects the first entry, in listing order, that is a loadable
/// library with every entry point whose `Report` succeeds and names the
/// `control` type; the entries listed after it take no part in the scan, so
/// none of them is ever loaded. Without that entry the same listing ends with
/// no control plugin found.
pub proof fn lemma_first_control_selected(prefix: Seq<u8>, suffix: Seq<u8>, entries: Seq<EntryModel>, k: int)
    requires
        0 <= k < entries.len(),
        is_eligible(prefix, suffix, entries[k]),
        forall|j: int| 0 <= j < k ==> !is_eligible(prefix, suffix, #[trigger] entries[j]),
    ensures
        scan(prefix, suffix, true, entries) == scan(prefix, suffix, true, entries.take(k + 1)),
        scan(prefix, suffix, true, entries).last() == (ScanStep::Select { plugin_id: entries[k].library.plugin_id }),
        scan(prefix, suffix, true, entries.take(k)).last() == ScanStep::Fail(ScanError::NoControlPluginFound),
{
    lemma_walk_first_control(prefix, suffix, ScanStep::NextEntry, entries, k);
    let before = entries.take(k);
    assert forall|j: int| 0 <= j < before.len() implies !is_eligible(prefix, suffix, #[trigger] before[j]) by {
        assert(before[j] == entries[j]);
    }
    lemma_walk_without_control(prefix, suffix, ScanStep::NextEntry, before);
}

/// When exactly one entry of the listing would be accepted, that entry is the
/// one selected, whatever the other entries are named or hold.
pub proof fn lemma_single_control_selected(prefix: Seq<u8>, suffix: Seq<u8>, entries: Seq<EntryModel>, k: int)
    requires
        0 <= k < entries.len(),
        is_eligible(prefix, suffix, entries[k]),
        forall|j: int| 0 <= j < entries.len() && j != k ==> !is_eligible(prefix, suffix, #[trigger] entries[j]),
    ensures
        scan(prefix, suffix, true, entries).last() == (ScanStep::Select { plugin_id: entries[k].library.plugin_id }),
        scan(prefix, suffix, true, entries.take(k)).last() == ScanStep::Fail(ScanError::NoControlPluginFound),
{
    lemma_first_control_selected(prefix, suffix, entries, k);
}

} // verus!
