//! Discovery of the control plugin: which directory entries are candidates,
//! how each candidate is probed, and when the scan stops.
//!
//! The scan is a state machine. Its state names the one thing the embedding
//! program does next (list the directory, read an entry, load the current
//! candidate, ...); the program does it and hands back what it observed as a
//! [`ScanEvent`].
use vstd::prelude::*;
use crate::text::{ends_with, has_prefix, has_suffix, starts_with};

verus! {

/// The exported name of the plugin's one-time setup entry point.
pub const ATTACH_SYMBOL: &'static str = "Attach";

/// The exported name of the plugin's one-time teardown entry point.
pub const DETACH_SYMBOL: &'static str = "Detach";

/// The exported name of the plugin's call entry point.
pub const INVOKE_SYMBOL: &'static str = "Invoke";

/// The exported name of the plugin's self-description entry point.
pub const REPORT_SYMBOL: &'static str = "Report";

/// The file-name convention of dynamic libraries on the host platform.
pub struct NamePattern {
    pub prefix: Vec<u8>,
    pub suffix: Vec<u8>,
}

/// A file name that follows the dynamic-library convention.
pub open spec fn name_matches(prefix: Seq<u8>, suffix: Seq<u8>, name: Seq<u8>) -> bool {
    has_prefix(name, prefix) && has_suffix(name, suffix)
}

/// A directory entry worth loading: a regular file whose name follows the
/// convention.
pub open spec fn is_candidate(prefix: Seq<u8>, suffix: Seq<u8>, name: Seq<u8>, is_file: bool) -> bool {
    is_file && name_matches(prefix, suffix, name)
}

impl NamePattern {
    pub fn new(prefix: Vec<u8>, suffix: Vec<u8>) -> (r: NamePattern)
        ensures
            r.prefix@ == prefix@,
            r.suffix@ == suffix@,
    {
        NamePattern { prefix, suffix }
    }

    /// Whether `name` starts with the prefix and ends with the suffix.
    pub fn matches(&self, name: &[u8]) -> (r: bool)
        ensures
            r == name_matches(self.prefix@, self.suffix@, name@),
    {
        ends_with(name, self.suffix.as_slice()) && starts_with(name, self.prefix.as_slice())
    }
}

/// A direct entry of the scanned directory.
pub struct Entry {
    pub name: Vec<u8>,
    pub is_file: bool,
}

/// Which of the plugin's named entry points a loaded library exports.
#[derive(Clone, Copy, PartialEq, Eq, Structural)]
pub struct EntryPoints {
    pub attach: bool,
    pub detach: bool,
    pub invoke: bool,
    pub report: bool,
}

/// What a candidate's `Report` call returned.
pub struct ReportReply {
    /// The call's status: zero is failure.
    pub status: i32,
    /// The descriptor's plugin type, as bytes without the terminating zero;
    /// `None` when the library left it null.
    pub plugin_type: Option<Vec<u8>>,
    pub plugin_id: usize,
}

/// What the embedding program observed when it did the current step.
pub enum ScanEvent {
    DirectoryOpened,
    DirectoryUnreadable,
    Entry(Entry),
    EntryUnreadable,
    EndOfEntries,
    Loaded,
    LoadFailed,
    Resolved(EntryPoints),
    Reported(ReportReply),
}

/// The mathematical form of a [`ScanEvent`].
pub enum Observed {
    DirectoryOpened,
    DirectoryUnreadable,
    Entry { name: Seq<u8>, is_file: bool },
    EntryUnreadable,
    EndOfEntries,
    Loaded,
    LoadFailed,
    Resolved(EntryPoints),
    Reported { status: i32, plugin_type: Option<Seq<u8>>, plugin_id: usize },
}

impl View for ScanEvent {
    type V = Observed;

    open spec fn view(&self) -> Observed {
        match self {
            ScanEvent::DirectoryOpened => Observed::DirectoryOpened,
            ScanEvent::DirectoryUnreadable => Observed::DirectoryUnreadable,
            ScanEvent::Entry(e) => Observed::Entry { name: e.name@, is_file: e.is_file },
            ScanEvent::EntryUnreadable => Observed::EntryUnreadable,
            ScanEvent::EndOfEntries => Observed::EndOfEntries,
            ScanEvent::Loaded => Observed::Loaded,
            ScanEvent::LoadFailed => Observed::LoadFailed,
            ScanEvent::Resolved(p) => Observed::Resolved(*p),
            ScanEvent::Reported(r) => Observed::Reported {
                status: r.status,
                plugin_type: match r.plugin_type {
                    Some(t) => Some(t@),
                    None => None,
                },
                plugin_id: r.plugin_id,
            },
        }
    }
}

/// Why a candidate was turned down. None of these stops the scan.
#[derive(Clone, Copy, PartialEq, Eq, Structural)]
pub enum Rejection {
    LoadFailed,
    /// `Attach`, `Detach` or `Invoke` is not exported.
    MissingEntryPoints,
    MissingReport,
    /// `Report` returned zero.
    ReportFailed,
    NullPluginType,
    NotControl,
}

/// Why the scan ended without a plugin.
#[derive(Clone, Copy, PartialEq, Eq, Structural)]
pub enum ScanError {
    DirectoryUnreadable,
    NoControlPluginFound,
}

/// The state of the scan, named by what the embedding program does next.
#[derive(Clone, Copy, PartialEq, Eq, Structural)]
pub enum ScanStep {
    /// List the directory of the host executable.
    OpenDirectory,
    /// Read the next entry of the listing.
    NextEntry,
    /// Release the current candidate's library, then read the next entry.
    Discard(Rejection),
    /// Load the current candidate as a native library.
    Load,
    /// Look up `Attach`, `Detach`, `Invoke` and `Report` in it.
    ResolveEntryPoints,
    /// Call its `Report` with a fresh diagnostic buffer and an empty descriptor.
    CallReport,
    /// Done: keep the current library; it is the control plugin.
    Select { plugin_id: usize },
    /// Done: the run fails.
    Fail(ScanError),
}

/// The plugin type that marks the control plugin: the ASCII bytes of `control`.
pub open spec fn control_type() -> Seq<u8> {
    seq![99u8, 111u8, 110u8, 116u8, 114u8, 111u8, 108u8]
}

/// A scan step after which the scan does nothing more.
pub open spec fn is_final(step: ScanStep) -> bool {
    step is Select || step is Fail
}

/// A scan step that waits for the next directory entry.
pub open spec fn awaits_entry(step: ScanStep) -> bool {
    step is NextEntry || step is Discard
}

/// The step that follows `step` once `ev` was observed. An event that does
/// not answer the current step leaves it as it is.
pub open spec fn next_step(prefix: Seq<u8>, suffix: Seq<u8>, step: ScanStep, ev: Observed) -> ScanStep {
    match step {
        ScanStep::OpenDirectory => match ev {
            Observed::DirectoryOpened => ScanStep::NextEntry,
            Observed::DirectoryUnreadable => ScanStep::Fail(ScanError::DirectoryUnreadable),
            _ => step,
        },
        ScanStep::NextEntry | ScanStep::Discard(_) => match ev {
            Observed::Entry { name, is_file } => if is_candidate(prefix, suffix, name, is_file) {
                ScanStep::Load
            } else {
                ScanStep::NextEntry
            },
            Observed::EntryUnreadable => ScanStep::NextEntry,
            Observed::EndOfEntries => ScanStep::Fail(ScanError::NoControlPluginFound),
            _ => step,
        },
        ScanStep::Load => match ev {
            Observed::Loaded => ScanStep::ResolveEntryPoints,
            Observed::LoadFailed => ScanStep::Discard(Rejection::LoadFailed),
            _ => step,
        },
        ScanStep::ResolveEntryPoints => match ev {
            Observed::Resolved(p) => if !(p.attach && p.detach && p.invoke) {
                ScanStep::Discard(Rejection::MissingEntryPoints)
            } else if !p.report {
                ScanStep::Discard(Rejection::MissingReport)
            } else {
                ScanStep::CallReport
            },
            _ => step,
        },
        ScanStep::CallReport => match ev {
            Observed::Reported { status, plugin_type, plugin_id } => if status == 0 {
                ScanStep::Discard(Rejection::ReportFailed)
            } else {
                match plugin_type {
                    None => ScanStep::Discard(Rejection::NullPluginType),
                    Some(t) => if t == control_type() {
                        ScanStep::Select { plugin_id }
                    } else {
                        ScanStep::Discard(Rejection::NotControl)
                    },
                }
            },
            _ => step,
        },
        ScanStep::Select { .. } | ScanStep::Fail(_) => step,
    }
}

/// Whether a descriptor's plugin type is exactly (case included) `control`.
pub fn is_control_type(t: &[u8]) -> (r: bool)
    ensures
        r == (t@ == control_type()),
{
    let r = t.len() == 7 && t[0] == 99u8 && t[1] == 111u8 && t[2] == 110u8 && t[3] == 116u8
        && t[4] == 114u8 && t[5] == 111u8 && t[6] == 108u8;
    proof {
        if r {
            assert(t@ =~= control_type());
        } else if t@ == control_type() {
            assert(t@[0] == 99u8 && t@[6] == 108u8);
        }
    }
    r
}

/// The scan for the control plugin.
pub struct Discovery {
    pub pattern: NamePattern,
    pub step: ScanStep,
}

impl Discovery {
    /// A scan that has not yet listed the directory.
    pub fn new(pattern: NamePattern) -> (r: Discovery)
        ensures
            r.pattern == pattern,
            r.step == ScanStep::OpenDirectory,
    {
        Discovery { pattern, step: ScanStep::OpenDirectory }
    }

    /// Whether the scan has ended, with a plugin or without one.
    pub fn is_done(&self) -> (r: bool)
        ensures
            r == is_final(self.step),
    {
        match self.step {
            ScanStep::Select { .. } | ScanStep::Fail(_) => true,
            _ => false,
        }
    }

    /// Takes in what was observed when the current step was done.
    pub fn advance(&mut self, ev: &ScanEvent)
        ensures
            final(self).pattern == old(self).pattern,
            final(self).step == next_step(
                old(self).pattern.prefix@,
                old(self).pattern.suffix@,
                old(self).step,
                ev@,
            ),
    {
        let next = match self.step {
            ScanStep::OpenDirectory => match ev {
                ScanEvent::DirectoryOpened => ScanStep::NextEntry,
                ScanEvent::DirectoryUnreadable => ScanStep::Fail(ScanError::DirectoryUnreadable),
                _ => self.step,
            },
            ScanStep::NextEntry | ScanStep::Discard(_) => match ev {
                ScanEvent::Entry(e) => if e.is_file && self.pattern.matches(e.name.as_slice()) {
                    ScanStep::Load
                } else {
                    ScanStep::NextEntry
                },
                ScanEvent::EntryUnreadable => ScanStep::NextEntry,
                ScanEvent::EndOfEntries => ScanStep::Fail(ScanError::NoControlPluginFound),
                _ => self.step,
            },
            ScanStep::Load => match ev {
                ScanEvent::Loaded => ScanStep::ResolveEntryPoints,
                ScanEvent::LoadFailed => ScanStep::Discard(Rejection::LoadFailed),
                _ => self.step,
            },
            ScanStep::ResolveEntryPoints => match ev {
                ScanEvent::Resolved(p) => if !(p.attach && p.detach && p.invoke) {
                    ScanStep::Discard(Rejection::MissingEntryPoints)
                } else if !p.report {
                    ScanStep::Discard(Rejection::MissingReport)
                } else {
                    ScanStep::CallReport
                },
                _ => self.step,
            },
            ScanStep::CallReport => match ev {
                ScanEvent::Reported(r) => if r.status == 0 {
                    ScanStep::Discard(Rejection::ReportFailed)
                } else {
                    match &r.plugin_type {
                        None => ScanStep::Discard(Rejection::NullPluginType),
                        Some(t) => if is_control_type(t.as_slice()) {
                            ScanStep::Select { plugin_id: r.plugin_id }
                        } else {
                            ScanStep::Discard(Rejection::NotControl)
                        },
                    }
                },
                _ => self.step,
            },
            ScanStep::Select { .. } | ScanStep::Fail(_) => self.step,
        };
        self.step = next;
    }
}

} // verus!
