use rjam::discovery::{
    is_control_type, Discovery, Entry, EntryPoints, NamePattern, Rejection, ReportReply, ScanError,
    ScanEvent, ScanStep,
};

fn linux_pattern() -> NamePattern {
    NamePattern::new(b"lib".to_vec(), b".so".to_vec())
}

fn all_entry_points() -> EntryPoints {
    EntryPoints { attach: true, detach: true, invoke: true, report: true }
}

/// How a test directory's library answers the probing steps.
#[derive(Clone)]
struct FakeLib {
    name: &'static str,
    is_file: bool,
    loads: bool,
    entry_points: EntryPoints,
    status: i32,
    plugin_type: Option<&'static str>,
    plugin_id: usize,
}

fn control_lib(name: &'static str, id: usize) -> FakeLib {
    FakeLib {
        name,
        is_file: true,
        loads: true,
        entry_points: all_entry_points(),
        status: 1,
        plugin_type: Some("control"),
        plugin_id: id,
    }
}

fn other_lib(name: &'static str, plugin_type: &'static str) -> FakeLib {
    FakeLib { plugin_type: Some(plugin_type), ..control_lib(name, 7) }
}

/// Runs a scan over a listing; returns the final step, the names of the
/// libraries loaded, and the rejections in order.
fn run_scan(readable: bool, listing: &[FakeLib]) -> (ScanStep, Vec<&'static str>, Vec<Rejection>) {
    let mut scan = Discovery::new(linux_pattern());
    let mut next: usize = 0;
    let mut current: Option<FakeLib> = None;
    let mut loaded = Vec::new();
    let mut rejected = Vec::new();
    for _ in 0..1000 {
        let ev = match scan.step {
            ScanStep::OpenDirectory => {
                if readable {
                    ScanEvent::DirectoryOpened
                } else {
                    ScanEvent::DirectoryUnreadable
                }
            }
            ScanStep::NextEntry | ScanStep::Discard(_) => {
                if let ScanStep::Discard(why) = scan.step {
                    rejected.push(why);
                }
                if next < listing.len() {
                    let lib = listing[next].clone();
                    next += 1;
                    let ev = ScanEvent::Entry(Entry { name: lib.name.as_bytes().to_vec(), is_file: lib.is_file });
                    current = Some(lib);
                    ev
                } else {
                    ScanEvent::EndOfEntries
                }
            }
            ScanStep::Load => {
                let lib = current.clone().unwrap();
                loaded.push(lib.name);
                if lib.loads {
                    ScanEvent::Loaded
                } else {
                    ScanEvent::LoadFailed
                }
            }
            ScanStep::ResolveEntryPoints => ScanEvent::Resolved(current.clone().unwrap().entry_points),
            ScanStep::CallReport => {
                let lib = current.clone().unwrap();
                ScanEvent::Reported(ReportReply {
                    status: lib.status,
                    plugin_type: lib.plugin_type.map(|t| t.as_bytes().to_vec()),
                    plugin_id: lib.plugin_id,
                })
            }
            ScanStep::Select { .. } | ScanStep::Fail(_) => break,
        };
        scan.advance(&ev);
    }
    (scan.step, loaded, rejected)
}

#[test]
fn name_pattern_needs_prefix_and_suffix() {
    let p = linux_pattern();
    assert!(p.matches(b"libcontrol.so"));
    assert!(p.matches(b"lib.so"));
    assert!(!p.matches(b"control.so"));
    assert!(!p.matches(b"libcontrol.so.1"));
    assert!(!p.matches(b"libcontrol.dylib"));
    assert!(!p.matches(b"LIBcontrol.so"));
    assert!(!p.matches(b""));
    assert!(!p.matches(b"li"));
}

#[test]
fn control_type_is_exact_and_case_sensitive() {
    assert!(is_control_type(b"control"));
    assert!(!is_control_type(b"Control"));
    assert!(!is_control_type(b"control "));
    assert!(!is_control_type(b"contro"));
    assert!(!is_control_type(b""));
}

#[test]
fn empty_directory_finds_no_plugin() {
    let (step, loaded, _) = run_scan(true, &[]);
    assert!(step == ScanStep::Fail(ScanError::NoControlPluginFound));
    assert!(loaded.is_empty());
}

#[test]
fn directory_without_candidates_loads_nothing() {
    let mut dir = control_lib("libdir.so", 1);
    dir.is_file = false;
    let listing = vec![control_lib("control.so", 1), control_lib("libcontrol.txt", 2), dir];
    let (step, loaded, _) = run_scan(true, &listing);
    assert!(step == ScanStep::Fail(ScanError::NoControlPluginFound));
    assert!(loaded.is_empty());
}

#[test]
fn unreadable_directory_fails() {
    let (step, loaded, _) = run_scan(false, &[control_lib("libcontrol.so", 1)]);
    assert!(step == ScanStep::Fail(ScanError::DirectoryUnreadable));
    assert!(loaded.is_empty());
}

#[test]
fn single_control_library_is_selected_among_others() {
    let mut broken = control_lib("libbroken.so", 3);
    broken.loads = false;
    let mut partial = control_lib("libpartial.so", 4);
    partial.entry_points.invoke = false;
    let listing = vec![
        other_lib("libaudio.so", "audio"),
        control_lib("README.md", 9),
        broken,
        partial,
        control_lib("libcontrol.so", 0x42),
        other_lib("libvideo.so", "video"),
    ];
    let (step, loaded, rejected) = run_scan(true, &listing);
    assert!(step == ScanStep::Select { plugin_id: 0x42 });
    assert_eq!(loaded, vec!["libaudio.so", "libbroken.so", "libpartial.so", "libcontrol.so"]);
    assert!(rejected == vec![Rejection::NotControl, Rejection::LoadFailed, Rejection::MissingEntryPoints]);
}

#[test]
fn first_of_several_control_libraries_wins() {
    let listing = vec![
        control_lib("libfirst.so", 1),
        control_lib("libsecond.so", 2),
        control_lib("libthird.so", 3),
    ];
    let (step, loaded, _) = run_scan(true, &listing);
    assert!(step == ScanStep::Select { plugin_id: 1 });
    assert_eq!(loaded, vec!["libfirst.so"]);
}

#[test]
fn each_rejection_reason_is_reported() {
    let mut no_report = control_lib("libnoreport.so", 1);
    no_report.entry_points.report = false;
    let mut no_attach = control_lib("libnoattach.so", 2);
    no_attach.entry_points.attach = false;
    let mut report_fails = control_lib("libfails.so", 3);
    report_fails.status = 0;
    let mut null_type = control_lib("libnull.so", 4);
    null_type.plugin_type = None;
    let mut cannot_load = control_lib("libbad.so", 5);
    cannot_load.loads = false;
    let listing = vec![
        no_report,
        no_attach,
        report_fails,
        null_type,
        cannot_load,
        other_lib("libupper.so", "CONTROL"),
    ];
    let (step, loaded, rejected) = run_scan(true, &listing);
    assert!(step == ScanStep::Fail(ScanError::NoControlPluginFound));
    assert_eq!(loaded.len(), 6);
    assert!(
        rejected
            == vec![
                Rejection::MissingReport,
                Rejection::MissingEntryPoints,
                Rejection::ReportFailed,
                Rejection::NullPluginType,
                Rejection::LoadFailed,
                Rejection::NotControl,
            ]
    );
}

#[test]
fn unreadable_entries_are_skipped() {
    let mut scan = Discovery::new(linux_pattern());
    scan.advance(&ScanEvent::DirectoryOpened);
    scan.advance(&ScanEvent::EntryUnreadable);
    assert!(scan.step == ScanStep::NextEntry);
    scan.advance(&ScanEvent::Entry(Entry { name: b"libx.so".to_vec(), is_file: true }));
    assert!(scan.step == ScanStep::Load);
    assert!(!scan.is_done());
}

#[test]
fn events_out_of_turn_change_nothing() {
    let mut scan = Discovery::new(linux_pattern());
    scan.advance(&ScanEvent::Loaded);
    assert!(scan.step == ScanStep::OpenDirectory);
    scan.advance(&ScanEvent::DirectoryOpened);
    scan.advance(&ScanEvent::Resolved(all_entry_points()));
    assert!(scan.step == ScanStep::NextEntry);
}

#[test]
fn selected_scan_stays_done() {
    let mut scan = Discovery::new(linux_pattern());
    scan.advance(&ScanEvent::DirectoryOpened);
    scan.advance(&ScanEvent::Entry(Entry { name: b"libc.so".to_vec(), is_file: true }));
    scan.advance(&ScanEvent::Loaded);
    scan.advance(&ScanEvent::Resolved(all_entry_points()));
    scan.advance(&ScanEvent::Reported(ReportReply {
        status: 5,
        plugin_type: Some(b"control".to_vec()),
        plugin_id: 9,
    }));
    assert!(scan.step == ScanStep::Select { plugin_id: 9 });
    assert!(scan.is_done());
    scan.advance(&ScanEvent::Entry(Entry { name: b"libd.so".to_vec(), is_file: true }));
    assert!(scan.step == ScanStep::Select { plugin_id: 9 });
}
