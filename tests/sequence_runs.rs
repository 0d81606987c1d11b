use startup_orchestrator::{Action, ContainerSpec, Event, Layout, LayoutCheck, Sequencer, Stage};

fn s(x: &str) -> String {
    x.to_string()
}

fn is_engine(a: &Action) -> bool {
    matches!(a, Action::Engine { .. })
}

/// Runs the vector database's step with its port already open, and returns
/// the sequencer waiting on the archive check, with every action asked.
fn run_reachable(seq: &mut Sequencer) -> Vec<Action> {
    let mut asked = Vec::new();
    asked.push(seq.step(Event::Start, 0));
    asked.push(seq.step(Event::Connected(true), 10));
    asked.push(seq.step(Event::Connected(true), 20));
    asked
}

fn layouts_ok() -> Event {
    Event::Layouts {
        candidates: vec![LayoutCheck { layout: Layout::Resource, entry_exists: true, dir_exists: true }],
    }
}

/// Drives a sequencer from the archive check to the runtime checks.
fn to_runtime_checks(seq: &mut Sequencer, overrides: Option<&str>) -> Action {
    let a = seq.step(
        Event::ArchiveState { archive_found: false, backend_dir_error: None, extracted: false },
        30,
    );
    assert!(matches!(a, Action::LocateBackend));
    let a = seq.step(layouts_ok(), 40);
    assert!(matches!(a, Action::ReadOverrides { layout: Layout::Resource }));
    let a = seq.step(
        Event::OverridesRead {
            text: overrides.map(|t| t.to_string()),
            has_manifest: false,
            has_parent: true,
            has_app_data: true,
        },
        50,
    );
    assert!(matches!(a, Action::PrepareStorage { root: startup_orchestrator::StorageRoot::AppData, .. }));
    let a = seq.step(Event::StorageReady { path: s("/app/storage"), failure: None }, 60);
    assert!(matches!(a, Action::FindRuntimes));
    seq.step(
        Event::RuntimeHints {
            bundled: Some(s("/res/node/node.exe")),
            program_files: None,
            program_files_x86: None,
            local_app_data: None,
        },
        70,
    )
}

#[test]
fn reachable_service_is_reused() {
    let mut seq = Sequencer::new(ContainerSpec::qdrant());
    let asked = run_reachable(&mut seq);
    assert!(matches!(asked[0], Action::Connect { port: 6333 }));
    assert!(matches!(asked[1], Action::Connect { port: 6333 }));
    assert!(matches!(asked[2], Action::CheckArchive));
    assert!(!asked.iter().any(is_engine));
    let status = seq.state.to_status(25);
    assert_eq!(status.phase, "qdrant_wait");
    assert!(status.logs.iter().any(|l| l.contains("reusing existing instance")));
    assert!(status.logs.iter().any(|l| l.contains("Qdrant is ready")));
}

#[test]
fn reuse_twice_runs_no_engine_command() {
    for _ in 0..2 {
        let mut seq = Sequencer::new(ContainerSpec::qdrant());
        let asked = run_reachable(&mut seq);
        assert!(!asked.iter().any(is_engine));
    }
}

#[test]
fn stopped_container_is_started_then_created() {
    let mut seq = Sequencer::new(ContainerSpec::qdrant());
    seq.step(Event::Start, 0);
    let a = seq.step(Event::Connected(false), 5);
    match a {
        Action::Engine { args } => assert_eq!(args, vec![s("start"), s("canvaintel-qdrant")]),
        _ => panic!("expected the start command"),
    }
    let a = seq.step(
        Event::EngineRan { success: false, stdout: vec![], stderr: b"Error: No such container\n".to_vec() },
        6,
    );
    match a {
        Action::Engine { args } => assert_eq!(args[0], "run"),
        _ => panic!("expected the run command"),
    }
    let a = seq.step(Event::EngineRan { success: true, stdout: b"f00d\n".to_vec(), stderr: vec![] }, 7);
    assert!(matches!(a, Action::Connect { port: 6333 }));
    let logs = &seq.state.logs;
    assert!(logs.iter().any(|l| l.ends_with("docker \u{203A} Error: No such container")));
    assert!(logs.iter().any(|l| l.ends_with("Creating Qdrant container: canvaintel-qdrant")));
    assert!(logs.iter().any(|l| l.ends_with("Qdrant container created and started")));
    assert!(logs.iter().any(|l| l.ends_with("Waiting for Qdrant on port 6333...")));
}

#[test]
fn missing_engine_is_reported_and_sequence_goes_on() {
    let mut seq = Sequencer::new(ContainerSpec::qdrant());
    seq.step(Event::Start, 0);
    seq.step(Event::Connected(false), 0);
    let a = seq.step(Event::EngineFailed { error: s("program not found") }, 0);
    assert!(matches!(a, Action::Connect { port: 6333 }));
    assert!(seq.state.logs.iter().any(|l| l.contains("docker start failed: program not found")));
}

#[test]
fn port_wait_stops_at_first_success() {
    let mut seq = Sequencer::new(ContainerSpec::qdrant());
    seq.step(Event::Start, 0);
    seq.step(Event::Connected(true), 0);
    let mut tries = 1;
    for _ in 0..3 {
        let a = seq.step(Event::Connected(false), 0);
        assert!(matches!(a, Action::Sleep { ms: 500 }));
        let a = seq.step(Event::Slept, 0);
        assert!(matches!(a, Action::Connect { port: 6333 }));
        tries += 1;
    }
    let a = seq.step(Event::Connected(true), 0);
    assert!(matches!(a, Action::CheckArchive));
    assert_eq!(tries, 4);
}

#[test]
fn port_wait_never_exceeds_its_budget() {
    let mut seq = Sequencer::new(ContainerSpec::qdrant());
    seq.step(Event::Start, 0);
    let mut a = seq.step(Event::Connected(true), 0);
    let mut tries = 0;
    loop {
        match a {
            Action::Connect { .. } => {
                tries += 1;
                a = seq.step(Event::Connected(false), 0);
            }
            Action::Sleep { .. } => a = seq.step(Event::Slept, 0),
            _ => break,
        }
    }
    assert_eq!(tries, 20);
    assert!(matches!(a, Action::CheckArchive));
    assert!(seq.state.logs.iter().any(|l| l.contains("Qdrant not ready after 10s")));
}

#[test]
fn extracted_archive_is_not_extracted_again() {
    // First run: the native tool extracts.
    let mut first = Sequencer::new(ContainerSpec::qdrant());
    run_reachable(&mut first);
    let a = first.step(
        Event::ArchiveState { archive_found: true, backend_dir_error: None, extracted: false },
        0,
    );
    assert!(matches!(a, Action::FastExtract));
    assert_eq!(first.state.to_status(0).phase, "unpacking");
    let a = first.step(Event::ToolExited { success: true, status: s("exit code: 0") }, 0);
    assert!(matches!(a, Action::LocateBackend));
    // Second run: the destination exists.
    let mut second = Sequencer::new(ContainerSpec::qdrant());
    run_reachable(&mut second);
    let a = second.step(
        Event::ArchiveState { archive_found: true, backend_dir_error: None, extracted: true },
        0,
    );
    assert!(matches!(a, Action::LocateBackend));
    assert!(second.state.logs.iter().any(|l| l.contains("already extracted")));
    assert_eq!(second.state.to_status(0).phase, "backend_starting");
}

#[test]
fn built_in_extractor_reports_progress() {
    let mut seq = Sequencer::new(ContainerSpec::qdrant());
    run_reachable(&mut seq);
    seq.step(Event::ArchiveState { archive_found: true, backend_dir_error: None, extracted: false }, 0);
    let a = seq.step(Event::ToolFailed { error: s("not found") }, 0);
    assert!(matches!(a, Action::OpenArchive));
    let mut a = seq.step(Event::ArchiveOpened { total: 1001 }, 0);
    let mut written = 0;
    while let Action::ExtractEntry { index } = a {
        assert_eq!(index, written);
        written += 1;
        a = seq.step(Event::EntryDone { written: true }, 0);
    }
    assert_eq!(written, 1001);
    assert!(matches!(a, Action::LocateBackend));
    let logs = &seq.state.logs;
    assert!(logs.iter().any(|l| l.ends_with("Extracting dependencies... (500/1001 files)")));
    assert!(logs.iter().any(|l| l.ends_with("Extracting dependencies... (1000/1001 files)")));
    assert!(!logs.iter().any(|l| l.contains("(0/1001")));
    assert!(logs.iter().any(|l| l.ends_with("\u{2713} node_modules extracted")));
}

#[test]
fn extraction_failure_goes_on_to_backend() {
    let mut seq = Sequencer::new(ContainerSpec::qdrant());
    run_reachable(&mut seq);
    seq.step(Event::ArchiveState { archive_found: true, backend_dir_error: None, extracted: false }, 0);
    seq.step(Event::ToolExited { success: false, status: s("exit code: 1") }, 0);
    let a = seq.step(Event::ArchiveFailed { error: s("invalid Zip archive") }, 0);
    assert!(matches!(a, Action::LocateBackend));
    assert!(seq.state.logs.iter().any(|l| l.contains("PowerShell exited exit code: 1")));
    assert!(seq.state.logs.iter().any(|l| l.contains("Extraction failed: invalid Zip archive")));
}

#[test]
fn missing_runtime_leads_to_timeout() {
    let mut seq = Sequencer::new(ContainerSpec::qdrant());
    run_reachable(&mut seq);
    let mut a = to_runtime_checks(&mut seq, None);
    let mut checked = Vec::new();
    while let Action::CheckRuntime { program } = a {
        checked.push(program);
        a = seq.step(Event::RuntimeChecked { ok: false }, 80);
    }
    assert_eq!(checked, vec![s("/res/node/node.exe"), s("node")]);
    assert!(matches!(a, Action::Connect { port: 3001 }));
    assert_eq!(seq.state.to_status(80).phase, "backend_wait");
    assert!(seq.state.logs.iter().any(|l| l.contains("Node.js not found")));
    let mut tries = 0;
    loop {
        match a {
            Action::Connect { .. } => {
                tries += 1;
                a = seq.step(Event::Connected(false), 90);
            }
            Action::Sleep { .. } => a = seq.step(Event::Slept, 90),
            _ => break,
        }
    }
    assert_eq!(tries, 60);
    assert!(matches!(a, Action::Finish));
    assert_eq!(seq.stage, Stage::Finished { ready: false });
    let status = seq.state.to_status(30_000);
    assert_eq!(status.phase, "timeout");
    assert!(status.message.contains("Backend did not start in 30s"));
}

#[test]
fn empty_credential_override_reaches_the_spawn() {
    let mut seq = Sequencer::new(ContainerSpec::qdrant());
    run_reachable(&mut seq);
    let a = to_runtime_checks(&mut seq, Some("GROQ_API_KEY=\"\"\nBACKEND_PORT=4000\n"));
    assert!(matches!(a, Action::CheckRuntime { .. }));
    let a = seq.step(Event::RuntimeChecked { ok: true }, 80);
    match a {
        Action::Spawn { program, layout, env } => {
            assert_eq!(program, "/res/node/node.exe");
            assert_eq!(layout, Layout::Resource);
            assert_eq!(env.get("GROQ_API_KEY"), Some(s("")));
            assert_eq!(env.get("BACKEND_PORT"), Some(s("4000")));
            assert_eq!(env.get("BACKEND_STORAGE_ROOT"), Some(s("/app/storage")));
        }
        _ => panic!("expected a spawn"),
    }
    assert!(seq.state.logs.iter().any(|l| l.contains("GROQ_API_KEY missing or placeholder")));
    let a = seq.step(Event::Spawned { failure: None }, 90);
    assert!(matches!(a, Action::Connect { port: 3001 }));
    let a = seq.step(Event::Connected(true), 100);
    assert!(matches!(a, Action::Finish));
    let status = seq.state.to_status(100);
    assert_eq!(status.phase, "ready");
    assert_eq!(status.message, "\u{2713} Backend is ready!");
}

#[test]
fn unexpected_event_changes_nothing() {
    let mut seq = Sequencer::new(ContainerSpec::qdrant());
    seq.step(Event::Start, 0);
    let a = seq.step(Event::Slept, 0);
    assert!(matches!(a, Action::Connect { port: 6333 }));
    assert_eq!(seq.stage, Stage::QdrantCheck);
    assert_eq!(seq.state.logs.len(), 1);
}

#[test]
fn missing_backend_layout_skips_to_wait() {
    let mut seq = Sequencer::new(ContainerSpec::qdrant());
    run_reachable(&mut seq);
    seq.step(Event::ArchiveState { archive_found: false, backend_dir_error: None, extracted: false }, 0);
    let a = seq.step(Event::Layouts { candidates: vec![] }, 0);
    assert!(matches!(a, Action::Connect { port: 3001 }));
    assert!(seq.state.logs.iter().any(|l| l.contains("Backend entry point not found")));
}

#[test]
fn fresh_sequence_asks_to_start() {
    let seq = Sequencer::new(ContainerSpec::qdrant());
    assert!(matches!(seq.pending(), Action::Start));
    assert_eq!(seq.state.to_status(0).phase, "initializing");
}

#[test]
fn unreadable_override_file_gives_defaults_only() {
    let mut seq = Sequencer::new(ContainerSpec::qdrant());
    run_reachable(&mut seq);
    let a = to_runtime_checks(&mut seq, None);
    assert!(matches!(a, Action::CheckRuntime { .. }));
    assert!(seq.overrides.entries.is_empty());
    let a = seq.step(Event::RuntimeChecked { ok: true }, 80);
    match a {
        Action::Spawn { env, .. } => {
            assert_eq!(env.get("GROQ_API_KEY"), None);
            assert_eq!(env.get("NODE_ENV"), Some(s("production")));
            assert_eq!(env.get("QDRANT_URL"), Some(s("http://127.0.0.1:6333")));
        }
        _ => panic!("expected a spawn"),
    }
    assert!(seq.state.logs.iter().any(|l| l.ends_with("Using Node: /res/node/node.exe")));
}
