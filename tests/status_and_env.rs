use startup_orchestrator::container::{list_command, run_command, start_command, stop_command};
use startup_orchestrator::env::{backend_env, choose_storage_root, credential_configured};
use startup_orchestrator::select::runtime_candidates;
use startup_orchestrator::status::{log_engine_text, make_entry};
use startup_orchestrator::{
    containers_to_stop, find_project_root, log_docker_output, parse_dotenv, resolve_backend_paths,
    ContainerSpec, EnvVars, Layout, LayoutCheck, Phase, RootChoice, StartupState, StorageRoot,
};

fn s(x: &str) -> String {
    x.to_string()
}

#[test]
fn new_state_is_initializing() {
    let st = StartupState::new();
    let status = st.to_status(0);
    assert_eq!(status.phase, "initializing");
    assert_eq!(status.message, "Starting up...");
    assert!(status.logs.is_empty());
}

#[test]
fn log_entries_carry_rounded_seconds() {
    assert_eq!(make_entry(0, "go"), "[0.0s] go");
    assert_eq!(make_entry(1250, "go"), "[1.3s] go");
    assert_eq!(make_entry(12345, "x"), "[12.3s] x");
    assert_eq!(make_entry(99_960, "x"), "[100.0s] x");
}

#[test]
fn set_phase_updates_and_logs() {
    let mut st = StartupState::new();
    st.set_phase(Phase::Qdrant, "Starting Qdrant vector database...", 400);
    st.add_log("extra", 1500);
    let status = st.to_status(2000);
    assert_eq!(status.phase, "qdrant");
    assert_eq!(status.message, "Starting Qdrant vector database...");
    assert_eq!(status.elapsed_ms, 2000);
    assert_eq!(
        status.logs,
        vec![s("[0.4s] Starting Qdrant vector database..."), s("[1.5s] extra")]
    );
}

#[test]
fn phase_names() {
    assert_eq!(Phase::QdrantWait.name(), "qdrant_wait");
    assert_eq!(Phase::BackendStarting.name(), "backend_starting");
    assert_eq!(Phase::Timeout.name(), "timeout");
}

#[test]
fn engine_output_is_logged_line_by_line() {
    let mut st = StartupState::new();
    log_docker_output(b"abc123\n   \n  pulled  \n", b"warning: x\r\n", &mut st, 0);
    assert_eq!(
        st.logs,
        vec![
            s("[0.0s]   docker \u{203A} abc123"),
            s("[0.0s]   docker \u{203A} pulled"),
            s("[0.0s]   docker \u{203A} warning: x"),
        ]
    );
}

#[test]
fn engine_output_with_invalid_bytes_is_decoded() {
    let mut st = StartupState::new();
    log_docker_output(b"a\xffb", b"", &mut st, 0);
    assert_eq!(st.logs, vec![s("[0.0s]   docker \u{203A} a\u{FFFD}b")]);
}

#[test]
fn blank_engine_text_logs_nothing() {
    let mut st = StartupState::new();
    log_engine_text(&mut st, "\n \t\n", 0);
    assert!(st.logs.is_empty());
}

#[test]
fn dotenv_basic_lines() {
    let vars = parse_dotenv("# comment\n\nA=1\n  B = two words  \nnoequals\n=novalue\nC=\n");
    assert_eq!(vars.get("A"), Some(s("1")));
    assert_eq!(vars.get("B"), Some(s("two words")));
    assert_eq!(vars.get("C"), Some(s("")));
    assert_eq!(vars.get("noequals"), None);
    assert_eq!(vars.get(""), None);
}

#[test]
fn dotenv_last_assignment_wins() {
    let vars = parse_dotenv("KEY=first\nOTHER=x\nKEY=second\n");
    assert_eq!(vars.get("KEY"), Some(s("second")));
    assert_eq!(vars.get("OTHER"), Some(s("x")));
}

#[test]
fn dotenv_keys_are_case_sensitive() {
    let vars = parse_dotenv("key=a\nKEY=b");
    assert_eq!(vars.get("key"), Some(s("a")));
    assert_eq!(vars.get("KEY"), Some(s("b")));
}

#[test]
fn dotenv_quotes() {
    let vars = parse_dotenv("A=\"quoted\"\nB='single'\nC=\"half\nD=\"\"\nE=a=b\nF='\"x\"'\r\n");
    assert_eq!(vars.get("A"), Some(s("quoted")));
    assert_eq!(vars.get("B"), Some(s("single")));
    assert_eq!(vars.get("C"), Some(s("\"half")));
    assert_eq!(vars.get("D"), Some(s("")));
    assert_eq!(vars.get("E"), Some(s("a=b")));
    assert_eq!(vars.get("F"), Some(s("\"x\"")));
}

#[test]
fn empty_override_file_sets_nothing() {
    let vars = parse_dotenv("");
    assert_eq!(vars.get("A"), None);
    assert!(vars.entries.is_empty());
}

#[test]
fn defaults_stand_where_not_overridden() {
    let overrides = parse_dotenv("QDRANT_URL=http://other:1\nEXTRA=1\n");
    let env = backend_env("/data/storage", &overrides);
    assert_eq!(env.get("QDRANT_URL"), Some(s("http://other:1")));
    assert_eq!(env.get("BACKEND_PORT"), Some(s("3001")));
    assert_eq!(env.get("NODE_ENV"), Some(s("production")));
    assert_eq!(env.get("BACKEND_STORAGE_ROOT"), Some(s("/data/storage")));
    assert_eq!(env.get("OLLAMA_BASE_URL"), Some(s("http://localhost:11434")));
    assert_eq!(env.get("OLLAMA_CHAT_MODEL"), Some(s("minimax-m2.5:cloud")));
    assert_eq!(env.get("EXTRA"), Some(s("1")));
}

#[test]
fn empty_credential_override_disables_it() {
    let mut defaults_with_key = EnvVars::new();
    defaults_with_key.set(s("GROQ_API_KEY"), s("sk-default"));
    assert!(credential_configured(&defaults_with_key));
    let overrides = parse_dotenv("GROQ_API_KEY=\"\"\n");
    let mut env = backend_env("/s", &defaults_with_key);
    env.extend(&overrides);
    assert_eq!(env.get("GROQ_API_KEY"), Some(s("")));
    assert!(!credential_configured(&env));
}

#[test]
fn credential_placeholder_is_not_configured() {
    let env = backend_env("/s", &parse_dotenv("GROQ_API_KEY=your_groq_api_key_here"));
    assert!(!credential_configured(&env));
    let env = backend_env("/s", &parse_dotenv("GROQ_API_KEY=gsk_123"));
    assert!(credential_configured(&env));
    let env = backend_env("/s", &parse_dotenv(""));
    assert!(!credential_configured(&env));
}

#[test]
fn storage_root_choice() {
    let explicit = parse_dotenv("BACKEND_STORAGE_ROOT=  /srv/data  ");
    assert_eq!(
        choose_storage_root(&explicit, true, true, true),
        StorageRoot::Explicit(s("/srv/data"))
    );
    let blank = parse_dotenv("BACKEND_STORAGE_ROOT=   ");
    assert_eq!(choose_storage_root(&blank, true, true, true), StorageRoot::BesideBackend);
    let none = parse_dotenv("");
    assert_eq!(choose_storage_root(&none, true, false, true), StorageRoot::AppData);
    assert_eq!(choose_storage_root(&none, false, true, true), StorageRoot::AppData);
    assert_eq!(choose_storage_root(&none, false, true, false), StorageRoot::InBackend);
}

#[test]
fn project_root_search() {
    assert_eq!(find_project_root(true, &vec![true]), Some(RootChoice::BuildTime));
    assert_eq!(
        find_project_root(false, &vec![false, false, true, true]),
        Some(RootChoice::Ancestor(2))
    );
    assert_eq!(find_project_root(false, &vec![false; 6]), None);
    let mut far = vec![false; 6];
    far.push(true);
    assert_eq!(find_project_root(false, &far), None);
    assert_eq!(find_project_root(false, &vec![]), None);
}

#[test]
fn layout_resolution_skips_incomplete_layouts() {
    let c = |layout, e, d| LayoutCheck { layout, entry_exists: e, dir_exists: d };
    let trees = vec![
        c(Layout::ProjectRoot, true, false),
        c(Layout::Resource, false, true),
        c(Layout::FlatResource, true, true),
    ];
    assert_eq!(resolve_backend_paths(&trees), Some(Layout::FlatResource));
    let trees = vec![
        c(Layout::ProjectRoot, true, true),
        c(Layout::Resource, true, true),
        c(Layout::FlatResource, true, true),
    ];
    assert_eq!(resolve_backend_paths(&trees), Some(Layout::ProjectRoot));
    let trees = vec![
        c(Layout::ProjectRoot, false, false),
        c(Layout::Resource, true, true),
        c(Layout::FlatResource, true, true),
    ];
    assert_eq!(resolve_backend_paths(&trees), Some(Layout::Resource));
    let trees = vec![c(Layout::Resource, true, false)];
    assert_eq!(resolve_backend_paths(&trees), None);
    assert_eq!(resolve_backend_paths(&vec![]), None);
}

#[test]
fn runtime_candidate_order() {
    assert_eq!(
        runtime_candidates(Some(s("/res/node/node.exe")), Some(s("C:/PF/nodejs/node.exe")), None, Some(s("L/Programs/nodejs/node.exe"))),
        vec![s("/res/node/node.exe"), s("node"), s("C:/PF/nodejs/node.exe"), s("L/Programs/nodejs/node.exe")]
    );
    assert_eq!(runtime_candidates(None, None, None, None), vec![s("node")]);
}

#[test]
fn engine_commands() {
    let c = ContainerSpec::qdrant();
    assert_eq!(start_command(&c), vec![s("start"), s("canvaintel-qdrant")]);
    assert_eq!(
        run_command(&c),
        vec![
            s("run"), s("-d"), s("--name"), s("canvaintel-qdrant"), s("-p"), s("6333:6333"),
            s("-v"), s("canvaintel_qdrant_data:/qdrant/storage"), s("--restart"),
            s("unless-stopped"), s("qdrant/qdrant:latest"),
        ]
    );
    assert_eq!(
        list_command(&c),
        vec![s("ps"), s("--filter"), s("publish=6333"), s("--format"), s("{{.Names}}")]
    );
    assert_eq!(stop_command(&s("x")), vec![s("stop"), s("x")]);
}

#[test]
fn teardown_stops_listed_containers() {
    let c = ContainerSpec::qdrant();
    assert_eq!(
        containers_to_stop(Some(b"old-qdrant\n\n  other \n"), &c),
        vec![s("old-qdrant"), s("other")]
    );
}

#[test]
fn teardown_falls_back_to_the_managed_name() {
    let c = ContainerSpec::qdrant();
    assert_eq!(containers_to_stop(Some(b"\n"), &c), vec![s("canvaintel-qdrant")]);
    assert_eq!(containers_to_stop(None, &c), vec![s("canvaintel-qdrant")]);
}

#[test]
fn unicode_white_space_is_trimmed() {
    let vars = parse_dotenv("\u{3000}NAME\u{A0}=\u{2003}value\u{205F}\n");
    assert_eq!(vars.get("NAME"), Some(s("value")));
}

#[test]
fn later_part_of_file_wins_over_earlier_part() {
    let first = parse_dotenv("A=1\nB=2");
    let second = parse_dotenv("B=3\nC=4");
    let joined = parse_dotenv("A=1\nB=2\nB=3\nC=4");
    let mut merged = EnvVars::new();
    merged.extend(&first);
    merged.extend(&second);
    for k in ["A", "B", "C", "D"] {
        assert_eq!(joined.get(k), merged.get(k));
    }
    assert_eq!(joined.get("B"), Some(s("3")));
}
