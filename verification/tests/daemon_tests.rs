use humanlayer_wui::daemon::{
    check_daemon_health, dev_daemon_location, dev_daemon_under, elapsed_millis,
    elapsed_millis_begun, get_daemon_path, health_url, is_nightly,
    launch_environment, locate_daemon, packaged_daemon_under, parse_port_line,
    read_announced_port, resolve_paths, wait_for_daemon, DaemonError, DaemonInfo,
    DaemonManager, DaemonPaths, ExitProbe, FirstLine, HealthReply, Launch, LaunchEvent,
    LaunchPhase, LaunchStep, ReadinessEvent, ReadinessStep, StartDecision, StopEvent, StopStep,
    Surroundings, WatchStep, AUTOLAUNCH_VAR, DATABASE_VAR, HTTP_HOST_VAR,
    HTTP_PORT_VAR, LIVENESS_INTERVAL_MS, PORT_PREFIX, READINESS_INTERVAL_MS, READINESS_TIMEOUT_MS,
    SHUTDOWN_INTERVAL_MS, SHUTDOWN_TIMEOUT_MS, SOCKET_VAR, VERSION_VAR,
};

fn nothing_configured() -> Surroundings {
    Surroundings {
        autolaunch: None,
        http_port: None,
        socket: None,
        database_path: None,
        version_override: None,
        git_branch: None,
    }
}

fn some(text: &str) -> Option<String> {
    Some(text.to_string())
}

fn dev_paths() -> DaemonPaths {
    DaemonPaths {
        data_dir: "/home/u/.humanlayer".to_string(),
        database_path: "/home/u/.humanlayer/daemon-eng-1.db".to_string(),
        socket_path: "/home/u/.humanlayer/daemon-eng-1.sock".to_string(),
        seed_database: some("/home/u/.humanlayer/daemon-dev.db"),
    }
}

fn announcement(port: u16) -> LaunchEvent {
    LaunchEvent::FirstLine(FirstLine::Line(format!("HTTP_PORT={}\n", port)))
}

fn launching(manager: &mut DaemonManager, pid: u32, port: u16) -> Launch {
    let mut launch = Launch::new(dev_paths(), "eng-1".to_string(), pid);
    assert!(matches!(launch.step(manager, announcement(port)), LaunchStep::Look));
    assert!(matches!(launch.step(manager, LaunchEvent::Looked(ExitProbe::Running)), LaunchStep::Ask));
    launch
}

fn tracking(pid: u32, port: u16) -> DaemonManager {
    let mut manager = DaemonManager::new();
    launching(&mut manager, pid, port);
    manager
}

fn launched_record(pid: u32, port: u16) -> DaemonInfo {
    DaemonInfo {
        port,
        pid,
        database_path: "/home/u/.humanlayer/daemon-eng-1.db".to_string(),
        socket_path: "/home/u/.humanlayer/daemon-eng-1.sock".to_string(),
        branch_id: "eng-1".to_string(),
        is_running: true,
    }
}

fn pair(name: &str, value: &str) -> (String, String) {
    (name.to_string(), value.to_string())
}

// The port announcement

#[test]
fn port_is_read_from_the_announcement() {
    assert_eq!(parse_port_line("HTTP_PORT=7777\n"), Some(7777));
    assert_eq!(parse_port_line("HTTP_PORT=0\n"), Some(0));
    assert_eq!(parse_port_line("HTTP_PORT=65535\n"), Some(65535));
    assert_eq!(parse_port_line("HTTP_PORT=8080"), Some(8080));
    assert_eq!(parse_port_line("HTTP_PORT=8080\r\n"), Some(8080));
    assert_eq!(parse_port_line("HTTP_PORT=8080 \t \n"), Some(8080));
    assert_eq!(parse_port_line("HTTP_PORT=0080\n"), Some(80));
    assert_eq!(parse_port_line("HTTP_PORT=+80\n"), Some(80));
}

#[test]
fn every_port_is_read_back_from_its_announcement() {
    let mut port: u32 = 0;
    while port <= 65535 {
        let line = format!("HTTP_PORT={}\n", port);
        assert_eq!(parse_port_line(&line), Some(port as u16));
        port += 1;
    }
}

#[test]
fn other_first_lines_announce_no_port() {
    assert_eq!(parse_port_line(""), None);
    assert_eq!(parse_port_line("\n"), None);
    assert_eq!(parse_port_line("HTTP_PORT=\n"), None);
    assert_eq!(parse_port_line("HTTP_PORT=abc\n"), None);
    assert_eq!(parse_port_line("HTTP_PORT=65536\n"), None);
    assert_eq!(parse_port_line("HTTP_PORT=-1\n"), None);
    assert_eq!(parse_port_line("HTTP_PORT= 80\n"), None);
    assert_eq!(parse_port_line("HTTP_PORT=80 81\n"), None);
    assert_eq!(parse_port_line("HTTP_PORT=80x\n"), None);
    assert_eq!(parse_port_line(" HTTP_PORT=80\n"), None);
    assert_eq!(parse_port_line("http_port=80\n"), None);
    assert_eq!(parse_port_line("HTTP_PORT:80\n"), None);
    assert_eq!(parse_port_line("PORT=80\n"), None);
    assert_eq!(parse_port_line("HTTP_PORT"), None);
    assert_eq!(parse_port_line("starting daemon...\n"), None);
    assert_eq!(parse_port_line("HTTP_PORT=HTTP_PORT=80\n"), None);
    assert_eq!(parse_port_line("HTTP_PORT=8HTTP_PORT=0\n"), None);
}

#[test]
fn announced_port_comes_out_of_the_first_line() {
    assert!(matches!(read_announced_port(FirstLine::Line("HTTP_PORT=4242\n".to_string())), Ok(4242)));
}

#[test]
fn closed_output_is_an_error_of_its_own() {
    let failed = read_announced_port(FirstLine::Closed).unwrap_err();
    assert!(matches!(failed, DaemonError::StdoutClosed));
    assert_eq!(failed.message(), "Daemon stdout closed before reporting port");
}

#[test]
fn unreadable_output_carries_the_reason() {
    let failed = read_announced_port(FirstLine::Failed("broken pipe".to_string())).unwrap_err();
    assert!(matches!(failed, DaemonError::StdoutUnreadable(_)));
    assert_eq!(failed.message(), "Failed to read daemon stdout: broken pipe");
}

#[test]
fn another_first_line_is_shown_in_the_error() {
    let failed = read_announced_port(FirstLine::Line("listening on 80\n".to_string())).unwrap_err();
    assert!(matches!(failed, DaemonError::PortNotReported(_)));
    assert_eq!(
        failed.message(),
        "Daemon failed to report port. First line was: \"listening on 80\\n\""
    );
    let failed = read_announced_port(FirstLine::Line(String::new())).unwrap_err();
    assert_eq!(failed.message(), "Daemon failed to report port. First line was: \"\"");
    let failed = read_announced_port(FirstLine::Line("say \"hi\"\t\n".to_string())).unwrap_err();
    assert_eq!(
        failed.message(),
        "Daemon failed to report port. First line was: \"say \\\"hi\\\"\\t\\n\""
    );
}

// Errors

#[test]
fn every_error_has_its_words() {
    let why = || "why".to_string();
    assert_eq!(
        DaemonError::ExternalPortMissing.message(),
        "HUMANLAYER_WUI_AUTOLAUNCH_DAEMON=false but no HUMANLAYER_DAEMON_HTTP_PORT set"
    );
    assert_eq!(DaemonError::NoHomeDirectory.message(), "Failed to get home directory");
    assert_eq!(
        DaemonError::CreateDirectory(why()).message(),
        "Failed to create .humanlayer directory: why"
    );
    assert_eq!(DaemonError::CopyDatabase(why()).message(), "Failed to copy dev database: why");
    assert_eq!(
        DaemonError::CurrentDirectory(why()).message(),
        "Failed to get current directory: why"
    );
    assert_eq!(DaemonError::NoParentDirectory.message(), "Failed to get parent directory");
    assert_eq!(
        DaemonError::DevDaemonMissing("\"/x/hld/hld-dev\"".to_string()).message(),
        "Development daemon not found at \"/x/hld/hld-dev\". Run 'make daemon-dev-build' first."
    );
    assert_eq!(
        DaemonError::DaemonMissing("\"/r/bin/hld\"".to_string()).message(),
        "Daemon not found at \"/r/bin/hld\""
    );
    assert_eq!(
        DaemonError::ResourceDirectory(why()).message(),
        "Failed to get resource directory: why"
    );
    assert_eq!(DaemonError::Spawn(why()).message(), "Failed to start daemon: why");
    assert_eq!(DaemonError::NoStdout.message(), "Failed to capture daemon stdout");
    assert_eq!(DaemonError::StdoutClosed.message(), "Daemon stdout closed before reporting port");
    assert_eq!(DaemonError::StdoutUnreadable(why()).message(), "Failed to read daemon stdout: why");
    assert_eq!(
        DaemonError::PortNotReported("\"x\"".to_string()).message(),
        "Daemon failed to report port. First line was: \"x\""
    );
    assert_eq!(
        DaemonError::ExitedEarly("ExitStatus(unix_wait_status(256))".to_string()).message(),
        "Daemon process exited immediately after starting! Status: ExitStatus(unix_wait_status(256))"
    );
    assert_eq!(DaemonError::NotReady.message(), "Daemon failed to start within 10 seconds");
    assert_eq!(DaemonError::Unhealthy.message(), "Daemon health check failed");
    assert_eq!(DaemonError::Unreachable(why()).message(), "Failed to connect to daemon: why");
    assert_eq!(DaemonError::Signal(why()).message(), "Failed to send SIGTERM to daemon: why");
    assert_eq!(DaemonError::Kill(why()).message(), "Failed to kill daemon: why");
    assert_eq!(DaemonError::Status(why()).message(), "Failed to check daemon status: why");
}

#[test]
fn constants_have_the_values_the_daemon_expects() {
    assert_eq!(AUTOLAUNCH_VAR, "HUMANLAYER_WUI_AUTOLAUNCH_DAEMON");
    assert_eq!(HTTP_PORT_VAR, "HUMANLAYER_DAEMON_HTTP_PORT");
    assert_eq!(HTTP_HOST_VAR, "HUMANLAYER_DAEMON_HTTP_HOST");
    assert_eq!(SOCKET_VAR, "HUMANLAYER_DAEMON_SOCKET");
    assert_eq!(DATABASE_VAR, "HUMANLAYER_DATABASE_PATH");
    assert_eq!(VERSION_VAR, "HUMANLAYER_DAEMON_VERSION_OVERRIDE");
    assert_eq!(PORT_PREFIX, "HTTP_PORT=");
    assert_eq!(READINESS_TIMEOUT_MS, 10_000);
    assert_eq!(READINESS_INTERVAL_MS, 500);
    assert_eq!(SHUTDOWN_TIMEOUT_MS, 15_000);
    assert_eq!(SHUTDOWN_INTERVAL_MS, 100);
    assert_eq!(LIVENESS_INTERVAL_MS, 1_000);
}

// Health and readiness

#[test]
fn health_address_names_the_port() {
    assert_eq!(health_url(7777), "http://localhost:7777/api/v1/health");
    assert_eq!(health_url(0), "http://localhost:0/api/v1/health");
    assert_eq!(health_url(65535), "http://localhost:65535/api/v1/health");
}

#[test]
fn only_success_statuses_are_healthy() {
    assert!(check_daemon_health(HealthReply::Status(200)).is_ok());
    assert!(check_daemon_health(HealthReply::Status(204)).is_ok());
    assert!(check_daemon_health(HealthReply::Status(299)).is_ok());
    for code in [0u16, 100, 199, 300, 301, 404, 500, 503, 65535] {
        let failed = check_daemon_health(HealthReply::Status(code)).unwrap_err();
        assert!(matches!(failed, DaemonError::Unhealthy), "{}", code);
    }
}

#[test]
fn unreachable_endpoint_carries_the_reason() {
    let failed = check_daemon_health(HealthReply::Unreachable("refused".to_string())).unwrap_err();
    assert_eq!(failed.message(), "Failed to connect to daemon: refused");
}

#[test]
fn readiness_asks_until_the_timeout() {
    assert!(matches!(wait_for_daemon(ReadinessEvent::Round { elapsed_ms: 0 }), ReadinessStep::Ask));
    assert!(matches!(
        wait_for_daemon(ReadinessEvent::Round { elapsed_ms: 9_999 }),
        ReadinessStep::Ask
    ));
    assert!(matches!(
        wait_for_daemon(ReadinessEvent::Round { elapsed_ms: 10_000 }),
        ReadinessStep::GiveUp(DaemonError::NotReady)
    ));
    assert!(matches!(
        wait_for_daemon(ReadinessEvent::Round { elapsed_ms: u64::MAX }),
        ReadinessStep::GiveUp(DaemonError::NotReady)
    ));
}

#[test]
fn readiness_pauses_after_an_unsuccessful_answer() {
    assert!(matches!(
        wait_for_daemon(ReadinessEvent::Answer(HealthReply::Status(200))),
        ReadinessStep::Ready
    ));
    assert!(matches!(
        wait_for_daemon(ReadinessEvent::Answer(HealthReply::Status(503))),
        ReadinessStep::Pause(500)
    ));
    assert!(matches!(
        wait_for_daemon(ReadinessEvent::Answer(HealthReply::Unreachable("refused".to_string()))),
        ReadinessStep::Pause(500)
    ));
}

#[test]
fn readiness_timeout_leaves_the_process_running_and_tracked() {
    let mut manager = DaemonManager::new();
    let mut launch = launching(&mut manager, 4321, 7777);
    let mut elapsed = 0u64;
    let mut asked = 0u32;
    let mut step = launch.awaits();
    let failed = loop {
        let event = match step {
            LaunchStep::Ask => {
                asked += 1;
                LaunchEvent::Answer(HealthReply::Unreachable("connection refused".to_string()))
            },
            LaunchStep::Pause(pause) => {
                elapsed += pause;
                LaunchEvent::Round { elapsed_ms: elapsed }
            },
            LaunchStep::Fail(why) => break why,
            other => panic!("{:?}", other),
        };
        step = launch.step(&mut manager, event);
    };
    assert_eq!(elapsed, 10_000);
    assert_eq!(asked, 20);
    assert!(matches!(failed, DaemonError::NotReady));
    assert_eq!(failed.message(), "Daemon failed to start within 10 seconds");
    assert_eq!(launch.phase(), LaunchPhase::Over);
    assert_eq!(manager.tracked_pid(), Some(4321));
    assert!(manager.is_running(Some(ExitProbe::Running)));
    assert_eq!(manager.get_info(), Some(launched_record(4321, 7777)));
    assert_eq!(manager.observe(Some(ExitProbe::Running)), WatchStep::Continue);
}

// Paths

#[test]
fn nightly_builds_are_known_by_their_identifier() {
    assert!(is_nightly("dev.humanlayer.wui.nightly"));
    assert!(is_nightly("nightly"));
    assert!(!is_nightly("dev.humanlayer.wui"));
    assert!(!is_nightly("Nightly"));
    assert!(!is_nightly(""));
}

#[test]
fn development_paths_carry_the_branch() {
    let paths = resolve_paths(Some("/home/u"), &None, &None, true, false, "eng-1").unwrap();
    assert_eq!(paths, dev_paths());
}

#[test]
fn development_goes_before_nightly() {
    let paths = resolve_paths(Some("/home/u"), &None, &None, true, true, "main").unwrap();
    assert_eq!(paths.database_path, "/home/u/.humanlayer/daemon-main.db");
    assert_eq!(paths.socket_path, "/home/u/.humanlayer/daemon-main.sock");
}

#[test]
fn nightly_paths_have_their_own_names() {
    let paths = resolve_paths(Some("/home/u"), &None, &None, false, true, "production").unwrap();
    assert_eq!(paths.data_dir, "/home/u/.humanlayer");
    assert_eq!(paths.database_path, "/home/u/.humanlayer/daemon-nightly.db");
    assert_eq!(paths.socket_path, "/home/u/.humanlayer/daemon-nightly.sock");
    assert_eq!(paths.seed_database, None);
}

#[test]
fn production_paths_have_the_plain_names() {
    let paths = resolve_paths(Some("/home/u/"), &None, &None, false, false, "production").unwrap();
    assert_eq!(paths.data_dir, "/home/u/.humanlayer");
    assert_eq!(paths.database_path, "/home/u/.humanlayer/daemon.db");
    assert_eq!(paths.socket_path, "/home/u/.humanlayer/daemon.sock");
    assert_eq!(paths.seed_database, None);
}

#[test]
fn configured_paths_win() {
    let paths =
        resolve_paths(Some("/home/u"), &some("/tmp/x.db"), &some("/tmp/x.sock"), true, false, "b")
            .unwrap();
    assert_eq!(paths.data_dir, "/home/u/.humanlayer");
    assert_eq!(paths.database_path, "/tmp/x.db");
    assert_eq!(paths.socket_path, "/tmp/x.sock");
    assert_eq!(paths.seed_database, None);
    let paths = resolve_paths(Some("/home/u"), &None, &some("/tmp/x.sock"), true, false, "b").unwrap();
    assert_eq!(paths.database_path, "/home/u/.humanlayer/daemon-b.db");
    assert_eq!(paths.socket_path, "/tmp/x.sock");
    assert_eq!(paths.seed_database, some("/home/u/.humanlayer/daemon-dev.db"));
}

#[test]
fn no_home_directory_no_paths() {
    let failed = resolve_paths(None, &some("/tmp/x.db"), &some("/tmp/x.sock"), true, false, "b")
        .unwrap_err();
    assert!(matches!(failed, DaemonError::NoHomeDirectory));
}

#[test]
fn database_is_seeded_only_when_missing_and_there_is_a_seed() {
    let paths = dev_paths();
    assert!(paths.needs_seeding(false, true));
    assert!(!paths.needs_seeding(true, true));
    assert!(!paths.needs_seeding(false, false));
    assert!(!paths.needs_seeding(true, false));
    let unseeded = DaemonPaths { seed_database: None, ..dev_paths() };
    assert!(!unseeded.needs_seeding(false, true));
}

#[test]
fn launched_daemon_is_told_its_paths_and_a_free_port() {
    let vars = launch_environment(&dev_paths(), false, "production");
    assert_eq!(
        vars,
        vec![
            pair("HUMANLAYER_DATABASE_PATH", "/home/u/.humanlayer/daemon-eng-1.db"),
            pair("HUMANLAYER_DAEMON_SOCKET", "/home/u/.humanlayer/daemon-eng-1.sock"),
            pair("HUMANLAYER_DAEMON_HTTP_PORT", "0"),
            pair("HUMANLAYER_DAEMON_HTTP_HOST", "localhost"),
        ]
    );
}

#[test]
fn development_daemon_is_told_its_tag_and_to_be_verbose() {
    let vars = launch_environment(&dev_paths(), true, "eng-1");
    assert_eq!(
        vars,
        vec![
            pair("HUMANLAYER_DATABASE_PATH", "/home/u/.humanlayer/daemon-eng-1.db"),
            pair("HUMANLAYER_DAEMON_SOCKET", "/home/u/.humanlayer/daemon-eng-1.sock"),
            pair("HUMANLAYER_DAEMON_HTTP_PORT", "0"),
            pair("HUMANLAYER_DAEMON_HTTP_HOST", "localhost"),
            pair("HUMANLAYER_DAEMON_VERSION_OVERRIDE", "eng-1"),
            pair("HUMANLAYER_DEBUG", "true"),
            pair("GIN_MODE", "debug"),
        ]
    );
}

// The executable

#[test]
fn daemon_builders_put_the_names_under_the_directory() {
    assert_eq!(dev_daemon_under("/src/humanlayer"), "/src/humanlayer/hld/hld-dev");
    assert_eq!(packaged_daemon_under("/app/resources"), "/app/resources/bin/hld");
    assert_eq!(packaged_daemon_under("/app/resources/"), "/app/resources/bin/hld");
}

#[test]
fn development_daemon_is_looked_for_one_level_up() {
    let found = locate_daemon(
        true,
        Ok("/src/humanlayer/humanlayer-wui".to_string()),
        Err("no resources".to_string()),
    );
    assert_eq!(found.unwrap(), "/src/humanlayer/hld/hld-dev");
}

#[test]
fn development_daemon_is_looked_for_two_levels_up_from_src_tauri() {
    let found = locate_daemon(
        true,
        Ok("/src/humanlayer/humanlayer-wui/src-tauri".to_string()),
        Err("no resources".to_string()),
    );
    assert_eq!(found.unwrap(), "/src/humanlayer/hld/hld-dev");
    let found = locate_daemon(
        true,
        Ok("/src/humanlayer/humanlayer-wui/src-tauri/".to_string()),
        Ok("/r".to_string()),
    );
    assert_eq!(found.unwrap(), "/src/humanlayer/hld/hld-dev");
}

#[test]
fn a_directory_that_only_ends_in_the_letters_is_not_src_tauri() {
    let found =
        locate_daemon(true, Ok("/src/humanlayer/not-src-tauri".to_string()), Ok("/r".to_string()));
    assert_eq!(found.unwrap(), "/src/humanlayer/hld/hld-dev");
}

#[test]
fn development_daemon_needs_parents_to_look_under() {
    for dir in ["/", "", "/src-tauri", "src-tauri"] {
        let found = locate_daemon(true, Ok(dir.to_string()), Ok("/r".to_string()));
        assert!(matches!(found, Err(DaemonError::NoParentDirectory)), "{:?}", dir);
    }
    let found = locate_daemon(true, Ok("wui".to_string()), Ok("/r".to_string()));
    assert_eq!(found.unwrap(), "hld/hld-dev");
    let found = locate_daemon(true, Ok("/wui".to_string()), Ok("/r".to_string()));
    assert_eq!(found.unwrap(), "/hld/hld-dev");
}

#[test]
fn unknown_working_directory_is_an_error_in_development_only() {
    let found = locate_daemon(true, Err("gone".to_string()), Ok("/r".to_string()));
    assert_eq!(found.unwrap_err().message(), "Failed to get current directory: gone");
    let found = locate_daemon(false, Err("gone".to_string()), Ok("/r".to_string()));
    assert_eq!(found.unwrap(), "/r/bin/hld");
}

#[test]
fn packaged_daemon_stands_among_the_resources() {
    let found = locate_daemon(false, Ok("/anywhere".to_string()), Ok("/app/res".to_string()));
    assert_eq!(found.unwrap(), "/app/res/bin/hld");
    let found = locate_daemon(false, Ok("/anywhere".to_string()), Err("no bundle".to_string()));
    assert_eq!(found.unwrap_err().message(), "Failed to get resource directory: no bundle");
}

#[test]
fn development_daemon_has_to_exist() {
    let path = get_daemon_path(true, Ok("/s/hld/hld-dev".to_string()), true);
    assert_eq!(path.unwrap(), "/s/hld/hld-dev");
    let path = get_daemon_path(true, Ok("/s/hld/hld-dev".to_string()), false);
    assert_eq!(
        path.unwrap_err().message(),
        "Development daemon not found at \"/s/hld/hld-dev\". Run 'make daemon-dev-build' first."
    );
}

#[test]
fn packaged_daemon_has_to_exist_too() {
    assert_eq!(get_daemon_path(false, Ok("/r/bin/hld".to_string()), true).unwrap(), "/r/bin/hld");
    let failed = get_daemon_path(false, Ok("/r/bin/hld".to_string()), false).unwrap_err();
    assert!(matches!(failed, DaemonError::DaemonMissing(_)));
    assert_eq!(failed.message(), "Daemon not found at \"/r/bin/hld\"");
}

#[test]
fn the_source_root_lies_one_level_up_or_two_from_src_tauri() {
    let up = || some("/src/humanlayer/humanlayer-wui");
    let up_two = || some("/src/humanlayer");
    assert_eq!(
        dev_daemon_location(false, up(), up_two()).unwrap(),
        "/src/humanlayer/humanlayer-wui/hld/hld-dev"
    );
    assert_eq!(dev_daemon_location(true, up(), up_two()).unwrap(), "/src/humanlayer/hld/hld-dev");
    assert_eq!(dev_daemon_location(false, up(), None).unwrap(), "/src/humanlayer/humanlayer-wui/hld/hld-dev");
    assert_eq!(dev_daemon_location(false, some(""), None).unwrap(), "hld/hld-dev");
}

#[test]
fn without_enough_levels_there_is_nowhere_to_look() {
    assert!(matches!(dev_daemon_location(false, None, None), Err(DaemonError::NoParentDirectory)));
    assert!(matches!(dev_daemon_location(true, None, None), Err(DaemonError::NoParentDirectory)));
    assert!(matches!(dev_daemon_location(true, some("/"), None), Err(DaemonError::NoParentDirectory)));
    assert!(matches!(dev_daemon_location(true, None, some("/x")), Err(DaemonError::NoParentDirectory)));
    assert!(matches!(dev_daemon_location(false, None, some("/x")), Err(DaemonError::NoParentDirectory)));
}

#[test]
fn whole_milliseconds_are_counted_for_a_timeout_to_stay_under() {
    assert_eq!(elapsed_millis(0, 0), 0);
    assert_eq!(elapsed_millis(0, 999_999), 0);
    assert_eq!(elapsed_millis(0, 1_000_000), 1);
    assert_eq!(elapsed_millis(9, 999_999_999), 9_999);
    assert_eq!(elapsed_millis(10, 0), 10_000);
    assert_eq!(elapsed_millis(u64::MAX, 0), u64::MAX);
    assert_eq!(elapsed_millis(u64::MAX / 1000, 999_999_999), u64::MAX);
    assert_eq!(elapsed_millis(u64::MAX / 1000, 614_999_999), u64::MAX - 1);
    assert_eq!(elapsed_millis(u64::MAX / 1000 - 1, 999_999_999), u64::MAX / 1000 * 1000 - 1);
    assert_eq!(elapsed_millis(u64::MAX / 1000 + 1, 0), u64::MAX);
}

#[test]
fn begun_milliseconds_are_counted_for_a_timeout_not_to_pass() {
    assert_eq!(elapsed_millis_begun(0, 0), 0);
    assert_eq!(elapsed_millis_begun(0, 1), 1);
    assert_eq!(elapsed_millis_begun(0, 1_000_000), 1);
    assert_eq!(elapsed_millis_begun(0, 1_000_001), 2);
    assert_eq!(elapsed_millis_begun(15, 0), 15_000);
    assert_eq!(elapsed_millis_begun(15, 1), 15_001);
    assert_eq!(elapsed_millis_begun(14, 999_999_999), 15_000);
    assert_eq!(elapsed_millis_begun(u64::MAX, 5), u64::MAX);
}

#[test]
fn counting_agrees_with_the_standard_library() {
    for (seconds, nanoseconds) in [(0u64, 0u32), (0, 999_999), (3, 500_000_000), (15, 1), (9, 999_999_999)] {
        let span = std::time::Duration::new(seconds, nanoseconds);
        assert_eq!(elapsed_millis(seconds, nanoseconds) as u128, span.as_millis());
        let timeout = std::time::Duration::from_secs(15);
        assert_eq!(elapsed_millis_begun(seconds, nanoseconds) > 15_000, span > timeout);
        let timeout = std::time::Duration::from_secs(10);
        assert_eq!(elapsed_millis(seconds, nanoseconds) < 10_000, span < timeout);
    }
}

#[test]
fn an_executable_that_was_not_located_stays_an_error() {
    for is_dev in [true, false] {
        for exists in [true, false] {
            let path = get_daemon_path(is_dev, Err(DaemonError::NoParentDirectory), exists);
            assert!(matches!(path, Err(DaemonError::NoParentDirectory)));
        }
    }
}

// The supervisor

#[test]
fn a_new_supervisor_tracks_nothing() {
    let manager = DaemonManager::new();
    assert_eq!(manager.get_info(), None);
    assert_eq!(manager.tracked_pid(), None);
    assert!(!manager.is_running(Some(ExitProbe::Running)));
    assert!(!manager.is_running(None));
}

#[test]
fn without_configuration_a_daemon_is_launched() {
    let mut manager = DaemonManager::new();
    let decision = manager.start_daemon(&nothing_configured(), true, None, None);
    assert!(matches!(decision, StartDecision::Launch));
    assert_eq!(manager.get_info(), None);
    assert_eq!(manager.tracked_pid(), None);
}

#[test]
fn a_configured_port_is_probed_first() {
    let mut manager = DaemonManager::new();
    let about = Surroundings { http_port: some("7777"), ..nothing_configured() };
    assert!(matches!(manager.start_daemon(&about, false, None, None), StartDecision::Probe(7777)));
    assert_eq!(manager.get_info(), None);
    let about = Surroundings { http_port: some("not a port"), ..nothing_configured() };
    assert!(matches!(manager.start_daemon(&about, false, None, None), StartDecision::Launch));
    let about = Surroundings { autolaunch: some("true"), http_port: some("1"), ..nothing_configured() };
    assert!(matches!(manager.start_daemon(&about, false, None, None), StartDecision::Probe(1)));
}

#[test]
fn a_daemon_that_answers_is_adopted() {
    let mut manager = DaemonManager::new();
    let info = manager.adopt_existing(7777, HealthReply::Status(200)).unwrap();
    let expected = DaemonInfo {
        port: 7777,
        pid: 0,
        database_path: "external".to_string(),
        socket_path: "external".to_string(),
        branch_id: "external".to_string(),
        is_running: true,
    };
    assert_eq!(info, expected);
    assert_eq!(manager.get_info(), Some(expected));
    assert_eq!(manager.tracked_pid(), None);
    assert!(!manager.is_running(Some(ExitProbe::Running)));
}

#[test]
fn a_daemon_that_does_not_answer_with_success_is_not_adopted() {
    for reply in [HealthReply::Status(503), HealthReply::Status(199), HealthReply::Unreachable("x".to_string())] {
        let mut manager = DaemonManager::new();
        assert_eq!(manager.adopt_existing(7777, reply), None);
        assert_eq!(manager.get_info(), None);
    }
    let mut manager = tracking(4321, 7777);
    let recorded = manager.get_info();
    assert_eq!(manager.adopt_existing(1, HealthReply::Status(404)), None);
    assert_eq!(manager.get_info(), recorded);
}

#[test]
fn with_launching_switched_off_the_configured_daemon_is_recorded() {
    let mut manager = DaemonManager::new();
    let about = Surroundings {
        autolaunch: some(" False\n"),
        http_port: some("7777"),
        ..nothing_configured()
    };
    let decision = manager.start_daemon(&about, false, some("ignored"), None);
    let expected = DaemonInfo {
        port: 7777,
        pid: 0,
        database_path: "~/.humanlayer/daemon.db".to_string(),
        socket_path: "~/.humanlayer/daemon-7777.sock".to_string(),
        branch_id: "production".to_string(),
        is_running: true,
    };
    match decision {
        StartDecision::External(info) => assert_eq!(info, expected),
        other => panic!("{:?}", other),
    }
    assert_eq!(manager.get_info(), Some(expected));
    assert_eq!(manager.tracked_pid(), None);
}

#[test]
fn external_daemon_takes_what_is_configured() {
    let mut manager = DaemonManager::new();
    let about = Surroundings {
        autolaunch: some("false"),
        http_port: some("+8080"),
        socket: some("/tmp/d.sock"),
        database_path: some("/tmp/d.db"),
        version_override: some("v9"),
        git_branch: some("feature/eng-5"),
    };
    match manager.start_daemon(&about, true, None, None) {
        StartDecision::External(info) => assert_eq!(
            info,
            DaemonInfo {
                port: 8080,
                pid: 0,
                database_path: "/tmp/d.db".to_string(),
                socket_path: "/tmp/d.sock".to_string(),
                branch_id: "v9".to_string(),
                is_running: true,
            }
        ),
        other => panic!("{:?}", other),
    }
}

#[test]
fn external_daemon_in_development_is_tagged_by_branch() {
    let mut manager = DaemonManager::new();
    let about = Surroundings {
        autolaunch: some("FALSE"),
        http_port: some("9"),
        git_branch: some("feature/eng-5-x"),
        ..nothing_configured()
    };
    match manager.start_daemon(&about, true, None, None) {
        StartDecision::External(info) => assert_eq!(info.branch_id, "eng-5"),
        other => panic!("{:?}", other),
    }
    match manager.start_daemon(&about, true, some("release"), None) {
        StartDecision::External(info) => assert_eq!(info.branch_id, "release"),
        other => panic!("{:?}", other),
    }
}

#[test]
fn with_launching_switched_off_a_port_is_needed() {
    for port in [None, some(""), some("http"), some("70000")] {
        let mut manager = DaemonManager::new();
        let about = Surroundings { autolaunch: some("false"), http_port: port, ..nothing_configured() };
        match manager.start_daemon(&about, true, None, None) {
            StartDecision::Refused(why) => assert_eq!(
                why.message(),
                "HUMANLAYER_WUI_AUTOLAUNCH_DAEMON=false but no HUMANLAYER_DAEMON_HTTP_PORT set"
            ),
            other => panic!("{:?}", other),
        }
        assert_eq!(manager.get_info(), None);
    }
}

#[test]
fn only_the_word_false_switches_launching_off() {
    for value in ["0", "no", "off", "fals", "false!", "", "f a l s e"] {
        let mut manager = DaemonManager::new();
        let about = Surroundings { autolaunch: some(value), ..nothing_configured() };
        assert!(matches!(manager.start_daemon(&about, true, None, None), StartDecision::Launch), "{:?}", value);
    }
}

// The launch

#[test]
fn a_launch_begins_by_waiting_for_the_announcement() {
    let launch = Launch::new(dev_paths(), "eng-1".to_string(), 4321);
    assert_eq!(launch.phase(), LaunchPhase::Announcing { pid: 4321 });
    assert!(matches!(launch.awaits(), LaunchStep::ReadFirstLine));
    assert_eq!(launch.port(), None);
    assert!(!launch.is_tracked());
}

#[test]
fn an_announced_port_is_followed_by_a_look_at_the_process() {
    let mut manager = DaemonManager::new();
    let mut launch = Launch::new(dev_paths(), "eng-1".to_string(), 4321);
    assert!(matches!(launch.step(&mut manager, announcement(7777)), LaunchStep::Look));
    assert_eq!(launch.phase(), LaunchPhase::Looking { pid: 4321, port: 7777 });
    assert_eq!(launch.port(), Some(7777));
    assert!(!launch.is_tracked());
    assert_eq!(manager.tracked_pid(), None);
    assert_eq!(manager.get_info(), None);
}

#[test]
fn a_process_that_is_seen_alive_is_tracked_with_its_record() {
    let mut manager = DaemonManager::new();
    let launch = launching(&mut manager, 4321, 7777);
    assert_eq!(launch.phase(), LaunchPhase::Asking { pid: 4321, port: 7777 });
    assert!(launch.is_tracked());
    assert_eq!(manager.get_info(), Some(launched_record(4321, 7777)));
    assert_eq!(manager.tracked_pid(), Some(4321));
    assert!(manager.is_running(Some(ExitProbe::Running)));
}

#[test]
fn a_failed_look_does_not_stand_in_the_way_of_tracking() {
    let mut manager = DaemonManager::new();
    let mut launch = Launch::new(dev_paths(), "eng-1".to_string(), 1);
    launch.step(&mut manager, announcement(2));
    let step = launch.step(&mut manager, LaunchEvent::Looked(ExitProbe::Failed("no such process".to_string())));
    assert!(matches!(step, LaunchStep::Ask));
    assert_eq!(manager.tracked_pid(), Some(1));
    assert_eq!(manager.get_info(), Some(launched_record(1, 2)));
}

#[test]
fn a_process_that_exited_at_once_is_not_tracked() {
    let mut manager = DaemonManager::new();
    let mut launch = Launch::new(dev_paths(), "eng-1".to_string(), 4321);
    launch.step(&mut manager, announcement(7777));
    let step = launch.step(&mut manager, LaunchEvent::Looked(ExitProbe::Exited("exit status: 1".to_string())));
    match step {
        LaunchStep::Fail(why) => assert_eq!(
            why.message(),
            "Daemon process exited immediately after starting! Status: exit status: 1"
        ),
        other => panic!("{:?}", other),
    }
    assert_eq!(launch.phase(), LaunchPhase::Over);
    assert_eq!(manager.get_info(), None);
    assert_eq!(manager.tracked_pid(), None);
    assert!(!manager.is_running(Some(ExitProbe::Running)));
}

#[test]
fn a_failed_announcement_leaves_nothing_tracked() {
    let firsts = || {
        vec![
            (FirstLine::Closed, "Daemon stdout closed before reporting port".to_string()),
            (
                FirstLine::Line("oops\n".to_string()),
                "Daemon failed to report port. First line was: \"oops\\n\"".to_string(),
            ),
            (
                FirstLine::Line("HTTP_PORT=99999\n".to_string()),
                "Daemon failed to report port. First line was: \"HTTP_PORT=99999\\n\"".to_string(),
            ),
            (FirstLine::Failed("x".to_string()), "Failed to read daemon stdout: x".to_string()),
        ]
    };
    for (first, words) in firsts() {
        let mut manager = DaemonManager::new();
        let mut launch = Launch::new(dev_paths(), "eng-1".to_string(), 4321);
        match launch.step(&mut manager, LaunchEvent::FirstLine(first)) {
            LaunchStep::Fail(why) => assert_eq!(why.message(), words),
            other => panic!("{:?}", other),
        }
        assert_eq!(launch.phase(), LaunchPhase::Over);
        assert_eq!(manager.tracked_pid(), None);
        assert_eq!(manager.get_info(), None);
        assert!(!manager.is_running(Some(ExitProbe::Running)));
    }
}

#[test]
fn a_failed_announcement_leaves_an_earlier_record_as_it_was() {
    let mut manager = DaemonManager::new();
    manager.adopt_existing(9, HealthReply::Status(200));
    let recorded = manager.get_info();
    let mut launch = Launch::new(dev_paths(), "eng-1".to_string(), 4321);
    launch.step(&mut manager, LaunchEvent::FirstLine(FirstLine::Closed));
    assert_eq!(manager.get_info(), recorded);
    assert_eq!(manager.tracked_pid(), None);
}

#[test]
fn a_healthy_answer_ends_the_launch_well() {
    let mut manager = DaemonManager::new();
    let mut launch = launching(&mut manager, 4321, 7777);
    match launch.step(&mut manager, LaunchEvent::Answer(HealthReply::Status(200))) {
        LaunchStep::Started(info) => assert_eq!(info, launched_record(4321, 7777)),
        other => panic!("{:?}", other),
    }
    assert_eq!(launch.phase(), LaunchPhase::Over);
    assert!(!launch.is_tracked());
    assert_eq!(manager.tracked_pid(), Some(4321));
    assert_eq!(manager.get_info(), Some(launched_record(4321, 7777)));
}

#[test]
fn an_unhealthy_answer_is_followed_by_a_pause_and_another_question() {
    let mut manager = DaemonManager::new();
    let mut launch = launching(&mut manager, 4321, 7777);
    let step = launch.step(&mut manager, LaunchEvent::Answer(HealthReply::Status(503)));
    assert!(matches!(step, LaunchStep::Pause(500)));
    assert_eq!(launch.phase(), LaunchPhase::Pausing { pid: 4321, port: 7777 });
    assert!(launch.is_tracked());
    let step = launch.step(&mut manager, LaunchEvent::Round { elapsed_ms: 9_999 });
    assert!(matches!(step, LaunchStep::Ask));
    assert_eq!(launch.phase(), LaunchPhase::Asking { pid: 4321, port: 7777 });
    let step = launch.step(&mut manager, LaunchEvent::Answer(HealthReply::Status(204)));
    assert!(matches!(step, LaunchStep::Started(_)));
}

#[test]
fn what_is_reported_out_of_turn_changes_nothing() {
    let mut manager = DaemonManager::new();
    let mut launch = Launch::new(dev_paths(), "eng-1".to_string(), 4321);
    assert!(matches!(
        launch.step(&mut manager, LaunchEvent::Looked(ExitProbe::Running)),
        LaunchStep::ReadFirstLine
    ));
    assert!(matches!(
        launch.step(&mut manager, LaunchEvent::Answer(HealthReply::Status(200))),
        LaunchStep::ReadFirstLine
    ));
    assert!(matches!(launch.step(&mut manager, LaunchEvent::Round { elapsed_ms: 0 }), LaunchStep::ReadFirstLine));
    assert_eq!(launch.phase(), LaunchPhase::Announcing { pid: 4321 });
    assert_eq!(manager.tracked_pid(), None);
    launch.step(&mut manager, announcement(7777));
    assert!(matches!(launch.step(&mut manager, announcement(1)), LaunchStep::Look));
    assert!(matches!(
        launch.step(&mut manager, LaunchEvent::Answer(HealthReply::Status(200))),
        LaunchStep::Look
    ));
    assert_eq!(launch.port(), Some(7777));
    assert_eq!(manager.tracked_pid(), None);
    launch.step(&mut manager, LaunchEvent::Looked(ExitProbe::Running));
    assert!(matches!(launch.step(&mut manager, LaunchEvent::Round { elapsed_ms: 99_999 }), LaunchStep::Ask));
    assert!(matches!(
        launch.step(&mut manager, LaunchEvent::Looked(ExitProbe::Exited("0".to_string()))),
        LaunchStep::Ask
    ));
    assert_eq!(manager.tracked_pid(), Some(4321));
    launch.step(&mut manager, LaunchEvent::Answer(HealthReply::Status(500)));
    assert!(matches!(
        launch.step(&mut manager, LaunchEvent::Answer(HealthReply::Status(200))),
        LaunchStep::Pause(500)
    ));
}

#[test]
fn a_launch_that_is_over_stays_over() {
    let mut manager = DaemonManager::new();
    let mut launch = launching(&mut manager, 4321, 7777);
    launch.step(&mut manager, LaunchEvent::Answer(HealthReply::Status(200)));
    let recorded = manager.get_info();
    let events = vec![
        announcement(1),
        LaunchEvent::Looked(ExitProbe::Exited("0".to_string())),
        LaunchEvent::Answer(HealthReply::Status(200)),
        LaunchEvent::Round { elapsed_ms: 0 },
    ];
    for event in events {
        assert!(matches!(launch.step(&mut manager, event), LaunchStep::Over));
        assert_eq!(launch.phase(), LaunchPhase::Over);
        assert_eq!(manager.get_info(), recorded);
        assert_eq!(manager.tracked_pid(), Some(4321));
    }
    assert!(matches!(launch.awaits(), LaunchStep::Over));
}

#[test]
fn starting_twice_gives_the_same_record_and_spawns_nothing() {
    let mut manager = tracking(4321, 7777);
    let recorded = manager.get_info().unwrap();
    let first = manager.start_daemon(&nothing_configured(), true, None, Some(ExitProbe::Running));
    let other = Surroundings {
        autolaunch: some("false"),
        http_port: some("9999"),
        ..nothing_configured()
    };
    let second = manager.start_daemon(&other, false, some("elsewhere"), Some(ExitProbe::Running));
    match (first, second) {
        (StartDecision::Cached(a), StartDecision::Cached(b)) => {
            assert_eq!(a, recorded);
            assert_eq!(b, recorded);
        },
        other => panic!("{:?}", other),
    }
    assert_eq!(manager.get_info(), Some(recorded));
    assert_eq!(manager.tracked_pid(), Some(4321));
}

#[test]
fn a_process_that_has_exited_is_not_answered_from_the_record() {
    let mut manager = tracking(4321, 7777);
    let decision = manager.start_daemon(
        &nothing_configured(),
        true,
        None,
        Some(ExitProbe::Exited("exit status: 1".to_string())),
    );
    assert!(matches!(decision, StartDecision::Launch));
    assert_eq!(manager.tracked_pid(), None);
    assert!(!manager.is_running(Some(ExitProbe::Running)));
}

#[test]
fn a_process_that_is_not_seen_running_is_not_answered_from_the_record() {
    for probe in [None, Some(ExitProbe::Failed("no child".to_string()))] {
        let mut manager = tracking(4321, 7777);
        let decision = manager.start_daemon(&nothing_configured(), true, None, probe);
        assert!(matches!(decision, StartDecision::Launch));
        assert_eq!(manager.tracked_pid(), Some(4321));
    }
}

#[test]
fn the_watcher_goes_on_while_the_process_runs() {
    let mut manager = tracking(4321, 7777);
    assert_eq!(manager.observe(Some(ExitProbe::Running)), WatchStep::Continue);
    assert_eq!(manager.observe(Some(ExitProbe::Running)), WatchStep::Continue);
    assert_eq!(manager.tracked_pid(), Some(4321));
}

#[test]
fn the_watcher_forgets_a_process_that_exited_and_does_not_restart_it() {
    let mut manager = tracking(4321, 7777);
    assert_eq!(manager.observe(Some(ExitProbe::Exited("signal: 9".to_string()))), WatchStep::Stop);
    assert_eq!(manager.tracked_pid(), None);
    assert!(!manager.is_running(Some(ExitProbe::Running)));
    assert!(manager.get_info().unwrap().is_running);
    assert_eq!(manager.observe(Some(ExitProbe::Running)), WatchStep::Stop);
    assert!(matches!(manager.start_daemon(&nothing_configured(), true, None, None), StartDecision::Launch));
}

#[test]
fn the_watcher_stops_when_the_look_fails_or_nothing_is_tracked() {
    let mut manager = tracking(4321, 7777);
    assert_eq!(manager.observe(Some(ExitProbe::Failed("x".to_string()))), WatchStep::Stop);
    assert_eq!(manager.tracked_pid(), Some(4321));
    assert_eq!(manager.observe(None), WatchStep::Stop);
    assert_eq!(manager.tracked_pid(), Some(4321));
    let mut idle = DaemonManager::new();
    assert_eq!(idle.observe(Some(ExitProbe::Running)), WatchStep::Stop);
    assert_eq!(idle.observe(None), WatchStep::Stop);
}

#[test]
fn running_is_decided_by_a_fresh_look() {
    let manager = tracking(4321, 7777);
    assert!(manager.is_running(Some(ExitProbe::Running)));
    assert!(!manager.is_running(Some(ExitProbe::Exited("0".to_string()))));
    assert!(!manager.is_running(Some(ExitProbe::Failed("x".to_string()))));
    assert!(!manager.is_running(None));
}

fn looked(probe: ExitProbe, elapsed_ms: u64) -> StopEvent {
    StopEvent::Looked { probe, elapsed_ms }
}

fn exited() -> ExitProbe {
    ExitProbe::Exited("exit status: 0".to_string())
}

#[test]
fn stopping_hands_out_the_process_and_forgets_it() {
    let mut manager = tracking(4321, 7777);
    let begun = manager.stop_daemon().unwrap();
    assert_eq!(begun.pid(), 4321);
    assert_eq!(manager.tracked_pid(), None);
    assert_eq!(manager.stop_daemon(), None);
    let mut idle = DaemonManager::new();
    assert_eq!(idle.stop_daemon(), None);
    assert_eq!(idle.get_info(), None);
}

#[test]
fn a_daemon_that_leaves_when_asked_is_recorded_as_stopped() {
    let mut manager = tracking(4321, 7777);
    let begun = manager.stop_daemon().unwrap();
    assert!(matches!(manager.stop_step(&begun, StopEvent::Signalled), StopStep::Look));
    assert!(manager.get_info().unwrap().is_running);
    assert!(matches!(manager.stop_step(&begun, looked(ExitProbe::Running, 1)), StopStep::Pause(100)));
    assert!(manager.get_info().unwrap().is_running);
    assert!(matches!(manager.stop_step(&begun, looked(exited(), 101)), StopStep::Finished));
    let info = manager.get_info().unwrap();
    assert!(!info.is_running);
    assert_eq!(info.pid, 4321);
    assert_eq!(info.port, 7777);
    assert_eq!(info.branch_id, "eng-1");
    assert!(!manager.is_running(Some(ExitProbe::Running)));
    assert!(!manager.is_running(None));
}

#[test]
fn a_daemon_that_stays_too_long_is_killed_and_recorded_as_stopped() {
    let mut manager = tracking(4321, 7777);
    let begun = manager.stop_daemon().unwrap();
    assert!(matches!(manager.stop_step(&begun, StopEvent::Signalled), StopStep::Look));
    assert!(matches!(manager.stop_step(&begun, looked(ExitProbe::Running, 15_000)), StopStep::Pause(100)));
    assert!(matches!(manager.stop_step(&begun, looked(ExitProbe::Running, 15_001)), StopStep::Kill));
    assert!(manager.get_info().unwrap().is_running);
    assert!(matches!(manager.stop_step(&begun, StopEvent::Killed), StopStep::Finished));
    assert!(!manager.get_info().unwrap().is_running);
    assert!(!manager.is_running(Some(ExitProbe::Running)));
}

#[test]
fn after_a_stop_has_begun_the_daemon_never_counts_as_running() {
    let events = || {
        vec![
            StopEvent::Signalled,
            StopEvent::SignalFailed("no such process".to_string()),
            looked(ExitProbe::Running, 0),
            looked(ExitProbe::Running, u64::MAX),
            looked(exited(), 5),
            looked(ExitProbe::Failed("x".to_string()), 5),
            StopEvent::Killed,
            StopEvent::KillFailed("denied".to_string()),
        ]
    };
    for event in events() {
        let mut manager = tracking(4321, 7777);
        let begun = manager.stop_daemon().unwrap();
        assert!(!manager.is_running(Some(ExitProbe::Running)));
        manager.stop_step(&begun, event);
        assert!(!manager.is_running(Some(ExitProbe::Running)));
        assert!(!manager.is_running(None));
        assert_eq!(manager.tracked_pid(), None);
    }
}

#[test]
fn a_running_daemon_is_looked_at_in_fixed_intervals() {
    let mut manager = tracking(4321, 7777);
    let begun = manager.stop_daemon().unwrap();
    for elapsed in [0u64, 1, 100, 14_999, 15_000] {
        let step = manager.stop_step(&begun, looked(ExitProbe::Running, elapsed));
        assert!(matches!(step, StopStep::Pause(100)), "{}", elapsed);
    }
    for elapsed in [15_001u64, 20_000, u64::MAX] {
        let step = manager.stop_step(&begun, looked(ExitProbe::Running, elapsed));
        assert!(matches!(step, StopStep::Kill), "{}", elapsed);
    }
    assert!(manager.get_info().unwrap().is_running);
}

#[test]
fn a_daemon_that_has_left_ends_the_stop_however_late() {
    for elapsed in [0u64, 15_001, u64::MAX] {
        let mut manager = tracking(4321, 7777);
        let begun = manager.stop_daemon().unwrap();
        assert!(matches!(manager.stop_step(&begun, looked(exited(), elapsed)), StopStep::Finished));
        assert!(!manager.get_info().unwrap().is_running);
    }
}

#[test]
fn a_signal_that_cannot_be_sent_ends_the_stop_in_an_error() {
    let mut manager = tracking(4321, 7777);
    let begun = manager.stop_daemon().unwrap();
    match manager.stop_step(&begun, StopEvent::SignalFailed("ESRCH".to_string())) {
        StopStep::Fail(why) => assert_eq!(why.message(), "Failed to send SIGTERM to daemon: ESRCH"),
        other => panic!("{:?}", other),
    }
    assert!(!manager.get_info().unwrap().is_running);
    assert!(!manager.is_running(Some(ExitProbe::Running)));
    assert_eq!(manager.tracked_pid(), None);
    assert_eq!(manager.tracked_pid(), None);
}

#[test]
fn a_failed_look_ends_the_stop_in_an_error() {
    let mut manager = tracking(4321, 7777);
    let begun = manager.stop_daemon().unwrap();
    match manager.stop_step(&begun, looked(ExitProbe::Failed("no child".to_string()), 5)) {
        StopStep::Fail(why) => assert_eq!(why.message(), "Failed to check daemon status: no child"),
        other => panic!("{:?}", other),
    }
    assert!(!manager.get_info().unwrap().is_running);
    assert!(!manager.is_running(Some(ExitProbe::Running)));
    assert_eq!(manager.tracked_pid(), None);
}

#[test]
fn a_kill_that_fails_ends_the_stop_in_an_error() {
    let mut manager = tracking(4321, 7777);
    let begun = manager.stop_daemon().unwrap();
    match manager.stop_step(&begun, StopEvent::KillFailed("denied".to_string())) {
        StopStep::Fail(why) => assert_eq!(why.message(), "Failed to kill daemon: denied"),
        other => panic!("{:?}", other),
    }
    assert!(!manager.get_info().unwrap().is_running);
    assert!(!manager.is_running(Some(ExitProbe::Running)));
    assert_eq!(manager.tracked_pid(), None);
}

#[test]
fn however_a_stop_ends_the_record_says_not_running() {
    let endings = || {
        vec![
            StopEvent::SignalFailed("ESRCH".to_string()),
            looked(exited(), 5),
            looked(ExitProbe::Failed("x".to_string()), 5),
            StopEvent::Killed,
            StopEvent::KillFailed("denied".to_string()),
        ]
    };
    for event in endings() {
        let mut manager = tracking(4321, 7777);
        assert!(manager.get_info().unwrap().is_running);
        let begun = manager.stop_daemon().unwrap();
        let step = manager.stop_step(&begun, event);
        assert!(matches!(step, StopStep::Finished | StopStep::Fail(_)));
        let info = manager.get_info().unwrap();
        assert!(!info.is_running);
        assert_eq!((info.pid, info.port), (4321, 7777));
        assert!(!manager.is_running(Some(ExitProbe::Running)));
    }
}

#[test]
fn a_stop_that_goes_on_leaves_the_record_as_it_is() {
    for event in [StopEvent::Signalled, looked(ExitProbe::Running, 0), looked(ExitProbe::Running, 20_000)] {
        let mut manager = tracking(4321, 7777);
        let begun = manager.stop_daemon().unwrap();
        let step = manager.stop_step(&begun, event);
        assert!(matches!(step, StopStep::Look | StopStep::Pause(_) | StopStep::Kill));
        assert!(manager.get_info().unwrap().is_running);
    }
}

#[test]
fn a_stop_of_an_adopted_daemon_finds_nothing_to_stop() {
    let mut manager = DaemonManager::new();
    manager.adopt_existing(7777, HealthReply::Status(200)).unwrap();
    assert_eq!(manager.stop_daemon(), None);
    assert!(manager.get_info().unwrap().is_running);
}

#[test]
fn a_record_is_copied_field_by_field() {
    let manager = tracking(4321, 7777);
    let info = manager.get_info().unwrap();
    let copy = info.clone();
    assert_eq!(copy, info);
}
