use si_pool_noodle::local_uds::{
    first_watch_event, generate_container_name, socket_plan, watch_loop_action,
    LocalUdsInstanceError, LocalUdsInstanceHealth, LocalUdsInstanceSpecBuilder,
    LocalUdsRuntimeStrategy, LocalUdsSocketStrategy, SocketPlan, WatchAction, WatchEvent,
    WatchInitRetries, WATCH_INIT_RETRIES, WATCH_INIT_RETRY_DELAY_MS,
};
use si_pool_noodle::local_uds::{
    docker_cmd_args, docker_mounts, firecracker_clean_command, firecracker_connect_flag,
    firecracker_prepare_command, firecracker_setup_command, firecracker_setup_outcome,
    firecracker_socket_path, firecracker_spawn_command, process_spawn_command,
};

#[test]
fn builder_defaults() {
    let spec = LocalUdsInstanceSpecBuilder::new()
        .build()
        .expect("build should always succeed");
    assert_eq!(spec.cyclone_cmd_path, "");
    assert_eq!(spec.cyclone_decryption_key_path, "");
    assert_eq!(spec.lang_server_cmd_path, "");
    assert!(matches!(spec.socket_strategy, LocalUdsSocketStrategy::Random));
    assert!(matches!(
        spec.runtime_strategy,
        LocalUdsRuntimeStrategy::LocalProcess
    ));
    assert_eq!(spec.watch_timeout_secs, None);
    assert_eq!(spec.limit_requests, Some(1));
    assert!(!spec.ping);
    assert!(!spec.resolver);
    assert!(!spec.action);
    assert_eq!(spec.pool_size, 10);
    assert_eq!(spec.connect_timeout_millis, 10);
}

#[test]
fn builder_setters_take_effect() {
    let mut builder = LocalUdsInstanceSpecBuilder::new();
    builder.cyclone_cmd_path(String::from("/usr/local/bin/cyclone"));
    builder.cyclone_decryption_key_path(String::from("/secrets/key"));
    builder.lang_server_cmd_path(String::from("/usr/local/bin/lang-js"));
    builder.watch_timeout_secs(12);
    builder.limit_requests(Some(5));
    builder.pool_size(42);
    builder.connect_timeout_millis(250);
    let spec = builder.build().expect("build should always succeed");
    assert_eq!(spec.cyclone_cmd_path, "/usr/local/bin/cyclone");
    assert_eq!(spec.cyclone_decryption_key_path, "/secrets/key");
    assert_eq!(spec.lang_server_cmd_path, "/usr/local/bin/lang-js");
    assert_eq!(spec.watch_timeout_secs, Some(12));
    assert_eq!(spec.limit_requests, Some(5));
    assert_eq!(spec.pool_size, 42);
    assert_eq!(spec.connect_timeout_millis, 250);
}

#[test]
fn oneshot() {
    let mut builder = LocalUdsInstanceSpecBuilder::new();
    builder.limit_requests(None);
    builder.oneshot();
    let spec = builder.build().expect("build should always succeed");
    assert_eq!(spec.limit_requests, Some(1));
}

#[test]
fn ping() {
    let mut builder = LocalUdsInstanceSpecBuilder::new();
    builder.ping();
    let spec = builder.build().expect("build should always succeed");
    assert!(spec.ping);
    assert!(!spec.resolver);
    assert!(!spec.action);
}

#[test]
fn resolver() {
    let mut builder = LocalUdsInstanceSpecBuilder::new();
    builder.resolver();
    let spec = builder.build().expect("build should always succeed");
    assert!(spec.resolver);
    assert!(!spec.action);
}

#[test]
fn action() {
    let mut builder = LocalUdsInstanceSpecBuilder::new();
    builder.action();
    let spec = builder.build().expect("build should always succeed");
    assert!(spec.action);
    assert!(!spec.resolver);
}

#[test]
fn all_endpoints() {
    let mut builder = LocalUdsInstanceSpecBuilder::new();
    builder.all_endpoints();
    let spec = builder.build().expect("build should always succeed");
    assert!(spec.action);
    assert!(spec.resolver);
    assert!(!spec.ping);
}

#[test]
fn random() {
    assert!(matches!(
        LocalUdsSocketStrategy::random(),
        LocalUdsSocketStrategy::Random
    ));
}

#[test]
fn random_in() {
    match LocalUdsSocketStrategy::random_in(String::from("/tmp/sockets")) {
        LocalUdsSocketStrategy::RandomIn(dir) => assert_eq!(dir, "/tmp/sockets"),
        _ => panic!("expected RandomIn"),
    }
}

#[test]
fn custom() {
    match LocalUdsSocketStrategy::custom(String::from("/tmp/cyclone.sock")) {
        LocalUdsSocketStrategy::Custom(path) => assert_eq!(path, "/tmp/cyclone.sock"),
        _ => panic!("expected Custom"),
    }
}

#[test]
fn socket_plans_follow_the_strategy() {
    assert!(matches!(
        socket_plan(&LocalUdsSocketStrategy::Random),
        SocketPlan::CreateTempFile
    ));
    match socket_plan(&LocalUdsSocketStrategy::RandomIn(String::from("/d"))) {
        SocketPlan::CreateTempFileIn(dir) => assert_eq!(dir, "/d"),
        _ => panic!("expected CreateTempFileIn"),
    }
    match socket_plan(&LocalUdsSocketStrategy::Custom(String::from("/s.sock"))) {
        SocketPlan::UsePath(path) => assert_eq!(path, "/s.sock"),
        _ => panic!("expected UsePath"),
    }
}

#[test]
fn health_check_order_and_outcomes() {
    let healthy = LocalUdsInstanceHealth::new(Some(3));
    assert!(healthy.ensure_healthy_client().is_ok());
    assert!(healthy.has_remaining_requests());
    assert!(healthy.is_watch_shutdown_open());

    let unlimited = LocalUdsInstanceHealth::new(None);
    assert!(unlimited.ensure_healthy_client().is_ok());

    let exhausted = LocalUdsInstanceHealth::new(Some(0));
    assert!(matches!(
        exhausted.ensure_healthy_client(),
        Err(LocalUdsInstanceError::NoRemainingRequests)
    ));

    let mut dead_watch = LocalUdsInstanceHealth::new(Some(0));
    dead_watch.set_watch_closed();
    // a dead watch session is reported before the exhausted budget
    assert!(matches!(
        dead_watch.ensure_healthy_client(),
        Err(LocalUdsInstanceError::WatchShutDown)
    ));
}

#[test]
fn count_request_saturates_at_zero() {
    let mut h = LocalUdsInstanceHealth::new(Some(2));
    h.count_request();
    assert_eq!(h.limit_requests, Some(1));
    h.count_request();
    assert_eq!(h.limit_requests, Some(0));
    h.count_request();
    assert_eq!(h.limit_requests, Some(0));

    let mut unlimited = LocalUdsInstanceHealth::new(None);
    unlimited.count_request();
    assert_eq!(unlimited.limit_requests, None);
}

#[test]
fn watch_init_retries_expire_after_thirty_attempts() {
    assert_eq!(WATCH_INIT_RETRIES, 30);
    assert_eq!(WATCH_INIT_RETRY_DELAY_MS, 64);
    let mut retries = WatchInitRetries::new();
    for _ in 0..30 {
        assert!(retries.attempt_failed().is_ok());
    }
    assert!(matches!(
        retries.attempt_failed(),
        Err(LocalUdsInstanceError::WatchInitTimeout)
    ));
}

#[test]
fn first_watch_event_outcomes() {
    assert!(first_watch_event::<()>(Some(Ok(()))).is_ok());
    assert!(matches!(
        first_watch_event::<()>(None),
        Err(LocalUdsInstanceError::WatchClosed)
    ));
    assert!(matches!(
        first_watch_event::<()>(Some(Err(()))),
        Err(LocalUdsInstanceError::Watch)
    ));
}

#[test]
fn watch_loop_reacts_to_each_event() {
    assert!(matches!(
        watch_loop_action(&WatchEvent::ShutdownRequested),
        WatchAction::StopAndExit
    ));
    assert!(matches!(
        watch_loop_action(&WatchEvent::Ping),
        WatchAction::Continue
    ));
    assert!(matches!(
        watch_loop_action(&WatchEvent::StreamError),
        WatchAction::StopAndExit
    ));
    assert!(matches!(
        watch_loop_action(&WatchEvent::StreamClosed),
        WatchAction::Exit
    ));
}

#[test]
fn process_command_carries_every_configured_flag() {
    let mut builder = LocalUdsInstanceSpecBuilder::new();
    builder.cyclone_cmd_path(String::from("/usr/local/bin/cyclone"));
    builder.cyclone_decryption_key_path(String::from("/secrets/key"));
    builder.lang_server_cmd_path(String::from("/usr/local/bin/lang-js"));
    builder.watch_timeout_secs(7);
    builder.limit_requests(Some(42));
    builder.ping();
    builder.all_endpoints();
    let spec = builder.build().expect("build should always succeed");
    let c = process_spawn_command(&spec, &String::from("/tmp/cyclone.sock"));
    assert_eq!(c.program, "/usr/local/bin/cyclone");
    assert_eq!(
        c.args,
        vec![
            "--bind-uds",
            "/tmp/cyclone.sock",
            "--decryption-key",
            "/secrets/key",
            "--lang-server",
            "/usr/local/bin/lang-js",
            "--enable-watch",
            "--limit-requests",
            "42",
            "--watch-timeout",
            "7",
            "--enable-ping",
            "--enable-resolver",
            "--enable-action-run",
        ]
    );
}

#[test]
fn process_command_omits_unset_flags() {
    let mut builder = LocalUdsInstanceSpecBuilder::new();
    builder.cyclone_cmd_path(String::from("/bin/cyclone"));
    builder.limit_requests(None);
    let spec = builder.build().expect("build should always succeed");
    let c = process_spawn_command(&spec, &String::from("/tmp/s.sock"));
    assert_eq!(
        c.args,
        vec![
            "--bind-uds",
            "/tmp/s.sock",
            "--decryption-key",
            "",
            "--lang-server",
            "",
            "--enable-watch",
        ]
    );
}

#[test]
fn docker_command_uses_fixed_container_paths() {
    let mut builder = LocalUdsInstanceSpecBuilder::new();
    builder.cyclone_decryption_key_path(String::from("/secrets/key"));
    let spec = builder.build().expect("build should always succeed");
    let args = docker_cmd_args(&spec, &String::from("/tmp/s.sock"));
    assert_eq!(
        args,
        vec![
            "--bind-uds",
            "/tmp/s.sock",
            "--decryption-key",
            "/tmp/key",
            "--lang-server",
            "/usr/local/bin/lang-js",
            "--enable-watch",
            "--limit-requests",
            "1",
        ]
    );
    let mounts = docker_mounts(&spec, &String::from("/tmp"));
    assert_eq!(
        mounts,
        vec![
            (String::from("/tmp"), String::from("/tmp")),
            (String::from("/secrets/key"), String::from("/tmp/key")),
        ]
    );
}

#[test]
fn container_names_are_prefixed_and_random() {
    let name = generate_container_name();
    assert_eq!(name.len(), "cyclone-container-".len() + 10);
    assert!(name.starts_with("cyclone-container-"));
    assert!(name["cyclone-container-".len()..]
        .chars()
        .all(|c| c.is_ascii_alphanumeric()));
    // two names almost surely differ in their random suffix
    let other = generate_container_name();
    assert_eq!(other.len(), name.len());
}

#[test]
fn firecracker_commands_are_keyed_by_slot_id() {
    let c = firecracker_spawn_command(42);
    assert_eq!(c.program, "/usr/bin/jailer");
    assert_eq!(
        c.args,
        vec![
            "--cgroup-version",
            "2",
            "--id",
            "42",
            "--exec-file",
            "/usr/bin/firecracker",
            "--uid",
            "50042",
            "--gid",
            "10000",
            "--netns",
            "/var/run/netns/jailer-42",
            "--",
            "--config-file",
            "./firecracker.conf",
        ]
    );
    assert_eq!(
        firecracker_socket_path(42),
        "/srv/jailer/firecracker/42/root/v.sock"
    );

    let clean = firecracker_clean_command(7);
    assert_eq!(clean.program, "sudo");
    assert_eq!(clean.args, vec!["/firecracker-data/stop.sh", "7"]);

    let prepare = firecracker_prepare_command(7);
    assert_eq!(prepare.program, "sudo");
    assert_eq!(prepare.args, vec!["/firecracker-data/prepare_jailer.sh", "7"]);

    let setup = firecracker_setup_command(100);
    assert_eq!(setup.program, "sudo");
    assert_eq!(
        setup.args,
        vec!["/firecracker-data/firecracker-setup.sh", "-j", "100", "-rk"]
    );
}

#[test]
fn only_the_microvm_runtime_sets_the_connect_flag() {
    let mut builder = LocalUdsInstanceSpecBuilder::new();
    builder.runtime_strategy(LocalUdsRuntimeStrategy::LocalFirecracker);
    let spec = builder.build().expect("build should always succeed");
    assert!(firecracker_connect_flag(&spec));

    let mut builder = LocalUdsInstanceSpecBuilder::new();
    builder.runtime_strategy(LocalUdsRuntimeStrategy::LocalDocker);
    let spec = builder.build().expect("build should always succeed");
    assert!(!firecracker_connect_flag(&spec));
}

#[test]
fn setup_outcome_judges_the_exit_status() {
    assert!(firecracker_setup_outcome(true, String::new()).is_ok());
    match firecracker_setup_outcome(false, String::from("no kvm")) {
        Err(LocalUdsInstanceError::FirecrackerSetupRun(stderr)) => assert_eq!(stderr, "no kvm"),
        _ => panic!("an unsuccessful exit must be the fatal setup failure"),
    }
}

#[test]
fn uds_error_messages() {
    assert_eq!(
        LocalUdsInstanceError::NoRemainingRequests.message(),
        "no remaining requests, server is considered unhealthy"
    );
    assert_eq!(
        LocalUdsInstanceError::WatchInitTimeout.message(),
        "timeout while retrying to start a client watch session"
    );
    assert_eq!(
        LocalUdsInstanceError::WatchClosed.message(),
        "server closed watch session before expected"
    );
    assert_eq!(
        LocalUdsInstanceError::WatchShutDown.message(),
        "watch session is shut down, server is considered unhealthy"
    );
    assert_eq!(
        LocalUdsInstanceError::Watch.message(),
        "error on the watch session stream"
    );
    assert_eq!(
        LocalUdsInstanceError::FirecrackerSetupRun(String::new()).message(),
        "failed to run firecracker-setup"
    );
}
