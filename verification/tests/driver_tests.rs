use stress_bench::driver::{
    BenchDriver, DriverAction, DriverError, DriverEvent, DriverState,
};
use stress_bench::interval::{derive_show_progress, RunInterval};
use stress_bench::options::StressOptions;
use stress_bench::rendezvous::Rendezvous;
use stress_bench::run::{plan_run, validate_setup_inputs, RunTarget, SetupError};
use stress_bench::stats::GroupStats;
use stress_bench::workload::{WorkloadConfiguration, WorkloadKind};

fn bench_opts() -> StressOptions {
    StressOptions {
        local: true,
        num_client_threads: 12,
        num_server_threads: 10,
        num_transfer_accounts: 2,
        primary_gas_id: String::new(),
        genesis_blob_path: String::new(),
        keystore_path: String::new(),
        client_metric_host: String::from("127.0.0.1"),
        client_metric_port: 8081,
        log_path: String::new(),
        target_qps: 100,
        in_flight_ratio: 2,
        shared_counter_weight: 50,
        transfer_object_weight: 50,
        disjoint_mode: false,
        run_duration: RunInterval::Bounded(10),
        stat_collection_interval: 5,
        stress_stat_collection: false,
        compare_with: String::new(),
        benchmark_stats_path: String::new(),
    }
}

/// A test double standing in for the validator proxy: it fails the test if
/// any traffic reaches it before the rendezvous completed.
struct MockValidatorProxy {
    rendezvous_completed: bool,
    submissions: u64,
}

impl MockValidatorProxy {
    fn submit(&mut self) {
        if !self.rendezvous_completed {
            panic!("traffic was dispatched before the rendezvous completed");
        }
        self.submissions += 1;
    }
}

#[test]
fn progress_is_shown_only_for_unbounded_runs() {
    assert!(!derive_show_progress(&RunInterval::Bounded(10)));
    assert!(derive_show_progress(&RunInterval::Unbounded));
    assert!(!RunInterval::Bounded(0).is_unbounded());
    assert!(RunInterval::Unbounded.is_unbounded());
}

#[test]
fn no_traffic_before_rendezvous() {
    let mut proxy = MockValidatorProxy { rendezvous_completed: false, submissions: 0 };
    let mut rendezvous = Rendezvous::new();
    let mut driver = BenchDriver::new(5, false);
    let workloads = Vec::new();

    // Only the setup side has arrived: the driver refuses to start, so the
    // dispatch loop never runs and the proxy observes nothing.
    rendezvous.arrive_setup();
    let refused = driver.start(&rendezvous, &workloads, RunInterval::Bounded(10), false);
    assert_eq!(refused, Err(DriverError::RendezvousIncomplete));
    if driver.is_running() {
        proxy.submit();
    }
    assert_eq!(proxy.submissions, 0);

    // After both participants arrive, the run starts and traffic flows.
    rendezvous.arrive_client();
    proxy.rendezvous_completed = true;
    let started = driver.start(&rendezvous, &workloads, RunInterval::Bounded(10), false);
    assert_eq!(started, Ok(()));
    if driver.is_running() {
        proxy.submit();
    }
    assert_eq!(proxy.submissions, 1);
}

#[test]
fn bounded_run_completes_without_progress() {
    // Target QPS 100, in-flight ratio 2, weights 50/50 in combined mode:
    // each workload gets QPS 50 and an in-flight cap of 100.
    let opts = bench_opts();
    let plan = plan_run(&opts);
    assert_eq!(plan.target, RunTarget::Local);
    assert_eq!(plan.workload_configuration, WorkloadConfiguration::Combined);
    assert!(!plan.show_progress);

    let workloads = plan
        .workload_configuration
        .configure(Some(1), None, None, &opts)
        .unwrap();
    assert_eq!(workloads.len(), 2);
    assert_eq!(workloads[0].kind, WorkloadKind::SharedCounter);
    assert_eq!(workloads[0].target_qps, 50);
    assert_eq!(workloads[0].max_in_flight, 100);
    assert_eq!(workloads[1].kind, WorkloadKind::TransferObject);
    assert_eq!(workloads[1].target_qps, 50);
    assert_eq!(workloads[1].max_in_flight, 100);

    let mut rendezvous = Rendezvous::new();
    rendezvous.arrive_setup();
    rendezvous.arrive_client();
    let mut driver = BenchDriver::new(opts.stat_collection_interval, false);
    assert_eq!(driver.state, DriverState::Idle);
    driver
        .start(&rendezvous, &workloads, opts.run_duration, plan.show_progress)
        .unwrap();
    assert_eq!(driver.state, DriverState::Running);

    // Two five-second statistics intervals cover the bounded ten seconds.
    let tick = |committed| DriverEvent::StatInterval {
        seconds: 5,
        shared_counter: Some(GroupStats { committed, failed: 0 }),
        transfer_object: Some(GroupStats { committed, failed: 0 }),
        retries_delta: 0,
        errors_delta: 0,
        latency_p50_ms: 20,
        latency_p95_ms: 40,
        latency_p99_ms: 60,
    };
    let a1 = driver.step(tick(250));
    assert_eq!(a1, DriverAction::Continue { emit_progress: false });
    assert_eq!(driver.state, DriverState::Running);
    let a2 = driver.step(tick(250));
    assert_eq!(a2, DriverAction::Stop);
    assert_eq!(driver.state, DriverState::Completed);

    let (stats, stress) = driver.outcome().unwrap();
    assert_eq!(stats.duration_secs, 10);
    assert_eq!(stats.num_committed, 1000);
    assert_eq!(stats.qps, 100);
    assert_eq!(stats.shared_counter, Some(GroupStats { committed: 500, failed: 0 }));
    assert_eq!(stats.transfer_object, Some(GroupStats { committed: 500, failed: 0 }));
    assert_eq!(stats.latency_p99_ms, 60);
    // Stress stats were not requested: the report is the empty default.
    assert_eq!(stress.num_retries, 0);
    assert_eq!(stress.num_errors, 0);
}

#[test]
fn fatal_workload_error_aborts_the_run() {
    let mut rendezvous = Rendezvous::new();
    rendezvous.arrive_setup();
    rendezvous.arrive_client();
    let mut driver = BenchDriver::new(5, false);
    driver
        .start(&rendezvous, &Vec::new(), RunInterval::Unbounded, true)
        .unwrap();
    let action = driver.step(DriverEvent::WorkloadFatal);
    assert_eq!(action, DriverAction::Stop);
    assert_eq!(driver.state, DriverState::Aborted);
    assert_eq!(driver.outcome(), Err(DriverError::WorkloadFatal));
}

#[test]
fn cancelled_unbounded_run_still_produces_a_snapshot() {
    let mut rendezvous = Rendezvous::new();
    rendezvous.arrive_setup();
    rendezvous.arrive_client();
    let mut driver = BenchDriver::new(5, true);
    driver
        .start(&rendezvous, &Vec::new(), RunInterval::Unbounded, true)
        .unwrap();
    let a = driver.step(DriverEvent::StatInterval {
        seconds: 5,
        shared_counter: None,
        transfer_object: None,
        retries_delta: 3,
        errors_delta: 1,
        latency_p50_ms: 10,
        latency_p95_ms: 20,
        latency_p99_ms: 30,
    });
    // Unbounded runs keep going and show progress each interval.
    assert_eq!(a, DriverAction::Continue { emit_progress: true });
    let b = driver.step(DriverEvent::Cancel);
    assert_eq!(b, DriverAction::Stop);
    assert_eq!(driver.state, DriverState::Completed);
    let (stats, stress) = driver.outcome().unwrap();
    assert_eq!(stats.duration_secs, 5);
    // Stress stats were requested, so the collected indicators survive.
    assert_eq!(stress.num_retries, 3);
    assert_eq!(stress.num_errors, 1);
}

#[test]
fn remote_setup_inputs_are_validated() {
    let mut opts = bench_opts();
    assert_eq!(validate_setup_inputs(&RunTarget::Local, &opts), Ok(()));
    assert_eq!(
        validate_setup_inputs(&RunTarget::Remote, &opts),
        Err(SetupError::MissingPrimaryGasId)
    );
    opts.primary_gas_id = String::from("0x59931dcac57ba20d75321acaf55e8eb5a2c47e9f");
    assert_eq!(
        validate_setup_inputs(&RunTarget::Remote, &opts),
        Err(SetupError::MissingGenesisBlobPath)
    );
    opts.genesis_blob_path = String::from("/tmp/genesis.blob");
    assert_eq!(
        validate_setup_inputs(&RunTarget::Remote, &opts),
        Err(SetupError::MissingKeystorePath)
    );
    opts.keystore_path = String::from("/tmp/keys.keystore");
    assert_eq!(validate_setup_inputs(&RunTarget::Remote, &opts), Ok(()));
}

#[test]
fn plan_resolves_follow_up_steps() {
    let mut opts = bench_opts();
    opts.local = false;
    opts.disjoint_mode = true;
    opts.run_duration = RunInterval::Unbounded;
    opts.compare_with = String::from("/tmp/previous.json");
    opts.benchmark_stats_path = String::from("/tmp/current.json");
    opts.stress_stat_collection = true;
    let plan = plan_run(&opts);
    assert_eq!(plan.target, RunTarget::Remote);
    assert_eq!(plan.workload_configuration, WorkloadConfiguration::Disjoint);
    assert!(plan.show_progress);
    assert!(plan.stress_stat_collection);
    assert!(plan.compare_requested);
    assert!(plan.persist_requested);
}
