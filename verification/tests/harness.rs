use moray_bench::error::DiscoveryError;
use moray_bench::error::HarnessError;
use moray_bench::error::StoreError;
use moray_bench::error::StoreOperation;
use moray_bench::harness::bucket_schema;
use moray_bench::harness::start;
use moray_bench::harness::step;
use moray_bench::harness::Action;
use moray_bench::harness::Event;
use moray_bench::harness::HarnessConfig;
use moray_bench::harness::Stage;
use moray_bench::harness::Strategy;
use moray_bench::harness::PASS_COUNT;

fn store_error(operation: StoreOperation) -> StoreError {
    StoreError { operation, detail: "refused".to_string() }
}

fn to_first_pass() -> Stage {
    let (stage, _) = start();
    let (stage, _) = step(stage, Event::ClientConnected);
    let (stage, _) = step(stage, Event::BucketFound);
    let (stage, _) = step(stage, Event::CorpusGenerated);
    let (stage, _) = step(stage, Event::CorpusSeeded);
    stage
}

#[test]
fn default_config_has_the_documented_values() {
    let config = HarnessConfig::default();
    assert_eq!(config.bucket, "rust_batch_test_bucket");
    assert_eq!(config.shard, 1);
    assert_eq!(config.domain, "perf2.scloud.host");
    assert_eq!(config.batch_size, 50);
    assert_eq!(config.corpus_size, 10000);
    assert!(!config.flush_trailing);
}

#[test]
fn schema_indexes_five_string_fields() {
    let schema = bucket_schema();
    let names: Vec<&str> = schema.index.iter().map(|f| f.name.as_str()).collect();
    assert_eq!(names, vec!["dirname", "name", "owner", "objectId", "type"]);
    assert!(schema.index.iter().all(|f| f.kind == "string"));
}

#[test]
fn strategies_come_in_two_orders() {
    assert_eq!(PASS_COUNT, 4);
    assert_eq!(Strategy::of(1), Strategy::Sequential);
    assert_eq!(Strategy::of(2), Strategy::Batched);
    assert_eq!(Strategy::of(3), Strategy::Batched);
    assert_eq!(Strategy::of(4), Strategy::Sequential);
    assert_eq!(Strategy::Sequential.name(), "sequential");
    assert_eq!(Strategy::Batched.name(), "batch");
}

#[test]
fn run_begins_with_discovery() {
    let (stage, action) = start();
    assert_eq!(stage, Stage::Discover);
    assert!(matches!(action, Action::Connect));
}

#[test]
fn successful_run_goes_through_four_passes() {
    let (stage, _) = start();
    let (stage, action) = step(stage, Event::ClientConnected);
    assert_eq!(stage, Stage::ClientReady);
    assert!(matches!(action, Action::GetBucket));
    let (stage, action) = step(stage, Event::BucketFound);
    assert_eq!(stage, Stage::BucketEnsured);
    assert!(matches!(action, Action::GenerateCorpus));
    let (stage, action) = step(stage, Event::CorpusGenerated);
    assert_eq!(stage, Stage::CorpusReady);
    assert!(matches!(action, Action::SeedCorpus));
    let (mut stage, mut action) = step(stage, Event::CorpusSeeded);
    let mut passes = Vec::new();
    for ordinal in 1u8..=4 {
        assert_eq!(stage, Stage::Mutating { ordinal });
        assert!(matches!(action, Action::MutateCorpus { ordinal: o } if o == ordinal));
        let (running, run) = step(stage, Event::CorpusMutated);
        assert_eq!(running, Stage::Running { ordinal });
        match run {
            Action::RunPass { ordinal: o, strategy } => passes.push((o, strategy)),
            _ => panic!("a pass is due"),
        }
        let next = step(running, Event::PassCompleted);
        stage = next.0;
        action = next.1;
    }
    assert_eq!(stage, Stage::Done);
    assert!(matches!(action, Action::Finish));
    assert_eq!(
        passes,
        vec![
            (1, Strategy::Sequential),
            (2, Strategy::Batched),
            (3, Strategy::Batched),
            (4, Strategy::Sequential),
        ]
    );
}

#[test]
fn missing_bucket_is_created() {
    let (stage, action) = step(Stage::ClientReady, Event::BucketMissing);
    assert_eq!(stage, Stage::CreatingBucket);
    assert!(matches!(action, Action::CreateBucket));
    let (stage, action) = step(stage, Event::BucketCreated);
    assert_eq!(stage, Stage::BucketEnsured);
    assert!(matches!(action, Action::GenerateCorpus));
}

#[test]
fn failure_to_create_the_bucket_does_not_end_the_run() {
    let event = Event::BucketCreateFailed(store_error(StoreOperation::CreateBucket));
    let (stage, action) = step(Stage::CreatingBucket, event);
    assert_eq!(stage, Stage::BucketEnsured);
    assert!(matches!(action, Action::GenerateCorpus));
}

#[test]
fn discovery_failure_ends_the_run() {
    let error = DiscoveryError::NoCandidates { query: "_moray._tcp.1.moray.d".to_string() };
    let (stage, action) = step(Stage::Discover, Event::DiscoveryFailed(error));
    assert_eq!(stage, Stage::Failed);
    match action {
        Action::Abort(HarnessError::Discovery(DiscoveryError::NoCandidates { query })) => {
            assert_eq!(query, "_moray._tcp.1.moray.d")
        },
        _ => panic!("the run is aborted"),
    }
}

#[test]
fn connect_failure_ends_the_run() {
    let (stage, action) = step(Stage::Discover, Event::ConnectFailed(store_error(StoreOperation::Connect)));
    assert_eq!(stage, Stage::Failed);
    match action {
        Action::Abort(HarnessError::Store(error)) => assert_eq!(error.operation, StoreOperation::Connect),
        _ => panic!("the run is aborted"),
    }
}

#[test]
fn seed_failure_ends_the_run() {
    let (stage, action) = step(Stage::CorpusReady, Event::SeedFailed(store_error(StoreOperation::PutObject)));
    assert_eq!(stage, Stage::Failed);
    assert!(matches!(action, Action::Abort(HarnessError::Store(_))));
}

#[test]
fn failed_pass_ends_the_run() {
    let stage = to_first_pass();
    let (stage, _) = step(stage, Event::CorpusMutated);
    let (stage, action) = step(stage, Event::PassFailed(store_error(StoreOperation::Batch)));
    assert_eq!(stage, Stage::Failed);
    match action {
        Action::Abort(HarnessError::Store(error)) => {
            assert_eq!(error.operation, StoreOperation::Batch);
            assert_eq!(error.detail, "refused");
        },
        _ => panic!("the run is aborted"),
    }
}

#[test]
fn ended_run_ignores_every_event() {
    for stage in [Stage::Done, Stage::Failed] {
        let (next, action) = step(stage, Event::ClientConnected);
        assert_eq!(next, stage);
        assert!(matches!(action, Action::Ignore));
        let (next, action) = step(stage, Event::PassFailed(store_error(StoreOperation::Batch)));
        assert_eq!(next, stage);
        assert!(matches!(action, Action::Ignore));
    }
}

#[test]
fn event_of_another_stage_changes_nothing() {
    let (stage, action) = step(Stage::Discover, Event::PassCompleted);
    assert_eq!(stage, Stage::Discover);
    assert!(matches!(action, Action::Ignore));
    let (stage, action) = step(Stage::Mutating { ordinal: 2 }, Event::PassCompleted);
    assert_eq!(stage, Stage::Mutating { ordinal: 2 });
    assert!(matches!(action, Action::Ignore));
    let (stage, action) = step(Stage::ClientReady, Event::BucketCreated);
    assert_eq!(stage, Stage::ClientReady);
    assert!(matches!(action, Action::Ignore));
}
