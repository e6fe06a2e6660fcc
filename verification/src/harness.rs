//! The course of one benchmark run: which step comes next, given the stage
//! the run is in and what the last step led to. The caller performs the
//! steps; the decisions are made here.

use crate::error::DiscoveryError;
use crate::error::HarnessError;
use crate::error::StoreError;
use vstd::prelude::*;

verus! {

/// The number of timed passes of a run.
pub const PASS_COUNT: u8 = 4;

/// What a run needs to know: where the store is and how much to write.
pub struct HarnessConfig {
    pub bucket: String,
    pub shard: u32,
    pub domain: String,
    pub batch_size: u32,
    pub corpus_size: u32,
    /// Whether a batched pass also executes the requests that are left
    /// pending behind its last full batch. Off unless asked for: they then
    /// stay unwritten.
    pub flush_trailing: bool,
}

impl Default for HarnessConfig {
    /// Shard 1 of `perf2.scloud.host`, 10000 objects written to
    /// `rust_batch_test_bucket`, in batches of 50, without a trailing flush.
    fn default() -> (config: Self)
        ensures
            config.bucket@ == "rust_batch_test_bucket"@,
            config.shard == 1,
            config.domain@ == "perf2.scloud.host"@,
            config.batch_size == 50,
            config.corpus_size == 10000,
            !config.flush_trailing,
    {
        HarnessConfig {
            bucket: "rust_batch_test_bucket".to_owned(),
            shard: 1,
            domain: "perf2.scloud.host".to_owned(),
            batch_size: 50,
            corpus_size: 10000,
            flush_trailing: false,
        }
    }
}

/// One indexed field of a bucket: its name and the type of its values.
pub struct IndexField {
    pub name: String,
    pub kind: String,
}

/// The indexed fields of a bucket.
pub struct BucketSchema {
    pub index: Vec<IndexField>,
}

/// The names of the indexed fields of the benchmark's bucket.
pub open spec fn indexed_field_names() -> Seq<Seq<char>> {
    seq!["dirname"@, "name"@, "owner"@, "objectId"@, "type"@]
}

fn string_field(name: &str) -> (field: IndexField)
    ensures
        field.name@ == name@,
        field.kind@ == "string"@,
{
    IndexField { name: name.to_owned(), kind: "string".to_owned() }
}

/// The schema with which the benchmark's bucket is created: five indexed
/// fields, all of them strings.
pub fn bucket_schema() -> (schema: BucketSchema)
    ensures
        schema.index.len() == 5,
        forall|i: int|
            0 <= i < 5 ==> (#[trigger] schema.index[i]).name@ == indexed_field_names()[i]
                && schema.index[i].kind@ == "string"@,
{
    let mut index: Vec<IndexField> = Vec::new();
    index.push(string_field("dirname"));
    index.push(string_field("name"));
    index.push(string_field("owner"));
    index.push(string_field("objectId"));
    index.push(string_field("type"));
    BucketSchema { index }
}

/// How a pass writes the corpus.
#[derive(Clone, Copy, PartialEq, Eq, Structural, Debug)]
pub enum Strategy {
    Sequential,
    Batched,
}

/// The strategy of each pass: sequential, then batched, then batched, then
/// sequential, so that each strategy runs once before and once after the
/// other.
pub open spec fn strategy_of(ordinal: u8) -> Strategy {
    if ordinal == 1 || ordinal == 4 {
        Strategy::Sequential
    } else {
        Strategy::Batched
    }
}

impl Strategy {
    /// The strategy of the pass with the given ordinal.
    pub fn of(ordinal: u8) -> (strategy: Strategy)
        ensures
            strategy == strategy_of(ordinal),
    {
        if ordinal == 1 || ordinal == 4 {
            Strategy::Sequential
        } else {
            Strategy::Batched
        }
    }

    /// The text of [`Strategy::name`].
    pub open spec fn name_text(&self) -> Seq<char> {
        match self {
            Strategy::Sequential => "sequential"@,
            Strategy::Batched => "batch"@,
        }
    }

    /// The name under which the duration of a pass is reported.
    pub fn name(&self) -> (text: &'static str)
        ensures
            text@ == self.name_text(),
    {
        match self {
            Strategy::Sequential => "sequential",
            Strategy::Batched => "batch",
        }
    }
}

/// The stages of a run.
#[derive(Clone, Copy, PartialEq, Eq, Structural, Debug)]
pub enum Stage {
    /// The shard is being located and connected to.
    Discover,
    /// The client is connected; the bucket is being looked for.
    ClientReady,
    /// The bucket was not found and is being created.
    CreatingBucket,
    /// The bucket is taken to exist; the corpus is being generated.
    BucketEnsured,
    /// The corpus is generated and is being written to the store once.
    CorpusReady,
    /// A fresh mutation of the corpus is being made for the pass.
    Mutating { ordinal: u8 },
    /// The pass is writing the mutated corpus.
    Running { ordinal: u8 },
    /// All passes are through.
    Done,
    /// A failure ended the run.
    Failed,
}

/// What a step of the run led to.
pub enum Event {
    ClientConnected,
    DiscoveryFailed(DiscoveryError),
    ConnectFailed(StoreError),
    BucketFound,
    BucketMissing,
    BucketCreated,
    BucketCreateFailed(StoreError),
    CorpusGenerated,
    CorpusSeeded,
    SeedFailed(StoreError),
    CorpusMutated,
    PassCompleted,
    PassFailed(StoreError),
}

/// The step to perform next.
pub enum Action {
    /// Locate the shard and connect to it.
    Connect,
    /// Ask the store for the bucket.
    GetBucket,
    /// Create the bucket with the benchmark's schema.
    CreateBucket,
    /// Generate the corpus.
    GenerateCorpus,
    /// Write the generated corpus to the store, object by object.
    SeedCorpus,
    /// Make a fresh mutation of the corpus for the pass.
    MutateCorpus { ordinal: u8 },
    /// Write the mutated corpus with the given strategy and time it.
    RunPass { ordinal: u8, strategy: Strategy },
    /// End the run with success.
    Finish,
    /// End the run with the given failure.
    Abort(HarnessError),
    /// The event does not belong to the stage: there is nothing to do.
    Ignore,
}

/// Whether the run has ended.
pub open spec fn is_terminal(stage: Stage) -> bool {
    stage == Stage::Done || stage == Stage::Failed
}

/// Whether `stage` is one that a run can be in: the ordinal of a pass is
/// between one and the number of passes.
pub open spec fn is_stage(stage: Stage) -> bool {
    match stage {
        Stage::Mutating { ordinal } => 1 <= ordinal <= PASS_COUNT,
        Stage::Running { ordinal } => 1 <= ordinal <= PASS_COUNT,
        _ => true,
    }
}

/// The stage and the step that follow when `event` arrives in `stage`.
///
/// A failure to discover, to connect, to seed or to complete a pass ends the
/// run. A failure to create the bucket does not: the run goes on as if the
/// bucket existed. An event that the stage does not wait for changes nothing.
pub open spec fn transition(stage: Stage, event: Event) -> (Stage, Action) {
    match (stage, event) {
        (Stage::Discover, Event::ClientConnected) => (Stage::ClientReady, Action::GetBucket),
        (Stage::Discover, Event::DiscoveryFailed(error)) => (
            Stage::Failed,
            Action::Abort(HarnessError::Discovery(error)),
        ),
        (Stage::Discover, Event::ConnectFailed(error)) => (
            Stage::Failed,
            Action::Abort(HarnessError::Store(error)),
        ),
        (Stage::ClientReady, Event::BucketFound) => (Stage::BucketEnsured, Action::GenerateCorpus),
        (Stage::ClientReady, Event::BucketMissing) => (Stage::CreatingBucket, Action::CreateBucket),
        (Stage::CreatingBucket, Event::BucketCreated) => (
            Stage::BucketEnsured,
            Action::GenerateCorpus,
        ),
        (Stage::CreatingBucket, Event::BucketCreateFailed(_)) => (
            Stage::BucketEnsured,
            Action::GenerateCorpus,
        ),
        (Stage::BucketEnsured, Event::CorpusGenerated) => (Stage::CorpusReady, Action::SeedCorpus),
        (Stage::CorpusReady, Event::CorpusSeeded) => (
            Stage::Mutating { ordinal: 1 },
            Action::MutateCorpus { ordinal: 1 },
        ),
        (Stage::CorpusReady, Event::SeedFailed(error)) => (
            Stage::Failed,
            Action::Abort(HarnessError::Store(error)),
        ),
        (Stage::Mutating { ordinal }, Event::CorpusMutated) => (
            Stage::Running { ordinal },
            Action::RunPass { ordinal, strategy: strategy_of(ordinal) },
        ),
        (Stage::Running { ordinal }, Event::PassCompleted) => if ordinal < PASS_COUNT {
            (
                Stage::Mutating { ordinal: (ordinal + 1) as u8 },
                Action::MutateCorpus { ordinal: (ordinal + 1) as u8 },
            )
        } else {
            (Stage::Done, Action::Finish)
        },
        (Stage::Running { ordinal }, Event::PassFailed(error)) => (
            Stage::Failed,
            Action::Abort(HarnessError::Store(error)),
        ),
        _ => (stage, Action::Ignore),
    }
}

/// How far a run has come: every accepted event moves the run to a stage of
/// higher rank.
pub open spec fn rank(stage: Stage) -> nat {
    match stage {
        Stage::Discover => 0,
        Stage::ClientReady => 1,
        Stage::CreatingBucket => 2,
        Stage::BucketEnsured => 3,
        Stage::CorpusReady => 4,
        Stage::Mutating { ordinal } => (3 + 2 * ordinal) as nat,
        Stage::Running { ordinal } => (4 + 2 * ordinal) as nat,
        Stage::Done => 13,
        Stage::Failed => 14,
    }
}

/// The stage in which a run begins, and its first step.
pub fn start() -> (first: (Stage, Action))
    ensures
        first == (Stage::Discover, Action::Connect),
{
    (Stage::Discover, Action::Connect)
}

/// Decides what follows when `event` arrives in `stage`.
pub fn step(stage: Stage, event: Event) -> (next: (Stage, Action))
    ensures
        next == transition(stage, event),
{
    match (stage, event) {
        (Stage::Discover, Event::ClientConnected) => (Stage::ClientReady, Action::GetBucket),
        (Stage::Discover, Event::DiscoveryFailed(error)) => (
            Stage::Failed,
            Action::Abort(HarnessError::Discovery(error)),
        ),
        (Stage::Discover, Event::ConnectFailed(error)) => (
            Stage::Failed,
            Action::Abort(HarnessError::Store(error)),
        ),
        (Stage::ClientReady, Event::BucketFound) => (Stage::BucketEnsured, Action::GenerateCorpus),
        (Stage::ClientReady, Event::BucketMissing) => (Stage::CreatingBucket, Action::CreateBucket),
        (Stage::CreatingBucket, Event::BucketCreated) => (
            Stage::BucketEnsured,
            Action::GenerateCorpus,
        ),
        (Stage::CreatingBucket, Event::BucketCreateFailed(_)) => (
            Stage::BucketEnsured,
            Action::GenerateCorpus,
        ),
        (Stage::BucketEnsured, Event::CorpusGenerated) => (Stage::CorpusReady, Action::SeedCorpus),
        (Stage::CorpusReady, Event::CorpusSeeded) => (
            Stage::Mutating { ordinal: 1 },
            Action::MutateCorpus { ordinal: 1 },
        ),
        (Stage::CorpusReady, Event::SeedFailed(error)) => (
            Stage::Failed,
            Action::Abort(HarnessError::Store(error)),
        ),
        (Stage::Mutating { ordinal }, Event::CorpusMutated) => (
            Stage::Running { ordinal },
            Action::RunPass { ordinal, strategy: Strategy::of(ordinal) },
        ),
        (Stage::Running { ordinal }, Event::PassCompleted) => {
            if ordinal < PASS_COUNT {
                (
                    Stage::Mutating { ordinal: ordinal + 1 },
                    Action::MutateCorpus { ordinal: ordinal + 1 },
                )
            } else {
                (Stage::Done, Action::Finish)
            }
        },
        (Stage::Running { ordinal }, Event::PassFailed(error)) => (
            Stage::Failed,
            Action::Abort(HarnessError::Store(error)),
        ),
        (stage, _) => (stage, Action::Ignore),
    }
}

/// Once a run has ended, no event moves it or asks for a step.
pub proof fn lemma_terminal_absorbs(stage: Stage, event: Event)
    requires
        is_terminal(stage),
    ensures
        transition(stage, event) == (stage, Action::Ignore),
{
}

/// An event either changes nothing or moves the run to a stage of higher
/// rank: no stage is entered twice, and no two passes overlap. Stages stay
/// within the stages of a run.
pub proof fn lemma_run_advances(stage: Stage, event: Event)
    requires
        is_stage(stage),
    ensures
        is_stage(transition(stage, event).0),
        transition(stage, event).1 == Action::Ignore ==> transition(stage, event).0 == stage,
        transition(stage, event).1 != Action::Ignore ==> rank(stage) < rank(
            transition(stage, event).0,
        ),
{
}

/// A run is aborted by exactly these events: a failure to discover or to
/// connect while the shard is being located, a failure to seed, and a failure
/// of a pass. The failure reported is the one that the event carries. A
/// failure to create the bucket aborts nothing.
pub proof fn lemma_aborts(stage: Stage, event: Event)
    ensures
        transition(stage, event).0 == Stage::Failed && stage != Stage::Failed <==> (
        transition(stage, event).1 is Abort),
        transition(stage, event).1 is Abort <==> {
            ||| stage == Stage::Discover && (event is DiscoveryFailed || event is ConnectFailed)
            ||| stage == Stage::CorpusReady && event is SeedFailed
            ||| stage is Running && event is PassFailed
        },
        stage == Stage::Discover ==> (event matches Event::DiscoveryFailed(error) ==> transition(
            stage,
            event,
        ).1 == Action::Abort(HarnessError::Discovery(error))),
        event matches Event::BucketCreateFailed(_) ==> !(transition(stage, event).1 is Abort),
{
}

/// A pass is run only upon a fresh mutation made for it, and the passes come
/// in the order of their ordinals, each with its strategy.
pub proof fn lemma_pass_order(stage: Stage, event: Event)
    requires
        is_stage(stage),
    ensures
        transition(stage, event).1 matches Action::RunPass { ordinal, strategy } ==> stage == (
        Stage::Mutating { ordinal }) && event is CorpusMutated && strategy == strategy_of(ordinal),
        transition(stage, event).1 matches Action::MutateCorpus { ordinal } ==> {
            ||| ordinal == 1 && stage == Stage::CorpusReady && event is CorpusSeeded
            ||| ordinal > 1 && stage == (Stage::Running { ordinal: (ordinal - 1) as u8 })
                && event is PassCompleted
        },
        transition(stage, event).1 is Finish ==> stage == (Stage::Running { ordinal: PASS_COUNT })
            && event is PassCompleted,
{
}

} // verus!
