//! The two write strategies: one request per object, or requests gathered
//! into batches of a fixed size.

use crate::error::StoreError;
use serde_json::Value;
use vstd::arithmetic::div_mod::lemma_fundamental_div_mod;
use vstd::arithmetic::div_mod::lemma_fundamental_div_mod_converse;
use vstd::prelude::*;

verus! {

/// One entry of a serialized corpus: an object key and the object's payload.
pub struct SerializedObject {
    pub key: String,
    pub value: Value,
}

/// A pending write of one object into a bucket.
pub struct PutOp {
    pub bucket: String,
    pub options: Value,
    pub key: String,
    pub value: Value,
}

/// The mathematical content of a [`PutOp`].
pub struct PutOpView {
    pub bucket: Seq<char>,
    pub options: Value,
    pub key: Seq<char>,
    pub value: Value,
}

impl View for PutOp {
    type V = PutOpView;

    open spec fn view(&self) -> PutOpView {
        PutOpView {
            bucket: self.bucket@,
            options: self.options,
            key: self.key@,
            value: self.value,
        }
    }
}

/// The write that stores `entry` in `bucket` under `options`.
pub open spec fn put_for(entry: SerializedObject, bucket: Seq<char>, options: Value) -> PutOpView {
    PutOpView { bucket, options, key: entry.key@, value: entry.value }
}

/// Builds the write request for one entry.
pub fn put_op(entry: &SerializedObject, bucket: &str, options: &Value) -> (op: PutOp)
    ensures
        op@ == put_for(*entry, bucket@, *options),
{
    PutOp {
        bucket: bucket.to_owned(),
        options: options.clone(),
        key: entry.key.clone(),
        value: entry.value.clone(),
    }
}

/// A request of a batch. Writes are the only kind the benchmark issues.
pub enum BatchRequest {
    Put(PutOp),
}

/// The mathematical content of a [`BatchRequest`].
pub enum BatchRequestView {
    Put(PutOpView),
}

impl View for BatchRequest {
    type V = BatchRequestView;

    open spec fn view(&self) -> BatchRequestView {
        match self {
            BatchRequest::Put(op) => BatchRequestView::Put(op@),
        }
    }
}

/// The content of a list of writes.
pub open spec fn puts_view(ops: Seq<PutOp>) -> Seq<PutOpView> {
    ops.map_values(|op: PutOp| op@)
}

/// The content of a list of batch requests.
pub open spec fn requests_view(requests: Seq<BatchRequest>) -> Seq<BatchRequestView> {
    requests.map_values(|request: BatchRequest| request@)
}

/// The content of a list of batches.
pub open spec fn batches_view(batches: Seq<Vec<BatchRequest>>) -> Seq<Seq<BatchRequestView>> {
    batches.map_values(|batch: Vec<BatchRequest>| requests_view(batch@))
}

/// The writes of a sequential pass: one per entry, in the order of the entries.
pub open spec fn sequential_writes(
    objects: Seq<SerializedObject>,
    bucket: Seq<char>,
    options: Value,
) -> Seq<PutOpView> {
    objects.map_values(|entry: SerializedObject| put_for(entry, bucket, options))
}

/// The requests that a batched pass gathers: one per entry, in the order of
/// the entries.
pub open spec fn batch_requests(
    objects: Seq<SerializedObject>,
    bucket: Seq<char>,
    options: Value,
) -> Seq<BatchRequestView> {
    objects.map_values(
        |entry: SerializedObject| BatchRequestView::Put(put_for(entry, bucket, options)),
    )
}

/// The batches that are executed when `requests` arrive one by one and a
/// batch is executed each time `size` of them are pending. A size of zero is
/// never reached, so nothing is executed.
pub open spec fn full_batches(requests: Seq<BatchRequestView>, size: nat) -> Seq<
    Seq<BatchRequestView>,
> {
    if size == 0 {
        Seq::empty()
    } else {
        Seq::new(
            requests.len() / size,
            |b: int| requests.subrange(b * size, b * size + size),
        )
    }
}

/// The requests that are still pending after the last of `requests` arrived:
/// those behind the last full batch. They are never executed.
pub open spec fn leftover(requests: Seq<BatchRequestView>, size: nat) -> Seq<BatchRequestView> {
    if size == 0 {
        requests
    } else {
        requests.skip(((requests.len() / size) * size) as int)
    }
}

/// Plans a sequential pass: the writes to issue, one per entry.
pub fn run_sequential_test(objects: &Vec<SerializedObject>, bucket: &str, options: &Value) -> (writes:
    Vec<PutOp>)
    ensures
        puts_view(writes@) == sequential_writes(objects@, bucket@, *options),
{
    let mut writes: Vec<PutOp> = Vec::new();
    let mut i: usize = 0;
    while i < objects.len()
        invariant
            i <= objects.len(),
            writes.len() == i,
            forall|j: int|
                0 <= j < i ==> (#[trigger] writes[j])@ == put_for(objects[j], bucket@, *options),
        decreases objects.len() - i,
    {
        writes.push(put_op(&objects[i], bucket, options));
        i += 1;
    }
    assert(puts_view(writes@) =~= sequential_writes(objects@, bucket@, *options));
    writes
}

/// Gathers batch requests and hands a batch out each time the configured
/// number of them is pending.
pub struct BatchAccumulator {
    batch_size: u32,
    pending: Vec<BatchRequest>,
}

impl BatchAccumulator {
    #[verifier::type_invariant]
    spec fn below_threshold(self) -> bool {
        self.batch_size > 0 ==> self.pending.len() < self.batch_size
    }

    /// The number of pending requests at which a batch is handed out.
    pub closed spec fn batch_size(&self) -> nat {
        self.batch_size as nat
    }

    /// The requests gathered since the last batch was handed out.
    pub closed spec fn pending(&self) -> Seq<BatchRequestView> {
        requests_view(self.pending@)
    }

    /// An accumulator with nothing pending.
    pub fn new(batch_size: u32) -> (acc: Self)
        ensures
            acc.batch_size() == batch_size,
            acc.pending() == Seq::<BatchRequestView>::empty(),
    {
        let acc = BatchAccumulator { batch_size, pending: Vec::new() };
        assert(acc.pending() =~= Seq::<BatchRequestView>::empty());
        acc
    }

    /// Adds a request. When that makes the pending list reach the batch size,
    /// the whole list is handed out for execution and the accumulator starts
    /// over with nothing pending.
    pub fn push(&mut self, request: BatchRequest) -> (flush: Option<Vec<BatchRequest>>)
        ensures
            final(self).batch_size() == old(self).batch_size(),
            flush is Some <==> old(self).pending().len() + 1 == old(self).batch_size(),
            match flush {
                Some(batch) => {
                    &&& requests_view(batch@) == old(self).pending().push(request@)
                    &&& final(self).pending() == Seq::<BatchRequestView>::empty()
                },
                None => final(self).pending() == old(self).pending().push(request@),
            },
    {
        proof {
            use_type_invariant(&*self);
        }
        let ghost before = self.pending@;
        let mut list: Vec<BatchRequest> = Vec::new();
        std::mem::swap(&mut list, &mut self.pending);
        list.push(request);
        assert(requests_view(list@) =~= requests_view(before).push(request@));
        if list.len() == self.batch_size as usize {
            assert(requests_view(self.pending@) =~= Seq::<BatchRequestView>::empty());
            Some(list)
        } else {
            std::mem::swap(&mut list, &mut self.pending);
            None
        }
    }

    /// The number of pending requests.
    pub fn pending_len(&self) -> (n: usize)
        ensures
            n == self.pending().len(),
    {
        self.pending.len()
    }

    /// Gives up the accumulator for the requests that are still pending.
    pub fn into_pending(self) -> (rest: Vec<BatchRequest>)
        ensures
            requests_view(rest@) == self.pending(),
    {
        self.pending
    }
}

/// What a batched pass does with a corpus: the batches to execute, in order,
/// and the requests that were gathered behind the last of them.
pub struct BatchPlan {
    pub batches: Vec<Vec<BatchRequest>>,
    pub unflushed: Vec<BatchRequest>,
}

impl BatchPlan {
    /// The plan in which the requests left pending are executed too, as one
    /// last batch that is shorter than the others. A plan that leaves nothing
    /// pending stays as it is.
    pub fn flush_trailing(self) -> (plan: BatchPlan)
        ensures
            plan.unflushed@.len() == 0,
            batches_view(plan.batches@) == if self.unflushed@.len() == 0 {
                batches_view(self.batches@)
            } else {
                batches_view(self.batches@).push(requests_view(self.unflushed@))
            },
    {
        let BatchPlan { mut batches, unflushed } = self;
        if unflushed.len() > 0 {
            let ghost before = batches@;
            let ghost rest = unflushed@;
            batches.push(unflushed);
            assert(batches_view(batches@) =~= batches_view(before).push(requests_view(rest)));
        }
        BatchPlan { batches, unflushed: Vec::new() }
    }
}

/// Plans a batched pass: one request per entry is gathered, and a batch is
/// cut each time `batch_size` requests are pending. Requests behind the last
/// full batch stay unflushed.
pub fn run_batch_test(
    objects: &Vec<SerializedObject>,
    bucket: &str,
    options: &Value,
    batch_size: u32,
) -> (plan: BatchPlan)
    ensures
        batches_view(plan.batches@) == full_batches(
            batch_requests(objects@, bucket@, *options),
            batch_size as nat,
        ),
        requests_view(plan.unflushed@) == leftover(
            batch_requests(objects@, bucket@, *options),
            batch_size as nat,
        ),
{
    let ghost requests = batch_requests(objects@, bucket@, *options);
    let ghost size = batch_size as int;
    let mut acc = BatchAccumulator::new(batch_size);
    let mut batches: Vec<Vec<BatchRequest>> = Vec::new();
    let mut i: usize = 0;
    let ghost mut base: int = 0;
    assert(batches.len() * size == 0) by (nonlinear_arith)
        requires
            batches.len() == 0,
    ;
    assert(requests.subrange(0, 0) =~= Seq::<BatchRequestView>::empty());
    while i < objects.len()
        invariant
            i <= objects.len(),
            requests == batch_requests(objects@, bucket@, *options),
            size == batch_size,
            acc.batch_size() == batch_size,
            size > 0 ==> acc.pending().len() < size,
            size == 0 ==> batches.len() == 0,
            base == batches.len() * size,
            base + acc.pending().len() == i,
            forall|b: int|
                0 <= b < batches.len() ==> requests_view((#[trigger] batches[b])@)
                    == requests.subrange(b * size, b * size + size),
            acc.pending() == requests.subrange(base, i as int),
        decreases objects.len() - i,
    {
        let request = BatchRequest::Put(put_op(&objects[i], bucket, options));
        assert(request@ == requests[i as int]);
        let ghost done = batches.len() as int;
        assert(requests.subrange(base, i as int).push(requests[i as int]) =~= requests.subrange(
            base,
            i + 1,
        ));
        assert((done + 1) * size == done * size + size) by (nonlinear_arith);
        match acc.push(request) {
            Some(batch) => {
                batches.push(batch);
                proof {
                    base = base + size;
                }
                assert(requests.subrange(base, i + 1) =~= Seq::<BatchRequestView>::empty());
            },
            None => {},
        }
        i += 1;
    }
    let unflushed = acc.into_pending();
    proof {
        let count = batches.len() as int;
        if size > 0 {
            lemma_fundamental_div_mod_converse(
                requests.len() as int,
                size,
                count,
                unflushed.len() as int,
            );
            assert(batches_view(batches@) =~= full_batches(requests, batch_size as nat));
            assert(requests_view(unflushed@) =~= leftover(requests, batch_size as nat));
        } else {
            assert(batches_view(batches@) =~= full_batches(requests, batch_size as nat));
            assert(requests_view(unflushed@) =~= leftover(requests, batch_size as nat));
        }
    }
    BatchPlan { batches, unflushed }
}

/// A sequential pass issues exactly one write per entry, whatever order the
/// entries of the mapping are walked in: two walks of the same entries issue
/// the same number of writes.
pub proof fn lemma_sequential_count(
    first: Seq<SerializedObject>,
    second: Seq<SerializedObject>,
    bucket: Seq<char>,
    options: Value,
)
    requires
        first.to_multiset() == second.to_multiset(),
    ensures
        sequential_writes(first, bucket, options).len() == first.len(),
        sequential_writes(second, bucket, options).len() == sequential_writes(
            first,
            bucket,
            options,
        ).len(),
{
    first.to_multiset_ensures();
    second.to_multiset_ensures();
}

/// With a batch size above zero, a batched pass over a number of requests
/// executes that number divided by the batch size, rounded down, batches of
/// exactly the batch size; the remainder of the division is the number of
/// requests that are never executed. Each request is found, in order, either
/// in its batch or among the leftover.
pub proof fn lemma_batch_count(requests: Seq<BatchRequestView>, size: nat)
    requires
        size > 0,
    ensures
        full_batches(requests, size).len() == requests.len() / size,
        leftover(requests, size).len() == requests.len() % size,
        full_batches(requests, size).len() * size + leftover(requests, size).len()
            == requests.len(),
        forall|b: int|
            0 <= b < full_batches(requests, size).len() ==> (#[trigger] full_batches(
                requests,
                size,
            )[b]).len() == size,
        forall|b: int, j: int|
            0 <= b < full_batches(requests, size).len() && 0 <= j < size ==> (#[trigger] full_batches(
                requests,
                size,
            )[b][j]) == requests[b * size + j],
        forall|j: int|
            0 <= j < leftover(requests, size).len() ==> (#[trigger] leftover(requests, size)[j])
                == requests[(requests.len() / size) * size + j],
{
    let total = requests.len() as int;
    let d = size as int;
    let count = total / d;
    lemma_fundamental_div_mod(total, d);
    assert(d * count == count * d) by (nonlinear_arith);
    assert(0 <= total % d < d);
    assert(0 <= count) by (nonlinear_arith)
        requires
            total >= 0,
            d > 0,
            count == total / d,
    ;
    let batches = full_batches(requests, size);
    assert forall|b: int| 0 <= b < batches.len() implies (#[trigger] batches[b]).len()
        == size by {
        assert(0 <= b * d && b * d + d <= total) by (nonlinear_arith)
            requires
                0 <= b < count,
                d > 0,
                count * d <= total,
        ;
    }
    assert forall|b: int, j: int| 0 <= b < batches.len() && 0 <= j < size implies (
    #[trigger] batches[b][j]) == requests[b * size + j] by {
        assert(0 <= b * d && b * d + d <= total) by (nonlinear_arith)
            requires
                0 <= b < count,
                d > 0,
                count * d <= total,
        ;
    }
}

/// With a batch size of zero no batch is ever full: nothing is executed and
/// every request stays pending.
pub proof fn lemma_batch_size_zero(requests: Seq<BatchRequestView>)
    ensures
        full_batches(requests, 0).len() == 0,
        leftover(requests, 0) == requests,
{
}

/// How far a pass has come: the number of requests it has, the number it
/// has issued, and whether one of them failed.
pub struct ProgressView {
    pub total: nat,
    pub issued: nat,
    pub failed: bool,
}

/// The position of the request to issue next, if the pass goes on: there is
/// none once a request has failed or all have been issued.
pub open spec fn awaited(progress: ProgressView) -> Option<nat> {
    if !progress.failed && progress.issued < progress.total {
        Some(progress.issued)
    } else {
        None
    }
}

/// The progress after the outcome of the awaited request is known. An
/// outcome that no request was awaited for changes nothing.
pub open spec fn advance(progress: ProgressView, ok: bool) -> ProgressView {
    if awaited(progress) is Some {
        ProgressView { total: progress.total, issued: progress.issued + 1, failed: !ok }
    } else {
        progress
    }
}

/// The progress after a series of outcomes.
pub open spec fn advance_all(progress: ProgressView, outcomes: Seq<bool>) -> ProgressView
    decreases outcomes.len(),
{
    if outcomes.len() == 0 {
        progress
    } else {
        advance_all(advance(progress, outcomes[0]), outcomes.drop_first())
    }
}

/// Keeps track of a pass: which request to issue next, and whether to go on.
/// A pass ends at its first failure.
pub struct PassProgress {
    total: usize,
    issued: usize,
    failure: Option<StoreError>,
}

impl View for PassProgress {
    type V = ProgressView;

    closed spec fn view(&self) -> ProgressView {
        ProgressView {
            total: self.total as nat,
            issued: self.issued as nat,
            failed: self.failure is Some,
        }
    }
}

impl PassProgress {
    #[verifier::type_invariant]
    spec fn within_total(self) -> bool {
        self.issued <= self.total
    }

    /// The failure that ended the pass, if one did.
    pub closed spec fn failure(&self) -> Option<StoreError> {
        self.failure
    }

    /// The progress of a pass of `total` requests of which none is issued.
    pub fn start(total: usize) -> (progress: Self)
        ensures
            progress@ == (ProgressView { total: total as nat, issued: 0, failed: false }),
            progress.failure() is None,
    {
        PassProgress { total, issued: 0, failure: None }
    }

    /// The position of the request to issue next, or `None` when the pass is
    /// over.
    pub fn next(&self) -> (position: Option<usize>)
        ensures
            self@.issued <= self@.total,
            match position {
                Some(i) => awaited(self@) == Some(i as nat),
                None => awaited(self@) is None,
            },
    {
        proof {
            use_type_invariant(self);
        }
        if self.failure.is_none() && self.issued < self.total {
            Some(self.issued)
        } else {
            None
        }
    }

    /// Records the outcome of the request that was issued last. A failure
    /// ends the pass and is kept.
    pub fn record(&mut self, outcome: Result<(), StoreError>)
        ensures
            final(self)@ == advance(old(self)@, outcome is Ok),
            final(self).failure() == if awaited(old(self)@) is Some {
                match outcome {
                    Ok(_) => None,
                    Err(error) => Some(error),
                }
            } else {
                old(self).failure()
            },
    {
        proof {
            use_type_invariant(&*self);
        }
        if self.failure.is_none() && self.issued < self.total {
            self.issued = self.issued + 1;
            match outcome {
                Ok(_) => {},
                Err(error) => {
                    self.failure = Some(error);
                },
            }
        }
    }

    /// The result of the pass as far as it has come: the number of requests
    /// issued, or the failure that ended it.
    pub fn finish(self) -> (result: Result<usize, StoreError>)
        ensures
            match result {
                Ok(issued) => !self@.failed && issued == self@.issued,
                Err(error) => self@.failed && self.failure() == Some(error),
            },
    {
        match self.failure {
            Some(error) => Err(error),
            None => Ok(self.issued),
        }
    }
}

/// Once a request has failed, nothing more is issued, whatever outcomes are
/// reported.
pub proof fn lemma_failure_ends_pass(progress: ProgressView, outcomes: Seq<bool>)
    requires
        progress.failed,
    ensures
        advance_all(progress, outcomes) == progress,
        awaited(progress) is None,
    decreases outcomes.len(),
{
    if outcomes.len() > 0 {
        lemma_failure_ends_pass(progress, outcomes.drop_first());
    }
}

/// A pass whose requests all succeed issues one request per outcome until
/// every request has been issued once, and no more after that.
pub proof fn lemma_pass_without_failure(progress: ProgressView, outcomes: Seq<bool>)
    requires
        !progress.failed,
        progress.issued <= progress.total,
        forall|j: int| 0 <= j < outcomes.len() ==> outcomes[j],
    ensures
        advance_all(progress, outcomes) == (ProgressView {
            total: progress.total,
            issued: if progress.issued + outcomes.len() <= progress.total {
                progress.issued + outcomes.len()
            } else {
                progress.total
            },
            failed: false,
        }),
    decreases outcomes.len(),
{
    if outcomes.len() > 0 {
        lemma_pass_without_failure(advance(progress, outcomes[0]), outcomes.drop_first());
    }
}

/// A pass stops at its first failure: when the request at position `k` is the
/// first to fail, exactly `k + 1` requests are issued, however many outcomes
/// follow.
pub proof fn lemma_pass_stops_at_first_failure(
    progress: ProgressView,
    outcomes: Seq<bool>,
    k: int,
)
    requires
        !progress.failed,
        0 <= k < outcomes.len(),
        progress.issued + k < progress.total,
        forall|j: int| 0 <= j < k ==> outcomes[j],
        !outcomes[k],
    ensures
        advance_all(progress, outcomes) == (ProgressView {
            total: progress.total,
            issued: (progress.issued + k + 1) as nat,
            failed: true,
        }),
    decreases outcomes.len(),
{
    let rest = outcomes.drop_first();
    if k == 0 {
        lemma_failure_ends_pass(advance(progress, false), rest);
    } else {
        assert(outcomes[0]);
        assert forall|j: int| 0 <= j < k - 1 implies rest[j] by {
            assert(rest[j] == outcomes[j + 1]);
        }
        lemma_pass_stops_at_first_failure(advance(progress, true), rest, k - 1);
    }
}

} // verus!
