use vstd::prelude::*;

use crate::codec::{compress_message, event_json, gzip_of, serialize_event};
use crate::connection::{publish_error_message, PublishError};
use crate::model::{is_valid, lemma_valid_iff_no_error, spec_is_system, validation_error, StatusEvent};
use crate::queues::{default_queue, get_queue_name, routing_key, system_queue};

verus! {

/// Serializes an event and compresses the JSON text.
pub fn encode_event(e: &StatusEvent) -> (r: Vec<u8>)
    ensures
        r@ == gzip_of(event_json(*e)),
{
    let json = serialize_event(e);
    match compress_message(json.as_str()) {
        Ok(bytes) => bytes,
        Err(_) => {
            assert(false);
            Vec::new()
        },
    }
}

/// Everything needed to publish one event: its correlation id, the routing
/// key, and the compressed payload.
pub struct Delivery {
    pub tx_id: String,
    pub routing_key: String,
    pub payload: Vec<u8>,
}

/// The routing key of an event depends on its system flag alone.
pub open spec fn event_routing_key(e: StatusEvent) -> Seq<char> {
    routing_key(spec_is_system(e))
}

pub open spec fn delivery_of(d: Delivery, e: StatusEvent) -> bool {
    &&& d.tx_id@ == e.tx_id@
    &&& d.routing_key@ == event_routing_key(e)
    &&& d.payload@ == gzip_of(event_json(e))
}

/// Routes, serializes and compresses one event.
pub fn prepare_delivery(e: &StatusEvent) -> (d: Delivery)
    ensures
        delivery_of(d, *e),
{
    Delivery {
        tx_id: e.tx_id.clone(),
        routing_key: get_queue_name(e.is_system_event()).to_owned(),
        payload: encode_event(e),
    }
}

/// A per-event failure: the event's `txId` and the reason.
#[derive(Debug, Clone)]
pub struct EventError {
    pub event: String,
    pub error: String,
}

pub open spec fn error_pair(e: EventError) -> (Seq<char>, Seq<char>) {
    (e.event@, e.error@)
}

/// Result of handling one batch.
#[derive(Debug, Clone)]
pub enum BatchOutcome {
    /// The batch held no event; nothing was processed.
    EmptyBatch,
    /// The event at `index` is the first that failed validation; nothing was published.
    ValidationFailed { index: usize, reason: String },
    /// Every event was published.
    FullSuccess { processed: usize },
    /// Some events failed; `errors` lists them in processing order.
    PartialFailure { processed: usize, errors: Vec<EventError> },
}

/// Mathematical view of a batch outcome; an error is a pair of `txId` and reason.
pub enum OutcomeView {
    EmptyBatch,
    ValidationFailed { index: nat, reason: Seq<char> },
    FullSuccess { processed: nat },
    PartialFailure { processed: nat, errors: Seq<(Seq<char>, Seq<char>)> },
}

impl View for BatchOutcome {
    type V = OutcomeView;

    open spec fn view(&self) -> OutcomeView {
        match self {
            BatchOutcome::EmptyBatch => OutcomeView::EmptyBatch,
            BatchOutcome::ValidationFailed { index, reason } => OutcomeView::ValidationFailed {
                index: *index as nat,
                reason: reason@,
            },
            BatchOutcome::FullSuccess { processed } => OutcomeView::FullSuccess {
                processed: *processed as nat,
            },
            BatchOutcome::PartialFailure { processed, errors } => OutcomeView::PartialFailure {
                processed: *processed as nat,
                errors: errors@.map_values(|e: EventError| error_pair(e)),
            },
        }
    }
}

/// Index of the first event that fails validation, if any.
pub open spec fn first_invalid(s: Seq<StatusEvent>) -> Option<nat>
    decreases s.len(),
{
    if s.len() == 0 {
        None
    } else {
        let p = first_invalid(s.drop_last());
        if p is Some {
            p
        } else if !is_valid(s.last()) {
            Some((s.len() - 1) as nat)
        } else {
            None
        }
    }
}

/// How a batch is rejected before any publish: empty, or with its first
/// invalid event; `None` when every event may go on.
pub open spec fn rejection(events: Seq<StatusEvent>) -> Option<OutcomeView> {
    if events.len() == 0 {
        Some(OutcomeView::EmptyBatch)
    } else {
        match first_invalid(events) {
            Some(i) => Some(
                OutcomeView::ValidationFailed {
                    index: i,
                    reason: validation_error(events[i as int])->Some_0,
                },
            ),
            None => None,
        }
    }
}

/// The failure of one publish, if it failed.
pub open spec fn failure_of(r: Result<(), PublishError>) -> Option<Seq<char>> {
    match r {
        Err(p) => Some(publish_error_message(p)),
        Ok(_) => None,
    }
}

/// The failures among the first `n` deliveries, in order.
pub open spec fn failures(
    ds: Seq<Delivery>,
    rs: Seq<Result<(), PublishError>>,
    n: nat,
) -> Seq<(Seq<char>, Seq<char>)>
    decreases n,
{
    if n == 0 {
        Seq::empty()
    } else {
        let prev = failures(ds, rs, (n - 1) as nat);
        match failure_of(rs[n - 1]) {
            Some(m) => prev.push((ds[n - 1].tx_id@, m)),
            None => prev,
        }
    }
}

/// The outcome of a batch whose deliveries met the given publish results.
pub open spec fn finish_view(ds: Seq<Delivery>, rs: Seq<Result<(), PublishError>>) -> OutcomeView {
    let f = failures(ds, rs, ds.len());
    if f.len() == 0 {
        OutcomeView::FullSuccess { processed: ds.len() }
    } else {
        OutcomeView::PartialFailure { processed: (ds.len() - f.len()) as nat, errors: f }
    }
}

/// No more failures than deliveries looked at.
pub proof fn lemma_failures_len(ds: Seq<Delivery>, rs: Seq<Result<(), PublishError>>, n: nat)
    ensures
        failures(ds, rs, n).len() <= n,
    decreases n,
{
    if n > 0 {
        lemma_failures_len(ds, rs, (n - 1) as nat);
    }
}

/// What `first_invalid` reports: the least index whose event is invalid.
pub proof fn lemma_first_invalid(s: Seq<StatusEvent>)
    ensures
        match first_invalid(s) {
            Some(k) => k < s.len() && !is_valid(s[k as int]) && forall|j: int|
                0 <= j < k ==> is_valid(#[trigger] s[j]),
            None => forall|j: int| 0 <= j < s.len() ==> is_valid(#[trigger] s[j]),
        },
    decreases s.len(),
{
    if s.len() > 0 {
        lemma_first_invalid(s.drop_last());
        assert forall|j: int| 0 <= j < s.len() - 1 implies s.drop_last()[j] == s[j] by {}
    }
}

proof fn lemma_first_invalid_prefix(s: Seq<StatusEvent>, n: nat, m: nat)
    requires
        n <= m <= s.len(),
        first_invalid(s.take(n as int)) is Some,
    ensures
        first_invalid(s.take(m as int)) == first_invalid(s.take(n as int)),
    decreases m - n,
{
    if m > n {
        lemma_first_invalid_prefix(s, n, (m - 1) as nat);
        assert(s.take(m as int).drop_last() =~= s.take(m - 1));
    }
}

/// Rejects an empty batch, and otherwise validates every event in order and
/// reports the first that fails.
pub fn validate_batch(events: &Vec<StatusEvent>) -> (r: Result<(), BatchOutcome>)
    ensures
        match rejection(events@) {
            Some(o) => r is Err && r->Err_0@ == o,
            None => r is Ok,
        },
{
    if events.len() == 0 {
        return Err(BatchOutcome::EmptyBatch);
    }
    let mut i: usize = 0;
    while i < events.len()
        invariant
            i <= events@.len(),
            first_invalid(events@.take(i as int)) is None,
        decreases events.len() - i,
    {
        let e = &events[i];
        assert(events@.take(i + 1).drop_last() =~= events@.take(i as int));
        match e.validate() {
            Err(reason) => {
                proof {
                    lemma_valid_iff_no_error(*e);
                    lemma_first_invalid_prefix(events@, (i + 1) as nat, events@.len());
                    assert(events@.take(events@.len() as int) =~= events@);
                }
                return Err(BatchOutcome::ValidationFailed { index: i, reason });
            },
            Ok(()) => {
                proof {
                    lemma_valid_iff_no_error(*e);
                }
            },
        }
        i += 1;
    }
    assert(events@.take(events@.len() as int) =~= events@);
    Ok(())
}

/// Rejects the batch as a whole, or prepares one delivery per event, in order.
/// A rejected batch yields no delivery, so nothing of it is published.
pub fn plan_batch(events: &Vec<StatusEvent>) -> (r: Result<Vec<Delivery>, BatchOutcome>)
    ensures
        match rejection(events@) {
            Some(o) => r is Err && r->Err_0@ == o,
            None => r is Ok && r->Ok_0@.len() == events@.len() && forall|i: int|
                0 <= i < events@.len() ==> delivery_of(#[trigger] r->Ok_0@[i], events@[i]),
        },
{
    validate_batch(events)?;
    let mut ds: Vec<Delivery> = Vec::new();
    let mut i: usize = 0;
    while i < events.len()
        invariant
            i <= events@.len(),
            ds@.len() == i,
            forall|j: int| 0 <= j < i ==> delivery_of(#[trigger] ds@[j], events@[j]),
        decreases events.len() - i,
    {
        ds.push(prepare_delivery(&events[i]));
        i += 1;
    }
    Ok(ds)
}

/// Aggregates the publish results of a batch's deliveries, one result per
/// delivery, in order.
pub fn finish_batch(
    deliveries: &Vec<Delivery>,
    results: &Vec<Result<(), PublishError>>,
) -> (r: BatchOutcome)
    requires
        deliveries@.len() == results@.len(),
    ensures
        r@ == finish_view(deliveries@, results@),
{
    let mut errors: Vec<EventError> = Vec::new();
    let mut i: usize = 0;
    while i < deliveries.len()
        invariant
            i <= deliveries@.len(),
            deliveries@.len() == results@.len(),
            errors@.map_values(|e: EventError| error_pair(e)) == failures(
                deliveries@,
                results@,
                i as nat,
            ),
        decreases deliveries.len() - i,
    {
        match &results[i] {
            Err(p) => {
                errors.push(EventError { event: deliveries[i].tx_id.clone(), error: p.message() });
            },
            Ok(()) => {},
        }
        assert(errors@.map_values(|e: EventError| error_pair(e)) =~= failures(
            deliveries@,
            results@,
            (i + 1) as nat,
        ));
        i += 1;
    }
    proof {
        lemma_failures_len(deliveries@, results@, deliveries@.len());
    }
    if errors.len() == 0 {
        BatchOutcome::FullSuccess { processed: deliveries.len() }
    } else {
        BatchOutcome::PartialFailure { processed: deliveries.len() - errors.len(), errors }
    }
}

/// When every publish of a batch succeeded, the outcome is full success with
/// every event counted as processed.
pub proof fn lemma_all_published_is_full_success(
    ds: Seq<Delivery>,
    rs: Seq<Result<(), PublishError>>,
)
    requires
        ds.len() == rs.len(),
        forall|i: int| 0 <= i < rs.len() ==> (#[trigger] rs[i]) is Ok,
    ensures
        finish_view(ds, rs) == (OutcomeView::FullSuccess { processed: ds.len() }),
{
    lemma_no_failures(ds, rs, ds.len());
}

proof fn lemma_no_failures(ds: Seq<Delivery>, rs: Seq<Result<(), PublishError>>, n: nat)
    requires
        n <= ds.len() == rs.len(),
        forall|i: int| 0 <= i < rs.len() ==> (#[trigger] rs[i]) is Ok,
    ensures
        failures(ds, rs, n).len() == 0,
    decreases n,
{
    if n > 0 {
        lemma_no_failures(ds, rs, (n - 1) as nat);
        assert(rs[n - 1] is Ok);
    }
}

/// A batch with an invalid event is rejected as a whole with a validation
/// failure, at that event or an earlier one; it yields no delivery, so no
/// publish takes place.
pub proof fn lemma_invalid_event_rejects_batch(events: Seq<StatusEvent>, i: int)
    requires
        0 <= i < events.len(),
        !is_valid(events[i]),
    ensures
        rejection(events) matches Some(OutcomeView::ValidationFailed { index, reason })
            && index <= i && !is_valid(events[index as int])
            && reason == validation_error(events[index as int])->Some_0,
{
    lemma_first_invalid(events);
    lemma_valid_iff_no_error(events[i]);
}

/// Every event of a batch is counted once: as processed or as an error.
pub proof fn lemma_outcome_counts_every_event(
    ds: Seq<Delivery>,
    rs: Seq<Result<(), PublishError>>,
)
    requires
        ds.len() == rs.len(),
    ensures
        match finish_view(ds, rs) {
            OutcomeView::FullSuccess { processed } => processed == ds.len(),
            OutcomeView::PartialFailure { processed, errors } => processed + errors.len()
                == ds.len(),
            _ => false,
        },
{
    lemma_failures_len(ds, rs, ds.len());
}

/// The routing key of an event is the system queue's exactly when it is a
/// system event, else the default queue's, whatever its other fields hold.
pub proof fn lemma_routing_by_flag_only(a: StatusEvent, b: StatusEvent)
    ensures
        spec_is_system(a) ==> event_routing_key(a) == system_queue(),
        !spec_is_system(a) ==> event_routing_key(a) == default_queue(),
        spec_is_system(a) == spec_is_system(b) ==> event_routing_key(a) == event_routing_key(b),
        a.track_data is None ==> event_routing_key(a) == default_queue(),
{
}

} // verus!
