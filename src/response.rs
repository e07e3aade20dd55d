use vstd::prelude::*;

use crate::batch::{error_pair, BatchOutcome, EventError, OutcomeView};
use crate::codec::{append_decimal, append_quoted, decimal_nat, json_string_of};

verus! {

/// Status code and JSON body answered for a batch.
#[derive(Debug, Clone)]
pub struct HttpResponse {
    pub status: u16,
    pub body: String,
}

pub const STATUS_OK: u16 = 200;

pub const STATUS_BAD_REQUEST: u16 = 400;

/// Only full success is answered with a success status.
pub open spec fn status_of(o: OutcomeView) -> u16 {
    match o {
        OutcomeView::FullSuccess { .. } => 200,
        _ => 400,
    }
}

pub open spec fn empty_batch_message() -> Seq<char> {
    "Request body must contain at least one event"@
}

pub open spec fn error_body(msg: Seq<char>) -> Seq<char> {
    "{\"error\":"@ + json_string_of(msg) + "}"@
}

pub open spec fn error_item(e: (Seq<char>, Seq<char>)) -> Seq<char> {
    "{\"event\":"@ + json_string_of(e.0) + ",\"error\":"@ + json_string_of(e.1) + "}"@
}

/// The error objects, separated by commas.
pub open spec fn errors_json(errs: Seq<(Seq<char>, Seq<char>)>) -> Seq<char>
    decreases errs.len(),
{
    if errs.len() == 0 {
        Seq::empty()
    } else if errs.len() == 1 {
        error_item(errs[0])
    } else {
        errors_json(errs.drop_last()) + ","@ + error_item(errs.last())
    }
}

/// The JSON body answered for an outcome.
pub open spec fn body_of(o: OutcomeView) -> Seq<char> {
    match o {
        OutcomeView::EmptyBatch => error_body(empty_batch_message()),
        OutcomeView::ValidationFailed { reason, .. } => error_body(
            "Validation failed: "@ + reason,
        ),
        OutcomeView::FullSuccess { processed } => "{\"status\":\"SUCCESS\",\"processed\":"@
            + decimal_nat(processed) + "}"@,
        OutcomeView::PartialFailure { processed, errors } =>
            "{\"status\":\"PARTIAL_SUCCESS\",\"processed\":"@ + decimal_nat(processed)
            + ",\"errors\":["@ + errors_json(errors) + "]}"@,
    }
}

fn error_response(msg: &str) -> (r: HttpResponse)
    ensures
        r.status == 400,
        r.body@ == error_body(msg@),
{
    let mut body = "{\"error\":".to_owned();
    append_quoted(&mut body, msg);
    body.append("}");
    HttpResponse { status: STATUS_BAD_REQUEST, body }
}

/// Appends the error list.
fn append_errors(out: &mut String, errors: &Vec<EventError>)
    ensures
        final(out)@ == old(out)@ + errors_json(errors@.map_values(|e: EventError| error_pair(e))),
{
    let ghost all = errors@.map_values(|e: EventError| error_pair(e));
    let mut i: usize = 0;
    while i < errors.len()
        invariant
            i <= errors@.len(),
            all == errors@.map_values(|e: EventError| error_pair(e)),
            out@ == old(out)@ + errors_json(all.take(i as int)),
        decreases errors.len() - i,
    {
        if i > 0 {
            out.append(",");
        }
        out.append("{\"event\":");
        append_quoted(out, errors[i].event.as_str());
        out.append(",\"error\":");
        append_quoted(out, errors[i].error.as_str());
        out.append("}");
        proof {
            reveal_strlit(",");
            let t = all.take(i + 1);
            assert(t.drop_last() =~= all.take(i as int));
            assert(t.last() == error_pair(errors@[i as int]));
            if i == 0 {
                assert(all.take(0) =~= Seq::<(Seq<char>, Seq<char>)>::empty());
                assert(out@ =~= old(out)@ + errors_json(t));
            } else {
                assert(out@ =~= old(out)@ + errors_json(t));
            }
        }
        i += 1;
    }
    assert(all.take(errors@.len() as int) =~= all);
}

/// Maps a batch outcome to the status code and body answered to the caller.
pub fn build_response(outcome: &BatchOutcome) -> (r: HttpResponse)
    ensures
        r.status == status_of(outcome@),
        r.body@ == body_of(outcome@),
{
    match outcome {
        BatchOutcome::EmptyBatch => error_response("Request body must contain at least one event"),
        BatchOutcome::ValidationFailed { reason, .. } => {
            let mut msg = "Validation failed: ".to_owned();
            msg.append(reason.as_str());
            error_response(msg.as_str())
        },
        BatchOutcome::FullSuccess { processed } => {
            let mut body = "{\"status\":\"SUCCESS\",\"processed\":".to_owned();
            append_decimal(&mut body, *processed as u64);
            body.append("}");
            HttpResponse { status: STATUS_OK, body }
        },
        BatchOutcome::PartialFailure { processed, errors } => {
            let mut body = "{\"status\":\"PARTIAL_SUCCESS\",\"processed\":".to_owned();
            append_decimal(&mut body, *processed as u64);
            body.append(",\"errors\":[");
            append_errors(&mut body, errors);
            body.append("]}");
            HttpResponse { status: STATUS_BAD_REQUEST, body }
        },
    }
}

} // verus!
