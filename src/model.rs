use vstd::prelude::*;

verus! {

/// Structured error attached to a status event.
#[derive(Debug, Clone)]
pub struct ErrorData {
    pub code: Option<String>,
    pub message: Option<String>,
}

/// Tracking metadata of a status event.
#[derive(Debug, Clone)]
pub struct TrackData {
    pub priority: Option<i32>,
    pub is_system: bool,
}

/// One status event as received from the producer.
#[derive(Debug, Clone)]
pub struct StatusEvent {
    pub state: String,
    pub error: Option<ErrorData>,
    pub track_data: Option<TrackData>,
    pub updated_at: String,
    pub tx_id: String,
    pub email: Option<String>,
    pub channel_id: Option<String>,
    pub channel: Option<String>,
}

/// The message of the first required field that is empty, checked in the
/// order `state`, `updatedAt`, `txId`; `None` when all three are present.
pub open spec fn validation_error(e: StatusEvent) -> Option<Seq<char>> {
    if e.state@.len() == 0 {
        Some("field 'state' is required"@)
    } else if e.updated_at@.len() == 0 {
        Some("field 'updatedAt' is required"@)
    } else if e.tx_id@.len() == 0 {
        Some("field 'txId' is required"@)
    } else {
        None
    }
}

/// An event is valid when its three required fields are non-empty.
pub open spec fn is_valid(e: StatusEvent) -> bool {
    e.state@.len() > 0 && e.updated_at@.len() > 0 && e.tx_id@.len() > 0
}

/// An event is a system event exactly when it carries tracking data whose
/// system flag is set.
pub open spec fn spec_is_system(e: StatusEvent) -> bool {
    match e.track_data {
        Some(td) => td.is_system,
        None => false,
    }
}

/// Validation reports an error exactly for the events that are not valid.
pub proof fn lemma_valid_iff_no_error(e: StatusEvent)
    ensures
        is_valid(e) <==> validation_error(e) is None,
{
}

impl StatusEvent {
    /// Checks the required fields; reports the first one that is empty.
    pub fn validate(&self) -> (r: Result<(), String>)
        ensures
            match validation_error(*self) {
                None => r is Ok,
                Some(msg) => r is Err && r->Err_0@ == msg,
            },
    {
        if self.state.as_str().is_empty() {
            return Err("field 'state' is required".to_owned());
        }
        if self.updated_at.as_str().is_empty() {
            return Err("field 'updatedAt' is required".to_owned());
        }
        if self.tx_id.as_str().is_empty() {
            return Err("field 'txId' is required".to_owned());
        }
        Ok(())
    }

    /// Whether the event belongs on the system queue.
    pub fn is_system_event(&self) -> (r: bool)
        ensures
            r == spec_is_system(*self),
    {
        match &self.track_data {
            Some(td) => td.is_system,
            None => false,
        }
    }
}

} // verus!
