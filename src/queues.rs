use vstd::prelude::*;

verus! {

/// Name of the durable direct exchange that every event is published to.
pub const EXCHANGE_NAME: &'static str = "rust-axum";

/// Queue (and routing key) for ordinary events.
pub const QUEUE_DEFAULT: &'static str = "rust-axum";

/// Queue (and routing key) for system events.
pub const QUEUE_SYSTEM: &'static str = "system-rust-axum";

pub open spec fn exchange_name() -> Seq<char> {
    "rust-axum"@
}

pub open spec fn default_queue() -> Seq<char> {
    "rust-axum"@
}

pub open spec fn system_queue() -> Seq<char> {
    "system-rust-axum"@
}

/// The routing key for an event with the given system flag.
pub open spec fn routing_key(is_system: bool) -> Seq<char> {
    if is_system {
        system_queue()
    } else {
        default_queue()
    }
}

/// Maps the system flag to the queue name used as routing key.
pub fn get_queue_name(is_system: bool) -> (r: &'static str)
    ensures
        r@ == routing_key(is_system),
{
    if is_system {
        QUEUE_SYSTEM
    } else {
        QUEUE_DEFAULT
    }
}

} // verus!
