use vstd::prelude::*;

use crate::queues::{default_queue, exchange_name, system_queue, EXCHANGE_NAME, QUEUE_DEFAULT, QUEUE_SYSTEM};

verus! {

/// Why a publish could not be handed to the broker.
#[derive(Debug, Clone)]
pub enum PublishError {
    /// The manager holds no open channel.
    NotInitialized,
    /// The channel or the network failed; carries the transport's message.
    Transport(String),
}

pub open spec fn publish_error_message(e: PublishError) -> Seq<char> {
    match e {
        PublishError::NotInitialized => "Channel not initialized"@,
        PublishError::Transport(m) => m@,
    }
}

impl PublishError {
    /// Human-readable description used in per-event error reports.
    pub fn message(&self) -> (r: String)
        ensures
            r@ == publish_error_message(*self),
    {
        match self {
            PublishError::NotInitialized => "Channel not initialized".to_owned(),
            PublishError::Transport(m) => m.clone(),
        }
    }
}

/// Lifecycle of the single broker channel.
pub enum ConnectionState<H> {
    Uninitialized,
    Connected(H),
    Closed,
}

/// Owner of the one broker channel `H`: it can be installed once, lent out for
/// publishing while connected, and taken back out exactly once for closing.
pub struct ConnectionManager<H> {
    state: ConnectionState<H>,
}

impl<H> ConnectionManager<H> {
    pub closed spec fn lifecycle(&self) -> ConnectionState<H> {
        self.state
    }

    /// A manager that holds no channel yet.
    pub fn new() -> (r: Self)
        ensures
            r.lifecycle() is Uninitialized,
    {
        ConnectionManager { state: ConnectionState::Uninitialized }
    }

    /// Installs the freshly opened channel; allowed once, before anything else.
    pub fn init(&mut self, channel: H)
        requires
            old(self).lifecycle() is Uninitialized,
        ensures
            final(self).lifecycle() == ConnectionState::Connected(channel),
    {
        self.state = ConnectionState::Connected(channel);
    }

    pub fn is_uninitialized(&self) -> (r: bool)
        ensures
            r == self.lifecycle() is Uninitialized,
    {
        match &self.state {
            ConnectionState::Uninitialized => true,
            _ => false,
        }
    }

    pub fn is_connected(&self) -> (r: bool)
        ensures
            r == self.lifecycle() is Connected,
    {
        match &self.state {
            ConnectionState::Connected(_) => true,
            _ => false,
        }
    }

    /// The channel to publish on, or `NotInitialized` when none is open; the
    /// broker is not contacted in that case.
    pub fn channel(&self) -> (r: Result<&H, PublishError>)
        ensures
            r is Ok <==> self.lifecycle() is Connected,
            r is Ok ==> *r->Ok_0 == self.lifecycle()->Connected_0,
            r is Err ==> r->Err_0 == PublishError::NotInitialized,
    {
        match &self.state {
            ConnectionState::Connected(h) => Ok(h),
            _ => Err(PublishError::NotInitialized),
        }
    }

    /// Takes the open channel out for a graceful close and moves to `Closed`.
    /// With no open channel nothing changes and `None` comes back, so closing
    /// twice is harmless.
    pub fn begin_close(&mut self) -> (r: Option<H>)
        ensures
            old(self).lifecycle() is Connected ==> r == Some(old(self).lifecycle()->Connected_0)
                && final(self).lifecycle() is Closed,
            !(old(self).lifecycle() is Connected) ==> r is None && final(self).lifecycle()
                == old(self).lifecycle(),
    {
        let mut st = ConnectionState::Closed;
        std::mem::swap(&mut self.state, &mut st);
        match st {
            ConnectionState::Connected(h) => Some(h),
            other => {
                self.state = other;
                None
            },
        }
    }
}

/// One queue of the broker topology and how it is bound.
pub struct QueueBinding {
    pub queue: String,
    pub exchange: String,
    pub routing_key: String,
}

/// The two durable queues, each bound to the exchange under its own name:
/// first the default queue, then the system queue.
pub fn queue_bindings() -> (r: Vec<QueueBinding>)
    ensures
        r@.len() == 2,
        r@[0].queue@ == default_queue(),
        r@[1].queue@ == system_queue(),
        forall|i: int| 0 <= i < 2 ==> (#[trigger] r@[i]).routing_key@ == r@[i].queue@ && r@[i].exchange@ == exchange_name(),
{
    let mut r: Vec<QueueBinding> = Vec::new();
    r.push(
        QueueBinding {
            queue: QUEUE_DEFAULT.to_owned(),
            exchange: EXCHANGE_NAME.to_owned(),
            routing_key: QUEUE_DEFAULT.to_owned(),
        },
    );
    r.push(
        QueueBinding {
            queue: QUEUE_SYSTEM.to_owned(),
            exchange: EXCHANGE_NAME.to_owned(),
            routing_key: QUEUE_SYSTEM.to_owned(),
        },
    );
    r
}

/// Delivery mode that asks the broker to persist a message.
pub const DELIVERY_PERSISTENT: u8 = 2;

/// Properties attached to every published message.
pub struct MessageProperties {
    pub content_type: String,
    pub content_encoding: String,
    pub delivery_mode: u8,
}

/// Gzip-compressed JSON, delivered persistently. Durability rests on the
/// durable exchange, the durable queues and this flag; no publisher
/// confirmation is awaited.
pub fn message_properties() -> (r: MessageProperties)
    ensures
        r.content_type@ == "application/json"@,
        r.content_encoding@ == "gzip"@,
        r.delivery_mode == 2,
{
    MessageProperties {
        content_type: "application/json".to_owned(),
        content_encoding: "gzip".to_owned(),
        delivery_mode: DELIVERY_PERSISTENT,
    }
}

} // verus!
