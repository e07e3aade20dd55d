//! Validation, routing, encoding and publish bookkeeping for batches of status
//! events relayed to a message broker.

pub mod batch;
pub mod codec;
pub mod config;
pub mod connection;
pub mod model;
pub mod queues;
pub mod response;

pub use batch::{
    encode_event, finish_batch, plan_batch, prepare_delivery, validate_batch, BatchOutcome,
    Delivery, EventError,
};
pub use codec::{compress_message, serialize_event};
pub use config::Config;
pub use connection::{
    message_properties, queue_bindings, ConnectionManager, ConnectionState, MessageProperties,
    PublishError, QueueBinding,
};
pub use model::{ErrorData, StatusEvent, TrackData};
pub use queues::{get_queue_name, EXCHANGE_NAME, QUEUE_DEFAULT, QUEUE_SYSTEM};
pub use response::{build_response, HttpResponse};
