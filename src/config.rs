use vstd::prelude::*;

verus! {

/// Socket path used when none is configured.
pub const DEFAULT_SOCKET_PATH: &'static str = "/tmp/rust_axum/app.sock";

/// Process configuration: where to listen and which broker to reach.
#[derive(Debug, Clone)]
pub struct Config {
    pub socket_path: String,
    pub rabbitmq_url: String,
}

impl Config {
    /// Builds the configuration from the configured values, if any. The
    /// socket path falls back to its default; the broker URL is required.
    pub fn from_values(socket_path: Option<String>, rabbitmq_url: Option<String>) -> (r: Result<
        Config,
        String,
    >)
        ensures
            r is Ok <==> rabbitmq_url is Some,
            r is Ok ==> r->Ok_0.rabbitmq_url@ == rabbitmq_url->Some_0@,
            r is Ok ==> r->Ok_0.socket_path@ == match socket_path {
                Some(p) => p@,
                None => "/tmp/rust_axum/app.sock"@,
            },
            r is Err ==> r->Err_0@ == "DSN__RABBITMQ environment variable is required"@,
    {
        let socket_path = match socket_path {
            Some(p) => p,
            None => DEFAULT_SOCKET_PATH.to_owned(),
        };
        match rabbitmq_url {
            Some(url) => Ok(Config { socket_path, rabbitmq_url: url }),
            None => Err("DSN__RABBITMQ environment variable is required".to_owned()),
        }
    }
}

} // verus!
