//! Configuration of the client and the server side.
use vstd::prelude::*;
use std::time::Duration;

verus! {

/// The duration that `Duration::from_secs(secs)` makes.
pub uninterp spec fn secs_duration(secs: u64) -> Duration;

/// `Duration::from_secs`: a function of the number of seconds alone.
pub assume_specification[ Duration::from_secs ](secs: u64) -> (r: Duration)
    ensures
        r == secs_duration(secs),
;

/// `Duration`'s `clone`: a `Duration` is `Copy`, so the clone is the same value.
pub assume_specification[ <Duration as Clone>::clone ](d: &Duration) -> (r: Duration)
    ensures
        r == *d,
;

/// General configuration of the client side.
#[derive(Clone)]
pub struct ClientConfig {
    /// How long a request waits for its response, in seconds.
    pub task_timeout: usize,
    /// Socket read timeout
    pub read_timeout: Duration,
    /// Socket write timeout
    pub write_timeout: Duration,
    /// How long an idle socket of a connection pool is kept
    pub idle_timeout: Duration,
    /// Connect timeout
    pub connect_timeout: Duration,
    /// How many requests may be in flight, so as not to overflow the server
    pub thresholds: usize,
    /// In bytes; when non-zero, replaces the transport's default buffer size
    pub stream_buf_size: usize,
}

impl Default for ClientConfig {
    /// The default client configuration.
    fn default() -> (r: ClientConfig)
        ensures
            r.task_timeout == 20,
            r.read_timeout == secs_duration(5),
            r.write_timeout == secs_duration(5),
            r.idle_timeout == secs_duration(120),
            r.connect_timeout == secs_duration(10),
            r.thresholds == 128,
            r.stream_buf_size == 0,
    {
        ClientConfig {
            task_timeout: 20,
            read_timeout: Duration::from_secs(5),
            write_timeout: Duration::from_secs(5),
            idle_timeout: Duration::from_secs(120),
            connect_timeout: Duration::from_secs(10),
            thresholds: 128,
            stream_buf_size: 0,
        }
    }
}

/// General configuration of the server side.
#[derive(Clone)]
pub struct ServerConfig {
    /// Socket read timeout
    pub read_timeout: Duration,
    /// Socket write timeout
    pub write_timeout: Duration,
    /// How long an idle socket is kept
    pub idle_timeout: Duration,
    /// How long closing the server waits for its connections to close
    pub server_close_wait: Duration,
    /// In bytes; when non-zero, replaces the transport's default buffer size
    pub stream_buf_size: usize,
}

impl Default for ServerConfig {
    /// The default server configuration.
    fn default() -> (r: ServerConfig)
        ensures
            r.read_timeout == secs_duration(5),
            r.write_timeout == secs_duration(5),
            r.idle_timeout == secs_duration(120),
            r.server_close_wait == secs_duration(90),
            r.stream_buf_size == 0,
    {
        ServerConfig {
            read_timeout: Duration::from_secs(5),
            write_timeout: Duration::from_secs(5),
            idle_timeout: Duration::from_secs(120),
            server_close_wait: Duration::from_secs(90),
            stream_buf_size: 0,
        }
    }
}

} // verus!
