//! The run's configuration: how many probes may be in flight at once, the
//! per-request deadline, and whether certificate validation is skipped.
use vstd::prelude::*;

verus! {

/// Number of descriptors reserved beyond one per connection, for the
/// standard streams and what the runtime itself holds open.
pub const DESCRIPTOR_MARGIN: u64 = 10;

/// Default cap on simultaneous in-flight requests.
pub const DEFAULT_CONNECTIONS: u64 = 1000;

/// Default per-request deadline, in seconds.
pub const DEFAULT_TIMEOUT_SECS: u64 = 10;

/// Settings fixed at startup and shared, read-only, by every probe.
#[derive(Clone, Copy, Debug, PartialEq, Eq, Structural)]
pub struct Config {
    /// Upper bound on simultaneous in-flight requests.
    pub connections: u64,
    /// Per-request deadline, in seconds.
    pub timeout: u64,
    /// Skip TLS certificate validation.
    pub insecure: bool,
}

/// Why a configuration cannot be used.
#[derive(Clone, Copy, Debug, PartialEq, Eq, Structural)]
pub enum ConfigError {
    /// The concurrency cap is zero.
    NoConnections,
    /// The request deadline is zero.
    NoTimeout,
    /// The cap plus the descriptor margin does not fit in a `u64`.
    TooManyConnections,
}

/// The descriptor count a run with `connections` slots asks for.
pub open spec fn descriptors_for(connections: u64) -> int {
    connections + DESCRIPTOR_MARGIN
}

impl Config {
    /// A configuration is usable when both limits are positive and the
    /// descriptor requirement is representable.
    pub open spec fn valid(&self) -> bool {
        &&& self.connections >= 1
        &&& self.timeout >= 1
        &&& descriptors_for(self.connections) <= u64::MAX
    }

    /// The error `validate` reports for this configuration, if any.
    pub open spec fn spec_error(&self) -> Option<ConfigError> {
        if self.connections == 0 {
            Some(ConfigError::NoConnections)
        } else if self.timeout == 0 {
            Some(ConfigError::NoTimeout)
        } else if descriptors_for(self.connections) > u64::MAX {
            Some(ConfigError::TooManyConnections)
        } else {
            None
        }
    }

    pub fn new(connections: u64, timeout: u64, insecure: bool) -> (r: Config)
        ensures
            r.connections == connections,
            r.timeout == timeout,
            r.insecure == insecure,
    {
        Config { connections, timeout, insecure }
    }

    /// Accepts the configuration unchanged, or names the first limit that
    /// makes it unusable.
    pub fn validate(self) -> (r: Result<Config, ConfigError>)
        ensures
            r is Ok <==> self.valid(),
            r is Ok ==> r == Ok::<Config, ConfigError>(self),
            r is Err ==> Some(r->Err_0) == self.spec_error(),
            self.valid() <==> self.spec_error() is None,
    {
        if self.connections == 0 {
            Err(ConfigError::NoConnections)
        } else if self.timeout == 0 {
            Err(ConfigError::NoTimeout)
        } else if self.connections > u64::MAX - DESCRIPTOR_MARGIN {
            Err(ConfigError::TooManyConnections)
        } else {
            Ok(self)
        }
    }

    /// Descriptors the run needs: one per connection plus a fixed margin.
    pub fn descriptors_needed(&self) -> (r: u64)
        requires
            self.valid(),
        ensures
            r == descriptors_for(self.connections),
    {
        self.connections + DESCRIPTOR_MARGIN
    }
}

impl Default for Config {
    fn default() -> (r: Config)
        ensures
            r.connections == DEFAULT_CONNECTIONS,
            r.timeout == DEFAULT_TIMEOUT_SECS,
            !r.insecure,
    {
        Config { connections: DEFAULT_CONNECTIONS, timeout: DEFAULT_TIMEOUT_SECS, insecure: false }
    }
}

} // verus!
