use vstd::prelude::*;
use vstd::string::StringExecFns;
use crate::key::GateioKey;
use crate::layer::{default_host, GateioHttpApi};

verus! {

/// Pending requests that an endpoint queues by default.
pub const DEFAULT_BUFFER: usize = 128;

/// Endpoint configuration: host, optional key, and the capacity of the
/// dispatch queue.
#[derive(Debug, Clone)]
pub struct Endpoint {
    pub host: String,
    pub key: Option<GateioKey>,
    pub buffer: usize,
}

impl Endpoint {
    /// The dispatch queue has room for at least one request.
    pub open spec fn wf(&self) -> bool {
        self.buffer > 0
    }

    /// Set a custom host.
    pub fn host(self, host: &str) -> (r: Self)
        ensures
            r.host@ == host@,
            r.key == self.key,
            r.buffer == self.buffer,
    {
        Endpoint { host: String::from_str(host), key: self.key, buffer: self.buffer }
    }

    /// Private mode: sign every request with `key`.
    pub fn private(self, key: GateioKey) -> (r: Self)
        ensures
            r.host == self.host,
            r.key == Some(key),
            r.buffer == self.buffer,
    {
        Endpoint { host: self.host, key: Some(key), buffer: self.buffer }
    }

    /// Set the capacity of the dispatch queue.
    pub fn buffer(self, cap: usize) -> (r: Self)
        requires
            cap > 0,
        ensures
            r.host == self.host,
            r.key == self.key,
            r.buffer == cap,
    {
        Endpoint { host: self.host, key: self.key, buffer: cap }
    }

    /// The transport adapter that this endpoint configures.
    pub fn api(self) -> (r: GateioHttpApi)
        ensures
            r.host@ == self.host@,
            r.key == self.key,
    {
        let api = GateioHttpApi::new().host(self.host.as_str());
        match self.key {
            Some(k) => api.key(k),
            None => api,
        }
    }
}

impl Default for Endpoint {
    /// Default Gate.io base URL, public mode, a queue of the default capacity.
    fn default() -> (r: Self)
        ensures
            r.host@ == default_host(),
            r.key.is_none(),
            r.buffer == DEFAULT_BUFFER,
            r.wf(),
    {
        Endpoint {
            host: String::from_str("https://api.gateio.ws/api/v4"),
            key: None,
            buffer: DEFAULT_BUFFER,
        }
    }
}

} // verus!
