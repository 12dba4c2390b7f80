use vstd::prelude::*;
use vstd::string::StringExecFns;
use crate::error::GateioError;
use crate::key::{now_utc, rfc3339_writable, GateioKey, SignError, UtcTime};
use crate::request::{headers_view, spec_method, HttpRequest, WireRequest};

verus! {

/// Base URL of the v4 REST API of Gate.io.
pub open spec fn default_host() -> Seq<char> {
    "https://api.gateio.ws/api/v4"@
}

/// Transport adapter for Gate.io: where requests go, and the key
/// that signs them when there is one.
#[derive(Debug, Clone)]
pub struct GateioHttpApi {
    pub host: String,
    pub key: Option<GateioKey>,
}

impl GateioHttpApi {
    /// Adapter for the default Gate.io base URL, without a key.
    pub fn new() -> (r: Self)
        ensures
            r.host@ == default_host(),
            r.key.is_none(),
    {
        GateioHttpApi { host: String::from_str("https://api.gateio.ws/api/v4"), key: None }
    }

    /// Set the API key.
    pub fn key(self, key: GateioKey) -> (r: Self)
        ensures
            r.host == self.host,
            r.key == Some(key),
    {
        GateioHttpApi { host: self.host, key: Some(key) }
    }

    /// Set the host.
    pub fn host(self, host: &str) -> (r: Self)
        ensures
            r.host@ == host@,
            r.key == self.key,
    {
        GateioHttpApi { host: String::from_str(host), key: self.key }
    }

    /// Wire form of a request, signed at `time` when the adapter has a key.
    pub fn prepare_at(&self, req: &HttpRequest, time: UtcTime) -> (r: Result<WireRequest, GateioError>)
        ensures
            r is Ok == (self.key.is_none() || rfc3339_writable(time.unix_nanos as int)),
            r matches Err(e) ==> e == GateioError::Sign(SignError::Timestamp),
            r matches Ok(w) ==> w.method@ == spec_method() && w.uri@ == req.spec_uri(self.host@)
                && headers_view(w.headers@) == req.spec_headers(self.key, time.unix_nanos as int),
    {
        let key: Option<&GateioKey> = match &self.key {
            Some(k) => Some(k),
            None => None,
        };
        match req.to_request_at(self.host.as_str(), key, time) {
            Ok(w) => Ok(w),
            Err(e) => Err(GateioError::Sign(e)),
        }
    }

    /// Wire form of a request, signed now when the adapter has a key.
    pub fn prepare(&self, req: &HttpRequest) -> (r: Result<WireRequest, GateioError>)
        ensures
            self.key.is_none() ==> r is Ok,
            r matches Err(e) ==> e == GateioError::Sign(SignError::Timestamp),
            r matches Ok(w) ==> w.method@ == spec_method() && w.uri@ == req.spec_uri(self.host@)
                && exists|t: int|
                #![trigger req.spec_headers(None, t)]
                (self.key.is_some() ==> rfc3339_writable(t)) && headers_view(w.headers@)
                    == req.spec_headers(self.key, t),
    {
        let now = now_utc();
        let r = self.prepare_at(req, now);
        assert(req.spec_headers(None, now.unix_nanos as int).len() == 0);
        r
    }
}

} // verus!
