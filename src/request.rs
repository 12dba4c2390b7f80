use vstd::prelude::*;
use vstd::string::StringExecFns;
use crate::key::{
    now_utc, rfc3339_text, rfc3339_writable, signature_text, GateioKey, SignError, Signature, UtcTime,
};

verus! {

/// The closed set of supported REST operations.
#[derive(Debug, Clone)]
pub enum HttpRequest {
    /// List futures tickers, optionally filtered to one contract.
    ListFuturesTickers { settle: String, contract: Option<String> },
    /// Get a single futures contract.
    GetFuturesContract { settle: String, contract: String },
    /// List all futures contracts.
    ListFuturesContracts { settle: String },
    /// List all currencies' details.
    ListCurrencies,
    /// Get details of a specific currency.
    GetCurrency { currency: String },
}

/// The HTTP verb of every supported operation.
pub open spec fn spec_method() -> Seq<char> {
    "GET"@
}

/// An HTTP request ready for the transport: method, full URI and headers.
#[derive(Debug, Clone)]
pub struct WireRequest {
    pub method: String,
    pub uri: String,
    pub headers: Vec<(String, String)>,
}

/// Header names and values as text.
pub open spec fn headers_view(h: Seq<(String, String)>) -> Seq<(Seq<char>, Seq<char>)> {
    h.map_values(|p: (String, String)| (p.0@, p.1@))
}

/// The authentication headers for a key and a signature.
pub open spec fn auth_headers(key: Seq<char>, timestamp: Seq<char>, sign: Seq<char>) -> Seq<
    (Seq<char>, Seq<char>),
> {
    seq![("KEY"@, key), ("Timestamp"@, timestamp), ("SIGN"@, sign)]
}

impl HttpRequest {
    /// The URL path of the operation, its fields interpolated in place.
    pub open spec fn spec_path(&self) -> Seq<char> {
        match self {
            HttpRequest::ListFuturesTickers { settle, .. } => "/futures/"@ + settle@ + "/tickers"@,
            HttpRequest::GetFuturesContract { settle, contract } => "/futures/"@ + settle@
                + "/contracts/"@ + contract@,
            HttpRequest::ListFuturesContracts { settle } => "/futures/"@ + settle@
                + "/contracts"@,
            HttpRequest::ListCurrencies => "/spot/currencies"@,
            HttpRequest::GetCurrency { currency } => "/spot/currencies/"@ + currency@,
        }
    }

    /// The query string: present only for a ticker listing with a contract filter.
    pub open spec fn spec_query(&self) -> Option<Seq<char>> {
        match self {
            HttpRequest::ListFuturesTickers { contract: Some(c), .. } => Some("contract="@ + c@),
            _ => None,
        }
    }

    /// The full URI for a given host: host, path, and `?query` when there is a query.
    pub open spec fn spec_uri(&self, host: Seq<char>) -> Seq<char> {
        match self.spec_query() {
            Some(q) => host + self.spec_path() + "?"@ + q,
            None => host + self.spec_path(),
        }
    }

    /// HTTP method of the operation.
    pub fn method(&self) -> (r: &'static str)
        ensures
            r@ == spec_method(),
    {
        "GET"
    }

    /// URL path of the operation.
    pub fn path(&self) -> (r: String)
        ensures
            r@ == self.spec_path(),
    {
        match self {
            HttpRequest::ListFuturesTickers { settle, .. } => {
                let mut s = String::from_str("/futures/");
                s.append(settle.as_str());
                s.append("/tickers");
                s
            },
            HttpRequest::GetFuturesContract { settle, contract } => {
                let mut s = String::from_str("/futures/");
                s.append(settle.as_str());
                s.append("/contracts/");
                s.append(contract.as_str());
                s
            },
            HttpRequest::ListFuturesContracts { settle } => {
                let mut s = String::from_str("/futures/");
                s.append(settle.as_str());
                s.append("/contracts");
                s
            },
            HttpRequest::ListCurrencies => String::from_str("/spot/currencies"),
            HttpRequest::GetCurrency { currency } => {
                let mut s = String::from_str("/spot/currencies/");
                s.append(currency.as_str());
                s
            },
        }
    }

    /// Query string of the operation, if it has one.
    pub fn query(&self) -> (r: Option<String>)
        ensures
            r.is_some() == self.spec_query().is_some(),
            r matches Some(q) ==> self.spec_query() == Some(q@),
    {
        match self {
            HttpRequest::ListFuturesTickers { contract: Some(c), .. } => {
                let mut s = String::from_str("contract=");
                s.append(c.as_str());
                Some(s)
            },
            _ => None,
        }
    }

    /// Full URI of the operation under `host`.
    pub fn uri(&self, host: &str) -> (r: String)
        ensures
            r@ == self.spec_uri(host@),
    {
        let path = self.path();
        let query = self.query();
        let mut s = String::from_str(host);
        s.append(path.as_str());
        match query {
            Some(q) => {
                s.append("?");
                s.append(q.as_str());
            },
            None => {},
        }
        s
    }
}

impl HttpRequest {
    /// The signature text of this request under a secret, signed at the given timestamp text.
    pub open spec fn spec_signature(&self, secret: Seq<char>, timestamp: Seq<char>) -> Seq<char> {
        signature_text(secret, spec_method(), self.spec_path(), self.spec_query(), None, timestamp)
    }

    /// The headers of this request: none without a key, else the key's id, the
    /// timestamp text and the signature.
    pub open spec fn spec_headers(&self, key: Option<GateioKey>, unix_nanos: int) -> Seq<
        (Seq<char>, Seq<char>),
    > {
        match key {
            None => seq![],
            Some(k) => auth_headers(
                k.key@,
                rfc3339_text(unix_nanos),
                self.spec_signature(k.secret@, rfc3339_text(unix_nanos)),
            ),
        }
    }

    /// Build the wire form of this request for `host`, signed at `time` when a key is given.
    pub fn to_request_at(&self, host: &str, key: Option<&GateioKey>, time: UtcTime) -> (r: Result<
        WireRequest,
        SignError,
    >)
        ensures
            r is Ok == (key.is_none() || rfc3339_writable(time.unix_nanos as int)),
            r matches Err(e) ==> e == SignError::Timestamp,
            r matches Ok(w) ==> w.method@ == spec_method() && w.uri@ == self.spec_uri(host@)
                && headers_view(w.headers@) == self.spec_headers(
                match key { Some(k) => Some(*k), None => None },
                time.unix_nanos as int,
            ),
    {
        let method = self.method();
        let path = self.path();
        let query = self.query();
        let uri = self.uri(host);
        let mut headers: Vec<(String, String)> = Vec::new();
        match key {
            Some(k) => {
                let q: Option<&str> = match &query {
                    Some(q) => Some(q.as_str()),
                    None => None,
                };
                let sign = match k.sign_at(method, path.as_str(), q, None, time) {
                    Ok(s) => s,
                    Err(e) => return Err(e),
                };
                headers.push((String::from_str("KEY"), k.key.clone()));
                headers.push((String::from_str("Timestamp"), sign.timestamp));
                headers.push((String::from_str("SIGN"), sign.sign));
                assert(headers_view(headers@) =~= self.spec_headers(Some(*k), time.unix_nanos as int));
            },
            None => {
                assert(headers_view(headers@) =~= seq![]);
            },
        }
        Ok(WireRequest { method: String::from_str(method), uri, headers })
    }

    /// Build the wire form of this request for `host`, signed now when a key is given.
    pub fn to_request(&self, host: &str, key: Option<&GateioKey>) -> (r: Result<WireRequest, SignError>)
        ensures
            key.is_none() ==> r is Ok,
            r matches Err(e) ==> e == SignError::Timestamp,
            r matches Ok(w) ==> w.method@ == spec_method() && w.uri@ == self.spec_uri(host@)
                && exists|t: int|
                #![trigger self.spec_headers(None, t)]
                (key.is_some() ==> rfc3339_writable(t)) && headers_view(w.headers@)
                    == self.spec_headers(
                    match key { Some(k) => Some(*k), None => None },
                    t,
                ),
    {
        let now = now_utc();
        let r = self.to_request_at(host, key, now);
        assert(self.spec_headers(None, now.unix_nanos as int).len() == 0);
        r
    }
}

/// Shaping is a function of the request: equal requests give equal paths,
/// queries and URIs.
pub proof fn lemma_shaping_deterministic(a: HttpRequest, b: HttpRequest, host: Seq<char>)
    requires
        a == b,
    ensures
        a.spec_path() == b.spec_path(),
        a.spec_query() == b.spec_query(),
        a.spec_uri(host) == b.spec_uri(host),
{
}

/// A query exists exactly for a ticker listing with its contract filter set,
/// and then reads `contract=<filter>`.
pub proof fn lemma_query_iff_filter(r: HttpRequest)
    ensures
        r.spec_query().is_some() == (r matches HttpRequest::ListFuturesTickers {
            contract: Some(_),
            ..
        }),
        r matches HttpRequest::ListFuturesTickers { contract: Some(c), .. } ==> r.spec_query()
            == Some("contract="@ + c@),
{
}

/// With a host and a path free of `?`, the URI holds a `?` exactly when the
/// request has a query.
pub proof fn lemma_question_mark_iff_query(r: HttpRequest, host: Seq<char>)
    requires
        !host.contains('?'),
        !r.spec_path().contains('?'),
    ensures
        r.spec_uri(host).contains('?') == r.spec_query().is_some(),
{
    reveal_strlit("?");
    let u = r.spec_uri(host);
    let p = r.spec_path();
    match r.spec_query() {
        Some(q) => {
            assert(u[host.len() + p.len() as int] == '?');
        },
        None => {
            assert(u =~= host + p);
            if u.contains('?') {
                let i = choose|i: int| 0 <= i < u.len() && u[i] == '?';
                if i < host.len() {
                    assert(host[i] == '?');
                } else {
                    assert(p[i - host.len()] == '?');
                }
            }
        },
    }
}

} // verus!
