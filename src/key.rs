use vstd::prelude::*;
use vstd::string::StringExecFns;
use vstd::utf8::encode_utf8;

verus! {

/// What HMAC-SHA512 yields for a key and a message.
pub uninterp spec fn hmac_sha512_of(key: Seq<u8>, msg: Seq<u8>) -> Seq<u8>;

/// What SHA-512 yields for a message.
pub uninterp spec fn sha512_of(msg: Seq<u8>) -> Seq<u8>;

/// The RFC 3339 text of the UTC instant lying `unix_nanos` nanoseconds after the Unix epoch.
pub uninterp spec fn rfc3339_text(unix_nanos: int) -> Seq<char>;

/// Earliest instant that RFC 3339 can write (0000-01-01T00:00:00Z), in Unix nanoseconds.
pub const RFC3339_MIN_NANOS: i128 = -62167219200000000000;

/// Latest instant that RFC 3339 can write (9999-12-31T23:59:59.999999999Z), in Unix nanoseconds.
pub const RFC3339_MAX_NANOS: i128 = 253402300799999999999;

/// Lowercase hexadecimal digits.
pub open spec fn hex_digits() -> Seq<char> {
    seq!['0', '1', '2', '3', '4', '5', '6', '7', '8', '9', 'a', 'b', 'c', 'd', 'e', 'f']
}

/// Lowercase hexadecimal text of a byte string, two digits per byte, high nibble first.
pub open spec fn hex_lower(b: Seq<u8>) -> Seq<char>
    decreases b.len(),
{
    if b.len() == 0 {
        seq![]
    } else {
        seq![hex_digits()[b[0] as int / 16], hex_digits()[b[0] as int % 16]] + hex_lower(b.drop_first())
    }
}

/// An absent optional text reads as empty.
pub open spec fn text_or_empty(s: Option<Seq<char>>) -> Seq<char> {
    match s {
        Some(t) => t,
        None => seq![],
    }
}

/// The newline-joined text that a request signature authenticates.
pub open spec fn canonical_text(
    method: Seq<char>,
    path: Seq<char>,
    query: Seq<char>,
    body_hash: Seq<char>,
    timestamp: Seq<char>,
) -> Seq<char> {
    method + "\n"@ + path + "\n"@ + query + "\n"@ + body_hash + "\n"@ + timestamp
}

/// Lowercase hex of the SHA-512 digest of the body (empty when absent).
pub open spec fn body_hash(body: Option<Seq<char>>) -> Seq<char> {
    hex_lower(sha512_of(encode_utf8(text_or_empty(body))))
}

/// The signature, in lowercase hex, of a request signed at the given timestamp text.
pub open spec fn signature_text(
    secret: Seq<char>,
    method: Seq<char>,
    path: Seq<char>,
    query: Option<Seq<char>>,
    body: Option<Seq<char>>,
    timestamp: Seq<char>,
) -> Seq<char> {
    hex_lower(
        hmac_sha512_of(
            encode_utf8(secret),
            encode_utf8(
                canonical_text(method, path, text_or_empty(query), body_hash(body), timestamp),
            ),
        ),
    )
}

/// Whether RFC 3339 can write the instant.
pub open spec fn rfc3339_writable(unix_nanos: int) -> bool {
    RFC3339_MIN_NANOS <= unix_nanos <= RFC3339_MAX_NANOS
}

/// Relies on hex::encode: lowercase hex, two digits per byte, in order.
#[verifier::external_body]
fn hex_encode(b: &[u8]) -> (r: String)
    ensures
        r@ == hex_lower(b@),
{
    hex::encode(b)
}

/// Relies on sha2's Sha512::digest: the 64-byte SHA-512 digest of the message.
#[verifier::external_body]
fn sha512(msg: &[u8]) -> (r: Vec<u8>)
    ensures
        r@ == sha512_of(msg@),
        r@.len() == 64,
{
    <sha2::Sha512 as sha2::Digest>::digest(msg).to_vec()
}

/// Relies on hmac's Hmac<Sha512>: `new_from_slice` (which accepts a key of any
/// length), then `update` with the message and `finalize`.
#[verifier::external_body]
fn hmac_sha512(key: &[u8], msg: &[u8]) -> (r: Option<Vec<u8>>)
    ensures
        r.is_some(),
        r matches Some(m) ==> m@ == hmac_sha512_of(key@, msg@),
{
    match <hmac::Hmac<sha2::Sha512> as hmac::Mac>::new_from_slice(key) {
        Ok(mut mac) => {
            hmac::Mac::update(&mut mac, msg);
            Some(hmac::Mac::finalize(mac).into_bytes().to_vec())
        },
        Err(_) => None,
    }
}

/// Relies on time's OffsetDateTime::from_unix_timestamp_nanos and its `format`
/// with `Rfc3339`, which fails exactly for years outside 0..=9999 once the
/// offset is UTC.
#[verifier::external_body]
fn format_rfc3339(unix_nanos: i128) -> (r: Option<String>)
    ensures
        r.is_some() == rfc3339_writable(unix_nanos as int),
        r matches Some(s) ==> s@ == rfc3339_text(unix_nanos as int),
{
    match time::OffsetDateTime::from_unix_timestamp_nanos(unix_nanos) {
        Ok(t) => t.format(&time::format_description::well_known::Rfc3339).ok(),
        Err(_) => None,
    }
}

/// Relies on time's OffsetDateTime::now_utc: the current instant, whatever it is.
#[verifier::external_body]
pub(crate) fn now_utc() -> (r: UtcTime) {
    UtcTime { unix_nanos: time::OffsetDateTime::now_utc().unix_timestamp_nanos() }
}

/// A UTC instant, in nanoseconds since the Unix epoch.
#[derive(Debug, Clone, Copy, PartialEq, Eq, Structural)]
pub struct UtcTime {
    pub unix_nanos: i128,
}

/// Signing error.
#[derive(Debug, Clone, Copy, PartialEq, Eq, Structural)]
pub enum SignError {
    /// The secret cannot key the HMAC.
    SecretKeyLength,
    /// The timestamp cannot be written as RFC 3339.
    Timestamp,
}

/// Gate.io API key: a public key identifier and its secret.
#[derive(Debug, Clone)]
pub struct GateioKey {
    /// API key.
    pub key: String,
    /// Secret.
    pub secret: String,
}

/// A request signature together with the timestamp text that was signed.
#[derive(Debug, Clone)]
pub struct Signature {
    /// Lowercase hex HMAC-SHA512 signature.
    pub sign: String,
    /// RFC 3339 timestamp used.
    pub timestamp: String,
}

impl GateioKey {
    /// Create a new key.
    pub fn new(key: &str, secret: &str) -> (r: Self)
        ensures
            r.key@ == key@,
            r.secret@ == secret@,
    {
        GateioKey { key: String::from_str(key), secret: String::from_str(secret) }
    }

    /// Sign a request at a given instant.
    pub fn sign_at(
        &self,
        method: &str,
        path: &str,
        query: Option<&str>,
        body: Option<&str>,
        time: UtcTime,
    ) -> (r: Result<Signature, SignError>)
        ensures
            r is Ok == rfc3339_writable(time.unix_nanos as int),
            r matches Err(e) ==> e == SignError::Timestamp,
            r matches Ok(s) ==> s.timestamp@ == rfc3339_text(time.unix_nanos as int)
                && s.sign@ == signature_text(
                self.secret@,
                method@,
                path@,
                match query { Some(q) => Some(q@), None => None },
                match body { Some(b) => Some(b@), None => None },
                s.timestamp@,
            ),
    {
        let ts = match format_rfc3339(time.unix_nanos) {
            Some(ts) => ts,
            None => return Err(SignError::Timestamp),
        };
        let digest = match body {
            Some(b) => sha512(b.as_bytes()),
            None => {
                let empty: Vec<u8> = Vec::new();
                sha512(empty.as_slice())
            },
        };
        let hashed = hex_encode(digest.as_slice());
        let mut raw = String::from_str(method);
        raw.append("\n");
        raw.append(path);
        raw.append("\n");
        match query {
            Some(q) => raw.append(q),
            None => {},
        }
        raw.append("\n");
        raw.append(hashed.as_str());
        raw.append("\n");
        raw.append(ts.as_str());
        let mac = match hmac_sha512(self.secret.as_str().as_bytes(), raw.as_str().as_bytes()) {
            Some(m) => m,
            None => return Err(SignError::SecretKeyLength),
        };
        let sign = hex_encode(mac.as_slice());
        Ok(Signature { sign, timestamp: ts })
    }

    /// Sign a request at the current instant.
    pub fn sign_now(&self, method: &str, path: &str, query: Option<&str>, body: Option<&str>) -> (r:
        Result<Signature, SignError>)
        ensures
            r matches Err(e) ==> e == SignError::Timestamp,
            r matches Ok(s) ==> exists|t: int|
                #![trigger rfc3339_text(t)]
                rfc3339_writable(t) && s.timestamp@ == rfc3339_text(t),
            r matches Ok(s) ==> s.sign@ == signature_text(
                self.secret@,
                method@,
                path@,
                match query { Some(q) => Some(q@), None => None },
                match body { Some(b) => Some(b@), None => None },
                s.timestamp@,
            ),
    {
        self.sign_at(method, path, query, body, now_utc())
    }
}

/// The signed text ends in the timestamp: signing one request at two distinct
/// timestamp texts authenticates two distinct messages.
pub proof fn lemma_distinct_timestamps_distinct_messages(
    method: Seq<char>,
    path: Seq<char>,
    query: Seq<char>,
    body_hash: Seq<char>,
    t1: Seq<char>,
    t2: Seq<char>,
)
    requires
        t1 != t2,
    ensures
        canonical_text(method, path, query, body_hash, t1) != canonical_text(
            method,
            path,
            query,
            body_hash,
            t2,
        ),
{
    let prefix = method + "\n"@ + path + "\n"@ + query + "\n"@ + body_hash + "\n"@;
    let c1 = canonical_text(method, path, query, body_hash, t1);
    let c2 = canonical_text(method, path, query, body_hash, t2);
    assert(c1 == prefix + t1);
    assert(c2 == prefix + t2);
    if c1 == c2 {
        assert(t1 =~= c1.subrange(prefix.len() as int, c1.len() as int));
        assert(t2 =~= c2.subrange(prefix.len() as int, c2.len() as int));
    }
}

} // verus!
