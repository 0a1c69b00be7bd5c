//! The delivery client for the log-ingestion endpoint: it holds the
//! customer's identity and decoded signing key, and prepares the URL and
//! headers — including the HMAC-SHA256 `Authorization` value — for one
//! signed POST of a JSON batch. Performing the POST itself is left to the
//! caller; [`interpret_response`] classifies what came back.

use vstd::prelude::*;

use crate::numfmt::{spec_decimal, u64_to_string};

verus! {

/// The longest HMAC key the crypto layer accepts.
pub const MAX_KEY_LEN: usize = 0x7fff_ffff;

/// What base64 decoding (standard alphabet, padded) yields for a character
/// sequence: the decoded bytes, or nothing when the input is not valid
/// base64.
pub uninterp spec fn b64_decoded(s: Seq<char>) -> Option<Seq<u8>>;

/// What base64 encoding (standard alphabet, padded) yields for a byte
/// sequence.
pub uninterp spec fn b64_of(bytes: Seq<u8>) -> Seq<char>;

/// The HMAC-SHA256 digest of a message under a key; the message is given by
/// its characters and digested as their UTF-8 bytes.
pub uninterp spec fn hmac_sha256_of(key: Seq<u8>, msg: Seq<char>) -> Seq<u8>;

/// Relies on base64's standard-alphabet engine decode: the result depends
/// on the input alone, and decoded output is never longer than its input.
#[verifier::external_body]
fn base64_decode(s: &str) -> (r: Option<Vec<u8>>)
    ensures
        match r {
            Some(v) => b64_decoded(s@) == Some(v@) && v@.len() <= s@.len(),
            None => b64_decoded(s@) is None,
        },
{
    match base64::Engine::decode(&base64::engine::general_purpose::STANDARD, s) {
        Ok(v) => Some(v),
        Err(_) => None,
    }
}

/// Relies on base64's standard-alphabet engine encode: the result depends
/// on the input bytes alone.
#[verifier::external_body]
fn base64_encode(bytes: &Vec<u8>) -> (r: String)
    ensures
        r@ == b64_of(bytes@),
{
    base64::Engine::encode(&base64::engine::general_purpose::STANDARD, bytes.as_slice())
}

/// Relies on openssl's `PKey::hmac` and `Signer` with SHA-256: the digest
/// depends on the key bytes and message alone. `PKey::hmac` refuses keys
/// longer than a C `int` holds, hence the bound.
#[verifier::external_body]
fn hmac_sha256(key: &Vec<u8>, msg: &str) -> (r: Option<Vec<u8>>)
    requires
        key@.len() <= MAX_KEY_LEN,
    ensures
        r matches Some(v) ==> v@ == hmac_sha256_of(key@, msg@),
{
    let pkey = openssl::pkey::PKey::hmac(key.as_slice()).ok()?;
    let digest = openssl::hash::MessageDigest::sha256();
    let mut signer = openssl::sign::Signer::new(digest, &pkey).ok()?;
    signer.update(msg.as_bytes()).ok()?;
    signer.sign_to_vec().ok()
}

/// Relies on chrono's `Utc::now`: the current unix time in milliseconds.
#[verifier::external_body]
pub fn now_unix_millis() -> (r: i64) {
    chrono::Utc::now().timestamp_millis()
}

/// What chrono's strftime rendering `%a, %d %b %Y %T GMT` yields for a
/// unix-millisecond timestamp in UTC — an RFC 1123 date — or the empty
/// sequence when the value is outside chrono's representable range.
pub uninterp spec fn http_date_of(ms: i64) -> Seq<char>;

/// Relies on chrono's `DateTime::from_timestamp_millis` and strftime
/// formatting: the rendering depends on the millisecond value alone;
/// an out-of-range value yields the empty string.
#[verifier::external_body]
pub fn http_date_of_millis(ms: i64) -> (r: String)
    ensures
        r@ == http_date_of(ms),
{
    match chrono::DateTime::<chrono::Utc>::from_timestamp_millis(ms) {
        Some(d) => d.format("%a, %d %b %Y %T GMT").to_string(),
        None => String::new(),
    }
}

/// The RFC 1123 date header value for a request prepared now.
pub fn current_date() -> String {
    http_date_of_millis(now_unix_millis())
}

/// An opaque customer identifier for the ingestion endpoint.
#[derive(Clone, Debug)]
pub struct CustomerId(String);

impl View for CustomerId {
    type V = Seq<char>;

    closed spec fn view(&self) -> Seq<char> {
        self.0@
    }
}

impl CustomerId {
    pub fn as_str(&self) -> (r: &str)
        ensures
            r@ == self@,
    {
        self.0.as_str()
    }
}

/// The base64-encoded shared secret the requests are signed with.
#[derive(Clone, Debug)]
pub struct SharedKey(String);

impl View for SharedKey {
    type V = Seq<char>;

    closed spec fn view(&self) -> Seq<char> {
        self.0@
    }
}

impl SharedKey {
    pub fn as_str(&self) -> (r: &str)
        ensures
            r@ == self@,
    {
        self.0.as_str()
    }
}

/// Identity and secret for the ingestion endpoint.
#[derive(Clone, Debug)]
pub struct ClientConfig {
    customer_id: CustomerId,
    shared_key: SharedKey,
}

impl ClientConfig {
    pub fn new(customer_id: &str, shared_key: &str) -> (r: ClientConfig)
        ensures
            r.spec_customer_id() == customer_id@,
            r.spec_shared_key() == shared_key@,
    {
        ClientConfig {
            customer_id: CustomerId(customer_id.to_owned()),
            shared_key: SharedKey(shared_key.to_owned()),
        }
    }

    pub fn into_parts(self) -> (r: (CustomerId, SharedKey))
        ensures
            r.0@ == self.spec_customer_id(),
            r.1@ == self.spec_shared_key(),
    {
        (self.customer_id, self.shared_key)
    }

    /// The customer identifier this configuration names.
    pub closed spec fn spec_customer_id(&self) -> Seq<char> {
        self.customer_id@
    }

    /// The encoded shared key this configuration holds.
    pub closed spec fn spec_shared_key(&self) -> Seq<char> {
        self.shared_key@
    }
}

/// The ingestion URL for a customer.
pub open spec fn spec_url(customer_id: Seq<char>) -> Seq<char> {
    "https://"@ + customer_id + ".ods.opinsights.azure.com/api/logs?api-version=2016-04-01"@
}

/// The exact string the protocol signs for one request: method, content
/// length, content type, date header and resource path, newline-separated.
pub open spec fn spec_string_to_sign(content_length: nat, date: Seq<char>) -> Seq<char> {
    "POST\n"@ + spec_decimal(content_length) + "\napplication/json\nx-ms-date:"@ + date
        + "\n/api/logs"@
}

/// The base64-encoded HMAC-SHA256 signature of one request.
pub open spec fn spec_signature(key: Seq<u8>, content_length: nat, date: Seq<char>) -> Seq<char> {
    b64_of(hmac_sha256_of(key, spec_string_to_sign(content_length, date)))
}

/// The full `Authorization` header value of one request.
pub open spec fn spec_authorization(
    customer_id: Seq<char>,
    key: Seq<u8>,
    content_length: nat,
    date: Seq<char>,
) -> Seq<char> {
    "SharedKey "@ + customer_id + ":"@ + spec_signature(key, content_length, date)
}

/// Why a client could not be constructed.
#[derive(Clone, Copy, Debug, PartialEq, Eq, Structural)]
pub enum ClientError {
    /// The shared key is not valid base64.
    InvalidSharedKey,
}

impl ClientError {
    /// A human-readable description of the error.
    pub fn message(&self) -> (r: &'static str)
        ensures
            r@ == "shared key is not valid base64"@,
    {
        "shared key is not valid base64"
    }
}

/// A response to a delivery attempt that was not success.
#[derive(Clone, Debug, PartialEq)]
pub struct SendError {
    /// The HTTP status the endpoint answered with.
    pub status: u16,
    /// The text of the response body, kept for diagnosis.
    pub body: String,
}

impl SendError {
    /// A human-readable description naming the status and the body text.
    pub fn message(&self) -> (r: String)
        ensures
            r@ == "unexpected response status "@ + spec_decimal(self.status as nat) + ": "@
                + self.body@,
    {
        let mut s = String::new();
        s.append("unexpected response status ");
        let num = u64_to_string(self.status as u64);
        s.append(num.as_str());
        s.append(": ");
        s.append(self.body.as_str());
        proof {
            assert(s@ =~= "unexpected response status "@ + spec_decimal(self.status as nat) + ": "@
                + self.body@);
        }
        s
    }
}

/// Classifies the endpoint's answer to one delivery attempt: only status
/// 200 is success; any other status is a failure that carries the status
/// and the response body text.
pub fn interpret_response(status: u16, body: String) -> (r: Result<(), SendError>)
    ensures
        r is Ok <==> status == 200,
        r matches Err(e) ==> e.status == status && e.body@ == body@,
{
    if status == 200 {
        Ok(())
    } else {
        Err(SendError { status, body })
    }
}

/// The headers and URL of one prepared, signed request; the caller attaches
/// the JSON body whose length was signed and performs the POST.
#[derive(Clone, Debug)]
pub struct RequestParts {
    pub url: String,
    pub accept: String,
    pub content_type: String,
    pub log_type: String,
    pub authorization: String,
    pub x_ms_date: String,
    pub time_generated_field: String,
}

/// Signs and addresses batches for one customer. Construction decodes the
/// base64 shared key once; a key that does not decode fails construction.
#[derive(Debug)]
pub struct Client {
    customer_id: String,
    key: Vec<u8>,
    url: String,
}

impl Client {
    /// The decoded signing key is small enough for the crypto layer, and
    /// the URL is the ingestion URL of the client's customer.
    pub closed spec fn wf(&self) -> bool {
        self.key@.len() <= MAX_KEY_LEN && self.url@ == spec_url(self.customer_id@)
    }

    /// The customer identifier the client was built for.
    pub closed spec fn spec_customer_id(&self) -> Seq<char> {
        self.customer_id@
    }

    /// The decoded signing key.
    pub closed spec fn spec_key(&self) -> Seq<u8> {
        self.key@
    }

    /// The ingestion URL the client was built with.
    pub closed spec fn spec_endpoint(&self) -> Seq<char> {
        self.url@
    }

    /// Builds a client from a configuration: decodes the shared key and
    /// fixes the ingestion URL. Fails exactly when the key is not valid
    /// base64.
    pub fn new(config: ClientConfig) -> (r: Result<Client, ClientError>)
        requires
            config.spec_shared_key().len() <= MAX_KEY_LEN,
        ensures
            r is Ok <==> b64_decoded(config.spec_shared_key()) is Some,
            r matches Err(e) ==> e == ClientError::InvalidSharedKey,
            r matches Ok(c) ==> {
                &&& c.wf()
                &&& c.spec_customer_id() == config.spec_customer_id()
                &&& Some(c.spec_key()) == b64_decoded(config.spec_shared_key())
                &&& c.spec_endpoint() == spec_url(config.spec_customer_id())
            },
    {
        let (customer_id, shared_key) = config.into_parts();
        let key = match base64_decode(shared_key.as_str()) {
            Some(k) => k,
            None => {
                return Err(ClientError::InvalidSharedKey);
            },
        };

        let mut url = String::new();
        url.append("https://");
        url.append(customer_id.as_str());
        url.append(".ods.opinsights.azure.com/api/logs?api-version=2016-04-01");
        proof {
            assert(url@ =~= spec_url(customer_id@));
        }

        Ok(Client { customer_id: customer_id.0, key, url })
    }

    /// The ingestion URL this client posts to.
    pub fn url(&self) -> (r: &str)
        ensures
            r@ == self.spec_endpoint(),
    {
        self.url.as_str()
    }

    /// The `Authorization` header value for one request: the shared-key
    /// scheme with the HMAC-SHA256 signature over the request's content
    /// length and date. Yields nothing only when the crypto layer fails.
    pub fn build_signature(&self, date: &str, content_length: usize) -> (r: Option<String>)
        requires
            self.wf(),
        ensures
            r matches Some(s) ==> s@ == spec_authorization(
                self.spec_customer_id(),
                self.spec_key(),
                content_length as nat,
                date@,
            ),
    {
        let to_sign = build_string_to_sign(date, content_length);
        match hmac_sha256(&self.key, to_sign.as_str()) {
            Some(hash) => Some(encode_authorization(self.customer_id.as_str(), &hash)),
            None => None,
        }
    }

    /// Prepares the URL and every header of one signed POST carrying
    /// `content_length` bytes of JSON on the given date. Yields nothing
    /// only when the crypto layer fails.
    pub fn prepare_request(&self, log_name: &str, date: &str, content_length: usize) -> (r: Option<
        RequestParts,
    >)
        requires
            self.wf(),
        ensures
            r matches Some(p) ==> {
                &&& p.url@ == spec_url(self.spec_customer_id())
                &&& p.accept@ == "application/json"@
                &&& p.content_type@ == "application/json"@
                &&& p.log_type@ == log_name@
                &&& p.authorization@ == spec_authorization(
                    self.spec_customer_id(),
                    self.spec_key(),
                    content_length as nat,
                    date@,
                )
                &&& p.x_ms_date@ == date@
                &&& p.time_generated_field@ == "timestamp"@
            },
    {
        let authorization = match self.build_signature(date, content_length) {
            Some(s) => s,
            None => {
                return None;
            },
        };
        Some(
            RequestParts {
                url: self.url.clone(),
                accept: String::from_str("application/json"),
                content_type: String::from_str("application/json"),
                log_type: log_name.to_owned(),
                authorization,
                x_ms_date: date.to_owned(),
                time_generated_field: String::from_str("timestamp"),
            },
        )
    }
}

/// The exact string to sign for one request.
pub fn build_string_to_sign(date: &str, content_length: usize) -> (r: String)
    ensures
        r@ == spec_string_to_sign(content_length as nat, date@),
{
    let mut s = String::new();
    s.append("POST\n");
    let len_str = u64_to_string(content_length as u64);
    s.append(len_str.as_str());
    s.append("\napplication/json\nx-ms-date:");
    s.append(date);
    s.append("\n/api/logs");
    proof {
        assert(s@ =~= spec_string_to_sign(content_length as nat, date@));
    }
    s
}

/// The `Authorization` header value for a customer and a raw signature
/// digest: the scheme name, the customer, and the digest base64-encoded.
pub fn encode_authorization(customer_id: &str, hash: &Vec<u8>) -> (r: String)
    ensures
        r@ == "SharedKey "@ + customer_id@ + ":"@ + b64_of(hash@),
{
    let encoded = base64_encode(hash);
    let mut s = String::new();
    s.append("SharedKey ");
    s.append(customer_id);
    s.append(":");
    s.append(encoded.as_str());
    proof {
        assert(s@ =~= "SharedKey "@ + customer_id@ + ":"@ + b64_of(hash@));
    }
    s
}

} // verus!
