//! The parts of an ACME client that decide rather than talk: the states of
//! accounts, orders, authorizations and challenges, when to poll again, when
//! a request is retried, and the texts that go into a signed request.

use vstd::prelude::*;
use vstd::utf8::encode_utf8;
use crate::text::{concat, text_eq};

verus! {

/// The state of an ACME account.
#[derive(PartialEq, Eq, Structural, Clone, Copy, Debug)]
pub enum AccountStatus {
    Valid,
    Deactivated,
    Revoked,
}

/// The state of an authorization.
#[derive(PartialEq, Eq, Structural, Clone, Copy, Debug)]
pub enum AuthorizationStatus {
    Pending,
    Valid,
    Invalid,
    Deactivated,
    Expired,
    Revoked,
}

/// The state of a challenge.
#[derive(PartialEq, Eq, Structural, Clone, Copy, Debug)]
pub enum ChallengeStatus {
    Pending,
    Processing,
    Valid,
    Invalid,
}

/// The state of an order.
#[derive(PartialEq, Eq, Structural, Clone, Copy, Debug)]
pub enum OrderStatus {
    Pending,
    Ready,
    Processing,
    Valid,
    Invalid,
}

fn clone_opt(o: &Option<String>) -> (r: Option<String>)
    ensures
        r == *o,
{
    match o {
        Some(s) => Some(s.clone()),
        None => None,
    }
}

/// An error as the ACME server reports it.
pub struct ServerError {
    pub error_type: Option<String>,
    pub title: Option<String>,
    pub status: Option<u16>,
    pub detail: Option<String>,
}

impl ServerError {
    pub fn duplicate(&self) -> (r: Self)
        ensures
            r == *self,
    {
        ServerError {
            error_type: clone_opt(&self.error_type),
            title: clone_opt(&self.title),
            status: self.status,
            detail: clone_opt(&self.detail),
        }
    }
}

/// What a certificate can be issued for: a domain, with the type `dns`.
pub struct Identifier {
    pub id_type: String,
    pub value: String,
}

/// A challenge that proves control of a domain.
pub struct Challenge {
    pub challenge_type: String,
    pub url: String,
    pub status: ChallengeStatus,
    pub validated: Option<String>,
    pub error: Option<ServerError>,
    pub token: Option<String>,
}

impl Challenge {
    pub fn duplicate(&self) -> (r: Self)
        ensures
            r == *self,
    {
        Challenge {
            challenge_type: self.challenge_type.clone(),
            url: self.url.clone(),
            status: self.status,
            validated: clone_opt(&self.validated),
            error: match &self.error {
                Some(e) => Some(e.duplicate()),
                None => None,
            },
            token: clone_opt(&self.token),
        }
    }
}

/// The server's authorization of an account for one domain.
pub struct Authorization {
    pub url: String,
    pub identifier: Identifier,
    pub status: AuthorizationStatus,
    pub expires: Option<String>,
    pub challenges: Vec<Challenge>,
    pub wildcard: Option<bool>,
}

impl Authorization {
    /// The first challenge of the given type.
    pub fn get_challenge(&self, challenge_type: &str) -> (r: Option<Challenge>)
        ensures
            r is None <==> forall|i: int| 0 <= i < self.challenges@.len() ==>
                (#[trigger] self.challenges@[i]).challenge_type@ != challenge_type@,
            r matches Some(c) ==> exists|i: int| 0 <= i < self.challenges@.len()
                && c == #[trigger] self.challenges@[i]
                && c.challenge_type@ == challenge_type@
                && forall|j: int| 0 <= j < i ==> (#[trigger] self.challenges@[j]).challenge_type@ != challenge_type@,
    {
        let mut i: usize = 0;
        while i < self.challenges.len()
            invariant
                i <= self.challenges@.len(),
                forall|j: int| 0 <= j < i ==> (#[trigger] self.challenges@[j]).challenge_type@ != challenge_type@,
            decreases self.challenges@.len() - i,
        {
            if text_eq(self.challenges[i].challenge_type.as_str(), challenge_type) {
                let c = self.challenges[i].duplicate();
                assert(c == self.challenges@[i as int]);
                return Some(c);
            }
            i = i + 1;
        }
        None
    }
}

/// What the client asks when it creates or looks up an account.
pub struct AccountRequest {
    pub contact: Option<Vec<String>>,
    pub terms_of_service_agreed: Option<bool>,
    pub only_return_existing: Option<bool>,
}

impl AccountRequest {
    pub fn new() -> (r: Self)
        ensures
            r.contact is None,
            r.terms_of_service_agreed is None,
            r.only_return_existing is None,
    {
        AccountRequest { contact: None, terms_of_service_agreed: None, only_return_existing: None }
    }

    pub fn contact(&mut self, contact: Vec<String>)
        ensures
            final(self).contact == Some(contact),
            final(self).terms_of_service_agreed == old(self).terms_of_service_agreed,
            final(self).only_return_existing == old(self).only_return_existing,
    {
        self.contact = Some(contact);
    }

    pub fn terms_of_service_agreed(&mut self, agreed: bool)
        ensures
            final(self).terms_of_service_agreed == Some(agreed),
            final(self).contact == old(self).contact,
            final(self).only_return_existing == old(self).only_return_existing,
    {
        self.terms_of_service_agreed = Some(agreed);
    }

    pub fn only_return_existing(&mut self, only: bool)
        ensures
            final(self).only_return_existing == Some(only),
            final(self).contact == old(self).contact,
            final(self).terms_of_service_agreed == old(self).terms_of_service_agreed,
    {
        self.only_return_existing = Some(only);
    }
}

/// The domains that an order asks a certificate for.
pub struct OrderRequest {
    pub identifiers: Vec<Identifier>,
}

impl OrderRequest {
    pub fn new() -> (r: Self)
        ensures
            r.identifiers@.len() == 0,
    {
        OrderRequest { identifiers: Vec::new() }
    }

    /// Adds a domain, as an identifier of type `dns`.
    pub fn add_dns_identifier(&mut self, fqdn: String)
        ensures
            final(self).identifiers@.len() == old(self).identifiers@.len() + 1,
            forall|i: int| 0 <= i < old(self).identifiers@.len() ==>
                #[trigger] final(self).identifiers@[i] == old(self).identifiers@[i],
            final(self).identifiers@.last().id_type@ == "dns"@,
            final(self).identifiers@.last().value == fqdn,
    {
        self.identifiers.push(Identifier { id_type: "dns".to_string(), value: fqdn });
    }
}

/// The contact that a new account names: the mail address as a `mailto:` URI.
pub fn mail_contact(email: &str) -> (r: String)
    ensures
        r@ == "mailto:"@ + email@,
{
    concat("mailto:", email)
}

// ---------------------------------------------------------------------
// Waiting for the server
// ---------------------------------------------------------------------

/// What a wait does next.
#[derive(PartialEq, Eq, Structural, Clone, Copy, Debug)]
pub enum PollStep {
    /// The object reached a state that ends the wait.
    Finished,
    /// Sleep, poll the server once more, and decide again.
    Poll,
    /// The attempts are spent: the wait fails.
    GaveUp,
}

pub open spec fn poll_step(unfinished: bool, polls: nat, attempts: nat) -> PollStep {
    if !unfinished {
        PollStep::Finished
    } else if polls >= attempts {
        PollStep::GaveUp
    } else {
        PollStep::Poll
    }
}

/// The next step of a wait that has polled `polls` times out of `attempts`.
/// It never polls more than `attempts` times.
pub fn next_poll(unfinished: bool, polls: usize, attempts: usize) -> (r: PollStep)
    ensures
        r == poll_step(unfinished, polls as nat, attempts as nat),
        r == PollStep::Poll ==> polls < attempts,
{
    if !unfinished {
        PollStep::Finished
    } else if polls >= attempts {
        PollStep::GaveUp
    } else {
        PollStep::Poll
    }
}

/// An order waiting to become ready is still pending.
pub fn order_awaits_ready(s: OrderStatus) -> (r: bool)
    ensures
        r == (s == OrderStatus::Pending),
{
    s == OrderStatus::Pending
}

/// An order is not done while pending, ready or processing.
pub fn order_awaits_done(s: OrderStatus) -> (r: bool)
    ensures
        r == (s == OrderStatus::Pending || s == OrderStatus::Ready || s == OrderStatus::Processing),
{
    s == OrderStatus::Pending || s == OrderStatus::Ready || s == OrderStatus::Processing
}

/// An authorization is not done while pending.
pub fn authorization_awaits_done(s: AuthorizationStatus) -> (r: bool)
    ensures
        r == (s == AuthorizationStatus::Pending),
{
    s == AuthorizationStatus::Pending
}

/// A challenge is not done while pending or processing.
pub fn challenge_awaits_done(s: ChallengeStatus) -> (r: bool)
    ensures
        r == (s == ChallengeStatus::Pending || s == ChallengeStatus::Processing),
{
    s == ChallengeStatus::Pending || s == ChallengeStatus::Processing
}

/// The error type with which the server refuses a stale nonce.
pub open spec fn bad_nonce_type() -> Seq<char> {
    "urn:ietf:params:acme:error:badNonce"@
}

/// A refused request is sent again when the server refused its nonce and
/// at most three attempts were made (so a request is sent at most four times).
pub fn retry_after_error(error_type: &Option<String>, attempt: u32) -> (r: bool)
    ensures
        r == (error_type matches Some(t) && t@ == bad_nonce_type() && attempt <= 3),
{
    match error_type {
        Some(t) => text_eq(t.as_str(), "urn:ietf:params:acme:error:badNonce") && attempt <= 3,
        None => false,
    }
}

/// The body of a request from its payload's JSON: a JSON empty string means
/// an empty body (a POST-as-GET).
pub fn request_payload(json: String) -> (r: String)
    ensures
        r@ == (if json@ == "\"\""@ { Seq::<char>::empty() } else { json@ }),
{
    if text_eq(json.as_str(), "\"\"") {
        String::new()
    } else {
        json
    }
}

} // verus!

verus! {

// ---------------------------------------------------------------------
// Base64 without padding, SHA-256, and the key's JSON Web Key
// ---------------------------------------------------------------------

/// The character of the URL-safe base64 alphabet (RFC 4648, section 5) for `v` in `0..64`.
pub open spec fn b64url_digit(v: int) -> char {
    if v < 26 {
        ('A' as int + v) as char
    } else if v < 52 {
        ('a' as int + (v - 26)) as char
    } else if v < 62 {
        ('0' as int + (v - 52)) as char
    } else if v == 62 {
        '-'
    } else {
        '_'
    }
}

/// URL-safe base64 of `b` without padding: each three bytes give four characters,
/// and a last group of one or two bytes gives two or three.
pub open spec fn b64url(b: Seq<u8>) -> Seq<char>
    decreases b.len(),
{
    if b.len() == 0 {
        Seq::empty()
    } else if b.len() == 1 {
        seq![b64url_digit(b[0] as int / 4), b64url_digit((b[0] as int % 4) * 16)]
    } else if b.len() == 2 {
        seq![
            b64url_digit(b[0] as int / 4),
            b64url_digit((b[0] as int % 4) * 16 + b[1] as int / 16),
            b64url_digit((b[1] as int % 16) * 4),
        ]
    } else {
        seq![
            b64url_digit(b[0] as int / 4),
            b64url_digit((b[0] as int % 4) * 16 + b[1] as int / 16),
            b64url_digit((b[1] as int % 16) * 4 + b[2] as int / 64),
            b64url_digit(b[2] as int % 64),
        ] + b64url(b.skip(3))
    }
}

/// `base64`'s `BASE64_URL_SAFE_NO_PAD.encode`: the URL-safe base64 text of
/// the bytes, without padding.
#[verifier::external_body]
fn b64url_encode(data: &[u8]) -> (r: String)
    ensures
        r@ == b64url(data@),
{
    base64::Engine::encode(&base64::prelude::BASE64_URL_SAFE_NO_PAD, data)
}

/// The SHA-256 digest of the bytes.
pub uninterp spec fn sha256_digest(data: Seq<u8>) -> Seq<u8>;

/// The `sha` crate's `Sha256`: `digest` over the bytes, then `to_bytes`,
/// which gives the 32 bytes of the digest.
#[verifier::external_body]
pub(crate) fn sha256(data: &[u8]) -> (r: Vec<u8>)
    ensures
        r@ == sha256_digest(data@),
        r@.len() == 32,
{
    let mut h = sha::sha256::Sha256::default();
    sha::utils::Digest::digest(&mut h, data);
    sha::utils::DigestExt::to_bytes(&mut h)
}

/// The public part of a P-256 key, as a JSON Web Key.
pub struct Jwk {
    pub crv: String,
    pub kty: String,
    pub x: String,
    pub y: String,
}

fn bytes_range(v: &[u8], lo: usize, hi: usize) -> (r: Vec<u8>)
    requires
        lo <= hi <= v@.len(),
    ensures
        r@ == v@.subrange(lo as int, hi as int),
{
    let mut r: Vec<u8> = Vec::new();
    let mut i: usize = lo;
    while i < hi
        invariant
            lo <= i <= hi <= v@.len(),
            r@ == v@.subrange(lo as int, i as int),
        decreases hi - i,
    {
        r.push(v[i]);
        assert(v@.subrange(lo as int, i + 1) =~= v@.subrange(lo as int, i as int).push(v@[i as int]));
        i = i + 1;
    }
    r
}

impl Jwk {
    /// The key of an uncompressed P-256 public point: `x` and `y` are the
    /// base64 of the two coordinates that follow the leading byte.
    pub fn new(public_key: &[u8]) -> (r: Jwk)
        requires
            public_key@.len() >= 65,
        ensures
            r.kty@ == "EC"@,
            r.crv@ == "P-256"@,
            r.x@ == b64url(public_key@.subrange(1, 33)),
            r.y@ == b64url(public_key@.subrange(33, 65)),
    {
        let xs = bytes_range(public_key, 1, 33);
        let ys = bytes_range(public_key, 33, 65);
        Jwk {
            kty: "EC".to_string(),
            x: b64url_encode(xs.as_slice()),
            y: b64url_encode(ys.as_slice()),
            crv: "P-256".to_string(),
        }
    }
}

/// The JSON of a key, with its members in declaration order.
pub open spec fn jwk_json_spec(k: Jwk) -> Seq<char> {
    "{\"crv\":"@ + json_quoted(k.crv@) + ",\"kty\":"@ + json_quoted(k.kty@) + ",\"x\":"@ + json_quoted(k.x@)
        + ",\"y\":"@ + json_quoted(k.y@) + "}"@
}

/// The JSON of the key whose uncompressed public point is `pk`.
pub open spec fn jwk_json_of(pk: Seq<u8>) -> Seq<char> {
    "{\"crv\":"@ + json_quoted("P-256"@) + ",\"kty\":"@ + json_quoted("EC"@) + ",\"x\":"@
        + json_quoted(b64url(pk.subrange(1, 33))) + ",\"y\":"@ + json_quoted(b64url(pk.subrange(33, 65))) + "}"@
}

/// The JSON of a key; its members are written as JSON strings.
pub fn jwk_json(k: &Jwk) -> (r: String)
    ensures
        r@ == jwk_json_spec(*k),
{
    let mut s = String::new();
    crate::text::push_all(&mut s, "{\"crv\":");
    let a = json_string(k.crv.as_str());
    crate::text::push_all(&mut s, a.as_str());
    crate::text::push_all(&mut s, ",\"kty\":");
    let b = json_string(k.kty.as_str());
    crate::text::push_all(&mut s, b.as_str());
    crate::text::push_all(&mut s, ",\"x\":");
    let c = json_string(k.x.as_str());
    crate::text::push_all(&mut s, c.as_str());
    crate::text::push_all(&mut s, ",\"y\":");
    let d = json_string(k.y.as_str());
    crate::text::push_all(&mut s, d.as_str());
    crate::text::push_all(&mut s, "}");
    assert(s@ =~= jwk_json_spec(*k));
    s
}

/// Why a request cannot be signed.
#[derive(PartialEq, Eq, Structural, Clone, Copy, Debug)]
pub enum AcmeError {
    /// The account key is not a P-256 key in PKCS#8.
    KeyRejected,
    /// Signing failed.
    SignFailed,
}

impl AcmeError {
    pub open spec fn message(self) -> Seq<char> {
        match self {
            AcmeError::KeyRejected => "from_pkcs8 error"@,
            AcmeError::SignFailed => "sign error"@,
        }
    }
}

/// The uncompressed public point of the P-256 key held in PKCS#8 form.
pub uninterp spec fn p256_public_key(pkcs8: Seq<u8>) -> Seq<u8>;

/// `ring`'s `EcdsaKeyPair::from_pkcs8` for ECDSA P-256 with SHA-256, and
/// the key pair's public key: the uncompressed point, 65 bytes. Whether the
/// key is accepted also depends on the system's random source, so nothing is
/// said of when it fails.
#[verifier::external_body]
fn p256_public_key_of(pkcs8: &[u8]) -> (r: Option<Vec<u8>>)
    ensures
        r matches Some(pk) ==> pk@ == p256_public_key(pkcs8@) && pk@.len() == 65,
{
    let rand = ring::rand::SystemRandom::new();
    match ring::signature::EcdsaKeyPair::from_pkcs8(&ring::signature::ECDSA_P256_SHA256_FIXED_SIGNING, pkcs8, &rand) {
        Ok(k) => Some(ring::signature::KeyPair::public_key(&k).as_ref().to_vec()),
        Err(_) => None,
    }
}

/// Whether `signature` is a valid ECDSA P-256 SHA-256 signature (fixed-length
/// form) of `data` under the uncompressed public point `public_key`.
pub uninterp spec fn p256_signature_valid(public_key: Seq<u8>, data: Seq<u8>, signature: Seq<u8>) -> bool;

/// `ring`'s ECDSA P-256 SHA-256 signature (fixed-length form) of `data` with
/// the PKCS#8 key: `r` and `s` of 32 bytes each, 64 bytes in all, a valid
/// signature of `data` under the key's public point. The signature is
/// randomized and the key's acceptance depends on the system's random
/// source, so nothing more is said of it, nor of when it fails.
#[verifier::external_body]
fn p256_sign(pkcs8: &[u8], data: &[u8]) -> (r: Option<Vec<u8>>)
    ensures
        r matches Some(sig) ==> sig@.len() == 64 && p256_signature_valid(p256_public_key(pkcs8@), data@, sig@),
{
    let rand = ring::rand::SystemRandom::new();
    match ring::signature::EcdsaKeyPair::from_pkcs8(&ring::signature::ECDSA_P256_SHA256_FIXED_SIGNING, pkcs8, &rand) {
        Ok(k) => match k.sign(&rand, data) {
            Ok(sig) => Some(sig.as_ref().to_vec()),
            Err(_) => None,
        },
        Err(_) => None,
    }
}

fn jwk_json_of_key(pk: &[u8]) -> (r: String)
    requires
        pk@.len() >= 65,
    ensures
        r@ == jwk_json_of(pk@),
{
    let k = Jwk::new(pk);
    jwk_json(&k)
}

/// The key authorization that an HTTP challenge serves: the token, a dot,
/// and the base64 of the SHA-256 digest of the account key's JSON.
pub open spec fn key_authorization_spec(token: Seq<char>, pk: Seq<u8>) -> Seq<char> {
    token + "."@ + b64url(sha256_digest(encode_utf8(jwk_json_of(pk))))
}

/// The key authorization of a challenge, from its token and the account's
/// key in PKCS#8 form: none without token.
pub fn key_authorization(token: &Option<String>, pkcs8: &[u8]) -> (r: Result<Option<String>, AcmeError>)
    ensures
        token is None ==> r == Ok::<Option<String>, AcmeError>(None),
        r is Err ==> r == Err::<Option<String>, AcmeError>(AcmeError::KeyRejected),
        token matches Some(t) ==> (r is Ok ==> (r matches Ok(Some(a))
            && a@ == key_authorization_spec(t@, p256_public_key(pkcs8@)))),
{
    match token {
        None => Ok(None),
        Some(t) => {
            let pk = match p256_public_key_of(pkcs8) {
                Some(pk) => pk,
                None => return Err(AcmeError::KeyRejected),
            };
            let json = jwk_json_of_key(pk.as_slice());
            let bytes = json.as_str().as_bytes();
            let digest = sha256(bytes);
            let d64 = b64url_encode(digest.as_slice());
            let mut a = concat(t.as_str(), ".");
            crate::text::push_all(&mut a, d64.as_str());
            Ok(Some(a))
        }
    }
}

// ---------------------------------------------------------------------
// Signed requests
// ---------------------------------------------------------------------

/// How JSON writes one character inside a string: a quote, a backslash and
/// each control character below U+0020 are escaped (`\b`, `\t`, `\n`, `\f`,
/// `\r`, else `\u00` and two lowercase hexadecimal digits); any other
/// character stands as it is.
pub open spec fn json_escape_char(c: char) -> Seq<char> {
    let n = c as int;
    if c == '"' {
        seq!['\\', '"']
    } else if c == '\\' {
        seq!['\\', '\\']
    } else if n == 8 {
        seq!['\\', 'b']
    } else if n == 9 {
        seq!['\\', 't']
    } else if n == 10 {
        seq!['\\', 'n']
    } else if n == 12 {
        seq!['\\', 'f']
    } else if n == 13 {
        seq!['\\', 'r']
    } else if n < 32 {
        seq!['\\', 'u', '0', '0', crate::user::hex_digit(n / 16), crate::user::hex_digit(n % 16)]
    } else {
        seq![c]
    }
}

/// A text's characters as JSON writes them inside a string.
pub open spec fn json_escaped(s: Seq<char>) -> Seq<char>
    decreases s.len(),
{
    if s.len() == 0 {
        Seq::empty()
    } else {
        json_escaped(s.drop_last()) + json_escape_char(s.last())
    }
}

/// A text as a JSON string: between double quotes, each character escaped.
pub open spec fn json_quoted(s: Seq<char>) -> Seq<char> {
    "\""@ + json_escaped(s) + "\""@
}

/// `serde_json::to_string` of a text: the text as a JSON string, as
/// `json_quoted` spells out (serde_json's `format_escaped_str`). Writing into
/// memory cannot fail, so the text is always given.
#[verifier::external_body]
fn json_string(s: &str) -> (r: String)
    ensures
        r@ == json_quoted(s@),
{
    match serde_json::to_string(s) {
        Ok(t) => t,
        Err(_) => String::new(),
    }
}

/// The protected header of a signed request, as JSON: the nonce, the
/// algorithm, the URL, and the account's id, or else the account's key.
pub open spec fn jws_header_spec(nonce: Seq<char>, url: Seq<char>, kid: Option<Seq<char>>, pk: Seq<u8>) -> Seq<char> {
    "{\"nonce\":"@ + json_quoted(nonce) + ",\"alg\":\"ES256\",\"url\":"@ + json_quoted(url) + match kid {
        Some(k) => ",\"kid\":"@ + json_quoted(k),
        None => ",\"jwk\":"@ + jwk_json_of(pk),
    } + "}"@
}

/// The body of a signed request: the protected header, the payload and the
/// signature in base64, as a JSON object whose members are sorted by name.
pub open spec fn jws_body_spec(protected_b64: Seq<char>, payload_b64: Seq<char>, signature: Seq<u8>) -> Seq<char> {
    "{\"payload\":\""@ + payload_b64 + "\",\"protected\":\""@ + protected_b64 + "\",\"signature\":\""@
        + b64url(signature) + "\"}"@
}

/// The account id as text, if any.
pub open spec fn kid_view(kid: Option<String>) -> Option<Seq<char>> {
    match kid {
        Some(k) => Some(k@),
        None => None,
    }
}

fn jws_header(nonce: &str, url: &str, kid: &Option<String>, pk: &[u8]) -> (r: String)
    requires
        pk@.len() >= 65,
    ensures
        r@ == jws_header_spec(nonce@, url@, kid_view(*kid), pk@),
{
    let mut s = String::new();
    crate::text::push_all(&mut s, "{\"nonce\":");
    let n = json_string(nonce);
    crate::text::push_all(&mut s, n.as_str());
    crate::text::push_all(&mut s, ",\"alg\":\"ES256\",\"url\":");
    let u = json_string(url);
    crate::text::push_all(&mut s, u.as_str());
    match kid {
        Some(k) => {
            crate::text::push_all(&mut s, ",\"kid\":");
            let q = json_string(k.as_str());
            crate::text::push_all(&mut s, q.as_str());
        }
        None => {
            crate::text::push_all(&mut s, ",\"jwk\":");
            let j = jwk_json_of_key(pk);
            crate::text::push_all(&mut s, j.as_str());
        }
    }
    crate::text::push_all(&mut s, "}");
    assert(s@ =~= jws_header_spec(nonce@, url@, kid_view(*kid), pk@));
    s
}

/// The bytes a request's signature is made over: the base64 of the
/// protected header and of the payload, joined by a dot.
pub open spec fn jws_signing_input_spec(nonce: Seq<char>, url: Seq<char>, payload: Seq<char>, kid: Option<Seq<char>>, pk: Seq<u8>) -> Seq<char> {
    b64url(encode_utf8(jws_header_spec(nonce, url, kid, pk))) + "."@ + b64url(encode_utf8(payload))
}

/// The signed request's body for a given signature.
pub open spec fn jws_with_signature_spec(nonce: Seq<char>, url: Seq<char>, payload: Seq<char>, kid: Option<Seq<char>>, pk: Seq<u8>, signature: Seq<u8>) -> Seq<char> {
    jws_body_spec(b64url(encode_utf8(jws_header_spec(nonce, url, kid, pk))), b64url(encode_utf8(payload)), signature)
}

/// The text that a request for `url` carrying `payload` is signed over,
/// given the account's uncompressed public point `pk`.
pub fn jws_signing_input(url: &str, nonce: &str, payload: &str, pk: &[u8], account_id: &Option<String>) -> (r: String)
    requires
        pk@.len() >= 65,
    ensures
        r@ == jws_signing_input_spec(nonce@, url@, payload@, kid_view(*account_id), pk@),
{
    let payload_b64 = b64url_encode(payload.as_bytes());
    let header = jws_header(nonce, url, account_id, pk);
    let protected_b64 = b64url_encode(header.as_str().as_bytes());
    let mut input = concat(protected_b64.as_str(), ".");
    crate::text::push_all(&mut input, payload_b64.as_str());
    input
}

/// The body of a request for `url` carrying `payload`, given the account's
/// uncompressed public point `pk` and the signature made over the signing input.
pub fn jws_with_signature(url: &str, nonce: &str, payload: &str, pk: &[u8], account_id: &Option<String>, signature: &[u8]) -> (r: String)
    requires
        pk@.len() >= 65,
    ensures
        r@ == jws_with_signature_spec(nonce@, url@, payload@, kid_view(*account_id), pk@, signature@),
{
    let payload_b64 = b64url_encode(payload.as_bytes());
    let header = jws_header(nonce, url, account_id, pk);
    let protected_b64 = b64url_encode(header.as_str().as_bytes());
    let sig_b64 = b64url_encode(signature);
    let mut body = concat("{\"payload\":\"", payload_b64.as_str());
    crate::text::push_all(&mut body, "\",\"protected\":\"");
    crate::text::push_all(&mut body, protected_b64.as_str());
    crate::text::push_all(&mut body, "\",\"signature\":\"");
    crate::text::push_all(&mut body, sig_b64.as_str());
    crate::text::push_all(&mut body, "\"}");
    body
}

/// A signed request (JWS in flattened JSON) for `url`, carrying `payload`.
/// The header names the account by its id when there is one, else carries
/// the account's key; the nonce, the URL and the id are JSON strings.
/// Whether `ring` accepts the key and signs depends on the system's random
/// source; when it does, the body is `jws_with_signature` of a 64-byte
/// signature of the signing input under the account's key.
pub fn jws(url: &str, nonce: &str, payload: &str, pkcs8: &[u8], account_id: &Option<String>) -> (r: Result<String, AcmeError>)
    ensures
        r matches Err(e) ==> (e == AcmeError::KeyRejected || e == AcmeError::SignFailed),
        r matches Ok(body) ==> exists|sig: Seq<u8>| sig.len() == 64 && body@ == #[trigger] jws_with_signature_spec(
            nonce@, url@, payload@, kid_view(*account_id), p256_public_key(pkcs8@), sig,
        ) && p256_signature_valid(
            p256_public_key(pkcs8@),
            encode_utf8(jws_signing_input_spec(nonce@, url@, payload@, kid_view(*account_id), p256_public_key(pkcs8@))),
            sig,
        ),
{
    let pk = match p256_public_key_of(pkcs8) {
        Some(pk) => pk,
        None => return Err(AcmeError::KeyRejected),
    };
    let input = jws_signing_input(url, nonce, payload, pk.as_slice(), account_id);
    let sig = match p256_sign(pkcs8, input.as_str().as_bytes()) {
        Some(sig) => sig,
        None => return Err(AcmeError::SignFailed),
    };
    let body = jws_with_signature(url, nonce, payload, pk.as_slice(), account_id, sig.as_slice());
    assert(body@ == jws_with_signature_spec(nonce@, url@, payload@, kid_view(*account_id), pk@, sig@));
    Ok(body)
}

} // verus!

verus! {

/// Why a certificate cannot be issued before the server is asked.
#[derive(PartialEq, Eq, Structural, Clone, Copy, Debug)]
pub enum IssueError {
    /// No domain was named.
    DomainBlank,
    /// The server reported an error for a challenge.
    ChallengeFailed,
    /// The account the server returned is not valid.
    AccountInvalid,
}

impl IssueError {
    pub open spec fn message(self) -> Seq<char> {
        match self {
            IssueError::DomainBlank => "Domain is blank."@,
            IssueError::ChallengeFailed => "error."@,
            IssueError::AccountInvalid => "Account status error."@,
        }
    }
}

// ---------------------------------------------------------------------
// The certificate signing request
// ---------------------------------------------------------------------

/// `rcgen`'s `KeyPair::generate_for` with RSA and SHA-512, and the new key
/// in PEM (`serialize_pem`). The key is random, and whether the crypto
/// backend can make one is not known here, so nothing is said of it.
#[verifier::external_body]
fn generate_rsa_key_pem() -> (r: Option<String>)
{
    rcgen::KeyPair::generate_for(&rcgen::PKCS_RSA_SHA512).ok().map(|k| k.serialize_pem())
}

/// Whether `der` is a certificate signing request whose subject alternative
/// names are the DNS names `names`, in order, whose common name is
/// `common_name`, and which is signed with the private key in PEM `key_pem`.
pub uninterp spec fn is_csr_for(der: Seq<u8>, names: Seq<Seq<char>>, common_name: Seq<char>, key_pem: Seq<char>) -> bool;

/// `rcgen`'s `CertificateParams::serialize_request`, with parameters whose
/// subject alternative names are the DNS names `names` and whose common name
/// is `common_name`, signed with the key read from `key_pem`
/// (`KeyPair::from_pem`): the request's DER. None when a name is not an
/// IA5 string, the key cannot be read, or signing fails.
#[verifier::external_body]
fn signing_request_der(names: &Vec<String>, common_name: &str, key_pem: &str) -> (r: Option<Vec<u8>>)
    ensures
        r matches Some(d) ==> is_csr_for(d@, names.deep_view(), common_name@, key_pem@),
{
    let mut params = rcgen::CertificateParams::new(names.clone()).ok()?;
    let mut sans = Vec::new();
    for n in names {
        sans.push(rcgen::SanType::DnsName(rcgen::Ia5String::try_from(n.as_str()).ok()?));
    }
    let mut dn = rcgen::DistinguishedName::new();
    dn.push(rcgen::DnType::CommonName, common_name);
    params.distinguished_name = dn;
    params.subject_alt_names = sans;
    let key = rcgen::KeyPair::from_pem(key_pem).ok()?;
    Some(params.serialize_request(&key).ok()?.der().to_vec())
}

/// A new private key and a certificate signing request for the order's
/// names, the first of them being the common name, signed with that key:
/// the key in PEM and the request's DER in base64. The key is random, so the
/// texts are not stated beyond that; none when the key or the request cannot
/// be made.
pub fn certificate_request(names: &Vec<String>) -> (r: Option<(String, String)>)
    requires
        names@.len() >= 1,
    ensures
        r matches Some(p) ==> exists|der: Seq<u8>| p.1@ == #[trigger] b64url(der)
            && is_csr_for(der, names.deep_view(), names@[0]@, p.0@),
{
    let key = match generate_rsa_key_pem() {
        Some(k) => k,
        None => return None,
    };
    let der = match signing_request_der(names, names[0].as_str(), key.as_str()) {
        Some(d) => d,
        None => return None,
    };
    let csr = b64url_encode(der.as_slice());
    assert(csr@ == b64url(der@));
    Some((key, csr))
}

// ---------------------------------------------------------------------
// The stored account
// ---------------------------------------------------------------------

/// The character of the standard base64 alphabet (RFC 4648, section 4) for `v` in `0..64`.
pub open spec fn b64_standard_digit(v: int) -> char {
    if v < 26 {
        ('A' as int + v) as char
    } else if v < 52 {
        ('a' as int + (v - 26)) as char
    } else if v < 62 {
        ('0' as int + (v - 52)) as char
    } else if v == 62 {
        '+'
    } else {
        '/'
    }
}

/// Standard base64 of `b` with padding: each three bytes give four
/// characters, and a last group of one or two bytes gives two or three,
/// padded with `=` to four.
pub open spec fn b64_standard(b: Seq<u8>) -> Seq<char>
    decreases b.len(),
{
    if b.len() == 0 {
        Seq::empty()
    } else if b.len() == 1 {
        seq![b64_standard_digit(b[0] as int / 4), b64_standard_digit((b[0] as int % 4) * 16), '=', '=']
    } else if b.len() == 2 {
        seq![
            b64_standard_digit(b[0] as int / 4),
            b64_standard_digit((b[0] as int % 4) * 16 + b[1] as int / 16),
            b64_standard_digit((b[1] as int % 16) * 4),
            '=',
        ]
    } else {
        seq![
            b64_standard_digit(b[0] as int / 4),
            b64_standard_digit((b[0] as int % 4) * 16 + b[1] as int / 16),
            b64_standard_digit((b[1] as int % 16) * 4 + b[2] as int / 64),
            b64_standard_digit(b[2] as int % 64),
        ] + b64_standard(b.skip(3))
    }
}

/// `base64`'s `BASE64_STANDARD.encode`: the standard base64 text of the bytes, padded.
#[verifier::external_body]
fn b64_standard_encode(data: &[u8]) -> (r: String)
    ensures
        r@ == b64_standard(data@),
{
    base64::Engine::encode(&base64::prelude::BASE64_STANDARD, data)
}

/// The bytes that `BASE64_STANDARD.decode` reads from a text; none when the
/// text is not canonical padded standard base64.
pub uninterp spec fn b64_standard_decoded(text: Seq<char>) -> Option<Seq<u8>>;

/// Bytes, if any.
pub open spec fn bytes_view(r: Option<Vec<u8>>) -> Option<Seq<u8>> {
    match r {
        Some(b) => Some(b@),
        None => None,
    }
}

/// Decoding gives back the bytes of which `text` is the standard base64.
pub open spec fn decodes_encoding(text: Seq<char>, r: Option<Seq<u8>>) -> bool {
    forall|b: Seq<u8>| #![trigger b64_standard(b)] text == b64_standard(b) ==> r == Some(b)
}

/// `base64`'s `BASE64_STANDARD.decode`. What `encode` wrote, it reads back.
#[verifier::external_body]
fn b64_standard_decode(text: &str) -> (r: Option<Vec<u8>>)
    ensures
        bytes_view(r) == b64_standard_decoded(text@),
        decodes_encoding(text@, bytes_view(r)),
{
    base64::Engine::decode(&base64::prelude::BASE64_STANDARD, text).ok()
}

/// The text kept in a user's extra information for an ACME account: the
/// standard base64 of the account's JSON.
pub fn account_field(account_json: &str) -> (r: String)
    ensures
        r@ == b64_standard(encode_utf8(account_json@)),
{
    b64_standard_encode(account_json.as_bytes())
}

/// The bytes of the account's JSON read from the kept text; none when the
/// text is not base64. A text that `account_field` wrote gives back the JSON's bytes.
pub fn stored_account_bytes(acme_account: &str) -> (r: Option<Vec<u8>>)
    ensures
        bytes_view(r) == b64_standard_decoded(acme_account@),
        decodes_encoding(acme_account@, bytes_view(r)),
{
    b64_standard_decode(acme_account)
}

/// The text an account keeps of its PKCS#8 key: the key's standard base64.
pub fn account_key_field(pkcs8: &[u8]) -> (r: String)
    ensures
        r@ == b64_standard(pkcs8@),
{
    b64_standard_encode(pkcs8)
}

/// The PKCS#8 key read from the account's key text; none when the text is
/// not base64. A text that `account_key_field` wrote gives back the key.
pub fn account_key(field: &str) -> (r: Option<Vec<u8>>)
    ensures
        bytes_view(r) == b64_standard_decoded(field@),
        decodes_encoding(field@, bytes_view(r)),
{
    b64_standard_decode(field)
}

/// `rcgen`'s `KeyPair::generate_for` with ECDSA P-256 and SHA-256, and the
/// new key in PKCS#8 DER (`serialize_der`). The key is random, so nothing is
/// said of it.
#[verifier::external_body]
fn generate_p256_pkcs8() -> (r: Option<Vec<u8>>)
{
    rcgen::KeyPair::generate_for(&rcgen::PKCS_ECDSA_P256_SHA256).ok().map(|k| k.serialize_der())
}

/// A new account key in PKCS#8 form, with the text the account keeps of it.
/// The key is random; none when it cannot be made.
pub fn new_account_key() -> (r: Option<(Vec<u8>, String)>)
    ensures
        r matches Some(p) ==> p.1@ == b64_standard(p.0@),
{
    match generate_p256_pkcs8() {
        Some(k) => {
            let field = account_key_field(k.as_slice());
            Some((k, field))
        }
        None => None,
    }
}

/// A certificate is requested for at least one domain.
pub fn check_domains(domains: &Vec<String>) -> (r: Result<(), IssueError>)
    ensures
        r is Ok <==> domains@.len() > 0,
        r is Err ==> r == Err::<(), IssueError>(IssueError::DomainBlank),
{
    if domains.len() == 0 {
        Err(IssueError::DomainBlank)
    } else {
        Ok(())
    }
}

/// A new account is used only when the server reports it valid.
pub fn check_account(status: AccountStatus) -> (r: Result<(), IssueError>)
    ensures
        r is Ok <==> status == AccountStatus::Valid,
        r is Err ==> r == Err::<(), IssueError>(IssueError::AccountInvalid),
{
    if status == AccountStatus::Valid {
        Ok(())
    } else {
        Err(IssueError::AccountInvalid)
    }
}

/// A validated challenge that carries an error fails the issuance.
pub fn check_challenge(c: &Challenge) -> (r: Result<(), IssueError>)
    ensures
        r is Ok <==> c.error is None,
        r is Err ==> r == Err::<(), IssueError>(IssueError::ChallengeFailed),
{
    match &c.error {
        Some(_) => Err(IssueError::ChallengeFailed),
        None => Ok(()),
    }
}

} // verus!
