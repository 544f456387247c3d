//! Session establishment logic: endpoint URL validation, the fixed transport
//! policies, and the certificate-fingerprint bootstrap used for local
//! development hosts. The network calls themselves are made by the shell; the
//! decisions here say exactly what to connect to and how.

use vstd::prelude::*;

verus! {

/// A decoding fault of a fingerprint body.
#[derive(Clone, Copy, PartialEq, Eq, Structural, Debug)]
pub enum HexError {
    /// The digit count is odd.
    OddLength,
    /// A character is not a hexadecimal digit.
    InvalidDigit,
}

/// A fault of the certificate-fingerprint bootstrap.
#[derive(Debug)]
pub enum FingerprintError {
    /// The fingerprint endpoint could not be fetched.
    Http(String),
    /// The fetched body is not a hexadecimal string.
    Hex(HexError),
}

/// A fault of session establishment.
#[derive(Debug)]
pub enum SessionError {
    /// The endpoint string is not a URL.
    InvalidUrl,
    /// The endpoint URL does not use the secure transport scheme.
    InvalidScheme,
    /// The transport handshake failed.
    WebTransport(String),
    /// The protocol-level subscriber handshake failed.
    Transfork(String),
    /// The certificate-fingerprint bootstrap failed.
    Fingerprint(FingerprintError),
}

/// An endpoint URL, reduced to the parts the player reads: its normalized
/// text, its scheme, and its host.
pub struct Endpoint {
    pub text: String,
    pub scheme: String,
    pub host: Option<String>,
}

/// Mathematical model of [`Endpoint`].
pub struct EndpointView {
    pub text: Seq<char>,
    pub scheme: Seq<char>,
    pub host: Option<Seq<char>>,
}

impl View for Endpoint {
    type V = EndpointView;

    open spec fn view(&self) -> EndpointView {
        EndpointView {
            text: self.text@,
            scheme: self.scheme@,
            host: self.host.deep_view(),
        }
    }
}

/// What parsing a URL string yields: its normalized text, scheme and host,
/// or nothing where the string is not a URL. The result depends on the
/// string alone.
pub uninterp spec fn url_endpoint_of(s: Seq<char>) -> Option<EndpointView>;

/// The same URL serialized with its path replaced by the well-known
/// fingerprint path. The result depends on the URL string alone.
pub uninterp spec fn fingerprint_url_of(s: Seq<char>) -> Seq<char>;

/// Relies on url::Url::parse and its scheme and host_str accessors: parsing
/// is a function of the input string; the accessors read slices of the
/// parsed, normalized serialization.
#[verifier::external_body]
fn parse_url(s: &str) -> (r: Option<Endpoint>)
    ensures
        r matches Some(e) ==> url_endpoint_of(s@) == Some(e@),
        r is None ==> url_endpoint_of(s@) is None,
{
    match url::Url::parse(s) {
        Ok(u) => Some(Endpoint {
            text: String::from(u.as_str()),
            scheme: String::from(u.scheme()),
            host: u.host_str().map(|h| String::from(h)),
        }),
        Err(_) => None,
    }
}

/// Relies on url::Url::set_path (after url::Url::parse of the same text):
/// the serialization with the path replaced is a function of the URL string
/// alone.
#[verifier::external_body]
fn derive_fingerprint_url(e: &Endpoint) -> (r: String)
    ensures
        r@ == fingerprint_url_of(e.text@),
{
    match url::Url::parse(&e.text) {
        Ok(mut u) => {
            u.set_path("fingerprint");
            String::from(u.as_str())
        },
        Err(_) => e.text.clone(),
    }
}

/// Whether a character is a hexadecimal digit.
pub open spec fn is_hex_digit(c: char) -> bool {
    ('0' <= c && c <= '9') || ('a' <= c && c <= 'f') || ('A' <= c && c <= 'F')
}

/// The value of a hexadecimal digit.
pub open spec fn hex_val(c: char) -> int
    recommends
        is_hex_digit(c),
{
    if '0' <= c && c <= '9' {
        c as int - '0' as int
    } else if 'a' <= c && c <= 'f' {
        c as int - 'a' as int + 10
    } else {
        c as int - 'A' as int + 10
    }
}

/// Whether a string is a well-formed hexadecimal encoding: an even number of
/// digits, each hexadecimal.
pub open spec fn is_hex_seq(s: Seq<char>) -> bool {
    s.len() % 2 == 0 && (forall|i: int| 0 <= i < s.len() ==> is_hex_digit(#[trigger] s[i]))
}

/// The bytes a well-formed hexadecimal string encodes, two digits per byte.
pub open spec fn hex_bytes_of(s: Seq<char>) -> Seq<u8>
    recommends
        is_hex_seq(s),
{
    Seq::new((s.len() / 2) as nat, |i: int| (hex_val(s[2 * i]) * 16 + hex_val(s[2 * i + 1])) as u8)
}

/// Relies on hex::decode: one byte from each pair of hexadecimal digits; an
/// odd digit count or a character outside the digits is refused, the odd
/// length being checked first.
#[verifier::external_body]
fn hex_decode(s: &str) -> (r: Result<Vec<u8>, HexError>)
    ensures
        is_hex_seq(s@) ==> r is Ok,
        r matches Ok(v) ==> v@ == hex_bytes_of(s@),
        !is_hex_seq(s@) ==> r is Err,
        (vstd::string::is_ascii(s) && s@.len() % 2 != 0) ==> r->Err_0 == HexError::OddLength,
        (vstd::string::is_ascii(s) && s@.len() % 2 == 0 && !is_hex_seq(s@)) ==> r->Err_0 == HexError::InvalidDigit,
{
    match hex::decode(s) {
        Ok(v) => Ok(v),
        Err(hex::FromHexError::OddLength) => Err(HexError::OddLength),
        Err(_) => Err(HexError::InvalidDigit),
    }
}

/// Whether a character counts as surrounding whitespace of a fetched body.
pub open spec fn is_space(c: char) -> bool {
    c == ' ' || c == '\n' || c == '\r' || c == '\t'
}

/// The string with leading whitespace removed.
pub open spec fn trim_front(s: Seq<char>) -> Seq<char>
    decreases s.len(),
{
    if s.len() > 0 && is_space(s[0]) {
        trim_front(s.drop_first())
    } else {
        s
    }
}

/// The string with trailing whitespace removed.
pub open spec fn trim_back(s: Seq<char>) -> Seq<char>
    decreases s.len(),
{
    if s.len() > 0 && is_space(s.last()) {
        trim_back(s.drop_last())
    } else {
        s
    }
}

/// The string with surrounding whitespace removed.
pub open spec fn trim_of(s: Seq<char>) -> Seq<char> {
    trim_back(trim_front(s))
}

proof fn lemma_trim_front_subrange(s: Seq<char>, i: int)
    requires
        0 <= i <= s.len(),
        forall|k: int| 0 <= k < i ==> is_space(#[trigger] s[k]),
        i == s.len() || !is_space(s[i]),
    ensures
        trim_front(s) == s.subrange(i, s.len() as int),
    decreases i,
{
    if i == 0 {
        assert(s.subrange(0, s.len() as int) =~= s);
    } else {
        assert(is_space(s[0]));
        assert(s.drop_first() =~= s.subrange(1, s.len() as int));
        let t = s.drop_first();
        lemma_trim_front_subrange(t, i - 1);
        assert(t.subrange(i - 1, t.len() as int) =~= s.subrange(i, s.len() as int));
    }
}

proof fn lemma_trim_back_subrange(s: Seq<char>, j: int)
    requires
        0 <= j <= s.len(),
        forall|k: int| j <= k < s.len() ==> is_space(#[trigger] s[k]),
        j == 0 || !is_space(s[j - 1]),
    ensures
        trim_back(s) == s.subrange(0, j),
    decreases s.len(),
{
    if j == s.len() {
        assert(s.subrange(0, j) =~= s);
    } else {
        assert(is_space(s.last()));
        assert(s.drop_last() =~= s.subrange(0, s.len() - 1));
        lemma_trim_back_subrange(s.drop_last(), j);
    }
}

/// Removes surrounding whitespace from a string.
pub fn trim(s: &str) -> (r: &str)
    ensures
        r@ == trim_of(s@),
{
    let n = s.unicode_len();
    let mut i: usize = 0;
    while i < n && is_space_char(s.get_char(i))
        invariant
            0 <= i <= n,
            n == s@.len(),
            forall|k: int| 0 <= k < i ==> is_space(#[trigger] s@[k]),
        decreases n - i,
    {
        i = i + 1;
    }
    let mut j: usize = n;
    while j > i && is_space_char(s.get_char(j - 1))
        invariant
            i <= j <= n,
            n == s@.len(),
            forall|k: int| j <= k < n ==> is_space(#[trigger] s@[k]),
        decreases j,
    {
        j = j - 1;
    }
    proof {
        lemma_trim_front_subrange(s@, i as int);
        let t = s@.subrange(i as int, n as int);
        lemma_trim_back_subrange(t, j - i);
        assert(t.subrange(0, j - i) =~= s@.subrange(i as int, j as int));
    }
    s.substring_char(i, j)
}

/// Whether a character counts as surrounding whitespace.
fn is_space_char(c: char) -> (r: bool)
    ensures
        r == is_space(c),
{
    c == ' ' || c == '\n' || c == '\r' || c == '\t'
}

/// Decodes a fetched fingerprint body: surrounding whitespace is removed and
/// the remainder read as hexadecimal bytes. Succeeds exactly on bodies whose
/// trimmed text is a well-formed hexadecimal string.
pub fn parse_fingerprint(body: &str) -> (r: Result<Vec<u8>, FingerprintError>)
    ensures
        is_hex_seq(trim_of(body@)) ==> (r matches Ok(v) && v@ == hex_bytes_of(trim_of(body@))),
        !is_hex_seq(trim_of(body@)) ==> (r matches Err(e) && e matches FingerprintError::Hex(_)),
{
    let t = trim(body);
    match hex_decode(t) {
        Ok(v) => Ok(v),
        Err(e) => Err(FingerprintError::Hex(e)),
    }
}

/// The fixed session policies: connection pooling disabled, congestion
/// control tuned for low latency, unreliable delivery required.
#[derive(Clone, Copy, PartialEq, Eq, Structural)]
pub struct ConnectPolicy {
    pub allow_pooling: bool,
    pub low_latency: bool,
    pub require_unreliable: bool,
}

/// The policies every session is established with.
pub fn connect_policy() -> (p: ConnectPolicy)
    ensures
        !p.allow_pooling,
        p.low_latency,
        p.require_unreliable,
{
    ConnectPolicy { allow_pooling: false, low_latency: true, require_unreliable: true }
}

/// Everything the shell needs to establish a session: the validated
/// endpoint, the fingerprint URL to fetch first when the host is a local
/// development host, and the fixed policies.
pub struct ConnectPlan {
    pub endpoint: Endpoint,
    pub fingerprint_url: Option<String>,
    pub policy: ConnectPolicy,
}

/// What a successful connection plan holds for a given parsed endpoint:
/// that endpoint, the fingerprint bootstrap exactly on the local development
/// host, and the fixed policies.
pub open spec fn plan_matches(plan: ConnectPlan, e: EndpointView) -> bool {
    &&& plan.endpoint@ == e
    &&& (plan.fingerprint_url is Some) == (e.host == Some("localhost"@))
    &&& (plan.fingerprint_url matches Some(f) ==> f@ == fingerprint_url_of(e.text))
    &&& !plan.policy.allow_pooling
    &&& plan.policy.low_latency
    &&& plan.policy.require_unreliable
}

/// The exact outcome of connection planning for a given parse result: no
/// URL is an input error, a URL outside the secure scheme is a scheme
/// error, and any secure URL yields a plan for it.
pub open spec fn connect_outcome(o: Option<EndpointView>, r: Result<ConnectPlan, SessionError>) -> bool {
    match o {
        None => r == Result::<ConnectPlan, SessionError>::Err(SessionError::InvalidUrl),
        Some(e) => if e.scheme != "https"@ {
            r == Result::<ConnectPlan, SessionError>::Err(SessionError::InvalidScheme)
        } else {
            r matches Ok(plan) && plan_matches(plan, e)
        },
    }
}

/// Validates an endpoint string and plans the connection: rejects strings
/// that are not URLs and URLs outside the secure scheme; asks for the
/// certificate-fingerprint bootstrap exactly on the local development host.
pub fn prepare_connect(url: &str) -> (r: Result<ConnectPlan, SessionError>)
    ensures
        connect_outcome(url_endpoint_of(url@), r),
{
    let endpoint = match parse_url(url) {
        Some(e) => e,
        None => {
            return Err(SessionError::InvalidUrl);
        },
    };
    let https: String = "https".to_owned();
    if !endpoint.scheme.eq(&https) {
        return Err(SessionError::InvalidScheme);
    }
    let localhost: Option<String> = Some("localhost".to_owned());
    let fingerprint_url = if crate::config::opt_str_eq(&endpoint.host, &localhost) {
        Some(derive_fingerprint_url(&endpoint))
    } else {
        None
    };
    Ok(ConnectPlan { endpoint, fingerprint_url, policy: connect_policy() })
}

/// An established session: the endpoint string it was created for, and the
/// shell's handle to the live subscription capability.
pub struct Session {
    pub url: String,
    pub handle: u64,
}

/// Mathematical model of [`Session`].
pub struct SessionView {
    pub url: Seq<char>,
    pub handle: u64,
}

impl View for Session {
    type V = SessionView;

    open spec fn view(&self) -> SessionView {
        SessionView { url: self.url@, handle: self.handle }
    }
}

} // verus!
