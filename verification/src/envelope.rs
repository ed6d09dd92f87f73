//! The envelope: a newline-delimited byte body whose first matching line
//! holds a JSON object with the destination descriptor ("dsn"). Parsing
//! scans a bounded number of lines, decodes the descriptor, and keeps the
//! original bytes untouched for forwarding.

use vstd::prelude::*;
use vstd::slice::slice_subrange;
use vstd::string::StringExecFns;

use crate::config::Host;
use crate::digits::dec_str;
use crate::digits::u64_to_string;

verus! {

/// How many leading lines are examined for the descriptor before the
/// envelope is rejected.
pub const SCAN_LINE_BOUND: usize = 50;

/// The scheme of a destination descriptor.
#[derive(Clone, Copy, Debug, PartialEq, Eq, Structural)]
pub enum Scheme {
    Http,
    Https,
}

impl Scheme {
    /// The port used when the descriptor names none.
    pub open spec fn spec_default_port(self) -> u16 {
        match self {
            Scheme::Http => 80,
            Scheme::Https => 443,
        }
    }

    pub fn default_port(self) -> (r: u16)
        ensures
            r == self.spec_default_port(),
    {
        match self {
            Scheme::Http => 80,
            Scheme::Https => 443,
        }
    }

    pub open spec fn spec_str(self) -> Seq<char> {
        match self {
            Scheme::Http => "http"@,
            Scheme::Https => "https"@,
        }
    }

    pub fn as_str(self) -> (r: &'static str)
        ensures
            r@ == self.spec_str(),
    {
        match self {
            Scheme::Http => "http",
            Scheme::Https => "https",
        }
    }
}

/// The mathematical content of a destination descriptor.
pub ghost struct DsnV {
    pub scheme: Scheme,
    pub public_key: Seq<char>,
    pub host: Seq<char>,
    pub port: u16,
    pub path: Seq<char>,
    pub project_id: Seq<char>,
}

/// A destination descriptor: scheme, public credential, host, port, path
/// prefix and submission (project) identifier, as decoded from the
/// descriptor URI `scheme://public_key@host[:port]/path/project_id`.
#[derive(Clone, Debug)]
pub struct Dsn {
    pub scheme: Scheme,
    pub public_key: String,
    pub host: String,
    pub port: u16,
    pub path: String,
    pub project_id: String,
}

impl View for Dsn {
    type V = DsnV;

    open spec fn view(&self) -> DsnV {
        DsnV {
            scheme: self.scheme,
            public_key: self.public_key@,
            host: self.host@,
            port: self.port,
            path: self.path@,
            project_id: self.project_id@,
        }
    }
}

/// What decoding a descriptor URI yields, as a function of its characters.
pub uninterp spec fn dsn_of(s: Seq<char>) -> Option<DsnV>;

/// Relies on `sentry_types::Dsn::from_str` and its field accessors: the
/// decoded scheme, public key, host, effective port, path and project id
/// depend on the characters of the input alone.
#[verifier::external_body]
fn parse_dsn(s: &str) -> (r: Option<Dsn>)
    ensures
        r matches Some(d) ==> dsn_of(s@) == Some(d@),
        r is None ==> dsn_of(s@) is None,
{
    let parsed: sentry_types::Dsn = match std::str::FromStr::from_str(s) {
        Ok(d) => d,
        Err(_) => return None,
    };
    Some(Dsn {
        scheme: match parsed.scheme() {
            sentry_types::Scheme::Http => Scheme::Http,
            sentry_types::Scheme::Https => Scheme::Https,
        },
        public_key: parsed.public_key().to_string(),
        host: parsed.host().to_string(),
        port: parsed.port(),
        path: parsed.path().to_string(),
        project_id: parsed.project_id().value().to_string(),
    })
}

/// What probing one line for a string-valued key can find.
pub enum LineProbe {
    /// The line is not a JSON value; carries the decoder's message.
    BadJson(String),
    /// A JSON value without the key (or not an object).
    NoKey,
    /// The key is present but its value is not a string.
    NotString,
    /// The key's string value.
    Found(String),
}

pub ghost enum LineProbeV {
    BadJson,
    NoKey,
    NotString,
    Found(Seq<char>),
}

impl View for LineProbe {
    type V = LineProbeV;

    open spec fn view(&self) -> LineProbeV {
        match self {
            LineProbe::BadJson(_) => LineProbeV::BadJson,
            LineProbe::NoKey => LineProbeV::NoKey,
            LineProbe::NotString => LineProbeV::NotString,
            LineProbe::Found(s) => LineProbeV::Found(s@),
        }
    }
}

/// What probing a line for a key finds, as a function of the bytes and the
/// key alone.
pub uninterp spec fn probe_of(line: Seq<u8>, key: Seq<char>) -> LineProbeV;

/// Relies on `serde_json::from_slice`, `serde_json::Value::get` and
/// `serde_json::Value::as_str`: whether the bytes decode as JSON, whether
/// the decoded value has the key, and whether that key's value is a string
/// are functions of the bytes and the key alone.
#[verifier::external_body]
fn probe_json_line(line: &[u8], key: &str) -> (r: LineProbe)
    ensures
        r@ == probe_of(line@, key@),
{
    match serde_json::from_slice::<serde_json::Value>(line) {
        Err(e) => LineProbe::BadJson(format!("{}", e)),
        Ok(v) => match v.get(key) {
            None => LineProbe::NoKey,
            Some(value) => match value.as_str() {
                None => LineProbe::NotString,
                Some(s) => LineProbe::Found(s.to_string()),
            },
        },
    }
}

/// The key whose string value names the destination descriptor.
pub open spec fn dsn_key() -> Seq<char> {
    "dsn"@
}

/// The index of the first line feed, or the length when there is none.
pub open spec fn first_nl(b: Seq<u8>) -> nat
    decreases b.len(),
{
    if b.len() == 0 {
        0
    } else if b[0] == 10 {
        0
    } else {
        (1 + first_nl(b.drop_first())) as nat
    }
}

/// `first_nl` is the index of the first line feed: no line feed stands
/// before it, and one stands at it unless there is none at all.
proof fn lemma_first_nl_at(b: Seq<u8>, i: int)
    requires
        0 <= i <= b.len(),
        forall|k: int| 0 <= k < i ==> b[k] != 10,
        i < b.len() ==> b[i] == 10,
    ensures
        first_nl(b) == i,
    decreases b.len(),
{
    if b.len() == 0 {
    } else if b[0] == 10 {
        assert(i == 0);
    } else {
        assert(i >= 1);
        let c = b.drop_first();
        assert(forall|k: int| 0 <= k < i - 1 ==> c[k] != 10);
        lemma_first_nl_at(c, i - 1);
    }
}

/// A line with its terminator removed: one trailing carriage return is
/// dropped, since the terminator it belonged to was a line feed.
pub open spec fn chomp(line: Seq<u8>) -> Seq<u8> {
    if line.len() > 0 && line.last() == 13 {
        line.drop_last()
    } else {
        line
    }
}

/// The lines of a byte body, split at line feeds, each terminated line
/// stripped of a trailing carriage return; a final line feed closes the
/// last line rather than opening an empty one.
pub open spec fn split_lines(b: Seq<u8>) -> Seq<Seq<u8>>
    decreases b.len(),
{
    if b.len() == 0 {
        Seq::empty()
    } else if first_nl(b) >= b.len() {
        seq![b]
    } else {
        seq![chomp(b.take(first_nl(b) as int))] + split_lines(b.skip(first_nl(b) as int + 1))
    }
}

/// What the bounded scan of the leading lines finds.
pub ghost enum ScanOut {
    /// A line failed to decode as JSON.
    BadJson,
    /// A line holds the key, but its value is not a string.
    NotString,
    /// The descriptor string of the first line holding the key.
    Found(Seq<char>),
    /// No line within the bound holds the key.
    NotFound,
}

/// Scans the lines in order, up to the budget: the first line that is not
/// JSON, holds the key badly, or holds the descriptor decides the outcome.
pub open spec fn scan_lines(lines: Seq<Seq<u8>>, budget: nat) -> ScanOut
    decreases budget,
{
    if budget == 0 || lines.len() == 0 {
        ScanOut::NotFound
    } else {
        match probe_of(lines[0], dsn_key()) {
            LineProbeV::BadJson => ScanOut::BadJson,
            LineProbeV::NotString => ScanOut::NotString,
            LineProbeV::Found(s) => ScanOut::Found(s),
            LineProbeV::NoKey => scan_lines(lines.drop_first(), (budget - 1) as nat),
        }
    }
}

/// A body parsing error.
#[derive(Debug)]
pub enum BodyError {
    /// A scanned line failed to decode as JSON; carries the decoder's message.
    InvalidHeaderJson(String),
    /// No scanned line holds the descriptor key.
    MissingDsnKeyInHeader,
    /// The descriptor key's value is not a string.
    InvalidDsnValue,
    /// The descriptor string does not decode as a descriptor URI.
    MalformedDsn,
    /// The submission id is not on the allow-list.
    InvalidProjectId,
}

pub ghost enum BodyErrorV {
    InvalidHeaderJson,
    MissingDsnKeyInHeader,
    InvalidDsnValue,
    MalformedDsn,
    InvalidProjectId,
}

impl View for BodyError {
    type V = BodyErrorV;

    open spec fn view(&self) -> BodyErrorV {
        match self {
            BodyError::InvalidHeaderJson(_) => BodyErrorV::InvalidHeaderJson,
            BodyError::MissingDsnKeyInHeader => BodyErrorV::MissingDsnKeyInHeader,
            BodyError::InvalidDsnValue => BodyErrorV::InvalidDsnValue,
            BodyError::MalformedDsn => BodyErrorV::MalformedDsn,
            BodyError::InvalidProjectId => BodyErrorV::InvalidProjectId,
        }
    }
}

impl BodyError {
    pub open spec fn spec_message(&self) -> Seq<char> {
        match self {
            BodyError::InvalidHeaderJson(m) => "Failed to parse header json : "@ + m@,
            BodyError::MissingDsnKeyInHeader => "The dsn key is missing from the header header"@,
            BodyError::InvalidDsnValue => "Failed to parse dsn value"@,
            BodyError::MalformedDsn => "Failed to parse the dsn url"@,
            BodyError::InvalidProjectId => "Unauthorized project ID"@,
        }
    }

    /// The human-readable text of this error.
    pub fn message(&self) -> (r: String)
        ensures
            r@ == self.spec_message(),
    {
        match self {
            BodyError::InvalidHeaderJson(m) => String::from_str(
                "Failed to parse header json : ",
            ).concat(m.as_str()),
            BodyError::MissingDsnKeyInHeader => String::from_str(
                "The dsn key is missing from the header header",
            ),
            BodyError::InvalidDsnValue => String::from_str("Failed to parse dsn value"),
            BodyError::MalformedDsn => String::from_str("Failed to parse the dsn url"),
            BodyError::InvalidProjectId => String::from_str("Unauthorized project ID"),
        }
    }
}

/// What parsing an envelope body yields: the decoded descriptor, or the
/// error of the first failing line.
pub open spec fn envelope_outcome(body: Seq<u8>) -> Result<DsnV, BodyErrorV> {
    match scan_lines(split_lines(body), SCAN_LINE_BOUND as nat) {
        ScanOut::BadJson => Err(BodyErrorV::InvalidHeaderJson),
        ScanOut::NotString => Err(BodyErrorV::InvalidDsnValue),
        ScanOut::NotFound => Err(BodyErrorV::MissingDsnKeyInHeader),
        ScanOut::Found(s) => match dsn_of(s) {
            Some(d) => Ok(d),
            None => Err(BodyErrorV::MalformedDsn),
        },
    }
}

/// The upstream submission URI determined by a descriptor: scheme, host,
/// the port where it differs from the scheme's default, the descriptor's
/// path prefix, the fixed envelope submission segment, and the public
/// credential as a query parameter.
pub open spec fn uri_of(d: DsnV) -> Seq<char> {
    d.scheme.spec_str() + "://"@ + d.host + (if d.port != d.scheme.spec_default_port() {
        ":"@ + dec_str(d.port as nat)
    } else {
        Seq::empty()
    }) + d.path + "api/"@ + d.project_id + "/envelope/"@ + "?sentry_key="@ + d.public_key
}

/// The one HTTP request that forwards an envelope: POST, the envelope
/// content type, the derived URI, and the untouched body bytes.
pub struct ForwardRequest {
    pub uri: String,
    pub body: Vec<u8>,
}

impl ForwardRequest {
    /// The fixed request method of every forwarding request.
    pub fn method(&self) -> (r: &'static str)
        ensures
            r@ == "POST"@,
    {
        "POST"
    }

    /// The fixed content type identifying the envelope wire format.
    pub fn content_type(&self) -> (r: &'static str)
        ensures
            r@ == "application/x-sentry-envelope"@,
    {
        "application/x-sentry-envelope"
    }
}

/// One envelope: the untouched body bytes and the descriptor decoded from
/// them.
#[derive(Debug)]
pub struct SentryEnvelope {
    pub raw_body: Vec<u8>,
    pub dsn: Dsn,
}

impl SentryEnvelope {
    /// Parses a body into an envelope: scans up to `SCAN_LINE_BOUND` lines
    /// for the descriptor key and decodes its value, keeping the body bytes
    /// exactly as they came.
    pub fn try_new_from_body(raw_body: Vec<u8>) -> (r: Result<SentryEnvelope, BodyError>)
        ensures
            r matches Ok(e) ==> envelope_outcome(raw_body@) == Ok::<DsnV, BodyErrorV>(e.dsn@)
                && e.raw_body == raw_body,
            r matches Err(b) ==> envelope_outcome(raw_body@) == Err::<DsnV, BodyErrorV>(b@),
    {
        let ghost whole = raw_body@;
        let n = raw_body.len();
        let mut pos: usize = 0;
        let mut count: usize = 0;
        proof {
            assert(whole.skip(0) =~= whole);
        }
        while count < SCAN_LINE_BOUND && pos < n
            invariant
                n == whole.len(),
                whole == raw_body@,
                0 <= pos <= n,
                0 <= count <= SCAN_LINE_BOUND,
                scan_lines(split_lines(whole), SCAN_LINE_BOUND as nat) == scan_lines(
                    split_lines(whole.skip(pos as int)),
                    (SCAN_LINE_BOUND - count) as nat,
                ),
            decreases n - pos,
        {
            let ghost rem = whole.skip(pos as int);
            // Find the terminator of the current line.
            let mut j: usize = pos;
            while j < n && raw_body[j] != 10u8
                invariant
                    pos <= j <= n,
                    n == raw_body@.len(),
                    whole == raw_body@,
                    forall|k: int| pos <= k < j ==> whole[k] != 10,
                decreases n - j,
            {
                j += 1;
            }
            proof {
                assert(forall|k: int| 0 <= k < j - pos ==> rem[k] != 10);
                if j < n {
                    assert(rem[j - pos] == whole[j as int]);
                }
                lemma_first_nl_at(rem, j - pos);
            }
            // The line, stripped of a trailing carriage return when the
            // line feed terminated it.
            let lend: usize = if j < n && j > pos && raw_body[j - 1] == 13u8 {
                j - 1
            } else {
                j
            };
            let line: &[u8] = slice_subrange(raw_body.as_slice(), pos, lend);
            proof {
                if j < n {
                    assert(rem.take(j - pos) =~= whole.subrange(pos as int, j as int));
                    assert(line@ =~= chomp(rem.take(j - pos)));
                    assert(split_lines(rem) == seq![chomp(rem.take(j - pos))] + split_lines(
                        rem.skip(j - pos + 1),
                    ));
                    assert(split_lines(rem)[0] == line@);
                } else {
                    assert(rem =~= whole.subrange(pos as int, j as int));
                    assert(line@ =~= rem);
                    assert(split_lines(rem) == seq![rem]);
                    assert(split_lines(rem)[0] == line@);
                }
            }
            let probe = probe_json_line(line, "dsn");
            match probe {
                LineProbe::BadJson(m) => {
                    return Err(BodyError::InvalidHeaderJson(m));
                },
                LineProbe::NotString => {
                    return Err(BodyError::InvalidDsnValue);
                },
                LineProbe::Found(s) => {
                    match parse_dsn(s.as_str()) {
                        Some(d) => {
                            return Ok(SentryEnvelope { raw_body, dsn: d });
                        },
                        None => {
                            return Err(BodyError::MalformedDsn);
                        },
                    }
                },
                LineProbe::NoKey => {
                    proof {
                        let lines = split_lines(rem);
                        assert(probe_of(lines[0], dsn_key()) == LineProbeV::NoKey);
                        if j < n {
                            assert(lines.drop_first() =~= split_lines(rem.skip(j - pos + 1)));
                            assert(rem.skip(j - pos + 1) =~= whole.skip(j + 1));
                        } else {
                            assert(lines.drop_first() =~= Seq::<Seq<u8>>::empty());
                            assert(whole.skip(n as int) =~= Seq::<u8>::empty());
                            assert(split_lines(whole.skip(n as int)) =~= Seq::<Seq<u8>>::empty());
                            assert(lines.drop_first() =~= split_lines(whole.skip(n as int)));
                        }
                    }
                    if j < n {
                        pos = j + 1;
                    } else {
                        pos = n;
                    }
                    count += 1;
                },
            }
        }
        proof {
            if pos >= n {
                assert(whole.skip(pos as int) =~= Seq::<u8>::empty());
            }
        }
        Err(BodyError::MissingDsnKeyInHeader)
    }

    /// Turns an authorized envelope into the one forwarding request it
    /// determines: the upstream submission URI derived from the descriptor,
    /// and the body bytes exactly as they were received.
    pub fn forward_request(self) -> (r: ForwardRequest)
        ensures
            r.uri@ == uri_of(self.dsn@),
            r.body == self.raw_body,
    {
        let mut uri = String::from_str(self.dsn.scheme.as_str()).concat("://").concat(
            self.dsn.host.as_str(),
        );
        if self.dsn.port != self.dsn.scheme.default_port() {
            let port_str = u64_to_string(self.dsn.port as u64);
            uri = uri.concat(":").concat(port_str.as_str());
        }
        let uri = uri.concat(self.dsn.path.as_str()).concat("api/").concat(
            self.dsn.project_id.as_str(),
        ).concat("/envelope/").concat("?sentry_key=").concat(self.dsn.public_key.as_str());
        proof {
            assert(uri@ =~= uri_of(self.dsn@));
        }
        ForwardRequest { uri, body: self.raw_body }
    }

    /// True when the descriptor's host is one of the permitted hosts.
    pub fn dsn_host_is_valid(&self, host: &[Host]) -> (r: bool)
        ensures
            r == host@.map_values(|h: Host| h.0@).contains(self.dsn@.host),
    {
        let ghost hosts = host@.map_values(|h: Host| h.0@);
        let n = host.len();
        let mut i: usize = 0;
        while i < n
            invariant
                n == host@.len(),
                hosts == host@.map_values(|h: Host| h.0@),
                0 <= i <= n,
                forall|k: int| 0 <= k < i ==> hosts[k] != self.dsn@.host,
            decreases n - i,
        {
            if host[i].0 == self.dsn.host {
                proof {
                    assert(hosts[i as int] == self.dsn@.host);
                }
                return true;
            }
            i += 1;
        }
        false
    }
}

} // verus!
