//! The gateway pipeline: size gate, descriptor parse, allow-list checks,
//! and the mapping of every outcome to a response. Each request runs the
//! stages strictly in order and the first failure decides the response.

use vstd::prelude::*;
use vstd::string::StringExecFns;

use crate::config::Config;
use crate::config::id_allowed;
use crate::digits::dec_u64;
use crate::digits::parse_u64_bytes;
use crate::envelope::BodyError;
use crate::envelope::BodyErrorV;
use crate::envelope::DsnV;
use crate::envelope::SCAN_LINE_BOUND;
use crate::envelope::ScanOut;
use crate::envelope::SentryEnvelope;
use crate::envelope::envelope_outcome;
use crate::envelope::scan_lines;
use crate::envelope::split_lines;
use vstd::utf8::encode_utf8;

verus! {

/// The largest declared content length the gateway accepts.
pub const MAX_CONTENT_SIZE: u64 = 10_000_000;

/// A header (size gate) or host authorization error.
#[derive(Clone, Copy, Debug, PartialEq, Eq, Structural)]
pub enum HeaderError {
    /// No content length was declared.
    MissingContentLength,
    /// The declared content length exceeds the maximum.
    ContentIsTooBig,
    /// The declared content length is not a number.
    CouldNotParseContentLength,
    /// The descriptor's host is not on the allow-list.
    InvalidHost,
}

impl HeaderError {
    pub open spec fn spec_message(&self) -> Seq<char> {
        match self {
            HeaderError::MissingContentLength => "Missing content length header."@,
            HeaderError::ContentIsTooBig => "Content length too big."@,
            HeaderError::CouldNotParseContentLength => "could not parse content length header."@,
            HeaderError::InvalidHost
                => "Invalid sentry host, check your config against the dsn used in the request."@,
        }
    }

    /// The human-readable text of this error.
    pub fn message(&self) -> (r: String)
        ensures
            r@ == self.spec_message(),
    {
        match self {
            HeaderError::MissingContentLength => String::from_str(
                "Missing content length header.",
            ),
            HeaderError::ContentIsTooBig => String::from_str("Content length too big."),
            HeaderError::CouldNotParseContentLength => String::from_str(
                "could not parse content length header.",
            ),
            HeaderError::InvalidHost => String::from_str(
                "Invalid sentry host, check your config against the dsn used in the request.",
            ),
        }
    }
}

/// Everything that makes the gateway reject a request.
#[derive(Debug)]
pub enum TunnelError {
    Header(HeaderError),
    Body(BodyError),
}

pub ghost enum TunnelErrorV {
    Header(HeaderError),
    Body(BodyErrorV),
}

impl View for TunnelError {
    type V = TunnelErrorV;

    open spec fn view(&self) -> TunnelErrorV {
        match self {
            TunnelError::Header(h) => TunnelErrorV::Header(*h),
            TunnelError::Body(b) => TunnelErrorV::Body(b@),
        }
    }
}

impl TunnelError {
    pub open spec fn spec_message(&self) -> Seq<char> {
        match self {
            TunnelError::Header(h) => h.spec_message(),
            TunnelError::Body(b) => b.spec_message(),
        }
    }

    /// The human-readable text of this error.
    pub fn message(&self) -> (r: String)
        ensures
            r@ == self.spec_message(),
    {
        match self {
            TunnelError::Header(h) => h.message(),
            TunnelError::Body(b) => b.message(),
        }
    }
}

/// The bytes of an optional header value.
pub open spec fn opt_bytes(o: Option<&[u8]>) -> Option<Seq<u8>> {
    match o {
        Some(b) => Some(b@),
        None => None,
    }
}

/// The size gate: the declared content length must be present, numeric,
/// and at most the maximum.
pub open spec fn size_gate(len: Option<Seq<u8>>) -> Result<(), HeaderError> {
    match len {
        None => Err(HeaderError::MissingContentLength),
        Some(l) => match dec_u64(l) {
            None => Err(HeaderError::CouldNotParseContentLength),
            Some(n) => if n > MAX_CONTENT_SIZE {
                Err(HeaderError::ContentIsTooBig)
            } else {
                Ok(())
            },
        },
    }
}

/// Checks the declared content length before anything of the body is
/// looked at.
pub fn check_content_length(content_length: Option<&[u8]>) -> (r: Result<(), HeaderError>)
    ensures
        r == size_gate(opt_bytes(content_length)),
{
    match content_length {
        None => Err(HeaderError::MissingContentLength),
        Some(bytes) => match parse_u64_bytes(bytes) {
            None => Err(HeaderError::CouldNotParseContentLength),
            Some(n) => if n > MAX_CONTENT_SIZE {
                Err(HeaderError::ContentIsTooBig)
            } else {
                Ok(())
            },
        },
    }
}

/// The number a submission identifier writes in decimal, if any.
pub open spec fn id_value(s: Seq<char>) -> Option<u64> {
    dec_u64(encode_utf8(s))
}

/// What the gateway does with a request.
pub ghost enum Decision {
    /// Forward the body, untouched, to the URI the descriptor determines.
    Forward(DsnV),
    /// Reject with the first failing stage's error.
    Reject(TunnelErrorV),
}

/// The gateway's decision: size gate, then descriptor parse, then the
/// submission id check, then the host check; the first failure decides.
pub open spec fn decide(
    hosts: Seq<Seq<char>>,
    ids: Seq<Seq<char>>,
    len: Option<Seq<u8>>,
    body: Seq<u8>,
) -> Decision {
    match size_gate(len) {
        Err(h) => Decision::Reject(TunnelErrorV::Header(h)),
        Ok(_) => match envelope_outcome(body) {
            Err(b) => Decision::Reject(TunnelErrorV::Body(b)),
            Ok(d) => match id_value(d.project_id) {
                None => Decision::Reject(TunnelErrorV::Body(BodyErrorV::MalformedDsn)),
                Some(id) => if !id_allowed(ids, id) {
                    Decision::Reject(TunnelErrorV::Body(BodyErrorV::InvalidProjectId))
                } else if !hosts.contains(d.host) {
                    Decision::Reject(TunnelErrorV::Header(HeaderError::InvalidHost))
                } else {
                    Decision::Forward(d)
                },
            },
        },
    }
}

impl Config {
    pub open spec fn spec_hosts(&self) -> Seq<Seq<char>> {
        self.remote_hosts@.map_values(|h: crate::config::Host| h.0@)
    }

    pub open spec fn spec_ids(&self) -> Seq<Seq<char>> {
        self.project_ids@.map_values(|s: String| s@)
    }
}

/// Runs one request through the pipeline: an authorized envelope comes
/// back with its body bytes exactly as they were received; anything else
/// comes back as the first failing stage's error.
pub fn process(config: &Config, content_length: Option<&[u8]>, body: Vec<u8>) -> (r: Result<
    SentryEnvelope,
    TunnelError,
>)
    ensures
        r matches Ok(e) ==> decide(
            config.spec_hosts(),
            config.spec_ids(),
            opt_bytes(content_length),
            body@,
        ) == Decision::Forward(e.dsn@) && e.raw_body == body,
        r matches Err(t) ==> decide(
            config.spec_hosts(),
            config.spec_ids(),
            opt_bytes(content_length),
            body@,
        ) == Decision::Reject(t@),
{
    if let Err(h) = check_content_length(content_length) {
        return Err(TunnelError::Header(h));
    }
    let env = match SentryEnvelope::try_new_from_body(body) {
        Err(b) => {
            return Err(TunnelError::Body(b));
        },
        Ok(e) => e,
    };
    let id = match parse_u64_bytes(env.dsn.project_id.as_str().as_bytes()) {
        None => {
            return Err(TunnelError::Body(BodyError::MalformedDsn));
        },
        Some(id) => id,
    };
    if !config.project_id_is_allowed(id) {
        return Err(TunnelError::Body(BodyError::InvalidProjectId));
    }
    if !env.dsn_host_is_valid(config.remote_hosts.as_slice()) {
        return Err(TunnelError::Header(HeaderError::InvalidHost));
    }
    Ok(env)
}

/// What came of delivering a forwarding request upstream: transport-level
/// delivery is the only criterion tracked.
pub enum ForwardResult {
    /// The transport delivered the request.
    Delivered,
    /// The transport failed; carries the underlying cause's text.
    TransportFailure(String),
}

/// The response to a rejected request: a client error carrying the
/// rejection's text.
pub fn response_for_rejection(e: &TunnelError) -> (r: (u16, String))
    ensures
        r.0 == 400,
        r.1@ == e.spec_message(),
{
    (400, e.message())
}

/// The response once forwarding was attempted: empty success when the
/// transport delivered, a server error carrying the cause when it failed.
pub fn response_for_forward(outcome: ForwardResult) -> (r: (u16, String))
    ensures
        outcome matches ForwardResult::Delivered ==> r.0 == 200 && r.1@ == Seq::<char>::empty(),
        outcome matches ForwardResult::TransportFailure(m) ==> r.0 == 500 && r.1@ == m@,
{
    match outcome {
        ForwardResult::Delivered => (200, String::new()),
        ForwardResult::TransportFailure(m) => (500, m),
    }
}

/// An envelope whose declared length is within the limit, whose descriptor
/// decodes, and whose submission id and host are both on the allow-lists
/// is forwarded; nothing else about the body matters.
pub proof fn lemma_authorized_request_is_forwarded(
    hosts: Seq<Seq<char>>,
    ids: Seq<Seq<char>>,
    len: Option<Seq<u8>>,
    body: Seq<u8>,
    d: DsnV,
    id: u64,
)
    requires
        size_gate(len) is Ok,
        envelope_outcome(body) == Ok::<DsnV, BodyErrorV>(d),
        id_value(d.project_id) == Some(id),
        id_allowed(ids, id),
        hosts.contains(d.host),
    ensures
        decide(hosts, ids, len, body) == Decision::Forward(d),
{
}

/// A submission id absent from the permitted identifiers is rejected as an
/// unauthorized project id, whatever the descriptor's host is.
pub proof fn lemma_unpermitted_id_rejected(
    hosts: Seq<Seq<char>>,
    ids: Seq<Seq<char>>,
    len: Option<Seq<u8>>,
    body: Seq<u8>,
    d: DsnV,
    id: u64,
)
    requires
        size_gate(len) is Ok,
        envelope_outcome(body) == Ok::<DsnV, BodyErrorV>(d),
        id_value(d.project_id) == Some(id),
        !id_allowed(ids, id),
    ensures
        decide(hosts, ids, len, body) == Decision::Reject(
            TunnelErrorV::Body(BodyErrorV::InvalidProjectId),
        ),
{
}

/// With a permitted submission id, a host absent from the permitted hosts
/// is rejected as an invalid host.
pub proof fn lemma_unpermitted_host_rejected(
    hosts: Seq<Seq<char>>,
    ids: Seq<Seq<char>>,
    len: Option<Seq<u8>>,
    body: Seq<u8>,
    d: DsnV,
    id: u64,
)
    requires
        size_gate(len) is Ok,
        envelope_outcome(body) == Ok::<DsnV, BodyErrorV>(d),
        id_value(d.project_id) == Some(id),
        id_allowed(ids, id),
        !hosts.contains(d.host),
    ensures
        decide(hosts, ids, len, body) == Decision::Reject(
            TunnelErrorV::Header(HeaderError::InvalidHost),
        ),
{
}

/// A body none of whose scanned lines holds the descriptor key is rejected
/// with the missing-descriptor error.
pub proof fn lemma_missing_descriptor_rejected(
    hosts: Seq<Seq<char>>,
    ids: Seq<Seq<char>>,
    len: Option<Seq<u8>>,
    body: Seq<u8>,
)
    requires
        size_gate(len) is Ok,
        scan_lines(split_lines(body), SCAN_LINE_BOUND as nat) == ScanOut::NotFound,
    ensures
        decide(hosts, ids, len, body) == Decision::Reject(
            TunnelErrorV::Body(BodyErrorV::MissingDsnKeyInHeader),
        ),
{
}

/// A declared content length over the maximum is rejected before the body
/// is looked at: the decision is the same for every body.
pub proof fn lemma_oversized_rejected_before_parsing(
    hosts: Seq<Seq<char>>,
    ids: Seq<Seq<char>>,
    len: Seq<u8>,
    n: u64,
    body: Seq<u8>,
    other_body: Seq<u8>,
)
    requires
        dec_u64(len) == Some(n),
        n > MAX_CONTENT_SIZE,
    ensures
        decide(hosts, ids, Some(len), body) == Decision::Reject(
            TunnelErrorV::Header(HeaderError::ContentIsTooBig),
        ),
        decide(hosts, ids, Some(len), body) == decide(hosts, ids, Some(len), other_body),
{
}

/// The gateway keeps no state between requests: the decision is a function
/// of the configuration and the request alone. A second submission equal to
/// an authorized first one is therefore forwarded again, with the same
/// descriptor, hence to the same URI and with the same bytes.
pub proof fn lemma_resubmission_forwards_again(
    hosts: Seq<Seq<char>>,
    ids: Seq<Seq<char>>,
    first_len: Option<Seq<u8>>,
    first_body: Seq<u8>,
    second_len: Option<Seq<u8>>,
    second_body: Seq<u8>,
    d: DsnV,
)
    requires
        decide(hosts, ids, first_len, first_body) == Decision::Forward(d),
        second_len == first_len,
        second_body == first_body,
    ensures
        decide(hosts, ids, second_len, second_body) == Decision::Forward(d),
{
}

} // verus!
