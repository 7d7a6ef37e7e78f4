//! Reading the `CONNECT` request that opens a connection.

use vstd::prelude::*;
use vstd::string::StrSliceExecFns;

use crate::target::{
    lemma_authority_round_trip,
    lemma_first_ipv4_is_preferred,
    port_number,
    resolved_target,
    ResolvedAddressView,
    TargetView,
};
use crate::termination::Termination;

verus! {

/// How many headers a request may carry.
pub const MAX_HEADERS: usize = 16;

/// The request line of an HTTP request, as far as it could be read.
///
/// A part is `None` when the buffer ended before that part did.
#[derive(Debug, PartialEq, Eq)]
pub struct RequestHead {
    /// The method, such as `CONNECT`.
    pub method: Option<String>,
    /// The request target, for `CONNECT` an authority such as `example.com:443`.
    pub path: Option<String>,
    /// The minor version: 0 for HTTP/1.0, 1 for HTTP/1.1.
    pub version: Option<u8>,
}

/// A [`RequestHead`] as a mathematical value.
pub struct RequestHeadView {
    pub method: Option<Seq<char>>,
    pub path: Option<Seq<char>>,
    pub version: Option<u8>,
}

/// An optional text as a mathematical value.
pub open spec fn text_view(text: Option<String>) -> Option<Seq<char>> {
    match text {
        Some(s) => Some(s@),
        None => None,
    }
}

impl View for RequestHead {
    type V = RequestHeadView;

    open spec fn view(&self) -> RequestHeadView {
        RequestHeadView {
            method: text_view(self.method),
            path: text_view(self.path),
            version: self.version,
        }
    }
}

#[verifier::external_type_specification]
#[verifier::external_body]
pub struct ExHttparseError(httparse::Error);

/// What `httparse` reads from `buf` as the head of a request when it has room
/// for `max_headers` headers: the request line as far as it got, or `None`
/// where it rejects the bytes.
pub uninterp spec fn parsed_request_head(buf: Seq<u8>, max_headers: usize) -> Option<
    RequestHeadView,
>;

/// Runs `httparse::Request::parse` on `buf` with a fresh header table of
/// `max_headers` entries.
///
/// Trusted: the result is taken to be a function of `buf` and `max_headers`
/// alone, named by [`parsed_request_head`]. An accepted buffer gives the
/// method, target and version that the parser had read when it stopped; a
/// rejected one gives the parser's error.
#[verifier::external_body]
fn parse_request_head(buf: &[u8], max_headers: usize) -> (r: Result<RequestHead, httparse::Error>)
    requires
        max_headers <= u16::MAX,
    ensures
        parsed_request_head(buf@, max_headers) == (match r {
            Ok(head) => Some(head@),
            Err(_) => None,
        }),
{
    let mut headers = vec![httparse::EMPTY_HEADER; max_headers];
    let mut request = httparse::Request::new(&mut headers);
    match request.parse(buf) {
        Ok(_) => Ok(RequestHead {
            method: request.method.map(String::from),
            path: request.path.map(String::from),
            version: request.version,
        }),
        Err(e) => Err(e),
    }
}

/// The upper-case form of an ASCII letter; any other character is itself.
pub open spec fn ascii_uppercase(c: char) -> char {
    if 'a' <= c && c <= 'z' {
        (c as u8 - 32) as char
    } else {
        c
    }
}

/// The method name that asks for a tunnel.
pub open spec fn connect_method() -> Seq<char> {
    "CONNECT"@
}

/// Whether a method is `CONNECT`, in upper or lower case letters.
pub open spec fn is_connect_method(method: Seq<char>) -> bool {
    &&& method.len() == connect_method().len()
    &&& forall|i: int|
        0 <= i < method.len() ==> ascii_uppercase(#[trigger] method[i]) == connect_method()[i]
}

/// Whether a minor version is one that tunnels are opened for.
pub open spec fn is_supported_version(version: u8) -> bool {
    version == 0 || version == 1
}

/// The authority that a request head asks a tunnel to, if it asks for one:
/// its method is `CONNECT`, its version is 1.0 or 1.1, and it has a target.
pub open spec fn head_authority(head: RequestHeadView) -> Option<Seq<char>> {
    match (head.method, head.path, head.version) {
        (Some(method), Some(path), Some(version)) => if is_connect_method(method)
            && is_supported_version(version) {
            Some(path)
        } else {
            None
        },
        _ => None,
    }
}

/// The authority that the request in a buffer asks a tunnel to.
pub open spec fn request_authority(buf: Seq<u8>) -> Option<Seq<char>> {
    match parsed_request_head(buf, MAX_HEADERS) {
        Some(head) => head_authority(head),
        None => None,
    }
}

/// Only a `CONNECT` of version 1.0 or 1.1 names an authority: a head with
/// another method, another version, or a part missing names none.
pub proof fn lemma_other_requests_are_refused(head: RequestHeadView)
    ensures
        head_authority(head) is Some <==> (head.method is Some && is_connect_method(head.method->0)
            && head.version is Some && is_supported_version(head.version->0) && head.path
            is Some),
        head_authority(head) is Some ==> head_authority(head) == head.path,
{
}

/// A buffer names an authority only where its request is a `CONNECT` of
/// version 1.0 or 1.1 that the parser accepts.
pub proof fn lemma_request_authority(buf: Seq<u8>)
    ensures
        request_authority(buf) is Some <==> (parsed_request_head(buf, MAX_HEADERS) is Some
            && head_authority(parsed_request_head(buf, MAX_HEADERS)->0) is Some),
{
}

/// A well-formed `CONNECT` names its target exactly: where the first IPv4
/// address that the authority resolved to is written as `host`, `:` and a
/// port text, the tunnel leads to that host and that port. For a literal
/// IPv4 authority, which resolves to itself, these are the host and the port
/// of the request.
pub proof fn lemma_connect_names_target(
    head: RequestHeadView,
    addresses: Seq<ResolvedAddressView>,
    i: int,
    host: Seq<char>,
    port_text: Seq<char>,
)
    requires
        head.method is Some && is_connect_method(head.method->0),
        head.version is Some && is_supported_version(head.version->0),
        head.path is Some,
        0 <= i < addresses.len(),
        addresses[i].is_ipv4,
        forall|j: int| 0 <= j < i ==> !addresses[j].is_ipv4,
        addresses[i].text == host + seq![':'] + port_text,
        port_number(port_text) is Some,
    ensures
        head_authority(head) == head.path,
        resolved_target(head.path->0, addresses) == Some(
            TargetView { host, port: port_number(port_text)->0 },
        ),
{
    lemma_first_ipv4_is_preferred(head.path->0, addresses, i);
    lemma_authority_round_trip(host, port_text);
}

fn to_ascii_uppercase(c: char) -> (upper: char)
    ensures
        upper == ascii_uppercase(c),
{
    if c >= 'a' && c <= 'z' {
        (c as u8 - 32) as char
    } else {
        c
    }
}

/// Tells whether a method is `CONNECT`, whatever the case of its letters.
pub fn is_connect(method: &str) -> (yes: bool)
    ensures
        yes == is_connect_method(method@),
{
    let expected = "CONNECT";
    proof {
        reveal_strlit("CONNECT");
    }
    if method.unicode_len() != 7 {
        return false;
    }
    let mut i: usize = 0;
    while i < 7
        invariant
            i <= 7,
            method@.len() == 7,
            expected@ == connect_method(),
            expected@.len() == 7,
            forall|j: int| 0 <= j < i ==> ascii_uppercase(#[trigger] method@[j]) == expected@[j],
        decreases 7 - i,
    {
        if to_ascii_uppercase(method.get_char(i)) != expected.get_char(i) {
            return false;
        }
        i = i + 1;
    }
    true
}

/// Takes the authority out of a request head.
///
/// Fails with [`Termination::ProtocolViolation`] unless the head is that of a
/// `CONNECT` request of version 1.0 or 1.1.
pub fn connect_authority(head: RequestHead) -> (r: Result<String, Termination>)
    ensures
        match r {
            Ok(authority) => head_authority(head@) == Some(authority@),
            Err(e) => e == Termination::ProtocolViolation && head_authority(head@) is None,
        },
{
    match (head.method, head.path, head.version) {
        (Some(method), Some(path), Some(version)) => {
            if is_connect(method.as_str()) && (version == 0 || version == 1) {
                Ok(path)
            } else {
                Err(Termination::ProtocolViolation)
            }
        },
        _ => Err(Termination::ProtocolViolation),
    }
}

/// Reads the request at the start of `buf` and returns the authority it asks
/// a tunnel to.
///
/// Fails with [`Termination::ProtocolViolation`] when the bytes are no HTTP
/// request, or a request other than a `CONNECT` of version 1.0 or 1.1.
pub fn process_http_connect(buf: &[u8]) -> (r: Result<String, Termination>)
    ensures
        match r {
            Ok(authority) => request_authority(buf@) == Some(authority@),
            Err(e) => e == Termination::ProtocolViolation && request_authority(buf@) is None,
        },
{
    match parse_request_head(buf, MAX_HEADERS) {
        Ok(head) => connect_authority(head),
        Err(_) => Err(Termination::ProtocolViolation),
    }
}

} // verus!
