//! Discovery of the media server on the local network.
//!
//! The server answers a broadcast probe on UDP port 3483 with one datagram
//! made of tagged values. Each value starts with a tag, followed by the length
//! of the value in one byte, then the value itself in the next `length` bytes:
//!
//! ```text
//! ENAME <16> myhostname JSON <4> 9000 UUID <36> e9b557b8-... VERS <5> 8.3.1
//! ```
//!
//! This module decodes such a reply and decides, event by event, what the
//! discovery client does next. Sending and receiving are left to the caller.
use crate::text::{
    decimal_digits, decimal_value, lemma_decimal_digits_value, lemma_decimal_round_trip,
    lemma_digits_valid_utf8, parse_decimal,
};
use vstd::prelude::*;
use vstd::slice::slice_subrange;
use vstd::string::*;
use vstd::utf8::{
    decode_utf8, decode_utf8_encode_utf8, encode_utf8, encode_utf8_decode_utf8,
    encode_utf8_valid_utf8, valid_utf8,
};

verus! {

/// The UDP port on which the server listens for discovery probes.
pub const DISCOVERY_PORT: u16 = 3483;

/// What the server says of itself in a discovery reply.
#[derive(Debug)]
pub struct Reply {
    pub hostname: String,
    pub port: u16,
    pub uuid: String,
    pub version: String,
}

/// The mathematical value of a [`Reply`].
pub struct ReplyView {
    pub hostname: Seq<char>,
    pub port: u16,
    pub uuid: Seq<char>,
    pub version: Seq<char>,
}

impl View for Reply {
    type V = ReplyView;

    open spec fn view(&self) -> ReplyView {
        ReplyView {
            hostname: self.hostname@,
            port: self.port,
            uuid: self.uuid@,
            version: self.version@,
        }
    }
}

/// What went wrong while decoding a discovery reply.
#[derive(Clone, Copy, Debug, PartialEq, Eq, Structural)]
pub enum ParseError {
    /// The expected tag is not at the current position.
    Tag,
    /// The buffer ends before the length byte or before the end of the value.
    Truncated,
    /// The value is not valid UTF-8.
    Utf8,
    /// The port is not the decimal form of a 16-bit unsigned integer.
    Port,
}

/// The bytes of `ENAME`, the tag of the server's host name.
pub open spec fn hostname_tag() -> Seq<u8> {
    seq![0x45u8, 0x4e, 0x41, 0x4d, 0x45]
}

/// The bytes of `JSON`, the tag of the port of the control interface.
pub open spec fn port_tag() -> Seq<u8> {
    seq![0x4au8, 0x53, 0x4f, 0x4e]
}

/// The bytes of `UUID`, the tag of the server's identifier.
pub open spec fn uuid_tag() -> Seq<u8> {
    seq![0x55u8, 0x55, 0x49, 0x44]
}

/// The bytes of `VERS`, the tag of the server's version.
pub open spec fn version_tag() -> Seq<u8> {
    seq![0x56u8, 0x45, 0x52, 0x53]
}

/// A tag, the length of the value in one byte, and the value.
pub open spec fn tagged(tag: Seq<u8>, value: Seq<u8>) -> Seq<u8>
    recommends
        value.len() <= 255,
{
    tag + seq![value.len() as u8] + value
}

/// The value that follows `tag` at the start of `input`, and what is left of
/// `input` behind it.
pub open spec fn tagged_value(input: Seq<u8>, tag: Seq<u8>) -> Result<
    (Seq<u8>, Seq<u8>),
    ParseError,
> {
    if !(tag.len() <= input.len() && input.take(tag.len() as int) == tag) {
        Err(ParseError::Tag)
    } else if input.len() == tag.len() {
        Err(ParseError::Truncated)
    } else {
        let start = tag.len() as int + 1;
        let end = start + input[tag.len() as int] as int;
        if input.len() < end {
            Err(ParseError::Truncated)
        } else {
            Ok((input.skip(end), input.subrange(start, end)))
        }
    }
}

/// The text that follows `tag` at the start of `input`, and what is left of
/// `input` behind it.
pub open spec fn tagged_text(input: Seq<u8>, tag: Seq<u8>) -> Result<
    (Seq<u8>, Seq<char>),
    ParseError,
> {
    match tagged_value(input, tag) {
        Err(e) => Err(e),
        Ok((rest, value)) => if valid_utf8(value) {
            Ok((rest, decode_utf8(value)))
        } else {
            Err(ParseError::Utf8)
        },
    }
}

/// The port at the start of `input`, and what is left of `input` behind it.
pub open spec fn tagged_port(input: Seq<u8>) -> Result<(Seq<u8>, u16), ParseError> {
    match tagged_value(input, port_tag()) {
        Err(e) => Err(e),
        Ok((rest, value)) => if !valid_utf8(value) {
            Err(ParseError::Utf8)
        } else {
            match decimal_value(value, u16::MAX as nat) {
                Some(port) => Ok((rest, port as u16)),
                None => Err(ParseError::Port),
            }
        },
    }
}

/// The reply at the start of `input`: host name, port, identifier and
/// version, in this order. Whatever follows the version is left over.
pub open spec fn reply_of(input: Seq<u8>) -> Result<(Seq<u8>, ReplyView), ParseError> {
    match tagged_text(input, hostname_tag()) {
        Err(e) => Err(e),
        Ok((rest, hostname)) => match tagged_port(rest) {
            Err(e) => Err(e),
            Ok((rest, port)) => match tagged_text(rest, uuid_tag()) {
                Err(e) => Err(e),
                Ok((rest, uuid)) => match tagged_text(rest, version_tag()) {
                    Err(e) => Err(e),
                    Ok((rest, version)) => Ok((rest, ReplyView { hostname, port, uuid, version })),
                },
            },
        },
    }
}

/// The reply datagram of a server with these properties.
pub open spec fn reply_bytes(
    hostname: Seq<char>,
    port: u16,
    uuid: Seq<char>,
    version: Seq<char>,
) -> Seq<u8>
    recommends
        encode_utf8(hostname).len() <= 255,
        encode_utf8(uuid).len() <= 255,
        encode_utf8(version).len() <= 255,
{
    tagged(hostname_tag(), encode_utf8(hostname)) + tagged(port_tag(), decimal_digits(port as nat))
        + tagged(uuid_tag(), encode_utf8(uuid)) + tagged(version_tag(), encode_utf8(version))
}

/// `String::from_utf8` of the standard library: the text that `bytes` encode,
/// which exists exactly when they are valid UTF-8.
#[verifier::external_body]
fn string_from_utf8(bytes: &[u8]) -> (r: Option<String>)
    ensures
        r is Some <==> valid_utf8(bytes@),
        r matches Some(text) ==> text@ == decode_utf8(bytes@),
{
    String::from_utf8(bytes.to_vec()).ok()
}

/// Reads the text that follows `start_tag` at the start of `input`.
pub fn parse_tag<'a>(input: &'a [u8], start_tag: &str) -> (r: Result<(&'a [u8], String), ParseError>)
    ensures
        match r {
            Ok((rest, text)) => tagged_text(input@, start_tag.spec_bytes()) == Ok::<
                _,
                ParseError,
            >((rest@, text@)),
            Err(e) => tagged_text(input@, start_tag.spec_bytes()) == Err::<
                (Seq<u8>, Seq<char>),
                _,
            >(e),
        },
{
    let tag = start_tag.as_bytes();
    let n = tag.len();
    if input.len() < n {
        return Err(ParseError::Tag);
    }
    let mut i: usize = 0;
    while i < n
        invariant
            i <= n <= input.len(),
            n == tag.len(),
            tag@ == start_tag.spec_bytes(),
            forall|j: int| 0 <= j < i ==> input[j] == tag[j],
        decreases n - i,
    {
        if input[i] != tag[i] {
            assert(input@.take(n as int)[i as int] != tag@[i as int]);
            return Err(ParseError::Tag);
        }
        i += 1;
    }
    assert(input@.take(n as int) =~= tag@);
    if input.len() == n {
        return Err(ParseError::Truncated);
    }
    let length = input[n] as usize;
    let start = n + 1;
    if input.len() - start < length {
        return Err(ParseError::Truncated);
    }
    let end = start + length;
    let value = slice_subrange(input, start, end);
    let rest = slice_subrange(input, end, input.len());
    assert(rest@ =~= input@.skip(end as int));
    match string_from_utf8(value) {
        Some(text) => Ok((rest, text)),
        None => Err(ParseError::Utf8),
    }
}

/// The bytes of an ASCII literal are its characters.
proof fn lemma_ascii_bytes(text: &str)
    requires
        is_ascii(text),
    ensures
        text.spec_bytes().len() == text@.len(),
        forall|i: int| 0 <= i < text@.len() ==> text.spec_bytes()[i] == text@[i] as u8,
{
    is_ascii_spec_bytes(text);
}

/// Reads the server's host name at the start of `input`.
pub fn parse_hostname(input: &[u8]) -> (r: Result<(&[u8], String), ParseError>)
    ensures
        match r {
            Ok((rest, text)) => tagged_text(input@, hostname_tag()) == Ok::<_, ParseError>(
                (rest@, text@),
            ),
            Err(e) => tagged_text(input@, hostname_tag()) == Err::<(Seq<u8>, Seq<char>), _>(e),
        },
{
    proof {
        reveal_strlit("ENAME");
        lemma_ascii_bytes("ENAME");
        assert("ENAME".spec_bytes() =~= hostname_tag());
    }
    parse_tag(input, "ENAME")
}

/// Reads the port of the control interface at the start of `input`.
pub fn parse_port(input: &[u8]) -> (r: Result<(&[u8], u16), ParseError>)
    ensures
        match r {
            Ok((rest, port)) => tagged_port(input@) == Ok::<_, ParseError>((rest@, port)),
            Err(e) => tagged_port(input@) == Err::<(Seq<u8>, u16), _>(e),
        },
{
    proof {
        reveal_strlit("JSON");
        lemma_ascii_bytes("JSON");
        assert("JSON".spec_bytes() =~= port_tag());
    }
    match parse_tag(input, "JSON") {
        Err(e) => Err(e),
        Ok((rest, text)) => {
            proof {
                decode_utf8_encode_utf8(tagged_value(input@, port_tag())->Ok_0.1);
            }
            match parse_decimal(text.as_str().as_bytes(), 65535) {
                Some(port) => Ok((rest, port as u16)),
                None => Err(ParseError::Port),
            }
        },
    }
}

/// Reads the server's identifier at the start of `input`.
pub fn parse_uuid(input: &[u8]) -> (r: Result<(&[u8], String), ParseError>)
    ensures
        match r {
            Ok((rest, text)) => tagged_text(input@, uuid_tag()) == Ok::<_, ParseError>(
                (rest@, text@),
            ),
            Err(e) => tagged_text(input@, uuid_tag()) == Err::<(Seq<u8>, Seq<char>), _>(e),
        },
{
    proof {
        reveal_strlit("UUID");
        lemma_ascii_bytes("UUID");
        assert("UUID".spec_bytes() =~= uuid_tag());
    }
    parse_tag(input, "UUID")
}

/// Reads the server's version at the start of `input`.
pub fn parse_version(input: &[u8]) -> (r: Result<(&[u8], String), ParseError>)
    ensures
        match r {
            Ok((rest, text)) => tagged_text(input@, version_tag()) == Ok::<_, ParseError>(
                (rest@, text@),
            ),
            Err(e) => tagged_text(input@, version_tag()) == Err::<(Seq<u8>, Seq<char>), _>(e),
        },
{
    proof {
        reveal_strlit("VERS");
        lemma_ascii_bytes("VERS");
        assert("VERS".spec_bytes() =~= version_tag());
    }
    parse_tag(input, "VERS")
}

/// Decodes a discovery reply: host name, port, identifier and version, in
/// this order. What follows the version, such as the padding of a receive
/// buffer, is handed back untouched.
pub fn parse_reply(input: &[u8]) -> (r: Result<(&[u8], Reply), ParseError>)
    ensures
        match r {
            Ok((rest, reply)) => reply_of(input@) == Ok::<_, ParseError>((rest@, reply@)),
            Err(e) => reply_of(input@) == Err::<(Seq<u8>, ReplyView), _>(e),
        },
{
    let (rest, hostname) = match parse_hostname(input) {
        Ok(found) => found,
        Err(e) => {
            return Err(e);
        },
    };
    let (rest, port) = match parse_port(rest) {
        Ok(found) => found,
        Err(e) => {
            return Err(e);
        },
    };
    let (rest, uuid) = match parse_uuid(rest) {
        Ok(found) => found,
        Err(e) => {
            return Err(e);
        },
    };
    let (rest, version) = match parse_version(rest) {
        Ok(found) => found,
        Err(e) => {
            return Err(e);
        },
    };
    Ok((rest, Reply { hostname, port, uuid, version }))
}

/// The probe datagram: `e`, then the tags of the four values that the server
/// is asked for, each with an empty value.
pub open spec fn probe_bytes() -> Seq<u8> {
    seq![0x65u8] + tagged(hostname_tag().skip(1), seq![]) + tagged(port_tag(), seq![]) + tagged(
        uuid_tag(),
        seq![],
    ) + tagged(version_tag(), seq![])
}

/// The datagram to broadcast to port [`DISCOVERY_PORT`].
pub fn probe_message() -> (r: Vec<u8>)
    ensures
        r@ == probe_bytes(),
{
    let probe = vec![
        0x65u8,
        0x4e,
        0x41,
        0x4d,
        0x45,
        0,
        0x4a,
        0x53,
        0x4f,
        0x4e,
        0,
        0x55,
        0x55,
        0x49,
        0x44,
        0,
        0x56,
        0x45,
        0x52,
        0x53,
        0,
    ];
    assert(probe@ =~= probe_bytes());
    probe
}

/// A server that answered the probe.
#[derive(Debug)]
pub struct Discovered {
    /// The address from which the reply came. It is the one to use: what the
    /// server says of itself may not be reachable from here.
    pub address: String,
    pub reply: Reply,
}

/// Why the discovery failed.
#[derive(Debug)]
pub enum DiscoverError {
    /// The probe could not be sent or nothing could be received.
    Transport { cause: String },
    /// A reply came that is not in the expected format.
    Parse(ParseError),
    /// No server answered before the overall deadline.
    Timeout { seconds: u64 },
}

/// The mathematical value of a [`DiscoverError`].
pub enum DiscoverErrorView {
    Transport { cause: Seq<char> },
    Parse(ParseError),
    Timeout { seconds: u64 },
}

impl View for DiscoverError {
    type V = DiscoverErrorView;

    open spec fn view(&self) -> DiscoverErrorView {
        match self {
            DiscoverError::Transport { cause } => DiscoverErrorView::Transport { cause: cause@ },
            DiscoverError::Parse(e) => DiscoverErrorView::Parse(*e),
            DiscoverError::Timeout { seconds } => DiscoverErrorView::Timeout { seconds: *seconds },
        }
    }
}

/// What happened since the discovery client last acted.
#[derive(Debug)]
pub enum DiscoveryEvent {
    /// The discovery starts.
    Started,
    /// No datagram came within the time allowed for one attempt.
    AttemptTimedOut,
    /// A datagram came from `source`.
    Datagram { source: String, payload: Vec<u8> },
    /// Sending or receiving failed.
    TransportFailed { cause: String },
    /// The overall deadline, of so many seconds, has passed.
    DeadlineElapsed { seconds: u64 },
}

/// What the discovery client does next.
#[derive(Debug)]
pub enum DiscoveryAction {
    /// Broadcast [`probe_message`] and wait for one datagram, for at most
    /// `reply_timeout` milliseconds.
    Probe { reply_timeout: u64 },
    /// Stop with this outcome.
    Finish(Result<Discovered, DiscoverError>),
}

/// Decides the next step of the discovery. The probe is sent at the start and
/// again, at once, whenever an attempt times out. The first datagram that
/// comes decides the outcome: it is the server's reply, or the discovery has
/// failed. A failure of the transport and the overall deadline end it too.
pub fn discover(reply_timeout: u64, event: DiscoveryEvent) -> (action: DiscoveryAction)
    ensures
        match event {
            DiscoveryEvent::Started | DiscoveryEvent::AttemptTimedOut => action
                == (DiscoveryAction::Probe { reply_timeout }),
            DiscoveryEvent::Datagram { source, payload } => match reply_of(payload@) {
                Ok((_, reply)) => action matches DiscoveryAction::Finish(Ok(found))
                    && found.address@ == source@ && found.reply@ == reply,
                Err(e) => action matches DiscoveryAction::Finish(Err(failure)) && failure@
                    == DiscoverErrorView::Parse(e),
            },
            DiscoveryEvent::TransportFailed { cause } => action matches DiscoveryAction::Finish(
                Err(failure),
            ) && failure@ == (DiscoverErrorView::Transport { cause: cause@ }),
            DiscoveryEvent::DeadlineElapsed { seconds } => action matches DiscoveryAction::Finish(
                Err(failure),
            ) && failure@ == (DiscoverErrorView::Timeout { seconds }),
        },
{
    match event {
        DiscoveryEvent::Started => DiscoveryAction::Probe { reply_timeout },
        DiscoveryEvent::AttemptTimedOut => DiscoveryAction::Probe { reply_timeout },
        DiscoveryEvent::Datagram { source, payload } => match parse_reply(payload.as_slice()) {
            Ok((_, reply)) => DiscoveryAction::Finish(Ok(Discovered { address: source, reply })),
            Err(e) => DiscoveryAction::Finish(Err(DiscoverError::Parse(e))),
        },
        DiscoveryEvent::TransportFailed { cause } => DiscoveryAction::Finish(
            Err(DiscoverError::Transport { cause }),
        ),
        DiscoveryEvent::DeadlineElapsed { seconds } => DiscoveryAction::Finish(
            Err(DiscoverError::Timeout { seconds }),
        ),
    }
}

/// A value is read back from behind its tag, whatever follows it.
pub proof fn lemma_tagged_value(tag: Seq<u8>, value: Seq<u8>, rest: Seq<u8>)
    requires
        value.len() <= 255,
    ensures
        tagged_value(tagged(tag, value) + rest, tag) == Ok::<_, ParseError>((rest, value)),
{
    let input = tagged(tag, value) + rest;
    let start = tag.len() as int + 1;
    let end = start + value.len();
    assert(input.take(tag.len() as int) =~= tag);
    assert(input[tag.len() as int] == value.len() as u8);
    assert(input.skip(end) =~= rest);
    assert(input.subrange(start, end) =~= value);
}

/// A text is read back from behind its tag, whatever follows it.
pub proof fn lemma_tagged_text(tag: Seq<u8>, text: Seq<char>, rest: Seq<u8>)
    requires
        encode_utf8(text).len() <= 255,
    ensures
        tagged_text(tagged(tag, encode_utf8(text)) + rest, tag) == Ok::<_, ParseError>(
            (rest, text),
        ),
{
    lemma_tagged_value(tag, encode_utf8(text), rest);
    encode_utf8_valid_utf8(text);
    encode_utf8_decode_utf8(text);
}

/// A port is read back from its decimal form, whatever follows it.
pub proof fn lemma_tagged_port(port: u16, rest: Seq<u8>)
    ensures
        decimal_digits(port as nat).len() <= 5,
        tagged_port(tagged(port_tag(), decimal_digits(port as nat)) + rest) == Ok::<
            _,
            ParseError,
        >((rest, port)),
{
    let digits = decimal_digits(port as nat);
    assert(digits.len() <= 5) by {
        reveal_with_fuel(decimal_digits, 6);
    }
    lemma_tagged_value(port_tag(), digits, rest);
    lemma_decimal_digits_value(port as nat);
    lemma_digits_valid_utf8(digits);
    lemma_decimal_round_trip(port as nat, u16::MAX as nat);
}

/// Round trip: a datagram built from a host name, a port, an identifier and a
/// version, each text of at most 255 bytes, decodes to exactly these four
/// values, and what follows them in the buffer is left over.
pub proof fn lemma_reply_round_trip(
    hostname: Seq<char>,
    port: u16,
    uuid: Seq<char>,
    version: Seq<char>,
    padding: Seq<u8>,
)
    requires
        encode_utf8(hostname).len() <= 255,
        encode_utf8(uuid).len() <= 255,
        encode_utf8(version).len() <= 255,
    ensures
        reply_of(reply_bytes(hostname, port, uuid, version) + padding) == Ok::<_, ParseError>(
            (padding, ReplyView { hostname, port, uuid, version }),
        ),
{
    let input = reply_bytes(hostname, port, uuid, version) + padding;
    let after_version = padding;
    let after_uuid = tagged(version_tag(), encode_utf8(version)) + after_version;
    let after_port = tagged(uuid_tag(), encode_utf8(uuid)) + after_uuid;
    let after_hostname = tagged(port_tag(), decimal_digits(port as nat)) + after_port;
    assert(input =~= tagged(hostname_tag(), encode_utf8(hostname)) + after_hostname);
    lemma_tagged_text(hostname_tag(), hostname, after_hostname);
    lemma_tagged_port(port, after_port);
    lemma_tagged_text(uuid_tag(), uuid, after_uuid);
    lemma_tagged_text(version_tag(), version, after_version);
}

/// A reply is decoded from the front of the buffer: what is left over is the
/// end of the input, and at least the four tags and length bytes were read.
pub proof fn lemma_reply_consumes(input: Seq<u8>)
    requires
        reply_of(input) is Ok,
    ensures
        reply_of(input)->Ok_0.0.len() + 21 <= input.len(),
        reply_of(input)->Ok_0.0 == input.skip(input.len() - reply_of(input)->Ok_0.0.len()),
{
    let (rest1, _) = tagged_value(input, hostname_tag())->Ok_0;
    let (rest2, _) = tagged_value(rest1, port_tag())->Ok_0;
    let (rest3, _) = tagged_value(rest2, uuid_tag())->Ok_0;
    let (rest4, _) = tagged_value(rest3, version_tag())->Ok_0;
    assert(rest4 =~= input.skip(input.len() - rest4.len()));
}

/// A buffer that ends before a declared length is reached is refused.
pub proof fn lemma_length_out_of_range(input: Seq<u8>, tag: Seq<u8>)
    requires
        tag.len() < input.len(),
        input.take(tag.len() as int) == tag,
        input.len() < tag.len() + 1 + input[tag.len() as int],
    ensures
        tagged_text(input, tag) == Err::<(Seq<u8>, Seq<char>), _>(ParseError::Truncated),
{
}

} // verus!
