//! Frames: a message travels as a length prefix of two bytes, most
//! significant first, followed by that many bytes of payload. A sender
//! refuses a payload that the prefix cannot announce. A receiver judges the
//! prefix before it reads on, and takes no payload of more than
//! `MAX_MESSAGE_LENGTH` bytes.

use vstd::prelude::*;
use vstd::std_specs::convert::FromSpecImpl;

verus! {

/// The error type of `serde_json`. Nothing is known of what it holds.
#[verifier::external_type_specification]
#[verifier::external_body]
pub struct ExJsonError(serde_json::Error);

/// The error type of `std::io`. Nothing is known of what it holds.
#[verifier::external_type_specification]
#[verifier::external_body]
pub struct ExIoError(std::io::Error);

/// Number of bytes of the length prefix of a frame.
pub const LENGTH_PREFIX_SIZE: usize = 2;

/// The longest payload that a receiver takes.
pub const MAX_MESSAGE_LENGTH: usize = 250;

/// What went wrong, as far as the session needs to tell faults apart.
#[derive(Debug, Copy, Clone, PartialEq, Eq, Structural)]
pub enum ErrorCategory {
    Serialisation,
    Deserialisation,
    ReadWrite,
    InvalidParameters,
}

/// An error that belongs to one of the categories.
pub trait HasErrorCategory {
    /// The category of the error.
    spec fn category_of(&self) -> ErrorCategory;

    fn category(&self) -> (category: ErrorCategory)
        ensures
            category == self.category_of(),
    ;
}

/// Why no message could be received.
#[derive(Debug)]
pub enum ReadError {
    /// The payload is not a message of the expected type.
    Deserialise(serde_json::Error),
    /// The stream failed or ended before the frame did.
    Read(std::io::Error),
    /// The prefix announces more than `MAX_MESSAGE_LENGTH` bytes.
    InvalidMessageLength,
}

/// Why no message could be sent.
#[derive(Debug)]
pub enum WriteError {
    /// The message could not be put into bytes.
    Serialise(serde_json::Error),
    /// The stream failed.
    Write(std::io::Error),
    /// The message takes more bytes than a length prefix can announce.
    InvalidMessageLength,
}

impl From<serde_json::Error> for ReadError {
    fn from(error: serde_json::Error) -> (result: ReadError) {
        ReadError::Deserialise(error)
    }
}

impl FromSpecImpl<serde_json::Error> for ReadError {
    open spec fn obeys_from_spec() -> bool {
        true
    }

    open spec fn from_spec(error: serde_json::Error) -> ReadError {
        ReadError::Deserialise(error)
    }
}

impl From<std::io::Error> for ReadError {
    fn from(error: std::io::Error) -> (result: ReadError) {
        ReadError::Read(error)
    }
}

impl FromSpecImpl<std::io::Error> for ReadError {
    open spec fn obeys_from_spec() -> bool {
        true
    }

    open spec fn from_spec(error: std::io::Error) -> ReadError {
        ReadError::Read(error)
    }
}

impl From<serde_json::Error> for WriteError {
    fn from(error: serde_json::Error) -> (result: WriteError) {
        WriteError::Serialise(error)
    }
}

impl FromSpecImpl<serde_json::Error> for WriteError {
    open spec fn obeys_from_spec() -> bool {
        true
    }

    open spec fn from_spec(error: serde_json::Error) -> WriteError {
        WriteError::Serialise(error)
    }
}

impl From<std::io::Error> for WriteError {
    fn from(error: std::io::Error) -> (result: WriteError) {
        WriteError::Write(error)
    }
}

impl FromSpecImpl<std::io::Error> for WriteError {
    open spec fn obeys_from_spec() -> bool {
        true
    }

    open spec fn from_spec(error: std::io::Error) -> WriteError {
        WriteError::Write(error)
    }
}

impl HasErrorCategory for ReadError {
    open spec fn category_of(&self) -> ErrorCategory {
        match self {
            ReadError::Deserialise(_) => ErrorCategory::Deserialisation,
            ReadError::Read(_) => ErrorCategory::ReadWrite,
            ReadError::InvalidMessageLength => ErrorCategory::InvalidParameters,
        }
    }

    fn category(&self) -> (category: ErrorCategory) {
        match self {
            ReadError::Deserialise(_) => ErrorCategory::Deserialisation,
            ReadError::Read(_) => ErrorCategory::ReadWrite,
            ReadError::InvalidMessageLength => ErrorCategory::InvalidParameters,
        }
    }
}

impl HasErrorCategory for WriteError {
    open spec fn category_of(&self) -> ErrorCategory {
        match self {
            WriteError::Serialise(_) => ErrorCategory::Serialisation,
            WriteError::Write(_) => ErrorCategory::ReadWrite,
            WriteError::InvalidMessageLength => ErrorCategory::InvalidParameters,
        }
    }

    fn category(&self) -> (category: ErrorCategory) {
        match self {
            WriteError::Serialise(_) => ErrorCategory::Serialisation,
            WriteError::Write(_) => ErrorCategory::ReadWrite,
            WriteError::InvalidMessageLength => ErrorCategory::InvalidParameters,
        }
    }
}

/// The longest payload that a length prefix can announce.
pub const MAX_FRAME_LENGTH: usize = 65535;

/// The two bytes that announce a payload of `len` bytes, most significant
/// byte first.
pub open spec fn length_prefix(len: u16) -> Seq<u8> {
    seq![(len / 256) as u8, (len % 256) as u8]
}

/// The length that the first two bytes of `stream` announce.
pub open spec fn announced_length(stream: Seq<u8>) -> nat {
    (stream[0] as nat) * 256 + (stream[1] as nat)
}

/// A payload as it travels, if it can: its length prefix, then the payload
/// itself. A payload of more than `MAX_FRAME_LENGTH` bytes has no frame.
pub open spec fn frame_of(payload: Seq<u8>) -> Option<Seq<u8>> {
    if payload.len() <= MAX_FRAME_LENGTH {
        Some(length_prefix(payload.len() as u16) + payload)
    } else {
        None
    }
}

/// What a receiver finds at the head of a stream that holds `stream` and
/// then ends.
pub enum Reading {
    /// The stream ends before the prefix or the announced payload does.
    Truncated,
    /// The prefix announces more than `MAX_MESSAGE_LENGTH` bytes.
    Oversized,
    /// A whole frame with this payload.
    Frame(Seq<u8>),
}

/// The reading of `stream`. The announced length is judged as soon as the
/// prefix is there, whatever follows it.
pub open spec fn reading_of(stream: Seq<u8>) -> Reading {
    if stream.len() < LENGTH_PREFIX_SIZE {
        Reading::Truncated
    } else if announced_length(stream) > MAX_MESSAGE_LENGTH {
        Reading::Oversized
    } else if stream.len() < LENGTH_PREFIX_SIZE + announced_length(stream) {
        Reading::Truncated
    } else {
        Reading::Frame(
            stream.subrange(
                LENGTH_PREFIX_SIZE as int,
                LENGTH_PREFIX_SIZE + announced_length(stream),
            ),
        )
    }
}

/// The decimal digits of `byte` as text, without leading zeros.
pub open spec fn decimal_of(byte: u8) -> Seq<u8> {
    if byte < 10 {
        seq![(48 + byte) as u8]
    } else if byte < 100 {
        seq![(48 + byte / 10) as u8, (48 + byte % 10) as u8]
    } else {
        seq![(48 + byte / 100) as u8, (48 + (byte / 10) % 10) as u8, (48 + byte % 10) as u8]
    }
}

/// The numbers of `bytes` in decimal, with a comma between each two.
pub open spec fn json_items(bytes: Seq<u8>) -> Seq<u8>
    decreases bytes.len(),
{
    if bytes.len() == 0 {
        Seq::empty()
    } else if bytes.len() == 1 {
        decimal_of(bytes[0])
    } else {
        json_items(bytes.drop_last()) + seq![44u8] + decimal_of(bytes.last())
    }
}

/// The JSON text of a list of bytes: an opening bracket, the numbers in
/// decimal with commas between them, a closing bracket, and no white space.
pub open spec fn json_of_bytes(bytes: Seq<u8>) -> Seq<u8> {
    seq![91u8] + json_items(bytes) + seq![93u8]
}

/// The list of bytes that `serde_json::from_slice` reads from a JSON text,
/// where it reads one.
pub uninterp spec fn bytes_of_json(text: Seq<u8>) -> Option<Seq<u8>>;

/// Calls `serde_json::to_string` on a list of bytes and hands the text out
/// as bytes. The call fails only where the value's own `Serialize` fails or
/// a map has a key that is no string, and a list of bytes does neither: the
/// result is `Ok`. It writes a list as a bracket, its items with a comma
/// before each but the first, and a bracket, and a byte as its decimal
/// digits: the text is `json_of_bytes`.
#[verifier::external_body]
fn bytes_to_json(bytes: &Vec<u8>) -> (text: Result<Vec<u8>, serde_json::Error>)
    ensures
        match text {
            Ok(t) => t@ == json_of_bytes(bytes@),
            Err(_) => false,
        },
{
    serde_json::to_string(bytes).map(String::into_bytes)
}

/// Calls `serde_json::from_slice` for a list of bytes. The result is `Ok`
/// exactly where `bytes_of_json` names a list for the text, and then holds
/// that list.
#[verifier::external_body]
fn bytes_from_json(text: &[u8]) -> (bytes: Result<Vec<u8>, serde_json::Error>)
    ensures
        match bytes {
            Ok(b) => bytes_of_json(text@) == Some(b@),
            Err(_) => bytes_of_json(text@) is None,
        },
{
    serde_json::from_slice::<Vec<u8>>(text)
}

/// Makes the `std::io::Error` of kind `UnexpectedEof`, with which a read
/// ends when the stream does before the frame.
#[verifier::external_body]
fn unexpected_end_of_stream() -> std::io::Error {
    std::io::Error::from(std::io::ErrorKind::UnexpectedEof)
}

/// The length prefix for a payload of `len` bytes.
pub fn encode_length(len: u16) -> (prefix: [u8; 2])
    ensures
        prefix@ == length_prefix(len),
{
    let prefix: [u8; 2] = [(len / 256) as u8, (len % 256) as u8];
    assert(prefix@ =~= length_prefix(len));
    prefix
}

/// The length that `prefix` announces.
pub fn decode_length(prefix: &[u8; 2]) -> (len: usize)
    ensures
        len == announced_length(prefix@),
{
    let high: usize = prefix[0] as usize;
    let low: usize = prefix[1] as usize;
    high * 256 + low
}

/// Puts the length prefix in front of `payload`. A payload of more than
/// `MAX_FRAME_LENGTH` bytes is refused: no prefix can announce it.
pub fn frame_payload(payload: &[u8]) -> (result: Result<Vec<u8>, WriteError>)
    ensures
        match frame_of(payload@) {
            Some(frame) => result matches Ok(f) && f@ == frame,
            None => result matches Err(WriteError::InvalidMessageLength),
        },
{
    if payload.len() > MAX_FRAME_LENGTH {
        return Err(WriteError::InvalidMessageLength);
    }
    let prefix = encode_length(payload.len() as u16);
    let mut frame: Vec<u8> = Vec::new();
    frame.push(prefix[0]);
    frame.push(prefix[1]);
    frame.extend_from_slice(payload);
    assert(frame@ =~= frame_of(payload@)->0);
    Ok(frame)
}

/// Frames what a serialiser returned: the bytes to write for a message that
/// was serialised and can be framed, the serialiser's error for one that
/// was not serialised, and `InvalidMessageLength` for one whose bytes are
/// too many to frame.
pub fn frame_serialised(serialised: Result<Vec<u8>, serde_json::Error>) -> (result: Result<
    Vec<u8>,
    WriteError,
>)
    ensures
        match serialised {
            Ok(payload) => match frame_of(payload@) {
                Some(frame) => result matches Ok(f) && f@ == frame,
                None => result matches Err(WriteError::InvalidMessageLength),
            },
            Err(error) => result matches Err(WriteError::Serialise(e)) && e == error,
        },
{
    match serialised {
        Ok(payload) => frame_payload(payload.as_slice()),
        Err(error) => Err(WriteError::from(error)),
    }
}

/// The frame that carries a list of bytes as a message: its JSON text behind
/// the length prefix. A list whose text is too long to frame is refused.
pub fn write_event(event: &Vec<u8>) -> (result: Result<Vec<u8>, WriteError>)
    ensures
        match frame_of(json_of_bytes(event@)) {
            Some(frame) => result matches Ok(f) && f@ == frame,
            None => result matches Err(WriteError::InvalidMessageLength),
        },
{
    frame_serialised(bytes_to_json(event))
}

/// Judges a length prefix before any byte of the payload is read: the number
/// of bytes to read next, unless the prefix announces more than
/// `MAX_MESSAGE_LENGTH`.
pub fn body_length(prefix: &[u8; 2]) -> (result: Result<usize, ReadError>)
    ensures
        match result {
            Ok(len) => len == announced_length(prefix@) && len <= MAX_MESSAGE_LENGTH,
            Err(error) => error is InvalidMessageLength && announced_length(prefix@)
                > MAX_MESSAGE_LENGTH,
        },
{
    let len = decode_length(prefix);
    if len > MAX_MESSAGE_LENGTH {
        return Err(ReadError::InvalidMessageLength);
    }
    Ok(len)
}

/// Takes the frame at the head of `stream`, a stream that ends after these
/// bytes, and returns its payload.
pub fn read_frame(stream: &[u8]) -> (result: Result<Vec<u8>, ReadError>)
    ensures
        match reading_of(stream@) {
            Reading::Truncated => result matches Err(ReadError::Read(_)),
            Reading::Oversized => result matches Err(ReadError::InvalidMessageLength),
            Reading::Frame(payload) => result matches Ok(body) && body@ == payload,
        },
{
    if stream.len() < LENGTH_PREFIX_SIZE {
        return Err(ReadError::from(unexpected_end_of_stream()));
    }
    let prefix: [u8; 2] = [stream[0], stream[1]];
    assert(announced_length(prefix@) == announced_length(stream@));
    let len = match body_length(&prefix) {
        Ok(len) => len,
        Err(error) => {
            return Err(error);
        },
    };
    if stream.len() - LENGTH_PREFIX_SIZE < len {
        return Err(ReadError::from(unexpected_end_of_stream()));
    }
    let mut body: Vec<u8> = Vec::new();
    let mut i: usize = 0;
    while i < len
        invariant
            i <= len,
            LENGTH_PREFIX_SIZE + len <= stream@.len() <= usize::MAX,
            body@ == stream@.subrange(LENGTH_PREFIX_SIZE as int, LENGTH_PREFIX_SIZE + i),
        decreases len - i,
    {
        body.push(stream[LENGTH_PREFIX_SIZE + i]);
        assert(body@ =~= stream@.subrange(LENGTH_PREFIX_SIZE as int, LENGTH_PREFIX_SIZE + i + 1));
        i += 1;
    }
    Ok(body)
}

/// Reads the payload of a frame as a message that is a list of bytes.
pub fn decode_event(body: &[u8]) -> (result: Result<Vec<u8>, ReadError>)
    ensures
        match bytes_of_json(body@) {
            Some(event) => result matches Ok(e) && e@ == event,
            None => result matches Err(ReadError::Deserialise(_)),
        },
{
    match bytes_from_json(body) {
        Ok(event) => Ok(event),
        Err(error) => Err(ReadError::from(error)),
    }
}

/// Receives a message that is a list of bytes from `stream`, a stream that
/// ends after these bytes: takes the frame at its head, then reads the
/// payload.
pub fn read_event(stream: &[u8]) -> (result: Result<Vec<u8>, ReadError>)
    ensures
        match reading_of(stream@) {
            Reading::Truncated => result matches Err(ReadError::Read(_)),
            Reading::Oversized => result matches Err(ReadError::InvalidMessageLength),
            Reading::Frame(payload) => match bytes_of_json(payload) {
                Some(event) => result matches Ok(e) && e@ == event,
                None => result matches Err(ReadError::Deserialise(_)),
            },
        },
{
    match read_frame(stream) {
        Ok(body) => decode_event(body.as_slice()),
        Err(error) => Err(error),
    }
}

/// A prefix announces the length that it was made for.
proof fn lemma_prefix_value(len: u16)
    ensures
        length_prefix(len).len() == LENGTH_PREFIX_SIZE,
        announced_length(length_prefix(len)) == len,
{
    let high = len / 256;
    let low = len % 256;
    assert(high < 256 && low < 256 && high * 256 + low == len) by (nonlinear_arith)
        requires
            len <= 65535,
            high == len / 256,
            low == len % 256,
    ;
    assert(length_prefix(len)[0] == high);
    assert(length_prefix(len)[1] == low);
}

/// A frame that is read back gives the payload that was framed, and its
/// prefix announces the number of bytes of the payload, whatever follows the
/// frame in the stream. This holds of every payload that a receiver takes:
/// one of at most `MAX_MESSAGE_LENGTH` bytes.
pub proof fn lemma_frame_round_trip(payload: Seq<u8>, rest: Seq<u8>)
    requires
        payload.len() <= MAX_MESSAGE_LENGTH,
    ensures
        frame_of(payload) is Some,
        announced_length(frame_of(payload)->0 + rest) == payload.len(),
        reading_of(frame_of(payload)->0 + rest) == Reading::Frame(payload),
{
    lemma_prefix_value(payload.len() as u16);
    let prefix = length_prefix(payload.len() as u16);
    let stream = frame_of(payload)->0 + rest;
    assert(stream[0] == prefix[0]);
    assert(stream[1] == prefix[1]);
    assert(stream.subrange(LENGTH_PREFIX_SIZE as int, LENGTH_PREFIX_SIZE + payload.len())
        =~= payload);
}

/// Whatever has a frame has one whose prefix announces the number of bytes
/// that follow it, and those bytes are the payload: no frame announces
/// another length than that of what it carries. What has no frame is what
/// takes more bytes than a prefix can announce.
pub proof fn lemma_prefix_announces_length(payload: Seq<u8>)
    ensures
        frame_of(payload) is Some <==> payload.len() <= MAX_FRAME_LENGTH,
        frame_of(payload) matches Some(frame) ==> ({
            &&& frame.len() == LENGTH_PREFIX_SIZE + payload.len()
            &&& announced_length(frame) == payload.len()
            &&& frame.subrange(LENGTH_PREFIX_SIZE as int, frame.len() as int) == payload
        }),
{
    if payload.len() <= MAX_FRAME_LENGTH {
        lemma_prefix_value(payload.len() as u16);
        let prefix = length_prefix(payload.len() as u16);
        let frame = frame_of(payload)->0;
        assert(frame[0] == prefix[0]);
        assert(frame[1] == prefix[1]);
        assert(frame.subrange(LENGTH_PREFIX_SIZE as int, frame.len() as int) =~= payload);
    }
}

/// The JSON text of a list of bytes takes at most four bytes for each byte
/// of the list, and two more: a list of up to 16383 bytes has a frame.
pub proof fn lemma_json_text_length(bytes: Seq<u8>)
    ensures
        json_items(bytes).len() <= 4 * bytes.len(),
        json_of_bytes(bytes).len() <= 4 * bytes.len() + 2,
        bytes.len() <= 16383 ==> frame_of(json_of_bytes(bytes)) is Some,
    decreases bytes.len(),
{
    if bytes.len() > 1 {
        lemma_json_text_length(bytes.drop_last());
    }
}

/// A stream whose prefix announces more than `MAX_MESSAGE_LENGTH` bytes is
/// turned down on the prefix alone: whatever follows the two bytes, and
/// however much of it there is, the reading is the same.
pub proof fn lemma_oversized_length_rejected(prefix: Seq<u8>, rest: Seq<u8>)
    requires
        prefix.len() == LENGTH_PREFIX_SIZE,
        announced_length(prefix) > MAX_MESSAGE_LENGTH,
    ensures
        reading_of(prefix + rest) == Reading::Oversized,
{
    let stream = prefix + rest;
    assert(stream[0] == prefix[0]);
    assert(stream[1] == prefix[1]);
}

} // verus!
