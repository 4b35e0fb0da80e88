//! The message channel: how one message is framed on the wire, and how the
//! outcome of a read is told apart.
//!
//! A frame is a header of sixteen bytes followed by the payload. The header
//! holds the length of the payload and its 64-bit checksum, both little-endian.
//! Turning a payload into a typed message and moving bytes over a socket are
//! the caller's part.

use vstd::bytes::{
    lemma_auto_spec_u64_to_from_le_bytes, spec_u64_from_le_bytes, spec_u64_to_le_bytes,
    u64_from_le_bytes, u64_to_le_bytes,
};
use vstd::prelude::*;
use vstd::slice::{slice_subrange, slice_to_vec};

verus! {

/// How long a send or a receive may block, in seconds.
pub const SOCKET_TIMEOUT_SECS: u64 = 2;

/// The bytes of the length field of a frame header.
pub const USIZE_SIZE: usize = 8;

/// The bytes of the checksum field of a frame header.
pub const U64_SIZE: usize = 8;

/// The bytes of a frame header.
pub const ZYGOTE_HEADER_SIZE: usize = USIZE_SIZE + U64_SIZE;

/// The CRC-64/REDIS checksum of a byte string.
pub uninterp spec fn crc64(bytes: Seq<u8>) -> u64;

/// `crc::Crc::<u64>::checksum` for the algorithm `crc::CRC_64_REDIS`: the
/// checksum depends on the bytes alone.
#[verifier::external_body]
fn checksum(bytes: &[u8]) -> (sum: u64)
    ensures
        sum == crc64(bytes@),
{
    crc::Crc::<u64>::new(&crc::CRC_64_REDIS).checksum(bytes)
}

/// Why a byte string is not a frame.
#[derive(Clone, Copy, Debug, PartialEq, Eq, Structural)]
pub enum FrameError {
    /// There are fewer bytes than a header has.
    Truncated,
    /// The header announces another number of payload bytes than follow it.
    LengthMismatch,
    /// The payload does not have the checksum that the header announces.
    ChecksumMismatch,
}

/// Why a send or a receive failed.
#[derive(Clone, Copy, Debug, PartialEq, Eq, Structural)]
pub enum ChannelError {
    /// The timeout elapsed.
    Timeout,
    /// The peer has closed the transport. For a receiver this is the clean end
    /// of the session.
    BrokenChannel,
    /// What arrived is not a frame. The channel cannot be used any more.
    Corrupt(FrameError),
}

/// The header of a frame.
#[derive(Clone, Copy, Debug, PartialEq, Eq, Structural)]
pub struct FrameHeader {
    /// The number of payload bytes.
    pub length: u64,
    /// The checksum of the payload.
    pub checksum: u64,
}

/// The header that announces `payload`.
pub open spec fn header_of(payload: Seq<u8>) -> FrameHeader {
    FrameHeader { length: payload.len() as u64, checksum: crc64(payload) }
}

/// The sixteen bytes of a header: length, then checksum.
pub open spec fn header_bytes(header: FrameHeader) -> Seq<u8> {
    spec_u64_to_le_bytes(header.length) + spec_u64_to_le_bytes(header.checksum)
}

/// The header that the first sixteen bytes of `bytes` spell.
pub open spec fn header_in(bytes: Seq<u8>) -> FrameHeader
    recommends
        bytes.len() >= ZYGOTE_HEADER_SIZE,
{
    FrameHeader {
        length: spec_u64_from_le_bytes(bytes.subrange(0, 8)),
        checksum: spec_u64_from_le_bytes(bytes.subrange(8, 16)),
    }
}

/// The frame that carries `payload`.
pub open spec fn frame(payload: Seq<u8>) -> Seq<u8> {
    header_bytes(header_of(payload)) + payload
}

/// What a byte string decodes to: its payload, if it is a header followed by
/// as many bytes as the header announces, with the checksum it announces.
pub open spec fn decoded(bytes: Seq<u8>) -> Result<Seq<u8>, FrameError> {
    if bytes.len() < ZYGOTE_HEADER_SIZE {
        Err(FrameError::Truncated)
    } else if header_in(bytes).length != bytes.len() - ZYGOTE_HEADER_SIZE {
        Err(FrameError::LengthMismatch)
    } else if header_in(bytes).checksum != crc64(
        bytes.subrange(ZYGOTE_HEADER_SIZE as int, bytes.len() as int),
    ) {
        Err(FrameError::ChecksumMismatch)
    } else {
        Ok(bytes.subrange(ZYGOTE_HEADER_SIZE as int, bytes.len() as int))
    }
}

impl FrameHeader {
    /// The header that announces `payload`.
    pub fn for_payload(payload: &[u8]) -> (header: FrameHeader)
        ensures
            header == header_of(payload@),
    {
        FrameHeader { length: payload.len() as u64, checksum: checksum(payload) }
    }

    /// The sixteen bytes of the header.
    pub fn to_bytes(&self) -> (bytes: Vec<u8>)
        ensures
            bytes@ == header_bytes(*self),
            bytes@.len() == ZYGOTE_HEADER_SIZE,
    {
        let mut bytes = u64_to_le_bytes(self.length);
        let sum = u64_to_le_bytes(self.checksum);
        bytes.extend_from_slice(sum.as_slice());
        bytes
    }

    /// Reads a header from the front of `bytes`.
    pub fn parse(bytes: &[u8]) -> (result: Result<FrameHeader, FrameError>)
        ensures
            result == (if bytes@.len() < ZYGOTE_HEADER_SIZE {
                Err::<FrameHeader, FrameError>(FrameError::Truncated)
            } else {
                Ok(header_in(bytes@))
            }),
    {
        if bytes.len() < ZYGOTE_HEADER_SIZE {
            return Err(FrameError::Truncated);
        }
        let length = u64_from_le_bytes(slice_subrange(bytes, 0, 8));
        let checksum = u64_from_le_bytes(slice_subrange(bytes, 8, 16));
        Ok(FrameHeader { length, checksum })
    }

    /// Checks a payload against the header that announced it.
    pub fn verify(&self, payload: &[u8]) -> (result: Result<(), FrameError>)
        ensures
            result == (if self.length != payload@.len() {
                Err::<(), FrameError>(FrameError::LengthMismatch)
            } else if self.checksum != crc64(payload@) {
                Err(FrameError::ChecksumMismatch)
            } else {
                Ok(())
            }),
    {
        if self.length != payload.len() as u64 {
            return Err(FrameError::LengthMismatch);
        }
        if self.checksum != checksum(payload) {
            return Err(FrameError::ChecksumMismatch);
        }
        Ok(())
    }
}

/// Frames a payload for sending.
pub fn encode_frame(payload: &[u8]) -> (bytes: Vec<u8>)
    ensures
        bytes@ == frame(payload@),
{
    let mut bytes = FrameHeader::for_payload(payload).to_bytes();
    bytes.extend_from_slice(payload);
    bytes
}

/// Takes a frame apart and returns its payload.
pub fn decode_frame(bytes: &[u8]) -> (result: Result<Vec<u8>, FrameError>)
    ensures
        match result {
            Ok(payload) => decoded(bytes@) == Ok::<Seq<u8>, FrameError>(payload@),
            Err(error) => decoded(bytes@) == Err::<Seq<u8>, FrameError>(error),
        },
{
    let header = match FrameHeader::parse(bytes) {
        Ok(header) => header,
        Err(error) => { return Err(error); },
    };
    let payload = slice_subrange(bytes, ZYGOTE_HEADER_SIZE, bytes.len());
    match header.verify(payload) {
        Ok(()) => Ok(slice_to_vec(payload)),
        Err(error) => Err(error),
    }
}

/// A frame decodes to the payload it was made from.
pub proof fn lemma_decode_inverts_frame(payload: Seq<u8>)
    requires
        payload.len() <= u64::MAX,
    ensures
        decoded(frame(payload)) == Ok::<Seq<u8>, FrameError>(payload),
{
    lemma_auto_spec_u64_to_from_le_bytes();
    let header = header_of(payload);
    let bytes = frame(payload);
    assert(bytes.subrange(0, 8) =~= spec_u64_to_le_bytes(header.length));
    assert(bytes.subrange(8, 16) =~= spec_u64_to_le_bytes(header.checksum));
    assert(bytes.subrange(ZYGOTE_HEADER_SIZE as int, bytes.len() as int) =~= payload);
}

/// Only a frame decodes: a byte string with a payload is the frame of that
/// payload.
pub proof fn lemma_only_frames_decode(bytes: Seq<u8>, payload: Seq<u8>)
    requires
        decoded(bytes) == Ok::<Seq<u8>, FrameError>(payload),
    ensures
        bytes == frame(payload),
{
    lemma_auto_spec_u64_to_from_le_bytes();
    assert(bytes.subrange(0, 8).len() == 8);
    assert(bytes.subrange(8, 16).len() == 8);
    assert(bytes =~= bytes.subrange(0, 8) + bytes.subrange(8, 16) + payload);
    assert(frame(payload) =~= bytes.subrange(0, 8) + bytes.subrange(8, 16) + payload);
}

/// What one read from the transport brought.
#[derive(Debug, PartialEq, Eq)]
pub enum ReadOutcome {
    /// Nothing arrived within the timeout.
    TimedOut,
    /// The peer has closed the transport and no byte of a further frame
    /// arrived.
    Closed,
    /// These bytes arrived.
    Data(Vec<u8>),
}

/// The payload that a read delivers, or the reason why there is none.
pub open spec fn received(read: ReadOutcome) -> Result<Seq<u8>, ChannelError> {
    match read {
        ReadOutcome::TimedOut => Err(ChannelError::Timeout),
        ReadOutcome::Closed => Err(ChannelError::BrokenChannel),
        ReadOutcome::Data(bytes) => match decoded(bytes@) {
            Ok(payload) => Ok(payload),
            Err(error) => Err(ChannelError::Corrupt(error)),
        },
    }
}

/// Turns the outcome of a read into a payload or an error. A closed transport
/// gives `BrokenChannel` and nothing else does, so the clean end of a session
/// is never taken for a timeout or for corruption.
pub fn receive(read: ReadOutcome) -> (result: Result<Vec<u8>, ChannelError>)
    ensures
        match result {
            Ok(payload) => received(read) == Ok::<Seq<u8>, ChannelError>(payload@),
            Err(error) => received(read) == Err::<Seq<u8>, ChannelError>(error),
        },
        result == Err::<Vec<u8>, ChannelError>(ChannelError::BrokenChannel)
            <==> read == ReadOutcome::Closed,
        result == Err::<Vec<u8>, ChannelError>(ChannelError::Timeout)
            <==> read == ReadOutcome::TimedOut,
        result matches Err(ChannelError::Corrupt(_)) <==> (read matches ReadOutcome::Data(bytes)
            && decoded(bytes@) is Err),
{
    match read {
        ReadOutcome::TimedOut => Err(ChannelError::Timeout),
        ReadOutcome::Closed => Err(ChannelError::BrokenChannel),
        ReadOutcome::Data(bytes) => match decode_frame(bytes.as_slice()) {
            Ok(payload) => Ok(payload),
            Err(error) => Err(ChannelError::Corrupt(error)),
        },
    }
}

/// One end of a channel before it is connected. The handle names the
/// descriptor of the end, so it can be handed to a process that does not exist
/// yet. It is connected once, by giving it up for a `Peer`.
#[derive(Debug, PartialEq, Eq)]
pub struct PendingChannel {
    descriptor: i32,
}

/// One connected end of a channel.
#[derive(Debug, PartialEq, Eq)]
pub struct Peer {
    descriptor: i32,
}

impl PendingChannel {
    /// The descriptor of this end.
    pub closed spec fn descriptor(&self) -> i32 {
        self.descriptor
    }

    /// The handle for the end with the given descriptor.
    pub fn new(descriptor: i32) -> (pending: PendingChannel)
        ensures
            pending.descriptor() == descriptor,
    {
        PendingChannel { descriptor }
    }

    /// The descriptor of this end.
    pub fn raw(&self) -> (descriptor: i32)
        ensures
            descriptor == self.descriptor(),
    {
        self.descriptor
    }

    /// Connects the end. The handle is used up, so an end is connected once.
    pub fn into_peer(self) -> (peer: Peer)
        ensures
            peer.descriptor() == self.descriptor(),
    {
        Peer { descriptor: self.descriptor }
    }
}

impl Peer {
    /// The descriptor of this end.
    pub closed spec fn descriptor(&self) -> i32 {
        self.descriptor
    }

    /// The descriptor of this end.
    pub fn raw(&self) -> (descriptor: i32)
        ensures
            descriptor == self.descriptor(),
    {
        self.descriptor
    }
}

} // verus!
