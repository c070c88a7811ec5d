//! The 48-octet SNTP packet: how a request is built and a reply is read.
//!
//! Of the packet this client interprets octet 0 (leap indicator, version and
//! mode), octet 1 (stratum) and octets 40 to 47 (the transmit timestamp). All
//! multi-octet fields are big-endian.

use crate::error::Direction;
use crate::error::ProtocolError;
use crate::timestamp::Timestamp;
use vstd::prelude::*;

verus! {

/// The size of every SNTP packet without extension fields, in octets.
pub const PACKET_SIZE: usize = 48;

/// The protocol version this client speaks and accepts.
pub const VERSION: u8 = 4;

/// Leap indicator of a clock that is not synchronised, as a client's is.
pub const LEAP_UNSYNCHRONIZED: u8 = 3;

/// Mode of a client's request.
pub const MODE_CLIENT: u8 = 3;

/// Mode of a server's reply to a request.
pub const MODE_SERVER: u8 = 4;

/// Mode of a server's broadcast.
pub const MODE_BROADCAST: u8 = 5;

/// Octet 0 of a request: leap indicator 3, version 4, mode 3.
pub const REQUEST_HEADER: u8 = 0xE3;

/// A stratum of zero marks a Kiss-of-Death reply.
pub const STRATUM_KISS_OF_DEATH: u8 = 0;

/// Where the stratum stands in the packet.
pub const STRATUM_OFFSET: usize = 1;

/// Where the transmit timestamp starts: four octets of seconds, then four of
/// fraction.
pub const TRANSMIT_TIMESTAMP_OFFSET: usize = 40;

/// The leap indicator of a header octet: its two highest bits.
pub open spec fn leap_field(header: u8) -> int {
    header as int / 64
}

/// The version number of a header octet: bits 3 to 5.
pub open spec fn version_field(header: u8) -> int {
    (header as int / 8) % 8
}

/// The mode of a header octet: its three lowest bits.
pub open spec fn mode_field(header: u8) -> int {
    header as int % 8
}

/// The header octet that holds the three fields.
pub open spec fn header_octet(leap: int, version: int, mode: int) -> int {
    64 * leap + 8 * version + mode
}

/// The number that four octets from `offset` on spell, highest octet first.
pub open spec fn be_u32(bytes: Seq<u8>, offset: int) -> int {
    0x100_0000 * bytes[offset] + 0x1_0000 * bytes[offset + 1] + 0x100 * bytes[offset + 2]
        + bytes[offset + 3]
}

/// The request as it goes over the wire: the header octet, then zeros.
pub open spec fn request_packet() -> Seq<u8> {
    Seq::new(PACKET_SIZE as nat, |i: int| if i == 0 { REQUEST_HEADER } else { 0u8 })
}

/// Packs the three fields into a header octet.
pub fn pack_header(leap: u8, version: u8, mode: u8) -> (header: u8)
    requires
        leap < 4,
        version < 8,
        mode < 8,
    ensures
        header == header_octet(leap as int, version as int, mode as int),
        leap_field(header) == leap,
        version_field(header) == version,
        mode_field(header) == mode,
{
    let header: u8 = (leap << 6) | (version << 3) | mode;
    assert(header == 64 * leap + 8 * version + mode) by (bit_vector)
        requires
            leap < 4,
            version < 8,
            mode < 8,
            header == (leap << 6) | (version << 3) | mode,
    ;
    header
}

/// Reads the version number of a header octet.
pub fn version(header: u8) -> (version: u8)
    ensures
        version == version_field(header),
        version < 8,
{
    let version: u8 = (header & 0x38) >> 3;
    assert(version == (header / 8) % 8) by (bit_vector)
        requires
            version == (header & 0x38) >> 3,
    ;
    version
}

/// Reads the mode of a header octet.
pub fn mode(header: u8) -> (mode: u8)
    ensures
        mode == mode_field(header),
        mode < 8,
{
    let mode: u8 = header & 0x7;
    assert(mode == header % 8) by (bit_vector)
        requires
            mode == header & 0x7,
    ;
    mode
}

/// The header octet and its three fields determine each other: every octet
/// is packed from its own fields, and fields in range are read back from the
/// octet they were packed into.
pub proof fn lemma_header_round_trip(header: u8, leap: int, version: int, mode: int)
    requires
        0 <= leap < 4,
        0 <= version < 8,
        0 <= mode < 8,
    ensures
        0 <= leap_field(header) < 4,
        0 <= version_field(header) < 8,
        0 <= mode_field(header) < 8,
        header_octet(leap_field(header), version_field(header), mode_field(header)) == header,
        0 <= header_octet(leap, version, mode) <= u8::MAX,
        leap_field(header_octet(leap, version, mode) as u8) == leap,
        version_field(header_octet(leap, version, mode) as u8) == version,
        mode_field(header_octet(leap, version, mode) as u8) == mode,
{
}

/// Builds the client's request: 48 octets, all zero but the header, which
/// announces an unsynchronised clock, version 4 and client mode.
pub fn build_request() -> (packet: [u8; PACKET_SIZE])
    ensures
        packet@ == request_packet(),
        packet@[0] == 0xE3,
        leap_field(packet@[0]) == LEAP_UNSYNCHRONIZED,
        version_field(packet@[0]) == VERSION,
        mode_field(packet@[0]) == MODE_CLIENT,
        forall|i: int| 1 <= i < PACKET_SIZE ==> packet@[i] == 0,
{
    let mut packet = [0u8; PACKET_SIZE];
    packet[0] = pack_header(LEAP_UNSYNCHRONIZED, VERSION, MODE_CLIENT);
    assert(packet@ =~= request_packet());
    packet
}

/// Takes four octets off the front of `input` and returns the number they
/// spell, highest octet first.
pub fn read_be_u32(input: &mut &[u8]) -> (value: u32)
    requires
        old(input)@.len() >= 4,
    ensures
        value == be_u32(old(input)@, 0),
        final(input)@ == old(input)@.skip(4),
{
    let (head, rest) = input.split_at(4);
    *input = rest;
    let b0: u32 = head[0] as u32;
    let b1: u32 = head[1] as u32;
    let b2: u32 = head[2] as u32;
    let b3: u32 = head[3] as u32;
    let value: u32 = (b0 << 24) | (b1 << 16) | (b2 << 8) | b3;
    assert(value == 0x100_0000 * b0 + 0x1_0000 * b1 + 0x100 * b2 + b3) by (bit_vector)
        requires
            b0 < 256,
            b1 < 256,
            b2 < 256,
            b3 < 256,
            value == (b0 << 24) | (b1 << 16) | (b2 << 8) | b3,
    ;
    value
}

/// What a valid reply tells the client.
#[derive(Clone, Copy, Debug, PartialEq, Eq)]
pub struct Reply {
    /// The server's clock when it sent the reply.
    pub timestamp: Timestamp,
    /// Whether the server asks the client to stop querying it.
    pub kiss_of_death: bool,
}

/// What the first `received` octets of `buf` mean as a reply.
///
/// The checks come in this order: the size, the version, the mode. A buffer
/// that cannot hold a whole packet holds no reply, whatever `received` says.
pub open spec fn reply_of(buf: Seq<u8>, received: int) -> Result<Reply, ProtocolError> {
    if received != PACKET_SIZE || buf.len() < PACKET_SIZE {
        Err(ProtocolError::SizeMismatch(Direction::Received))
    } else if version_field(buf[0]) != VERSION {
        Err(ProtocolError::VersionMismatch)
    } else if mode_field(buf[0]) != MODE_SERVER && mode_field(buf[0]) != MODE_BROADCAST {
        Err(ProtocolError::WrongMessageType)
    } else {
        Ok(
            Reply {
                timestamp: Timestamp {
                    seconds: be_u32(buf, 40) as u32,
                    fraction: be_u32(buf, 44) as u32,
                },
                kiss_of_death: buf[1] == STRATUM_KISS_OF_DEATH,
            },
        )
    }
}

/// Validates a received datagram and decodes its transmit timestamp.
///
/// `buf` is the buffer the datagram was read into and `received` the number
/// of octets the transport reported.
pub fn parse_reply(buf: &[u8], received: usize) -> (result: Result<Reply, ProtocolError>)
    ensures
        result == reply_of(buf@, received as int),
        received != 48 || buf@.len() < 48 ==> result == Err::<Reply, ProtocolError>(
            ProtocolError::SizeMismatch(Direction::Received),
        ),
        received == 48 && buf@.len() >= 48 && version_field(buf@[0]) != 4 ==> result == Err::<
            Reply,
            ProtocolError,
        >(ProtocolError::VersionMismatch),
        received == 48 && buf@.len() >= 48 && version_field(buf@[0]) == 4 && mode_field(buf@[0])
            != 4 && mode_field(buf@[0]) != 5 ==> result == Err::<Reply, ProtocolError>(
            ProtocolError::WrongMessageType,
        ),
        received == 48 && buf@.len() >= 48 && version_field(buf@[0]) == 4 && (mode_field(buf@[0])
            == 4 || mode_field(buf@[0]) == 5) ==> (result matches Ok(reply)
            && reply.timestamp.seconds == be_u32(buf@, 40)
            && reply.timestamp.fraction == be_u32(buf@, 44)
            && reply.kiss_of_death == (buf@[1] == 0)),
{
    if received != PACKET_SIZE || buf.len() < PACKET_SIZE {
        return Err(ProtocolError::SizeMismatch(Direction::Received));
    }
    let header: u8 = buf[0];
    if version(header) != VERSION {
        return Err(ProtocolError::VersionMismatch);
    }
    let reply_mode: u8 = mode(header);
    if reply_mode != MODE_SERVER && reply_mode != MODE_BROADCAST {
        return Err(ProtocolError::WrongMessageType);
    }
    let kiss_of_death = buf[STRATUM_OFFSET] == STRATUM_KISS_OF_DEATH;
    let mut transmit: &[u8] = &buf[TRANSMIT_TIMESTAMP_OFFSET..PACKET_SIZE];
    let seconds: u32 = read_be_u32(&mut transmit);
    let fraction: u32 = read_be_u32(&mut transmit);
    Ok(Reply { timestamp: Timestamp { seconds, fraction }, kiss_of_death })
}

/// A request that comes back unchanged is not taken for a reply: its mode is
/// the client's.
pub proof fn lemma_echoed_request_is_rejected()
    ensures
        reply_of(request_packet(), PACKET_SIZE as int) == Err::<Reply, ProtocolError>(
            ProtocolError::WrongMessageType,
        ),
{
}

} // verus!
