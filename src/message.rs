//! The 48-byte NTP packet: building a client request and reading a reply.

use vstd::prelude::*;

use crate::config::NTP_MESSAGE_LENGTH;
use crate::timestamp::{decode_spec, CodecError, NTPTimeStamp};

verus! {

/// Protocol version 3, in bits 3..6 of the first byte.
pub const VERSION: u8 = 0b00_011_000;

/// Mode 3 ("client"), in the low three bits of the first byte.
pub const MODE: u8 = 0b00_000_011;

/// Offset of the receive timestamp (server's arrival time of the request).
pub const RX_TIME_AT: usize = 32;

/// Offset of the transmit timestamp (server's departure time of the reply).
pub const TX_TIME_AT: usize = 40;

/// One NTP packet, request or reply.
pub struct NTPMessage {
    pub data: [u8; NTP_MESSAGE_LENGTH],
}

impl NTPMessage {
    /// A packet with every byte zero.
    pub fn new() -> (r: NTPMessage)
        ensures
            r.data@ == Seq::new(48, |i: int| 0u8),
    {
        let r = NTPMessage { data: [0u8; NTP_MESSAGE_LENGTH] };
        assert(r.data@ =~= Seq::new(48, |i: int| 0u8));
        r
    }

    /// A client-mode request: version 3, mode 3 (`0b00_011_011`) in the first
    /// byte, every other byte zero.
    pub fn client() -> (r: NTPMessage)
        ensures
            r.data@ == Seq::new(48, |i: int| 0u8).update(0, 0b00_011_011u8),
    {
        let mut msg = NTPMessage::new();
        let first: u8 = msg.data[0] | VERSION | MODE;
        assert(0u8 | VERSION | MODE == 0b00_011_011u8) by (bit_vector);
        msg.data[0] = first;
        assert(msg.data@ =~= Seq::new(48, |i: int| 0u8).update(0, 0b00_011_011u8));
        msg
    }

    /// The packet whose bytes are the first 48 of `bytes`; fails when fewer
    /// than 48 bytes arrived.
    pub fn from_reply(bytes: &[u8]) -> (r: Result<NTPMessage, CodecError>)
        ensures
            r is Ok <==> bytes@.len() >= 48,
            r is Err ==> r->Err_0 == CodecError::ShortBuffer,
            r is Ok ==> r->Ok_0.data@ == bytes@.subrange(0, 48),
    {
        if bytes.len() < NTP_MESSAGE_LENGTH {
            return Err(CodecError::ShortBuffer);
        }
        let mut msg = NTPMessage::new();
        let mut i: usize = 0;
        while i < NTP_MESSAGE_LENGTH
            invariant
                bytes@.len() >= 48,
                i <= 48,
                msg.data@.len() == 48,
                forall|k: int| 0 <= k < i ==> msg.data@[k] == bytes@[k],
            decreases 48 - i,
        {
            msg.data[i] = bytes[i];
            i = i + 1;
        }
        assert(msg.data@ =~= bytes@.subrange(0, 48));
        Ok(msg)
    }

    /// The timestamp at `data[i..i + 8]`; fails when fewer than eight bytes
    /// follow `i`.
    pub fn parse_timestamp(&self, i: usize) -> (r: Result<NTPTimeStamp, CodecError>)
        ensures
            r is Err <==> i + 8 > 48,
            r is Err ==> r->Err_0 == CodecError::ShortBuffer,
            r is Ok ==> decode_spec(self.data@, i as int) == Some(r->Ok_0),
    {
        NTPTimeStamp::decode(self.data.as_slice(), i)
    }

    /// The receive timestamp, bytes 32..40.
    pub fn rx_time(&self) -> (r: Result<NTPTimeStamp, CodecError>)
        ensures
            r is Ok,
            decode_spec(self.data@, 32) == Some(r->Ok_0),
    {
        self.parse_timestamp(RX_TIME_AT)
    }

    /// The transmit timestamp, bytes 40..48.
    pub fn tx_time(&self) -> (r: Result<NTPTimeStamp, CodecError>)
        ensures
            r is Ok,
            decode_spec(self.data@, 40) == Some(r->Ok_0),
    {
        self.parse_timestamp(TX_TIME_AT)
    }
}

} // verus!
