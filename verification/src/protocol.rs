//! The framed protocol run over each accepted stream.
//!
//! Inbound data is read in fixed-size frames. A frame whose byte at the probe
//! offset equals the probe sentinel is a probe message: the reply echoes the
//! first bytes of the frame, pads with zero filler, and closes with a fixed
//! trailer; a fixed number of trailing bytes must also be drained from the
//! stream. Any other non-empty frame is unsupported and produces no reply.

use vstd::prelude::*;

verus! {

/// Number of bytes a stream reader asks for in one read call.
pub const FRAME_LEN: usize = 100;

/// Offset within a frame of the message-type sentinel byte.
pub const PROBE_OFFSET: usize = 6;

/// Sentinel byte that marks an inbound frame as a probe message.
pub const PROBE_SENTINEL: u8 = 0xE2;

/// Number of leading frame bytes echoed verbatim at the head of a probe reply.
pub const ECHO_LEN: usize = 6;

/// Number of zero filler bytes in the middle of a probe reply.
pub const FILLER_LEN: usize = 94;

/// Length of the fixed trailer that closes a probe reply; also the number of
/// trailing bytes drained from the stream after a probe frame.
pub const TRAILER_LEN: usize = 5;

/// Total length of a probe reply: echo, then filler, then trailer.
pub const RESPONSE_LEN: usize = 105;

/// The fixed trailer that closes every probe reply.
pub open spec fn response_trailer() -> Seq<u8> {
    seq![0xD9u8, 0xD9u8, 0xD6u8, 0xC2u8, 0xC5u8]
}

/// A full frame is a probe exactly when the sentinel stands at the probe offset.
pub open spec fn is_probe_frame(frame: Seq<u8>) -> bool {
    frame.len() == FRAME_LEN && frame[PROBE_OFFSET as int] == PROBE_SENTINEL
}

/// The reply owed to a probe frame: the first `ECHO_LEN` frame bytes, then
/// `FILLER_LEN` zero bytes, then the fixed trailer.
pub open spec fn probe_response_spec(frame: Seq<u8>) -> Seq<u8> {
    frame.subrange(0, ECHO_LEN as int) + Seq::new(FILLER_LEN as nat, |i: int| 0u8)
        + response_trailer()
}

/// Decides whether a frame is a probe message.
pub fn is_probe(frame: &[u8; 100]) -> (r: bool)
    ensures
        r == is_probe_frame(frame@),
{
    frame[PROBE_OFFSET] == PROBE_SENTINEL
}

/// Builds the reply owed to a probe frame, byte for byte.
pub fn probe_response(frame: &[u8; 100]) -> (resp: Vec<u8>)
    ensures
        resp@ == probe_response_spec(frame@),
        resp@.len() == RESPONSE_LEN,
{
    let mut resp: Vec<u8> = Vec::new();
    let mut i: usize = 0;
    while i < ECHO_LEN
        invariant
            i <= ECHO_LEN,
            resp@ == frame@.subrange(0, i as int),
        decreases ECHO_LEN - i,
    {
        resp.push(frame[i]);
        proof {
            assert(resp@ =~= frame@.subrange(0, i + 1 as int));
        }
        i = i + 1;
    }
    let mut j: usize = 0;
    while j < FILLER_LEN
        invariant
            j <= FILLER_LEN,
            resp@ == frame@.subrange(0, ECHO_LEN as int) + Seq::new(j as nat, |k: int| 0u8),
        decreases FILLER_LEN - j,
    {
        resp.push(0u8);
        proof {
            assert(resp@ =~= frame@.subrange(0, ECHO_LEN as int)
                + Seq::new((j + 1) as nat, |k: int| 0u8));
        }
        j = j + 1;
    }
    resp.push(0xD9u8);
    resp.push(0xD9u8);
    resp.push(0xD6u8);
    resp.push(0xC2u8);
    resp.push(0xC5u8);
    proof {
        assert(resp@ =~= probe_response_spec(frame@));
    }
    resp
}

/// What a connection handler does with the outcome of one read call.
pub enum ReadOutcome {
    /// The read returned zero bytes: the peer closed the connection.
    PeerClosed,
    /// The frame is a probe: drain `drain` trailing bytes from the stream,
    /// then write `response` to it in full, and keep reading.
    Reply { drain: usize, response: Vec<u8> },
    /// The frame is not a probe: unsupported, no reply, keep reading.
    Ignored,
}

/// Connection-handler step for a completed read of `n` bytes into `frame`.
///
/// A zero-byte read means the peer closed the connection. Otherwise a probe
/// frame owes the fixed reply, with the trailing drain, and any other frame is
/// dropped without a reply.
pub fn on_read(n: usize, frame: &[u8; 100]) -> (r: ReadOutcome)
    ensures
        (r is PeerClosed) <==> n == 0,
        n > 0 && is_probe_frame(frame@) ==> (r matches ReadOutcome::Reply { drain, response }
            && drain == TRAILER_LEN && response@ == probe_response_spec(frame@)),
        n > 0 && !is_probe_frame(frame@) ==> r is Ignored,
{
    if n == 0 {
        ReadOutcome::PeerClosed
    } else if is_probe(frame) {
        let response = probe_response(frame);
        ReadOutcome::Reply { drain: TRAILER_LEN, response }
    } else {
        ReadOutcome::Ignored
    }
}

} // verus!
