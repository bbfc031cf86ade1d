//! Library model of a decoded OSC message: an address and a list of typed
//! arguments, of which the gesture detector only reads integers. The wire
//! decoding itself is an outside crate's work, reached through one trusted
//! wrapper.
use vstd::prelude::*;

verus! {

/// One OSC argument: an integer, or anything else (the detector treats every
/// other kind the same, as unrecognized).
#[derive(Clone, Copy, PartialEq, Eq, Structural, Debug)]
pub enum OscArg {
    Int(i32),
    Other,
}

/// A decoded top-level OSC message.
pub struct OscMessage {
    pub addr: String,
    pub args: Vec<OscArg>,
}

/// What decoding a datagram yields: the address and arguments of a top-level
/// message, or nothing for a bundle or a malformed datagram. Stated only
/// through the wrapper below.
pub uninterp spec fn decoded_of(b: Seq<u8>) -> Option<(Seq<char>, Seq<OscArg>)>;

/// Relies on rosc::decoder::decode_udp: parses one UDP datagram as an OSC
/// packet, a pure function of the bytes. A top-level message yields its
/// address and its arguments, integer arguments kept and every other
/// argument kind noted as `Other`; a bundle or a malformed datagram yields
/// nothing.
#[verifier::external_body]
pub(crate) fn decode_datagram(buf: &[u8]) -> (r: Option<OscMessage>)
    ensures
        match r {
            Some(m) => decoded_of(buf@) == Some((m.addr@, m.args@)),
            None => decoded_of(buf@) is None,
        },
{
    match rosc::decoder::decode_udp(buf) {
        Ok((_, rosc::OscPacket::Message(m))) => {
            let args = m.args.into_iter().map(|a| match a {
                rosc::OscType::Int(v) => OscArg::Int(v),
                _ => OscArg::Other,
            }).collect();
            Some(OscMessage { addr: m.addr, args })
        },
        _ => None,
    }
}

} // verus!
