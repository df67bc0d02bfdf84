//! The outbound message: an address plus three typed arguments, and its
//! wire encoding through the OSC encoder.

use vstd::prelude::*;

use crate::message::{decoded, lemma_decoded_wf, name_of, DecodeError, Message, Status};

verus! {

/// One message ready for transmission: an address and, in fixed order, the
/// event name, the first data byte and the second data byte, the two bytes
/// widened to signed 32-bit integers.
pub struct OutboundMessage {
    pub addr: String,
    pub name: String,
    pub data1: i32,
    pub data2: i32,
}

/// A source name as it appears in an address: every space replaced by an
/// underscore, every other character unchanged.
pub open spec fn underscored(s: Seq<char>) -> Seq<char> {
    s.map_values(|c: char| if c == ' ' { '_' } else { c })
}

/// The address of one outbound message: the fixed prefix, the underscored
/// source name, and the channel segment, separated by slashes. A system
/// event's empty channel segment leaves a trailing slash; consumers depend
/// on that exact shape, so it is kept.
pub open spec fn address_of(name: Seq<char>, s: Status) -> Seq<char> {
    "/midi/"@ + underscored(name) + "/"@ + crate::message::channel_seg(s)
}

/// The wire encoding of a message packet with the given address and the
/// three arguments string, integer, integer. The encoding is fixed by the
/// OSC 1.0 format, a function of these values alone.
pub uninterp spec fn osc_packet_bytes(
    addr: Seq<char>,
    name: Seq<char>,
    data1: i32,
    data2: i32,
) -> Seq<u8>;

/// Relies on String::push: it appends the given character to the end of
/// the string.
#[verifier::external_body]
fn push_char(s: &mut String, c: char)
    ensures
        final(s)@ == old(s)@.push(c),
{
    s.push(c);
}

/// Relies on rosc::encoder::encode: the OSC 1.0 encoding of a message
/// packet depends on its address and arguments alone, and when written
/// into a byte vector the encoder cannot fail (its error path is
/// unreachable for this output), so the error arm below is never taken.
#[verifier::external_body]
pub(crate) fn encode_outbound(msg: &OutboundMessage) -> (r: Vec<u8>)
    ensures
        r@ == osc_packet_bytes(msg.addr@, msg.name@, msg.data1, msg.data2),
{
    let args = vec![
        rosc::OscType::String(msg.name.clone()),
        rosc::OscType::Int(msg.data1),
        rosc::OscType::Int(msg.data2),
    ];
    let packet = rosc::OscPacket::Message(rosc::OscMessage { addr: msg.addr.clone(), args });
    match rosc::encoder::encode(&packet) {
        Ok(bytes) => bytes,
        Err(_) => Vec::new(),
    }
}

/// The source name with every space replaced by an underscore.
pub(crate) fn underscore_name(name: &str) -> (r: String)
    ensures
        r@ == underscored(name@),
{
    let n = name.unicode_len();
    let mut out = String::new();
    let mut i: usize = 0;
    while i < n
        invariant
            i <= n,
            n == name@.len(),
            out@ == underscored(name@.take(i as int)),
        decreases n - i,
    {
        let c = name.get_char(i);
        if c == ' ' {
            push_char(&mut out, '_');
        } else {
            push_char(&mut out, c);
        }
        proof {
            assert(underscored(name@.take(i as int + 1)) =~= underscored(
                name@.take(i as int),
            ).push(if name@[i as int] == ' ' { '_' } else { name@[i as int] }));
        }
        i += 1;
    }
    proof {
        assert(name@.take(n as int) =~= name@);
    }
    out
}

/// Every space in a source name is replaced, not only the first, and no
/// other character moves: the rendering is pointwise.
pub proof fn lemma_underscored_pointwise(s: Seq<char>)
    ensures
        underscored(s).len() == s.len(),
        forall|i: int|
            0 <= i < s.len() ==> underscored(s)[i] == (if s[i] == ' ' {
                '_'
            } else {
                s[i]
            }),
{
}

/// Translate one raw event from the named source into its encoded outbound
/// packet: decode the status byte, build the addressed message, encode it.
/// An undecodable status byte is the one error; the data bytes pass through
/// unchecked.
pub fn process_event(device_name: &str, status: u8, data1: u8, data2: u8) -> (r: Result<
    Vec<u8>,
    DecodeError,
>)
    ensures
        match decoded(status) {
            Some(s) => r matches Ok(bytes) && bytes@ == osc_packet_bytes(
                address_of(device_name@, s),
                name_of(s),
                data1 as i32,
                data2 as i32,
            ),
            None => r == Err::<Vec<u8>, DecodeError>(DecodeError { status }),
        },
{
    let s = match Status::decode(status) {
        Ok(s) => s,
        Err(e) => {
            return Err(e);
        },
    };
    proof {
        lemma_decoded_wf(status);
    }
    let msg = Message { status: s, data1, data2 };
    let out = msg.to_osc(device_name);
    Ok(encode_outbound(&out))
}

} // verus!
