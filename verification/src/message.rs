//! Decoding of raw status bytes into typed events, and the fixed tables
//! (event names, channel rendering) that the outbound address format uses.

use vstd::prelude::*;

use crate::osc::{address_of, underscore_name, OutboundMessage};

verus! {

/// One decoded event type. The seven channel voice variants carry the
/// 4-bit channel number taken from the low nibble of the status byte;
/// the system variants carry no channel.
#[derive(Clone, Copy, Debug, PartialEq, Eq, Structural)]
pub enum Status {
    NoteOff(u8),
    NoteOn(u8),
    KeyPressure(u8),
    ControllerChange(u8),
    ProgramChange(u8),
    ChannelPressure(u8),
    PitchBend(u8),
    SystemExclusive,
    SongPosition,
    SongSelect,
    TuneRequest,
    EndOfSysex,
    TimingTick,
    StartSong,
    ContinueSong,
    StopSong,
}

/// A status byte outside the protocol's legal set. Decoding cannot pick a
/// safe fallback variant, so the byte is reported and the caller treats it
/// as fatal.
#[derive(Clone, Copy, Debug, PartialEq, Eq, Structural)]
pub struct DecodeError {
    pub status: u8,
}

/// The channel a status carries: the channel voice variants carry one,
/// the system variants none.
pub open spec fn channel_of(s: Status) -> Option<u8> {
    match s {
        Status::NoteOff(c) => Some(c),
        Status::NoteOn(c) => Some(c),
        Status::KeyPressure(c) => Some(c),
        Status::ControllerChange(c) => Some(c),
        Status::ProgramChange(c) => Some(c),
        Status::ChannelPressure(c) => Some(c),
        Status::PitchBend(c) => Some(c),
        _ => None,
    }
}

/// The full mapping from a raw status byte to its decoded event: the high
/// nibble selects a channel voice variant carrying the low nibble, and the
/// nine fixed system bytes select their channel-less variants. Every other
/// byte has no decoding.
pub open spec fn decoded(status: u8) -> Option<Status> {
    let hi = status & 0xf0;
    let ch = status & 0x0f;
    if hi == 0x80 {
        Some(Status::NoteOff(ch))
    } else if hi == 0x90 {
        Some(Status::NoteOn(ch))
    } else if hi == 0xa0 {
        Some(Status::KeyPressure(ch))
    } else if hi == 0xb0 {
        Some(Status::ControllerChange(ch))
    } else if hi == 0xc0 {
        Some(Status::ProgramChange(ch))
    } else if hi == 0xd0 {
        Some(Status::ChannelPressure(ch))
    } else if hi == 0xe0 {
        Some(Status::PitchBend(ch))
    } else if status == 0xf0 {
        Some(Status::SystemExclusive)
    } else if status == 0xf2 {
        Some(Status::SongPosition)
    } else if status == 0xf3 {
        Some(Status::SongSelect)
    } else if status == 0xf6 {
        Some(Status::TuneRequest)
    } else if status == 0xf7 {
        Some(Status::EndOfSysex)
    } else if status == 0xf8 {
        Some(Status::TimingTick)
    } else if status == 0xfa {
        Some(Status::StartSong)
    } else if status == 0xfb {
        Some(Status::ContinueSong)
    } else if status == 0xfc {
        Some(Status::StopSong)
    } else {
        None
    }
}

/// The bytes of the fixed system set, each of which decodes to a
/// channel-less variant.
pub open spec fn is_system_status(status: u8) -> bool {
    ||| status == 0xf0
    ||| status == 0xf2
    ||| status == 0xf3
    ||| status == 0xf6
    ||| status == 0xf7
    ||| status == 0xf8
    ||| status == 0xfa
    ||| status == 0xfb
    ||| status == 0xfc
}

/// The fixed name table: the lowercase identifier that stands for each
/// variant, both as a log label and as the first outbound argument. Stable:
/// downstream consumers match on these strings.
pub open spec fn name_of(s: Status) -> Seq<char> {
    match s {
        Status::NoteOff(_) => "note_off"@,
        Status::NoteOn(_) => "note_on"@,
        Status::KeyPressure(_) => "key_pressure"@,
        Status::ControllerChange(_) => "controller_change"@,
        Status::ProgramChange(_) => "program_change"@,
        Status::ChannelPressure(_) => "channel_pressure"@,
        Status::PitchBend(_) => "pitch_bend"@,
        Status::SystemExclusive => "system_exclusive"@,
        Status::SongPosition => "song_position"@,
        Status::SongSelect => "song_select"@,
        Status::TuneRequest => "tune_request"@,
        Status::EndOfSysex => "end_of_sysex"@,
        Status::TimingTick => "timing_tick"@,
        Status::StartSong => "start_song"@,
        Status::ContinueSong => "continue_song"@,
        Status::StopSong => "stop_song"@,
    }
}

/// The character for one decimal digit.
pub open spec fn digit_char(d: u8) -> char {
    if d == 0 {
        '0'
    } else if d == 1 {
        '1'
    } else if d == 2 {
        '2'
    } else if d == 3 {
        '3'
    } else if d == 4 {
        '4'
    } else if d == 5 {
        '5'
    } else if d == 6 {
        '6'
    } else if d == 7 {
        '7'
    } else if d == 8 {
        '8'
    } else {
        '9'
    }
}

/// The decimal rendering of a channel number below 16: one digit up to 9,
/// two digits from 10.
pub open spec fn channel_digits(c: u8) -> Seq<char> {
    if c < 10 {
        seq![digit_char(c)]
    } else {
        seq!['1', digit_char((c - 10) as u8)]
    }
}

/// The channel segment of an outbound address: the decimal channel for
/// channel voice variants, and the empty string for system variants.
pub open spec fn channel_seg(s: Status) -> Seq<char> {
    match channel_of(s) {
        Some(c) => channel_digits(c),
        None => Seq::<char>::empty(),
    }
}

fn digit_str(d: u8) -> (r: &'static str)
    requires
        d < 10,
    ensures
        r@ == seq![digit_char(d)],
{
    proof {
        reveal_strlit("0");
        reveal_strlit("1");
        reveal_strlit("2");
        reveal_strlit("3");
        reveal_strlit("4");
        reveal_strlit("5");
        reveal_strlit("6");
        reveal_strlit("7");
        reveal_strlit("8");
        reveal_strlit("9");
    }
    let r: &'static str = match d {
        0 => "0",
        1 => "1",
        2 => "2",
        3 => "3",
        4 => "4",
        5 => "5",
        6 => "6",
        7 => "7",
        8 => "8",
        _ => "9",
    };
    proof {
        assert(r@ =~= seq![digit_char(d)]);
    }
    r
}

impl Status {
    /// A well-formed status carries a channel below 16, as every decoded
    /// status does: the channel comes from a 4-bit field.
    pub open spec fn wf(self) -> bool {
        match channel_of(self) {
            Some(c) => c < 16,
            None => true,
        }
    }

    /// The stable name of this event type.
    pub fn name(&self) -> (r: String)
        ensures
            r@ == name_of(*self),
    {
        let n: &'static str = match *self {
            Status::NoteOff(_) => "note_off",
            Status::NoteOn(_) => "note_on",
            Status::KeyPressure(_) => "key_pressure",
            Status::ControllerChange(_) => "controller_change",
            Status::ProgramChange(_) => "program_change",
            Status::ChannelPressure(_) => "channel_pressure",
            Status::PitchBend(_) => "pitch_bend",
            Status::SystemExclusive => "system_exclusive",
            Status::SongPosition => "song_position",
            Status::SongSelect => "song_select",
            Status::TuneRequest => "tune_request",
            Status::EndOfSysex => "end_of_sysex",
            Status::TimingTick => "timing_tick",
            Status::StartSong => "start_song",
            Status::ContinueSong => "continue_song",
            Status::StopSong => "stop_song",
        };
        String::from_str(n)
    }

    /// The channel segment this status contributes to an outbound address:
    /// the decimal channel number, or the empty string for system events.
    pub fn channel(&self) -> (r: String)
        requires
            self.wf(),
        ensures
            r@ == channel_seg(*self),
    {
        let c: u8 = match *self {
            Status::NoteOff(c) => c,
            Status::NoteOn(c) => c,
            Status::KeyPressure(c) => c,
            Status::ControllerChange(c) => c,
            Status::ProgramChange(c) => c,
            Status::ChannelPressure(c) => c,
            Status::PitchBend(c) => c,
            _ => {
                return String::new();
            },
        };
        if c < 10 {
            String::from_str(digit_str(c))
        } else {
            let r = String::from_str("1").concat(digit_str(c - 10));
            proof {
                reveal_strlit("1");
                assert(r@ =~= channel_digits(c));
            }
            r
        }
    }

    /// Decode one raw status byte, rejecting every byte outside the
    /// protocol's legal set.
    pub fn decode(status: u8) -> (r: Result<Status, DecodeError>)
        ensures
            match decoded(status) {
                Some(s) => r == Ok::<Status, DecodeError>(s),
                None => r == Err::<Status, DecodeError>(DecodeError { status }),
            },
    {
        let ch = status & 0x0f;
        match status & 0xf0 {
            0x80 => Ok(Status::NoteOff(ch)),
            0x90 => Ok(Status::NoteOn(ch)),
            0xa0 => Ok(Status::KeyPressure(ch)),
            0xb0 => Ok(Status::ControllerChange(ch)),
            0xc0 => Ok(Status::ProgramChange(ch)),
            0xd0 => Ok(Status::ChannelPressure(ch)),
            0xe0 => Ok(Status::PitchBend(ch)),
            _ => match status {
                0xf0 => Ok(Status::SystemExclusive),
                0xf2 => Ok(Status::SongPosition),
                0xf3 => Ok(Status::SongSelect),
                0xf6 => Ok(Status::TuneRequest),
                0xf7 => Ok(Status::EndOfSysex),
                0xf8 => Ok(Status::TimingTick),
                0xfa => Ok(Status::StartSong),
                0xfb => Ok(Status::ContinueSong),
                0xfc => Ok(Status::StopSong),
                _ => Err(DecodeError { status }),
            },
        }
    }
}

/// One decoded event bundled with its two raw data bytes. Immutable once
/// built; each instance is rendered into one outbound message and dropped.
#[derive(Clone, Copy, Debug, PartialEq, Eq, Structural)]
pub struct Message {
    pub status: Status,
    pub data1: u8,
    pub data2: u8,
}

impl Message {
    /// A well-formed message holds a well-formed status.
    pub open spec fn wf(self) -> bool {
        self.status.wf()
    }

    /// Decode the three raw bytes of one event into a message, rejecting an
    /// illegal status byte. The data bytes pass through unchecked.
    pub fn from_bytes(status: u8, data1: u8, data2: u8) -> (r: Result<Message, DecodeError>)
        ensures
            match decoded(status) {
                Some(s) => r == Ok::<Message, DecodeError>(Message { status: s, data1, data2 }),
                None => r == Err::<Message, DecodeError>(DecodeError { status }),
            },
            r matches Ok(m) ==> m.wf(),
    {
        proof {
            lemma_decoded_wf(status);
        }
        match Status::decode(status) {
            Ok(s) => Ok(Message { status: s, data1, data2 }),
            Err(e) => Err(e),
        }
    }

    /// Render this message for the named source: the address carries the
    /// underscored source name and the channel segment, and the arguments
    /// are, in order, the event name and the two data bytes widened to
    /// signed 32-bit integers.
    pub fn to_osc(&self, device_name: &str) -> (r: OutboundMessage)
        requires
            self.wf(),
        ensures
            r.addr@ == address_of(device_name@, self.status),
            r.name@ == name_of(self.status),
            r.data1 == self.data1 as i32,
            r.data2 == self.data2 as i32,
    {
        let mut addr = String::from_str("/midi/");
        let under = underscore_name(device_name);
        addr.append(under.as_str());
        addr.append("/");
        let ch = self.status.channel();
        addr.append(ch.as_str());
        proof {
            assert(addr@ =~= address_of(device_name@, self.status));
        }
        OutboundMessage {
            addr,
            name: self.status.name(),
            data1: self.data1 as i32,
            data2: self.data2 as i32,
        }
    }
}

/// Every byte of the channel voice range decodes to the variant selected by
/// its high nibble, carrying the low nibble as the channel, for every
/// low-nibble value.
pub proof fn lemma_channel_voice_decoding(status: u8)
    requires
        0x80 <= status <= 0xef,
    ensures
        decoded(status) is Some,
        channel_of(decoded(status).unwrap()) == Some((status % 16) as u8),
        0x80 <= status <= 0x8f ==> decoded(status) == Some(Status::NoteOff((status % 16) as u8)),
        0x90 <= status <= 0x9f ==> decoded(status) == Some(Status::NoteOn((status % 16) as u8)),
        0xa0 <= status <= 0xaf ==> decoded(status) == Some(
            Status::KeyPressure((status % 16) as u8),
        ),
        0xb0 <= status <= 0xbf ==> decoded(status) == Some(
            Status::ControllerChange((status % 16) as u8),
        ),
        0xc0 <= status <= 0xcf ==> decoded(status) == Some(
            Status::ProgramChange((status % 16) as u8),
        ),
        0xd0 <= status <= 0xdf ==> decoded(status) == Some(
            Status::ChannelPressure((status % 16) as u8),
        ),
        0xe0 <= status <= 0xef ==> decoded(status) == Some(
            Status::PitchBend((status % 16) as u8),
        ),
{
    assert((status & 0x0f) == status % 16) by (bit_vector);
    assert(0x80 <= status <= 0x8f ==> (status & 0xf0) == 0x80) by (bit_vector);
    assert(0x90 <= status <= 0x9f ==> (status & 0xf0) == 0x90) by (bit_vector);
    assert(0xa0 <= status <= 0xaf ==> (status & 0xf0) == 0xa0) by (bit_vector);
    assert(0xb0 <= status <= 0xbf ==> (status & 0xf0) == 0xb0) by (bit_vector);
    assert(0xc0 <= status <= 0xcf ==> (status & 0xf0) == 0xc0) by (bit_vector);
    assert(0xd0 <= status <= 0xdf ==> (status & 0xf0) == 0xd0) by (bit_vector);
    assert(0xe0 <= status <= 0xef ==> (status & 0xf0) == 0xe0) by (bit_vector);
}

/// Every byte of the fixed system set decodes to its own channel-less
/// variant.
pub proof fn lemma_system_status_decoding(status: u8)
    requires
        is_system_status(status),
    ensures
        status == 0xf0 ==> decoded(status) == Some(Status::SystemExclusive),
        status == 0xf2 ==> decoded(status) == Some(Status::SongPosition),
        status == 0xf3 ==> decoded(status) == Some(Status::SongSelect),
        status == 0xf6 ==> decoded(status) == Some(Status::TuneRequest),
        status == 0xf7 ==> decoded(status) == Some(Status::EndOfSysex),
        status == 0xf8 ==> decoded(status) == Some(Status::TimingTick),
        status == 0xfa ==> decoded(status) == Some(Status::StartSong),
        status == 0xfb ==> decoded(status) == Some(Status::ContinueSong),
        status == 0xfc ==> decoded(status) == Some(Status::StopSong),
        channel_of(decoded(status).unwrap()) is None,
{
    assert(0xf0 <= status ==> (status & 0xf0) == 0xf0) by (bit_vector);
}

/// Every byte outside both legal sets has no decoding: decode reports it
/// rather than falling back to some default variant.
pub proof fn lemma_unknown_status_rejected(status: u8)
    requires
        !(0x80 <= status <= 0xef),
        !is_system_status(status),
    ensures
        decoded(status) is None,
{
    assert(!(0x80 <= status && status <= 0xef) ==> (status & 0xf0) != 0x80 && (status & 0xf0)
        != 0x90 && (status & 0xf0) != 0xa0 && (status & 0xf0) != 0xb0 && (status & 0xf0) != 0xc0
        && (status & 0xf0) != 0xd0 && (status & 0xf0) != 0xe0) by (bit_vector);
}

/// Every decoded status is well formed: a decoded channel is a 4-bit value.
pub proof fn lemma_decoded_wf(status: u8)
    ensures
        decoded(status) matches Some(s) ==> s.wf(),
{
    assert((status & 0x0f) < 16) by (bit_vector);
}

} // verus!
