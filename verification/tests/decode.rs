use midioscar::message::{DecodeError, Status};

#[test]
fn decodes_note_off_for_every_channel() {
    for ch in 0u8..16 {
        assert_eq!(Status::decode(0x80 | ch), Ok(Status::NoteOff(ch)));
    }
}

#[test]
fn decodes_note_on_for_every_channel() {
    for ch in 0u8..16 {
        assert_eq!(Status::decode(0x90 | ch), Ok(Status::NoteOn(ch)));
    }
}

#[test]
fn decodes_key_pressure_for_every_channel() {
    for ch in 0u8..16 {
        assert_eq!(Status::decode(0xa0 | ch), Ok(Status::KeyPressure(ch)));
    }
}

#[test]
fn decodes_controller_change_for_every_channel() {
    for ch in 0u8..16 {
        assert_eq!(Status::decode(0xb0 | ch), Ok(Status::ControllerChange(ch)));
    }
}

#[test]
fn decodes_program_change_for_every_channel() {
    for ch in 0u8..16 {
        assert_eq!(Status::decode(0xc0 | ch), Ok(Status::ProgramChange(ch)));
    }
}

#[test]
fn decodes_channel_pressure_for_every_channel() {
    for ch in 0u8..16 {
        assert_eq!(Status::decode(0xd0 | ch), Ok(Status::ChannelPressure(ch)));
    }
}

#[test]
fn decodes_pitch_bend_for_every_channel() {
    for ch in 0u8..16 {
        assert_eq!(Status::decode(0xe0 | ch), Ok(Status::PitchBend(ch)));
    }
}

#[test]
fn decodes_the_fixed_system_set() {
    assert_eq!(Status::decode(0xf0), Ok(Status::SystemExclusive));
    assert_eq!(Status::decode(0xf2), Ok(Status::SongPosition));
    assert_eq!(Status::decode(0xf3), Ok(Status::SongSelect));
    assert_eq!(Status::decode(0xf6), Ok(Status::TuneRequest));
    assert_eq!(Status::decode(0xf7), Ok(Status::EndOfSysex));
    assert_eq!(Status::decode(0xf8), Ok(Status::TimingTick));
    assert_eq!(Status::decode(0xfa), Ok(Status::StartSong));
    assert_eq!(Status::decode(0xfb), Ok(Status::ContinueSong));
    assert_eq!(Status::decode(0xfc), Ok(Status::StopSong));
}

#[test]
fn rejects_every_byte_outside_the_legal_sets() {
    for status in 0u8..=0x7f {
        assert_eq!(Status::decode(status), Err(DecodeError { status }));
    }
    for status in [0xf1u8, 0xf4, 0xf5, 0xf9, 0xfd, 0xfe, 0xff] {
        assert_eq!(Status::decode(status), Err(DecodeError { status }));
    }
}

#[test]
fn channel_renders_one_and_two_digit_numbers() {
    assert_eq!(Status::NoteOn(0).channel(), "0");
    assert_eq!(Status::NoteOn(9).channel(), "9");
    assert_eq!(Status::NoteOn(10).channel(), "10");
    assert_eq!(Status::PitchBend(15).channel(), "15");
}

#[test]
fn channel_is_empty_for_system_events() {
    assert_eq!(Status::TimingTick.channel(), "");
    assert_eq!(Status::SystemExclusive.channel(), "");
    assert_eq!(Status::StopSong.channel(), "");
}

#[test]
fn names_are_the_fixed_stable_table() {
    assert_eq!(Status::NoteOff(0).name(), "note_off");
    assert_eq!(Status::NoteOn(1).name(), "note_on");
    assert_eq!(Status::KeyPressure(2).name(), "key_pressure");
    assert_eq!(Status::ControllerChange(3).name(), "controller_change");
    assert_eq!(Status::ProgramChange(4).name(), "program_change");
    assert_eq!(Status::ChannelPressure(5).name(), "channel_pressure");
    assert_eq!(Status::PitchBend(6).name(), "pitch_bend");
    assert_eq!(Status::SystemExclusive.name(), "system_exclusive");
    assert_eq!(Status::SongPosition.name(), "song_position");
    assert_eq!(Status::SongSelect.name(), "song_select");
    assert_eq!(Status::TuneRequest.name(), "tune_request");
    assert_eq!(Status::EndOfSysex.name(), "end_of_sysex");
    assert_eq!(Status::TimingTick.name(), "timing_tick");
    assert_eq!(Status::StartSong.name(), "start_song");
    assert_eq!(Status::ContinueSong.name(), "continue_song");
    assert_eq!(Status::StopSong.name(), "stop_song");
}
