use midioscar::message::{DecodeError, Message, Status};
use midioscar::osc::process_event;

#[test]
fn note_on_builds_channel_address_and_arguments() {
    let msg = Message::from_bytes(0x93, 64, 100).unwrap();
    assert_eq!(msg.status, Status::NoteOn(3));
    let out = msg.to_osc("My Device");
    assert_eq!(out.addr, "/midi/My_Device/3");
    assert_eq!(out.name, "note_on");
    assert_eq!(out.data1, 64);
    assert_eq!(out.data2, 100);
}

#[test]
fn system_event_keeps_the_empty_channel_segment() {
    let msg = Message::from_bytes(0xf8, 0, 0).unwrap();
    assert_eq!(msg.status, Status::TimingTick);
    let out = msg.to_osc("Clock");
    assert_eq!(out.addr, "/midi/Clock/");
    assert_eq!(out.name, "timing_tick");
    assert_eq!(out.data1, 0);
    assert_eq!(out.data2, 0);
}

#[test]
fn every_space_in_a_source_name_is_replaced() {
    let msg = Message::from_bytes(0x80, 1, 2).unwrap();
    let out = msg.to_osc("A B C");
    assert_eq!(out.addr, "/midi/A_B_C/0");
    let out = msg.to_osc("  double  ");
    assert_eq!(out.addr, "/midi/__double__/0");
}

#[test]
fn from_bytes_rejects_an_illegal_status() {
    assert_eq!(Message::from_bytes(0xf1, 0, 0), Err(DecodeError { status: 0xf1 }));
    assert_eq!(Message::from_bytes(0x55, 9, 9), Err(DecodeError { status: 0x55 }));
}

#[test]
fn data_bytes_pass_through_unchecked() {
    let msg = Message::from_bytes(0xb7, 200, 255).unwrap();
    let out = msg.to_osc("x");
    assert_eq!(out.data1, 200);
    assert_eq!(out.data2, 255);
}

#[test]
fn processed_event_decodes_back_to_the_built_message() {
    let bytes = process_event("My Device", 0x93, 64, 100).unwrap();
    let (rest, packet) = rosc::decoder::decode_udp(&bytes).unwrap();
    assert!(rest.is_empty());
    match packet {
        rosc::OscPacket::Message(m) => {
            assert_eq!(m.addr, "/midi/My_Device/3");
            assert_eq!(
                m.args,
                vec![
                    rosc::OscType::String("note_on".to_string()),
                    rosc::OscType::Int(64),
                    rosc::OscType::Int(100),
                ]
            );
        },
        _ => panic!("expected a message packet"),
    }
}

#[test]
fn processed_system_event_decodes_back_with_trailing_slash() {
    let bytes = process_event("Clock", 0xf8, 0, 0).unwrap();
    let (_, packet) = rosc::decoder::decode_udp(&bytes).unwrap();
    match packet {
        rosc::OscPacket::Message(m) => {
            assert_eq!(m.addr, "/midi/Clock/");
            assert_eq!(
                m.args,
                vec![
                    rosc::OscType::String("timing_tick".to_string()),
                    rosc::OscType::Int(0),
                    rosc::OscType::Int(0),
                ]
            );
        },
        _ => panic!("expected a message packet"),
    }
}

#[test]
fn process_event_reports_an_illegal_status() {
    assert_eq!(process_event("x", 0xf1, 0, 0), Err(DecodeError { status: 0xf1 }));
}
