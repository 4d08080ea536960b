use input_bridge::codec::{decode_button, decode_packet, encode_rel, to_abs_coord, to_button, to_rel_coord};
use input_bridge::command::{Axis, ButtonId, Channel, Command, ProtocolError};

#[test]
fn press_and_release_decode_to_same_button() {
    for b in 1u8..128u8 {
        let release = decode_button(&[b]).unwrap();
        let press = decode_button(&[b + 128]).unwrap();
        let released = match release {
            Command::Release(id) => id,
            other => panic!("expected a release, got {:?}", other),
        };
        let pressed = match press {
            Command::Press(id) => id,
            other => panic!("expected a press, got {:?}", other),
        };
        assert_eq!(released, pressed);
    }
}

#[test]
fn rel_delta_round_trips_for_every_byte() {
    for b in 0u8..=255u8 {
        let d = to_rel_coord(b);
        assert!(-127 <= d && d <= 128);
        assert_eq!(encode_rel(d), b);
    }
}

#[test]
fn reserved_codes_map_to_named_buttons() {
    assert_eq!(to_button(90), ButtonId::Left);
    assert_eq!(to_button(91), ButtonId::Right);
    assert_eq!(to_button(92), ButtonId::Middle);
    assert_eq!(to_button(1), ButtonId::Raw(1));
    assert_eq!(to_button(89), ButtonId::Raw(89));
    assert_eq!(to_button(93), ButtonId::Raw(93));
    assert_eq!(to_button(127), ButtonId::Raw(127));
}

#[test]
fn press_left_scenario_on_button_channel() {
    let decoded = decode_packet(Channel::Button, &[0xDA]);
    assert_eq!(decoded, Ok(Command::Press(ButtonId::Left)));
}

#[test]
fn release_on_button_channel() {
    assert_eq!(
        decode_packet(Channel::Button, &[91]),
        Ok(Command::Release(ButtonId::Right))
    );
}

#[test]
fn scroll_channel_values() {
    assert_eq!(decode_packet(Channel::Scroll, &[0x0A]), Ok(Command::Scroll(10)));
    assert_eq!(decode_packet(Channel::Scroll, &[0x82]), Ok(Command::Scroll(-126)));
    assert_eq!(decode_packet(Channel::Scroll, &[0x80]), Ok(Command::Scroll(128)));
    assert_eq!(decode_packet(Channel::Scroll, &[0xFF]), Ok(Command::Scroll(-1)));
}

#[test]
fn move_channels_decode_relative_deltas() {
    assert_eq!(
        decode_packet(Channel::MoveX, &[5]),
        Ok(Command::MoveAxis(Axis::X, 5))
    );
    assert_eq!(
        decode_packet(Channel::MoveY, &[0x85]),
        Ok(Command::MoveAxis(Axis::Y, -123))
    );
}

#[test]
fn bad_button_codes_are_rejected() {
    assert_eq!(decode_packet(Channel::Button, &[0]), Err(ProtocolError::BadCode));
    assert_eq!(decode_packet(Channel::Button, &[128]), Err(ProtocolError::BadCode));
}

#[test]
fn empty_datagrams_are_rejected_on_every_channel() {
    assert_eq!(decode_packet(Channel::Button, &[]), Err(ProtocolError::Empty));
    assert_eq!(decode_packet(Channel::Scroll, &[]), Err(ProtocolError::Empty));
    assert_eq!(decode_packet(Channel::MoveX, &[]), Err(ProtocolError::Empty));
    assert_eq!(decode_packet(Channel::MoveY, &[]), Err(ProtocolError::Empty));
}

#[test]
fn abs_coord_reads_two_bytes_high_first() {
    assert_eq!(to_abs_coord(&[0x01, 0x02]), 258);
    assert_eq!(to_abs_coord(&[0x00, 0xFF]), 255);
    assert_eq!(to_abs_coord(&[0xFF, 0xFF]), 65535);
}
