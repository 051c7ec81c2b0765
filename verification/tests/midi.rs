use nebulizer::emitter::EmitterMessage;
use nebulizer::midi::handle_midi_message;
use nebulizer::midi::handle_midi_msg;
use nebulizer::midi::parse_midi;
use nebulizer::midi::ChannelEvent;
use nebulizer::midi::MidiAction;
use nebulizer::midi::MidiEvent;
use nebulizer::params::ControlParam;
use nebulizer::params::EmitterParams;
use nebulizer::units::UNITY;

#[test]
fn parse_note_on() {
    assert!(
        parse_midi(&[0x90, 60, 100])
            == Some(ChannelEvent { channel: 0, event: MidiEvent::NoteOn { key: 60, vel: 100 } })
    );
    assert!(
        parse_midi(&[0x9f, 127, 0])
            == Some(ChannelEvent { channel: 15, event: MidiEvent::NoteOn { key: 127, vel: 0 } })
    );
}

#[test]
fn parse_note_off() {
    assert!(
        parse_midi(&[0x83, 61, 64])
            == Some(ChannelEvent { channel: 3, event: MidiEvent::NoteOff { key: 61, vel: 64 } })
    );
}

#[test]
fn parse_controller() {
    assert!(
        parse_midi(&[0xb1, 7, 99])
            == Some(ChannelEvent {
                channel: 1,
                event: MidiEvent::Controller { controller: 7, value: 99 },
            })
    );
}

#[test]
fn parse_ignores_bytes_after_the_message() {
    assert!(
        parse_midi(&[0x90, 60, 100, 0xff, 3])
            == Some(ChannelEvent { channel: 0, event: MidiEvent::NoteOn { key: 60, vel: 100 } })
    );
}

#[test]
fn parse_rejects_what_is_no_message_for_the_instrument() {
    assert!(parse_midi(&[]).is_none());
    assert!(parse_midi(&[0x90]).is_none());
    assert!(parse_midi(&[0x90, 60]).is_none());
    assert!(parse_midi(&[0x90, 0x80, 5]).is_none());
    assert!(parse_midi(&[0x90, 5, 0x80]).is_none());
    assert!(parse_midi(&[60, 60, 60]).is_none());
    // Aftertouch, program change, channel pressure, pitch bend.
    assert!(parse_midi(&[0xa0, 60, 60]).is_none());
    assert!(parse_midi(&[0xc0, 60, 60]).is_none());
    assert!(parse_midi(&[0xd0, 60, 60]).is_none());
    assert!(parse_midi(&[0xe0, 60, 60]).is_none());
    // System messages.
    assert!(parse_midi(&[0xf8, 60, 60]).is_none());
    assert!(parse_midi(&[0xf2, 60, 60]).is_none());
    assert!(parse_midi(&[0xf0, 1, 2, 0xf7]).is_none());
}

#[test]
fn notes_become_messages_for_the_emitter() {
    let mut params = EmitterParams::default();
    match handle_midi_msg(&mut params, MidiEvent::NoteOn { key: 60, vel: 90 }) {
        MidiAction::Send(EmitterMessage::NoteOn { key, vel }) => assert_eq!((key, vel), (60, 90)),
        _ => panic!("a note on was expected"),
    }
    match handle_midi_msg(&mut params, MidiEvent::NoteOff { key: 60, vel: 0 }) {
        MidiAction::Send(EmitterMessage::NoteOff { key, vel }) => assert_eq!((key, vel), (60, 0)),
        _ => panic!("a note off was expected"),
    }
}

#[test]
fn controller_updates_the_settings() {
    let mut params = EmitterParams::default();
    params.midi_cc_map.push((7, ControlParam::Amplitude));
    params.midi_cc_map.push((7, ControlParam::Spray));
    match handle_midi_msg(&mut params, MidiEvent::Controller { controller: 7, value: 0 }) {
        MidiAction::Update(pending) => assert!(pending.is_empty()),
        _ => panic!("an update was expected"),
    }
    assert_eq!(params.amplitude.get(), 0);
    match handle_midi_msg(&mut params, MidiEvent::Controller { controller: 7, value: 64 }) {
        MidiAction::Update(pending) => {
            assert_eq!(pending.len(), 1);
            assert!(pending[0].target == ControlParam::Spray);
        }
        _ => panic!("an update was expected"),
    }
    assert_eq!(params.amplitude.get(), 33026);
}

#[test]
fn unbound_controller_changes_nothing() {
    let mut params = EmitterParams::default();
    params.midi_cc_map.push((7, ControlParam::Amplitude));
    match handle_midi_msg(&mut params, MidiEvent::Controller { controller: 8, value: 0 }) {
        MidiAction::Update(pending) => assert!(pending.is_empty()),
        _ => panic!("an update was expected"),
    }
    assert_eq!(params.amplitude.get(), UNITY);
}

#[test]
fn raw_bytes_on_the_channel_are_acted_on() {
    let mut params = EmitterParams::default();
    params.midi_cc_map.push((1, ControlParam::Position));
    match handle_midi_message(&[0x92, 64, 127], 2, &mut params) {
        MidiAction::Send(EmitterMessage::NoteOn { key, vel }) => assert_eq!((key, vel), (64, 127)),
        _ => panic!("a note on was expected"),
    }
    match handle_midi_message(&[0xb2, 1, 127], 2, &mut params) {
        MidiAction::Update(pending) => assert!(pending.is_empty()),
        _ => panic!("an update was expected"),
    }
    assert_eq!(params.position.get(), UNITY);
}

#[test]
fn raw_bytes_on_another_channel_are_ignored() {
    let mut params = EmitterParams::default();
    params.midi_cc_map.push((1, ControlParam::Position));
    assert!(matches!(handle_midi_message(&[0x92, 64, 127], 3, &mut params), MidiAction::Ignore));
    assert!(matches!(handle_midi_message(&[0xb2, 1, 127], 0, &mut params), MidiAction::Ignore));
    assert_eq!(params.position.get(), 0);
    assert!(matches!(handle_midi_message(&[0xf8], 0, &mut params), MidiAction::Ignore));
    assert!(matches!(handle_midi_message(&[], 0, &mut params), MidiAction::Ignore));
}
