//! The way from raw MIDI bytes to the messages and settings of an emitter.

use crate::emitter::EmitterMessage;
use crate::params::EmitterParams;
use crate::params::PendingControl;
use midly::live::LiveEvent;
use midly::MidiMessage;
use vstd::prelude::*;

verus! {

/// The MIDI messages that the instrument listens to.
#[derive(Clone, Copy, Debug, PartialEq, Eq, Structural)]
pub enum MidiEvent {
    /// A key went down.
    NoteOn { key: u8, vel: u8 },
    /// A key went up.
    NoteOff { key: u8, vel: u8 },
    /// A controller moved.
    Controller { controller: u8, value: u8 },
}

/// A MIDI message with the channel it came on.
#[derive(Clone, Copy, Debug, PartialEq, Eq, Structural)]
pub struct ChannelEvent {
    /// The MIDI channel, from 0 to 15.
    pub channel: u8,
    /// The message.
    pub event: MidiEvent,
}

/// The message that the bytes of a live MIDI event stand for, where it is
/// one the instrument listens to: a status byte whose high half names the
/// kind (8 note off, 9 note on, 11 controller) and whose low half is the
/// channel, then two data bytes below 128. Bytes that follow are ignored.
pub open spec fn decoded(bytes: Seq<u8>) -> Option<ChannelEvent> {
    if bytes.len() >= 3 && bytes[1] <= 127 && bytes[2] <= 127 {
        let channel = bytes[0] % 16;
        if bytes[0] / 16 == 8 {
            Some(ChannelEvent { channel, event: MidiEvent::NoteOff { key: bytes[1], vel: bytes[2] } })
        } else if bytes[0] / 16 == 9 {
            Some(ChannelEvent { channel, event: MidiEvent::NoteOn { key: bytes[1], vel: bytes[2] } })
        } else if bytes[0] / 16 == 11 {
            Some(
                ChannelEvent {
                    channel,
                    event: MidiEvent::Controller { controller: bytes[1], value: bytes[2] },
                },
            )
        } else {
            None
        }
    } else {
        None
    }
}

/// `LiveEvent::parse` of midly, narrowed to the three kinds of message
/// that the instrument listens to: it reads the status byte, cuts the
/// data off at the first byte above 127, asks for two data bytes, and
/// tells the kind by the high half of the status byte and the channel by
/// the low half. Every other outcome of the parser, its errors too, is
/// `None` here.
#[verifier::external_body]
fn parse_live_event(bytes: &[u8]) -> (event: Option<ChannelEvent>)
    ensures
        event == decoded(bytes@),
{
    match LiveEvent::parse(bytes) {
        Ok(LiveEvent::Midi { channel, message }) => {
            let event = match message {
                MidiMessage::NoteOn { key, vel } => MidiEvent::NoteOn { key: key.as_int(), vel: vel.as_int() },
                MidiMessage::NoteOff { key, vel } => MidiEvent::NoteOff { key: key.as_int(), vel: vel.as_int() },
                MidiMessage::Controller { controller, value } => MidiEvent::Controller { controller: controller.as_int(), value: value.as_int() },
                _ => return None,
            };
            Some(ChannelEvent { channel: channel.as_int(), event })
        },
        _ => None,
    }
}

/// What is to be done about a MIDI message.
#[derive(Debug)]
pub enum MidiAction {
    /// Send this message to the emitter.
    Send(EmitterMessage),
    /// The settings have changed. Evaluate the logarithmic curves listed,
    /// set their settings to the values found, and send the emitter the
    /// settings.
    Update(Vec<PendingControl>),
    /// Nothing.
    Ignore,
}

/// Decodes a live MIDI event.
pub fn parse_midi(msg_raw: &[u8]) -> (event: Option<ChannelEvent>)
    ensures
        event == decoded(msg_raw@),
{
    parse_live_event(msg_raw)
}

/// Acts on a MIDI message: a key that goes down or up becomes a message
/// for the emitter; a controller moves every setting that the table of
/// `params` binds it to.
pub fn handle_midi_msg(params: &mut EmitterParams, message: MidiEvent) -> (action: MidiAction)
    ensures
        handled(*old(params), message, *final(params), action),
{
    match message {
        MidiEvent::NoteOn { key, vel } => MidiAction::Send(EmitterMessage::NoteOn { key, vel }),
        MidiEvent::NoteOff { key, vel } => MidiAction::Send(EmitterMessage::NoteOff { key, vel }),
        MidiEvent::Controller { controller, value } => MidiAction::Update(
            params.apply_controller(controller, value),
        ),
    }
}

/// Acts on the raw bytes of a live MIDI event received while listening on
/// `channel`: bytes that are no message the instrument listens to, and
/// messages on another channel, are ignored.
pub fn handle_midi_message(msg_raw: &[u8], channel: u8, params: &mut EmitterParams) -> (action:
    MidiAction)
    ensures
        match decoded(msg_raw@) {
            Some(found) if found.channel == channel => handled(
                *old(params),
                found.event,
                *final(params),
                action,
            ),
            _ => *final(params) == *old(params) && action == MidiAction::Ignore,
        },
{
    match parse_midi(msg_raw) {
        Some(found) => {
            if found.channel == channel {
                handle_midi_msg(params, found.event)
            } else {
                MidiAction::Ignore
            }
        },
        None => MidiAction::Ignore,
    }
}

/// `message` was acted on: the settings went from `before` to `after` and
/// `action` came out.
pub open spec fn handled(
    before: EmitterParams,
    message: MidiEvent,
    after: EmitterParams,
    action: MidiAction,
) -> bool {
    match message {
        MidiEvent::NoteOn { key, vel } => after == before && action == MidiAction::Send(
            EmitterMessage::NoteOn { key, vel },
        ),
        MidiEvent::NoteOff { key, vel } => after == before && action == MidiAction::Send(
            EmitterMessage::NoteOff { key, vel },
        ),
        MidiEvent::Controller { controller, value } => {
            &&& after == before.after_controller(
                before.midi_cc_map@,
                controller,
                EmitterParams::controller_level(value),
                127,
            )
            &&& action matches MidiAction::Update(pending)
            &&& pending@.len() == before.pending_controls(
                before.midi_cc_map@,
                controller,
                EmitterParams::controller_level(value),
                127,
            ).len()
            &&& forall|i: int|
                0 <= i < pending@.len() ==> (#[trigger] pending@[i]).spec()
                    == before.pending_controls(
                    before.midi_cc_map@,
                    controller,
                    EmitterParams::controller_level(value),
                    127,
                )[i]
        },
    }
}

} // verus!
