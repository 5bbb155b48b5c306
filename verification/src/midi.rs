//! MIDI input protocol: Control Change messages latch controller values,
//! Note On messages queue trigger notes. Channel-agnostic.
use vstd::prelude::*;

pub mod note;

verus! {

/// Status nibble of a Control Change message.
pub const STATUS_CC: u8 = 0xB0;
/// Status nibble of a Note On message.
pub const STATUS_NOTE_ON: u8 = 0x90;

/// Most note events held between two frames.
pub const NOTES_QUEUE_CAP: usize = 64;

/// Controller state gathered from the MIDI input.
pub struct MidiState {
    /// Raw 7-bit value (0..=127) last received for each CC number; the
    /// normalized control value is `cc / 127`. Latched until changed.
    pub cc: [u8; 128],
    /// Whether each CC has been received this session.
    pub cc_set: [bool; 128],
    /// Note On events waiting to be handled (FIFO, capped at `NOTES_QUEUE_CAP`).
    pub notes: Vec<u8>,
    /// Last received CC `(number, raw value)`.
    pub last_cc: Option<(u8, u8)>,
    /// Connected port name, if any.
    pub port_name: Option<String>,
}

impl Default for MidiState {
    fn default() -> (r: MidiState)
        ensures
            forall|i: int| 0 <= i < 128 ==> r.cc[i] == 0 && !r.cc_set[i],
            r.notes@.len() == 0,
            r.last_cc is None,
            r.port_name is None,
    {
        MidiState { cc: [0u8; 128], cc_set: [false; 128], notes: Vec::new(), last_cc: None, port_name: None }
    }
}

/// The high nibble of a status byte (message kind; the low nibble is the channel).
pub open spec fn status_kind(b: u8) -> int {
    b as int / 16
}

/// What one raw message does to the state; see `parse_message`.
pub open spec fn parse_effect(msg: Seq<u8>, old: &MidiState, new: &MidiState, changed: bool) -> bool {
    let unchanged = new.cc@ == old.cc@ && new.cc_set@ == old.cc_set@ && new.notes@ == old.notes@
        && new.last_cc == old.last_cc;
    if msg.len() == 0 {
        !changed && unchanged
    } else if status_kind(msg[0]) == 0xB {
        if msg.len() >= 3 && msg[1] < 128 && msg[2] < 128 {
            &&& changed
            &&& new.cc@ == old.cc@.update(msg[1] as int, msg[2])
            &&& new.cc_set@ == old.cc_set@.update(msg[1] as int, true)
            &&& new.last_cc == Some((msg[1], msg[2]))
            &&& new.notes@ == old.notes@
        } else {
            !changed && unchanged
        }
    } else if status_kind(msg[0]) == 0x9 {
        if msg.len() >= 3 && msg[2] > 0 && old.notes@.len() < NOTES_QUEUE_CAP {
            &&& changed
            &&& new.notes@ == old.notes@.push(msg[1])
            &&& new.cc@ == old.cc@
            &&& new.cc_set@ == old.cc_set@
            &&& new.last_cc == old.last_cc
        } else {
            !changed && unchanged
        }
    } else {
        !changed && unchanged
    }
}

/// Parses one raw MIDI message into `state`; returns whether it took effect.
/// Control Change (any channel) with a 7-bit controller number and value
/// latches the value, marks the controller as set and records it as the last
/// CC. Note On (any channel) with velocity > 0 queues the note while the queue
/// holds fewer than `NOTES_QUEUE_CAP` notes. Short, empty and other messages
/// (Note Off, pitch bend, aftertouch, …) change nothing.
pub fn parse_message(msg: &[u8], state: &mut MidiState) -> (changed: bool)
    ensures
        parse_effect(msg@, old(state), final(state), changed),
        final(state).port_name == old(state).port_name,
        old(state).notes@.len() <= NOTES_QUEUE_CAP ==> final(state).notes@.len() <= NOTES_QUEUE_CAP,
{
    if msg.len() == 0 {
        return false;
    }
    let b = msg[0];
    let status = b & 0xF0;
    proof {
        assert((b & 0xF0u8 == 0xB0u8) <==> (b / 16 == 11)) by (bit_vector);
        assert((b & 0xF0u8 == 0x90u8) <==> (b / 16 == 9)) by (bit_vector);
    }
    if status == STATUS_CC {
        if msg.len() < 3 {
            return false;
        }
        let cc = msg[1];
        let val = msg[2];
        if cc < 128 && val < 128 {
            state.cc[cc as usize] = val;
            state.cc_set[cc as usize] = true;
            state.last_cc = Some((cc, val));
            return true;
        }
        false
    } else if status == STATUS_NOTE_ON {
        if msg.len() < 3 {
            return false;
        }
        let note = msg[1];
        let vel = msg[2];
        if vel > 0 && state.notes.len() < NOTES_QUEUE_CAP {
            state.notes.push(note);
            return true;
        }
        false
    } else {
        false
    }
}

} // verus!
