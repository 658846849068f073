use vstd::prelude::*;

verus! {

/// Status nibble of a control-change message.
pub const CONTROL_CHANGE: u8 = 0xB0;

/// Controller number of the "all notes off" channel-mode message.
pub const ALL_NOTES_OFF_CONTROLLER: u8 = 0x7B;

/// Number of MIDI channels.
pub const CHANNEL_COUNT: u8 = 16;

/// The "all notes off" control-change message for one channel.
pub open spec fn all_notes_off_spec(channel: nat) -> Seq<u8> {
    seq![(CONTROL_CHANGE + channel) as u8, ALL_NOTES_OFF_CONTROLLER, 0u8]
}

/// The silencing sequence sent before playback and on every exit path:
/// one "all notes off" message per channel, channels 0 through 15 in order.
pub fn all_notes_off_messages() -> (r: Vec<Vec<u8>>)
    ensures
        r.len() == CHANNEL_COUNT,
        forall|c: int| 0 <= c < r.len() ==> r[c]@ == all_notes_off_spec(c as nat),
{
    let mut r: Vec<Vec<u8>> = Vec::new();
    let mut channel: u8 = 0;
    while channel < CHANNEL_COUNT
        invariant
            channel <= CHANNEL_COUNT,
            r.len() == channel,
            forall|c: int| 0 <= c < r.len() ==> r[c]@ == all_notes_off_spec(c as nat),
        decreases CHANNEL_COUNT - channel,
    {
        let msg: Vec<u8> = vec![CONTROL_CHANGE + channel, ALL_NOTES_OFF_CONTROLLER, 0u8];
        assert(msg@ == all_notes_off_spec(channel as nat));
        r.push(msg);
        channel = channel + 1;
    }
    r
}

} // verus!
