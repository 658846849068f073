use vstd::prelude::*;

verus! {

/// Name fragment of the output port preferred when several are offered.
pub const USB_INTERFACE_NAME: &'static str = "USB MIDI Interface";

/// Whether `needle` occurs in `hay` as a contiguous run of characters.
pub open spec fn contains_spec(hay: Seq<char>, needle: Seq<char>) -> bool {
    exists|i: int|
        0 <= i && i + needle.len() <= hay.len() && #[trigger] hay.subrange(i, i + needle.len())
            == needle
}

/// Relies on `str::contains` with a `&str` pattern: true exactly when the
/// pattern occurs in the string as a substring.
#[verifier::external_body]
fn str_contains(hay: &str, needle: &str) -> (r: bool)
    ensures
        r == contains_spec(hay@, needle@),
{
    hay.contains(needle)
}

/// Whether the port named `name` is a USB MIDI interface.
pub open spec fn is_usb_port(name: Seq<char>) -> bool {
    contains_spec(name, USB_INTERFACE_NAME@)
}

/// The port chosen among ports named `names`: none when there are none; the
/// only one when there is one; otherwise the last USB MIDI interface, or the
/// first port when no name matches.
pub open spec fn chosen_port(names: Seq<Seq<char>>) -> Option<int> {
    if names.len() == 0 {
        None
    } else if names.len() == 1 {
        Some(0)
    } else if exists|j: int| 0 <= j < names.len() && is_usb_port(#[trigger] names[j]) {
        Some(
            choose|j: int|
                0 <= j < names.len() && is_usb_port(#[trigger] names[j]) && forall|k: int|
                    j < k < names.len() ==> !is_usb_port(#[trigger] names[k]),
        )
    } else {
        Some(0)
    }
}

/// Chooses the output port to play through, given the ports' names.
pub fn select_output_port(names: &Vec<String>) -> (r: Option<usize>)
    ensures
        r is None <==> names.len() == 0,
        names.len() == 1 ==> r == Some(0usize),
        r matches Some(i) ==> i < names.len(),
        names.len() > 1 ==> (r matches Some(i) && (
            if exists|j: int| 0 <= j < names.len() && is_usb_port(#[trigger] names[j]@) {
                &&& is_usb_port(names[i as int]@)
                &&& forall|k: int| i < k < names.len() ==> !is_usb_port(#[trigger] names[k]@)
            } else {
                i == 0
            })),
{
    if names.len() == 0 {
        return None;
    }
    if names.len() == 1 {
        return Some(0);
    }
    let mut chosen: usize = 0;
    let mut found: bool = false;
    let mut i: usize = 0;
    while i < names.len()
        invariant
            i <= names.len(),
            chosen < names.len(),
            found <==> exists|j: int| 0 <= j < i && is_usb_port(#[trigger] names[j]@),
            found ==> is_usb_port(names[chosen as int]@) && chosen < i,
            found ==> forall|k: int| chosen < k < i ==> !is_usb_port(#[trigger] names[k]@),
            !found ==> chosen == 0,
        decreases names.len() - i,
    {
        if str_contains(names[i].as_str(), USB_INTERFACE_NAME) {
            chosen = i;
            found = true;
        }
        i = i + 1;
    }
    Some(chosen)
}

/// Status byte of a note-on message on channel 0.
pub const NOTE_ON: u8 = 0x90;

/// Status byte of a note-off message on channel 0.
pub const NOTE_OFF: u8 = 0x80;

/// Velocity of the test melody's notes.
pub const VELOCITY: u8 = 0x64;

/// A note-on message for `note` at the test velocity.
pub fn note_on_message(note: u8) -> (r: Vec<u8>)
    ensures
        r@ == seq![NOTE_ON, note, VELOCITY],
{
    let r: Vec<u8> = vec![NOTE_ON, note, VELOCITY];
    assert(r@ =~= seq![NOTE_ON, note, VELOCITY]);
    r
}

/// A note-off message for `note` at the test velocity.
pub fn note_off_message(note: u8) -> (r: Vec<u8>)
    ensures
        r@ == seq![NOTE_OFF, note, VELOCITY],
{
    let r: Vec<u8> = vec![NOTE_OFF, note, VELOCITY];
    assert(r@ =~= seq![NOTE_OFF, note, VELOCITY]);
    r
}

/// Length in milliseconds of one beat unit of the test melody.
pub const MELODY_UNIT_MS: u64 = 150;

/// The test melody: each note with its length in beat units.
pub open spec fn melody_spec() -> Seq<(u8, u64)> {
    seq![(66u8, 4u64), (65, 3), (63, 1), (61, 6), (59, 2), (58, 4), (56, 4), (54, 4)]
}

/// The short melody played to check the connection before a file: each
/// note with its length in milliseconds.
pub fn test_melody() -> (r: Vec<(u8, u64)>)
    ensures
        r.len() == melody_spec().len(),
        forall|i: int|
            0 <= i < r.len() ==> r[i].0 == melody_spec()[i].0 && r[i].1 == melody_spec()[i].1
                * MELODY_UNIT_MS,
{
    let units: Vec<(u8, u64)> = vec![(66u8, 4u64), (65, 3), (63, 1), (61, 6), (59, 2), (58, 4), (56, 4), (54, 4)];
    assert(units@ =~= melody_spec());
    let mut r: Vec<(u8, u64)> = Vec::new();
    let mut i: usize = 0;
    while i < units.len()
        invariant
            i <= units.len(),
            units@ == melody_spec(),
            r.len() == i,
            forall|j: int|
                0 <= j < i ==> r[j].0 == melody_spec()[j].0 && r[j].1 == melody_spec()[j].1
                    * MELODY_UNIT_MS,
        decreases units.len() - i,
    {
        let (note, len) = units[i];
        assert(len <= 6);
        r.push((note, len * MELODY_UNIT_MS));
        i = i + 1;
    }
    r
}

/// Carriage return.
pub const CR: u8 = 0x0D;

/// `text` with every carriage return taken out.
pub open spec fn without_cr(text: Seq<u8>) -> Seq<u8>
    decreases text.len(),
{
    if text.len() == 0 {
        text
    } else if text.last() == CR {
        without_cr(text.drop_last())
    } else {
        without_cr(text.drop_last()).push(text.last())
    }
}

/// Takes carriage returns out of lyric text, so that printed lyrics do not
/// overwrite themselves. (A carriage return byte never occurs inside a
/// multi-byte UTF-8 sequence, so UTF-8 text stays UTF-8.)
pub fn strip_carriage_returns(text: &Vec<u8>) -> (r: Vec<u8>)
    ensures
        r@ == without_cr(text@),
{
    let mut r: Vec<u8> = Vec::new();
    let mut i: usize = 0;
    while i < text.len()
        invariant
            i <= text.len(),
            r@ == without_cr(text@.subrange(0, i as int)),
        decreases text.len() - i,
    {
        let b = text[i];
        assert(text@.subrange(0, i + 1).drop_last() =~= text@.subrange(0, i as int));
        if b != CR {
            r.push(b);
        }
        i = i + 1;
    }
    assert(text@.subrange(0, text.len() as int) =~= text@);
    r
}

} // verus!
