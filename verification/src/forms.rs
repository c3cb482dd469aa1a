//! Positions within a connected run of letters, and the set of glyphs a
//! letter offers for them.

use vstd::prelude::*;

verus! {

/// Index of the glyph a letter takes when it stands alone, connected to
/// neither neighbour.
pub const ISOLATED: i16 = 0;

/// Index of the glyph a letter takes when it starts a connected run: it
/// connects to what follows, not to what precedes.
pub const INITIAL: i16 = 1;

/// Index of the glyph a letter takes when it is connected on both sides.
pub const MEDIAL: i16 = 2;

/// Index of the glyph a letter takes when it ends a connected run: it
/// connects to what precedes, not to what follows.
pub const FINAL: i16 = 3;

/// Stands for "no shaping context has been determined yet". It is reserved for
/// callers that walk a run of text and is never an index into a [`FormSet`].
pub const UNSHAPED: i16 = 255;

/// The glyphs of one letter, indexed by [`ISOLATED`], [`INITIAL`], [`MEDIAL`]
/// and [`FINAL`]. A slot is `None` where the letter has no glyph of its own
/// for that position.
pub type FormSet = [Option<char>; 4];

/// What a table row stores in a slot for which the letter has no glyph.
pub const NO_FORM: char = '\0';

/// Whether `position` is one of the four indices of a [`FormSet`].
pub open spec fn is_position(position: i16) -> bool {
    position == ISOLATED || position == INITIAL || position == MEDIAL || position == FINAL
}

/// The glyph that a stored slot stands for: none for [`NO_FORM`], the stored
/// scalar value otherwise.
pub open spec fn glyph(slot: char) -> Option<char> {
    if slot == NO_FORM {
        None
    } else {
        Some(slot)
    }
}

/// The form set that a stored row stands for, slot by slot.
pub open spec fn row_forms(row: [char; 4]) -> FormSet {
    [glyph(row[0]), glyph(row[1]), glyph(row[2]), glyph(row[3])]
}

/// Reads one stored slot.
pub fn read_slot(slot: char) -> (form: Option<char>)
    ensures
        form == glyph(slot),
{
    if slot == NO_FORM {
        None
    } else {
        Some(slot)
    }
}

/// Reads one stored row.
pub fn read_row(row: [char; 4]) -> (forms: FormSet)
    ensures
        forms == row_forms(row),
{
    [read_slot(row[0]), read_slot(row[1]), read_slot(row[2]), read_slot(row[3])]
}

/// The four positions are exactly the indices of a form set, each a different
/// one, and [`UNSHAPED`] is none of them.
pub proof fn lemma_unshaped_is_no_position()
    ensures
        forall|position: i16| is_position(position) <==> 0 <= position < 4,
        ISOLATED != INITIAL && ISOLATED != MEDIAL && ISOLATED != FINAL,
        INITIAL != MEDIAL && INITIAL != FINAL && MEDIAL != FINAL,
        !is_position(UNSHAPED),
{
}

} // verus!
