//! The shaping table: every letter that takes contextual forms, with the
//! glyphs it takes.

use crate::forms::{read_row, row_forms, FormSet, FINAL, INITIAL, ISOLATED, MEDIAL, NO_FORM};
use vstd::prelude::*;

verus! {

/// ARABIC TATWEEL, the elongation character. It stretches a connected run
/// without adding a letter, and every one of its forms is the character itself.
pub const TATWEEL: char = '\u{0640}';

/// ZERO WIDTH JOINER. It forces a connection between its neighbours without
/// contributing a glyph, and every one of its forms is the character itself.
pub const ZWJ: char = '\u{200D}';

/// Number of rows of [`TABLE`].
pub const TABLE_LEN: usize = 78;

/// The table. A row holds a letter and, in the order isolated, initial,
/// medial, final, the glyph it takes in each position, [`NO_FORM`] standing
/// where it has none. Rows are in ascending order of the letter.
///
/// Being a constant, it is read by the compiled code and by the contracts
/// alike: what the functions search is what the laws below are proved of.
pub const TABLE: [(char, [char; 4]); TABLE_LEN] = [
    // ARABIC LETTER HAMZA
    ('\u{0621}', ['\u{FE80}', NO_FORM, NO_FORM, NO_FORM]),
    // ARABIC LETTER ALEF WITH MADDA ABOVE
    ('\u{0622}', ['\u{FE81}', NO_FORM, NO_FORM, '\u{FE82}']),
    // ARABIC LETTER ALEF WITH HAMZA ABOVE
    ('\u{0623}', ['\u{FE83}', NO_FORM, NO_FORM, '\u{FE84}']),
    // ARABIC LETTER WAW WITH HAMZA ABOVE
    ('\u{0624}', ['\u{FE85}', NO_FORM, NO_FORM, '\u{FE86}']),
    // ARABIC LETTER ALEF WITH HAMZA BELOW
    ('\u{0625}', ['\u{FE87}', NO_FORM, NO_FORM, '\u{FE88}']),
    // ARABIC LETTER YEH WITH HAMZA ABOVE
    ('\u{0626}', ['\u{FE89}', '\u{FE8B}', '\u{FE8C}', '\u{FE8A}']),
    // ARABIC LETTER ALEF
    ('\u{0627}', ['\u{FE8D}', NO_FORM, NO_FORM, '\u{FE8E}']),
    // ARABIC LETTER BEH
    ('\u{0628}', ['\u{FE8F}', '\u{FE91}', '\u{FE92}', '\u{FE90}']),
    // ARABIC LETTER TEH MARBUTA
    ('\u{0629}', ['\u{FE93}', NO_FORM, NO_FORM, '\u{FE94}']),
    // ARABIC LETTER TEH
    ('\u{062A}', ['\u{FE95}', '\u{FE97}', '\u{FE98}', '\u{FE96}']),
    // ARABIC LETTER THEH
    ('\u{062B}', ['\u{FE99}', '\u{FE9B}', '\u{FE9C}', '\u{FE9A}']),
    // ARABIC LETTER JEEM
    ('\u{062C}', ['\u{FE9D}', '\u{FE9F}', '\u{FEA0}', '\u{FE9E}']),
    // ARABIC LETTER HAH
    ('\u{062D}', ['\u{FEA1}', '\u{FEA3}', '\u{FEA4}', '\u{FEA2}']),
    // ARABIC LETTER KHAH
    ('\u{062E}', ['\u{FEA5}', '\u{FEA7}', '\u{FEA8}', '\u{FEA6}']),
    // ARABIC LETTER DAL
    ('\u{062F}', ['\u{FEA9}', NO_FORM, NO_FORM, '\u{FEAA}']),
    // ARABIC LETTER THAL
    ('\u{0630}', ['\u{FEAB}', NO_FORM, NO_FORM, '\u{FEAC}']),
    // ARABIC LETTER REH
    ('\u{0631}', ['\u{FEAD}', NO_FORM, NO_FORM, '\u{FEAE}']),
    // ARABIC LETTER ZAIN
    ('\u{0632}', ['\u{FEAF}', NO_FORM, NO_FORM, '\u{FEB0}']),
    // ARABIC LETTER SEEN
    ('\u{0633}', ['\u{FEB1}', '\u{FEB3}', '\u{FEB4}', '\u{FEB2}']),
    // ARABIC LETTER SHEEN
    ('\u{0634}', ['\u{FEB5}', '\u{FEB7}', '\u{FEB8}', '\u{FEB6}']),
    // ARABIC LETTER SAD
    ('\u{0635}', ['\u{FEB9}', '\u{FEBB}', '\u{FEBC}', '\u{FEBA}']),
    // ARABIC LETTER DAD
    ('\u{0636}', ['\u{FEBD}', '\u{FEBF}', '\u{FEC0}', '\u{FEBE}']),
    // ARABIC LETTER TAH
    ('\u{0637}', ['\u{FEC1}', '\u{FEC3}', '\u{FEC4}', '\u{FEC2}']),
    // ARABIC LETTER ZAH
    ('\u{0638}', ['\u{FEC5}', '\u{FEC7}', '\u{FEC8}', '\u{FEC6}']),
    // ARABIC LETTER AIN
    ('\u{0639}', ['\u{FEC9}', '\u{FECB}', '\u{FECC}', '\u{FECA}']),
    // ARABIC LETTER GHAIN
    ('\u{063A}', ['\u{FECD}', '\u{FECF}', '\u{FED0}', '\u{FECE}']),
    // ARABIC TATWEEL
    (TATWEEL, [TATWEEL, TATWEEL, TATWEEL, TATWEEL]),
    // ARABIC LETTER FEH
    ('\u{0641}', ['\u{FED1}', '\u{FED3}', '\u{FED4}', '\u{FED2}']),
    // ARABIC LETTER QAF
    ('\u{0642}', ['\u{FED5}', '\u{FED7}', '\u{FED8}', '\u{FED6}']),
    // ARABIC LETTER KAF
    ('\u{0643}', ['\u{FED9}', '\u{FEDB}', '\u{FEDC}', '\u{FEDA}']),
    // ARABIC LETTER LAM
    ('\u{0644}', ['\u{FEDD}', '\u{FEDF}', '\u{FEE0}', '\u{FEDE}']),
    // ARABIC LETTER MEEM
    ('\u{0645}', ['\u{FEE1}', '\u{FEE3}', '\u{FEE4}', '\u{FEE2}']),
    // ARABIC LETTER NOON
    ('\u{0646}', ['\u{FEE5}', '\u{FEE7}', '\u{FEE8}', '\u{FEE6}']),
    // ARABIC LETTER HEH
    ('\u{0647}', ['\u{FEE9}', '\u{FEEB}', '\u{FEEC}', '\u{FEEA}']),
    // ARABIC LETTER WAW
    ('\u{0648}', ['\u{FEED}', NO_FORM, NO_FORM, '\u{FEEE}']),
    // ARABIC LETTER ALEF MAKSURA
    ('\u{0649}', ['\u{FEEF}', '\u{FBE8}', '\u{FBE9}', '\u{FEF0}']),
    // ARABIC LETTER YEH
    ('\u{064A}', ['\u{FEF1}', '\u{FEF3}', '\u{FEF4}', '\u{FEF2}']),
    // ARABIC LETTER ALEF WASLA
    ('\u{0671}', ['\u{FB50}', NO_FORM, NO_FORM, '\u{FB51}']),
    // ARABIC LETTER U WITH HAMZA ABOVE
    ('\u{0677}', ['\u{FBDD}', NO_FORM, NO_FORM, NO_FORM]),
    // ARABIC LETTER TTEH
    ('\u{0679}', ['\u{FB66}', '\u{FB68}', '\u{FB69}', '\u{FB67}']),
    // ARABIC LETTER TTEHEH
    ('\u{067A}', ['\u{FB5E}', '\u{FB60}', '\u{FB61}', '\u{FB5F}']),
    // ARABIC LETTER BEEH
    ('\u{067B}', ['\u{FB52}', '\u{FB54}', '\u{FB55}', '\u{FB53}']),
    // ARABIC LETTER PEH
    ('\u{067E}', ['\u{FB56}', '\u{FB58}', '\u{FB59}', '\u{FB57}']),
    // ARABIC LETTER TEHEH
    ('\u{067F}', ['\u{FB62}', '\u{FB64}', '\u{FB65}', '\u{FB63}']),
    // ARABIC LETTER BEHEH
    ('\u{0680}', ['\u{FB5A}', '\u{FB5C}', '\u{FB5D}', '\u{FB5B}']),
    // ARABIC LETTER NYEH
    ('\u{0683}', ['\u{FB76}', '\u{FB78}', '\u{FB79}', '\u{FB77}']),
    // ARABIC LETTER DYEH
    ('\u{0684}', ['\u{FB72}', '\u{FB74}', '\u{FB75}', '\u{FB73}']),
    // ARABIC LETTER TCHEH
    ('\u{0686}', ['\u{FB7A}', '\u{FB7C}', '\u{FB7D}', '\u{FB7B}']),
    // ARABIC LETTER TCHEHEH
    ('\u{0687}', ['\u{FB7E}', '\u{FB80}', '\u{FB81}', '\u{FB7F}']),
    // ARABIC LETTER DDAL
    ('\u{0688}', ['\u{FB88}', NO_FORM, NO_FORM, '\u{FB89}']),
    // ARABIC LETTER DAHAL
    ('\u{068C}', ['\u{FB84}', NO_FORM, NO_FORM, '\u{FB85}']),
    // ARABIC LETTER DDAHAL
    ('\u{068D}', ['\u{FB82}', NO_FORM, NO_FORM, '\u{FB83}']),
    // ARABIC LETTER DUL
    ('\u{068E}', ['\u{FB86}', NO_FORM, NO_FORM, '\u{FB87}']),
    // ARABIC LETTER RREH
    ('\u{0691}', ['\u{FB8C}', NO_FORM, NO_FORM, '\u{FB8D}']),
    // ARABIC LETTER JEH
    ('\u{0698}', ['\u{FB8A}', NO_FORM, NO_FORM, '\u{FB8B}']),
    // ARABIC LETTER VEH
    ('\u{06A4}', ['\u{FB6A}', '\u{FB6C}', '\u{FB6D}', '\u{FB6B}']),
    // ARABIC LETTER PEHEH
    ('\u{06A6}', ['\u{FB6E}', '\u{FB70}', '\u{FB71}', '\u{FB6F}']),
    // ARABIC LETTER KEHEH
    ('\u{06A9}', ['\u{FB8E}', '\u{FB90}', '\u{FB91}', '\u{FB8F}']),
    // ARABIC LETTER NG
    ('\u{06AD}', ['\u{FBD3}', '\u{FBD5}', '\u{FBD6}', '\u{FBD4}']),
    // ARABIC LETTER GAF
    ('\u{06AF}', ['\u{FB92}', '\u{FB94}', '\u{FB95}', '\u{FB93}']),
    // ARABIC LETTER NGOEH
    ('\u{06B1}', ['\u{FB9A}', '\u{FB9C}', '\u{FB9D}', '\u{FB9B}']),
    // ARABIC LETTER GUEH
    ('\u{06B3}', ['\u{FB96}', '\u{FB98}', '\u{FB99}', '\u{FB97}']),
    // ARABIC LETTER NOON GHUNNA
    ('\u{06BA}', ['\u{FB9E}', NO_FORM, NO_FORM, '\u{FB9F}']),
    // ARABIC LETTER RNOON
    ('\u{06BB}', ['\u{FBA0}', '\u{FBA2}', '\u{FBA3}', '\u{FBA1}']),
    // ARABIC LETTER HEH DOACHASHMEE
    ('\u{06BE}', ['\u{FBAA}', '\u{FBAC}', '\u{FBAD}', '\u{FBAB}']),
    // ARABIC LETTER HEH WITH YEH ABOVE
    ('\u{06C0}', ['\u{FBA4}', NO_FORM, NO_FORM, '\u{FBA5}']),
    // ARABIC LETTER HEH GOAL
    ('\u{06C1}', ['\u{FBA6}', '\u{FBA8}', '\u{FBA9}', '\u{FBA7}']),
    // ARABIC LETTER KIRGHIZ OE
    ('\u{06C5}', ['\u{FBE0}', NO_FORM, NO_FORM, '\u{FBE1}']),
    // ARABIC LETTER OE
    ('\u{06C6}', ['\u{FBD9}', NO_FORM, NO_FORM, '\u{FBDA}']),
    // ARABIC LETTER U
    ('\u{06C7}', ['\u{FBD7}', NO_FORM, NO_FORM, '\u{FBD8}']),
    // ARABIC LETTER YU
    ('\u{06C8}', ['\u{FBDB}', NO_FORM, NO_FORM, '\u{FBDC}']),
    // ARABIC LETTER KIRGHIZ YU
    ('\u{06C9}', ['\u{FBE2}', NO_FORM, NO_FORM, '\u{FBE3}']),
    // ARABIC LETTER VE
    ('\u{06CB}', ['\u{FBDE}', NO_FORM, NO_FORM, '\u{FBDF}']),
    // ARABIC LETTER FARSI YEH
    ('\u{06CC}', ['\u{FBFC}', '\u{FBFE}', '\u{FBFF}', '\u{FBFD}']),
    // ARABIC LETTER E
    ('\u{06D0}', ['\u{FBE4}', '\u{FBE6}', '\u{FBE7}', '\u{FBE5}']),
    // ARABIC LETTER YEH BARREE
    ('\u{06D2}', ['\u{FBAE}', NO_FORM, NO_FORM, '\u{FBAF}']),
    // ARABIC LETTER YEH BARREE WITH HAMZA ABOVE
    ('\u{06D3}', ['\u{FBB0}', NO_FORM, NO_FORM, '\u{FBB1}']),
    // ZERO WIDTH JOINER
    (ZWJ, [ZWJ, ZWJ, ZWJ, ZWJ]),
];

/// Whether the table has a row for `letter`.
pub open spec fn shaped(letter: char) -> bool {
    exists|index: int| 0 <= index < TABLE@.len() && (#[trigger] TABLE@[index]).0 == letter
}

/// The index of a row for `letter`, meaningful where `shaped(letter)`. By
/// [`lemma_letters_ascend`] there is only one such row.
pub open spec fn row_of(letter: char) -> int {
    choose|index: int| 0 <= index < TABLE@.len() && (#[trigger] TABLE@[index]).0 == letter
}

/// The table as a partial function: the form set of `letter`, or `None` where
/// the table has no row for it.
pub open spec fn shaping(letter: char) -> Option<FormSet> {
    if shaped(letter) {
        Some(row_forms(TABLE@[row_of(letter)].1))
    } else {
        None
    }
}

/// The rows stand in strictly ascending order of their letters, so no letter
/// has two rows.
pub proof fn lemma_letters_ascend()
    ensures
        forall|i: int, j: int|
            0 <= i < j < TABLE@.len() ==> (#[trigger] TABLE@[i]).0 < (#[trigger] TABLE@[j]).0,
{
}

/// The letter of each row is shaped, and its form set is the one that row
/// holds.
pub proof fn lemma_row_is_found(index: int)
    requires
        0 <= index < TABLE@.len(),
    ensures
        shaped(TABLE@[index].0),
        row_of(TABLE@[index].0) == index,
        shaping(TABLE@[index].0) == Some(row_forms(TABLE@[index].1)),
{
    lemma_letters_ascend();
}

/// Every shaped letter has an isolated form.
pub proof fn lemma_isolated_form_present(letter: char)
    requires
        shaped(letter),
    ensures
        shaping(letter).unwrap()[ISOLATED as int] is Some,
{
}

/// A shaped letter has one of three sets of forms: all four, only isolated
/// and final, or only isolated. So a medial form never comes without an
/// initial and a final one, nor an initial form without a medial one.
pub proof fn lemma_forms_come_in_three_shapes(letter: char)
    requires
        shaped(letter),
    ensures
        ({
            let forms = shaping(letter).unwrap();
            &&& forms[MEDIAL as int] is Some <==> forms[INITIAL as int] is Some
            &&& forms[MEDIAL as int] is Some ==> forms[FINAL as int] is Some
        }),
{
}

/// [`TATWEEL`] and [`ZWJ`] are shaped, and each is its own glyph in all four
/// positions.
pub proof fn lemma_connectors_shape_to_themselves()
    ensures
        shaping(TATWEEL) == Some([Some(TATWEEL), Some(TATWEEL), Some(TATWEEL), Some(TATWEEL)]),
        shaping(ZWJ) == Some([Some(ZWJ), Some(ZWJ), Some(ZWJ), Some(ZWJ)]),
{
}

/// The shaped letters are [`ZWJ`] and letters of the Arabic block from
/// U+0621 to U+06D3.
pub proof fn lemma_shaped_letters_are_arabic(letter: char)
    requires
        shaped(letter),
    ensures
        letter == ZWJ || '\u{0621}' <= letter <= '\u{06D3}',
{
}

/// Whether `glyph` lies in one of the two Unicode blocks of Arabic
/// presentation forms: A, from U+FB50 to U+FDFF, or B, from U+FE70 to U+FEFF.
pub open spec fn is_presentation_form(glyph: char) -> bool {
    '\u{FB50}' <= glyph <= '\u{FDFF}' || '\u{FE70}' <= glyph <= '\u{FEFF}'
}

/// The glyphs of every letter but [`TATWEEL`] and [`ZWJ`] are Arabic
/// presentation forms.
pub proof fn lemma_glyphs_are_presentation_forms(letter: char, position: int)
    requires
        shaped(letter),
        letter != TATWEEL,
        letter != ZWJ,
        0 <= position < 4,
        shaping(letter).unwrap()[position] is Some,
    ensures
        is_presentation_form(shaping(letter).unwrap()[position].unwrap()),
{
}

/// Looks `letter` up in the table: its form set, or `None` where the table
/// defines no shaping for it. An absent letter is no error: most characters
/// of a text are not Arabic letters, and the caller passes them through.
///
/// The rows are sorted, so the search halves the range that may hold the
/// letter until it is found or the range is empty.
pub fn lookup(letter: char) -> (forms: Option<FormSet>)
    ensures
        forms == shaping(letter),
{
    let mut low: usize = 0;
    let mut high: usize = TABLE_LEN;
    while low < high
        invariant
            low <= high <= TABLE@.len(),
            forall|index: int| 0 <= index < low ==> (#[trigger] TABLE@[index]).0 < letter,
            forall|index: int|
                high <= index < TABLE@.len() ==> letter < (#[trigger] TABLE@[index]).0,
        decreases high - low,
    {
        let middle = low + (high - low) / 2;
        let (key, row) = TABLE[middle];
        if key == letter {
            proof {
                lemma_row_is_found(middle as int);
            }
            return Some(read_row(row));
        }
        proof {
            lemma_letters_ascend();
        }
        if key < letter {
            low = middle + 1;
        } else {
            high = middle;
        }
    }
    None
}

/// Membership: whether the table defines shaping for `letter` at all.
pub fn contains(letter: char) -> (present: bool)
    ensures
        present == shaped(letter),
{
    lookup(letter).is_some()
}

/// The whole table as a list: each shaped letter with its form set, once, in
/// ascending order of the letters.
pub fn entries() -> (all: Vec<(char, FormSet)>)
    ensures
        all@.len() == TABLE@.len(),
        forall|index: int|
            0 <= index < all@.len() ==> #[trigger] all@[index] == (
                TABLE@[index].0,
                row_forms(TABLE@[index].1),
            ),
        forall|index: int|
            0 <= index < all@.len() ==> shaping((#[trigger] all@[index]).0) == Some(
                all@[index].1,
            ),
        forall|i: int, j: int|
            0 <= i < j < all@.len() ==> (#[trigger] all@[i]).0 < (#[trigger] all@[j]).0,
        forall|letter: char|
            shaped(letter) ==> 0 <= row_of(letter) < all@.len() && all@[row_of(letter)].0
                == letter,
{
    let mut all: Vec<(char, FormSet)> = Vec::new();
    let mut next: usize = 0;
    while next < TABLE_LEN
        invariant
            next <= TABLE@.len(),
            all@.len() == next,
            forall|index: int|
                0 <= index < next ==> #[trigger] all@[index] == (
                    TABLE@[index].0,
                    row_forms(TABLE@[index].1),
                ),
        decreases TABLE@.len() - next,
    {
        let (letter, row) = TABLE[next];
        all.push((letter, read_row(row)));
        next = next + 1;
    }
    proof {
        lemma_letters_ascend();
        assert forall|index: int| 0 <= index < all@.len() implies shaping(
            (#[trigger] all@[index]).0,
        ) == Some(all@[index].1) by {
            lemma_row_is_found(index);
        }
    }
    all
}

} // verus!
