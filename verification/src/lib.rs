//! Arabic letters and the glyphs they take in context.
//!
//! An Arabic letter changes shape with its place in a connected run of
//! letters: alone, at the start, in the middle or at the end. This crate holds
//! the table that gives each letter its glyph for each of the four positions,
//! and tells from that table whether a letter can connect to the letter
//! before it, to the letter after it, or to both.
//!
//! It does not walk text: which form a letter takes at a given place in a
//! string is for the caller to decide.
//!
//! ```
//! use arabic_letters::{connects_with_letter_after, lookup, FINAL, MEDIAL};
//!
//! // ALEF connects to the letter before it and never to the one after it.
//! let alef = lookup('\u{0627}').unwrap();
//! assert_eq!(alef[FINAL as usize], Some('\u{FE8E}'));
//! assert_eq!(alef[MEDIAL as usize], None);
//! assert!(!connects_with_letter_after('\u{0627}'));
//!
//! // A character that is no Arabic letter has no forms.
//! assert_eq!(lookup('A'), None);
//! ```
//!
//! Every function states its result over the table itself, read as a partial
//! function from letters to form sets ([`table::shaping`]), and the laws that
//! the table obeys are proved beside it.

pub mod forms;
pub mod joining;
pub mod table;

pub use forms::{FormSet, FINAL, INITIAL, ISOLATED, MEDIAL, NO_FORM, UNSHAPED};
pub use joining::{
    connects_with_letter_after, connects_with_letter_before,
    connects_with_letters_before_and_after,
};
pub use table::{contains, entries, lookup, TABLE, TABLE_LEN, TATWEEL, ZWJ};
