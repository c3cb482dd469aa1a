//! How a letter joins its neighbours, told from the forms the table gives it.

use crate::forms::{FINAL, INITIAL, MEDIAL};
use crate::table::{
    contains, lemma_connectors_shape_to_themselves, lemma_forms_come_in_three_shapes, lookup,
    shaped, shaping, TATWEEL, ZWJ,
};
use vstd::prelude::*;

verus! {

/// A letter joins the letter before it when the table has it with a final
/// or a medial form.
pub open spec fn joins_before(letter: char) -> bool {
    shaping(letter) matches Some(forms) && (forms[FINAL as int] is Some || forms[MEDIAL as int]
        is Some)
}

/// A letter joins the letter after it when the table has it with an initial
/// or a medial form.
pub open spec fn joins_after(letter: char) -> bool {
    shaping(letter) matches Some(forms) && (forms[INITIAL as int] is Some || forms[MEDIAL as int]
        is Some)
}

/// A letter joins on both sides at once when the table has it with a medial
/// form.
pub open spec fn joins_both(letter: char) -> bool {
    shaping(letter) matches Some(forms) && forms[MEDIAL as int] is Some
}

/// Whether `letter` can take a shape that connects it to the letter before
/// it. False for a letter the table does not hold.
pub fn connects_with_letter_before(letter: char) -> (connects: bool)
    ensures
        connects == joins_before(letter),
{
    match lookup(letter) {
        Some(forms) => forms[FINAL as usize].is_some() || forms[MEDIAL as usize].is_some(),
        None => false,
    }
}

/// Whether `letter` can take a shape that connects it to the letter after
/// it. False for a letter the table does not hold.
pub fn connects_with_letter_after(letter: char) -> (connects: bool)
    ensures
        connects == joins_after(letter),
{
    match lookup(letter) {
        Some(forms) => forms[INITIAL as usize].is_some() || forms[MEDIAL as usize].is_some(),
        None => false,
    }
}

/// Whether `letter` can connect to the letter before it and to the letter
/// after it at once. False for a letter the table does not hold.
pub fn connects_with_letters_before_and_after(letter: char) -> (connects: bool)
    ensures
        connects == joins_both(letter),
{
    match lookup(letter) {
        Some(forms) => forms[MEDIAL as usize].is_some(),
        None => false,
    }
}

/// A letter that the table does not hold has no forms and joins nothing.
pub proof fn lemma_unshaped_letter_joins_nothing(letter: char)
    requires
        !shaped(letter),
    ensures
        shaping(letter) is None,
        !joins_before(letter),
        !joins_after(letter),
        !joins_both(letter),
{
}

/// A letter that joins on both sides at once joins the letter before it and
/// joins the letter after it.
pub proof fn lemma_joining_both_joins_each(letter: char)
    ensures
        joins_both(letter) ==> joins_before(letter) && joins_after(letter),
{
}

/// Only three kinds of letter occur among the shaped ones: those that join on
/// both sides, those that join only the letter before them, and those that
/// join nothing. None joins only the letter after it, and a letter joins the
/// letter before it exactly when it has a final form.
pub proof fn lemma_joining_classes(letter: char)
    ensures
        joins_after(letter) <==> joins_both(letter),
        joins_before(letter) <==> shaped(letter) && shaping(letter).unwrap()[FINAL as int]
            is Some,
{
    if shaped(letter) {
        lemma_forms_come_in_three_shapes(letter);
    }
}

/// [`TATWEEL`] and [`ZWJ`] join on both sides.
pub proof fn lemma_connectors_join_both()
    ensures
        joins_both(TATWEEL),
        joins_both(ZWJ),
{
    lemma_connectors_shape_to_themselves();
}

/// Whether the contract of `ask` leaves room for only one answer about
/// `letter`: any two results that a call may return are equal.
pub open spec fn has_one_answer<Answer, Ask: Fn(char) -> Answer>(ask: Ask, letter: char) -> bool {
    forall|first: Answer, second: Answer|
        #[trigger] call_ensures(ask, (letter,), first) && #[trigger] call_ensures(
            ask,
            (letter,),
            second,
        ) ==> first == second
}

/// Asking again gives the same answer: whatever two calls return for one
/// letter, of the lookup, of the membership test or of one of the three
/// questions, the two results are equal.
pub proof fn lemma_answers_repeat(letter: char)
    ensures
        has_one_answer(lookup, letter),
        has_one_answer(contains, letter),
        has_one_answer(connects_with_letter_before, letter),
        has_one_answer(connects_with_letter_after, letter),
        has_one_answer(connects_with_letters_before_and_after, letter),
{
}

} // verus!
