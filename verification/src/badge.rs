//! The label of the badge as a function of the pending count.

use vstd::prelude::*;
use crate::decimal::{decimal, lemma_decimal_canonical, lemma_decimal_injective, is_digit, decimal_value, to_decimal};

verus! {

/// The label for `count`: none for zero, else the count in decimal.
pub open spec fn label_of(count: u32) -> Option<Seq<char>> {
    if count == 0 {
        None
    } else {
        Some(decimal(count as nat))
    }
}

/// What an optional string holds, as a sequence of characters.
pub open spec fn text_view(text: Option<String>) -> Option<Seq<char>> {
    match text {
        Some(s) => Some(s@),
        None => None,
    }
}

/// Derives the badge label from the count. Zero gives no label, so the badge
/// is cleared and never shows "0"; any other count is written in decimal.
pub fn badge_label(count: u32) -> (label: Option<String>)
    ensures
        text_view(label) == label_of(count),
        label is None <==> count == 0,
{
    if count > 0 {
        Some(to_decimal(count))
    } else {
        None
    }
}

/// The label of a positive count is its plain decimal notation: digits only,
/// no leading zero, and reading the digits back gives the count.
pub proof fn lemma_label_is_plain_decimal(count: u32)
    requires
        count > 0,
    ensures
        label_of(count) is Some,
        label_of(count)->Some_0.len() >= 1,
        forall|i: int|
            0 <= i < label_of(count)->Some_0.len() ==> is_digit(
                #[trigger] label_of(count)->Some_0[i],
            ),
        label_of(count)->Some_0[0] != '0',
        decimal_value(label_of(count)->Some_0) == count,
{
    lemma_decimal_canonical(count as nat);
}

/// Whether a label is present depends on the count alone, and two counts
/// share a label only if they are equal.
pub proof fn lemma_label_determines_count(a: u32, b: u32)
    requires
        label_of(a) == label_of(b),
    ensures
        a == b,
{
    if a != 0 && b != 0 {
        lemma_decimal_injective(a as nat, b as nat);
    }
}

} // verus!
