//! The texts that a dialog shows: numbers in decimal, the page and selection
//! lines, and names cut to fit a cell.

use crate::paths::{file_name, spec_file_name};
use vstd::prelude::*;

verus! {

/// The most characters of a name that a cell of the grid shows.
pub const CHAR_LIMIT: usize = 24;

/// The ten digits, in order.
pub open spec fn digits() -> Seq<char> {
    seq!['0', '1', '2', '3', '4', '5', '6', '7', '8', '9']
}

/// `n` written in decimal, without leading zeros.
pub open spec fn decimal(n: nat) -> Seq<char>
    decreases n,
{
    if n < 10 {
        seq![digits()[n as int]]
    } else {
        decimal(n / 10).push(digits()[(n % 10) as int])
    }
}

/// The line that tells the page shown and the number of pages.
pub open spec fn spec_page_label(page: nat, total: nat) -> Seq<char> {
    "Page: "@ + decimal(page) + " Total: "@ + decimal(total)
}

/// The line that names the highlighted entry.
pub open spec fn spec_selected_label(path: Seq<char>) -> Seq<char> {
    "Selected: "@ + spec_file_name(path)
}

/// The first `limit` characters of `name`, or all of it if it has no more.
pub open spec fn spec_clip(name: Seq<char>, limit: nat) -> Seq<char> {
    if name.len() <= limit {
        name
    } else {
        name.take(limit as int)
    }
}

/// A number in decimal has a digit for each power of ten up to it: one
/// digit below ten, one more for each factor of ten, and only digits.
pub proof fn lemma_decimal_is_digits(n: nat)
    ensures
        decimal(n).len() >= 1,
        n < 10 ==> decimal(n).len() == 1,
        n >= 10 ==> decimal(n).len() == decimal(n / 10).len() + 1,
        forall|i: int| 0 <= i < decimal(n).len() ==> digits().contains(#[trigger] decimal(n)[i]),
        n > 0 ==> decimal(n)[0] != '0',
    decreases n,
{
    if n >= 10 {
        lemma_decimal_is_digits(n / 10);
    }
}

/// The digit `d` as text.
fn digit_text(d: usize) -> (text: &'static str)
    requires
        d < 10,
    ensures
        text@ == seq![digits()[d as int]],
{
    let all = "0123456789";
    proof {
        reveal_strlit("0123456789");
    }
    all.substring_char(d, d + 1)
}

/// Writes `n` in decimal.
pub fn decimal_text(n: usize) -> (text: String)
    ensures
        text@ == decimal(n as nat),
    decreases n,
{
    let last = digit_text(n % 10);
    if n < 10 {
        String::from_str(last)
    } else {
        decimal_text(n / 10).concat(last)
    }
}

/// The line that tells the page shown and the number of pages.
pub fn page_label(page: usize, total: usize) -> (label: String)
    ensures
        label@ == spec_page_label(page as nat, total as nat),
{
    let label = String::from_str("Page: ");
    let label = label.concat(decimal_text(page).as_str());
    let label = label.concat(" Total: ");
    label.concat(decimal_text(total).as_str())
}

/// The line that names the highlighted entry, by the final component of its
/// path.
pub fn selected_label(path: &str) -> (label: String)
    ensures
        label@ == spec_selected_label(path@),
{
    String::from_str("Selected: ").concat(file_name(path).as_str())
}

/// The first `limit` characters of `name`, or all of it if it has no more.
pub fn clip(name: &str, limit: usize) -> (clipped: String)
    ensures
        clipped@ == spec_clip(name@, limit as nat),
        clipped@.len() <= limit,
{
    let len = name.unicode_len();
    if len <= limit {
        String::from_str(name)
    } else {
        String::from_str(name.substring_char(0, limit))
    }
}

} // verus!
