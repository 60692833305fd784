//! The lines printed for a new mnemonic, the peers and the supply.

use vstd::prelude::*;
use crate::decimal::{
    decimal_int, decimal_int_is_faithful, decimal_is_faithful, decimal_nat, format_i64, format_u64,
    lemma_shows_number, shows_number,
};
use crate::mnemonic::{generate_mnemonic, is_english_mnemonic, is_word_phrase};
use crate::text::{count_lines, line_count};

verus! {

/// The line shown for a mnemonic phrase, followed by an empty line.
pub open spec fn mnemonic_text(phrase: Seq<char>) -> Seq<char> {
    "Phrase: "@ + phrase + "\n"@
}

/// The line reporting how many peers are listed in `listing`, one per line,
/// followed by an empty line.
pub open spec fn peer_count_text(listing: Seq<char>) -> Seq<char> {
    "Current peer count: "@ + decimal_nat(line_count(listing)) + "\n"@
}

/// The line reporting the size of the node's data on disk.
pub open spec fn disk_size_text(size: int) -> Seq<char> {
    "Size of Zebra node on disk  | "@ + decimal_int(size) + " bytes"@
}

/// The disk-size line shows the size itself: after its label comes a decimal
/// numeral that denotes the size, then " bytes".
pub proof fn disk_size_line_shows_size(size: int)
    ensures
        shows_number(
            disk_size_text(size),
            "Size of Zebra node on disk  | "@,
            " bytes"@,
            size,
        ),
{
    decimal_int_is_faithful(size);
    lemma_shows_number("Size of Zebra node on disk  | "@, decimal_int(size), " bytes"@, size);
}

/// The peer-count line shows the number of lines of the listing: after its
/// label comes a decimal numeral that denotes that number, then a line feed.
pub proof fn peer_count_line_shows_count(listing: Seq<char>)
    ensures
        shows_number(
            peer_count_text(listing),
            "Current peer count: "@,
            "\n"@,
            line_count(listing) as int,
        ),
{
    let n = line_count(listing);
    decimal_is_faithful(n);
    assert(decimal_int(n as int) == decimal_nat(n));
    decimal_int_is_faithful(n as int);
    lemma_shows_number("Current peer count: "@, decimal_nat(n), "\n"@, n as int);
}

/// The line shown for `phrase`.
pub fn mnemonic_line(phrase: &str) -> (line: String)
    ensures
        line@ == mnemonic_text(phrase@),
{
    let mut line = String::from_str("Phrase: ");
    line.append(phrase);
    line.append("\n");
    line
}

/// The line shown for a freshly generated 24-word English BIP-0039 mnemonic
/// phrase, valid checksum included.
pub fn display_mnemonic() -> (line: String)
    ensures
        exists|p: Seq<char>|
            is_word_phrase(p, 24) && is_english_mnemonic(p) && line@ == #[trigger] mnemonic_text(p),
{
    let (phrase, _entropy) = generate_mnemonic();
    let line = mnemonic_line(phrase.as_str());
    assert(is_word_phrase(phrase@, 24) && is_english_mnemonic(phrase@) && line@ == mnemonic_text(
        phrase@,
    ));
    line
}

/// The line reporting how many peers `listing` holds, one per line.
pub fn peer_count_line(listing: &str) -> (line: String)
    ensures
        line@ == peer_count_text(listing@),
{
    let count: usize = count_lines(listing);
    let mut line = String::from_str("Current peer count: ");
    let digits = format_u64(count as u64);
    line.append(digits.as_str());
    line.append("\n");
    line
}

/// The line reporting the size of the node's data on disk.
pub fn disk_size_line(size: i64) -> (line: String)
    ensures
        line@ == disk_size_text(size as int),
{
    let mut line = String::from_str("Size of Zebra node on disk  | ");
    let digits = format_i64(size);
    line.append(digits.as_str());
    line.append(" bytes");
    line
}

} // verus!
