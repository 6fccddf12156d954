//! Percent-encoding of topics and titles before they are embedded in a URL.
//!
//! Titles may contain `/`, which would otherwise be read as a path
//! separator, so `/` is encoded along with the control characters and
//! everything outside ASCII.

use vstd::prelude::*;

verus! {

/// What the percent-encoding makes of `s`. The encoding is a function of
/// the characters alone; the clauses of `percent_encode_component` say the
/// rest.
pub uninterp spec fn percent_encoded(s: Seq<char>) -> Seq<char>;

/// Whether the encoding keeps `c` unchanged: printable ASCII other than
/// `/`.
pub open spec fn kept_by_encoding(c: char) -> bool {
    0x20 <= c as u32 && c as u32 <= 0x7e && c != '/'
}

/// The uppercase hexadecimal digit of value `d`.
pub open spec fn hex_upper(d: int) -> char {
    if d == 0 { '0' }
    else if d == 1 { '1' }
    else if d == 2 { '2' }
    else if d == 3 { '3' }
    else if d == 4 { '4' }
    else if d == 5 { '5' }
    else if d == 6 { '6' }
    else if d == 7 { '7' }
    else if d == 8 { '8' }
    else if d == 9 { '9' }
    else if d == 10 { 'A' }
    else if d == 11 { 'B' }
    else if d == 12 { 'C' }
    else if d == 13 { 'D' }
    else if d == 14 { 'E' }
    else { 'F' }
}

/// What the encoding makes of a single ASCII character.
pub open spec fn encoded_char(c: char) -> Seq<char> {
    if kept_by_encoding(c) {
        seq![c]
    } else {
        seq!['%', hex_upper(c as int / 16), hex_upper(c as int % 16)]
    }
}

/// The percent-encoding of an all-ASCII sequence, character by character.
pub open spec fn ascii_percent_encoding(s: Seq<char>) -> Seq<char>
    decreases s.len(),
{
    if s.len() == 0 {
        Seq::empty()
    } else {
        encoded_char(s[0]) + ascii_percent_encoding(s.drop_first())
    }
}

/// Relies on percent_encoding::utf8_percent_encode with the set of C0
/// controls, delete and `/`: every UTF-8 byte in that set or outside ASCII
/// becomes `%` and two uppercase hexadecimal digits, every other byte
/// stays itself.
#[verifier::external_body]
pub fn percent_encode_component(s: &str) -> (r: String)
    ensures
        r@ == percent_encoded(s@),
        vstd::string::is_ascii(s) ==> r@ == ascii_percent_encoding(s@),
{
    let set = Box::new(percent_encoding::CONTROLS.add(b'/'));
    percent_encoding::utf8_percent_encode(s, Box::leak(set)).to_string()
}

} // verus!
