//! Parsing of USB identifiers, as `vendor:product` in hexadecimal.

use vstd::prelude::*;

verus! {

/// What `str::to_lowercase` returns for a text.
pub uninterp spec fn lowercase(text: Seq<char>) -> Seq<char>;

/// Calls `str::to_lowercase`, which maps every character to its Unicode
/// lower-case form. The result is a function of the text alone, and is
/// given the name [`lowercase`].
#[verifier::external_body]
fn to_lowercase(text: &str) -> (lowered: String)
    ensures
        lowered@ == lowercase(text@),
{
    text.to_lowercase()
}

/// The marker that may precede an identifier, and is ignored wherever it
/// occurs.
pub open spec fn marker() -> Seq<char> {
    seq!['u', 's', 'b', ':']
}

/// Whether the marker stands in `text` at `at`.
pub open spec fn marker_at(text: Seq<char>, at: int) -> bool {
    0 <= at && at + 4 <= text.len() && text.subrange(at, at + 4) == marker()
}

/// `text` from `from` on, without the markers in it. The text is read once
/// from the left: what remains is not read again.
pub open spec fn without_markers(text: Seq<char>, from: int) -> Seq<char>
    decreases text.len() - from,
{
    if from < 0 || from >= text.len() {
        Seq::empty()
    } else if marker_at(text, from) {
        without_markers(text, from + 4)
    } else {
        seq![text[from]] + without_markers(text, from + 1)
    }
}

/// The index of the first colon in `text` at or after `from`.
pub open spec fn first_colon(text: Seq<char>, from: int) -> Option<int>
    decreases text.len() - from,
{
    if from < 0 || from >= text.len() {
        None
    } else if text[from] == ':' {
        Some(from)
    } else {
        first_colon(text, from + 1)
    }
}

/// The value of a hexadecimal digit of either case.
pub open spec fn hex_digit(c: char) -> Option<int> {
    if '0' <= c <= '9' {
        Some(c as int - '0' as int)
    } else if 'a' <= c <= 'f' {
        Some(c as int - 'a' as int + 10)
    } else if 'A' <= c <= 'F' {
        Some(c as int - 'A' as int + 10)
    } else {
        None
    }
}

/// Whether every character is a hexadecimal digit.
pub open spec fn all_hex(digits: Seq<char>) -> bool {
    forall|i: int| 0 <= i < digits.len() ==> hex_digit(#[trigger] digits[i]) is Some
}

/// The number that hexadecimal digits denote, most significant first.
pub open spec fn hex_value(digits: Seq<char>) -> int
    decreases digits.len(),
{
    if digits.len() == 0 {
        0
    } else {
        16 * hex_value(digits.drop_last()) + match hex_digit(digits.last()) {
            Some(d) => d,
            None => 0,
        }
    }
}

/// The digits of a number text: the text without one leading plus sign.
pub open spec fn unsigned_part(text: Seq<char>) -> Seq<char> {
    if text.len() > 0 && text[0] == '+' {
        text.skip(1)
    } else {
        text
    }
}

/// The 16-bit number that a text denotes in hexadecimal: an optional plus
/// sign, then one or more digits whose value fits.
pub open spec fn hex16(text: Seq<char>) -> Option<u16> {
    let digits = unsigned_part(text);
    if digits.len() > 0 && all_hex(digits) && hex_value(digits) <= 0xFFFF {
        Some(hex_value(digits) as u16)
    } else {
        None
    }
}

/// The identifier that a lower-case text denotes: after the markers are
/// taken out, the number before the first colon is the vendor and the
/// number after it the product.
pub open spec fn usb_id_of(text: Seq<char>) -> Option<(u16, u16)> {
    let cleaned = without_markers(text, 0);
    match first_colon(cleaned, 0) {
        None => None,
        Some(at) => match (
            hex16(cleaned.subrange(0, at)),
            hex16(cleaned.subrange(at + 1, cleaned.len() as int)),
        ) {
            (Some(vendor), Some(product)) => Some((vendor, product)),
            _ => None,
        },
    }
}

/// The characters of a text.
fn chars_of(text: &str) -> (chars: Vec<char>)
    ensures
        chars@ == text@,
{
    let n = text.unicode_len();
    let mut chars: Vec<char> = Vec::new();
    let mut i: usize = 0;
    while i < n
        invariant
            i <= n,
            n == text@.len(),
            chars@ == text@.take(i as int),
        decreases n - i,
    {
        chars.push(text.get_char(i));
        assert(chars@ =~= text@.take(i + 1));
        i += 1;
    }
    assert(text@.take(n as int) =~= text@);
    chars
}

fn is_marker_at(text: &Vec<char>, at: usize) -> (found: bool)
    requires
        at < text@.len(),
    ensures
        found == marker_at(text@, at as int),
{
    if text.len() - at < 4 {
        return false;
    }
    let found = text[at] == 'u' && text[at + 1] == 's' && text[at + 2] == 'b' && text[at + 3]
        == ':';
    proof {
        let part = text@.subrange(at as int, at + 4);
        assert(part[0] == text@[at as int]);
        assert(part[1] == text@[at + 1]);
        assert(part[2] == text@[at + 2]);
        assert(part[3] == text@[at + 3]);
        if found {
            assert(part =~= marker());
        }
    }
    found
}

fn strip_markers(text: &Vec<char>) -> (cleaned: Vec<char>)
    ensures
        cleaned@ == without_markers(text@, 0),
{
    let mut cleaned: Vec<char> = Vec::new();
    let mut i: usize = 0;
    while i < text.len()
        invariant
            cleaned@ + without_markers(text@, i as int) == without_markers(text@, 0),
        decreases text.len() - i,
    {
        if is_marker_at(text, i) {
            i += 4;
        } else {
            let ghost before = cleaned@;
            cleaned.push(text[i]);
            assert(cleaned@ + without_markers(text@, i + 1) =~= before + (seq![text@[i as int]]
                + without_markers(text@, i + 1)));
            i += 1;
        }
    }
    assert(cleaned@ + Seq::<char>::empty() =~= cleaned@);
    cleaned
}

fn find_colon(text: &Vec<char>) -> (found: Option<usize>)
    ensures
        found matches Some(at) ==> first_colon(text@, 0) == Some(at as int) && at < text@.len(),
        found is None ==> first_colon(text@, 0) is None,
{
    let mut i: usize = 0;
    while i < text.len()
        invariant
            first_colon(text@, 0) == first_colon(text@, i as int),
        decreases text.len() - i,
    {
        if text[i] == ':' {
            return Some(i);
        }
        i += 1;
    }
    None
}

fn digit_value(c: char) -> (value: Option<u32>)
    ensures
        value matches Some(d) ==> hex_digit(c) == Some(d as int) && d < 16,
        value is None ==> hex_digit(c) is None,
{
    if '0' <= c && c <= '9' {
        Some(c as u32 - '0' as u32)
    } else if 'a' <= c && c <= 'f' {
        Some(c as u32 - 'a' as u32 + 10)
    } else if 'A' <= c && c <= 'F' {
        Some(c as u32 - 'A' as u32 + 10)
    } else {
        None
    }
}

/// The value grows with every digit, so a prefix whose value does not fit
/// rules the whole out.
proof fn lemma_hex_value_grows(digits: Seq<char>, n: int)
    requires
        0 <= n <= digits.len(),
    ensures
        0 <= hex_value(digits.take(n)) <= hex_value(digits),
    decreases digits.len() - n,
{
    lemma_hex_value_nonnegative(digits.take(n));
    if n < digits.len() {
        lemma_hex_value_grows(digits, n + 1);
        assert(digits.take(n + 1).drop_last() =~= digits.take(n));
    } else {
        assert(digits.take(n) =~= digits);
    }
}

proof fn lemma_hex_value_nonnegative(digits: Seq<char>)
    ensures
        0 <= hex_value(digits),
    decreases digits.len(),
{
    if digits.len() > 0 {
        lemma_hex_value_nonnegative(digits.drop_last());
    }
}

/// Parses the characters of `text` from `from` to `to` as a 16-bit number
/// in hexadecimal.
fn parse_hex16(text: &Vec<char>, from: usize, to: usize) -> (parsed: Option<u16>)
    requires
        from <= to <= text@.len(),
    ensures
        parsed == hex16(text@.subrange(from as int, to as int)),
{
    let ghost whole = text@.subrange(from as int, to as int);
    let mut i: usize = from;
    if from < to && text[from] == '+' {
        i = from + 1;
    }
    let ghost digits = unsigned_part(whole);
    assert(digits =~= text@.subrange(i as int, to as int));
    if i == to {
        return None;
    }
    let start = i;
    let mut value: u32 = 0;
    while i < to
        invariant
            start <= i <= to <= text@.len(),
            from <= to,
            digits == text@.subrange(start as int, to as int),
            digits == unsigned_part(text@.subrange(from as int, to as int)),
            all_hex(digits.take(i - start)),
            value == hex_value(digits.take(i - start)),
            value <= 0xFFFF,
        decreases to - i,
    {
        assert(digits[i - start] == text@[i as int]);
        assert(digits.take(i - start + 1).drop_last() =~= digits.take(i - start));
        assert(digits.take(i - start + 1).last() == digits[i - start]);
        match digit_value(text[i]) {
            None => {
                assert(hex_digit(digits[i - start]) is None);
                return None;
            },
            Some(d) => {
                value = value * 16 + d;
                if value > 0xFFFF {
                    proof {
                        lemma_hex_value_grows(digits, i - start + 1);
                    }
                    return None;
                }
            },
        }
        assert forall|k: int| 0 <= k < i - start + 1 implies hex_digit(
            #[trigger] digits.take(i - start + 1)[k],
        ) is Some by {
            if k < i - start {
                assert(digits.take(i - start + 1)[k] == digits.take(i - start)[k]);
            }
        }
        i += 1;
    }
    assert(digits.take(to - start) =~= digits);
    Some(value as u16)
}

/// Parses a lower-case text as a USB identifier.
pub fn parse_lowered_usb_id(text: &str) -> (id: Option<(u16, u16)>)
    ensures
        id == usb_id_of(text@),
{
    let chars = chars_of(text);
    let cleaned = strip_markers(&chars);
    let at = match find_colon(&cleaned) {
        Some(at) => at,
        None => {
            return None;
        },
    };
    let end = cleaned.len();
    assert(at < end);
    let vendor = parse_hex16(&cleaned, 0, at);
    let product = parse_hex16(&cleaned, at + 1, end);
    match (vendor, product) {
        (Some(vendor), Some(product)) => Some((vendor, product)),
        _ => None,
    }
}

/// Parses a USB identifier such as `1234:5678` or `USB:1234:5678` into
/// vendor and product. The text is first brought to lower case, so neither
/// the case of the marker nor that of the digits matters.
pub fn parse_usb_id(raw: &str) -> (id: Option<(u16, u16)>)
    ensures
        id == usb_id_of(lowercase(raw@)),
{
    let lowered = to_lowercase(raw);
    parse_lowered_usb_id(lowered.as_str())
}

} // verus!
