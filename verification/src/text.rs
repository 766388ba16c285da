//! Strings, taken as the sequences of characters they hold.

use vstd::prelude::*;
use vstd::utf8::*;

verus! {

/// `str::eq` compares two strings: it answers whether they hold the same characters.
pub assume_specification[ <str as PartialEq>::eq ](a: &str, b: &str) -> (r: bool)
    ensures
        r == (a@ == b@),
;

/// The error of `core::str::from_utf8`, which nothing here looks into.
#[verifier::external_type_specification]
#[verifier::external_body]
pub struct ExUtf8Error(core::str::Utf8Error);

/// `core::str::from_utf8` accepts exactly the bytes that are valid UTF-8, and hands
/// back the string that those bytes encode.
pub assume_specification[ core::str::from_utf8 ](v: &[u8]) -> (r: Result<
    &str,
    core::str::Utf8Error,
>)
    ensures
        r is Ok <==> valid_utf8(v@),
        r matches Ok(s) ==> s@ == decode_utf8(v@),
;

/// The lower-case form of a text: what `str::to_lowercase` makes of it.
pub uninterp spec fn lowercase(text: Seq<char>) -> Seq<char>;

/// The lower-case form of one ASCII character.
pub open spec fn ascii_lower(c: char) -> char {
    if 'A' <= c <= 'Z' {
        (c as u32 + 32) as char
    } else {
        c
    }
}

/// The upper-case form of one ASCII character.
pub open spec fn ascii_upper(c: char) -> char {
    if 'a' <= c <= 'z' {
        (c as u32 - 32) as char
    } else {
        c
    }
}

/// A text with its ASCII letters in lower case.
pub open spec fn ascii_lowered(text: Seq<char>) -> Seq<char> {
    text.map_values(|c: char| ascii_lower(c))
}

/// A text with its ASCII letters in upper case.
pub open spec fn ascii_uppered(text: Seq<char>) -> Seq<char> {
    text.map_values(|c: char| ascii_upper(c))
}

/// The longest ending of a text that is made of ASCII characters.
pub open spec fn ascii_ending(text: Seq<char>) -> Seq<char>
    decreases text.len(),
{
    if text.len() > 0 && text.last() <= '\u{7f}' {
        ascii_ending(text.drop_last()).push(text.last())
    } else {
        Seq::empty()
    }
}

/// `str::to_lowercase` maps a text to its Unicode lower-case form, which depends on
/// the text alone. It maps each ASCII letter from `A` to `Z` to the letter from `a` to `z`, and
/// keeps every other ASCII character, each in its place: that is said of a text of ASCII
/// characters, and of the ASCII characters at the end of any text. Of what becomes of the
/// characters beyond ASCII nothing is said.
pub assume_specification[ str::to_lowercase ](s: &str) -> (r: String)
    ensures
        r@ == lowercase(s@),
        is_ascii_chars(s@) ==> r@ == ascii_lowered(s@),
        has_suffix(r@, ascii_lowered(ascii_ending(s@))),
;

/// Whether `text` ends in `suffix`.
pub open spec fn has_suffix(text: Seq<char>, suffix: Seq<char>) -> bool {
    suffix.len() <= text.len() && text.subrange(text.len() - suffix.len(), text.len() as int)
        == suffix
}

/// Whether `text` ends in `suffix`.
pub fn ends_with(text: &str, suffix: &str) -> (r: bool)
    ensures
        r == has_suffix(text@, suffix@),
{
    let n: usize = text.unicode_len();
    let m: usize = suffix.unicode_len();
    m <= n && *text.substring_char(n - m, n) == *suffix
}

/// What is put behind a text is a suffix of the whole.
pub proof fn suffix_of_whole(base: Seq<char>, suffix: Seq<char>)
    ensures
        has_suffix(base + suffix, suffix),
{
    let whole = base + suffix;
    assert(whole.subrange(whole.len() - suffix.len(), whole.len() as int) =~= suffix);
}

/// A text that is no longer than an ending of another is a suffix of both or of neither.
pub proof fn suffix_of_ending(whole: Seq<char>, ending: Seq<char>, suffix: Seq<char>)
    requires
        has_suffix(whole, ending),
        suffix.len() <= ending.len(),
    ensures
        has_suffix(whole, suffix) == has_suffix(ending, suffix),
{
    assert(whole.subrange(whole.len() - suffix.len(), whole.len() as int) =~= ending.subrange(
        ending.len() - suffix.len(),
        ending.len() as int,
    ));
}

/// A text of ASCII characters is its own ASCII ending.
pub proof fn ascii_ending_of_ascii(text: Seq<char>)
    requires
        is_ascii_chars(text),
    ensures
        ascii_ending(text) == text,
    decreases text.len(),
{
    if text.len() > 0 {
        assert(is_ascii_chars(text.drop_last()));
        ascii_ending_of_ascii(text.drop_last());
        assert(text.drop_last().push(text.last()) =~= text);
    } else {
        assert(ascii_ending(text) =~= text);
    }
}

/// What stands before a text does not cut off its ASCII ending.
pub proof fn ascii_ending_behind(base: Seq<char>, text: Seq<char>)
    ensures
        has_suffix(ascii_lowered(ascii_ending(base + text)), ascii_lowered(ascii_ending(text))),
    decreases text.len(),
{
    let whole = base + text;
    let (a, b) = (ascii_ending(whole), ascii_ending(text));
    if text.len() > 0 && text.last() <= '\u{7f}' {
        assert(whole.last() == text.last());
        assert(whole.drop_last() =~= base + text.drop_last());
        ascii_ending_behind(base, text.drop_last());
        let (x, y) = (ascii_ending(whole.drop_last()), ascii_ending(text.drop_last()));
        assert(a == x.push(text.last()) && b == y.push(text.last()));
        let end = ascii_lowered(x).subrange(x.len() - y.len(), x.len() as int);
        assert(end == ascii_lowered(y));
        assert(ascii_lowered(a).subrange(a.len() - b.len(), a.len() as int) =~= end.push(
            ascii_lower(text.last()),
        ));
        assert(ascii_lowered(b) =~= ascii_lowered(y).push(ascii_lower(text.last())));
    } else {
        assert(ascii_lowered(a).subrange(a.len() as int, a.len() as int) =~= ascii_lowered(b));
    }
}

/// Upper-case ASCII letters change nothing in the lower case of the ASCII ending.
pub proof fn ascii_ending_uppered(text: Seq<char>)
    ensures
        ascii_ending(ascii_uppered(text)) == ascii_uppered(ascii_ending(text)),
        ascii_lowered(ascii_ending(ascii_uppered(text))) == ascii_lowered(ascii_ending(text)),
    decreases text.len(),
{
    let upper = ascii_uppered(text);
    if text.len() > 0 {
        ascii_ending_uppered(text.drop_last());
        assert(upper.drop_last() =~= ascii_uppered(text.drop_last()));
        assert(upper.last() == ascii_upper(text.last()));
        if text.last() <= '\u{7f}' {
            let before = ascii_ending(text.drop_last());
            assert(ascii_uppered(before.push(text.last())) =~= ascii_uppered(before).push(
                ascii_upper(text.last()),
            ));
        } else {
            assert(ascii_ending(upper) =~= ascii_uppered(ascii_ending(text)));
        }
    } else {
        assert(ascii_ending(upper) =~= ascii_uppered(ascii_ending(text)));
    }
    assert(ascii_lowered(ascii_uppered(ascii_ending(text))) =~= ascii_lowered(ascii_ending(text)));
}

/// The first `limit` characters of a text, or all of them where there are fewer.
pub open spec fn clipped(text: Seq<char>, limit: nat) -> Seq<char> {
    if text.len() <= limit {
        text
    } else {
        text.take(limit as int)
    }
}

/// The first `limit` characters of `text`.
pub fn clip(text: &str, limit: usize) -> (r: String)
    ensures
        r@ == clipped(text@, limit as nat),
{
    let n: usize = text.unicode_len();
    if n <= limit {
        text.to_owned()
    } else {
        let r = text.substring_char(0, limit).to_owned();
        assert(text@.subrange(0, limit as int) == text@.take(limit as int));
        r
    }
}

/// The texts in order, with `separator` between each two.
pub open spec fn joined(parts: Seq<Seq<char>>, separator: Seq<char>) -> Seq<char>
    decreases parts.len(),
{
    if parts.len() == 0 {
        Seq::empty()
    } else if parts.len() == 1 {
        parts[0]
    } else {
        joined(parts.drop_last(), separator) + separator + parts.last()
    }
}

/// The texts that the strings of a list hold.
pub open spec fn texts(strings: Seq<String>) -> Seq<Seq<char>> {
    strings.map_values(|s: String| s@)
}

/// Joins `parts` with `separator` between each two.
pub fn join(parts: &Vec<String>, separator: &str) -> (r: String)
    ensures
        r@ == joined(texts(parts@), separator@),
{
    let mut r = String::new();
    let mut i: usize = 0;
    while i < parts.len()
        invariant
            i <= parts.len(),
            r@ == joined(texts(parts@).take(i as int), separator@),
        decreases parts.len() - i,
    {
        assert(texts(parts@).take(i + 1).drop_last() == texts(parts@).take(i as int));
        if i > 0 {
            r.append(separator);
        }
        r.append(parts[i].as_str());
        i += 1;
    }
    assert(texts(parts@).take(parts@.len() as int) == texts(parts@));
    r
}

/// The character for a decimal digit.
pub open spec fn digit(d: nat) -> char {
    (48 + d) as char
}

/// A number written in decimal, without leading zeros.
pub open spec fn decimal(n: nat) -> Seq<char>
    decreases n,
{
    if n < 10 {
        seq![digit(n)]
    } else {
        decimal(n / 10).push(digit(n % 10))
    }
}

/// The text of one decimal digit.
fn digit_text(d: usize) -> (r: &'static str)
    requires
        d < 10,
    ensures
        r@ == seq![digit(d as nat)],
{
    proof {
        reveal_strlit("0");
        reveal_strlit("1");
        reveal_strlit("2");
        reveal_strlit("3");
        reveal_strlit("4");
        reveal_strlit("5");
        reveal_strlit("6");
        reveal_strlit("7");
        reveal_strlit("8");
        reveal_strlit("9");
    }
    match d {
        0 => "0",
        1 => "1",
        2 => "2",
        3 => "3",
        4 => "4",
        5 => "5",
        6 => "6",
        7 => "7",
        8 => "8",
        _ => "9",
    }
}

/// Writes `n` in decimal.
pub fn decimal_text(n: usize) -> (r: String)
    ensures
        r@ == decimal(n as nat),
    decreases n,
{
    if n < 10 {
        digit_text(n).to_owned()
    } else {
        let mut r = decimal_text(n / 10);
        r.append(digit_text(n % 10));
        assert(r@ == decimal((n / 10) as nat).push(digit((n % 10) as nat)));
        r
    }
}

/// Two numbers that are written alike in decimal are the same number.
pub proof fn decimal_is_injective(a: nat, b: nat)
    requires
        decimal(a) == decimal(b),
    ensures
        a == b,
    decreases a,
{
    decimal_digits(a);
    decimal_digits(b);
    if a >= 10 && b >= 10 {
        assert(decimal(a).drop_last() == decimal(a / 10));
        assert(decimal(b).drop_last() == decimal(b / 10));
        decimal_is_injective(a / 10, b / 10);
        assert(decimal(a).last() == digit(a % 10));
        assert(decimal(b).last() == digit(b % 10));
    } else if a >= 10 {
        decimal_digits(a / 10);
        assert(decimal(b).len() == 1);
    } else if b >= 10 {
        decimal_digits(b / 10);
        assert(decimal(a).len() == 1);
    } else {
        assert(decimal(a)[0] == digit(a));
        assert(decimal(b)[0] == digit(b));
    }
}

/// A number written in decimal is made of digits alone, and of one at least.
pub proof fn decimal_digits(n: nat)
    ensures
        decimal(n).len() >= 1,
        forall|i: int| 0 <= i < decimal(n).len() ==> '0' <= #[trigger] decimal(n)[i] <= '9',
    decreases n,
{
    if n >= 10 {
        decimal_digits(n / 10);
    }
}

/// A text ends in another exactly where it is some text with the other put behind it.
pub proof fn suffixes_are_endings(text: Seq<char>, suffix: Seq<char>)
    ensures
        has_suffix(text, suffix) <==> exists|base: Seq<char>| text == #[trigger] (base + suffix),
{
    if has_suffix(text, suffix) {
        let base = text.take(text.len() - suffix.len());
        assert(text =~= base + suffix);
    }
    if exists|base: Seq<char>| text == #[trigger] (base + suffix) {
        let base = choose|base: Seq<char>| text == #[trigger] (base + suffix);
        suffix_of_whole(base, suffix);
    }
}

/// What is kept of a text is its beginning: all of it up to the limit, and from there on as much
/// as the limit.
pub proof fn clipping_keeps_the_beginning(text: Seq<char>, limit: nat)
    ensures
        clipped(text, limit).is_prefix_of(text),
        text.len() <= limit ==> clipped(text, limit) == text,
        text.len() > limit ==> clipped(text, limit).len() == limit,
{
}

/// Joining nothing gives nothing, joining one text gives that text, and joining two lists one
/// behind the other gives what both give, with the separator between them.
pub proof fn joining_is_piecewise(a: Seq<Seq<char>>, b: Seq<Seq<char>>, separator: Seq<char>)
    ensures
        a.len() == 0 ==> joined(a, separator) == Seq::<char>::empty(),
        a.len() == 1 ==> joined(a, separator) == a[0],
        a.len() > 0 && b.len() > 0 ==> joined(a + b, separator) == joined(a, separator) + separator
            + joined(b, separator),
    decreases b.len(),
{
    if a.len() > 0 && b.len() > 0 {
        assert((a + b).drop_last() =~= a + b.drop_last());
        assert((a + b).last() == b.last());
        if b.len() == 1 {
            assert(a + b.drop_last() =~= a);
        } else {
            joining_is_piecewise(a, b.drop_last(), separator);
            assert(joined(a, separator) + separator + joined(b, separator) =~= joined(a, separator)
                + separator + joined(b.drop_last(), separator) + separator + b.last());
        }
    }
}

/// The strings of a list hold their texts one for one.
pub proof fn strings_hold_their_texts(strings: Seq<String>)
    ensures
        texts(strings).len() == strings.len(),
        forall|i: int| 0 <= i < strings.len() ==> #[trigger] texts(strings)[i] == strings[i]@,
{
}

/// The number that some decimal digits write.
pub open spec fn digits_value(digits: Seq<char>) -> int
    decreases digits.len(),
{
    if digits.len() == 0 {
        0
    } else {
        digits_value(digits.drop_last()) * 10 + (digits.last() as int - '0' as int)
    }
}

/// A number is written in the digits that have its value, without leading zeros.
pub proof fn decimal_has_the_value(n: nat)
    ensures
        digits_value(decimal(n)) == n,
        decimal(n).len() > 0,
        forall|i: int| 0 <= i < decimal(n).len() ==> '0' <= #[trigger] decimal(n)[i] <= '9',
        decimal(n)[0] == '0' ==> n == 0 && decimal(n).len() == 1,
    decreases n,
{
    decimal_digits(n);
    if n >= 10 {
        decimal_has_the_value(n / 10);
        decimal_digits(n / 10);
        assert(decimal(n).drop_last() =~= decimal(n / 10));
        assert(decimal(n)[0] == decimal(n / 10)[0]);
    } else {
        reveal_with_fuel(digits_value, 2);
        assert(decimal(n).drop_last() =~= Seq::<char>::empty());
    }
}

/// Of the ASCII letters the upper-case ones are lowered, each to its counterpart in the alphabet,
/// and nothing else is changed.
pub proof fn lowering_changes_upper_case_letters(text: Seq<char>)
    ensures
        ascii_lowered(text).len() == text.len(),
        forall|i: int|
            0 <= i < text.len() ==> (if 'A' <= #[trigger] text[i] <= 'Z' {
                ascii_lowered(text)[i] as int - 'a' as int == text[i] as int - 'A' as int
            } else {
                ascii_lowered(text)[i] == text[i]
            }),
{
}

} // verus!
