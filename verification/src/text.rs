use vstd::prelude::*;
use vstd::string::*;

verus! {

/// Appends one character to a string.
///
/// Trusted: `String::push`, documented to append the given `char` to the end
/// of the string; the contract states exactly that.
#[verifier::external_body]
fn push_char(s: &mut String, c: char)
    ensures
        final(s)@ == old(s)@.push(c),
{
    s.push(c);
}

/// Whether two texts hold the same characters.
pub fn same_text(a: &str, b: &str) -> (r: bool)
    ensures
        r == (a@ == b@),
{
    let n = a.unicode_len();
    let m = b.unicode_len();
    if n != m {
        return false;
    }
    let mut i: usize = 0;
    while i < n
        invariant
            n == a@.len(),
            m == b@.len(),
            n == m,
            i <= n,
            forall|j: int| 0 <= j < i ==> a@[j] == b@[j],
        decreases n - i,
    {
        if a.get_char(i) != b.get_char(i) {
            return false;
        }
        i = i + 1;
    }
    assert(a@ =~= b@);
    true
}

/// English ordinal suffix of `n`: "st", "nd", "rd" or "th".
pub open spec fn spec_ordinal_suffix(n: nat) -> Seq<char> {
    if 11 <= n % 100 <= 13 {
        "th"@
    } else if n % 10 == 1 {
        "st"@
    } else if n % 10 == 2 {
        "nd"@
    } else if n % 10 == 3 {
        "rd"@
    } else {
        "th"@
    }
}

/// The suffix that turns `n` into an ordinal ("1st", "12th", "23rd").
pub fn ordinal_suffix(n: usize) -> (r: &'static str)
    ensures
        r@ == spec_ordinal_suffix(n as nat),
{
    let last_two = n % 100;
    if 11 <= last_two && last_two <= 13 {
        "th"
    } else if n % 10 == 1 {
        "st"
    } else if n % 10 == 2 {
        "nd"
    } else if n % 10 == 3 {
        "rd"
    } else {
        "th"
    }
}

/// The decimal digit character of `d` (for `d < 10`).
pub open spec fn digit_char(d: nat) -> char {
    ('0' as int + d) as char
}

/// Decimal digits of a natural number, most significant first, no leading zeros.
pub open spec fn nat_decimal(n: nat) -> Seq<char>
    decreases n,
{
    if n < 10 {
        seq![digit_char(n)]
    } else {
        nat_decimal(n / 10).push(digit_char(n % 10))
    }
}

/// Decimal rendering of an integer, with a leading '-' when negative.
pub open spec fn int_decimal(i: int) -> Seq<char> {
    if i < 0 {
        seq!['-'] + nat_decimal((-i) as nat)
    } else {
        nat_decimal(i as nat)
    }
}

fn digit(d: u64) -> (c: char)
    requires
        d < 10,
    ensures
        c == digit_char(d as nat),
{
    match d {
        0 => '0',
        1 => '1',
        2 => '2',
        3 => '3',
        4 => '4',
        5 => '5',
        6 => '6',
        7 => '7',
        8 => '8',
        _ => '9',
    }
}

fn push_decimal(s: &mut String, n: u64)
    ensures
        final(s)@ == old(s)@ + nat_decimal(n as nat),
    decreases n,
{
    if n >= 10 {
        push_decimal(s, n / 10);
    }
    push_char(s, digit(n % 10));
    assert(final(s)@ =~= old(s)@ + nat_decimal(n as nat));
}

/// Appends the decimal rendering of the unsigned `n` to `s`.
pub fn append_unsigned(s: &mut String, n: u64)
    ensures
        final(s)@ == old(s)@ + nat_decimal(n as nat),
{
    push_decimal(s, n);
}

/// Appends the decimal rendering of `i` to `s`.
pub fn append_decimal(s: &mut String, i: i64)
    ensures
        final(s)@ == old(s)@ + int_decimal(i as int),
{
    if i < 0 {
        push_char(s, '-');
        let magnitude: u64 = ((-(i + 1)) as u64) + 1;
        push_decimal(s, magnitude);
        assert(final(s)@ =~= old(s)@ + int_decimal(i as int));
    } else {
        push_decimal(s, i as u64);
    }
}

/// `before`, the decimal rendering of `n`, then `after`.
pub fn text_with_number(before: &str, n: i64, after: &str) -> (r: String)
    ensures
        r@ == before@ + int_decimal(n as int) + after@,
{
    let mut s = String::from_str(before);
    append_decimal(&mut s, n);
    s.append(after);
    s
}

/// The decimal rendering of `i`.
pub fn decimal(i: i64) -> (r: String)
    ensures
        r@ == int_decimal(i as int),
{
    let mut s = String::new();
    append_decimal(&mut s, i);
    assert(s@ =~= int_decimal(i as int));
    s
}

/// A Discord relative timestamp tag for the Unix time `t`: `<t:{t}:R>`.
pub open spec fn spec_discord_timestamp(t: int) -> Seq<char> {
    "<t:"@ + int_decimal(t) + ":R>"@
}

/// Renders the Unix time `t` as a Discord relative timestamp tag.
pub fn discord_timestamp(t: i64) -> (r: String)
    ensures
        r@ == spec_discord_timestamp(t as int),
{
    let mut s = String::from_str("<t:");
    append_decimal(&mut s, t);
    s.append(":R>");
    s
}

/// "`count` `word`", where the word is `singular` exactly when `count == 1`.
pub open spec fn spec_pluralize(count: int, singular: Seq<char>, plural: Seq<char>) -> Seq<char> {
    int_decimal(count) + " "@ + (if count == 1 { singular } else { plural })
}

/// Renders a count with the matching noun form, such as "1 day" or "3 days".
pub fn pluralize(count: i64, singular: &str, plural: &str) -> (r: String)
    ensures
        r@ == spec_pluralize(count as int, singular@, plural@),
{
    let mut s = decimal(count);
    s.append(" ");
    if count == 1 {
        s.append(singular);
    } else {
        s.append(plural);
    }
    s
}

/// Whether Discord markdown treats `c` as a formatting character that needs a
/// backslash in front of it.
pub open spec fn is_markdown_special(c: char) -> bool {
    c == '\\' || c == '*' || c == '_' || c == '`' || c == '~' || c == '|'
}

/// The escaped form of one character.
pub open spec fn escape_char(c: char) -> Seq<char> {
    if is_markdown_special(c) {
        seq!['\\', c]
    } else {
        seq![c]
    }
}

/// Every markdown special character of `s` preceded by a backslash, every
/// other character kept as it is.
pub open spec fn spec_escape_markdown(s: Seq<char>) -> Seq<char>
    decreases s.len(),
{
    if s.len() == 0 {
        Seq::empty()
    } else {
        spec_escape_markdown(s.drop_last()) + escape_char(s.last())
    }
}

/// Escapes Discord markdown in user-provided text (names shown in embeds).
pub fn escape_markdown(text: &str) -> (r: String)
    ensures
        r@ == spec_escape_markdown(text@),
{
    let n = text.unicode_len();
    let mut out = String::new();
    let mut i: usize = 0;
    while i < n
        invariant
            n == text@.len(),
            i <= n,
            out@ == spec_escape_markdown(text@.take(i as int)),
        decreases n - i,
    {
        let c = text.get_char(i);
        if c == '\\' || c == '*' || c == '_' || c == '`' || c == '~' || c == '|' {
            push_char(&mut out, '\\');
        }
        push_char(&mut out, c);
        assert(text@.take(i + 1).drop_last() =~= text@.take(i as int));
        assert(out@ =~= spec_escape_markdown(text@.take(i + 1)));
        i = i + 1;
    }
    assert(text@.take(n as int) =~= text@);
    out
}

} // verus!
