//! Text helpers: decimal numbers, joining, trimming and shortening.

use vstd::prelude::*;

verus! {

/// `String::push` of the standard library appends the given character to the
/// end of the string and changes nothing else.
pub assume_specification[ String::push ](s: &mut String, c: char)
    ensures
        final(s)@ == old(s)@.push(c),
;

/// The decimal digit for a value below ten.
pub open spec fn digit(d: nat) -> char {
    (48 + d) as char
}

/// The decimal notation of a number, without leading zeros.
pub open spec fn decimal(n: nat) -> Seq<char>
    decreases n,
{
    if n < 10 {
        seq![digit(n)]
    } else {
        decimal(n / 10).push(digit(n % 10))
    }
}

/// The parts in order, with the separator between neighbours.
pub open spec fn joined(parts: Seq<Seq<char>>, separator: Seq<char>) -> Seq<char>
    decreases parts.len(),
{
    if parts.len() == 0 {
        Seq::empty()
    } else if parts.len() == 1 {
        parts[0]
    } else {
        joined(parts.drop_last(), separator) + (separator + parts.last())
    }
}

/// The text without its leading run of the given character.
pub open spec fn trimmed_start(s: Seq<char>, c: char) -> Seq<char>
    decreases s.len(),
{
    if s.len() > 0 && s[0] == c {
        trimmed_start(s.drop_first(), c)
    } else {
        s
    }
}

/// The first `count` characters, or the whole text where it has fewer.
pub open spec fn shortened(s: Seq<char>, count: nat) -> Seq<char> {
    if s.len() <= count {
        s
    } else {
        s.take(count as int)
    }
}

/// Trimming a text takes away some number of its first characters, all of
/// them `c`, and what is left does not begin with `c`.
pub proof fn trimmed_start_is_longest(s: Seq<char>, c: char) -> (n: nat)
    ensures
        n <= s.len(),
        trimmed_start(s, c) == s.skip(n as int),
        forall|i: int| 0 <= i < n ==> s[i] == c,
        n < s.len() ==> s[n as int] != c,
    decreases s.len(),
{
    if s.len() > 0 && s[0] == c {
        let rest = s.drop_first();
        let m = trimmed_start_is_longest(rest, c);
        assert(rest.skip(m as int) =~= s.skip(m as int + 1));
        assert forall|i: int| 0 <= i < m + 1 implies s[i] == c by {
            if i > 0 {
                assert(rest[i - 1] == s[i]);
            }
        }
        if m + 1 < s.len() {
            assert(rest[m as int] == s[m as int + 1]);
        }
        m + 1
    } else {
        assert(s.skip(0) =~= s);
        0
    }
}

/// Writes a number in decimal.
pub fn write_decimal(n: u128) -> (r: String)
    ensures
        r@ == decimal(n as nat),
    decreases n,
{
    if n < 10 {
        let mut r = String::new();
        r.push((48u8 + n as u8) as char);
        assert(r@ =~= seq![digit(n as nat)]);
        r
    } else {
        let mut r = write_decimal(n / 10);
        r.push((48u8 + (n % 10) as u8) as char);
        r
    }
}

/// Whether a string holds exactly the given text.
pub fn is_text(s: &String, text: &str) -> (r: bool)
    ensures
        r == (s@ == text@),
{
    *s == text.to_owned()
}

/// Puts the separator between the parts.
pub fn join(parts: &Vec<String>, separator: &str) -> (r: String)
    ensures
        r@ == joined(parts@.map_values(|p: String| p@), separator@),
{
    let ghost texts = parts@.map_values(|p: String| p@);
    let mut r = String::new();
    let mut i: usize = 0;
    assert(texts.take(0) =~= Seq::empty());
    while i < parts.len()
        invariant
            i <= parts.len(),
            texts == parts@.map_values(|p: String| p@),
            r@ == joined(texts.take(i as int), separator@),
        decreases parts.len() - i,
    {
        assert(texts.take(i as int + 1).drop_last() =~= texts.take(i as int));
        assert(texts[i as int] == parts[i as int]@);
        if i > 0 {
            r.append(separator);
        }
        r.append(parts[i].as_str());
        proof {
            let next = texts.take(i as int + 1);
            assert(next.last() == parts[i as int]@);
            assert(r@ =~= joined(next, separator@));
        }
        i = i + 1;
    }
    assert(texts.take(parts.len() as int) =~= texts);
    r
}

/// Removes the leading run of a character.
pub fn trim_start(s: &str, c: char) -> (r: String)
    ensures
        r@ == trimmed_start(s@, c),
{
    let n = s.unicode_len();
    let mut i: usize = 0;
    assert(s@.skip(0) =~= s@);
    while i < n && s.get_char(i) == c
        invariant
            i <= n,
            n == s@.len(),
            trimmed_start(s@, c) == trimmed_start(s@.skip(i as int), c),
        decreases n - i,
    {
        assert(s@.skip(i as int).drop_first() =~= s@.skip(i as int + 1));
        i = i + 1;
    }
    assert(s@.skip(i as int) =~= s@.subrange(i as int, n as int));
    s.substring_char(i, n).to_owned()
}

/// Keeps at most the first `count` characters.
pub fn shorten(s: &str, count: usize) -> (r: String)
    ensures
        r@ == shortened(s@, count as nat),
{
    let n = s.unicode_len();
    if n <= count {
        s.to_owned()
    } else {
        s.substring_char(0, count).to_owned()
    }
}

/// The number that a text of decimal digits stands for.
pub open spec fn numeral(s: Seq<char>) -> int
    decreases s.len(),
{
    if s.len() == 0 {
        0
    } else {
        10 * numeral(s.drop_last()) + (s.last() as int - '0' as int)
    }
}

/// A number in decimal is a non-empty text of digits, without leading zeros,
/// that stands for the number.
pub proof fn decimal_reads_back(n: nat)
    ensures
        numeral(decimal(n)) == n,
        decimal(n).len() > 0,
        forall|i: int| 0 <= i < decimal(n).len() ==> 48 <= (#[trigger] decimal(n)[i]) as int <= 57,
        n > 0 ==> decimal(n)[0] != '0',
        n == 0 ==> decimal(n).len() == 1,
    decreases n,
{
    if n < 10 {
        let text = decimal(n);
        assert(text.drop_last() =~= Seq::empty());
        assert(numeral(text.drop_last()) == 0);
    } else {
        let text = decimal(n);
        decimal_reads_back(n / 10);
        assert(text.drop_last() =~= decimal(n / 10));
        assert(text[0] == decimal(n / 10)[0]);
        assert forall|i: int| 0 <= i < text.len() implies 48 <= (#[trigger] text[i]) as int <= 57 by {
            if i < text.len() - 1 {
                assert(text[i] == decimal(n / 10)[i]);
            }
        }
    }
}

/// Joining nothing gives nothing, joining one part gives the part, and joining
/// two lists puts one separator between what each gives.
pub proof fn joining_puts_the_separator_between(
    first: Seq<Seq<char>>,
    second: Seq<Seq<char>>,
    part: Seq<char>,
    separator: Seq<char>,
)
    requires
        first.len() > 0,
        second.len() > 0,
    ensures
        joined(Seq::empty(), separator) == Seq::<char>::empty(),
        joined(seq![part], separator) == part,
        joined(first + second, separator) == joined(first, separator) + separator + joined(
            second,
            separator,
        ),
    decreases second.len(),
{
    let both = first + second;
    if second.len() == 1 {
        assert(both.drop_last() =~= first);
        assert(both.last() == second[0]);
        assert(joined(both, separator) =~= joined(first, separator) + separator + joined(
            second,
            separator,
        ));
    } else {
        let rest = second.drop_last();
        joining_puts_the_separator_between(first, rest, part, separator);
        assert(both.drop_last() =~= first + rest);
        assert(both.last() == second.last());
        assert(joined(both, separator) =~= joined(first, separator) + separator + joined(
            second,
            separator,
        ));
    }
}

/// A shortened text is the beginning of the text, as long as the limit allows.
pub proof fn shortening_keeps_the_beginning(s: Seq<char>, count: nat)
    ensures
        shortened(s, count).len() == if s.len() < count {
            s.len()
        } else {
            count
        },
        forall|i: int| 0 <= i < shortened(s, count).len() ==> shortened(s, count)[i] == s[i],
{
}

} // verus!
