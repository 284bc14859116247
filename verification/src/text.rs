//! Text helpers: comparing and cutting strings by characters, and writing the
//! pieces of JSON (strings and unsigned numbers) that the tokens carry.
use vstd::prelude::*;
use vstd::string::*;

verus! {

/// The lower-case hexadecimal digit of a value below 16.
pub open spec fn hex_digit(n: int) -> char {
    if n < 10 {
        (48 + n) as char
    } else {
        (87 + n) as char
    }
}

/// The decimal digit of a value below 10.
pub open spec fn digit_char(n: int) -> char {
    (48 + n) as char
}

/// The decimal text of a natural number, without sign or leading zeros.
pub open spec fn decimal(n: nat) -> Seq<char>
    decreases n,
{
    if n < 10 {
        seq![digit_char(n as int)]
    } else {
        decimal(n / 10).push(digit_char((n % 10) as int))
    }
}

/// How JSON writes one character inside a string: quote and backslash are
/// escaped, control characters get their short escape or a `\u00XX` form with
/// lower-case digits, every other character stands for itself.
pub open spec fn json_escape_char(c: char) -> Seq<char> {
    if c == '"' {
        seq!['\\', '"']
    } else if c == '\\' {
        seq!['\\', '\\']
    } else if c == '\u{8}' {
        seq!['\\', 'b']
    } else if c == '\t' {
        seq!['\\', 't']
    } else if c == '\n' {
        seq!['\\', 'n']
    } else if c == '\u{c}' {
        seq!['\\', 'f']
    } else if c == '\r' {
        seq!['\\', 'r']
    } else if (c as int) < 32 {
        seq!['\\', 'u', '0', '0', hex_digit((c as int) / 16), hex_digit((c as int) % 16)]
    } else {
        seq![c]
    }
}

/// The escaped body of a JSON string.
pub open spec fn json_escaped(s: Seq<char>) -> Seq<char>
    decreases s.len(),
{
    if s.len() == 0 {
        Seq::empty()
    } else {
        json_escaped(s.drop_last()) + json_escape_char(s.last())
    }
}

/// A JSON string literal holding `s`.
pub open spec fn json_string(s: Seq<char>) -> Seq<char> {
    seq!['"'] + json_escaped(s) + seq!['"']
}

/// The value of a decimal digit character.
pub open spec fn digit_value(c: char) -> int {
    (c as int) - ('0' as int)
}

/// The number that a text of decimal digits reads as, most significant first.
pub open spec fn digits_value(s: Seq<char>) -> int
    decreases s.len(),
{
    if s.len() == 0 {
        0
    } else {
        digits_value(s.drop_last()) * 10 + digit_value(s.last())
    }
}

/// The value of a hexadecimal digit character (0-9, a-f).
pub open spec fn hex_value(c: char) -> int {
    if c <= '9' {
        (c as int) - ('0' as int)
    } else {
        (c as int) - ('a' as int) + 10
    }
}

/// The character that one escape unit of a JSON string stands for: a plain
/// character, a backslash and a letter, or `\u` with four hexadecimal digits.
pub open spec fn json_unescape_unit(u: Seq<char>) -> char {
    if u.len() == 1 {
        u[0]
    } else if u.len() == 2 {
        if u[1] == 'b' {
            '\u{8}'
        } else if u[1] == 't' {
            '\t'
        } else if u[1] == 'n' {
            '\n'
        } else if u[1] == 'f' {
            '\u{c}'
        } else if u[1] == 'r' {
            '\r'
        } else {
            u[1]
        }
    } else {
        (hex_value(u[2]) * 4096 + hex_value(u[3]) * 256 + hex_value(u[4]) * 16 + hex_value(
            u[5],
        )) as char
    }
}

/// The decimal text of a number consists of digits only, has no leading zero,
/// and reads back as the number.
pub proof fn decimal_reads_back(n: nat)
    ensures
        decimal(n).len() >= 1,
        forall|i: int| 0 <= i < decimal(n).len() ==> '0' <= #[trigger] decimal(n)[i] && decimal(n)[i] <= '9',
        digits_value(decimal(n)) == n,
        n > 0 ==> decimal(n)[0] != '0',
    decreases n,
{
    let last = digit_char((n % 10) as int);
    assert(digit_value(last) == n % 10);
    if n >= 10 {
        decimal_reads_back(n / 10);
        let d = decimal((n / 10) as nat);
        assert(decimal(n).drop_last() =~= d);
        assert(decimal(n).last() == last);
        assert(decimal(n)[0] == d[0]);
        assert(digits_value(decimal(n)) == digits_value(d) * 10 + digit_value(last));
    } else {
        assert(decimal(n).drop_last() =~= Seq::<char>::empty());
        assert(digits_value(decimal(n)) == digits_value(Seq::<char>::empty()) * 10 + digit_value(last));
    }
}

/// Each hexadecimal digit that JSON escapes use is one of 0-9, a-f and reads
/// back as its value.
pub proof fn hex_digit_reads_back(n: int)
    requires
        0 <= n < 16,
    ensures
        ('0' <= hex_digit(n) && hex_digit(n) <= '9') || ('a' <= hex_digit(n) && hex_digit(n) <= 'f'),
        hex_value(hex_digit(n)) == n,
{
}

/// Every character survives JSON escaping: its escape unit reads back as the
/// character, holds no control character, and is either the character alone
/// (never a quote or a backslash) or begins with a backslash.
pub proof fn json_escape_reads_back(c: char)
    ensures
        json_unescape_unit(json_escape_char(c)) == c,
        forall|i: int| 0 <= i < json_escape_char(c).len() ==> (#[trigger] json_escape_char(c)[i]
            as int) >= 32,
        json_escape_char(c).len() == 1 ==> c != '"' && c != '\\' && json_escape_char(c)[0] == c,
        json_escape_char(c).len() > 1 ==> json_escape_char(c)[0] == '\\',
{
    if (c as int) < 32 && c != '\u{8}' && c != '\t' && c != '\n' && c != '\u{c}' && c != '\r' {
        hex_digit_reads_back((c as int) / 16);
        hex_digit_reads_back((c as int) % 16);
        hex_digit_reads_back(0);
    }
}

/// How many characters the escape unit at the front of a JSON string body
/// takes: one plain character, a backslash and a letter, or a six-character
/// `\u` escape.
pub open spec fn json_unit_len(t: Seq<char>) -> int {
    if t[0] != '\\' {
        1
    } else if t.len() >= 2 && t[1] == 'u' {
        6
    } else {
        2
    }
}

/// The text that a JSON string body stands for, read unit by unit from the
/// front.
pub open spec fn json_unescape(t: Seq<char>) -> Seq<char>
    decreases t.len(),
{
    if t.len() == 0 {
        Seq::empty()
    } else {
        let k = if json_unit_len(t) <= t.len() {
            json_unit_len(t)
        } else {
            t.len() as int
        };
        seq![json_unescape_unit(t.take(k))] + json_unescape(t.skip(k))
    }
}

proof fn json_escaped_front(s: Seq<char>)
    requires
        s.len() > 0,
    ensures
        json_escaped(s) == json_escape_char(s[0]) + json_escaped(s.drop_first()),
    decreases s.len(),
{
    if s.len() == 1 {
        assert(s.drop_last() =~= Seq::<char>::empty());
        assert(s.drop_first() =~= Seq::<char>::empty());
        assert(json_escaped(Seq::<char>::empty()) =~= Seq::<char>::empty());
        assert(json_escaped(s) == json_escaped(s.drop_last()) + json_escape_char(s.last()));
        assert(json_escaped(s) =~= json_escape_char(s[0]));
    } else {
        json_escaped_front(s.drop_last());
        assert(s.drop_last().drop_first() =~= s.drop_first().drop_last());
        assert(s.drop_first().last() == s.last());
        assert(json_escaped(s) =~= json_escape_char(s[0]) + json_escaped(s.drop_first()));
    }
}

proof fn json_unescape_unit_front(c: char, rest: Seq<char>)
    ensures
        json_unescape(json_escape_char(c) + rest) == seq![c] + json_unescape(rest),
{
    json_escape_reads_back(c);
    let u = json_escape_char(c);
    let t = u + rest;
    assert(json_unit_len(t) == u.len());
    assert(t.take(u.len() as int) =~= u);
    assert(t.skip(u.len() as int) =~= rest);
}

/// JSON escaping loses nothing: reading the escaped body of a string unit by
/// unit gives back the string.
pub proof fn json_escaped_reads_back(s: Seq<char>)
    ensures
        json_unescape(json_escaped(s)) == s,
    decreases s.len(),
{
    if s.len() == 0 {
        assert(json_escaped(s) =~= Seq::<char>::empty());
    } else {
        json_escaped_front(s);
        json_unescape_unit_front(s[0], json_escaped(s.drop_first()));
        json_escaped_reads_back(s.drop_first());
        assert(seq![s[0]] + s.drop_first() =~= s);
    }
}

/// Appends one character to a string: std's `String::push`.
#[verifier::external_body]
pub(crate) fn push_char(s: &mut String, c: char)
    ensures
        final(s)@ == old(s)@.push(c),
{
    s.push(c)
}

fn digit(n: usize) -> (c: char)
    requires
        n < 10,
    ensures
        c == digit_char(n as int),
{
    match n {
        0 => '0',
        1 => '1',
        2 => '2',
        3 => '3',
        4 => '4',
        5 => '5',
        6 => '6',
        7 => '7',
        8 => '8',
        _ => '9',
    }
}

fn hex(n: u32) -> (c: char)
    requires
        n < 16,
    ensures
        c == hex_digit(n as int),
{
    match n {
        0 => '0',
        1 => '1',
        2 => '2',
        3 => '3',
        4 => '4',
        5 => '5',
        6 => '6',
        7 => '7',
        8 => '8',
        9 => '9',
        10 => 'a',
        11 => 'b',
        12 => 'c',
        13 => 'd',
        14 => 'e',
        _ => 'f',
    }
}

/// Appends the decimal text of `n`.
pub fn push_decimal(out: &mut String, n: usize)
    ensures
        final(out)@ == old(out)@ + decimal(n as nat),
        final(out)@.len() > old(out)@.len(),
        final(out)@.take(old(out)@.len() as int) == old(out)@,
        forall|i: int|
            old(out)@.len() <= i < final(out)@.len() ==> '0' <= #[trigger] final(out)@[i]
                && final(out)@[i] <= '9',
        digits_value(final(out)@.skip(old(out)@.len() as int)) == n,
        n > 0 ==> final(out)@[old(out)@.len() as int] != '0',
    decreases n,
{
    let ghost start = out@;
    if n >= 10 {
        push_decimal(out, n / 10);
    }
    push_char(out, digit(n % 10));
    assert(out@ =~= start + decimal(n as nat));
    proof {
        decimal_reads_back(n as nat);
        assert(out@.skip(start.len() as int) =~= decimal(n as nat));
        assert(out@.take(start.len() as int) =~= start);
        assert forall|i: int| start.len() <= i < out@.len() implies '0' <= #[trigger] out@[i]
            && out@[i] <= '9' by {
            assert(out@[i] == decimal(n as nat)[i - start.len()]);
        }
    }
}

fn push_escaped_char(out: &mut String, c: char)
    ensures
        final(out)@ == old(out)@ + json_escape_char(c),
{
    let ghost start = out@;
    if c == '"' {
        push_char(out, '\\');
        push_char(out, '"');
    } else if c == '\\' {
        push_char(out, '\\');
        push_char(out, '\\');
    } else if c == '\u{8}' {
        push_char(out, '\\');
        push_char(out, 'b');
    } else if c == '\t' {
        push_char(out, '\\');
        push_char(out, 't');
    } else if c == '\n' {
        push_char(out, '\\');
        push_char(out, 'n');
    } else if c == '\u{c}' {
        push_char(out, '\\');
        push_char(out, 'f');
    } else if c == '\r' {
        push_char(out, '\\');
        push_char(out, 'r');
    } else if (c as u32) < 32 {
        let v: u32 = c as u32;
        push_char(out, '\\');
        push_char(out, 'u');
        push_char(out, '0');
        push_char(out, '0');
        push_char(out, hex(v / 16));
        push_char(out, hex(v % 16));
    } else {
        push_char(out, c);
    }
    assert(out@ =~= start + json_escape_char(c));
}

/// Appends `s` as a JSON string literal.
pub fn push_json_string(out: &mut String, s: &str)
    ensures
        final(out)@ == old(out)@ + json_string(s@),
        final(out)@ == old(out)@ + seq!['"'] + json_escaped(s@) + seq!['"'],
        json_unescape(json_escaped(s@)) == s@,
{
    let ghost start = out@;
    push_char(out, '"');
    let n: usize = s.unicode_len();
    let mut i: usize = 0;
    while i < n
        invariant
            n == s@.len(),
            i <= n,
            out@ == start + seq!['"'] + json_escaped(s@.take(i as int)),
        decreases n - i,
    {
        let c: char = s.get_char(i);
        push_escaped_char(out, c);
        assert(s@.take(i + 1).drop_last() =~= s@.take(i as int));
        i += 1;
    }
    assert(s@.take(n as int) =~= s@);
    push_char(out, '"');
    assert(out@ =~= start + json_string(s@));
    proof {
        json_escaped_reads_back(s@);
    }
}

/// Whether two texts hold the same characters.
pub fn same_text(a: &str, b: &str) -> (same: bool)
    ensures
        same == (a@ == b@),
{
    let n: usize = a.unicode_len();
    let m: usize = b.unicode_len();
    if n != m {
        return false;
    }
    let mut i: usize = 0;
    while i < n
        invariant
            n == a@.len(),
            m == b@.len(),
            n == m,
            i <= n,
            a@.take(i as int) == b@.take(i as int),
        decreases n - i,
    {
        if a.get_char(i) != b.get_char(i) {
            assert(a@[i as int] != b@[i as int]);
            return false;
        }
        assert(a@.take(i + 1) =~= a@.take(i as int).push(a@[i as int]));
        assert(b@.take(i + 1) =~= b@.take(i as int).push(b@[i as int]));
        i += 1;
    }
    assert(a@ =~= a@.take(n as int));
    assert(b@ =~= b@.take(n as int));
    true
}

/// The rest of `s` after `prefix`, where `s` begins with it.
pub fn strip_prefix<'a>(s: &'a str, prefix: &str) -> (rest: Option<&'a str>)
    ensures
        rest is Some <==> (prefix@.len() <= s@.len() && s@.take(prefix@.len() as int)
            == prefix@),
        rest matches Some(r) ==> r@ == s@.skip(prefix@.len() as int),
{
    let n: usize = s.unicode_len();
    let k: usize = prefix.unicode_len();
    if k > n {
        return None;
    }
    let mut i: usize = 0;
    while i < k
        invariant
            n == s@.len(),
            k == prefix@.len(),
            k <= n,
            i <= k,
            s@.take(i as int) == prefix@.take(i as int),
        decreases k - i,
    {
        if s.get_char(i) != prefix.get_char(i) {
            assert(s@.take(k as int)[i as int] != prefix@[i as int]);
            return None;
        }
        assert(s@.take(i + 1) =~= s@.take(i as int).push(s@[i as int]));
        assert(prefix@.take(i + 1) =~= prefix@.take(i as int).push(prefix@[i as int]));
        i += 1;
    }
    assert(prefix@ =~= prefix@.take(k as int));
    let rest = s.substring_char(k, n);
    assert(rest@ =~= s@.skip(k as int));
    Some(rest)
}

} // verus!
