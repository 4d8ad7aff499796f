//! Text building blocks: positional numerals, comparison and splitting.

use vstd::prelude::*;
use vstd::string::*;
use vstd::utf8::*;

verus! {

/// Appending a character to a string: `String::push` leaves the old characters
/// in place and adds the new one at the end.
pub assume_specification[ String::push ](s: &mut String, c: char)
    ensures
        final(s)@ == old(s)@.push(c),
;

/// What `String::from_utf8_lossy` reads out of bytes.
pub uninterp spec fn lossy_text(bytes: Seq<u8>) -> Seq<char>;

/// `String::from_utf8_lossy`. The text is a function of the bytes alone; bytes
/// that are UTF-8 are read as such, and what is not is replaced.
#[verifier::external_body]
pub(crate) fn lossy_string(bytes: &Vec<u8>) -> (s: String)
    ensures
        s@ == lossy_text(bytes@),
        valid_utf8(bytes@) ==> s@ == decode_utf8(bytes@),
{
    String::from_utf8_lossy(bytes).into_owned()
}

/// The numeral for `d`, a value below sixteen, in upper case.
pub open spec fn digit_char(d: nat) -> char {
    if d < 10 {
        ('0' as u8 + d) as char
    } else {
        ('A' as u8 + d - 10) as char
    }
}

/// `n` written in `base`, left-padded with zeros to at least `width` digits.
pub open spec fn numeral(n: nat, base: nat, width: nat) -> Seq<char>
    decreases n + width,
{
    if base < 2 {
        Seq::empty()
    } else if n < base && width <= 1 {
        seq![digit_char(n)]
    } else {
        proof {
            assert(n / base <= n && (n > 0 ==> n / base < n)) by (nonlinear_arith)
                requires base >= 2;
        }
        numeral(n / base, base, if width > 0 { (width - 1) as nat } else { 0 }).push(
            digit_char(n % base),
        )
    }
}

/// `n` in plain decimal.
pub open spec fn decimal(n: nat) -> Seq<char> {
    numeral(n, 10, 1)
}

fn digit_str(d: u64) -> (s: &'static str)
    requires
        d < 16,
    ensures
        s@ == seq![digit_char(d as nat)],
{
    proof {
        reveal_strlit("0");
        reveal_strlit("1");
        reveal_strlit("2");
        reveal_strlit("3");
        reveal_strlit("4");
        reveal_strlit("5");
        reveal_strlit("6");
        reveal_strlit("7");
        reveal_strlit("8");
        reveal_strlit("9");
        reveal_strlit("A");
        reveal_strlit("B");
        reveal_strlit("C");
        reveal_strlit("D");
        reveal_strlit("E");
        reveal_strlit("F");
    }
    match d {
        0 => "0",
        1 => "1",
        2 => "2",
        3 => "3",
        4 => "4",
        5 => "5",
        6 => "6",
        7 => "7",
        8 => "8",
        9 => "9",
        10 => "A",
        11 => "B",
        12 => "C",
        13 => "D",
        14 => "E",
        _ => "F",
    }
}

/// Append `n` in `base`, zero-padded to `width` digits.
pub fn push_numeral(out: &mut String, n: u64, base: u64, width: usize)
    requires
        2 <= base <= 16,
    ensures
        final(out)@ == old(out)@ + numeral(n as nat, base as nat, width as nat),
    decreases n + width,
{
    if n < base && width <= 1 {
        out.append(digit_str(n));
    } else {
        proof {
            assert(n / base <= n && (n > 0 ==> n / base < n)) by (nonlinear_arith)
                requires base >= 2;
            assert(0 <= n % base < base) by (nonlinear_arith)
                requires base >= 2;
        }
        push_numeral(out, n / base, base, if width > 0 { width - 1 } else { 0 });
        out.append(digit_str(n % base));
        proof {
            assert(old(out)@ + numeral(n as nat, base as nat, width as nat) =~= (old(out)@
                + numeral(
                (n / base) as nat,
                base as nat,
                if width > 0 { (width - 1) as nat } else { 0 },
            )) + seq![digit_char((n % base) as nat)]);
        }
    }
}

/// Append `n` in decimal.
pub fn push_decimal(out: &mut String, n: u64)
    ensures
        final(out)@ == old(out)@ + decimal(n as nat),
{
    push_numeral(out, n, 10, 1);
}

/// `n` in decimal, as a string of its own.
pub fn decimal_string(n: u64) -> (s: String)
    ensures
        s@ == decimal(n as nat),
{
    let mut s = String::new();
    push_decimal(&mut s, n);
    proof {
        assert(Seq::<char>::empty() + decimal(n as nat) =~= decimal(n as nat));
    }
    s
}

/// `prefix` followed by `rest`.
pub fn join(prefix: &str, rest: &str) -> (s: String)
    ensures
        s@ == prefix@ + rest@,
{
    let mut s = prefix.to_owned();
    s.append(rest);
    s
}

/// `prefix` followed by `n` in decimal.
pub fn join_decimal(prefix: &str, n: u64) -> (s: String)
    ensures
        s@ == prefix@ + decimal(n as nat),
{
    let mut s = prefix.to_owned();
    push_decimal(&mut s, n);
    s
}

/// Whether two strings hold the same characters.
pub fn same_text(a: &str, b: &str) -> (r: bool)
    ensures
        r == (a@ == b@),
{
    let x = a.as_bytes();
    let y = b.as_bytes();
    proof {
        encode_utf8_decode_utf8(a@);
        encode_utf8_decode_utf8(b@);
    }
    if x.len() != y.len() {
        return false;
    }
    let mut i: usize = 0;
    while i < x.len()
        invariant
            i <= x.len(),
            x.len() == y.len(),
            x@ == encode_utf8(a@),
            y@ == encode_utf8(b@),
            forall|j: int| 0 <= j < i ==> x@[j] == y@[j],
        decreases x.len() - i,
    {
        if x[i] != y[i] {
            return false;
        }
        i += 1;
    }
    assert(x@ =~= y@);
    true
}

/// Encoding distributes over concatenation.
pub proof fn lemma_utf8_concat(a: Seq<char>, b: Seq<char>)
    ensures
        encode_utf8(a + b) == encode_utf8(a) + encode_utf8(b),
    decreases a.len(),
{
    if a.len() == 0 {
        assert(a + b =~= b);
        assert(encode_utf8(a) =~= Seq::<u8>::empty());
        assert(Seq::<u8>::empty() + encode_utf8(b) =~= encode_utf8(b));
    } else {
        assert((a + b).drop_first() =~= a.drop_first() + b);
        assert((a + b)[0] == a[0]);
        lemma_utf8_concat(a.drop_first(), b);
        assert(encode_utf8(a + b) =~= encode_utf8(a) + encode_utf8(b));
    }
}

/// The parts of a text that a separator separates.
pub open spec fn split(text: Seq<char>, separator: char) -> Seq<Seq<char>>
    decreases text.len(),
{
    if text.len() == 0 {
        seq![Seq::empty()]
    } else {
        let before = split(text.drop_last(), separator);
        if text.last() == separator {
            before.push(Seq::empty())
        } else {
            before.update(before.len() - 1, before.last().push(text.last()))
        }
    }
}

/// Parts, joined by a separator.
pub open spec fn joined(parts: Seq<Seq<char>>, separator: char) -> Seq<char>
    decreases parts.len(),
{
    if parts.len() == 0 {
        Seq::empty()
    } else if parts.len() == 1 {
        parts[0]
    } else {
        joined(parts.drop_last(), separator).push(separator) + parts.last()
    }
}

/// Law: splitting a text takes nothing away but the separators: joining the parts
/// gives the text, and no part holds a separator.
pub proof fn law_split_is_reversible(text: Seq<char>, separator: char)
    ensures
        split(text, separator).len() > 0,
        joined(split(text, separator), separator) == text,
        forall|i: int, j: int|
            0 <= i < split(text, separator).len() && 0 <= j < split(text, separator)[i].len()
                ==> #[trigger] split(text, separator)[i][j] != separator,
    decreases text.len(),
{
    let parts = split(text, separator);
    if text.len() > 0 {
        let c = text.last();
        let before = split(text.drop_last(), separator);
        law_split_is_reversible(text.drop_last(), separator);
        assert(text.drop_last().push(c) =~= text);
        if c == separator {
            assert(parts.drop_last() =~= before);
            assert(joined(before, separator).push(separator) + Seq::<char>::empty() =~= text);
        } else if before.len() == 1 {
            assert(parts[0] =~= text);
        } else {
            assert(parts.drop_last() =~= before.drop_last());
            assert(joined(before.drop_last(), separator).push(separator) + before.last().push(c)
                =~= text);
        }
        assert forall|i: int, j: int|
            0 <= i < parts.len() && 0 <= j < parts[i].len() implies #[trigger] parts[i][j]
            != separator by {
            if i < before.len() {
                if j < before[i].len() {
                    assert(parts[i][j] == before[i][j]);
                }
            }
        }
    }
}

/// Whether a character occurs in a text.
pub fn has_char(text: &str, wanted: char) -> (r: bool)
    ensures
        r == text@.contains(wanted),
{
    for c in it: text.chars()
        invariant
            it.seq() == text@,
            forall|i: int| 0 <= i < it.index() ==> text@[i] != wanted,
    {
        if c == wanted {
            proof {
                assert(text@[it.index() as int] == wanted);
            }
            return true;
        }
    }
    false
}

/// What strings hold.
pub open spec fn texts(strings: Seq<String>) -> Seq<Seq<char>> {
    strings.map_values(|s: String| s@)
}

/// Split a text at every separator.
pub fn split_text(text: &str, separator: char) -> (parts: Vec<String>)
    ensures
        texts(parts@) == split(text@, separator),
{
    let mut parts: Vec<String> = Vec::new();
    let mut current = String::new();
    proof {
        assert(text@.take(0) =~= Seq::<char>::empty());
        assert(texts(parts@).push(current@) =~= split(text@.take(0), separator));
    }
    for c in it: text.chars()
        invariant
            it.seq() == text@,
            texts(parts@).push(current@) == split(text@.take(it.index() as int), separator),
    {
        proof {
            assert(text@.take(it.index() + 1).drop_last() =~= text@.take(it.index() as int));
            assert(text@.take(it.index() + 1).last() == c);
        }
        let ghost before = texts(parts@);
        let ghost piece = current@;
        if c == separator {
            parts.push(current);
            current = String::new();
            proof {
                assert(texts(parts@) =~= before.push(piece));
            }
        } else {
            current.push(c);
            proof {
                assert(before.push(piece).update(before.len() as int, piece.push(c))
                    =~= before.push(piece.push(c)));
            }
        }
    }
    proof {
        assert(text@.take(text@.len() as int) =~= text@);
    }
    let ghost before = texts(parts@);
    let ghost piece = current@;
    parts.push(current);
    proof {
        assert(texts(parts@) =~= before.push(piece));
    }
    parts
}

/// The value of a digit of a base up to sixteen.
pub open spec fn digit_value(c: char) -> Option<nat> {
    if '0' <= c && c <= '9' {
        Some((c as int - '0' as int) as nat)
    } else if 'A' <= c && c <= 'F' {
        Some((c as int - 'A' as int + 10) as nat)
    } else {
        None
    }
}

/// The number that digits write in a base, the most significant first.
pub open spec fn reads_as(digits: Seq<char>, base: nat) -> Option<nat>
    decreases digits.len(),
{
    if digits.len() == 0 {
        Some(0)
    } else {
        match (reads_as(digits.drop_last(), base), digit_value(digits.last())) {
            (Some(n), Some(d)) => if d < base {
                Some(n * base + d)
            } else {
                None
            },
            _ => None,
        }
    }
}

/// Law: a numeral reads as the number that it was written for, has at least the
/// digits asked for, and no leading zeros beyond those.
pub proof fn law_numerals_read_back(n: nat, base: nat, width: nat)
    requires
        2 <= base <= 16,
    ensures
        reads_as(numeral(n, base, width), base) == Some(n),
        numeral(n, base, width).len() >= width,
        numeral(n, base, width).len() >= 1,
        numeral(n, base, width).len() > width && numeral(n, base, width).len() > 1 ==> numeral(
            n,
            base,
            width,
        )[0] != '0',
        n < base && width <= 1 ==> numeral(n, base, width).len() == 1,
    decreases n + width,
{
    let all = numeral(n, base, width);
    let last = n % base;
    assert(last < base) by (nonlinear_arith)
        requires
            last == n % base,
            base >= 2,
    ;
    assert(digit_value(digit_char(last)) == Some(last));
    if n < base && width <= 1 {
        assert(n % base == n) by (nonlinear_arith)
            requires
                n < base,
        ;
        assert(all.drop_last() =~= Seq::<char>::empty());
        assert(reads_as(all.drop_last(), base) == Some(0nat));
        assert(0 * base + n == n) by (nonlinear_arith);
    } else {
        assert(n / base <= n && (n > 0 ==> n / base < n)) by (nonlinear_arith)
            requires
                base >= 2,
        ;
        let rest = if width > 0 {
            (width - 1) as nat
        } else {
            0
        };
        law_numerals_read_back(n / base, base, rest);
        let front = numeral(n / base, base, rest);
        assert(all.drop_last() =~= front);
        assert((n / base) * base + n % base == n) by (nonlinear_arith)
            requires
                base >= 2,
        ;
        assert(all[0] == front[0]);
        if front.len() == 1 && width <= 1 {
            assert(n >= base);
            assert(n / base >= 1) by (nonlinear_arith)
                requires
                    n >= base,
                    base >= 2,
            ;
            assert(front.drop_last() =~= Seq::<char>::empty());
            assert(reads_as(front.drop_last(), base) == Some(0nat));
            assert(0 * base == 0) by (nonlinear_arith);
            assert(digit_value(front[0]) == Some((n / base) as nat));
        }
    }
}

/// Law: different numbers are written differently.
pub proof fn law_numerals_differ(m: nat, n: nat, base: nat, width: nat)
    requires
        2 <= base <= 16,
        m != n,
    ensures
        numeral(m, base, width) != numeral(n, base, width),
        decimal(m) != decimal(n),
{
    law_numerals_read_back(m, base, width);
    law_numerals_read_back(n, base, width);
    law_numerals_read_back(m, 10, 1);
    law_numerals_read_back(n, 10, 1);
}

/// Law: what strings hold is what each of them holds, in order.
pub proof fn law_texts_are_those_of_the_strings(strings: Seq<String>)
    ensures
        texts(strings).len() == strings.len(),
        forall|i: int| 0 <= i < strings.len() ==> #[trigger] texts(strings)[i] == strings[i]@,
{
}

/// Law: a number that fits the digits asked for is written in exactly those.
pub proof fn law_numerals_fill_their_width(n: nat, base: nat, width: nat)
    requires
        2 <= base <= 16,
        1 <= width,
        n < vstd::arithmetic::power::pow(base as int, width),
    ensures
        numeral(n, base, width).len() == width,
    decreases width,
{
    reveal(vstd::arithmetic::power::pow);
    let rest = (width - 1) as nat;
    let most = vstd::arithmetic::power::pow(base as int, rest);
    assert(n < base * most);
    if width == 1 {
        assert(most == 1);
    } else {
        assert(n / base < most) by (nonlinear_arith)
            requires
                n < base * most,
                base >= 2,
        ;
        law_numerals_fill_their_width(n / base, base, rest);
    }
}

} // verus!
