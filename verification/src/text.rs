//! Decimal numbers in text, searching and replacing.

use vstd::prelude::*;
use vstd::string::*;

verus! {

/// The character of a decimal digit.
pub open spec fn digit(d: int) -> char
    recommends
        0 <= d < 10,
{
    ('0' as int + d) as char
}

/// The decimal digits of a number, without leading zeros.
pub open spec fn decimal(n: nat) -> Seq<char>
    decreases n,
{
    if n < 10 {
        seq![digit(n as int)]
    } else {
        decimal(n / 10).push(digit((n % 10) as int))
    }
}

/// Whether a character is a decimal digit.
pub open spec fn is_digit(c: char) -> bool {
    '0' <= c <= '9'
}

/// Whether a text holds nothing but decimal digits.
pub open spec fn all_digits(s: Seq<char>) -> bool {
    forall|i: int| 0 <= i < s.len() ==> is_digit(#[trigger] s[i])
}

/// The number that a row of decimal digits stands for.
pub open spec fn number(s: Seq<char>) -> int
    decreases s.len(),
{
    if s.len() == 0 {
        0
    } else {
        number(s.drop_last()) * 10 + (s.last() as int - '0' as int)
    }
}

/// Reads an unsigned number no larger than `max`: an optional plus sign and at
/// least one decimal digit.
pub open spec fn read_number(s: Seq<char>, max: int) -> Option<int> {
    let digits = if s.len() > 0 && s[0] == '+' {
        s.skip(1)
    } else {
        s
    };
    if digits.len() > 0 && all_digits(digits) && number(digits) <= max {
        Some(number(digits))
    } else {
        None
    }
}

/// Whether `needle` occurs in `hay` at position `at`.
pub open spec fn occurs_at(hay: Seq<char>, at: int, needle: Seq<char>) -> bool {
    &&& 0 <= at
    &&& at + needle.len() <= hay.len()
    &&& hay.subrange(at, at + needle.len()) == needle
}

/// Whether `needle` occurs in `hay`.
pub open spec fn occurs(hay: Seq<char>, needle: Seq<char>) -> bool {
    exists|at: int| #[trigger] occurs_at(hay, at, needle)
}

/// Every occurrence of `from` replaced by `to`, taken from the left without overlap.
pub open spec fn replaced(s: Seq<char>, from: Seq<char>, to: Seq<char>) -> Seq<char>
    decreases s.len(),
{
    if from.len() == 0 || s.len() == 0 {
        s
    } else if occurs_at(s, 0, from) {
        to + replaced(s.skip(from.len() as int), from, to)
    } else {
        seq![s[0]] + replaced(s.skip(1), from, to)
    }
}

/// The characters of a text.
pub fn characters(text: &str) -> (chars: Vec<char>)
    ensures
        chars@ == text@,
{
    let mut chars: Vec<char> = Vec::new();
    for c in it: text.chars()
        invariant
            chars@ == it.seq().take(it.index()),
            it.seq() == text@,
    {
        chars.push(c);
    }
    chars
}

/// A decimal digit as text.
fn digit_text(d: u8) -> (text: &'static str)
    requires
        d < 10,
    ensures
        text@ == seq![digit(d as int)],
{
    proof {
        reveal_strlit("0");
        reveal_strlit("1");
        reveal_strlit("2");
        reveal_strlit("3");
        reveal_strlit("4");
        reveal_strlit("5");
        reveal_strlit("6");
        reveal_strlit("7");
        reveal_strlit("8");
        reveal_strlit("9");
    }
    let text = match d {
        0 => "0",
        1 => "1",
        2 => "2",
        3 => "3",
        4 => "4",
        5 => "5",
        6 => "6",
        7 => "7",
        8 => "8",
        _ => "9",
    };
    assert(text@ =~= seq![digit(d as int)]);
    text
}

/// Appends a number in decimal.
pub fn append_decimal(text: &mut String, n: u64)
    ensures
        final(text)@ == old(text)@ + decimal(n as nat),
    decreases n,
{
    if n >= 10 {
        append_decimal(text, n / 10);
    }
    text.append(digit_text((n % 10) as u8));
    assert(text@ =~= old(text)@ + decimal(n as nat));
}

/// Reads an unsigned number no larger than `max` from `chars[from..to]`.
pub fn parse_number(chars: &Vec<char>, from: usize, to: usize, max: u64) -> (value: Option<u64>)
    requires
        from <= to <= chars@.len(),
    ensures
        match value {
            Some(v) => read_number(chars@.subrange(from as int, to as int), max as int) == Some(
                v as int,
            ),
            None => read_number(chars@.subrange(from as int, to as int), max as int) is None,
        },
{
    let ghost s = chars@.subrange(from as int, to as int);
    let start: usize = if from < to && chars[from] == '+' {
        from + 1
    } else {
        from
    };
    let ghost digits = chars@.subrange(start as int, to as int);
    proof {
        if s.len() > 0 && s[0] == '+' {
            assert(s.skip(1) =~= digits);
        }
    }
    if start == to {
        return None;
    }
    let mut value: u128 = 0;
    let mut over: bool = false;
    let mut i: usize = start;
    while i < to
        invariant
            from <= start <= i <= to <= chars@.len(),
            s == chars@.subrange(from as int, to as int),
            digits == chars@.subrange(start as int, to as int),
            all_digits(digits.take(i - start)),
            !over ==> value == number(digits.take(i - start)) && value <= max,
            over ==> number(digits.take(i - start)) > max,
            s.len() > 0,
            digits == (if s[0] == '+' {
                s.skip(1)
            } else {
                s
            }),
            digits.len() > 0,
        decreases to - i,
    {
        let c = chars[i];
        proof {
            assert(digits[i - start] == c);
            assert(digits.take(i + 1 - start).drop_last() =~= digits.take(i - start));
            assert(digits.take(i + 1 - start).last() == c);
        }
        if c < '0' || c > '9' {
            assert(!all_digits(digits));
            return None;
        }
        proof {
            assert forall|j: int| 0 <= j < i + 1 - start implies is_digit(
                #[trigger] digits.take(i + 1 - start)[j],
            ) by {
                if j < i - start {
                    assert(is_digit(digits.take(i - start)[j]));
                }
            }
        }
        if !over {
            value = value * 10 + (c as u128 - '0' as u128);
            if value > max as u128 {
                over = true;
            }
        }
        i = i + 1;
    }
    assert(digits.take(to - start) =~= digits);
    if over {
        None
    } else {
        Some(value as u64)
    }
}

/// Whether `needle` occurs in `hay` at position `at`.
pub fn matches_at(hay: &Vec<char>, at: usize, needle: &Vec<char>) -> (found: bool)
    requires
        at <= hay@.len(),
    ensures
        found == occurs_at(hay@, at as int, needle@),
{
    let length: usize = hay.len();
    if length - at < needle.len() {
        return false;
    }
    let mut i: usize = 0;
    while i < needle.len()
        invariant
            i <= needle@.len(),
            at + needle@.len() <= length == hay@.len(),
            forall|j: int| 0 <= j < i ==> hay@[at + j] == needle@[j],
        decreases needle@.len() - i,
    {
        if hay[at + i] != needle[i] {
            proof {
                if hay@.subrange(at as int, at + needle@.len()) == needle@ {
                    assert(hay@.subrange(at as int, at + needle@.len())[i as int] == needle@[
                        i as int
                    ]);
                }
            }
            return false;
        }
        i = i + 1;
    }
    assert(hay@.subrange(at as int, at + needle@.len()) =~= needle@);
    true
}

/// Whether `needle` occurs in `hay`.
pub fn contains(hay: &str, needle: &str) -> (found: bool)
    ensures
        found == occurs(hay@, needle@),
{
    let hay_chars = characters(hay);
    let needle_chars = characters(needle);
    let mut at: usize = 0;
    while at < hay_chars.len()
        invariant
            at <= hay_chars@.len(),
            hay_chars@ == hay@,
            needle_chars@ == needle@,
            forall|j: int| 0 <= j < at ==> !occurs_at(hay@, j, needle@),
        decreases hay_chars@.len() - at,
    {
        if matches_at(&hay_chars, at, &needle_chars) {
            return true;
        }
        at = at + 1;
    }
    matches_at(&hay_chars, at, &needle_chars)
}

/// Replaces every occurrence of `from` by `to`.
pub fn replace_all(text: &str, from: &str, to: &str) -> (result: String)
    requires
        from@.len() > 0,
    ensures
        result@ == replaced(text@, from@, to@),
{
    let chars = characters(text);
    let pattern = characters(from);
    let mut result = String::new();
    let mut i: usize = 0;
    assert(text@.skip(0) =~= text@);
    assert(result@ + replaced(text@, from@, to@) =~= replaced(text@, from@, to@));
    while i < chars.len()
        invariant
            i <= chars@.len(),
            chars@ == text@,
            pattern@ == from@,
            from@.len() > 0,
            result@ + replaced(text@.skip(i as int), from@, to@) == replaced(text@, from@, to@),
        decreases chars@.len() - i,
    {
        let ghost rest = text@.skip(i as int);
        proof {
            if i + from@.len() <= text@.len() {
                assert(rest.subrange(0, from@.len() as int) =~= text@.subrange(
                    i as int,
                    i + from@.len(),
                ));
            }
        }
        let ghost before = result@;
        if matches_at(&chars, i, &pattern) {
            result.append(to);
            proof {
                let tail = replaced(rest.skip(from@.len() as int), from@, to@);
                assert(rest.skip(from@.len() as int) =~= text@.skip(i + from@.len()));
                assert(before + (to@ + tail) =~= (before + to@) + tail);
            }
            i = i + pattern.len();
        } else {
            result.append(text.substring_char(i, i + 1));
            proof {
                let tail = replaced(rest.skip(1), from@, to@);
                assert(text@.subrange(i as int, i + 1) =~= seq![rest[0]]);
                assert(rest.skip(1) =~= text@.skip(i + 1));
                assert(before + (seq![rest[0]] + tail) =~= (before + seq![rest[0]]) + tail);
            }
            i = i + 1;
        }
    }
    assert(text@.skip(i as int) =~= Seq::<char>::empty());
    assert(result@ + Seq::<char>::empty() =~= result@);
    result
}

/// Writing a number in decimal gives at least one character, all of them
/// digits, and reading it back gives the number.
pub proof fn law_decimal_reads_back(n: nat, max: int)
    requires
        n <= max,
    ensures
        decimal(n).len() > 0,
        all_digits(decimal(n)),
        read_number(decimal(n), max) == Some(n as int),
{
    lemma_decimal(n);
    assert(is_digit(decimal(n)[0]));
}

/// The digits of a number stand for it.
pub proof fn lemma_decimal(n: nat)
    ensures
        decimal(n).len() > 0,
        all_digits(decimal(n)),
        number(decimal(n)) == n,
    decreases n,
{
    if n < 10 {
        assert(decimal(n).drop_last() =~= Seq::<char>::empty());
        assert(number(decimal(n).drop_last()) == 0);
    } else {
        lemma_decimal(n / 10);
        assert(decimal(n).drop_last() =~= decimal(n / 10));
    }
}

/// Decimal text has one digit for numbers below ten, and one more digit at the end for
/// ten times as much and some.
pub proof fn law_decimal_digits(n: nat, d: nat)
    requires
        d < 10,
    ensures
        decimal(d).len() == 1,
        decimal(d)[0] as int == '0' as int + d,
        n > 0 ==> decimal(10 * n + d).drop_last() == decimal(n),
        n > 0 ==> decimal(10 * n + d).last() as int == '0' as int + d,
{
    if n > 0 {
        assert((10 * n + d) / 10 == n && (10 * n + d) % 10 == d);
        assert(decimal(10 * n + d).drop_last() =~= decimal(n));
    }
}

/// A number is read from decimal digits, which may follow a plus sign, where it is not
/// too large. Nothing is read from a text without digits or with other characters.
pub proof fn law_reading(s: Seq<char>, c: char, max: int)
    ensures
        all_digits(s) <==> forall|i: int| 0 <= i < s.len() ==> '0' <= #[trigger] s[i] <= '9',
        number(Seq::empty()) == 0,
        number(s.push(c)) == 10 * number(s) + (c as int - '0' as int),
        s.len() > 0 && all_digits(s) ==> read_number(s, max) == (if number(s) <= max {
            Some(number(s))
        } else {
            None
        }),
        all_digits(s) ==> read_number(seq!['+'] + s, max) == read_number(s, max),
        read_number(Seq::empty(), max) is None,
        forall|i: int|
            0 < i < s.len() && !('0' <= #[trigger] s[i] <= '9') ==> read_number(s, max) is None,
        s.len() > 0 && s[0] != '+' && !('0' <= s[0] <= '9') ==> read_number(s, max) is None,
{
    assert(forall|i: int| #[trigger] is_digit(s[i]) == ('0' <= s[i] <= '9'));
    assert(s.push(c).drop_last() =~= s);
    assert((seq!['+'] + s).skip(1) =~= s);
    if s.len() > 0 {
        assert(all_digits(s) ==> is_digit(s[0]));
    }
    assert forall|i: int| 0 < i < s.len() && !('0' <= #[trigger] s[i] <= '9') implies read_number(
        s,
        max,
    ) is None by {
        assert(s.skip(1)[i - 1] == s[i]);
        assert(!is_digit(s[i]));
    }
    if s.len() > 0 && s[0] != '+' && !('0' <= s[0] <= '9') {
        assert(!is_digit(s[0]));
    }
}

/// A text without the one that is looked for stays as it is.
pub proof fn law_nothing_to_replace(s: Seq<char>, from: Seq<char>, to: Seq<char>)
    requires
        from.len() > 0,
        forall|at: int|
            0 <= at && at + from.len() <= s.len() ==> #[trigger] s.subrange(at, at + from.len())
                != from,
    ensures
        replaced(s, from, to) == s,
    decreases s.len(),
{
    if s.len() > 0 {
        let rest = s.skip(1);
        assert forall|at: int| 0 <= at && at + from.len() <= rest.len() implies
            #[trigger] rest.subrange(at, at + from.len()) != from by {
            assert(rest.subrange(at, at + from.len()) =~= s.subrange(at + 1, at + 1 + from.len()));
        }
        law_nothing_to_replace(rest, from, to);
        assert(seq![s[0]] + rest =~= s);
    }
}

/// The first occurrence is replaced, what is before it stays, and the rest is treated in
/// the same way.
pub proof fn law_replaced(a: Seq<char>, from: Seq<char>, b: Seq<char>, to: Seq<char>)
    requires
        from.len() > 0,
        forall|at: int|
            0 <= at < a.len() ==> #[trigger] (a + from + b).subrange(at, at + from.len()) != from,
    ensures
        replaced(a + from + b, from, to) == a + to + replaced(b, from, to),
    decreases a.len(),
{
    let s = a + from + b;
    if a.len() == 0 {
        assert(s.subrange(0, 0int + from.len()) =~= from);
        assert(s.skip(from.len() as int) =~= b);
        assert(a + to =~= to);
    } else {
        let rest = a.skip(1);
        assert(s.subrange(0, 0int + from.len()) != from);
        assert(s.skip(1) =~= rest + from + b);
        assert forall|at: int| 0 <= at < rest.len() implies #[trigger] (rest + from + b).subrange(
            at,
            at + from.len(),
        ) != from by {
            assert((rest + from + b).subrange(at, at + from.len()) =~= s.subrange(
                at + 1,
                at + 1 + from.len(),
            ));
        }
        law_replaced(rest, from, b, to);
        assert(seq![s[0]] + (rest + to + replaced(b, from, to)) =~= a + to + replaced(
            b,
            from,
            to,
        ));
    }
}

} // verus!
