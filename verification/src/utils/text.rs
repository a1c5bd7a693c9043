use vstd::prelude::*;

verus! {

/// Appends one character to a string, through `String::push` of the standard
/// library. The contract says what its documentation says: the character is
/// added at the end and nothing else changes.
#[verifier::external_body]
pub(crate) fn push_char(s: &mut String, c: char)
    ensures
        final(s)@ == old(s)@.push(c),
{
    s.push(c);
}

/// The characters of a string slice, in order.
pub fn chars_of(s: &str) -> (chars: Vec<char>)
    ensures
        chars@ == s@,
{
    let mut chars: Vec<char> = Vec::new();
    for c in it: s.chars()
        invariant
            it.seq() == s@,
            chars@ == it.seq().take(it.index()),
    {
        chars.push(c);
    }
    chars
}

/// A string made of the given characters, in order.
pub fn string_of(chars: &Vec<char>) -> (s: String)
    ensures
        s@ == chars@,
{
    let mut s: String = String::new();
    let mut i: usize = 0;
    while i < chars.len()
        invariant
            i <= chars@.len(),
            s@ == chars@.take(i as int),
        decreases chars@.len() - i,
    {
        push_char(&mut s, chars[i]);
        i = i + 1;
        assert(chars@.take(i as int) =~= chars@.take(i - 1).push(chars@[i - 1]));
    }
    assert(chars@.take(chars@.len() as int) =~= chars@);
    s
}

/// A copy of the characters from index `from` up to, not including, `to`.
pub fn copy_range(chars: &Vec<char>, from: usize, to: usize) -> (part: Vec<char>)
    requires
        from <= to <= chars@.len(),
    ensures
        part@ == chars@.subrange(from as int, to as int),
{
    let mut part: Vec<char> = Vec::new();
    let mut i: usize = from;
    while i < to
        invariant
            from <= i <= to <= chars@.len(),
            part@ == chars@.subrange(from as int, i as int),
        decreases to - i,
    {
        part.push(chars[i]);
        i = i + 1;
        assert(chars@.subrange(from as int, i as int) =~= chars@.subrange(
            from as int,
            i - 1,
        ).push(chars@[i - 1]));
    }
    part
}

/// Appends all of `tail` to `chars`.
pub fn append_chars(chars: &mut Vec<char>, tail: &Vec<char>)
    ensures
        final(chars)@ == old(chars)@ + tail@,
{
    let mut i: usize = 0;
    while i < tail.len()
        invariant
            i <= tail@.len(),
            chars@ == old(chars)@ + tail@.take(i as int),
        decreases tail@.len() - i,
    {
        chars.push(tail[i]);
        i = i + 1;
        assert(old(chars)@ + tail@.take(i as int) =~= (old(chars)@ + tail@.take(i - 1)).push(
            tail@[i - 1],
        ));
    }
    assert(tail@.take(tail@.len() as int) =~= tail@);
}

/// `count` copies of `c`.
pub open spec fn repeated(c: char, count: nat) -> Seq<char> {
    Seq::new(count, |i: int| c)
}

/// Appends `count` copies of `c` to `chars`.
pub fn append_repeated(chars: &mut Vec<char>, c: char, count: usize)
    ensures
        final(chars)@ == old(chars)@ + repeated(c, count as nat),
{
    let mut i: usize = 0;
    while i < count
        invariant
            i <= count,
            chars@ == old(chars)@ + repeated(c, i as nat),
        decreases count - i,
    {
        chars.push(c);
        i = i + 1;
        assert(old(chars)@ + repeated(c, i as nat) =~= (old(chars)@ + repeated(
            c,
            (i - 1) as nat,
        )).push(c));
    }
}

/// The character that writes the digit `d`.
pub open spec fn digit_char(d: nat) -> char {
    if d == 0 {
        '0'
    } else if d == 1 {
        '1'
    } else if d == 2 {
        '2'
    } else if d == 3 {
        '3'
    } else if d == 4 {
        '4'
    } else if d == 5 {
        '5'
    } else if d == 6 {
        '6'
    } else if d == 7 {
        '7'
    } else if d == 8 {
        '8'
    } else {
        '9'
    }
}

/// The digit that a character writes, if it is one of `0` to `9`.
pub open spec fn digit_value(c: char) -> Option<nat> {
    if c == '0' {
        Some(0)
    } else if c == '1' {
        Some(1)
    } else if c == '2' {
        Some(2)
    } else if c == '3' {
        Some(3)
    } else if c == '4' {
        Some(4)
    } else if c == '5' {
        Some(5)
    } else if c == '6' {
        Some(6)
    } else if c == '7' {
        Some(7)
    } else if c == '8' {
        Some(8)
    } else if c == '9' {
        Some(9)
    } else {
        None
    }
}

/// `n` written in decimal, most significant digit first, without padding.
pub open spec fn decimal(n: nat) -> Seq<char>
    decreases n,
{
    if n < 10 {
        seq![digit_char(n)]
    } else {
        decimal(n / 10).push(digit_char(n % 10))
    }
}

/// The number that a run of decimal digits writes; `None` for an empty run
/// and for one that holds anything but digits.
pub open spec fn decimal_value(s: Seq<char>) -> Option<nat>
    decreases s.len(),
{
    if s.len() == 0 {
        None
    } else {
        match digit_value(s.last()) {
            None => None,
            Some(d) => if s.len() == 1 {
                Some(d)
            } else {
                match decimal_value(s.drop_last()) {
                    None => None,
                    Some(high) => Some(high * 10 + d),
                }
            },
        }
    }
}

/// The decimal text of a number is as long as its digit count.
pub proof fn lemma_decimal_len(n: nat)
    ensures
        decimal(n).len() == crate::utils::number_bit_count::digit_count(n),
    decreases n,
{
    if n >= 10 {
        lemma_decimal_len(n / 10);
    }
}

/// Reading back the decimal text of a number gives that number.
pub proof fn lemma_decimal_round_trip(n: nat)
    ensures
        decimal_value(decimal(n)) == Some(n),
    decreases n,
{
    if n >= 10 {
        lemma_decimal_round_trip(n / 10);
        let text = decimal(n);
        assert(text.drop_last() =~= decimal(n / 10));
        assert(text.last() == digit_char(n % 10));
        lemma_decimal_len(n / 10);
        assert(digit_value(digit_char(n % 10)) == Some(n % 10));
    } else {
        assert(digit_value(digit_char(n)) == Some(n));
    }
}

fn digit_to_char(d: usize) -> (c: char)
    requires
        d < 10,
    ensures
        c == digit_char(d as nat),
{
    if d == 0 {
        '0'
    } else if d == 1 {
        '1'
    } else if d == 2 {
        '2'
    } else if d == 3 {
        '3'
    } else if d == 4 {
        '4'
    } else if d == 5 {
        '5'
    } else if d == 6 {
        '6'
    } else if d == 7 {
        '7'
    } else if d == 8 {
        '8'
    } else {
        '9'
    }
}

fn char_to_digit(c: char) -> (d: Option<usize>)
    ensures
        match digit_value(c) {
            None => d.is_none(),
            Some(v) => d == Some(v as usize) && v < 10,
        },
{
    if c == '0' {
        Some(0)
    } else if c == '1' {
        Some(1)
    } else if c == '2' {
        Some(2)
    } else if c == '3' {
        Some(3)
    } else if c == '4' {
        Some(4)
    } else if c == '5' {
        Some(5)
    } else if c == '6' {
        Some(6)
    } else if c == '7' {
        Some(7)
    } else if c == '8' {
        Some(8)
    } else if c == '9' {
        Some(9)
    } else {
        None
    }
}

/// Writes `n` in decimal.
pub fn decimal_chars(n: usize) -> (text: Vec<char>)
    ensures
        text@ == decimal(n as nat),
        text@.len() == crate::utils::number_bit_count::digit_count(n as nat),
{
    proof {
        lemma_decimal_len(n as nat);
    }
    // Digits come out least significant first; they are put in front of
    // what is already there.
    let mut text: Vec<char> = Vec::new();
    let mut rest: usize = n;
    while rest >= 10
        invariant
            decimal(n as nat) == decimal(rest as nat) + text@,
        decreases rest,
    {
        let c: char = digit_to_char(rest % 10);
        let ghost low = text@;
        text.insert(0, c);
        proof {
            let before = rest as nat;
            assert(text@ =~= seq![c] + low);
            assert(decimal(before) == decimal(before / 10).push(c));
            assert(decimal(before / 10).push(c) + low =~= decimal(before / 10) + text@);
        }
        rest = rest / 10;
    }
    let c: char = digit_to_char(rest);
    let ghost low = text@;
    text.insert(0, c);
    assert(text@ =~= decimal(rest as nat) + low);
    text
}

/// Reads the decimal number that `chars` writes. Fails on an empty text, on
/// any character that is no digit, and on a number too large for the
/// machine word.
pub fn parse_decimal(chars: &Vec<char>) -> (value: Option<usize>)
    ensures
        match decimal_value(chars@) {
            None => value.is_none(),
            Some(n) => if n <= usize::MAX {
                value == Some(n as usize)
            } else {
                value.is_none()
            },
        },
{
    if chars.len() == 0 {
        return None;
    }
    let mut acc: usize = 0;
    let mut i: usize = 0;
    while i < chars.len()
        invariant
            i <= chars@.len(),
            chars@.len() > 0,
            i == 0 ==> acc == 0,
            i > 0 ==> decimal_value(chars@.take(i as int)) == Some(acc as nat),
        decreases chars@.len() - i,
    {
        let ghost prefix = chars@.take(i as int);
        let ghost longer = chars@.take(i + 1);
        proof {
            assert(longer.drop_last() =~= prefix);
            assert(longer.last() == chars@[i as int]);
        }
        match char_to_digit(chars[i]) {
            None => {
                proof {
                    lemma_decimal_value_prefix(chars@, i + 1);
                }
                return None;
            },
            Some(d) => {
                if acc > (usize::MAX - d) / 10 {
                    proof {
                        assert(acc * 10 + d > usize::MAX);
                        assert(decimal_value(longer) == Some((acc * 10 + d) as nat));
                        lemma_decimal_value_grows(chars@, i + 1);
                    }
                    return None;
                }
                acc = acc * 10 + d;
            },
        }
        i = i + 1;
    }
    assert(chars@.take(chars@.len() as int) =~= chars@);
    Some(acc)
}

/// A text is a number only if each of its prefixes is one.
pub proof fn lemma_decimal_value_prefix(s: Seq<char>, k: int)
    requires
        0 < k <= s.len(),
        decimal_value(s.take(k)).is_none(),
    ensures
        decimal_value(s).is_none(),
    decreases s.len(),
{
    if k < s.len() {
        assert(s.drop_last().take(k) =~= s.take(k));
        lemma_decimal_value_prefix(s.drop_last(), k);
    } else {
        assert(s.take(k) =~= s);
    }
}

/// The number that a text writes is at least the number that any of its
/// prefixes writes.
pub proof fn lemma_decimal_value_grows(s: Seq<char>, k: int)
    requires
        0 < k <= s.len(),
    ensures
        match (decimal_value(s.take(k)), decimal_value(s)) {
            (Some(low), Some(all)) => low <= all,
            _ => true,
        },
    decreases s.len(),
{
    if k < s.len() {
        assert(s.drop_last().take(k) =~= s.take(k));
        lemma_decimal_value_grows(s.drop_last(), k);
    } else {
        assert(s.take(k) =~= s);
    }
}

/// The lines joined into one text, with a carriage return and a line feed
/// between each two.
pub open spec fn joined(lines: Seq<Seq<char>>) -> Seq<char>
    decreases lines.len(),
{
    if lines.len() == 0 {
        Seq::empty()
    } else if lines.len() == 1 {
        lines[0]
    } else {
        joined(lines.drop_last()) + seq!['\r', '\n'] + lines.last()
    }
}

/// The index of the first `c` in `s`, or the length of `s` where it holds
/// none.
pub open spec fn index_of(s: Seq<char>, c: char) -> int
    decreases s.len(),
{
    if s.len() == 0 || s[0] == c {
        0
    } else {
        1 + index_of(s.drop_first(), c)
    }
}

/// The index that `index_of` gives lies in the text or just behind it; no
/// `c` stands before it, and one stands at it unless it is the end.
pub proof fn lemma_index_of(s: Seq<char>, c: char)
    ensures
        0 <= index_of(s, c) <= s.len(),
        forall|i: int| 0 <= i < index_of(s, c) ==> s[i] != c,
        index_of(s, c) < s.len() ==> s[index_of(s, c)] == c,
    decreases s.len(),
{
    if s.len() > 0 && s[0] != c {
        let rest = s.drop_first();
        lemma_index_of(rest, c);
        assert forall|i: int| 0 <= i < index_of(s, c) implies s[i] != c by {
            if i > 0 {
                assert(s[i] == rest[i - 1]);
            }
        }
    }
}

/// Where no `c` stands before index `at` and one stands at it, or `at` is
/// the end, `at` is what `index_of` gives.
pub proof fn lemma_index_of_at(s: Seq<char>, c: char, at: int)
    requires
        0 <= at <= s.len(),
        at < s.len() ==> s[at] == c,
        forall|i: int| 0 <= i < at ==> s[i] != c,
    ensures
        index_of(s, c) == at,
    decreases at,
{
    if at > 0 {
        let rest = s.drop_first();
        assert forall|i: int| 0 <= i < at - 1 implies rest[i] != c by {
            assert(rest[i] == s[i + 1]);
        }
        lemma_index_of_at(rest, c, at - 1);
    }
}

/// Finds the first `c` in `chars` at or after `from`; gives the length of
/// `chars` where there is none.
pub fn find_char(chars: &Vec<char>, from: usize, c: char) -> (at: usize)
    requires
        from <= chars@.len(),
    ensures
        at == from + index_of(chars@.skip(from as int), c),
        from <= at <= chars@.len(),
{
    let mut at: usize = from;
    proof {
        lemma_index_of(chars@.skip(from as int), c);
    }
    while at < chars.len() && chars[at] != c
        invariant
            from <= at <= chars@.len(),
            at + index_of(chars@.skip(at as int), c) == from + index_of(
                chars@.skip(from as int),
                c,
            ),
        decreases chars@.len() - at,
    {
        assert(chars@.skip(at as int).drop_first() =~= chars@.skip(at + 1));
        at = at + 1;
    }
    at
}

/// A line without the carriage return at its end, if it has one.
pub open spec fn without_cr(line: Seq<char>) -> Seq<char> {
    if line.len() > 0 && line.last() == '\r' {
        line.drop_last()
    } else {
        line
    }
}

/// The lines of a text. A line ends at a line feed, which is not part of
/// it, nor is a carriage return right before the line feed. What stands
/// behind the last line feed is a line too, unless it is empty.
pub open spec fn lines_of(s: Seq<char>) -> Seq<Seq<char>>
    decreases s.len(),
{
    if s.len() == 0 {
        Seq::empty()
    } else {
        let at = index_of(s, '\n');
        if at < 0 || at >= s.len() {
            seq![s]
        } else {
            seq![without_cr(s.take(at))] + lines_of(s.skip(at + 1))
        }
    }
}

/// The texts that the vectors hold.
pub open spec fn views(lines: Seq<Vec<char>>) -> Seq<Seq<char>> {
    lines.map_values(|line: Vec<char>| line@)
}

/// Splits a text into its lines.
pub fn split_lines(chars: &Vec<char>) -> (lines: Vec<Vec<char>>)
    ensures
        views(lines@) == lines_of(chars@),
{
    let mut lines: Vec<Vec<char>> = Vec::new();
    let mut start: usize = 0;
    assert(chars@.skip(0) =~= chars@);
    assert(views(lines@) =~= Seq::<Seq<char>>::empty());
    while start < chars.len()
        invariant
            start <= chars@.len(),
            lines_of(chars@) == views(lines@) + lines_of(chars@.skip(start as int)),
        decreases chars@.len() - start,
    {
        let ghost rest = chars@.skip(start as int);
        let ghost before = views(lines@);
        let at = find_char(chars, start, '\n');
        proof {
            lemma_index_of(rest, '\n');
        }
        if at >= chars.len() {
            let line = copy_range(chars, start, chars.len());
            assert(line@ =~= rest);
            lines.push(line);
            assert(views(lines@) =~= before.push(rest));
            start = chars.len();
            assert(lines_of(chars@.skip(start as int)) =~= Seq::<Seq<char>>::empty());
            assert(lines_of(rest) =~= seq![rest]);
        } else {
            let mut end: usize = at;
            if end > start && chars[end - 1] == '\r' {
                end = end - 1;
            }
            let line = copy_range(chars, start, end);
            assert(rest.take(at - start) =~= chars@.subrange(start as int, at as int));
            assert(line@ =~= without_cr(rest.take(at - start)));
            lines.push(line);
            assert(views(lines@) =~= before.push(without_cr(rest.take(at - start))));
            assert(rest.skip(at - start + 1) =~= chars@.skip(at + 1));
            start = at + 1;
        }
    }
    assert(lines_of(chars@.skip(start as int)) =~= Seq::<Seq<char>>::empty());
    lines
}

} // verus!
