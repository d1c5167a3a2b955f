//! Text primitives shared by the encoders: comparison, joining, decimal numerals.

use vstd::prelude::*;
use vstd::string::*;
use vstd::utf8::*;

verus! {

/// Compares two string slices by their characters.
pub fn str_eq(a: &str, b: &str) -> (same: bool)
    ensures
        same == (a@ == b@),
{
    let x = a.as_bytes();
    let y = b.as_bytes();
    proof {
        encode_utf8_decode_utf8(a@);
        encode_utf8_decode_utf8(b@);
    }
    if x.len() != y.len() {
        return false;
    }
    let mut i: usize = 0;
    while i < x.len()
        invariant
            i <= x.len(),
            x.len() == y.len(),
            x@ == encode_utf8(a@),
            y@ == encode_utf8(b@),
            forall|k: int| 0 <= k < i ==> x@[k] == y@[k],
        decreases x.len() - i,
    {
        if x[i] != y[i] {
            return false;
        }
        i += 1;
    }
    assert(x@ =~= y@);
    true
}

/// The items written one after another with `sep` between neighbours.
pub open spec fn join(items: Seq<Seq<char>>, sep: Seq<char>) -> Seq<char>
    decreases items.len(),
{
    if items.len() == 0 {
        Seq::empty()
    } else if items.len() == 1 {
        items[0]
    } else {
        join(items.drop_last(), sep) + sep + items.last()
    }
}

/// Joins `items` with `sep` between neighbours.
pub fn join_strings(items: &Vec<String>, sep: &str) -> (text: String)
    ensures
        text@ == join(items.deep_view(), sep@),
{
    let mut text = String::new();
    let mut i: usize = 0;
    while i < items.len()
        invariant
            i <= items.len(),
            text@ == join(items.deep_view().take(i as int), sep@),
        decreases items.len() - i,
    {
        let ghost before = items.deep_view().take(i as int);
        let ghost after = items.deep_view().take(i + 1);
        assert(after.drop_last() =~= before);
        assert(after.last() == items[i as int]@);
        if i > 0 {
            text.append(sep);
        }
        text.append(items[i].as_str());
        i += 1;
    }
    assert(items.deep_view().take(items.len() as int) =~= items.deep_view());
    text
}

/// The marker that leads the item at position `i` of a list written with
/// leading separators: the opening bracket for the first, a comma after it.
pub open spec fn lead_marker(i: int) -> Seq<char> {
    if i == 0 {
        "["@
    } else {
        ","@
    }
}

/// The body of a list written with leading separators: one line per item,
/// each made of the indent, the item's marker, a space and the item.
pub open spec fn led_lines(indent: Seq<char>, items: Seq<Seq<char>>) -> Seq<char>
    decreases items.len(),
{
    if items.len() == 0 {
        Seq::empty()
    } else {
        led_lines(indent, items.drop_last()) + indent + lead_marker(items.len() - 1) + " "@
            + items.last() + "\n"@
    }
}

/// Writes `items` one per line, each behind the indent and its leading marker.
pub fn led_lines_of(indent: &str, items: &Vec<String>) -> (text: String)
    ensures
        text@ == led_lines(indent@, items.deep_view()),
{
    let mut text = String::new();
    let mut i: usize = 0;
    while i < items.len()
        invariant
            i <= items.len(),
            text@ == led_lines(indent@, items.deep_view().take(i as int)),
        decreases items.len() - i,
    {
        let ghost before = items.deep_view().take(i as int);
        let ghost after = items.deep_view().take(i + 1);
        assert(after.drop_last() =~= before);
        assert(after.last() == items[i as int]@);
        text.append(indent);
        if i == 0 {
            text.append("[");
        } else {
            text.append(",");
        }
        text.append(" ");
        text.append(items[i].as_str());
        text.append("\n");
        i += 1;
    }
    assert(items.deep_view().take(items.len() as int) =~= items.deep_view());
    text
}

/// The character that stands for the digit `d`.
pub open spec fn digit_char(d: int) -> char {
    if d == 0 {
        '0'
    } else if d == 1 {
        '1'
    } else if d == 2 {
        '2'
    } else if d == 3 {
        '3'
    } else if d == 4 {
        '4'
    } else if d == 5 {
        '5'
    } else if d == 6 {
        '6'
    } else if d == 7 {
        '7'
    } else if d == 8 {
        '8'
    } else {
        '9'
    }
}

/// The decimal digits of `n`, most significant first, without leading zeros.
pub open spec fn digits(n: nat) -> Seq<char>
    decreases n,
{
    if n < 10 {
        seq![digit_char(n as int)]
    } else {
        digits(n / 10).push(digit_char((n % 10) as int))
    }
}

/// The decimal numeral of `n`: a minus sign for a negative number, then the
/// digits of its magnitude.
pub open spec fn decimal(n: int) -> Seq<char> {
    if n < 0 {
        seq!['-'] + digits((-n) as nat)
    } else {
        digits(n as nat)
    }
}

fn digit_str(d: u64) -> (s: &'static str)
    requires
        d < 10,
    ensures
        s@ == seq![digit_char(d as int)],
{
    proof {
        reveal_strlit("0");
        reveal_strlit("1");
        reveal_strlit("2");
        reveal_strlit("3");
        reveal_strlit("4");
        reveal_strlit("5");
        reveal_strlit("6");
        reveal_strlit("7");
        reveal_strlit("8");
        reveal_strlit("9");
    }
    let s = if d == 0 {
        "0"
    } else if d == 1 {
        "1"
    } else if d == 2 {
        "2"
    } else if d == 3 {
        "3"
    } else if d == 4 {
        "4"
    } else if d == 5 {
        "5"
    } else if d == 6 {
        "6"
    } else if d == 7 {
        "7"
    } else if d == 8 {
        "8"
    } else {
        "9"
    };
    assert(s@ =~= seq![digit_char(d as int)]);
    s
}

fn append_digits(out: &mut String, n: u64)
    ensures
        final(out)@ == old(out)@ + digits(n as nat),
    decreases n,
{
    if n >= 10 {
        append_digits(out, n / 10);
    }
    out.append(digit_str(n % 10));
    assert(out@ =~= old(out)@ + digits(n as nat));
}

/// Writes a count as a decimal numeral.
pub fn usize_to_decimal(n: usize) -> (text: String)
    ensures
        text@ == decimal(n as int),
{
    let mut text = String::new();
    append_digits(&mut text, n as u64);
    assert(text@ =~= digits(n as nat));
    text
}

/// Writes `n` as a decimal numeral.
pub fn i32_to_decimal(n: i32) -> (text: String)
    ensures
        text@ == decimal(n as int),
{
    let mut text = String::new();
    if n < 0 {
        proof {
            reveal_strlit("-");
        }
        text.append("-");
        assert(text@ =~= seq!['-']);
        let magnitude: u64 = (-(n as i64)) as u64;
        append_digits(&mut text, magnitude);
    } else {
        append_digits(&mut text, n as u64);
        assert(text@ =~= digits(n as nat));
    }
    text
}

/// The characters of a text, in a vector.
pub fn chars_of(text: &str) -> (chars: Vec<char>)
    ensures
        chars@ == text@,
{
    let mut chars: Vec<char> = Vec::new();
    for c in it: text.chars()
        invariant
            it.seq() == text@,
            chars@ == text@.take(it.index() as int),
    {
        chars.push(c);
        assert(chars@ =~= text@.take(it.index() + 1));
    }
    assert(chars@ =~= text@);
    chars
}

/// `text` with every match of `from` replaced by `to`. Matches are taken
/// from the left and do not overlap. An empty `from` matches before every
/// character and at the end.
pub open spec fn replaced(text: Seq<char>, from: Seq<char>, to: Seq<char>) -> Seq<char>
    decreases text.len(),
{
    if text.len() == 0 {
        if from.len() == 0 {
            to
        } else {
            text
        }
    } else if from.len() == 0 {
        to + seq![text[0]] + replaced(text.drop_first(), from, to)
    } else if from.is_prefix_of(text) {
        to + replaced(text.skip(from.len() as int), from, to)
    } else {
        seq![text[0]] + replaced(text.drop_first(), from, to)
    }
}

fn matches_at(chars: &Vec<char>, at: usize, pattern: &Vec<char>) -> (found: bool)
    requires
        at <= chars.len(),
    ensures
        found == pattern@.is_prefix_of(chars@.skip(at as int)),
{
    let rest = chars.len() - at;
    if pattern.len() > rest {
        return false;
    }
    let ghost tail = chars@.skip(at as int);
    let mut k: usize = 0;
    while k < pattern.len()
        invariant
            k <= pattern.len(),
            pattern.len() <= chars.len() - at,
            at <= chars.len(),
            tail == chars@.skip(at as int),
            forall|j: int| 0 <= j < k ==> pattern@[j] == tail[j],
        decreases pattern.len() - k,
    {
        if pattern[k] != chars[at + k] {
            assert(tail[k as int] == chars@[at + k]);
            assert(tail.subrange(0, pattern@.len() as int)[k as int] != pattern@[k as int]);
            return false;
        }
        assert(tail[k as int] == chars@[at + k]);
        k += 1;
    }
    assert(pattern@ =~= tail.subrange(0, pattern@.len() as int));
    true
}

/// Replaces every match of `from` in `text` by `to`.
pub fn replace_all(text: &str, from: &str, to: &str) -> (out: String)
    ensures
        out@ == replaced(text@, from@, to@),
{
    let chars = chars_of(text);
    let pattern = chars_of(from);
    let n = chars.len();
    let mut out = String::new();
    if pattern.len() == 0 {
        let mut i: usize = 0;
        assert(text@.skip(0) =~= text@);
        while i < n
            invariant
                i <= n,
                n == text@.len(),
                from@.len() == 0,
                replaced(text@, from@, to@) == out@ + replaced(text@.skip(i as int), from@, to@),
            decreases n - i,
        {
            let ghost rest = text@.skip(i as int);
            let ghost before = out@;
            out.append(to);
            out.append(text.substring_char(i, i + 1));
            proof {
                assert(rest.drop_first() =~= text@.skip(i + 1));
                assert(text@.subrange(i as int, i + 1) =~= seq![rest[0]]);
                assert(out@ + replaced(text@.skip(i + 1), from@, to@) =~= before + replaced(
                    rest,
                    from@,
                    to@,
                ));
            }
            i += 1;
        }
        out.append(to);
        out
    } else {
        let mut start: usize = 0;
        let mut i: usize = 0;
        assert(text@.skip(0) =~= text@);
        assert(out@ + text@.subrange(0, 0) + replaced(text@, from@, to@) =~= replaced(
            text@,
            from@,
            to@,
        ));
        while i < n
            invariant
                start <= i <= n,
                n == text@.len(),
                chars@ == text@,
                pattern@ == from@,
                from@.len() > 0,
                replaced(text@, from@, to@) == out@ + text@.subrange(start as int, i as int)
                    + replaced(text@.skip(i as int), from@, to@),
            decreases n - i,
        {
            let ghost rest = text@.skip(i as int);
            let ghost before = out@;
            let ghost pending = text@.subrange(start as int, i as int);
            if matches_at(&chars, i, &pattern) {
                out.append(text.substring_char(start, i));
                out.append(to);
                proof {
                    assert(rest.skip(from@.len() as int) =~= text@.skip(i + from@.len()));
                    assert(text@.subrange(i + from@.len(), i + from@.len()) =~= Seq::<
                        char,
                    >::empty());
                    assert(out@ + text@.subrange(i + from@.len(), i + from@.len()) + replaced(
                        text@.skip(i + from@.len()),
                        from@,
                        to@,
                    ) =~= before + pending + replaced(rest, from@, to@));
                }
                i = i + pattern.len();
                start = i;
            } else {
                proof {
                    assert(rest.drop_first() =~= text@.skip(i + 1));
                    assert(text@.subrange(start as int, i + 1) =~= pending + seq![rest[0]]);
                    assert(before + text@.subrange(start as int, i + 1) + replaced(
                        text@.skip(i + 1),
                        from@,
                        to@,
                    ) =~= before + pending + replaced(rest, from@, to@));
                }
                i += 1;
            }
        }
        assert(text@.skip(n as int) =~= Seq::<char>::empty());
        out.append(text.substring_char(start, n));
        assert(out@ =~= replaced(text@, from@, to@));
        out
    }
}

/// `from` stands somewhere in `text`.
pub open spec fn occurs_in(text: Seq<char>, from: Seq<char>) -> bool {
    exists|i: int| 0 <= i <= text.len() && from.is_prefix_of(#[trigger] text.skip(i))
}

/// A text in which `from` does not stand is left as it is.
pub proof fn lemma_replaced_without_match(text: Seq<char>, from: Seq<char>, to: Seq<char>)
    requires
        from.len() > 0,
        !occurs_in(text, from),
    ensures
        replaced(text, from, to) == text,
    decreases text.len(),
{
    if text.len() > 0 {
        assert(text.skip(0) =~= text);
        let rest = text.drop_first();
        assert forall|i: int| 0 <= i <= rest.len() implies !from.is_prefix_of(
            #[trigger] rest.skip(i),
        ) by {
            assert(rest.skip(i) =~= text.skip(i + 1));
        }
        lemma_replaced_without_match(rest, from, to);
        assert(seq![text[0]] + rest =~= text);
    }
}

/// How often the character `c` stands in `s`.
pub open spec fn count_char(s: Seq<char>, c: char) -> nat
    decreases s.len(),
{
    if s.len() == 0 {
        0
    } else if s.last() == c {
        count_char(s.drop_last(), c) + 1
    } else {
        count_char(s.drop_last(), c)
    }
}

/// A character stands in two texts written one after the other as often as
/// in both together.
pub proof fn lemma_count_add(a: Seq<char>, b: Seq<char>, c: char)
    ensures
        count_char(a + b, c) == count_char(a, c) + count_char(b, c),
    decreases b.len(),
{
    if b.len() == 0 {
        assert(a + b =~= a);
    } else {
        assert((a + b).drop_last() =~= a + b.drop_last());
        assert((a + b).last() == b.last());
        lemma_count_add(a, b.drop_last(), c);
    }
}

/// Replacing a character by a text that does not hold it leaves none of it.
pub proof fn lemma_replaced_char_is_gone(text: Seq<char>, c: char, to: Seq<char>)
    requires
        count_char(to, c) == 0,
    ensures
        count_char(replaced(text, seq![c], to), c) == 0,
    decreases text.len(),
{
    let from = seq![c];
    if text.len() > 0 {
        let first = seq![text[0]];
        assert(first.drop_last() =~= Seq::<char>::empty());
        assert(count_char(first.drop_last(), c) == 0);
        if from.is_prefix_of(text) {
            let rest = text.skip(1);
            lemma_replaced_char_is_gone(rest, c, to);
            lemma_count_add(to, replaced(rest, from, to), c);
        } else {
            assert(text.subrange(0, 1) =~= first);
            assert(text[0] != c) by {
                if text[0] == c {
                    assert(from =~= text.subrange(0, 1));
                }
            }
            let rest = text.drop_first();
            lemma_replaced_char_is_gone(rest, c, to);
            lemma_count_add(first, replaced(rest, from, to), c);
        }
    }
}

/// A decimal numeral holds no line break.
pub proof fn lemma_decimal_on_one_line(n: int)
    ensures
        count_char(decimal(n), '\n') == 0,
{
    let sign = seq!['-'];
    assert(sign.drop_last() =~= Seq::<char>::empty());
    assert(count_char(sign.drop_last(), '\n') == 0);
    if n < 0 {
        lemma_digits_on_one_line((-n) as nat);
        lemma_count_add(sign, digits((-n) as nat), '\n');
    } else {
        lemma_digits_on_one_line(n as nat);
    }
}

proof fn lemma_digits_on_one_line(n: nat)
    ensures
        count_char(digits(n), '\n') == 0,
    decreases n,
{
    let s = digits(n);
    if n < 10 {
        assert(s.drop_last() =~= Seq::<char>::empty());
        assert(count_char(s.drop_last(), '\n') == 0);
    } else {
        lemma_digits_on_one_line(n / 10);
        assert(s.drop_last() =~= digits(n / 10));
    }
}

} // verus!
