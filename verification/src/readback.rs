//! Reading a list of errata back from its literal. The reader takes blanks
//! and line breaks as layout and ignores them wherever they stand, so the
//! one-line and the several-line form of a list read alike.

use vstd::prelude::*;
use crate::encode::{errata_text, errata_texts, erratas_inline, erratas_multiline, erratas_text};
use crate::model::ErrataModel;
use crate::text::{decimal, digit_char, digits, join, lead_marker, led_lines};

verus! {

/// A character of layout: a blank or a line break.
pub open spec fn is_blank(c: char) -> bool {
    c == ' ' || c == '\n'
}

/// The text without its characters of layout.
pub open spec fn strip_blanks(s: Seq<char>) -> Seq<char>
    decreases s.len(),
{
    if s.len() == 0 {
        s
    } else if is_blank(s.last()) {
        strip_blanks(s.drop_last())
    } else {
        strip_blanks(s.drop_last()).push(s.last())
    }
}

/// The digit that a character stands for, if it is a decimal digit.
pub open spec fn digit_value(c: char) -> Option<nat> {
    if c == '0' {
        Some(0)
    } else if c == '1' {
        Some(1)
    } else if c == '2' {
        Some(2)
    } else if c == '3' {
        Some(3)
    } else if c == '4' {
        Some(4)
    } else if c == '5' {
        Some(5)
    } else if c == '6' {
        Some(6)
    } else if c == '7' {
        Some(7)
    } else if c == '8' {
        Some(8)
    } else if c == '9' {
        Some(9)
    } else {
        None
    }
}

/// Reads digits from the front of `s` for as long as there are any, on top
/// of the number `acc` read so far; gives the number and the text left.
pub open spec fn read_digits(s: Seq<char>, acc: nat) -> (nat, Seq<char>)
    decreases s.len(),
{
    if s.len() > 0 && digit_value(s[0]) is Some {
        read_digits(s.drop_first(), acc * 10 + digit_value(s[0]).unwrap())
    } else {
        (acc, s)
    }
}

/// Reads a natural number, of one digit at least, from the front of `s`.
pub open spec fn read_natural(s: Seq<char>) -> Option<(nat, Seq<char>)> {
    if s.len() > 0 && digit_value(s[0]) is Some {
        Some(read_digits(s, 0))
    } else {
        None
    }
}

/// Reads a decimal numeral, with a minus sign or without, from the front of
/// `s`; gives the number and the text left.
pub open spec fn read_number(s: Seq<char>) -> Option<(int, Seq<char>)> {
    if s.len() > 0 && s[0] == '-' {
        match read_natural(s.drop_first()) {
            Some((n, rest)) => Some((-(n as int), rest)),
            None => None,
        }
    } else {
        match read_natural(s) {
            Some((n, rest)) => Some((n as int, rest)),
            None => None,
        }
    }
}

/// Takes `token` from the front of `s`; gives the text left.
pub open spec fn expect(s: Seq<char>, token: Seq<char>) -> Option<Seq<char>> {
    if token.is_prefix_of(s) {
        Some(s.skip(token.len() as int))
    } else {
        None
    }
}

/// Reads the number of the field `label` (the label with what stands before
/// it and the equals sign after it) from the front of `s`.
pub open spec fn read_field(s: Seq<char>, label: Seq<char>) -> Option<(int, Seq<char>)> {
    match expect(s, label) {
        Some(rest) => read_number(rest),
        None => None,
    }
}

/// Reads one erratum's record from the front of `s`.
pub open spec fn read_errata(s: Seq<char>) -> Option<(ErrataModel, Seq<char>)> {
    match read_field(s, "{line="@) {
        Some((line, s1)) => match read_field(s1, ",start="@) {
            Some((start, s2)) => match read_field(s2, ",end="@) {
                Some((end, s3)) => match expect(s3, "}"@) {
                    Some(rest) => Some((ErrataModel { line, start, end }, rest)),
                    None => None,
                },
                None => None,
            },
            None => None,
        },
        None => None,
    }
}

/// Reads what follows a record in a list: the closing bracket, or a comma,
/// a record and what follows that one. Gives the records read and the text
/// left behind the closing bracket.
pub open spec fn read_more(s: Seq<char>) -> Option<(Seq<ErrataModel>, Seq<char>)>
    decreases s.len(),
{
    if s.len() == 0 {
        None
    } else if s[0] == ']' {
        Some((Seq::empty(), s.drop_first()))
    } else if s[0] == ',' {
        match read_errata(s.drop_first()) {
            Some((errata, rest)) => if rest.len() < s.len() {
                match read_more(rest) {
                    Some((more, end)) => Some((seq![errata] + more, end)),
                    None => None,
                }
            } else {
                None
            },
            None => None,
        }
    } else {
        None
    }
}

/// Reads a record and what follows it in a list.
pub open spec fn read_items(s: Seq<char>) -> Option<(Seq<ErrataModel>, Seq<char>)> {
    match read_errata(s) {
        Some((errata, rest)) => match read_more(rest) {
            Some((more, end)) => Some((seq![errata] + more, end)),
            None => None,
        },
        None => None,
    }
}

/// Reads a list of records that holds no layout: the empty list, or the
/// records between brackets with commas between them, and nothing after.
pub open spec fn read_list(s: Seq<char>) -> Option<Seq<ErrataModel>> {
    match expect(s, "["@) {
        Some(inner) => if inner.len() > 0 && inner[0] == ']' {
            if inner.len() == 1 {
                Some(Seq::empty())
            } else {
                None
            }
        } else {
            match read_items(inner) {
                Some((erratas, end)) => if end.len() == 0 {
                    Some(erratas)
                } else {
                    None
                },
                None => None,
            }
        },
        None => None,
    }
}

/// Reads a list of errata back from its literal, whatever its layout.
pub open spec fn read_erratas(text: Seq<char>) -> Option<Seq<ErrataModel>> {
    read_list(strip_blanks(text))
}

/// One erratum's record without layout.
pub open spec fn compact_errata(errata: ErrataModel) -> Seq<char> {
    "{line="@ + decimal(errata.line) + ",start="@ + decimal(errata.start) + ",end="@ + decimal(
        errata.end,
    ) + "}"@
}

/// The records of the errata without layout, in their order.
pub open spec fn compact_erratas(erratas: Seq<ErrataModel>) -> Seq<Seq<char>> {
    Seq::new(erratas.len(), |i: int| compact_errata(erratas[i]))
}

/// Stripping layout from two texts written one after the other strips each.
pub proof fn lemma_strip_add(a: Seq<char>, b: Seq<char>)
    ensures
        strip_blanks(a + b) == strip_blanks(a) + strip_blanks(b),
    decreases b.len(),
{
    if b.len() == 0 {
        assert(a + b =~= a);
        assert(strip_blanks(a) + strip_blanks(b) =~= strip_blanks(a));
    } else {
        assert((a + b).drop_last() =~= a + b.drop_last());
        assert((a + b).last() == b.last());
        lemma_strip_add(a, b.drop_last());
        if !is_blank(b.last()) {
            assert(strip_blanks(a + b) =~= strip_blanks(a) + strip_blanks(b));
        }
    }
}

/// A digit's character is no layout and stands for that digit.
pub proof fn lemma_digit_char(d: int)
    requires
        0 <= d < 10,
    ensures
        !is_blank(digit_char(d)),
        digit_value(digit_char(d)) == Some(d as nat),
        digit_char(d) != '-',
{
}

/// The digits of a number hold no layout.
pub proof fn lemma_strip_digits(n: nat)
    ensures
        strip_blanks(digits(n)) == digits(n),
    decreases n,
{
    if n < 10 {
        lemma_digit_char(n as int);
        let s = digits(n);
        assert(s.drop_last() =~= Seq::<char>::empty());
        assert(strip_blanks(s.drop_last()) =~= Seq::<char>::empty());
        assert(strip_blanks(s) =~= s);
    } else {
        lemma_digit_char((n % 10) as int);
        lemma_strip_digits(n / 10);
        let s = digits(n);
        assert(s.drop_last() =~= digits(n / 10));
        assert(strip_blanks(s) =~= s);
    }
}

/// A decimal numeral holds no layout.
pub proof fn lemma_strip_decimal(n: int)
    ensures
        strip_blanks(decimal(n)) == decimal(n),
{
    if n < 0 {
        let sign = seq!['-'];
        assert(sign.drop_last() =~= Seq::<char>::empty());
        assert(strip_blanks(sign.drop_last()) =~= Seq::<char>::empty());
        assert(strip_blanks(sign) =~= sign);
        lemma_strip_digits((-n) as nat);
        lemma_strip_add(sign, digits((-n) as nat));
    } else {
        lemma_strip_digits(n as nat);
    }
}

proof fn lemma_strip_bracket_open_blank()
    ensures
        strip_blanks("[ "@) == "["@,
{
    reveal_strlit("[ ");
    reveal_strlit("[");
    reveal_with_fuel(strip_blanks, 3);
    assert(strip_blanks("[ "@) =~= "["@);
}

proof fn lemma_strip_blank_bracket_close()
    ensures
        strip_blanks(" ]"@) == "]"@,
{
    reveal_strlit(" ]");
    reveal_strlit("]");
    reveal_with_fuel(strip_blanks, 3);
    assert(strip_blanks(" ]"@) =~= "]"@);
}

proof fn lemma_strip_comma_blank()
    ensures
        strip_blanks(", "@) == ","@,
{
    reveal_strlit(", ");
    reveal_strlit(",");
    reveal_with_fuel(strip_blanks, 3);
    assert(strip_blanks(", "@) =~= ","@);
}

proof fn lemma_strip_line_label()
    ensures
        strip_blanks("{ line = "@) == "{line="@,
{
    reveal_strlit("{ line = ");
    reveal_strlit("{line=");
    reveal_with_fuel(strip_blanks, 10);
    assert(strip_blanks("{ line = "@) =~= "{line="@);
}

proof fn lemma_strip_start_label()
    ensures
        strip_blanks(", start = "@) == ",start="@,
{
    reveal_strlit(", start = ");
    reveal_strlit(",start=");
    reveal_with_fuel(strip_blanks, 11);
    assert(strip_blanks(", start = "@) =~= ",start="@);
}

proof fn lemma_strip_end_label()
    ensures
        strip_blanks(", end = "@) == ",end="@,
{
    reveal_strlit(", end = ");
    reveal_strlit(",end=");
    reveal_with_fuel(strip_blanks, 9);
    assert(strip_blanks(", end = "@) =~= ",end="@);
}

proof fn lemma_strip_brace_close()
    ensures
        strip_blanks(" }"@) == "}"@,
{
    reveal_strlit(" }");
    reveal_strlit("}");
    reveal_with_fuel(strip_blanks, 3);
    assert(strip_blanks(" }"@) =~= "}"@);
}

proof fn lemma_strip_indented_bracket_close()
    ensures
        strip_blanks("      ]"@) == "]"@,
{
    reveal_strlit("      ]");
    reveal_strlit("]");
    reveal_with_fuel(strip_blanks, 8);
    assert(strip_blanks("      ]"@) =~= "]"@);
}

proof fn lemma_strip_layout()
    ensures
        strip_blanks("\n"@) == Seq::<char>::empty(),
        strip_blanks(" "@) == Seq::<char>::empty(),
        strip_blanks("      "@) == Seq::<char>::empty(),
{
    reveal_strlit("\n");
    reveal_strlit(" ");
    reveal_strlit("      ");
    reveal_with_fuel(strip_blanks, 8);
    assert(strip_blanks("\n"@) =~= Seq::<char>::empty());
    assert(strip_blanks(" "@) =~= Seq::<char>::empty());
    assert(strip_blanks("      "@) =~= Seq::<char>::empty());
}

proof fn lemma_strip_markers()
    ensures
        strip_blanks("["@) == "["@,
        strip_blanks(","@) == ","@,
        strip_blanks("[]"@) == "["@ + "]"@,
{
    reveal_strlit("[");
    reveal_strlit(",");
    reveal_strlit("]");
    reveal_strlit("[]");
    reveal_with_fuel(strip_blanks, 4);
    assert(strip_blanks("["@) =~= "["@);
    assert(strip_blanks(","@) =~= ","@);
    assert(strip_blanks("[]"@) =~= "["@ + "]"@);
}

/// Stripping layout from an erratum's literal gives its compact record.
pub proof fn lemma_strip_errata(errata: ErrataModel)
    ensures
        strip_blanks(errata_text(errata)) == compact_errata(errata),
{
    let line = decimal(errata.line);
    let start = decimal(errata.start);
    let end = decimal(errata.end);
    let t1 = "{ line = "@ + line;
    let t2 = t1 + ", start = "@;
    let t3 = t2 + start;
    let t4 = t3 + ", end = "@;
    let t5 = t4 + end;
    lemma_strip_line_label();
    lemma_strip_start_label();
    lemma_strip_end_label();
    lemma_strip_brace_close();
    lemma_strip_decimal(errata.line);
    lemma_strip_decimal(errata.start);
    lemma_strip_decimal(errata.end);
    lemma_strip_add("{ line = "@, line);
    lemma_strip_add(t1, ", start = "@);
    lemma_strip_add(t2, start);
    lemma_strip_add(t3, ", end = "@);
    lemma_strip_add(t4, end);
    lemma_strip_add(t5, " }"@);
}

/// Stripping layout from errata joined on one line joins their compact
/// records with bare commas.
pub proof fn lemma_strip_joined(erratas: Seq<ErrataModel>)
    ensures
        strip_blanks(join(errata_texts(erratas), ", "@)) == join(compact_erratas(erratas), ","@),
    decreases erratas.len(),
{
    let texts = errata_texts(erratas);
    let compact = compact_erratas(erratas);
    if erratas.len() == 0 {
    } else if erratas.len() == 1 {
        lemma_strip_errata(erratas[0]);
    } else {
        let front = erratas.drop_last();
        assert(texts.drop_last() =~= errata_texts(front));
        assert(compact.drop_last() =~= compact_erratas(front));
        lemma_strip_joined(front);
        lemma_strip_errata(erratas.last());
        lemma_strip_comma_blank();
        lemma_strip_add(join(texts.drop_last(), ", "@), ", "@);
        lemma_strip_add(join(texts.drop_last(), ", "@) + ", "@, texts.last());
    }
}

/// Stripping layout from errata written one per line behind leading markers
/// gives the opening bracket and their compact records with bare commas
/// between them.
pub proof fn lemma_strip_led_lines(erratas: Seq<ErrataModel>)
    requires
        erratas.len() >= 1,
    ensures
        strip_blanks(led_lines("      "@, errata_texts(erratas))) == "["@ + join(
            compact_erratas(erratas),
            ","@,
        ),
    decreases erratas.len(),
{
    let texts = errata_texts(erratas);
    let compact = compact_erratas(erratas);
    let front = erratas.drop_last();
    let head = led_lines("      "@, texts.drop_last());
    let marker = lead_marker(texts.len() - 1);
    let t1 = head + "      "@;
    let t2 = t1 + marker;
    let t3 = t2 + " "@;
    let t4 = t3 + texts.last();
    assert(texts.drop_last() =~= errata_texts(front));
    assert(compact.drop_last() =~= compact_erratas(front));
    lemma_strip_layout();
    lemma_strip_markers();
    lemma_strip_errata(erratas.last());
    lemma_strip_add(head, "      "@);
    lemma_strip_add(t1, marker);
    lemma_strip_add(t2, " "@);
    lemma_strip_add(t3, texts.last());
    lemma_strip_add(t4, "\n"@);
    if erratas.len() == 1 {
        assert(strip_blanks(head) =~= Seq::<char>::empty());
        assert(strip_blanks(led_lines("      "@, texts)) =~= "["@ + compact[0]);
    } else {
        lemma_strip_led_lines(front);
        assert(strip_blanks(led_lines("      "@, texts)) =~= "["@ + join(compact, ","@));
    }
}

/// The text that every layout of a list of errata comes down to: the
/// compact records between brackets, with bare commas between them.
pub open spec fn compact_list(erratas: Seq<ErrataModel>) -> Seq<char> {
    "["@ + join(compact_erratas(erratas), ","@) + "]"@
}

/// Stripping layout from the one-line form gives the compact list.
pub proof fn lemma_strip_inline(erratas: Seq<ErrataModel>)
    ensures
        strip_blanks(erratas_inline(erratas)) == compact_list(erratas),
{
    let texts = errata_texts(erratas);
    if erratas.len() == 0 {
        lemma_strip_markers();
        assert(compact_list(erratas) =~= "["@ + "]"@);
    } else {
        lemma_strip_bracket_open_blank();
        lemma_strip_blank_bracket_close();
        lemma_strip_joined(erratas);
        lemma_strip_add("[ "@, join(texts, ", "@));
        lemma_strip_add("[ "@ + join(texts, ", "@), " ]"@);
    }
}

/// Stripping layout from the several-line form gives the compact list.
pub proof fn lemma_strip_multiline(erratas: Seq<ErrataModel>)
    requires
        erratas.len() >= 1,
    ensures
        strip_blanks(erratas_multiline(erratas)) == compact_list(erratas),
{
    let lines = led_lines("      "@, errata_texts(erratas));
    lemma_strip_layout();
    lemma_strip_indented_bracket_close();
    lemma_strip_led_lines(erratas);
    lemma_strip_add("\n"@, lines);
    lemma_strip_add("\n"@ + lines, "      ]"@);
    assert(strip_blanks(erratas_multiline(erratas)) =~= compact_list(erratas));
}

/// Every character of `s` is a decimal digit.
pub open spec fn all_digits(s: Seq<char>) -> bool {
    forall|i: int| 0 <= i < s.len() ==> digit_value(#[trigger] s[i]) is Some
}

/// The number that the digits `s` denote on top of the number `acc`.
pub open spec fn digits_value(s: Seq<char>, acc: nat) -> nat
    decreases s.len(),
{
    if s.len() == 0 {
        acc
    } else {
        digits_value(s.drop_first(), acc * 10 + digit_value(s[0]).unwrap())
    }
}

proof fn lemma_read_digits_through(ds: Seq<char>, acc: nat, rest: Seq<char>)
    requires
        all_digits(ds),
    ensures
        read_digits(ds + rest, acc) == read_digits(rest, digits_value(ds, acc)),
    decreases ds.len(),
{
    if ds.len() == 0 {
        assert(ds + rest =~= rest);
    } else {
        let s = ds + rest;
        assert(s[0] == ds[0]);
        assert(s.drop_first() =~= ds.drop_first() + rest);
        assert forall|i: int| 0 <= i < ds.drop_first().len() implies digit_value(
            #[trigger] ds.drop_first()[i],
        ) is Some by {
            assert(ds.drop_first()[i] == ds[i + 1]);
        }
        lemma_read_digits_through(
            ds.drop_first(),
            acc * 10 + digit_value(ds[0]).unwrap(),
            rest,
        );
    }
}

proof fn lemma_digits_value_push(ds: Seq<char>, c: char, acc: nat)
    requires
        digit_value(c) is Some,
    ensures
        digits_value(ds.push(c), acc) == digits_value(ds, acc) * 10 + digit_value(c).unwrap(),
    decreases ds.len(),
{
    let s = ds.push(c);
    if ds.len() == 0 {
        assert(s.drop_first() =~= Seq::<char>::empty());
        assert(digits_value(s.drop_first(), acc * 10 + digit_value(c).unwrap()) == acc * 10
            + digit_value(c).unwrap());
    } else {
        assert(s[0] == ds[0]);
        assert(s.drop_first() =~= ds.drop_first().push(c));
        lemma_digits_value_push(ds.drop_first(), c, acc * 10 + digit_value(ds[0]).unwrap());
    }
}

/// The digits of a number are digits, and denote that number.
pub proof fn lemma_digits_denote(n: nat)
    ensures
        digits(n).len() >= 1,
        all_digits(digits(n)),
        digits_value(digits(n), 0) == n,
    decreases n,
{
    if n < 10 {
        lemma_digit_char(n as int);
        let s = digits(n);
        assert(s.drop_first() =~= Seq::<char>::empty());
        assert(digits_value(s.drop_first(), n) == n);
    } else {
        lemma_digit_char((n % 10) as int);
        lemma_digits_denote(n / 10);
        lemma_digits_value_push(digits(n / 10), digit_char((n % 10) as int), 0);
    }
}

/// A number's digits read back as that number, up to the first character
/// that is no digit.
pub proof fn lemma_read_natural(n: nat, rest: Seq<char>)
    requires
        rest.len() == 0 || digit_value(rest[0]) is None,
    ensures
        read_natural(digits(n) + rest) == Some((n, rest)),
{
    lemma_digits_denote(n);
    lemma_read_digits_through(digits(n), 0, rest);
    assert((digits(n) + rest)[0] == digits(n)[0]);
}

/// A decimal numeral reads back as its number, up to the first character
/// that is no digit.
pub proof fn lemma_read_number(n: int, rest: Seq<char>)
    requires
        rest.len() == 0 || digit_value(rest[0]) is None,
    ensures
        read_number(decimal(n) + rest) == Some((n, rest)),
{
    let s = decimal(n) + rest;
    if n < 0 {
        let m = (-n) as nat;
        assert(s[0] == '-');
        assert(s.drop_first() =~= digits(m) + rest);
        lemma_read_natural(m, rest);
    } else {
        lemma_digits_denote(n as nat);
        lemma_digit_char_of_digit(digits(n as nat)[0]);
        assert(s[0] == digits(n as nat)[0]);
        lemma_read_natural(n as nat, rest);
    }
}

proof fn lemma_digit_char_of_digit(c: char)
    requires
        digit_value(c) is Some,
    ensures
        c != '-',
{
}

proof fn lemma_expect(token: Seq<char>, rest: Seq<char>)
    ensures
        expect(token + rest, token) == Some(rest),
{
    let s = token + rest;
    assert(s.subrange(0, token.len() as int) =~= token);
    assert(s.skip(token.len() as int) =~= rest);
}

proof fn lemma_read_field(label: Seq<char>, n: int, rest: Seq<char>)
    requires
        rest.len() == 0 || digit_value(rest[0]) is None,
    ensures
        read_field(label + (decimal(n) + rest), label) == Some((n, rest)),
{
    lemma_expect(label, decimal(n) + rest);
    lemma_read_number(n, rest);
}

/// A compact record reads back as its erratum, whatever follows it.
pub proof fn lemma_read_errata(errata: ErrataModel, rest: Seq<char>)
    ensures
        read_errata(compact_errata(errata) + rest) == Some((errata, rest)),
{
    let line = decimal(errata.line);
    let start = decimal(errata.start);
    let end = decimal(errata.end);
    let s3 = "}"@ + rest;
    let s2 = ",end="@ + (end + s3);
    let s1 = ",start="@ + (start + s2);
    let s0 = "{line="@ + (line + s1);
    assert(compact_errata(errata) + rest =~= s0);
    reveal_strlit("}");
    reveal_strlit(",end=");
    reveal_strlit(",start=");
    assert(s3[0] == '}');
    assert(s2[0] == ',');
    assert(s1[0] == ',');
    lemma_read_field("{line="@, errata.line, s1);
    lemma_read_field(",start="@, errata.start, s2);
    lemma_read_field(",end="@, errata.end, s3);
    lemma_expect("}"@, rest);
}

proof fn lemma_compact_errata_starts(errata: ErrataModel)
    ensures
        compact_errata(errata).len() > 0,
        compact_errata(errata)[0] == '{',
{
    reveal_strlit("{line=");
}

proof fn lemma_join_starts(items: Seq<Seq<char>>, sep: Seq<char>)
    requires
        items.len() >= 1,
        items[0].len() > 0,
    ensures
        join(items, sep).len() > 0,
        join(items, sep)[0] == items[0][0],
    decreases items.len(),
{
    if items.len() > 1 {
        lemma_join_starts(items.drop_last(), sep);
    }
}

proof fn lemma_read_more_step(
    errata: ErrataModel,
    rest: Seq<char>,
    more: Seq<ErrataModel>,
    end: Seq<char>,
)
    requires
        read_more(rest) == Some((more, end)),
    ensures
        read_more(","@ + (compact_errata(errata) + rest)) == Some((seq![errata] + more, end)),
{
    let tail = ","@ + (compact_errata(errata) + rest);
    reveal_strlit(",");
    assert(tail.len() == 1 + compact_errata(errata).len() + rest.len());
    assert(tail[0] == ',');
    assert(tail.drop_first() =~= compact_errata(errata) + rest);
    lemma_read_errata(errata, rest);
}

proof fn lemma_read_first(
    errata: ErrataModel,
    rest: Seq<char>,
    more: Seq<ErrataModel>,
    end: Seq<char>,
)
    requires
        read_more(rest) == Some((more, end)),
    ensures
        read_items(compact_errata(errata) + rest) == Some((seq![errata] + more, end)),
{
    lemma_read_errata(errata, rest);
}

proof fn lemma_join_last(items: Seq<Seq<char>>, sep: Seq<char>, rest: Seq<char>)
    requires
        items.len() >= 2,
    ensures
        join(items, sep) + rest == join(items.drop_last(), sep) + (sep + (items.last() + rest)),
{
    assert(join(items, sep) + rest =~= join(items.drop_last(), sep) + (sep + (items.last()
        + rest)));
}

proof fn lemma_read_items(
    erratas: Seq<ErrataModel>,
    rest: Seq<char>,
    more: Seq<ErrataModel>,
    end: Seq<char>,
)
    requires
        erratas.len() >= 1,
        read_more(rest) == Some((more, end)),
    ensures
        read_items(join(compact_erratas(erratas), ","@) + rest) == Some((erratas + more, end)),
    decreases erratas.len(),
{
    let compact = compact_erratas(erratas);
    if erratas.len() == 1 {
        assert(join(compact, ","@) == compact_errata(erratas[0]));
        lemma_read_first(erratas[0], rest, more, end);
        assert(seq![erratas[0]] + more =~= erratas + more);
    } else {
        let front = erratas.drop_last();
        let last = erratas.last();
        let tail = ","@ + (compact_errata(last) + rest);
        assert(compact.last() == compact_errata(last));
        assert(compact.drop_last() =~= compact_erratas(front));
        lemma_read_more_step(last, rest, more, end);
        lemma_read_items(front, tail, seq![last] + more, end);
        lemma_join_last(compact, ","@, rest);
        assert(front + (seq![last] + more) =~= erratas + more);
    }
}

/// The compact list reads back as the errata it was written from.
pub proof fn lemma_read_compact_list(erratas: Seq<ErrataModel>)
    ensures
        read_list(compact_list(erratas)) == Some(erratas),
{
    let compact = compact_erratas(erratas);
    let inner = join(compact, ","@) + "]"@;
    reveal_strlit("]");
    assert(compact_list(erratas) =~= "["@ + inner);
    lemma_expect("["@, inner);
    if erratas.len() == 0 {
        assert(inner =~= "]"@);
        assert(erratas =~= Seq::<ErrataModel>::empty());
    } else {
        lemma_compact_errata_starts(erratas[0]);
        lemma_join_starts(compact, ","@);
        assert(inner[0] == '{');
        assert("]"@.drop_first() =~= Seq::<char>::empty());
        assert(read_more("]"@) == Some((Seq::<ErrataModel>::empty(), Seq::<char>::empty())));
        lemma_read_items(erratas, "]"@, Seq::empty(), Seq::empty());
        assert(erratas + Seq::<ErrataModel>::empty() =~= erratas);
    }
}

/// A list of errata written on one line reads back as the same errata, in
/// the same order.
pub proof fn law_inline_erratas_read_back(erratas: Seq<ErrataModel>)
    ensures
        read_erratas(erratas_inline(erratas)) == Some(erratas),
{
    lemma_strip_inline(erratas);
    lemma_read_compact_list(erratas);
}

/// A list of errata written over several lines reads back as the same
/// errata, in the same order.
pub proof fn law_multiline_erratas_read_back(erratas: Seq<ErrataModel>)
    requires
        erratas.len() >= 1,
    ensures
        read_erratas(erratas_multiline(erratas)) == Some(erratas),
{
    lemma_strip_multiline(erratas);
    lemma_read_compact_list(erratas);
}

/// The literal of a card's errata reads back as the card's errata: the
/// one-line form that a single erratum takes and the several-line form that
/// more of them take denote the same kind of list.
pub proof fn law_erratas_read_back(erratas: Seq<ErrataModel>)
    ensures
        erratas.len() == 1 ==> erratas_text(erratas) == erratas_inline(erratas),
        erratas.len() >= 2 ==> erratas_text(erratas) == erratas_multiline(erratas),
        read_erratas(erratas_text(erratas)) == Some(erratas),
{
    if erratas.len() <= 1 {
        law_inline_erratas_read_back(erratas);
    } else {
        law_multiline_erratas_read_back(erratas);
    }
}

} // verus!
