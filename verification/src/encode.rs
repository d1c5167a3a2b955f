//! The field encoders: one rule for each shape of field, from a value of the
//! catalog to the fragment of Elm source that denotes it.

use vstd::prelude::*;
use vstd::string::*;
use crate::lookup::{icon_expr, resolve_icon, IconExpr, IconKind, LookupMiss, LookupMissModel, Vocabulary};
use crate::model::{Errata, ErrataModel, errata_models};
use crate::text::{decimal, i32_to_decimal, join, join_strings, led_lines, led_lines_of};

verus! {

/// The text that `Debug` formatting gives for a string with the characters
/// `s`: the string between double quotes, with the characters that cannot
/// stand in a string literal escaped.
pub uninterp spec fn debug_quoted(s: Seq<char>) -> Seq<char>;

/// Formats `s` with the standard library's `Debug` implementation for `str`
/// (`format!("{:?}", s)`). The contract claims only that the result is a
/// function of the characters of `s`; it says nothing of what the escaped
/// text holds.
#[verifier::external_body]
fn debug_format(s: &str) -> (quoted: String)
    ensures
        quoted@ == debug_quoted(s@),
{
    format!("{:?}", s)
}

/// A value that has an Elm literal of its own.
pub trait ElmLiteral {
    /// The literal that denotes the value.
    spec fn elm_text(&self) -> Seq<char>;

    /// Writes the literal that denotes the value.
    fn to_elm_code(&self) -> (code: String)
        ensures
            code@ == self.elm_text(),
    ;
}

impl ElmLiteral for String {
    open spec fn elm_text(&self) -> Seq<char> {
        debug_quoted(self@)
    }

    fn to_elm_code(&self) -> (code: String) {
        debug_format(self.as_str())
    }
}

impl ElmLiteral for i32 {
    open spec fn elm_text(&self) -> Seq<char> {
        decimal(*self as int)
    }

    fn to_elm_code(&self) -> (code: String) {
        i32_to_decimal(*self)
    }
}

/// The literal of a truth value.
pub open spec fn bool_text(b: bool) -> Seq<char> {
    if b {
        "True"@
    } else {
        "False"@
    }
}

/// Writes a truth value as one of Elm's two tokens.
pub fn bool_to_elm_code(b: bool) -> (code: &'static str)
    ensures
        code@ == bool_text(b),
{
    if b {
        "True"
    } else {
        "False"
    }
}

/// The literal of an optional value, given the literal of what it holds:
/// the `Just` constructor before a present value, `Nothing` for an absent one.
pub open spec fn option_text(inner: Option<Seq<char>>) -> Seq<char> {
    match inner {
        Some(text) => "Just "@ + text,
        None => "Nothing"@,
    }
}

/// The literal of an optional text.
pub open spec fn optional_text(text: Option<Seq<char>>) -> Seq<char> {
    option_text(
        match text {
            Some(t) => Some(debug_quoted(t)),
            None => None,
        },
    )
}

/// The literal of an optional number.
pub open spec fn optional_number(number: Option<int>) -> Seq<char> {
    option_text(
        match number {
            Some(n) => Some(decimal(n)),
            None => None,
        },
    )
}

/// The literal of what an optional value holds, if it holds one.
pub open spec fn inner_text<T: ElmLiteral>(opt: Option<T>) -> Option<Seq<char>> {
    match opt {
        Some(value) => Some(value.elm_text()),
        None => None,
    }
}

/// Writes an optional value: `Just` and the value's literal, or `Nothing`.
pub fn option_to_elm_code<T: ElmLiteral>(opt: &Option<T>) -> (code: String)
    ensures
        code@ == option_text(inner_text(*opt)),
{
    match opt {
        Some(value) => {
            let mut code = String::from_str("Just ");
            let inner = value.to_elm_code();
            code.append(inner.as_str());
            code
        },
        None => String::from_str("Nothing"),
    }
}

/// A list literal on one line: `[]` for no items, else the items between
/// `[ ` and ` ]` with `, ` between neighbours.
pub open spec fn bracketed(items: Seq<Seq<char>>) -> Seq<char> {
    if items.len() == 0 {
        "[]"@
    } else {
        "[ "@ + join(items, ", "@) + " ]"@
    }
}

/// Writes `items` as a list literal on one line.
pub fn bracket_list(items: &Vec<String>) -> (code: String)
    ensures
        code@ == bracketed(items.deep_view()),
{
    if items.len() == 0 {
        String::from_str("[]")
    } else {
        let mut code = String::from_str("[ ");
        let inner = join_strings(items, ", ");
        code.append(inner.as_str());
        code.append(" ]");
        code
    }
}

/// The tag of an enumeration's variant: the type's name, an underscore and
/// the variant's name.
pub open spec fn enum_tag(enum_name: Seq<char>, variant: Seq<char>) -> Seq<char> {
    enum_name + "_"@ + variant
}

/// Writes the tag of the variant `variant` of the enumeration `enum_name`.
pub fn enum_tag_to_elm_code(enum_name: &str, variant: &str) -> (code: String)
    ensures
        code@ == enum_tag(enum_name@, variant@),
{
    let mut code = String::from_str(enum_name);
    code.append("_");
    code.append(variant);
    code
}

/// The tags of the variants named, in their order.
pub open spec fn enum_tags(enum_name: Seq<char>, variants: Seq<Seq<char>>) -> Seq<Seq<char>> {
    Seq::new(variants.len(), |i: int| enum_tag(enum_name, variants[i]))
}

/// The literal of a list of variants of one enumeration.
pub open spec fn enum_array_text(enum_name: Seq<char>, variants: Seq<Seq<char>>) -> Seq<char> {
    bracketed(enum_tags(enum_name, variants))
}

/// Writes a list of variants of the enumeration `enum_name`, in the order
/// given.
pub fn enum_array_to_elm_code(enum_name: &str, enum_array: &[String]) -> (code: String)
    ensures
        code@ == enum_array_text(enum_name@, enum_array.deep_view()),
{
    let mut tags: Vec<String> = Vec::new();
    let mut i: usize = 0;
    while i < enum_array.len()
        invariant
            i <= enum_array.len(),
            tags.deep_view() == enum_tags(enum_name@, enum_array.deep_view()).take(i as int),
        decreases enum_array.len() - i,
    {
        let tag = enum_tag_to_elm_code(enum_name, enum_array[i].as_str());
        let ghost before = tags.deep_view();
        let ghost all = enum_tags(enum_name@, enum_array.deep_view());
        assert(enum_array.deep_view()[i as int] == enum_array[i as int]@);
        assert(tag@ == all[i as int]);
        tags.push(tag);
        assert(tags.deep_view() =~= before.push(all[i as int]));
        assert(all.take(i + 1) =~= all.take(i as int).push(all[i as int]));
        i += 1;
    }
    assert(tags.deep_view() =~= enum_tags(enum_name@, enum_array.deep_view()));
    bracket_list(&tags)
}

/// The literals of the texts given, in their order.
pub open spec fn quoted_all(texts: Seq<Seq<char>>) -> Seq<Seq<char>> {
    Seq::new(texts.len(), |i: int| debug_quoted(texts[i]))
}

/// The literal of a list of texts.
pub open spec fn string_array_text(texts: Seq<Seq<char>>) -> Seq<char> {
    bracketed(quoted_all(texts))
}

/// Writes a list of texts, in the order given.
pub fn string_array_to_elm_code(array: &[String]) -> (code: String)
    ensures
        code@ == string_array_text(array.deep_view()),
{
    let mut items: Vec<String> = Vec::new();
    let mut i: usize = 0;
    while i < array.len()
        invariant
            i <= array.len(),
            items.deep_view() == quoted_all(array.deep_view()).take(i as int),
        decreases array.len() - i,
    {
        let ghost before = items.deep_view();
        let ghost all = quoted_all(array.deep_view());
        assert(array.deep_view()[i as int] == array[i as int]@);
        items.push(array[i].to_elm_code());
        assert(items.deep_view() =~= before.push(all[i as int]));
        assert(all.take(i + 1) =~= all.take(i as int).push(all[i as int]));
        i += 1;
    }
    assert(items.deep_view() =~= quoted_all(array.deep_view()));
    bracket_list(&items)
}

/// The name of an icon's constructor, after the type's prefix.
pub open spec fn icon_kind_name(kind: IconKind) -> Seq<char> {
    match kind {
        IconKind::Military => "Military"@,
        IconKind::Intrigue => "Intrigue"@,
        IconKind::Power => "Power"@,
    }
}

/// The literal of an icon: its constructor applied to a record that holds
/// the naval flag.
pub open spec fn icon_text(icon: IconExpr) -> Seq<char> {
    "Icon_"@ + icon_kind_name(icon.kind) + " { naval = "@ + bool_text(icon.naval) + " }"@
}

/// Writes an icon's literal.
pub fn icon_to_elm_code(icon: IconExpr) -> (code: String)
    ensures
        code@ == icon_text(icon),
{
    let mut code = String::from_str("Icon_");
    match icon.kind {
        IconKind::Military => code.append("Military"),
        IconKind::Intrigue => code.append("Intrigue"),
        IconKind::Power => code.append("Power"),
    }
    code.append(" { naval = ");
    code.append(bool_to_elm_code(icon.naval));
    code.append(" }");
    code
}

/// The first of `names` that is not an icon's name, if there is one.
pub open spec fn first_unknown_icon(names: Seq<Seq<char>>) -> Option<Seq<char>>
    decreases names.len(),
{
    if names.len() == 0 {
        None
    } else if icon_expr(names[0]) is None {
        Some(names[0])
    } else {
        first_unknown_icon(names.drop_first())
    }
}

/// The literals of the icons named, in their order.
pub open spec fn icon_texts(names: Seq<Seq<char>>) -> Seq<Seq<char>> {
    Seq::new(names.len(), |i: int| icon_text(icon_expr(names[i]).unwrap()))
}

/// The literal of a list of icons, each given by its display name.
pub open spec fn icons_array_text(names: Seq<Seq<char>>) -> Seq<char> {
    bracketed(icon_texts(names))
}

/// `first_unknown_icon` finds the name at position `i` when that name is the
/// first one that the table of icons does not hold.
pub proof fn lemma_first_unknown_icon_at(names: Seq<Seq<char>>, i: int)
    requires
        0 <= i < names.len(),
        icon_expr(names[i]) is None,
        forall|j: int| 0 <= j < i ==> icon_expr(#[trigger] names[j]) is Some,
    ensures
        first_unknown_icon(names) == Some(names[i]),
    decreases i,
{
    if i > 0 {
        let rest = names.drop_first();
        assert forall|j: int| 0 <= j < i - 1 implies icon_expr(#[trigger] rest[j]) is Some by {
            assert(rest[j] == names[j + 1]);
        }
        lemma_first_unknown_icon_at(rest, i - 1);
    }
}

/// `first_unknown_icon` finds nothing exactly when every name is an icon's.
pub proof fn lemma_icons_all_known(names: Seq<Seq<char>>)
    ensures
        first_unknown_icon(names) is None <==> forall|j: int|
            0 <= j < names.len() ==> icon_expr(#[trigger] names[j]) is Some,
    decreases names.len(),
{
    if names.len() > 0 {
        let rest = names.drop_first();
        lemma_icons_all_known(rest);
        if icon_expr(names[0]) is Some {
            if first_unknown_icon(rest) is None {
                assert forall|j: int| 0 <= j < names.len() implies icon_expr(
                    #[trigger] names[j],
                ) is Some by {
                    if j > 0 {
                        assert(rest[j - 1] == names[j]);
                    }
                }
            } else {
                let k = choose|k: int| 0 <= k < rest.len() && icon_expr(#[trigger] rest[k]) is None;
                assert(names[k + 1] == rest[k]);
            }
        }
    }
}

/// Writes a list of icons, each resolved through the table of icons, in the
/// order given. The first name that the table does not hold is returned as
/// the error.
pub fn icons_array_to_elm_code(array: &[String]) -> (code: Result<String, LookupMiss>)
    ensures
        match first_unknown_icon(array.deep_view()) {
            Some(name) => code matches Err(miss) && miss@ == (LookupMissModel {
                vocabulary: Vocabulary::Icons,
                name: name,
            }),
            None => code matches Ok(text) && text@ == icons_array_text(array.deep_view()),
        },
{
    let ghost names = array.deep_view();
    let mut items: Vec<String> = Vec::new();
    let mut i: usize = 0;
    while i < array.len()
        invariant
            i <= array.len(),
            names == array.deep_view(),
            forall|j: int| 0 <= j < i ==> icon_expr(#[trigger] names[j]) is Some,
            items.deep_view() == icon_texts(names).take(i as int),
        decreases array.len() - i,
    {
        let ghost before = items.deep_view();
        let ghost all = icon_texts(names);
        assert(names[i as int] == array[i as int]@);
        match resolve_icon(array[i].as_str()) {
            Ok(icon) => {
                items.push(icon_to_elm_code(icon));
                assert(items.deep_view() =~= before.push(all[i as int]));
                assert(all.take(i + 1) =~= all.take(i as int).push(all[i as int]));
            },
            Err(miss) => {
                proof {
                    lemma_first_unknown_icon_at(names, i as int);
                }
                return Err(miss);
            },
        }
        i += 1;
    }
    proof {
        lemma_icons_all_known(names);
    }
    assert(items.deep_view() =~= icon_texts(names));
    Ok(bracket_list(&items))
}

/// The literal of one erratum: a record of its line and its span.
pub open spec fn errata_text(errata: ErrataModel) -> Seq<char> {
    "{ line = "@ + decimal(errata.line) + ", start = "@ + decimal(errata.start) + ", end = "@
        + decimal(errata.end) + " }"@
}

/// The literals of the errata given, in their order.
pub open spec fn errata_texts(erratas: Seq<ErrataModel>) -> Seq<Seq<char>> {
    Seq::new(erratas.len(), |i: int| errata_text(erratas[i]))
}

/// A list of errata on one line: `[]` for none, else the errata between
/// `[ ` and ` ]` with `, ` between neighbours.
pub open spec fn erratas_inline(erratas: Seq<ErrataModel>) -> Seq<char> {
    bracketed(errata_texts(erratas))
}

/// A list of errata over several lines: a line break, then one erratum per
/// line behind its leading marker, closed by a bracket at the same indent.
pub open spec fn erratas_multiline(erratas: Seq<ErrataModel>) -> Seq<char> {
    "\n"@ + led_lines("      "@, errata_texts(erratas)) + "      ]"@
}

/// The literal of a card's errata: on one line where there is at most one,
/// over several lines where there are more.
pub open spec fn erratas_text(erratas: Seq<ErrataModel>) -> Seq<char> {
    if erratas.len() <= 1 {
        erratas_inline(erratas)
    } else {
        erratas_multiline(erratas)
    }
}

/// Writes one erratum's literal.
pub fn errata_to_elm_code(errata: &Errata) -> (code: String)
    ensures
        code@ == errata_text(errata@),
{
    let mut code = String::from_str("{ line = ");
    let line = i32_to_decimal(errata.line);
    code.append(line.as_str());
    code.append(", start = ");
    let start = i32_to_decimal(errata.start);
    code.append(start.as_str());
    code.append(", end = ");
    let end = i32_to_decimal(errata.end);
    code.append(end.as_str());
    code.append(" }");
    code
}

/// Writes a card's errata, in the order given.
pub fn erratas_to_elm_code(erratas: &[Errata]) -> (code: String)
    ensures
        code@ == erratas_text(errata_models(erratas@)),
{
    if erratas.len() == 0 {
        String::from_str("[]")
    } else if erratas.len() == 1 {
        let mut code = String::from_str("[ ");
        let item = errata_to_elm_code(&erratas[0]);
        code.append(item.as_str());
        code.append(" ]");
        code
    } else {
        let ghost models = errata_models(erratas@);
        let mut items: Vec<String> = Vec::new();
        let mut i: usize = 0;
        while i < erratas.len()
            invariant
                i <= erratas.len(),
                models == errata_models(erratas@),
                items.deep_view() == errata_texts(models).take(i as int),
            decreases erratas.len() - i,
        {
            let ghost before = items.deep_view();
            let ghost all = errata_texts(models);
            items.push(errata_to_elm_code(&erratas[i]));
            assert(items.deep_view() =~= before.push(all[i as int]));
            assert(all.take(i + 1) =~= all.take(i as int).push(all[i as int]));
            i += 1;
        }
        assert(items.deep_view() =~= errata_texts(models));
        let mut code = String::from_str("\n");
        let lines = led_lines_of("      ", &items);
        code.append(lines.as_str());
        code.append("      ]");
        code
    }
}

} // verus!
