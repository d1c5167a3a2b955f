//! What holds of every catalog that is written, stated over the models that
//! the encoders' contracts use.

use vstd::prelude::*;
use crate::emit::{
    card_field_names, card_fields, card_miss, card_records, cards_document, catalog_resolves,
    collection_text, faq_fields, faq_records, faqs_document, record_text, FieldModel,
    CARDS_HEADER, FAQS_HEADER,
};
use crate::encode::{
    debug_quoted, enum_array_text, errata_text, errata_texts, erratas_text, first_unknown_icon,
    icons_array_text, lemma_icons_all_known, option_text, optional_number, optional_text,
    string_array_text,
};
use crate::lookup::{icon_expr, set_symbol};
use crate::model::{catalog_well_formed, CardModel, ErrataModel, FaqModel};
use crate::readback::lemma_read_number;
use crate::text::{
    count_char, decimal, join, lead_marker, led_lines, lemma_count_add, lemma_decimal_on_one_line,
};

verus! {

/// The record of every card holds the same fields under the same names, in
/// the order in which the target type declares them: none is left out, none
/// stands twice, none changes its place from one card to the next.
pub proof fn law_card_fields_fixed(card: CardModel)
    ensures
        card_field_names().len() == 28,
        card_fields(card).len() == card_field_names().len(),
        forall|i: int|
            0 <= i < card_field_names().len() ==> (#[trigger] card_fields(card)[i]).name
                == card_field_names()[i],
{
}

/// The list of a catalog holds one record for each card, at the card's own
/// position; the list of rulings likewise.
pub proof fn law_one_record_per_entry(cards: Seq<CardModel>, faqs: Seq<FaqModel>)
    ensures
        card_records(cards).len() == cards.len(),
        forall|i: int|
            0 <= i < cards.len() ==> #[trigger] card_records(cards)[i] == record_text(
                card_fields(cards[i]),
            ),
        cards_document(cards) == CARDS_HEADER@ + collection_text(card_records(cards)),
        faq_records(faqs).len() == faqs.len(),
        forall|i: int|
            0 <= i < faqs.len() ==> #[trigger] faq_records(faqs)[i] == record_text(
                faq_fields(faqs[i]),
            ),
        faqs_document(faqs) == FAQS_HEADER@ + collection_text(faq_records(faqs)),
{
}

/// The empty list literal.
pub open spec fn empty_list() -> Seq<char> {
    seq!['[', ']']
}

/// A list field without items is written as the empty list literal, whatever
/// its kind, and never as a pair of brackets around blanks.
pub proof fn law_empty_lists(enum_name: Seq<char>)
    ensures
        enum_array_text(enum_name, Seq::empty()) == empty_list(),
        first_unknown_icon(Seq::empty()) is None,
        icons_array_text(Seq::empty()) == empty_list(),
        string_array_text(Seq::empty()) == empty_list(),
        erratas_text(Seq::empty()) == empty_list(),
{
    reveal_strlit("[]");
    assert("[]"@ =~= empty_list());
}

/// A card's list fields without items stand in its record as the empty list
/// literal.
pub proof fn law_card_empty_lists(card: CardModel)
    ensures
        card.house.len() == 0 ==> card_fields(card)[12] == (FieldModel {
            name: "house"@,
            value: empty_list(),
        }),
        card.legal_in_houses.len() == 0 ==> card_fields(card)[13] == (FieldModel {
            name: "legal_in_houses"@,
            value: empty_list(),
        }),
        card.icons.len() == 0 ==> card_fields(card)[18] == (FieldModel {
            name: "icons"@,
            value: empty_list(),
        }),
        card.crest.len() == 0 ==> card_fields(card)[19] == (FieldModel {
            name: "crest"@,
            value: empty_list(),
        }),
        card.traits.len() == 0 ==> card_fields(card)[20] == (FieldModel {
            name: "traits"@,
            value: empty_list(),
        }),
        card.erratas.len() == 0 ==> card_fields(card)[26] == (FieldModel {
            name: "erratas"@,
            value: empty_list(),
        }),
{
    reveal_strlit("[]");
    assert("[]"@ =~= empty_list());
    if card.house.len() == 0 {
        assert(card.house =~= Seq::empty());
    }
    if card.legal_in_houses.len() == 0 {
        assert(card.legal_in_houses =~= Seq::empty());
    }
    if card.icons.len() == 0 {
        assert(card.icons =~= Seq::empty());
    }
    if card.crest.len() == 0 {
        assert(card.crest =~= Seq::empty());
    }
    if card.traits.len() == 0 {
        assert(card.traits =~= Seq::empty());
    }
    if card.erratas.len() == 0 {
        assert(card.erratas =~= Seq::empty());
    }
}

/// An empty catalog and an empty list of rulings are written as the header
/// and the bare empty list on a line of its own: no opening marker, no
/// closing marker.
pub proof fn law_empty_documents()
    ensures
        catalog_resolves(Seq::empty()),
        cards_document(Seq::empty()) == CARDS_HEADER@ + seq![' ', ' ', ' ', ' ', '[', ']', '\n'],
        faqs_document(Seq::empty()) == FAQS_HEADER@ + seq![' ', ' ', ' ', ' ', '[', ']', '\n'],
{
    reveal_strlit("    []\n");
    assert("    []\n"@ =~= seq![' ', ' ', ' ', ' ', '[', ']', '\n']);
}

/// An absent value is written as `Nothing`; a present one as `Just`, a
/// blank and the value's own literal, which is therefore never the whole of
/// what is written.
pub proof fn law_option_wrapped(inner: Seq<char>)
    ensures
        option_text(None) == seq!['N', 'o', 't', 'h', 'i', 'n', 'g'],
        option_text(Some(inner)) == seq!['J', 'u', 's', 't', ' '] + inner,
        option_text(Some(inner)) != inner,
{
    reveal_strlit("Nothing");
    reveal_strlit("Just ");
    assert("Nothing"@ =~= seq!['N', 'o', 't', 'h', 'i', 'n', 'g']);
    assert("Just "@ =~= seq!['J', 'u', 's', 't', ' ']);
    assert(option_text(Some(inner)).len() == inner.len() + 5);
}

/// Each optional field of a card stands in its record under the one rule
/// for optional values: the texts quoted, the numbers as decimal numerals.
pub proof fn law_card_optional_fields(card: CardModel)
    ensures
        card_fields(card)[15] == (FieldModel {
            name: "rules_text"@,
            value: optional_text(card.rules_text),
        }),
        card_fields(card)[16] == (FieldModel {
            name: "flavor_text"@,
            value: optional_text(card.flavor_text),
        }),
        card_fields(card)[17] == (FieldModel { name: "cost"@, value: optional_number(card.cost) }),
        card_fields(card)[21] == (FieldModel {
            name: "strength"@,
            value: optional_number(card.strength),
        }),
        card_fields(card)[22] == (FieldModel {
            name: "income"@,
            value: optional_number(card.income),
        }),
        card_fields(card)[23] == (FieldModel {
            name: "initiative"@,
            value: optional_number(card.initiative),
        }),
        card_fields(card)[24] == (FieldModel {
            name: "claim"@,
            value: optional_number(card.claim),
        }),
        card_fields(card)[25] == (FieldModel {
            name: "influence"@,
            value: optional_number(card.influence),
        }),
        card_fields(card)[27] == (FieldModel {
            name: "duplicate_id"@,
            value: optional_text(card.duplicate_id),
        }),
        forall|text: Option<Seq<char>>|
            #[trigger] optional_text(text) == match text {
                Some(t) => "Just "@ + debug_quoted(t),
                None => "Nothing"@,
            },
        forall|number: Option<int>|
            #[trigger] optional_number(number) == match number {
                Some(n) => "Just "@ + decimal(n),
                None => "Nothing"@,
            },
{
}

/// A card can be written exactly when the table of sets holds its set and
/// the table of icons holds each of its icons.
pub proof fn law_card_needs_known_names(card: CardModel)
    ensures
        card_miss(card) is None <==> set_symbol(card.set) is Some && forall|k: int|
            0 <= k < card.icons.len() ==> icon_expr(#[trigger] card.icons[k]) is Some,
{
    lemma_icons_all_known(card.icons);
}

/// A catalog can be written exactly when every one of its cards can: one
/// name outside the vocabularies, in any card, and no module of cards comes
/// out.
pub proof fn law_catalog_needs_known_names(cards: Seq<CardModel>)
    ensures
        catalog_resolves(cards) <==> forall|i: int|
            0 <= i < cards.len() ==> set_symbol((#[trigger] cards[i]).set) is Some && forall|
                k: int,
            |
                0 <= k < cards[i].icons.len() ==> icon_expr(#[trigger] cards[i].icons[k]) is Some,
{
    assert forall|i: int| 0 <= i < cards.len() implies (card_miss(#[trigger] cards[i]) is None
        <==> set_symbol(cards[i].set) is Some && forall|k: int|
        0 <= k < cards[i].icons.len() ==> icon_expr(#[trigger] cards[i].icons[k]) is Some) by {
        law_card_needs_known_names(cards[i]);
    }
}

/// A catalog that keeps what it promises is always written.
pub proof fn law_well_formed_catalog_is_written(cards: Seq<CardModel>)
    requires
        catalog_well_formed(cards),
    ensures
        catalog_resolves(cards),
{
    assert forall|i: int| 0 <= i < cards.len() implies card_miss(#[trigger] cards[i]) is None by {
        assert(cards[i].well_formed());
        law_card_needs_known_names(cards[i]);
    }
}

proof fn lemma_labels_on_one_line()
    ensures
        count_char("{ line = "@, '\n') == 0,
        count_char(", start = "@, '\n') == 0,
        count_char(", end = "@, '\n') == 0,
        count_char(" }"@, '\n') == 0,
{
    reveal_strlit("{ line = ");
    reveal_strlit(", start = ");
    reveal_strlit(", end = ");
    reveal_strlit(" }");
    reveal_with_fuel(count_char, 11);
}

proof fn lemma_marks_on_one_line()
    ensures
        count_char("[ "@, '\n') == 0,
        count_char(" ]"@, '\n') == 0,
        count_char(", "@, '\n') == 0,
        count_char("[]"@, '\n') == 0,
        count_char("["@, '\n') == 0,
        count_char(","@, '\n') == 0,
        count_char(" "@, '\n') == 0,
        count_char("      "@, '\n') == 0,
        count_char("      ]"@, '\n') == 0,
        count_char("\n"@, '\n') == 1,
{
    reveal_strlit("[ ");
    reveal_strlit(" ]");
    reveal_strlit(", ");
    reveal_strlit("[]");
    reveal_strlit("[");
    reveal_strlit(",");
    reveal_strlit(" ");
    reveal_strlit("      ");
    reveal_strlit("      ]");
    reveal_strlit("\n");
    reveal_with_fuel(count_char, 8);
}

proof fn lemma_errata_on_one_line(errata: ErrataModel)
    ensures
        count_char(errata_text(errata), '\n') == 0,
{
    let line = decimal(errata.line);
    let start = decimal(errata.start);
    let end = decimal(errata.end);
    let t1 = "{ line = "@ + line;
    let t2 = t1 + ", start = "@;
    let t3 = t2 + start;
    let t4 = t3 + ", end = "@;
    let t5 = t4 + end;
    lemma_labels_on_one_line();
    lemma_decimal_on_one_line(errata.line);
    lemma_decimal_on_one_line(errata.start);
    lemma_decimal_on_one_line(errata.end);
    lemma_count_add("{ line = "@, line, '\n');
    lemma_count_add(t1, ", start = "@, '\n');
    lemma_count_add(t2, start, '\n');
    lemma_count_add(t3, ", end = "@, '\n');
    lemma_count_add(t4, end, '\n');
    lemma_count_add(t5, " }"@, '\n');
}

proof fn lemma_joined_errata_on_one_line(erratas: Seq<ErrataModel>)
    ensures
        count_char(join(errata_texts(erratas), ", "@), '\n') == 0,
    decreases erratas.len(),
{
    let texts = errata_texts(erratas);
    if erratas.len() == 0 {
    } else if erratas.len() == 1 {
        lemma_errata_on_one_line(erratas[0]);
    } else {
        let front = erratas.drop_last();
        let head = join(texts.drop_last(), ", "@);
        assert(texts.drop_last() =~= errata_texts(front));
        lemma_joined_errata_on_one_line(front);
        lemma_errata_on_one_line(erratas.last());
        lemma_marks_on_one_line();
        lemma_count_add(head, ", "@, '\n');
        lemma_count_add(head + ", "@, texts.last(), '\n');
    }
}

proof fn lemma_errata_lines_counted(erratas: Seq<ErrataModel>)
    ensures
        count_char(led_lines("      "@, errata_texts(erratas)), '\n') == erratas.len(),
    decreases erratas.len(),
{
    let texts = errata_texts(erratas);
    if erratas.len() > 0 {
        let front = erratas.drop_last();
        let head = led_lines("      "@, texts.drop_last());
        let marker = lead_marker(texts.len() - 1);
        let t1 = head + "      "@;
        let t2 = t1 + marker;
        let t3 = t2 + " "@;
        let t4 = t3 + texts.last();
        assert(texts.drop_last() =~= errata_texts(front));
        lemma_errata_lines_counted(front);
        lemma_errata_on_one_line(erratas.last());
        lemma_marks_on_one_line();
        lemma_count_add(head, "      "@, '\n');
        lemma_count_add(t1, marker, '\n');
        lemma_count_add(t2, " "@, '\n');
        lemma_count_add(t3, texts.last(), '\n');
        lemma_count_add(t4, "\n"@, '\n');
    }
}

/// At most one erratum is written on one line, which opens with a bracket
/// and closes with one. More of them begin with a line break and hold one
/// line break more than there are errata: one before the list, one after
/// each erratum.
pub proof fn law_errata_line_breaks(erratas: Seq<ErrataModel>)
    ensures
        erratas.len() <= 1 ==> count_char(erratas_text(erratas), '\n') == 0 && erratas_text(
            erratas,
        ).first() == '[' && erratas_text(erratas).last() == ']',
        erratas.len() >= 2 ==> count_char(erratas_text(erratas), '\n') == erratas.len() + 1
            && erratas_text(erratas).first() == '\n',
{
    let texts = errata_texts(erratas);
    lemma_marks_on_one_line();
    reveal_strlit("[]");
    reveal_strlit("[ ");
    reveal_strlit(" ]");
    reveal_strlit("\n");
    if erratas.len() == 0 {
    } else if erratas.len() == 1 {
        let inner = join(texts, ", "@);
        lemma_joined_errata_on_one_line(erratas);
        lemma_count_add("[ "@, inner, '\n');
        lemma_count_add("[ "@ + inner, " ]"@, '\n');
    } else {
        let lines = led_lines("      "@, texts);
        lemma_errata_lines_counted(erratas);
        lemma_count_add("\n"@, lines, '\n');
        lemma_count_add("\n"@ + lines, "      ]"@, '\n');
    }
}

/// Two optional values are written alike only where both are absent, or
/// both are present and what they hold is written alike.
pub proof fn law_option_text_injective(a: Option<Seq<char>>, b: Option<Seq<char>>)
    requires
        option_text(a) == option_text(b),
    ensures
        a == b,
{
    reveal_strlit("Just ");
    reveal_strlit("Nothing");
    if a is Some {
        assert(option_text(a)[0] == 'J');
        assert(option_text(a).skip(5) =~= a.unwrap());
    } else {
        assert(option_text(a)[0] == 'N');
    }
    if b is Some {
        assert(option_text(b)[0] == 'J');
        assert(option_text(b).skip(5) =~= b.unwrap());
    } else {
        assert(option_text(b)[0] == 'N');
    }
}

/// Two numbers have the same decimal numeral only where they are the same
/// number.
pub proof fn law_decimal_injective(m: int, n: int)
    requires
        decimal(m) == decimal(n),
    ensures
        m == n,
{
    lemma_read_number(m, Seq::empty());
    lemma_read_number(n, Seq::empty());
}

/// Two optional numbers are written alike only where they are the same.
pub proof fn law_optional_number_injective(a: Option<int>, b: Option<int>)
    requires
        optional_number(a) == optional_number(b),
    ensures
        a == b,
{
    let x: Option<Seq<char>> = match a {
        Some(n) => Some(decimal(n)),
        None => None,
    };
    let y: Option<Seq<char>> = match b {
        Some(n) => Some(decimal(n)),
        None => None,
    };
    law_option_text_injective(x, y);
    if a is Some && b is Some {
        law_decimal_injective(a.unwrap(), b.unwrap());
    }
}

} // verus!
