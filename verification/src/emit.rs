//! The source emitter: record literals from encoded fields, and the two
//! modules, one that lists the cards and one that lists the rulings.

use vstd::prelude::*;
use vstd::string::*;
use crate::encode::{
    bool_text, bool_to_elm_code, debug_quoted, enum_array_text, enum_array_to_elm_code, enum_tag,
    enum_tag_to_elm_code, erratas_text, erratas_to_elm_code, first_unknown_icon, icons_array_text,
    icons_array_to_elm_code, option_to_elm_code, optional_number, optional_text,
    string_array_text, string_array_to_elm_code, ElmLiteral,
};
use crate::lookup::{resolve_set, set_symbol, LookupMiss, LookupMissModel, Vocabulary};
use crate::model::{card_models, faq_models, Card, CardModel, Faq, FaqModel};
use crate::text::{decimal, i32_to_decimal, led_lines, led_lines_of, usize_to_decimal};

verus! {

/// One field of a record literal: its name and the literal of its value.
#[derive(Clone, Debug, PartialEq, Eq)]
pub struct Field {
    pub name: &'static str,
    pub value: String,
}

/// What a [`Field`] stands for.
pub struct FieldModel {
    pub name: Seq<char>,
    pub value: Seq<char>,
}

impl View for Field {
    type V = FieldModel;

    open spec fn view(&self) -> FieldModel {
        FieldModel { name: self.name@, value: self.value@ }
    }
}

/// The models of a record's fields, in their order.
pub open spec fn field_models(fields: Seq<Field>) -> Seq<FieldModel> {
    Seq::new(fields.len(), |i: int| fields[i]@)
}

/// The line of the field at position `i` of a record: the first field
/// follows the opening brace on its line, each later one stands on a line of
/// its own behind a comma.
pub open spec fn field_line(i: int, field: FieldModel) -> Seq<char> {
    (if i == 0 {
        " "@
    } else {
        "    , "@
    }) + field.name + " = "@ + field.value + "\n"@
}

/// The lines of a record's fields, in their order.
pub open spec fn field_lines(fields: Seq<FieldModel>) -> Seq<char>
    decreases fields.len(),
{
    if fields.len() == 0 {
        Seq::empty()
    } else {
        field_lines(fields.drop_last()) + field_line(fields.len() - 1, fields.last())
    }
}

/// A record literal: the opening brace, the fields' lines, and the closing
/// brace on a line of its own.
pub open spec fn record_text(fields: Seq<FieldModel>) -> Seq<char> {
    "{"@ + field_lines(fields) + "    }"@
}

/// Writes a record literal from its fields, in the order given.
pub fn record_to_elm_code(fields: &Vec<Field>) -> (code: String)
    ensures
        code@ == record_text(field_models(fields@)),
{
    let ghost models = field_models(fields@);
    let mut code = String::from_str("{");
    let mut i: usize = 0;
    while i < fields.len()
        invariant
            i <= fields.len(),
            models == field_models(fields@),
            code@ == "{"@ + field_lines(models.take(i as int)),
        decreases fields.len() - i,
    {
        let ghost before = models.take(i as int);
        let ghost after = models.take(i + 1);
        assert(after.drop_last() =~= before);
        assert(after.last() == fields[i as int]@);
        if i == 0 {
            code.append(" ");
        } else {
            code.append("    , ");
        }
        code.append(fields[i].name);
        code.append(" = ");
        code.append(fields[i].value.as_str());
        code.append("\n");
        assert(code@ =~= "{"@ + field_lines(after));
        i += 1;
    }
    assert(models.take(fields.len() as int) =~= models);
    code.append("    }");
    code
}

/// A list of records written with leading separators: `[]` on a line of its
/// own for no records; else each record behind its marker, and the closing
/// bracket on a line of its own.
pub open spec fn collection_text(records: Seq<Seq<char>>) -> Seq<char> {
    if records.len() == 0 {
        "    []\n"@
    } else {
        led_lines("  "@, records) + "    ]\n"@
    }
}

/// Writes a list of records with leading separators.
pub fn collection_to_elm_code(records: &Vec<String>) -> (code: String)
    ensures
        code@ == collection_text(records.deep_view()),
{
    if records.len() == 0 {
        String::from_str("    []\n")
    } else {
        let mut code = led_lines_of("  ", records);
        code.append("    ]\n");
        code
    }
}

/// The names of a card record's fields, in the order in which the target
/// type declares them.
pub open spec fn card_field_names() -> Seq<Seq<char>> {
    seq![
        "id"@,
        "full_image_url"@,
        "preview_image_url"@,
        "name"@,
        "card_type"@,
        "set"@,
        "number"@,
        "quantity"@,
        "limit"@,
        "legality_joust"@,
        "legality_melee"@,
        "illustrator"@,
        "house"@,
        "legal_in_houses"@,
        "unique"@,
        "rules_text"@,
        "flavor_text"@,
        "cost"@,
        "icons"@,
        "crest"@,
        "traits"@,
        "strength"@,
        "income"@,
        "initiative"@,
        "claim"@,
        "influence"@,
        "erratas"@,
        "duplicate_id"@,
    ]
}

/// The fields of a card's record, each with the literal of its value, for a
/// card whose set and icons the vocabularies hold.
pub open spec fn card_fields(card: CardModel) -> Seq<FieldModel> {
    seq![
        FieldModel { name: "id"@, value: debug_quoted(card.id) },
        FieldModel { name: "full_image_url"@, value: debug_quoted(card.full_image_url) },
        FieldModel { name: "preview_image_url"@, value: debug_quoted(card.preview_image_url) },
        FieldModel { name: "name"@, value: debug_quoted(card.name) },
        FieldModel { name: "card_type"@, value: enum_tag("CardType"@, card.card_type) },
        FieldModel { name: "set"@, value: set_symbol(card.set).unwrap() },
        FieldModel { name: "number"@, value: decimal(card.number) },
        FieldModel { name: "quantity"@, value: decimal(card.quantity) },
        FieldModel { name: "limit"@, value: decimal(card.limit) },
        FieldModel { name: "legality_joust"@, value: enum_tag("Legality"@, card.legality_joust) },
        FieldModel { name: "legality_melee"@, value: enum_tag("Legality"@, card.legality_melee) },
        FieldModel { name: "illustrator"@, value: debug_quoted(card.illustrator) },
        FieldModel { name: "house"@, value: enum_array_text("House"@, card.house) },
        FieldModel { name: "legal_in_houses"@, value: enum_array_text("House"@, card.legal_in_houses) },
        FieldModel { name: "unique"@, value: bool_text(card.unique) },
        FieldModel { name: "rules_text"@, value: optional_text(card.rules_text) },
        FieldModel { name: "flavor_text"@, value: optional_text(card.flavor_text) },
        FieldModel { name: "cost"@, value: optional_number(card.cost) },
        FieldModel { name: "icons"@, value: icons_array_text(card.icons) },
        FieldModel { name: "crest"@, value: enum_array_text("Crest"@, card.crest) },
        FieldModel { name: "traits"@, value: string_array_text(card.traits) },
        FieldModel { name: "strength"@, value: optional_number(card.strength) },
        FieldModel { name: "income"@, value: optional_number(card.income) },
        FieldModel { name: "initiative"@, value: optional_number(card.initiative) },
        FieldModel { name: "claim"@, value: optional_number(card.claim) },
        FieldModel { name: "influence"@, value: optional_number(card.influence) },
        FieldModel { name: "erratas"@, value: erratas_text(card.erratas) },
        FieldModel { name: "duplicate_id"@, value: optional_text(card.duplicate_id) },
    ]
}

/// The name that keeps a card from being written, if there is one: its set,
/// where the table of sets does not hold it; else the first of its icons that
/// the table of icons does not hold.
pub open spec fn card_miss(card: CardModel) -> Option<LookupMissModel> {
    if set_symbol(card.set) is None {
        Some(LookupMissModel { vocabulary: Vocabulary::Sets, name: card.set })
    } else {
        match first_unknown_icon(card.icons) {
            Some(name) => Some(LookupMissModel { vocabulary: Vocabulary::Icons, name: name }),
            None => None,
        }
    }
}

/// Encodes each field of a card, in the record's order.
pub fn card_fields_of(card: &Card) -> (out: Result<Vec<Field>, LookupMiss>)
    ensures
        match card_miss(card@) {
            Some(miss) => out matches Err(found) && found@ == miss,
            None => out matches Ok(fields) && field_models(fields@) == card_fields(card@),
        },
{
    let symbol = match resolve_set(card.set.as_str()) {
        Ok(symbol) => symbol,
        Err(miss) => {
            return Err(miss);
        },
    };
    let icons = match icons_array_to_elm_code(card.icons.as_slice()) {
        Ok(icons) => icons,
        Err(miss) => {
            return Err(miss);
        },
    };
    let mut fields: Vec<Field> = Vec::new();
    fields.push(Field { name: "id", value: card.id.to_elm_code() });
    fields.push(Field { name: "full_image_url", value: card.full_image_url.to_elm_code() });
    fields.push(Field { name: "preview_image_url", value: card.preview_image_url.to_elm_code() });
    fields.push(Field { name: "name", value: card.name.to_elm_code() });
    fields.push(Field { name: "card_type", value: enum_tag_to_elm_code("CardType", card.card_type.as_str()) });
    fields.push(Field { name: "set", value: String::from_str(symbol) });
    fields.push(Field { name: "number", value: i32_to_decimal(card.number) });
    fields.push(Field { name: "quantity", value: i32_to_decimal(card.quantity) });
    fields.push(Field { name: "limit", value: i32_to_decimal(card.limit) });
    fields.push(Field { name: "legality_joust", value: enum_tag_to_elm_code("Legality", card.legality_joust.as_str()) });
    fields.push(Field { name: "legality_melee", value: enum_tag_to_elm_code("Legality", card.legality_melee.as_str()) });
    fields.push(Field { name: "illustrator", value: card.illustrator.to_elm_code() });
    fields.push(Field { name: "house", value: enum_array_to_elm_code("House", card.house.as_slice()) });
    fields.push(Field { name: "legal_in_houses", value: enum_array_to_elm_code("House", card.legal_in_houses.as_slice()) });
    fields.push(Field { name: "unique", value: String::from_str(bool_to_elm_code(card.unique)) });
    fields.push(Field { name: "rules_text", value: option_to_elm_code(&card.rules_text) });
    fields.push(Field { name: "flavor_text", value: option_to_elm_code(&card.flavor_text) });
    fields.push(Field { name: "cost", value: option_to_elm_code(&card.cost) });
    fields.push(Field { name: "icons", value: icons });
    fields.push(Field { name: "crest", value: enum_array_to_elm_code("Crest", card.crest.as_slice()) });
    fields.push(Field { name: "traits", value: string_array_to_elm_code(card.traits.as_slice()) });
    fields.push(Field { name: "strength", value: option_to_elm_code(&card.strength) });
    fields.push(Field { name: "income", value: option_to_elm_code(&card.income) });
    fields.push(Field { name: "initiative", value: option_to_elm_code(&card.initiative) });
    fields.push(Field { name: "claim", value: option_to_elm_code(&card.claim) });
    fields.push(Field { name: "influence", value: option_to_elm_code(&card.influence) });
    fields.push(Field { name: "erratas", value: erratas_to_elm_code(card.erratas.as_slice()) });
    fields.push(Field { name: "duplicate_id", value: option_to_elm_code(&card.duplicate_id) });
    assert(field_models(fields@) =~= card_fields(card@));
    Ok(fields)
}

/// The record literal of a card.
pub open spec fn card_record(card: CardModel) -> Seq<char> {
    record_text(card_fields(card))
}

/// Writes a card's record literal.
pub fn card_to_elm_code(card: &Card) -> (out: Result<String, LookupMiss>)
    ensures
        match card_miss(card@) {
            Some(miss) => out matches Err(found) && found@ == miss,
            None => out matches Ok(code) && code@ == card_record(card@),
        },
{
    match card_fields_of(card) {
        Ok(fields) => Ok(record_to_elm_code(&fields)),
        Err(miss) => Err(miss),
    }
}

/// Why a catalog was not written: the card that could not be encoded, by
/// its position in the catalog and its identifier, and the name that its
/// vocabulary does not hold.
#[derive(Clone, Debug, PartialEq, Eq)]
pub struct EncodeError {
    pub index: usize,
    pub card_id: String,
    pub miss: LookupMiss,
}

/// What an [`EncodeError`] stands for.
pub struct EncodeErrorModel {
    pub index: int,
    pub card_id: Seq<char>,
    pub miss: LookupMissModel,
}

impl View for EncodeError {
    type V = EncodeErrorModel;

    open spec fn view(&self) -> EncodeErrorModel {
        EncodeErrorModel { index: self.index as int, card_id: self.card_id@, miss: self.miss@ }
    }
}

/// The message that reports a failure: the card, by its identifier and its
/// position in the catalog, the field, and the name that is not known.
pub open spec fn failure_text(error: EncodeErrorModel) -> Seq<char> {
    "card "@ + debug_quoted(error.card_id) + " (entry "@ + decimal(error.index)
        + " of the catalog), field "@ + error.miss.vocabulary.field_text() + ": unknown name "@
        + debug_quoted(error.miss.name)
}

impl EncodeError {
    /// Writes the message that reports this failure.
    pub fn describe(&self) -> (message: String)
        ensures
            message@ == failure_text(self@),
    {
        let mut message = String::from_str("card ");
        let id = self.card_id.to_elm_code();
        message.append(id.as_str());
        message.append(" (entry ");
        let index = usize_to_decimal(self.index);
        message.append(index.as_str());
        message.append(" of the catalog), field ");
        message.append(self.miss.vocabulary.field());
        message.append(": unknown name ");
        let name = self.miss.name.to_elm_code();
        message.append(name.as_str());
        message
    }
}

/// The lines that open the module of cards.
pub const CARDS_HEADER: &'static str =
    "module Cards exposing (all_cards)\n\nimport Card exposing (..)\nimport CardSet exposing (..)\n\nall_cards : List Card\nall_cards =\n";

/// The record literals of a catalog's cards, in the catalog's order.
pub open spec fn card_records(cards: Seq<CardModel>) -> Seq<Seq<char>> {
    Seq::new(cards.len(), |i: int| card_record(cards[i]))
}

/// The module of cards: its header, then the list of the cards' records.
pub open spec fn cards_document(cards: Seq<CardModel>) -> Seq<char> {
    CARDS_HEADER@ + collection_text(card_records(cards))
}

/// Every card of the catalog names a set and icons that the vocabularies
/// hold.
pub open spec fn catalog_resolves(cards: Seq<CardModel>) -> bool {
    forall|i: int| 0 <= i < cards.len() ==> card_miss(#[trigger] cards[i]) is None
}

/// The error that the card at position `i` gives rise to.
pub open spec fn failure_at(cards: Seq<CardModel>, i: int) -> EncodeErrorModel {
    EncodeErrorModel { index: i, card_id: cards[i].id, miss: card_miss(cards[i]).unwrap() }
}

/// The card at position `i` is the first of the catalog that cannot be
/// encoded.
pub open spec fn first_failure_at(cards: Seq<CardModel>, i: int) -> bool {
    &&& 0 <= i < cards.len()
    &&& card_miss(cards[i]) is Some
    &&& forall|j: int| 0 <= j < i ==> card_miss(#[trigger] cards[j]) is None
}

/// Writes the module of cards for a catalog, the cards in the catalog's
/// order. A catalog in which some card names a set or an icon outside the
/// vocabularies is not written: the first such card is reported.
pub fn print_cards_elm_file(cards: &[Card]) -> (out: Result<String, EncodeError>)
    ensures
        out is Ok <==> catalog_resolves(card_models(cards@)),
        out matches Ok(text) ==> text@ == cards_document(card_models(cards@)),
        out matches Err(error) ==> first_failure_at(card_models(cards@), error.index as int)
            && error@ == failure_at(card_models(cards@), error.index as int),
{
    let ghost models = card_models(cards@);
    let mut records: Vec<String> = Vec::new();
    let mut i: usize = 0;
    while i < cards.len()
        invariant
            i <= cards.len(),
            models == card_models(cards@),
            forall|j: int| 0 <= j < i ==> card_miss(#[trigger] models[j]) is None,
            records.deep_view() == card_records(models).take(i as int),
        decreases cards.len() - i,
    {
        let ghost before = records.deep_view();
        let ghost all = card_records(models);
        assert(models[i as int] == cards[i as int]@);
        match card_to_elm_code(&cards[i]) {
            Ok(record) => {
                records.push(record);
                assert(records.deep_view() =~= before.push(all[i as int]));
                assert(all.take(i + 1) =~= all.take(i as int).push(all[i as int]));
            },
            Err(miss) => {
                let error = EncodeError { index: i, card_id: cards[i].id.clone(), miss };
                assert(!catalog_resolves(models));
                return Err(error);
            },
        }
        i += 1;
    }
    assert(records.deep_view() =~= card_records(models));
    let mut text = String::from_str(CARDS_HEADER);
    let list = collection_to_elm_code(&records);
    text.append(list.as_str());
    Ok(text)
}

/// The fields of a ruling's record, each with the literal of its value.
pub open spec fn faq_fields(faq: FaqModel) -> Seq<FieldModel> {
    seq![
        FieldModel { name: "cards_mentioned"@, value: string_array_text(faq.cards_mentioned) },
        FieldModel { name: "text"@, value: debug_quoted(faq.text) },
    ]
}

/// The record literal of a ruling.
pub open spec fn faq_record(faq: FaqModel) -> Seq<char> {
    record_text(faq_fields(faq))
}

/// Writes a ruling's record literal.
pub fn faq_to_elm_code(faq: &Faq) -> (code: String)
    ensures
        code@ == faq_record(faq@),
{
    let mut fields: Vec<Field> = Vec::new();
    fields.push(
        Field {
            name: "cards_mentioned",
            value: string_array_to_elm_code(faq.cards_mentioned.as_slice()),
        },
    );
    fields.push(Field { name: "text", value: faq.text.to_elm_code() });
    assert(field_models(fields@) =~= faq_fields(faq@));
    record_to_elm_code(&fields)
}

/// The lines that open the module of rulings.
pub const FAQS_HEADER: &'static str =
    "module Faqs exposing (all_faqs)\n\nimport Card exposing (..)\n\nall_faqs : List Faq\nall_faqs =\n";

/// The record literals of the rulings, in their order.
pub open spec fn faq_records(faqs: Seq<FaqModel>) -> Seq<Seq<char>> {
    Seq::new(faqs.len(), |i: int| faq_record(faqs[i]))
}

/// The module of rulings: its header, then the list of the rulings' records.
pub open spec fn faqs_document(faqs: Seq<FaqModel>) -> Seq<char> {
    FAQS_HEADER@ + collection_text(faq_records(faqs))
}

/// Writes the module of rulings, the rulings in the order given.
pub fn print_faqs_elm_file(faqs: &[Faq]) -> (text: String)
    ensures
        text@ == faqs_document(faq_models(faqs@)),
{
    let ghost models = faq_models(faqs@);
    let mut records: Vec<String> = Vec::new();
    let mut i: usize = 0;
    while i < faqs.len()
        invariant
            i <= faqs.len(),
            models == faq_models(faqs@),
            records.deep_view() == faq_records(models).take(i as int),
        decreases faqs.len() - i,
    {
        let ghost before = records.deep_view();
        let ghost all = faq_records(models);
        assert(models[i as int] == faqs[i as int]@);
        records.push(faq_to_elm_code(&faqs[i]));
        assert(records.deep_view() =~= before.push(all[i as int]));
        assert(all.take(i + 1) =~= all.take(i as int).push(all[i as int]));
        i += 1;
    }
    assert(records.deep_view() =~= faq_records(models));
    let mut text = String::from_str(FAQS_HEADER);
    let list = collection_to_elm_code(&records);
    text.append(list.as_str());
    text
}

/// The two modules that one run writes.
#[derive(Clone, Debug, PartialEq, Eq)]
pub struct ElmSources {
    pub cards: String,
    pub faqs: String,
}

/// Writes both modules, or neither: where the catalog cannot be written, no
/// text is handed out for either file.
pub fn print_elm_files(cards: &[Card], faqs: &[Faq]) -> (out: Result<ElmSources, EncodeError>)
    ensures
        out is Ok <==> catalog_resolves(card_models(cards@)),
        out matches Ok(sources) ==> sources.cards@ == cards_document(card_models(cards@))
            && sources.faqs@ == faqs_document(faq_models(faqs@)),
        out matches Err(error) ==> first_failure_at(card_models(cards@), error.index as int)
            && error@ == failure_at(card_models(cards@), error.index as int),
{
    match print_cards_elm_file(cards) {
        Ok(cards_text) => Ok(ElmSources { cards: cards_text, faqs: print_faqs_elm_file(faqs) }),
        Err(error) => Err(error),
    }
}

} // verus!
