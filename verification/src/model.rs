//! The catalog's records and their mathematical models.

use vstd::prelude::*;
use crate::lookup::{icon_expr, set_symbol};

verus! {

/// A span of a card's rules text that an erratum changed: the line, counted
/// from one, and the first and last character of the span within that line.
#[derive(Clone, Copy, Debug, PartialEq, Eq)]
pub struct Errata {
    pub line: i32,
    pub start: i32,
    pub end: i32,
}

/// What an [`Errata`] stands for.
pub struct ErrataModel {
    pub line: int,
    pub start: int,
    pub end: int,
}

impl ErrataModel {
    /// The span does not end before it starts.
    pub open spec fn well_formed(self) -> bool {
        self.start <= self.end
    }
}

impl View for Errata {
    type V = ErrataModel;

    open spec fn view(&self) -> ErrataModel {
        ErrataModel { line: self.line as int, start: self.start as int, end: self.end as int }
    }
}

/// One entry of the card catalog.
#[derive(Clone, Debug, PartialEq, Eq)]
pub struct Card {
    pub id: String,
    pub full_image_url: String,
    pub preview_image_url: String,
    pub name: String,
    pub card_type: String,
    pub set: String,
    pub number: i32,
    pub quantity: i32,
    pub limit: i32,
    pub legality_joust: String,
    pub legality_melee: String,
    pub illustrator: String,
    pub house: Vec<String>,
    pub legal_in_houses: Vec<String>,
    pub unique: bool,
    pub rules_text: Option<String>,
    pub flavor_text: Option<String>,
    pub erratas: Vec<Errata>,
    pub duplicate_id: Option<String>,
    pub cost: Option<i32>,
    pub icons: Vec<String>,
    pub crest: Vec<String>,
    pub traits: Vec<String>,
    pub strength: Option<i32>,
    pub income: Option<i32>,
    pub initiative: Option<i32>,
    pub claim: Option<i32>,
    pub influence: Option<i32>,
}

/// What a [`Card`] stands for: texts as sequences of characters, numbers as
/// integers, an absent value as `None`.
pub struct CardModel {
    pub id: Seq<char>,
    pub full_image_url: Seq<char>,
    pub preview_image_url: Seq<char>,
    pub name: Seq<char>,
    pub card_type: Seq<char>,
    pub set: Seq<char>,
    pub number: int,
    pub quantity: int,
    pub limit: int,
    pub legality_joust: Seq<char>,
    pub legality_melee: Seq<char>,
    pub illustrator: Seq<char>,
    pub house: Seq<Seq<char>>,
    pub legal_in_houses: Seq<Seq<char>>,
    pub unique: bool,
    pub rules_text: Option<Seq<char>>,
    pub flavor_text: Option<Seq<char>>,
    pub erratas: Seq<ErrataModel>,
    pub duplicate_id: Option<Seq<char>>,
    pub cost: Option<int>,
    pub icons: Seq<Seq<char>>,
    pub crest: Seq<Seq<char>>,
    pub traits: Seq<Seq<char>>,
    pub strength: Option<int>,
    pub income: Option<int>,
    pub initiative: Option<int>,
    pub claim: Option<int>,
    pub influence: Option<int>,
}

impl CardModel {
    /// What the catalog promises of each card: an identifier that is not
    /// empty; a set and icons that the vocabularies hold; a number, a
    /// quantity and a limit that are not negative; errata whose spans are
    /// well formed. Which of the optional numbers a card holds is left to
    /// the card's family and is no part of this.
    pub open spec fn well_formed(self) -> bool {
        &&& self.id.len() > 0
        &&& set_symbol(self.set) is Some
        &&& forall|k: int| 0 <= k < self.icons.len() ==> icon_expr(#[trigger] self.icons[k]) is Some
        &&& self.number >= 0
        &&& self.quantity >= 0
        &&& self.limit >= 0
        &&& forall|k: int| 0 <= k < self.erratas.len() ==> (#[trigger] self.erratas[k]).well_formed()
    }
}

/// What a catalog promises: each card is well formed, and no two cards share
/// an identifier.
pub open spec fn catalog_well_formed(cards: Seq<CardModel>) -> bool {
    &&& forall|i: int| 0 <= i < cards.len() ==> (#[trigger] cards[i]).well_formed()
    &&& forall|i: int, j: int|
        0 <= i < j < cards.len() ==> (#[trigger] cards[i]).id != (#[trigger] cards[j]).id
}

/// The model of an optional text.
pub open spec fn text_model(text: Option<String>) -> Option<Seq<char>> {
    match text {
        Some(t) => Some(t@),
        None => None,
    }
}

/// The model of an optional number.
pub open spec fn number_model(number: Option<i32>) -> Option<int> {
    match number {
        Some(n) => Some(n as int),
        None => None,
    }
}

/// The models of a list of errata, in the list's order.
pub open spec fn errata_models(erratas: Seq<Errata>) -> Seq<ErrataModel> {
    Seq::new(erratas.len(), |i: int| erratas[i]@)
}

impl View for Card {
    type V = CardModel;

    open spec fn view(&self) -> CardModel {
        CardModel {
            id: self.id@,
            full_image_url: self.full_image_url@,
            preview_image_url: self.preview_image_url@,
            name: self.name@,
            card_type: self.card_type@,
            set: self.set@,
            number: self.number as int,
            quantity: self.quantity as int,
            limit: self.limit as int,
            legality_joust: self.legality_joust@,
            legality_melee: self.legality_melee@,
            illustrator: self.illustrator@,
            house: self.house.deep_view(),
            legal_in_houses: self.legal_in_houses.deep_view(),
            unique: self.unique,
            rules_text: text_model(self.rules_text),
            flavor_text: text_model(self.flavor_text),
            erratas: errata_models(self.erratas@),
            duplicate_id: text_model(self.duplicate_id),
            cost: number_model(self.cost),
            icons: self.icons.deep_view(),
            crest: self.crest.deep_view(),
            traits: self.traits.deep_view(),
            strength: number_model(self.strength),
            income: number_model(self.income),
            initiative: number_model(self.initiative),
            claim: number_model(self.claim),
            influence: number_model(self.influence),
        }
    }
}

/// The models of a catalog's cards, in the catalog's order.
pub open spec fn card_models(cards: Seq<Card>) -> Seq<CardModel> {
    Seq::new(cards.len(), |i: int| cards[i]@)
}

/// A ruling: its text and the identifiers of the cards it speaks of.
#[derive(Clone, Debug, PartialEq, Eq)]
pub struct Faq {
    pub cards_mentioned: Vec<String>,
    pub text: String,
}

/// What a [`Faq`] stands for.
pub struct FaqModel {
    pub cards_mentioned: Seq<Seq<char>>,
    pub text: Seq<char>,
}

impl View for Faq {
    type V = FaqModel;

    open spec fn view(&self) -> FaqModel {
        FaqModel { cards_mentioned: self.cards_mentioned.deep_view(), text: self.text@ }
    }
}

/// The models of a list of rulings, in the list's order.
pub open spec fn faq_models(faqs: Seq<Faq>) -> Seq<FaqModel> {
    Seq::new(faqs.len(), |i: int| faqs[i]@)
}

} // verus!
