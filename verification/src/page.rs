//! The page of a card: the text that describes the card, and the template
//! with its four placeholders filled in.

use vstd::prelude::*;
use vstd::string::*;
use crate::text::{
    count_char, decimal, i32_to_decimal, join, join_strings, lemma_replaced_char_is_gone,
    lemma_replaced_without_match, occurs_in, replace_all, replaced,
};

verus! {

/// The first lines of a card's description: its set and its number within
/// the set, then its type and, where it has any, its traits behind a dash.
pub open spec fn description_head(
    set: Seq<char>,
    number: int,
    card_type: Seq<char>,
    traits: Seq<Seq<char>>,
) -> Seq<char> {
    let head = set + " #"@ + decimal(number) + "\n"@ + card_type;
    if traits.len() == 0 {
        head
    } else {
        head + " — "@ + join(traits, ", "@)
    }
}

/// A card's description. A card with rules text has the text appended on a
/// line of its own, and the line breaks of the whole then replaced by
/// bullets; one without keeps its line break.
pub open spec fn description_text(
    set: Seq<char>,
    number: int,
    card_type: Seq<char>,
    traits: Seq<Seq<char>>,
    rules_text: Option<Seq<char>>,
) -> Seq<char> {
    let head = description_head(set, number, card_type, traits);
    match rules_text {
        Some(text) => replaced(head + "\n"@ + text, "\n"@, " • "@),
        None => head,
    }
}

/// Writes a card's description.
pub fn card_description(
    set: &str,
    number: i32,
    card_type: &str,
    traits: &Vec<String>,
    rules_text: &Option<String>,
) -> (description: String)
    ensures
        description@ == description_text(
            set@,
            number as int,
            card_type@,
            traits.deep_view(),
            match *rules_text {
                Some(text) => Some(text@),
                None => None,
            },
        ),
{
    let mut description = String::from_str(set);
    description.append(" #");
    let numeral = i32_to_decimal(number);
    description.append(numeral.as_str());
    description.append("\n");
    description.append(card_type);
    if traits.len() > 0 {
        description.append(" — ");
        let joined = join_strings(traits, ", ");
        description.append(joined.as_str());
    }
    match rules_text {
        Some(text) => {
            description.append("\n");
            description.append(text.as_str());
            replace_all(description.as_str(), "\n", " • ")
        },
        None => description,
    }
}

/// A template with its placeholders filled in, one after the other: the
/// image, the title, the description, the identifier. A value put in for
/// one placeholder is searched for the placeholders that come after it.
pub open spec fn page_text(
    template: Seq<char>,
    image: Seq<char>,
    title: Seq<char>,
    description: Seq<char>,
    id: Seq<char>,
) -> Seq<char> {
    replaced(
        replaced(
            replaced(replaced(template, "[[image]]"@, image), "[[title]]"@, title),
            "[[description]]"@,
            description,
        ),
        "[[id]]"@,
        id,
    )
}

/// Fills in a template's placeholders for one card.
pub fn render_page(template: &str, image: &str, title: &str, description: &str, id: &str) -> (page:
    String)
    ensures
        page@ == page_text(template@, image@, title@, description@, id@),
{
    let with_image = replace_all(template, "[[image]]", image);
    let with_title = replace_all(with_image.as_str(), "[[title]]", title);
    let with_description = replace_all(with_title.as_str(), "[[description]]", description);
    replace_all(with_description.as_str(), "[[id]]", id)
}

/// The path of a card's page below the output directory.
pub open spec fn page_path_text(output_dir: Seq<char>, id: Seq<char>) -> Seq<char> {
    output_dir + "/"@ + id + ".html"@
}

/// Writes the path of a card's page below the output directory.
pub fn page_path(output_dir: &str, id: &str) -> (path: String)
    ensures
        path@ == page_path_text(output_dir@, id@),
{
    let mut path = String::from_str(output_dir);
    path.append("/");
    path.append(id);
    path.append(".html");
    path
}

/// A template that holds none of the four placeholders is its own page,
/// whatever the card.
pub proof fn law_page_without_placeholders(
    template: Seq<char>,
    image: Seq<char>,
    title: Seq<char>,
    description: Seq<char>,
    id: Seq<char>,
)
    requires
        !occurs_in(template, "[[image]]"@),
        !occurs_in(template, "[[title]]"@),
        !occurs_in(template, "[[description]]"@),
        !occurs_in(template, "[[id]]"@),
    ensures
        page_text(template, image, title, description, id) == template,
{
    reveal_strlit("[[image]]");
    reveal_strlit("[[title]]");
    reveal_strlit("[[description]]");
    reveal_strlit("[[id]]");
    lemma_replaced_without_match(template, "[[image]]"@, image);
    lemma_replaced_without_match(template, "[[title]]"@, title);
    lemma_replaced_without_match(template, "[[description]]"@, description);
    lemma_replaced_without_match(template, "[[id]]"@, id);
}

/// The description of a card with rules text stands on one line, however
/// many lines the rules text has.
pub proof fn law_description_with_rules_on_one_line(
    set: Seq<char>,
    number: int,
    card_type: Seq<char>,
    traits: Seq<Seq<char>>,
    rules_text: Seq<char>,
)
    ensures
        count_char(description_text(set, number, card_type, traits, Some(rules_text)), '\n')
            == 0,
{
    reveal_strlit("\n");
    reveal_strlit(" • ");
    reveal_with_fuel(count_char, 4);
    assert("\n"@ =~= seq!['\n']);
    assert(count_char(" • "@, '\n') == 0);
    let whole = description_head(set, number, card_type, traits) + "\n"@ + rules_text;
    lemma_replaced_char_is_gone(whole, '\n', " • "@);
}

} // verus!
