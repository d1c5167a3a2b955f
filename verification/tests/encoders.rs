use card_literals::encode::{
    bool_to_elm_code, bracket_list, enum_array_to_elm_code, enum_tag_to_elm_code,
    errata_to_elm_code, erratas_to_elm_code, icon_to_elm_code, icons_array_to_elm_code,
    option_to_elm_code, string_array_to_elm_code, ElmLiteral,
};
use card_literals::lookup::{IconExpr, IconKind, LookupMiss, Vocabulary};
use card_literals::model::Errata;

fn texts(items: &[&str]) -> Vec<String> {
    items.iter().map(|s| s.to_string()).collect()
}

fn without_layout(text: &str) -> String {
    text.chars().filter(|c| *c != ' ' && *c != '\n').collect()
}

#[test]
fn booleans_are_the_two_tokens() {
    assert_eq!(bool_to_elm_code(true), "True");
    assert_eq!(bool_to_elm_code(false), "False");
}

#[test]
fn string_literal_is_quoted_and_escaped() {
    assert_eq!("Jon Snow".to_string().to_elm_code(), "\"Jon Snow\"");
    assert_eq!("".to_string().to_elm_code(), "\"\"");
    assert_eq!("a \"b\" c".to_string().to_elm_code(), "\"a \\\"b\\\" c\"");
    assert_eq!("back\\slash".to_string().to_elm_code(), "\"back\\\\slash\"");
    assert_eq!("line\nbreak\ttab".to_string().to_elm_code(), "\"line\\nbreak\\ttab\"");
    assert_eq!("Night's Watch".to_string().to_elm_code(), "\"Night's Watch\"");
    assert_eq!("R\u{00e9}gion".to_string().to_elm_code(), "\"R\u{00e9}gion\"");
}

#[test]
fn number_literal_is_the_decimal_numeral() {
    assert_eq!(3.to_elm_code(), "3");
    assert_eq!((-12).to_elm_code(), "-12");
}

#[test]
fn absent_value_is_nothing() {
    assert_eq!(option_to_elm_code::<String>(&None), "Nothing");
    assert_eq!(option_to_elm_code::<i32>(&None), "Nothing");
}

#[test]
fn present_value_is_wrapped_in_just() {
    assert_eq!(option_to_elm_code(&Some(4)), "Just 4");
    assert_eq!(option_to_elm_code(&Some(0)), "Just 0");
    assert_eq!(option_to_elm_code(&Some(-2)), "Just -2");
    assert_eq!(option_to_elm_code(&Some("Stealth.".to_string())), "Just \"Stealth.\"");
    assert_eq!(option_to_elm_code(&Some(String::new())), "Just \"\"");
    assert_eq!(option_to_elm_code(&Some("Nothing".to_string())), "Just \"Nothing\"");
}

#[test]
fn bracket_list_forms() {
    assert_eq!(bracket_list(&texts(&[])), "[]");
    assert_eq!(bracket_list(&texts(&["a"])), "[ a ]");
    assert_eq!(bracket_list(&texts(&["a", "b", "c"])), "[ a, b, c ]");
}

#[test]
fn enum_tag_is_type_underscore_variant() {
    assert_eq!(enum_tag_to_elm_code("CardType", "Plot"), "CardType_Plot");
    assert_eq!(enum_tag_to_elm_code("Legality", ""), "Legality_");
}

#[test]
fn empty_enum_array_is_the_empty_list() {
    assert_eq!(enum_array_to_elm_code("House", &[]), "[]");
    assert_eq!(enum_array_to_elm_code("Crest", &[]), "[]");
}

#[test]
fn enum_array_keeps_the_order_given() {
    assert_eq!(enum_array_to_elm_code("House", &texts(&["Stark"])), "[ House_Stark ]");
    assert_eq!(
        enum_array_to_elm_code("House", &texts(&["Targaryen", "Stark", "Baratheon"])),
        "[ House_Targaryen, House_Stark, House_Baratheon ]"
    );
    assert_eq!(
        enum_array_to_elm_code("Crest", &texts(&["War", "Holy"])),
        "[ Crest_War, Crest_Holy ]"
    );
}

#[test]
fn empty_string_array_is_the_empty_list() {
    assert_eq!(string_array_to_elm_code(&[]), "[]");
}

#[test]
fn string_array_quotes_each_item() {
    assert_eq!(string_array_to_elm_code(&texts(&["Lord"])), "[ \"Lord\" ]");
    assert_eq!(
        string_array_to_elm_code(&texts(&["Lord", "Night's Watch", "a \"b\""])),
        "[ \"Lord\", \"Night's Watch\", \"a \\\"b\\\"\" ]"
    );
}

#[test]
fn icon_literals() {
    assert_eq!(
        icon_to_elm_code(IconExpr { kind: IconKind::Military, naval: false }),
        "Icon_Military { naval = False }"
    );
    assert_eq!(
        icon_to_elm_code(IconExpr { kind: IconKind::Intrigue, naval: true }),
        "Icon_Intrigue { naval = True }"
    );
    assert_eq!(
        icon_to_elm_code(IconExpr { kind: IconKind::Power, naval: false }),
        "Icon_Power { naval = False }"
    );
}

#[test]
fn empty_icon_array_is_the_empty_list() {
    assert_eq!(icons_array_to_elm_code(&[]), Ok("[]".to_string()));
}

#[test]
fn icon_array_resolves_each_name() {
    assert_eq!(
        icons_array_to_elm_code(&texts(&["Military", "Power (Naval)"])),
        Ok("[ Icon_Military { naval = False }, Icon_Power { naval = True } ]".to_string())
    );
    assert_eq!(
        icons_array_to_elm_code(&texts(&[
            "Intrigue (Naval)",
            "Intrigue",
            "Military (Naval)",
            "Power"
        ])),
        Ok("[ Icon_Intrigue { naval = True }, Icon_Intrigue { naval = False }, Icon_Military { naval = True }, Icon_Power { naval = False } ]".to_string())
    );
}

#[test]
fn icon_array_reports_the_first_unknown_name() {
    assert_eq!(
        icons_array_to_elm_code(&texts(&["Military", "Gold", "Power", "Silver"])),
        Err(LookupMiss { vocabulary: Vocabulary::Icons, name: "Gold".to_string() })
    );
    assert_eq!(
        icons_array_to_elm_code(&texts(&["power"])),
        Err(LookupMiss { vocabulary: Vocabulary::Icons, name: "power".to_string() })
    );
}

#[test]
fn errata_record() {
    assert_eq!(
        errata_to_elm_code(&Errata { line: 1, start: 12, end: 40 }),
        "{ line = 1, start = 12, end = 40 }"
    );
    assert_eq!(
        errata_to_elm_code(&Errata { line: -1, start: 0, end: -30 }),
        "{ line = -1, start = 0, end = -30 }"
    );
}

#[test]
fn no_errata_is_the_empty_list() {
    assert_eq!(erratas_to_elm_code(&[]), "[]");
}

#[test]
fn one_erratum_stands_on_one_line() {
    assert_eq!(
        erratas_to_elm_code(&[Errata { line: 2, start: 5, end: 9 }]),
        "[ { line = 2, start = 5, end = 9 } ]"
    );
}

#[test]
fn several_errata_stand_one_per_line() {
    assert_eq!(
        erratas_to_elm_code(&[
            Errata { line: 1, start: 0, end: 7 },
            Errata { line: 2, start: 3, end: 9 }
        ]),
        "\n      [ { line = 1, start = 0, end = 7 }\n      , { line = 2, start = 3, end = 9 }\n      ]"
    );
    assert_eq!(
        erratas_to_elm_code(&[
            Errata { line: 1, start: 0, end: 7 },
            Errata { line: 2, start: 3, end: 9 },
            Errata { line: 10, start: 11, end: 12 }
        ]),
        "\n      [ { line = 1, start = 0, end = 7 }\n      , { line = 2, start = 3, end = 9 }\n      , { line = 10, start = 11, end = 12 }\n      ]"
    );
}

#[test]
fn both_errata_forms_hold_the_same_records_apart_from_layout() {
    let one = erratas_to_elm_code(&[Errata { line: 2, start: 5, end: 9 }]);
    assert_eq!(without_layout(&one), "[{line=2,start=5,end=9}]");
    let three = erratas_to_elm_code(&[
        Errata { line: 2, start: 5, end: 9 },
        Errata { line: 3, start: 0, end: 1 },
        Errata { line: 4, start: -7, end: 100 },
    ]);
    assert_eq!(
        without_layout(&three),
        "[{line=2,start=5,end=9},{line=3,start=0,end=1},{line=4,start=-7,end=100}]"
    );
}

#[test]
fn errata_literal_breaks_lines_only_for_two_or_more() {
    let errata = |n: i32| Errata { line: n, start: n + 1, end: n + 2 };
    for count in 0..6 {
        let list: Vec<Errata> = (0..count).map(errata).collect();
        let text = erratas_to_elm_code(&list);
        let breaks = text.chars().filter(|c| *c == '\n').count();
        if count <= 1 {
            assert_eq!(breaks, 0);
            assert!(text.starts_with('['));
            assert!(text.ends_with(']'));
        } else {
            assert_eq!(breaks, count as usize + 1);
            assert!(text.starts_with('\n'));
        }
    }
}
