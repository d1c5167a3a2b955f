use card_literals::page::{card_description, page_path, render_page};
use card_literals::resize::{target_size, LANDSCAPE_SIZE, PORTRAIT_SIZE};

fn traits(items: &[&str]) -> Vec<String> {
    items.iter().map(|s| s.to_string()).collect()
}

#[test]
fn description_without_traits_or_rules_keeps_its_line_break() {
    assert_eq!(card_description("Core", 1, "Character", &traits(&[]), &None), "Core #1\nCharacter");
}

#[test]
fn description_lists_traits_behind_a_dash() {
    assert_eq!(
        card_description("Core", 12, "Character", &traits(&["Lord", "Knight"]), &None),
        "Core #12\nCharacter \u{2014} Lord, Knight"
    );
}

#[test]
fn description_with_rules_text_has_bullets_for_line_breaks() {
    assert_eq!(
        card_description(
            "Kings of the Sea",
            3,
            "Plot",
            &traits(&["Scheme"]),
            &Some("First line.\nSecond line.".to_string())
        ),
        "Kings of the Sea #3 \u{2022} Plot \u{2014} Scheme \u{2022} First line. \u{2022} Second line."
    );
    assert_eq!(
        card_description("Core", -4, "Event", &traits(&[]), &Some(String::new())),
        "Core #-4 \u{2022} Event \u{2022} "
    );
}

#[test]
fn page_fills_in_each_placeholder_everywhere() {
    let template = "<img src=\"[[image]]\"><h1>[[title]]</h1><p>[[description]]</p><a href=\"#[[id]]\">[[id]]: [[title]]</a>";
    assert_eq!(
        render_page(template, "p/01001.jpg", "Jon Snow", "Core #1", "01001"),
        "<img src=\"p/01001.jpg\"><h1>Jon Snow</h1><p>Core #1</p><a href=\"#01001\">01001: Jon Snow</a>"
    );
}

#[test]
fn page_without_placeholders_is_the_template() {
    assert_eq!(render_page("<p>static</p>", "i", "t", "d", "x"), "<p>static</p>");
    assert_eq!(render_page("", "i", "t", "d", "x"), "");
}

#[test]
fn page_fills_placeholders_in_turn() {
    // A title that holds a later placeholder has it filled in as well.
    assert_eq!(render_page("[[title]]", "i", "see [[id]]", "d", "01001"), "see 01001");
    // One that holds an earlier placeholder keeps it.
    assert_eq!(render_page("[[title]]", "i", "see [[image]]", "d", "01001"), "see [[image]]");
}

#[test]
fn page_path_is_below_the_output_directory() {
    assert_eq!(page_path("out", "01001"), "out/01001.html");
    assert_eq!(page_path("", ""), "/.html");
}

#[test]
fn image_wider_than_high_lies_on_its_side() {
    assert_eq!(LANDSCAPE_SIZE, (325, 227));
    assert_eq!(target_size(800, 600), (325, 227));
    assert_eq!(target_size(2, 1), LANDSCAPE_SIZE);
    assert_eq!(target_size(u32::MAX, 0), LANDSCAPE_SIZE);
}

#[test]
fn image_not_wider_than_high_stands_upright() {
    assert_eq!(PORTRAIT_SIZE, (245, 350));
    assert_eq!(target_size(600, 800), (245, 350));
    assert_eq!(target_size(500, 500), PORTRAIT_SIZE);
    assert_eq!(target_size(0, 0), PORTRAIT_SIZE);
}
