use filterflow::clean::{clean_html_content, description_for, tidy_text, trimmed};
use filterflow::oracle::{
    filter_prompt, filter_verdict, join_terms, placeholder_count, read_filter_reply, summary_prompt,
    summary_text, FilterReply,
};
use filterflow::text::same_text;

#[test]
fn description_sanitation() {
    let out = clean_html_content("<p>Breaking: http://example.com news</p>");
    assert_eq!(out, "Breaking: example.com news");
    assert!(!out.contains('<') && !out.contains('>'));
    assert!(!out.contains("http://") && !out.contains("https://"));
    assert!(!out.contains("  "));
}

#[test]
fn sanitation_collapses_breaks_and_spaces() {
    assert_eq!(clean_html_content("a\n\nb   c\r\nd"), "a b c d");
    assert_eq!(clean_html_content("<b>x</b><i>y</i>"), "x y");
}

#[test]
fn sanitation_drops_pin_and_https() {
    assert_eq!(clean_html_content("\u{1f4ce} see https://site.org/x"), "see site.org/x");
}

#[test]
fn unclosed_angle_stays() {
    assert_eq!(clean_html_content("a < b"), "a < b");
    assert_eq!(clean_html_content("<a href='x'>link"), "link");
}

#[test]
fn tidy_text_of_stripped_text() {
    assert_eq!(tidy_text("  one \n two  "), "one two");
    assert_eq!(tidy_text(""), "");
}

#[test]
fn list_content_rule() {
    assert_eq!(description_for("<ol><li>Long prose here</li></ol>"), "");
    assert_eq!(description_for("   <ol>anything at all"), "");
    assert_eq!(description_for("<ul><li>item</li></ul>"), "item");
}

#[test]
fn trimmed_removes_unicode_whitespace() {
    assert_eq!(trimmed("\u{3000} x \t"), "x");
    assert_eq!(trimmed("   "), "");
}

#[test]
fn same_text_compares_characters() {
    assert!(same_text("abc", "abc"));
    assert!(!same_text("abc", "abd"));
    assert!(!same_text("ab", "abc"));
}

#[test]
fn fail_closed_classification() {
    for text in ["yes", "", "01", "1.", "true", "0 1"] {
        assert_eq!(read_filter_reply(text), FilterReply::Unrecognized, "{text:?}");
        assert!(!filter_verdict(&Some(text.to_string())));
    }
    assert!(!filter_verdict(&None));
    assert!(!filter_verdict(&Some("0".to_string())));
    assert_eq!(read_filter_reply(" 0\n"), FilterReply::Irrelevant);
}

#[test]
fn verdict_accepts_trimmed_one() {
    assert_eq!(read_filter_reply("1"), FilterReply::Relevant);
    assert!(filter_verdict(&Some("\n1 ".to_string())));
}

#[test]
fn summary_text_trims_or_marks_empty() {
    assert_eq!(summary_text(&None), "[empty summary]");
    assert_eq!(summary_text(&Some("  A short summary. \n".to_string())), "A short summary.");
}

#[test]
fn terms_are_joined_with_commas() {
    let terms = vec!["economy".to_string(), "energy".to_string(), "ports".to_string()];
    assert_eq!(join_terms(&terms), "economy, energy, ports");
    assert_eq!(join_terms(&vec![]), "");
    assert_eq!(join_terms(&vec!["one".to_string()]), "one");
}

#[test]
fn filter_prompt_embeds_everything() {
    let p = filter_prompt("T1", "D1", &vec!["a".to_string(), "b".to_string()], &vec!["c".to_string()]);
    assert!(p.starts_with("Avalie a relevância da notícia. Título: 'T1' | Descrição: 'D1'."));
    assert!(p.contains("INCLUSÃO: (a, b)"));
    assert!(p.contains("termos: (c)."));
    assert!(p.ends_with("Responda APENAS '1' ou '0'."));
}

#[test]
fn summary_prompt_fills_placeholders() {
    assert_eq!(summary_prompt("Resuma: {} - {}!", "T", "D"), "Resuma: T - D!");
    assert_eq!(summary_prompt("Resuma {}", "T", "D"), "Resuma T D");
    assert_eq!(summary_prompt("Resuma", "T", "D"), "Resuma T D");
}

#[test]
fn placeholder_count_counts_braces() {
    assert_eq!(placeholder_count("Title: {} Text: {}"), 2);
    assert_eq!(placeholder_count("none"), 0);
    assert_eq!(placeholder_count("{{}"), 2);
}
