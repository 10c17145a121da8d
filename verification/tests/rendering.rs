use ebacktrace::text::render_text;

const HINT: &str = "\n\nNo backtrace captured; set RUST_BACKTRACE=1 to enable capture";

#[test]
fn render_text_payload_only_with_hint() {
    let text = render_text("Testolope", "", None);
    assert_eq!(text, format!("Testolope{}", HINT));
}

#[test]
fn render_text_description_in_parentheses() {
    let text = render_text("Testolope", "ctx", None);
    assert_eq!(
        text,
        "Testolope (ctx)\n\nNo backtrace captured; set RUST_BACKTRACE=1 to enable capture"
    );
}

#[test]
fn render_text_backtrace_under_header() {
    let text = render_text("Testolope", "", Some("   0: main\n"));
    assert_eq!(text, "Testolope\n\nBacktrace:\n   0: main\n");
}

#[test]
fn render_text_all_parts() {
    let text = render_text("E", "while reading", Some("frames"));
    assert_eq!(text, "E (while reading)\n\nBacktrace:\nframes");
}

#[test]
fn render_text_empty_everything() {
    assert_eq!(render_text("", "", Some("")), "\n\nBacktrace:\n");
    assert_eq!(render_text("", "", None), HINT);
}

#[test]
fn render_text_description_shown_iff_not_empty() {
    for d in ["", "a", "ctx", "two words", "()"] {
        for trace in [None, Some("0: f")] {
            let text = render_text("payload", d, trace);
            let shown = format!(" ({})", d);
            assert_eq!(text.contains(&shown), !d.is_empty());
        }
    }
}

#[test]
fn render_text_description_follows_payload_directly() {
    let text = render_text("payload", "ctx", Some("0: f"));
    assert!(text.starts_with("payload (ctx)"));
    assert_eq!(text.find(" (ctx)"), Some("payload".len()));
}

#[test]
fn render_text_empty_parentheses_of_the_payload_stay() {
    let text = render_text("call ()", "", None);
    assert!(text.contains(" ()"));
}

#[test]
fn render_text_hint_replaces_backtrace_section() {
    let text = render_text("payload", "ctx", None);
    assert!(text.contains(HINT));
    assert!(text.ends_with(HINT));
    assert!(!text.contains("Backtrace:"));
}

#[test]
fn render_text_label_of_the_payload_stays() {
    let text = render_text("Backtrace: none", "", None);
    assert!(text.contains("Backtrace:"));
}

#[test]
fn render_text_is_repeatable() {
    let first = render_text("payload", "ctx", Some("0: f"));
    let second = render_text("payload", "ctx", Some("0: f"));
    assert_eq!(first, second);
}

#[test]
fn render_text_keeps_non_ascii() {
    let text = render_text("Fehler: größe", "für λ", Some("→"));
    assert_eq!(text, "Fehler: größe (für λ)\n\nBacktrace:\n→");
}
