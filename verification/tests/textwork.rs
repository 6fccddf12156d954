//! The character-level utilities, the interactive selector texts, the
//! output rendering, and the diagnostic messages.

use wikis::error::WikiError;
use wikis::output::{render_output, Terminal};
use wikis::select::{usize_to_decimal, NthTopicSelector, TopicSelector, TopicSelectorDmenu,
    TopicSelectorTerminal};
use wikis::text::{first_line, join_with, str_eq, tail_after_last, trim_spaces};
use wikis::topic::TopicTakerStdin;

fn owned(items: &[&str]) -> Vec<String> {
    items.iter().map(|s| s.to_string()).collect()
}

#[test]
fn str_eq_compares_by_characters() {
    assert!(str_eq("", ""));
    assert!(str_eq("caf\u{e9}", "caf\u{e9}"));
    assert!(!str_eq("a", "ab"));
    assert!(!str_eq("Rust", "rust"));
}

#[test]
fn trimming_removes_surrounding_blanks_only() {
    assert_eq!(trim_spaces("  a b \r\n"), "a b");
    assert_eq!(trim_spaces("\t\n"), "");
    assert_eq!(trim_spaces("plain"), "plain");
}

#[test]
fn first_line_stops_at_the_first_line_feed() {
    assert_eq!(first_line("Paragraph one.\nParagraph two."), "Paragraph one.");
    assert_eq!(first_line("no break"), "no break");
    assert_eq!(first_line("\nrest"), "");
    assert_eq!(first_line(""), "");
}

#[test]
fn tail_after_last_takes_the_last_occurrence() {
    assert_eq!(
        tail_after_last("https://en.wikipedia.org/wiki/Albert_Einstein", "wikipedia.org/wiki/"),
        "Albert_Einstein"
    );
    assert_eq!(tail_after_last("a.org/wiki/Xwikipedia.org/wiki/B", "wikipedia.org/wiki/"), "B");
    assert_eq!(tail_after_last("no marker here", "wikipedia.org/wiki/"), "no marker here");
    assert_eq!(tail_after_last("abc", ""), "");
}

#[test]
fn join_with_puts_the_separator_between_items() {
    assert_eq!(join_with(&owned(&["a", "b", "c"]), "\n"), "a\nb\nc");
    assert_eq!(join_with(&owned(&["solo"]), "\n"), "solo");
    assert_eq!(join_with(&owned(&[]), "\n"), "");
    assert_eq!(join_with(&owned(&["two", "words"]), " "), "two words");
}

#[test]
fn decimal_rendering_is_exact() {
    assert_eq!(usize_to_decimal(0), "0");
    assert_eq!(usize_to_decimal(7), "7");
    assert_eq!(usize_to_decimal(10), "10");
    assert_eq!(usize_to_decimal(120), "120");
}

#[test]
fn the_terminal_prompt_lists_numbered_candidates() {
    let sel = TopicSelectorTerminal { show_prompt_text: true };
    let topics = owned(&["Apple", "Banana"]);
    assert_eq!(
        sel.prompt_text(&topics),
        "Topics:\n 1: Apple\n 2: Banana\nSelect a topic (Default: \"Apple\"): "
    );
}

#[test]
fn the_terminal_prompt_pads_to_two_columns() {
    let sel = TopicSelectorTerminal { show_prompt_text: true };
    let topics = owned(&["a", "b", "c", "d", "e", "f", "g", "h", "i", "j", "k"]);
    let text = sel.prompt_text(&topics);
    assert!(text.contains("\n 9: i\n10: j\n11: k\n"));
}

#[test]
fn the_terminal_selector_reads_a_line() {
    let sel = TopicSelectorTerminal { show_prompt_text: false };
    let topics = owned(&["A", "B", "C"]);
    assert_eq!(sel.choose_from_line(&topics, "\n"), Some(0));
    assert_eq!(sel.choose_from_line(&topics, "3\n"), Some(2));
    assert_eq!(sel.choose_from_line(&topics, "9\n"), None);
}

#[test]
fn the_fixed_selector_always_picks_its_position() {
    let sel = NthTopicSelector(2);
    assert_eq!(sel.select(&owned(&["A", "B", "C"])), Some(2));
    assert!(sel.skip_selection_if_single_topic());
}

#[test]
fn the_picker_gets_the_candidates_and_returns_a_position() {
    let sel = TopicSelectorDmenu;
    let topics = owned(&["Alpha", "Beta"]);
    assert_eq!(sel.picker_input(&topics), "Alpha\nBeta");
    assert_eq!(sel.picked_index(&topics, "Beta\n"), Some(1));
    assert_eq!(sel.picked_index(&topics, "Gamma"), None);
}

#[test]
fn the_stdin_topic_is_the_trimmed_line() {
    let taker = TopicTakerStdin { show_prompt_text: false };
    assert_eq!(taker.topic_from_line(" the topic \n"), "the topic");
}

#[test]
fn terminal_rendering_is_one_line_each() {
    assert_eq!(Terminal.render("T", "L", "S"), "T\nL\nS\n");
}

#[test]
fn output_flags_suppress_link_and_summary() {
    assert_eq!(render_output("T", "L", "S", true, true), "T\nL\nS\n");
    assert_eq!(render_output("T", "L", "S", false, true), "T\nS\n");
    assert_eq!(render_output("T", "L", "S", true, false), "T\nL\n");
    assert_eq!(render_output("T", "L", "S", false, false), "T\n");
}

#[test]
fn every_failure_has_its_diagnostic() {
    assert_eq!(WikiError::InvalidLanguage.message(), "Invalid lang code");
    assert_eq!(WikiError::IndexOutOfBound.message(), "Index out of bound");
    assert_eq!(WikiError::SelectionFailed.message(), "Error parsing the input");
    assert_eq!(WikiError::MalformedResponse.message(), "Malformed API response");
    assert_eq!(
        WikiError::NothingFound { topic: "x".to_string() }.message(),
        "Nothing related to x was found."
    );
    assert_eq!(
        WikiError::TooManyRedirects { title: "t".to_string() }.message(),
        "Too many redirections on t"
    );
    assert_eq!(
        WikiError::Transport { detail: "connection refused".to_string() }.message(),
        "connection refused"
    );
}
