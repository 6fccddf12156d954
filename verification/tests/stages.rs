//! The front of the pipeline: language validation, search-response
//! parsing, disambiguation, and the special-page policy.

use wikis::error::WikiError;
use wikis::json::Json;
use wikis::lang::is_supported_language;
use wikis::search::{parse_search_response, start_search};
use wikis::select::{choice_from_line, resolve_choice, ChoiceOutcome};
use wikis::special::{is_quirky_title, plan_topic, resolve_redirect, wiki_page_url, TopicAction};

fn text(s: &str) -> Json {
    Json::Text(s.to_string())
}

fn search_body(topic: &str, titles: &[&str], links: &[&str]) -> Json {
    Json::Array(vec![
        text(topic),
        Json::Array(titles.iter().map(|t| text(t)).collect()),
        Json::Array(titles.iter().map(|_| text("")).collect()),
        Json::Array(links.iter().map(|l| text(l)).collect()),
    ])
}

#[test]
fn known_language_codes_pass() {
    assert!(is_supported_language("en"));
    assert!(is_supported_language("de"));
    assert!(is_supported_language("simple"));
    assert!(is_supported_language("zh-yue"));
    assert!(is_supported_language("bdr"));
}

#[test]
fn unknown_language_codes_fail_before_any_request() {
    for bad in ["xx", "", "EN", "e", "n\nf", "english"] {
        assert!(!is_supported_language(bad), "{bad:?} must be rejected");
        match start_search(bad, "cats") {
            Err(WikiError::InvalidLanguage) => {}
            other => panic!("expected invalid-language failure, got {:?}", other.is_ok()),
        }
    }
}

#[test]
fn search_url_is_exact() {
    let url = start_search("en", "rust").unwrap();
    assert_eq!(
        url,
        "https://en.wikipedia.org/w/api.php?format=json&action=opensearch&search=rust"
    );
}

#[test]
fn search_topic_is_percent_encoded() {
    let url = start_search("en", "AC/DC").unwrap();
    assert_eq!(
        url,
        "https://en.wikipedia.org/w/api.php?format=json&action=opensearch&search=AC%2FDC"
    );
}

#[test]
fn search_response_parses_titles_and_links() {
    let body = search_body(
        "rust",
        &["Rust", "Rust (fungus)"],
        &[
            "https://en.wikipedia.org/wiki/Rust",
            "https://en.wikipedia.org/wiki/Rust_(fungus)",
        ],
    );
    let sr = parse_search_response(Some(body)).unwrap();
    assert_eq!(sr.titles, vec!["Rust", "Rust (fungus)"]);
    assert_eq!(
        sr.links,
        vec![
            "https://en.wikipedia.org/wiki/Rust",
            "https://en.wikipedia.org/wiki/Rust_(fungus)",
        ]
    );
}

#[test]
fn search_response_with_no_titles_parses_empty() {
    let sr = parse_search_response(Some(search_body("qqq", &[], &[]))).unwrap();
    assert!(sr.titles.is_empty());
    assert!(sr.links.is_empty());
}

#[test]
fn malformed_search_responses_are_rejected() {
    let cases: Vec<Option<Json>> = vec![
        None,
        Some(Json::Null),
        Some(Json::Array(vec![text("q"), Json::Array(vec![]), Json::Array(vec![])])),
        Some(Json::Array(vec![
            Json::Number,
            Json::Array(vec![]),
            Json::Array(vec![]),
            Json::Array(vec![]),
        ])),
        Some(Json::Array(vec![
            text("q"),
            Json::Array(vec![Json::Number]),
            Json::Array(vec![]),
            Json::Array(vec![Json::Null]),
        ])),
        // titles and links of different number
        Some(search_body("q", &["A", "B"], &["only-one"])),
    ];
    for body in cases {
        match parse_search_response(body) {
            Err(WikiError::MalformedResponse) => {}
            _ => panic!("expected a malformed-response failure"),
        }
    }
}

#[test]
fn explicit_index_selects_one_based() {
    let sr = parse_search_response(Some(search_body(
        "q",
        &["A", "B", "C"],
        &["la", "lb", "lc"],
    )))
    .unwrap();
    match resolve_choice(&sr, "q", Some(2)) {
        ChoiceOutcome::Selected(t) => {
            assert_eq!(t.title, "B");
            assert_eq!(t.link, "lb");
        }
        _ => panic!("expected a selection"),
    }
    match resolve_choice(&sr, "q", Some(1)) {
        ChoiceOutcome::Selected(t) => assert_eq!(t.title, "A"),
        _ => panic!("expected a selection"),
    }
}

#[test]
fn out_of_range_index_fails_without_further_requests() {
    let sr = parse_search_response(Some(search_body(
        "q",
        &["A", "B", "C"],
        &["la", "lb", "lc"],
    )))
    .unwrap();
    for bad in [0usize, 4, 100] {
        match resolve_choice(&sr, "q", Some(bad)) {
            ChoiceOutcome::Rejected(WikiError::IndexOutOfBound) => {}
            _ => panic!("index {bad} must be rejected"),
        }
    }
}

#[test]
fn single_candidate_is_taken_without_a_prompt() {
    let sr = parse_search_response(Some(search_body("q", &["Only"], &["lo"]))).unwrap();
    match resolve_choice(&sr, "q", None) {
        ChoiceOutcome::Selected(t) => {
            assert_eq!(t.title, "Only");
            assert_eq!(t.link, "lo");
        }
        _ => panic!("a single candidate must be auto-selected"),
    }
}

#[test]
fn zero_candidates_fail_before_any_summary_request() {
    let sr = parse_search_response(Some(search_body("qqq", &[], &[]))).unwrap();
    match resolve_choice(&sr, "qqq", None) {
        ChoiceOutcome::Rejected(e @ WikiError::NothingFound { .. }) => {
            assert_eq!(e.message(), "Nothing related to qqq was found.");
        }
        _ => panic!("zero candidates must fail the run"),
    }
}

#[test]
fn several_candidates_without_index_need_a_selection() {
    let sr = parse_search_response(Some(search_body("q", &["A", "B"], &["la", "lb"]))).unwrap();
    assert!(matches!(
        resolve_choice(&sr, "q", None),
        ChoiceOutcome::NeedSelection
    ));
}

#[test]
fn selecting_a_position_is_bounds_checked() {
    let sr = parse_search_response(Some(search_body("q", &["A", "B"], &["la", "lb"]))).unwrap();
    let t = wikis::select::select_candidate(&sr, 1).unwrap();
    assert_eq!(t.title, "B");
    assert_eq!(t.link, "lb");
    assert!(wikis::select::select_candidate(&sr, 2).is_none());
}

#[test]
fn empty_selection_line_accepts_the_default() {
    assert_eq!(choice_from_line("", 3), Some(0));
    assert_eq!(choice_from_line("\n", 3), Some(0));
    assert_eq!(choice_from_line("   \r\n", 3), Some(0));
}

#[test]
fn numeric_selection_lines_are_one_based_and_bounded() {
    assert_eq!(choice_from_line("1\n", 3), Some(0));
    assert_eq!(choice_from_line("3", 3), Some(2));
    assert_eq!(choice_from_line("+2", 3), Some(1));
    assert_eq!(choice_from_line("4", 3), None);
    assert_eq!(choice_from_line("0", 3), None);
    assert_eq!(choice_from_line("-1", 3), None);
    assert_eq!(choice_from_line("two", 3), None);
    assert_eq!(choice_from_line("12345678901234567890123", 3), None);
}

#[test]
fn denylisted_titles_fail_before_any_summary_request() {
    let quirky = [
        "Special:RandomRedirect",
        "Special:RandomInCategory",
        "Special:WhatLinksHere",
        "Special:AllPages",
        "Special:RecentChanges",
        "Special:ShortPages",
        "Special:LongPages",
        "Special:DeadendPages",
        "Special:UncategorizedPages",
        "Special:WantedPages",
        "Special:Randomredirect",
        "Special:MostLinkedPages",
        "Special:DisambiguationPages",
    ];
    for title in quirky {
        assert!(is_quirky_title(title));
        let link = format!("https://en.wikipedia.org/wiki/{title}");
        match plan_topic(title, &link) {
            TopicAction::Reject(WikiError::QuirkyTitle { .. }) => {}
            _ => panic!("{title} must be rejected"),
        }
    }
    let e = match plan_topic(
        "Special:AllPages",
        "https://en.wikipedia.org/wiki/Special:AllPages",
    ) {
        TopicAction::Reject(e) => e,
        _ => panic!(),
    };
    assert_eq!(
        e.message(),
        "Quirky Wikipedia page: Special:AllPages\nOpen the page in the browser instead.\n\
         Link: https://en.wikipedia.org/wiki/Special:AllPages"
    );
}

#[test]
fn ordinary_titles_go_straight_to_the_summary_stage() {
    assert!(!is_quirky_title("Albert Einstein"));
    assert!(matches!(
        plan_topic("Albert Einstein", "https://en.wikipedia.org/wiki/Albert_Einstein"),
        TopicAction::Summarize
    ));
}

#[test]
fn random_requests_probe_their_urls() {
    match plan_topic("Special:Random", "https://de.wikipedia.org/wiki/Special:Random") {
        TopicAction::Probe { url } => {
            assert_eq!(url, "https://en.wikipedia.org/wiki/Special:Random");
        }
        _ => panic!("a random-article request must probe"),
    }
    match plan_topic(
        "Special:RandomRootpage",
        "https://de.wikipedia.org/wiki/Special:RandomRootpage",
    ) {
        TopicAction::Probe { url } => {
            assert_eq!(url, "https://de.wikipedia.org/wiki/Special:RandomRootpage");
        }
        _ => panic!("a random-root-page request must probe its own link"),
    }
}

#[test]
fn wiki_page_urls_are_exact() {
    assert_eq!(
        wiki_page_url("de", "Special:RandomRootpage"),
        "https://de.wikipedia.org/wiki/Special:RandomRootpage"
    );
}

#[test]
fn redirect_probe_answers_resolve_to_title_and_link() {
    let r = resolve_redirect(
        302,
        Some("https://en.wikipedia.org/wiki/Albert_Einstein"),
        "https://en.wikipedia.org/wiki/Special:Random",
    )
    .unwrap();
    assert_eq!(r.title, "Albert_Einstein");
    assert_eq!(r.link, "https://en.wikipedia.org/wiki/Albert_Einstein");
}

#[test]
fn non_redirect_probe_answers_fail_with_the_probed_link() {
    let attempted = "https://en.wikipedia.org/wiki/Special:Random";
    match resolve_redirect(200, Some("https://en.wikipedia.org/wiki/X"), attempted) {
        Err(e @ WikiError::ExpectedRedirect { .. }) => {
            assert_eq!(e.message(), format!("Expected redirection.\nLink: {attempted}"));
        }
        _ => panic!("a non-redirect answer must fail"),
    }
    assert!(matches!(
        resolve_redirect(302, None, attempted),
        Err(WikiError::ExpectedRedirect { .. })
    ));
}
