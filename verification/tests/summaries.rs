//! The summary stage: both strategies, the sentinel page id, and the
//! legacy redirect fallback with its hop bound.

use wikis::error::WikiError;
use wikis::json::Json;
use wikis::summary::{
    on_probe_response, on_summary_response, start_summary, SummaryProgress, SummaryStrategy,
    MAX_REDIRECT_HOPS,
};

fn text(s: &str) -> Json {
    Json::Text(s.to_string())
}

fn obj(fields: Vec<(&str, Json)>) -> Json {
    Json::Object(fields.into_iter().map(|(k, v)| (k.to_string(), v)).collect())
}

fn extract_query_body(page_id: &str, extract: &str) -> Json {
    obj(vec![(
        "query",
        obj(vec![(
            "pages",
            obj(vec![(page_id, obj(vec![("extract", text(extract))]))]),
        )]),
    )])
}

fn fetch(progress: SummaryProgress) -> (wikis::summary::SummaryTask, String) {
    match progress {
        SummaryProgress::FetchSummary { task, url } => (task, url),
        _ => panic!("expected a summary fetch"),
    }
}

#[test]
fn structured_url_percent_encodes_the_title() {
    let (_, url) = fetch(start_summary(
        "en",
        "AC/DC",
        "https://en.wikipedia.org/wiki/AC/DC",
        SummaryStrategy::Structured,
    ));
    assert_eq!(url, "https://en.wikipedia.org/api/rest_v1/page/summary/AC%2FDC");
}

#[test]
fn structured_url_encodes_controls_and_non_ascii() {
    let (_, url) = fetch(start_summary("en", "a\nb", "l", SummaryStrategy::Structured));
    assert_eq!(url, "https://en.wikipedia.org/api/rest_v1/page/summary/a%0Ab");
    let (_, url) = fetch(start_summary("fr", "caf\u{e9}", "l", SummaryStrategy::Structured));
    assert_eq!(url, "https://fr.wikipedia.org/api/rest_v1/page/summary/caf%C3%A9");
}

#[test]
fn query_extract_url_is_exact() {
    let (_, url) = fetch(start_summary("en", "Rust", "l", SummaryStrategy::QueryExtract));
    assert_eq!(
        url,
        "https://en.wikipedia.org/w/api.php?format=json&action=query&prop=extracts\
         &exintro&explaintext&redirects=1&titles=Rust"
    );
}

#[test]
fn structured_success_returns_the_extract_verbatim() {
    let (task, _) = fetch(start_summary("en", "Rust", "l", SummaryStrategy::Structured));
    let body = obj(vec![("extract", text("First.\nSecond."))]);
    match on_summary_response(task, 200, Some(body)) {
        SummaryProgress::Done { summary } => assert_eq!(summary, "First.\nSecond."),
        _ => panic!("expected the summary"),
    }
}

#[test]
fn structured_success_without_extract_is_malformed() {
    let (task, _) = fetch(start_summary("en", "Rust", "l", SummaryStrategy::Structured));
    match on_summary_response(task, 200, Some(obj(vec![("title", text("Rust"))]))) {
        SummaryProgress::Failed(WikiError::MalformedResponse) => {}
        _ => panic!("a missing extract must be malformed"),
    }
    let (task, _) = fetch(start_summary("en", "Rust", "l", SummaryStrategy::Structured));
    match on_summary_response(task, 204, None) {
        SummaryProgress::Failed(WikiError::MalformedResponse) => {}
        _ => panic!("an unreadable body must be malformed"),
    }
}

#[test]
fn structured_failure_status_names_title_and_link() {
    let (task, _) = fetch(start_summary(
        "en",
        "Foo",
        "https://en.wikipedia.org/wiki/Foo",
        SummaryStrategy::Structured,
    ));
    match on_summary_response(task, 404, None) {
        SummaryProgress::Failed(e @ WikiError::SummaryFetchFailed { .. }) => {
            assert_eq!(
                e.message(),
                "Couldn't fetch the summary on Foo. The link is https://en.wikipedia.org/wiki/Foo"
            );
        }
        _ => panic!("a failure status must fail the fetch"),
    }
}

#[test]
fn first_line_of_the_intro_extract_is_the_summary() {
    let (task, _) = fetch(start_summary("en", "Rust", "l", SummaryStrategy::QueryExtract));
    let body = extract_query_body("1234", "Paragraph one.\nParagraph two.");
    match on_summary_response(task, 200, Some(body)) {
        SummaryProgress::Done { summary } => assert_eq!(summary, "Paragraph one."),
        _ => panic!("expected the summary"),
    }
}

#[test]
fn extract_without_line_break_is_kept_whole() {
    let (task, _) = fetch(start_summary("en", "Rust", "l", SummaryStrategy::QueryExtract));
    let body = extract_query_body("7", "One paragraph only.");
    match on_summary_response(task, 200, Some(body)) {
        SummaryProgress::Done { summary } => assert_eq!(summary, "One paragraph only."),
        _ => panic!("expected the summary"),
    }
}

#[test]
fn sentinel_page_id_means_no_summary() {
    let (task, _) = fetch(start_summary(
        "en",
        "Nope",
        "https://en.wikipedia.org/wiki/Nope",
        SummaryStrategy::QueryExtract,
    ));
    let body = extract_query_body("-1", "irrelevant");
    match on_summary_response(task, 200, Some(body)) {
        SummaryProgress::Failed(e @ WikiError::NoSummary { .. }) => {
            assert_eq!(
                e.message(),
                "No summary found on Nope. Link: https://en.wikipedia.org/wiki/Nope"
            );
        }
        _ => panic!("the sentinel id must fail"),
    }
}

#[test]
fn shapeless_query_extract_bodies_mean_no_summary() {
    for body in [
        obj(vec![]),
        obj(vec![("query", Json::Null)]),
        obj(vec![("query", obj(vec![("pages", Json::Array(vec![]))]))]),
        obj(vec![("query", obj(vec![("pages", obj(vec![]))]))]),
        obj(vec![(
            "query",
            obj(vec![("pages", obj(vec![("5", obj(vec![("title", text("T"))]))]))]),
        )]),
    ] {
        let (task, _) = fetch(start_summary("en", "T", "L", SummaryStrategy::QueryExtract));
        match on_summary_response(task, 200, Some(body)) {
            SummaryProgress::Failed(WikiError::NoSummary { .. }) => {}
            _ => panic!("a shapeless body must mean no summary"),
        }
    }
}

#[test]
fn query_extract_failure_status_fails_the_fetch() {
    let (task, _) = fetch(start_summary("en", "T", "L", SummaryStrategy::QueryExtract));
    match on_summary_response(task, 500, Some(extract_query_body("5", "x"))) {
        SummaryProgress::Failed(WikiError::SummaryFetchFailed { .. }) => {}
        _ => panic!("a failure status must fail the fetch"),
    }
}

#[test]
fn summarizing_the_same_title_twice_gives_the_same_extract() {
    let run = || {
        let (task, _) = fetch(start_summary("en", "Rust", "l", SummaryStrategy::QueryExtract));
        let body = extract_query_body("9", "Stable extract.\nMore.");
        match on_summary_response(task, 200, Some(body)) {
            SummaryProgress::Done { summary } => summary,
            _ => panic!("expected the summary"),
        }
    };
    assert_eq!(run(), run());
}

#[test]
fn legacy_fallback_retries_on_the_redirect_target() {
    let (task, url) = fetch(start_summary(
        "en",
        "Foo",
        "https://en.wikipedia.org/wiki/Foo",
        SummaryStrategy::Structured,
    ));
    assert_eq!(url, "https://en.wikipedia.org/api/rest_v1/page/summary/Foo");
    // 403: the title is taken for a redirect stub, so its page is probed.
    let (task, probe_url) = match on_summary_response(task, 403, None) {
        SummaryProgress::Probe { task, url } => (task, url),
        _ => panic!("403 must turn into a probe"),
    };
    assert_eq!(probe_url, "https://en.wikipedia.org/wiki/Foo");
    // The probe redirects to Bar: the structured fetch is retried there.
    let (task, retry_url) = fetch(on_probe_response(
        task,
        302,
        Some("https://en.wikipedia.org/wiki/Bar"),
    ));
    assert_eq!(retry_url, "https://en.wikipedia.org/api/rest_v1/page/summary/Bar");
    assert_eq!(task.title, "Bar");
    assert_eq!(task.link, "https://en.wikipedia.org/wiki/Bar");
    // The retry succeeds: the summary is the structured summary of Bar.
    let body = obj(vec![("extract", text("Bar, a thing."))]);
    match on_summary_response(task, 200, Some(body)) {
        SummaryProgress::Done { summary } => assert_eq!(summary, "Bar, a thing."),
        _ => panic!("expected the summary of the redirect target"),
    }
}

#[test]
fn failed_probe_in_the_fallback_fails_the_run() {
    let (task, _) = fetch(start_summary(
        "en",
        "Foo",
        "https://en.wikipedia.org/wiki/Foo",
        SummaryStrategy::Structured,
    ));
    let task = match on_summary_response(task, 403, None) {
        SummaryProgress::Probe { task, .. } => task,
        _ => panic!("403 must turn into a probe"),
    };
    match on_probe_response(task, 200, Some("https://en.wikipedia.org/wiki/Bar")) {
        SummaryProgress::Failed(WikiError::ExpectedRedirect { .. }) => {}
        _ => panic!("a probe that does not redirect must fail"),
    }
}

#[test]
fn fallback_hops_are_bounded() {
    let mut progress = start_summary(
        "en",
        "Loop",
        "https://en.wikipedia.org/wiki/Loop",
        SummaryStrategy::Structured,
    );
    let mut hops = 0u32;
    let summary_failure = loop {
        progress = match progress {
            SummaryProgress::FetchSummary { task, .. } => on_summary_response(task, 403, None),
            SummaryProgress::Probe { task, .. } => {
                hops += 1;
                on_probe_response(task, 302, Some("https://en.wikipedia.org/wiki/Loop"))
            }
            SummaryProgress::Failed(e) => break e,
            SummaryProgress::Done { .. } => panic!("an endless redirect cannot succeed"),
        };
    };
    assert_eq!(hops, u32::from(MAX_REDIRECT_HOPS));
    match summary_failure {
        WikiError::TooManyRedirects { title } => assert_eq!(title, "Loop"),
        _ => panic!("the hop bound must end the run"),
    }
}
