//! The summary stage: fetching a one-paragraph plain-text summary for a
//! resolved title.
//!
//! Two strategies exist. The structured one asks the page-summary endpoint
//! and returns its `extract` field verbatim; an answer of 403 is taken to
//! mean that the title is itself a redirect stub, so the article page is
//! probed for its redirect target and the fetch is retried on that target,
//! at most `MAX_REDIRECT_HOPS` times. The query-extract one asks the
//! generic query API and keeps only the first line of the intro extract.
//!
//! The stage is a state machine: each function takes the plain values read
//! from one response and answers with the summary, the next request to
//! make, or the failure. The caller performs the requests.

use vstd::prelude::*;
use vstd::string::StringExecFns;

use crate::encode::{percent_encode_component, percent_encoded};
use crate::error::{error_model, ErrorModel, WikiError};
use crate::json::{json_field, json_text_field, Json};
use crate::special::{is_redirect_status, redirect_resolution_of, resolve_redirect, title_of_link};
use crate::text::{first_line, first_line_of, str_eq};

verus! {

/// How many redirect-stub hops the fallback may take before it fails.
pub const MAX_REDIRECT_HOPS: u8 = 5;

/// Which summary endpoint to ask.
#[derive(Clone, Copy)]
pub enum SummaryStrategy {
    /// The structured page-summary endpoint.
    Structured,
    /// The generic query API asking for the intro extract.
    QueryExtract,
}

/// One summary fetch in flight: what is asked, where its answer belongs,
/// and how many fallback hops are left.
pub struct SummaryTask {
    pub lang: String,
    pub title: String,
    pub link: String,
    pub strategy: SummaryStrategy,
    pub hops_left: u8,
}

/// Where the stage stands after one step.
pub enum SummaryProgress {
    /// The summary is in hand.
    Done { summary: String },
    /// Fetch `url` and hand the answer to `on_summary_response`.
    FetchSummary { task: SummaryTask, url: String },
    /// Probe `url` without following redirects and hand the answer to
    /// `on_probe_response`.
    Probe { task: SummaryTask, url: String },
    /// The stage failed; the pipeline ends.
    Failed(WikiError),
}

/// The ghost image of a `SummaryTask`.
pub struct TaskModel {
    pub lang: Seq<char>,
    pub title: Seq<char>,
    pub link: Seq<char>,
    pub strategy: SummaryStrategy,
    pub hops_left: nat,
}

/// The ghost image of a `SummaryProgress`.
pub enum ProgressModel {
    Done { summary: Seq<char> },
    FetchSummary { task: TaskModel, url: Seq<char> },
    Probe { task: TaskModel, url: Seq<char> },
    Failed(ErrorModel),
}

/// The ghost image of a task.
pub open spec fn task_model(t: SummaryTask) -> TaskModel {
    TaskModel {
        lang: t.lang@,
        title: t.title@,
        link: t.link@,
        strategy: t.strategy,
        hops_left: t.hops_left as nat,
    }
}

/// The ghost image of a progress value.
pub open spec fn progress_model(p: SummaryProgress) -> ProgressModel {
    match p {
        SummaryProgress::Done { summary } => ProgressModel::Done { summary: summary@ },
        SummaryProgress::FetchSummary { task, url } => ProgressModel::FetchSummary {
            task: task_model(task),
            url: url@,
        },
        SummaryProgress::Probe { task, url } => ProgressModel::Probe {
            task: task_model(task),
            url: url@,
        },
        SummaryProgress::Failed(e) => ProgressModel::Failed(error_model(e)),
    }
}

/// The structured page-summary URL; the title is percent-encoded.
pub open spec fn structured_summary_url_of(lang: Seq<char>, title: Seq<char>) -> Seq<char> {
    "https://"@ + lang + ".wikipedia.org/api/rest_v1/page/summary/"@ + percent_encoded(title)
}

/// The query-extract URL: the intro extract as plain text, with redirects
/// resolved by the server.
pub open spec fn query_extract_url_of(lang: Seq<char>, title: Seq<char>) -> Seq<char> {
    "https://"@ + lang
        + ".wikipedia.org/w/api.php?format=json&action=query&prop=extracts&exintro&explaintext&redirects=1&titles="@
        + title
}

/// The request URL of one strategy for one title.
pub open spec fn summary_request_url_of(
    strategy: SummaryStrategy,
    lang: Seq<char>,
    title: Seq<char>,
) -> Seq<char> {
    match strategy {
        SummaryStrategy::Structured => structured_summary_url_of(lang, title),
        SummaryStrategy::QueryExtract => query_extract_url_of(lang, title),
    }
}

/// Builds the request URL of `strategy` for `title` on the `lang` edition.
pub fn summary_request_url(strategy: SummaryStrategy, lang: &str, title: &str) -> (r: String)
    ensures
        r@ == summary_request_url_of(strategy, lang@, title@),
{
    match strategy {
        SummaryStrategy::Structured => {
            let mut u = String::from_str("https://");
            u.append(lang);
            u.append(".wikipedia.org/api/rest_v1/page/summary/");
            let enc = percent_encode_component(title);
            u.append(enc.as_str());
            u
        },
        SummaryStrategy::QueryExtract => {
            let mut u = String::from_str("https://");
            u.append(lang);
            u.append(
                ".wikipedia.org/w/api.php?format=json&action=query&prop=extracts&exintro&explaintext&redirects=1&titles=",
            );
            u.append(title);
            u
        },
    }
}

/// Begins a summary fetch: the initial task and the first request.
pub fn start_summary(lang: &str, title: &str, link: &str, strategy: SummaryStrategy) -> (r:
    SummaryProgress)
    ensures
        progress_model(r) == (ProgressModel::FetchSummary {
            task: TaskModel {
                lang: lang@,
                title: title@,
                link: link@,
                strategy: strategy,
                hops_left: MAX_REDIRECT_HOPS as nat,
            },
            url: summary_request_url_of(strategy, lang@, title@),
        }),
{
    let url = summary_request_url(strategy, lang, title);
    SummaryProgress::FetchSummary {
        task: SummaryTask {
            lang: lang.to_owned(),
            title: title.to_owned(),
            link: link.to_owned(),
            strategy,
            hops_left: MAX_REDIRECT_HOPS,
        },
        url,
    }
}

/// The first entry of the `query.pages` object, where the response has
/// one.
pub open spec fn first_page_entry(j: Json) -> Option<(Seq<char>, Json)> {
    match json_field(j, "query"@) {
        Some(q) => match json_field(q, "pages"@) {
            Some(Json::Object(entries)) => {
                if entries@.len() > 0 {
                    Some((entries@[0].0@, entries@[0].1))
                } else {
                    None
                }
            },
            _ => None,
        },
        None => None,
    }
}

/// What a query-extract response means: the first line of the first page
/// entry's extract; the sentinel page id `-1`, a missing entry or a
/// missing extract all mean that no summary exists under the title.
pub open spec fn query_extract_of(j: Json, title: Seq<char>, link: Seq<char>) -> ProgressModel {
    match first_page_entry(j) {
        Some((id, page)) => {
            if id == "-1"@ {
                ProgressModel::Failed(ErrorModel::NoSummary { title: title, link: link })
            } else {
                match json_text_field(page, "extract"@) {
                    Some(e) => ProgressModel::Done { summary: first_line_of(e) },
                    None => ProgressModel::Failed(
                        ErrorModel::NoSummary { title: title, link: link },
                    ),
                }
            }
        },
        None => ProgressModel::Failed(ErrorModel::NoSummary { title: title, link: link }),
    }
}

/// What one summary response means for the task. For the structured
/// strategy: a success answers with the `extract` field verbatim, a shape
/// without that field is malformed, 403 turns into a redirect probe of the
/// article link while hops remain, and every other status is a failed
/// fetch. For the query-extract strategy: a success is read by
/// `query_extract_of`, every other status is a failed fetch. A body that
/// was no JSON at all is malformed.
pub open spec fn summary_step_of(task: TaskModel, status: u16, body: Option<Json>) -> ProgressModel {
    match task.strategy {
        SummaryStrategy::Structured => {
            if 200 <= status && status < 300 {
                match body {
                    Some(j) => match json_text_field(j, "extract"@) {
                        Some(e) => ProgressModel::Done { summary: e },
                        None => ProgressModel::Failed(ErrorModel::MalformedResponse),
                    },
                    None => ProgressModel::Failed(ErrorModel::MalformedResponse),
                }
            } else if status == 403 {
                if task.hops_left > 0 {
                    ProgressModel::Probe {
                        task: TaskModel { hops_left: (task.hops_left - 1) as nat, ..task },
                        url: task.link,
                    }
                } else {
                    ProgressModel::Failed(ErrorModel::TooManyRedirects { title: task.title })
                }
            } else {
                ProgressModel::Failed(
                    ErrorModel::SummaryFetchFailed { title: task.title, link: task.link },
                )
            }
        },
        SummaryStrategy::QueryExtract => {
            if 200 <= status && status < 300 {
                match body {
                    Some(j) => query_extract_of(j, task.title, task.link),
                    None => ProgressModel::Failed(ErrorModel::MalformedResponse),
                }
            } else {
                ProgressModel::Failed(
                    ErrorModel::SummaryFetchFailed { title: task.title, link: task.link },
                )
            }
        },
    }
}

fn interpret_query_extract(j: &Json, task: SummaryTask) -> (r: SummaryProgress)
    ensures
        progress_model(r) == query_extract_of(*j, task.title@, task.link@),
{
    let pages = match j.get_field("query") {
        Some(q) => q.get_field("pages"),
        None => None,
    };
    match pages {
        Some(Json::Object(entries)) => {
            proof {
                assert(json_field(*j, "query"@) matches Some(q) && json_field(q, "pages"@)
                    == Some(Json::Object(*entries)));
            }
            if entries.len() == 0 {
                return SummaryProgress::Failed(
                    WikiError::NoSummary { title: task.title, link: task.link },
                );
            }
            let id = &entries[0].0;
            if str_eq(id.as_str(), "-1") {
                return SummaryProgress::Failed(
                    WikiError::NoSummary { title: task.title, link: task.link },
                );
            }
            match entries[0].1.get_text_field("extract") {
                Some(e) => SummaryProgress::Done { summary: first_line(e.as_str()) },
                None => SummaryProgress::Failed(
                    WikiError::NoSummary { title: task.title, link: task.link },
                ),
            }
        },
        _ => SummaryProgress::Failed(WikiError::NoSummary { title: task.title, link: task.link }),
    }
}

/// Reads one summary response, as `summary_step_of` says.
pub fn on_summary_response(task: SummaryTask, status: u16, body: Option<Json>) -> (r:
    SummaryProgress)
    ensures
        progress_model(r) == summary_step_of(task_model(task), status, body),
{
    match task.strategy {
        SummaryStrategy::Structured => {
            if 200 <= status && status < 300 {
                match &body {
                    Some(j) => match j.get_text_field("extract") {
                        Some(e) => SummaryProgress::Done { summary: e.clone() },
                        None => SummaryProgress::Failed(WikiError::MalformedResponse),
                    },
                    None => SummaryProgress::Failed(WikiError::MalformedResponse),
                }
            } else if status == 403 {
                if task.hops_left > 0 {
                    let url = task.link.clone();
                    let next = SummaryTask { hops_left: task.hops_left - 1, ..task };
                    SummaryProgress::Probe { task: next, url }
                } else {
                    SummaryProgress::Failed(WikiError::TooManyRedirects { title: task.title })
                }
            } else {
                SummaryProgress::Failed(
                    WikiError::SummaryFetchFailed { title: task.title, link: task.link },
                )
            }
        },
        SummaryStrategy::QueryExtract => {
            if 200 <= status && status < 300 {
                match &body {
                    Some(j) => interpret_query_extract(j, task),
                    None => SummaryProgress::Failed(WikiError::MalformedResponse),
                }
            } else {
                SummaryProgress::Failed(
                    WikiError::SummaryFetchFailed { title: task.title, link: task.link },
                )
            }
        },
    }
}

/// What one probe response means for the task: a redirect's location
/// names the real title and link, and the summary fetch is retried there
/// with the same strategy; anything else fails as `redirect_resolution_of`
/// says.
pub open spec fn probe_step_of(
    task: TaskModel,
    status: u16,
    location: Option<Seq<char>>,
) -> ProgressModel {
    match redirect_resolution_of(status, location, task.link) {
        Ok((t, l)) => ProgressModel::FetchSummary {
            task: TaskModel { title: t, link: l, ..task },
            url: summary_request_url_of(task.strategy, task.lang, t),
        },
        Err(e) => ProgressModel::Failed(e),
    }
}

/// Reads one probe response, as `probe_step_of` says.
pub fn on_probe_response(task: SummaryTask, status: u16, location: Option<&str>) -> (r:
    SummaryProgress)
    ensures
        progress_model(r) == probe_step_of(
            task_model(task),
            status,
            crate::special::opt_str_view(location),
        ),
{
    match resolve_redirect(status, location, task.link.as_str()) {
        Ok(resolved) => {
            let url = summary_request_url(
                task.strategy,
                task.lang.as_str(),
                resolved.title.as_str(),
            );
            let next = SummaryTask {
                title: resolved.title,
                link: resolved.link,
                ..task
            };
            SummaryProgress::FetchSummary { task: next, url }
        },
        Err(e) => SummaryProgress::Failed(e),
    }
}

/// The legacy redirect fallback, end to end: when a structured fetch with
/// hops to spare answers 403, the stage probes the article link; a
/// redirect answer retries the structured fetch on the title the location
/// names; and a successful retry whose body carries an extract yields that
/// extract as the summary.
pub proof fn lemma_legacy_fallback(
    task: TaskModel,
    body0: Option<Json>,
    probe_status: u16,
    loc: Seq<char>,
    ok_status: u16,
    body: Option<Json>,
    e: Seq<char>,
)
    requires
        task.strategy is Structured,
        task.hops_left > 0,
        is_redirect_status(probe_status),
        200 <= ok_status && ok_status < 300,
        body matches Some(j) && json_text_field(j, "extract"@) == Some(e),
    ensures
        ({
            let hopped = TaskModel { hops_left: (task.hops_left - 1) as nat, ..task };
            let resolved = TaskModel { title: title_of_link(loc), link: loc, ..hopped };
            &&& summary_step_of(task, 403, body0) == (ProgressModel::Probe {
                task: hopped,
                url: task.link,
            })
            &&& probe_step_of(hopped, probe_status, Some(loc)) == (ProgressModel::FetchSummary {
                task: resolved,
                url: structured_summary_url_of(task.lang, title_of_link(loc)),
            })
            &&& summary_step_of(resolved, ok_status, body) == (ProgressModel::Done { summary: e })
        }),
{
}

/// Reading a query-extract response is a function of the response alone:
/// two equal responses for the same task yield the same outcome, so an
/// unchanged article summarized twice gives the same first-line extract.
pub proof fn lemma_query_extract_deterministic(
    task1: TaskModel,
    task2: TaskModel,
    status: u16,
    body1: Option<Json>,
    body2: Option<Json>,
)
    requires
        task1 == task2,
        body1 == body2,
    ensures
        summary_step_of(task1, status, body1) == summary_step_of(task2, status, body2),
{
}

} // verus!
