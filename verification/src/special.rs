//! The special-page stage: the denylist of titles that cannot be resolved
//! to an article, the two random-page pseudo-titles that are resolved by a
//! redirect probe, and the reading of a probe's answer.

use vstd::prelude::*;
use vstd::string::StringExecFns;

use crate::error::{error_model, ErrorModel, WikiError};
use crate::text::{str_eq, tail_after_last, tail_after_last_match};
use crate::ResolvedTopic;

verus! {

/// The special pages that denote listings, not single articles: a summary
/// request on one of them cannot succeed, so the pipeline rejects them
/// before any request is made.
pub open spec fn quirky_title(s: Seq<char>) -> bool {
    ||| s == "Special:RandomRedirect"@
    ||| s == "Special:RandomInCategory"@
    ||| s == "Special:WhatLinksHere"@
    ||| s == "Special:AllPages"@
    ||| s == "Special:RecentChanges"@
    ||| s == "Special:ShortPages"@
    ||| s == "Special:LongPages"@
    ||| s == "Special:DeadendPages"@
    ||| s == "Special:UncategorizedPages"@
    ||| s == "Special:WantedPages"@
    ||| s == "Special:Randomredirect"@
    ||| s == "Special:MostLinkedPages"@
    ||| s == "Special:DisambiguationPages"@
}

/// Whether `title` is on the denylist of non-resolvable special pages.
pub fn is_quirky_title(title: &str) -> (r: bool)
    ensures
        r == quirky_title(title@),
{
    str_eq(title, "Special:RandomRedirect")
    || str_eq(title, "Special:RandomInCategory")
    || str_eq(title, "Special:WhatLinksHere")
    || str_eq(title, "Special:AllPages")
    || str_eq(title, "Special:RecentChanges")
    || str_eq(title, "Special:ShortPages")
    || str_eq(title, "Special:LongPages")
    || str_eq(title, "Special:DeadendPages")
    || str_eq(title, "Special:UncategorizedPages")
    || str_eq(title, "Special:WantedPages")
    || str_eq(title, "Special:Randomredirect")
    || str_eq(title, "Special:MostLinkedPages")
    || str_eq(title, "Special:DisambiguationPages")
}

/// The pseudo-titles that ask for a random article.
pub open spec fn random_article_title(s: Seq<char>) -> bool {
    s == "Special:Random"@ || s == "Special:RandomPage"@
}

/// The pseudo-title that asks for a random root page.
pub open spec fn random_root_title(s: Seq<char>) -> bool {
    s == "Special:RandomRootpage"@
}

/// An article page URL of one language edition.
pub open spec fn wiki_page_url_of(lang: Seq<char>, title: Seq<char>) -> Seq<char> {
    "https://"@ + lang + ".wikipedia.org/wiki/"@ + title
}

/// Builds the article page URL for `title` on the `lang` edition.
pub fn wiki_page_url(lang: &str, title: &str) -> (r: String)
    ensures
        r@ == wiki_page_url_of(lang@, title@),
{
    let mut u = String::from_str("https://");
    u.append(lang);
    u.append(".wikipedia.org/wiki/");
    u.append(title);
    u
}

/// What to do with a chosen title before the summary stage.
pub enum TopicAction {
    /// The title cannot be resolved: the pipeline ends here, before any
    /// summary request.
    Reject(WikiError),
    /// The title is a random-page request: probe `url` and expect a
    /// redirect naming the real article.
    Probe { url: String },
    /// An ordinary title: go on to the summary stage as it stands.
    Summarize,
}

/// The ghost image of a `TopicAction`.
pub enum TopicActionModel {
    Reject(ErrorModel),
    Probe { url: Seq<char> },
    Summarize,
}

/// The ghost image of a planned action.
pub open spec fn topic_action_model(a: TopicAction) -> TopicActionModel {
    match a {
        TopicAction::Reject(e) => TopicActionModel::Reject(error_model(e)),
        TopicAction::Probe { url } => TopicActionModel::Probe { url: url@ },
        TopicAction::Summarize => TopicActionModel::Summarize,
    }
}

/// The special-page policy: a denylisted title is rejected; a
/// random-article request probes the known random-article URL; a
/// random-root-page request probes its own link; everything else goes to
/// the summary stage unchanged.
pub open spec fn topic_action_of(title: Seq<char>, link: Seq<char>) -> TopicActionModel {
    if quirky_title(title) {
        TopicActionModel::Reject(ErrorModel::QuirkyTitle { title: title, link: link })
    } else if random_article_title(title) {
        TopicActionModel::Probe { url: "https://en.wikipedia.org/wiki/Special:Random"@ }
    } else if random_root_title(title) {
        TopicActionModel::Probe { url: link }
    } else {
        TopicActionModel::Summarize
    }
}

/// Applies the special-page policy to a chosen title and link.
pub fn plan_topic(title: &str, link: &str) -> (r: TopicAction)
    ensures
        topic_action_model(r) == topic_action_of(title@, link@),
{
    if is_quirky_title(title) {
        TopicAction::Reject(
            WikiError::QuirkyTitle { title: title.to_owned(), link: link.to_owned() },
        )
    } else if str_eq(title, "Special:Random") || str_eq(title, "Special:RandomPage") {
        TopicAction::Probe {
            url: String::from_str("https://en.wikipedia.org/wiki/Special:Random"),
        }
    } else if str_eq(title, "Special:RandomRootpage") {
        TopicAction::Probe { url: link.to_owned() }
    } else {
        TopicAction::Summarize
    }
}

/// Whether `status` is an HTTP redirection status.
pub open spec fn is_redirect_status(status: u16) -> bool {
    300 <= status && status < 400
}

/// The path marker that separates an article's title from the rest of its
/// link.
pub open spec fn wiki_path_marker() -> Seq<char> {
    "wikipedia.org/wiki/"@
}

/// The title named by a link: the part after the last occurrence of the
/// article path marker, or the whole link where the marker is absent.
pub open spec fn title_of_link(link: Seq<char>) -> Seq<char> {
    tail_after_last_match(link, wiki_path_marker())
}

/// The ghost view of an optional header value.
pub open spec fn opt_str_view(o: Option<&str>) -> Option<Seq<char>> {
    match o {
        Some(s) => Some(s@),
        None => None,
    }
}

/// What a redirect probe's answer resolves to: on a redirection status
/// that carries a location, the location is the new link and the part of
/// it after the article path marker is the new title; any other answer
/// fails, naming the probed link.
pub open spec fn redirect_resolution_of(
    status: u16,
    location: Option<Seq<char>>,
    attempted: Seq<char>,
) -> Result<(Seq<char>, Seq<char>), ErrorModel> {
    match location {
        Some(l) => {
            if is_redirect_status(status) {
                Ok((title_of_link(l), l))
            } else {
                Err(ErrorModel::ExpectedRedirect { link: attempted })
            }
        },
        None => Err(ErrorModel::ExpectedRedirect { link: attempted }),
    }
}

/// Reads a redirect probe's answer: its status and its location header,
/// with the probed link for the diagnostic.
pub fn resolve_redirect(status: u16, location: Option<&str>, attempted: &str) -> (r: Result<
    ResolvedTopic,
    WikiError,
>)
    ensures
        match r {
            Ok(t) => redirect_resolution_of(status, opt_str_view(location), attempted@) == Ok::<
                (Seq<char>, Seq<char>),
                ErrorModel,
            >((t.title@, t.link@)),
            Err(e) => redirect_resolution_of(status, opt_str_view(location), attempted@) == Err::<
                (Seq<char>, Seq<char>),
                ErrorModel,
            >(error_model(e)),
        },
{
    match location {
        Some(l) => {
            if 300 <= status && status < 400 {
                let title = tail_after_last(l, "wikipedia.org/wiki/");
                Ok(ResolvedTopic { title, link: l.to_owned() })
            } else {
                Err(WikiError::ExpectedRedirect { link: attempted.to_owned() })
            }
        },
        None => Err(WikiError::ExpectedRedirect { link: attempted.to_owned() }),
    }
}

} // verus!
