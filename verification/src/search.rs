//! The search stage: building the open-search request and reading the
//! candidate titles and links out of its response.

use vstd::prelude::*;
use vstd::string::StringExecFns;

use crate::encode::{percent_encode_component, percent_encoded};
use crate::error::{error_model, ErrorModel, WikiError};
use crate::json::Json;
use crate::lang::{is_supported_language, supported_language};

verus! {

/// The candidates one search returned: titles and canonical links,
/// index-aligned and in relevance order.
pub struct SearchResult {
    pub titles: Vec<String>,
    pub links: Vec<String>,
}

impl SearchResult {
    /// Titles and links line up index by index.
    pub open spec fn wf(self) -> bool {
        self.titles@.len() == self.links@.len()
    }
}

/// The open-search URL of one language edition for one topic; the topic is
/// percent-encoded.
pub open spec fn search_url_of(lang: Seq<char>, topic: Seq<char>) -> Seq<char> {
    "https://"@ + lang + ".wikipedia.org/w/api.php?format=json&action=opensearch&search="@
        + percent_encoded(topic)
}

/// Builds the search request URL for `topic` on the `lang` edition.
pub fn search_url(lang: &str, topic: &str) -> (r: String)
    ensures
        r@ == search_url_of(lang@, topic@),
{
    let mut u = String::from_str("https://");
    u.append(lang);
    u.append(".wikipedia.org/w/api.php?format=json&action=opensearch&search=");
    let enc = percent_encode_component(topic);
    u.append(enc.as_str());
    u
}

/// Validates the language code, then gives the search request to make.
/// A code outside the supported set fails here, before any request.
pub fn start_search(lang: &str, topic: &str) -> (r: Result<String, WikiError>)
    ensures
        supported_language(lang@) ==> (r matches Ok(u) && u@ == search_url_of(lang@, topic@)),
        !supported_language(lang@) ==> (r matches Err(e) && error_model(e)
            == ErrorModel::InvalidLanguage),
{
    if is_supported_language(lang) {
        Ok(search_url(lang, topic))
    } else {
        Err(WikiError::InvalidLanguage)
    }
}

/// Whether every element is a text value.
pub open spec fn all_texts(elems: Seq<Json>) -> bool {
    forall|i: int| 0 <= i < elems.len() ==> elems[i] is Text
}

/// The text of element `i`, empty where it is no text value.
pub open spec fn text_at(elems: Seq<Json>, i: int) -> Seq<char> {
    match elems[i] {
        Json::Text(s) => s@,
        _ => Seq::empty(),
    }
}

/// The texts of all elements.
pub open spec fn text_views(elems: Seq<Json>) -> Seq<Seq<char>> {
    Seq::new(elems.len(), |i: int| text_at(elems, i))
}

/// The element sequences of a well-shaped search response
/// `[query, titles, descriptions, links]`.
pub open spec fn search_fields_of(v: Json) -> Option<(Seq<Json>, Seq<Json>, Seq<Json>)> {
    match v {
        Json::Array(elems) => {
            if elems@.len() == 4 {
                match (elems@[0], elems@[1], elems@[2], elems@[3]) {
                    (Json::Text(_), Json::Array(ts), Json::Array(ds), Json::Array(ls)) => Some(
                        (ts@, ds@, ls@),
                    ),
                    _ => None,
                }
            } else {
                None
            }
        },
        _ => None,
    }
}

/// The titles and links a search response carries, or nothing where the
/// response does not have the promised shape (including titles and links
/// of different number).
pub open spec fn search_result_of(v: Json) -> Option<(Seq<Seq<char>>, Seq<Seq<char>>)> {
    match search_fields_of(v) {
        Some((ts, ds, ls)) => {
            if all_texts(ts) && all_texts(ds) && all_texts(ls) && ts.len() == ls.len() {
                Some((text_views(ts), text_views(ls)))
            } else {
                None
            }
        },
        None => None,
    }
}

/// Clones the text out of every element; nothing if one is no text.
fn collect_texts(elems: &Vec<Json>) -> (r: Option<Vec<String>>)
    ensures
        match r {
            Some(out) => all_texts(elems@) && out.deep_view() == text_views(elems@),
            None => !all_texts(elems@),
        },
{
    let n = elems.len();
    let mut out: Vec<String> = Vec::new();
    let mut i: usize = 0;
    while i < n
        invariant
            i <= n,
            n == elems@.len(),
            out@.len() == i,
            forall|j: int| 0 <= j < i ==> elems@[j] is Text,
            forall|j: int| 0 <= j < i ==> out@[j]@ == text_at(elems@, j),
        decreases n - i,
    {
        match &elems[i] {
            Json::Text(s) => out.push(s.clone()),
            _ => {
                return None;
            },
        }
        i += 1;
    }
    proof {
        assert(out.deep_view() =~= text_views(elems@));
    }
    Some(out)
}

/// Reads titles and links out of a parsed search response. `None` stands
/// for a body that was no JSON at all. Every shape failure is the same
/// malformed-response error; an empty candidate list is not an error.
pub fn parse_search_response(v: Option<Json>) -> (r: Result<SearchResult, WikiError>)
    ensures
        match r {
            Ok(sr) => sr.wf() && (v matches Some(j) && search_result_of(j) == Some(
                (sr.titles.deep_view(), sr.links.deep_view()),
            )),
            Err(e) => {
                &&& error_model(e) == ErrorModel::MalformedResponse
                &&& (v matches Some(j) ==> search_result_of(j) is None)
            },
        },
{
    let j = match v {
        Some(j) => j,
        None => {
            return Err(WikiError::MalformedResponse);
        },
    };
    let elems = match &j {
        Json::Array(elems) => elems,
        _ => {
            return Err(WikiError::MalformedResponse);
        },
    };
    proof {
        assert(j == Json::Array(*elems));
    }
    if elems.len() != 4 {
        return Err(WikiError::MalformedResponse);
    }
    let (ts, ds, ls) = match (&elems[0], &elems[1], &elems[2], &elems[3]) {
        (Json::Text(_), Json::Array(ts), Json::Array(ds), Json::Array(ls)) => (ts, ds, ls),
        _ => {
            return Err(WikiError::MalformedResponse);
        },
    };
    proof {
        assert(search_fields_of(j) == Some((ts@, ds@, ls@)));
    }
    let titles = match collect_texts(ts) {
        Some(titles) => titles,
        None => {
            return Err(WikiError::MalformedResponse);
        },
    };
    if collect_texts(ds).is_none() {
        return Err(WikiError::MalformedResponse);
    }
    let links = match collect_texts(ls) {
        Some(links) => links,
        None => {
            return Err(WikiError::MalformedResponse);
        },
    };
    proof {
        assert(titles.deep_view().len() == titles@.len());
        assert(links.deep_view().len() == links@.len());
        assert(titles@.len() == ts@.len());
        assert(links@.len() == ls@.len());
    }
    if titles.len() != links.len() {
        proof {
            assert(search_result_of(j) is None);
        }
        return Err(WikiError::MalformedResponse);
    }
    proof {
        assert(search_result_of(j) == Some((text_views(ts@), text_views(ls@))));
    }
    Ok(SearchResult { titles, links })
}

} // verus!
