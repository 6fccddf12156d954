//! The disambiguation stage: choosing one candidate among the titles a
//! search returned, by count, by a pre-supplied index, or from a line of
//! interactive input.

use vstd::prelude::*;
use vstd::string::StrSliceExecFns;
use vstd::string::StringExecFns;

use crate::error::{error_model, ErrorModel, WikiError};
use crate::search::SearchResult;
use crate::text::{join_with, joined_with, trim_of, trim_spaces};
use crate::ResolvedTopic;

verus! {

/// Whether `c` is a decimal digit.
pub open spec fn is_digit(c: char) -> bool {
    0x30 <= c as int && c as int <= 0x39
}

/// The value of a decimal digit.
pub open spec fn digit_val(c: char) -> int {
    c as int - 0x30
}

/// Whether `s` is one or more decimal digits and nothing else.
pub open spec fn all_digits(s: Seq<char>) -> bool {
    s.len() > 0 && (forall|i: int| 0 <= i < s.len() ==> is_digit(s[i]))
}

/// The value of a sequence of decimal digits.
pub open spec fn digits_value(s: Seq<char>) -> int
    decreases s.len(),
{
    if s.len() == 0 {
        0
    } else {
        digits_value(s.drop_last()) * 10 + digit_val(s.last())
    }
}

proof fn lemma_digits_value_nonneg(s: Seq<char>)
    requires
        forall|i: int| 0 <= i < s.len() ==> is_digit(s[i]),
    ensures
        digits_value(s) >= 0,
    decreases s.len(),
{
    if s.len() > 0 {
        lemma_digits_value_nonneg(s.drop_last());
    }
}

proof fn lemma_digits_value_prefix_le(s: Seq<char>, k: int)
    requires
        forall|i: int| 0 <= i < s.len() ==> is_digit(s[i]),
        0 <= k <= s.len(),
    ensures
        digits_value(s.subrange(0, k)) <= digits_value(s),
    decreases s.len() - k,
{
    if k < s.len() {
        let t = s.subrange(0, k + 1);
        lemma_digits_value_prefix_le(s, k + 1);
        assert(t.drop_last() =~= s.subrange(0, k));
        lemma_digits_value_nonneg(t.drop_last());
        assert(digits_value(s.subrange(0, k)) <= digits_value(t));
    } else {
        assert(s.subrange(0, k) =~= s);
    }
}

/// What one line of selection input means against `n` candidates: an
/// empty line (after trimming) accepts the first candidate; otherwise the
/// line must be a positive decimal number (an optional leading `+` is
/// allowed) between 1 and `n`, selecting that candidate one-based; every
/// other line fails the selection.
pub open spec fn selection_of(line: Seq<char>, n: nat) -> Option<int> {
    let t = trim_of(line);
    if t.len() == 0 {
        Some(0)
    } else {
        let digits = if t[0] == '+' {
            t.drop_first()
        } else {
            t
        };
        if t[0] == '-' {
            None
        } else if all_digits(digits) {
            let v = digits_value(digits);
            if 1 <= v && v <= n {
                Some(v - 1)
            } else {
                None
            }
        } else {
            None
        }
    }
}

fn is_digit_exec(c: char) -> (r: bool)
    ensures
        r == is_digit(c),
{
    let u = c as u32;
    48 <= u && u <= 57
}

/// Reads one line of selection input against `n` candidates, as
/// `selection_of` says.
pub fn choice_from_line(line: &str, n: usize) -> (r: Option<usize>)
    ensures
        match r {
            Some(i) => selection_of(line@, n as nat) == Some(i as int),
            None => selection_of(line@, n as nat) is None,
        },
{
    let t = trim_spaces(line);
    let ts = t.as_str();
    let tl = ts.unicode_len();
    if tl == 0 {
        return Some(0);
    }
    let first = ts.get_char(0);
    if first == '-' {
        return None;
    }
    let start: usize = if first == '+' {
        1
    } else {
        0
    };
    let ghost digits: Seq<char> = if first == '+' {
        t@.drop_first()
    } else {
        t@
    };
    proof {
        assert(digits =~= t@.subrange(start as int, tl as int));
    }
    if start == tl {
        // a bare sign: no digits at all
        assert(digits.len() == 0);
        return None;
    }
    let mut i: usize = start;
    let mut acc: u128 = 0;
    while i < tl
        invariant
            start <= i <= tl,
            ts@ == t@,
            tl == t@.len(),
            t@ == trim_of(line@),
            digits =~= t@.subrange(start as int, tl as int),
            start < tl,
            start == 0 || start == 1,
            start == 1 ==> t@[0] == '+',
            start == 0 ==> t@[0] != '+',
            t@[0] != '-',
            selection_of(line@, n as nat) == selection_of_unfolded(t@, digits, n as nat),
            forall|j: int| start <= j < i ==> is_digit(t@[j]),
            acc == digits_value(t@.subrange(start as int, i as int)),
            acc <= n,
        decreases tl - i,
    {
        let c = ts.get_char(i);
        if !is_digit_exec(c) {
            proof {
                assert(!all_digits(digits)) by {
                    assert(digits[i - start] == t@[i as int]);
                }
            }
            return None;
        }
        let d: u128 = (c as u32 - 48) as u128;
        acc = acc * 10 + d;
        proof {
            let prev = t@.subrange(start as int, i as int);
            let cur = t@.subrange(start as int, i + 1);
            assert(cur.drop_last() =~= prev);
            assert(cur.last() == t@[i as int]);
        }
        i += 1;
        if acc > n as u128 {
            proof {
                if all_digits(digits) {
                    lemma_digits_value_prefix_le(digits, i - start);
                    assert(digits.subrange(0, i - start) =~= t@.subrange(start as int, i as int));
                }
            }
            return None;
        }
    }
    proof {
        assert(digits =~= t@.subrange(start as int, tl as int));
        assert(all_digits(digits));
        assert(acc == digits_value(digits));
    }
    if acc == 0 {
        return None;
    }
    let v = acc as usize;
    Some(v - 1)
}

/// `selection_of`, with the digit part already split off; used only to
/// carry the unfolding through the parsing loop.
spec fn selection_of_unfolded(t: Seq<char>, digits: Seq<char>, n: nat) -> Option<int> {
    if t.len() == 0 {
        Some(0)
    } else if t[0] == '-' {
        None
    } else if all_digits(digits) {
        let v = digits_value(digits);
        if 1 <= v && v <= n {
            Some(v - 1)
        } else {
            None
        }
    } else {
        None
    }
}

/// What the disambiguation stage decided.
pub enum ChoiceOutcome {
    /// One candidate stands; no prompt was needed.
    Selected(ResolvedTopic),
    /// More than one candidate and no pre-supplied index: the caller must
    /// obtain a selection.
    NeedSelection,
    /// The pipeline ends here, before any further request.
    Rejected(WikiError),
}

/// The ghost image of a `ChoiceOutcome`.
pub enum ChoiceModel {
    Selected { title: Seq<char>, link: Seq<char> },
    NeedSelection,
    Rejected(ErrorModel),
}

/// The ghost image of a decided choice.
pub open spec fn choice_outcome_model(c: ChoiceOutcome) -> ChoiceModel {
    match c {
        ChoiceOutcome::Selected(t) => ChoiceModel::Selected { title: t.title@, link: t.link@ },
        ChoiceOutcome::NeedSelection => ChoiceModel::NeedSelection,
        ChoiceOutcome::Rejected(e) => ChoiceModel::Rejected(error_model(e)),
    }
}

/// The disambiguation policy over the candidate lists: no candidate fails
/// the run; exactly one is taken as it stands; among more, a pre-supplied
/// one-based index `c` with `1 <= c <= count` selects `titles[c - 1]` and
/// `links[c - 1]`, an index outside that range fails the run, and without
/// one the caller must prompt.
pub open spec fn choice_of(
    titles: Seq<Seq<char>>,
    links: Seq<Seq<char>>,
    topic: Seq<char>,
    preset: Option<usize>,
) -> ChoiceModel {
    if titles.len() == 0 {
        ChoiceModel::Rejected(ErrorModel::NothingFound { topic: topic })
    } else if titles.len() == 1 {
        ChoiceModel::Selected { title: titles[0], link: links[0] }
    } else {
        match preset {
            Some(c) => {
                if 1 <= c && c <= titles.len() {
                    ChoiceModel::Selected { title: titles[c - 1], link: links[c - 1] }
                } else {
                    ChoiceModel::Rejected(ErrorModel::IndexOutOfBound)
                }
            },
            None => ChoiceModel::NeedSelection,
        }
    }
}

/// Applies the disambiguation policy to what a search returned.
pub fn resolve_choice(sr: &SearchResult, topic: &str, preset: Option<usize>) -> (r: ChoiceOutcome)
    requires
        sr.wf(),
    ensures
        choice_outcome_model(r) == choice_of(
            sr.titles.deep_view(),
            sr.links.deep_view(),
            topic@,
            preset,
        ),
{
    let n = sr.titles.len();
    proof {
        assert(sr.titles.deep_view().len() == n);
        assert(sr.links.deep_view().len() == n);
    }
    if n == 0 {
        return ChoiceOutcome::Rejected(WikiError::NothingFound { topic: topic.to_owned() });
    }
    if n == 1 {
        proof {
            assert(sr.titles.deep_view()[0] == sr.titles@[0]@);
            assert(sr.links.deep_view()[0] == sr.links@[0]@);
        }
        return ChoiceOutcome::Selected(
            ResolvedTopic { title: sr.titles[0].clone(), link: sr.links[0].clone() },
        );
    }
    match preset {
        Some(c) => {
            if 1 <= c && c <= n {
                proof {
                    assert(sr.titles.deep_view()[c - 1] == sr.titles@[c - 1]@);
                    assert(sr.links.deep_view()[c - 1] == sr.links@[c - 1]@);
                }
                ChoiceOutcome::Selected(
                    ResolvedTopic {
                        title: sr.titles[c - 1].clone(),
                        link: sr.links[c - 1].clone(),
                    },
                )
            } else {
                ChoiceOutcome::Rejected(WikiError::IndexOutOfBound)
            }
        },
        None => ChoiceOutcome::NeedSelection,
    }
}

/// The candidate at position `i` of what a search returned, where there
/// is one.
pub fn select_candidate(sr: &SearchResult, i: usize) -> (r: Option<ResolvedTopic>)
    requires
        sr.wf(),
    ensures
        match r {
            Some(t) => i < sr.titles@.len() && t.title@ == sr.titles.deep_view()[i as int]
                && t.link@ == sr.links.deep_view()[i as int],
            None => i >= sr.titles@.len(),
        },
{
    if i < sr.titles.len() {
        proof {
            assert(sr.titles.deep_view()[i as int] == sr.titles@[i as int]@);
            assert(sr.links.deep_view()[i as int] == sr.links@[i as int]@);
        }
        Some(ResolvedTopic { title: sr.titles[i].clone(), link: sr.links[i].clone() })
    } else {
        None
    }
}

/// A way to obtain the index of the chosen candidate.
pub trait TopicSelector {
    fn select(&self, topics: &[String]) -> Option<usize>;

    fn skip_selection_if_single_topic(&self) -> bool {
        true
    }
}

/// A selector that always picks the same position.
pub struct NthTopicSelector(pub usize);

impl TopicSelector for NthTopicSelector {
    fn select(&self, topics: &[String]) -> (r: Option<usize>)
        ensures
            r == Some(self.0),
    {
        Some(self.0)
    }
}

/// The decimal digit character of value `d`.
pub open spec fn digit_char(d: nat) -> char {
    if d == 0 { '0' }
    else if d == 1 { '1' }
    else if d == 2 { '2' }
    else if d == 3 { '3' }
    else if d == 4 { '4' }
    else if d == 5 { '5' }
    else if d == 6 { '6' }
    else if d == 7 { '7' }
    else if d == 8 { '8' }
    else { '9' }
}

/// The decimal rendering of `n`, most significant digit first.
pub open spec fn dec_of(n: nat) -> Seq<char>
    decreases n,
{
    if n < 10 {
        seq![digit_char(n)]
    } else {
        dec_of(n / 10) + seq![digit_char(n % 10)]
    }
}

fn digit_str(d: usize) -> (r: &'static str)
    requires
        d < 10,
    ensures
        r@ == seq![digit_char(d as nat)],
{
    proof {
        reveal_strlit("0");
        reveal_strlit("1");
        reveal_strlit("2");
        reveal_strlit("3");
        reveal_strlit("4");
        reveal_strlit("5");
        reveal_strlit("6");
        reveal_strlit("7");
        reveal_strlit("8");
        reveal_strlit("9");
        assert("0"@ =~= seq![digit_char(0)]);
        assert("1"@ =~= seq![digit_char(1)]);
        assert("2"@ =~= seq![digit_char(2)]);
        assert("3"@ =~= seq![digit_char(3)]);
        assert("4"@ =~= seq![digit_char(4)]);
        assert("5"@ =~= seq![digit_char(5)]);
        assert("6"@ =~= seq![digit_char(6)]);
        assert("7"@ =~= seq![digit_char(7)]);
        assert("8"@ =~= seq![digit_char(8)]);
        assert("9"@ =~= seq![digit_char(9)]);
    }
    match d {
        0 => "0",
        1 => "1",
        2 => "2",
        3 => "3",
        4 => "4",
        5 => "5",
        6 => "6",
        7 => "7",
        8 => "8",
        _ => "9",
    }
}

proof fn lemma_dec_of_len(n: nat)
    ensures
        dec_of(n).len() >= 1,
        n < 10 <==> dec_of(n).len() == 1,
    decreases n,
{
    if n >= 10 {
        lemma_dec_of_len(n / 10);
    }
}

/// The decimal rendering of `n`.
pub fn usize_to_decimal(n: usize) -> (r: String)
    ensures
        r@ == dec_of(n as nat),
    decreases n,
{
    if n < 10 {
        digit_str(n).to_owned()
    } else {
        let mut s = usize_to_decimal(n / 10);
        s.append(digit_str(n % 10));
        s
    }
}

/// `dec_of(k)` padded on the left with one space to at least two columns.
pub open spec fn padded_number(k: nat) -> Seq<char> {
    if dec_of(k).len() < 2 {
        seq![' '] + dec_of(k)
    } else {
        dec_of(k)
    }
}

/// The candidate list from position `i` on, one numbered line each.
pub open spec fn prompt_lines_from(titles: Seq<Seq<char>>, i: nat) -> Seq<char>
    decreases titles.len() - i,
{
    if i < titles.len() {
        padded_number((i + 1) as nat) + ": "@ + titles[i as int] + "\n"@ + prompt_lines_from(
            titles,
            (i + 1) as nat,
        )
    } else {
        Seq::empty()
    }
}

/// The full interactive prompt: the numbered candidate list, then the
/// question naming the first candidate as the default.
pub open spec fn prompt_of(titles: Seq<Seq<char>>) -> Seq<char> {
    "Topics:\n"@ + prompt_lines_from(titles, 0) + "Select a topic (Default: \""@ + titles[0]
        + "\"): "@
}

/// A selector that lists the candidates on the terminal and reads one
/// line; the line is read by the caller, the listing and the reading of
/// the line's meaning stand here.
pub struct TopicSelectorTerminal {
    pub show_prompt_text: bool,
}

impl TopicSelectorTerminal {
    /// The text to show before reading a selection line.
    pub fn prompt_text(&self, topics: &[String]) -> (r: String)
        requires
            topics@.len() > 0,
        ensures
            r@ == prompt_of(topics.deep_view()),
    {
        let n = topics.len();
        let ghost tv = topics.deep_view();
        proof {
            assert(tv.len() == n);
        }
        let mut u = String::from_str("Topics:\n");
        let mut i: usize = 0;
        while i < n
            invariant
                i <= n,
                n == topics@.len(),
                tv == topics.deep_view(),
                tv.len() == n,
                u@ + prompt_lines_from(tv, i as nat) == "Topics:\n"@ + prompt_lines_from(
                    tv,
                    0,
                ),
            decreases n - i,
        {
            let ghost u0 = u@;
            if i + 1 < 10 {
                u.append(" ");
            }
            let num = usize_to_decimal(i + 1);
            u.append(num.as_str());
            u.append(": ");
            u.append(topics[i].as_str());
            u.append("\n");
            proof {
                lemma_dec_of_len((i + 1) as nat);
                reveal_strlit(" ");
                assert(" "@ =~= seq![' ']);
                assert(tv[i as int] == topics@[i as int]@);
                assert(u@ =~= u0 + padded_number((i + 1) as nat) + ": "@ + tv[i as int]
                    + "\n"@);
                assert(u@ + prompt_lines_from(tv, (i + 1) as nat) =~= u0 + prompt_lines_from(
                    tv,
                    i as nat,
                ));
            }
            i += 1;
        }
        u.append("Select a topic (Default: \"");
        u.append(topics[0].as_str());
        u.append("\"): ");
        proof {
            assert(tv[0] == topics@[0]@);
            assert(u@ =~= prompt_of(tv));
        }
        u
    }

    /// What one line of input selects among `topics`, as `selection_of`
    /// says; the selection fails on a line that names no candidate.
    pub fn choose_from_line(&self, topics: &[String], line: &str) -> (r: Option<usize>)
        ensures
            match r {
                Some(i) => selection_of(line@, topics@.len() as nat) == Some(i as int),
                None => selection_of(line@, topics@.len() as nat) is None,
            },
    {
        choice_from_line(line, topics.len())
    }
}

/// A selector that hands the candidate list to an external picker process
/// and reads the picked line back; the list text and the reading of the
/// answer stand here.
pub struct TopicSelectorDmenu;

impl TopicSelectorDmenu {
    /// The text handed to the picker: the candidates joined by line feeds.
    pub fn picker_input(&self, topics: &[String]) -> (r: String)
        ensures
            r@ == joined_with(topics.deep_view(), "\n"@),
    {
        join_with(topics, "\n")
    }

    /// The position of the picked line among the candidates: the first
    /// one equal to the answer after trimming, if any.
    pub fn picked_index(&self, topics: &[String], selection: &str) -> (r: Option<usize>)
        ensures
            match r {
                Some(i) => i < topics@.len() && topics.deep_view()[i as int] == trim_of(
                    selection@,
                ) && (forall|j: int|
                    0 <= j < i ==> topics.deep_view()[j] != trim_of(selection@)),
                None => forall|j: int|
                    0 <= j < topics@.len() ==> topics.deep_view()[j] != trim_of(selection@),
            },
    {
        let wanted = trim_spaces(selection);
        let n = topics.len();
        let ghost tv = topics.deep_view();
        proof {
            assert(tv.len() == n);
        }
        let mut i: usize = 0;
        while i < n
            invariant
                i <= n,
                n == topics@.len(),
                tv == topics.deep_view(),
                tv.len() == n,
                wanted@ == trim_of(selection@),
                forall|j: int| 0 <= j < i ==> tv[j] != trim_of(selection@),
            decreases n - i,
        {
            proof {
                assert(tv[i as int] == topics@[i as int]@);
            }
            if crate::text::str_eq(topics[i].as_str(), wanted.as_str()) {
                return Some(i);
            }
            i += 1;
        }
        None
    }
}

} // verus!
