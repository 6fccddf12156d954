//! The output stage: rendering the final (title, link, summary) triple.
//! The title is always shown; two independent flags suppress the link and
//! the summary. Writing the text out is the caller's part.

use vstd::prelude::*;
use vstd::string::StringExecFns;

verus! {

/// A sink for the final (topic, link, summary) triple.
pub trait ResultProcessor {
    fn process(&mut self, topic: String, link: String, summary: String);
}

/// A sink that prints the triple to the terminal, one line each.
pub struct Terminal;

impl Terminal {
    /// The text the terminal shows: topic, link and summary, one line
    /// each.
    pub fn render(&self, topic: &str, link: &str, summary: &str) -> (r: String)
        ensures
            r@ == topic@ + "\n"@ + link@ + "\n"@ + summary@ + "\n"@,
    {
        let mut u = topic.to_owned();
        u.append("\n");
        u.append(link);
        u.append("\n");
        u.append(summary);
        u.append("\n");
        u
    }
}

/// A sink that hands the topic and the summary to a desktop-notification
/// process; it has no text of its own to prepare.
pub struct Dunst;

/// The final output: the title always, then the link and the summary
/// where their flags allow them, one line each.
pub open spec fn output_text_of(
    title: Seq<char>,
    link: Seq<char>,
    summary: Seq<char>,
    show_link: bool,
    show_summary: bool,
) -> Seq<char> {
    title + "\n"@ + (if show_link {
        link + "\n"@
    } else {
        Seq::empty()
    }) + (if show_summary {
        summary + "\n"@
    } else {
        Seq::empty()
    })
}

/// Renders the final output under the two suppression flags.
pub fn render_output(
    title: &str,
    link: &str,
    summary: &str,
    show_link: bool,
    show_summary: bool,
) -> (r: String)
    ensures
        r@ == output_text_of(title@, link@, summary@, show_link, show_summary),
{
    let mut u = title.to_owned();
    u.append("\n");
    if show_link {
        u.append(link);
        u.append("\n");
    }
    if show_summary {
        u.append(summary);
        u.append("\n");
    }
    proof {
        assert(u@ =~= output_text_of(title@, link@, summary@, show_link, show_summary));
    }
    u
}

} // verus!
