//! The topic sources: where the free-text query comes from. Reading
//! arguments or standard input is the caller's part; what a read line
//! means as a topic stands here.

use vstd::prelude::*;

use crate::text::{trim_of, trim_spaces};

verus! {

/// A source of the free-text topic to search for.
pub trait TopicTaker {
    fn take_topic(&self) -> Option<String>;
}

/// A source that takes the topic from the process arguments.
pub struct TopicTakerArg;

/// A source that reads the topic as one line of standard input.
pub struct TopicTakerStdin {
    pub show_prompt_text: bool,
}

impl TopicTakerStdin {
    /// The topic named by one read line: the line without its
    /// surrounding whitespace.
    pub fn topic_from_line(&self, line: &str) -> (r: String)
        ensures
            r@ == trim_of(line@),
    {
        trim_spaces(line)
    }
}

} // verus!
