use vstd::prelude::*;

use std::collections::VecDeque;

verus! {

/// How many messages the log keeps.
pub const DEBUG_CAPACITY: usize = 10;

/// A short log of the most recent diagnostic messages, oldest first.
pub struct Debug {
    pub messages: VecDeque<String>,
}

/// The log `texts` after printing `message`.
pub open spec fn after_print(texts: Seq<Seq<char>>, message: Seq<char>) -> Seq<Seq<char>> {
    if texts.len() + 1 > DEBUG_CAPACITY {
        texts.push(message).drop_first()
    } else {
        texts.push(message)
    }
}

impl Debug {
    /// The text of the kept messages, oldest first.
    pub open spec fn texts(&self) -> Seq<Seq<char>> {
        self.messages@.map_values(|s: String| s@)
    }

    /// An empty log.
    pub fn new() -> (r: Debug)
        ensures
            r.messages@.len() == 0,
    {
        Debug { messages: VecDeque::new() }
    }

    /// Appends a message, dropping the oldest one once more than the capacity
    /// are kept.
    pub fn print(&mut self, message: &str)
        ensures
            final(self).texts() == after_print(old(self).texts(), message@),
    {
        let ghost before = self.messages@;
        self.messages.push_back(message.to_owned());
        if self.messages.len() > DEBUG_CAPACITY {
            let _ = self.messages.pop_front();
        }
        assert(self.texts() =~= (if before.len() + 1 > DEBUG_CAPACITY {
            before.map_values(|s: String| s@).push(message@).drop_first()
        } else {
            before.map_values(|s: String| s@).push(message@)
        }));
    }
}

} // verus!
