//! The records the classifiers produce.
use vstd::prelude::*;

verus! {

/// Unread counts per priority; -1 in every field means the hotlist could
/// not be read.
///
/// Priorities: 1 = message in a thread buffer, 2 = private message,
/// 3 = highlight.
pub struct SimpleHotlist {
    pub priority_1: i32,
    pub priority_2: i32,
    pub priority_3: i32,
}

/// Unread counts per priority, with the buffers behind each count.
pub struct DetailedHotlist {
    pub priority_1: Detailed,
    pub priority_2: Detailed,
    pub priority_3: Detailed,
}

/// The count of one priority and the buffers that were recorded for it.
pub struct Detailed {
    pub count: i32,
    pub items: Vec<Buffer>,
}

/// A buffer, by its full name.
pub struct Buffer {
    pub buffer: String,
}

/// A registered Slack team (workspace), by its buffer name.
pub struct SlackTeam {
    pub name: String,
}

impl SimpleHotlist {
    /// Either every count is unknown (-1) or every count is zero or more.
    pub open spec fn wf(&self) -> bool {
        ||| (self.priority_1 == -1 && self.priority_2 == -1 && self.priority_3 == -1)
        ||| (self.priority_1 >= 0 && self.priority_2 >= 0 && self.priority_3 >= 0)
    }
}

impl DetailedHotlist {
    /// Either every priority is unknown (-1, no buffers) or every count is
    /// zero or more and lists exactly that many buffers.
    pub open spec fn wf(&self) -> bool {
        ||| (self.priority_1.is_unknown() && self.priority_2.is_unknown() && self.priority_3.is_unknown())
        ||| (self.priority_1.is_known() && self.priority_2.is_known() && self.priority_3.is_known())
    }
}

impl Detailed {
    /// The count is unknown and no buffer is listed.
    pub open spec fn is_unknown(&self) -> bool {
        self.count == -1 && self.items@.len() == 0
    }

    /// The count is real and is the number of listed buffers.
    pub open spec fn is_known(&self) -> bool {
        self.count >= 0 && self.items@.len() == self.count
    }

    /// The names of the recorded buffers.
    pub open spec fn names(&self) -> Seq<Seq<char>> {
        self.items@.map_values(|b: Buffer| b.buffer@)
    }
}

} // verus!
