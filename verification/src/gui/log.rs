//! The rolling log of a session.

use crate::clock::{Moment, MomentView};
use crate::text::{align_right, join, joined, right_aligned};
use std::collections::VecDeque;
use vstd::prelude::*;

verus! {

/// The most lines that the log keeps.
pub const DEBUG_LOG_LIMIT: usize = 500;

/// Texts by their characters.
pub open spec fn texts(list: Seq<String>) -> Seq<Seq<char>> {
    Seq::new(list.len(), |i: int| list[i]@)
}

/// A line of the log: the moment, and a message.
pub open spec fn log_line(message: Seq<char>, now: MomentView) -> Seq<char> {
    "[+"@ + right_aligned(now.seconds, 8) + "s] "@ + message
}

/// The newest lines of a log, as many as it keeps.
pub open spec fn newest(lines: Seq<Seq<char>>) -> Seq<Seq<char>> {
    if lines.len() > DEBUG_LOG_LIMIT {
        lines.skip(lines.len() - DEBUG_LOG_LIMIT)
    } else {
        lines
    }
}

/// A log with one line more.
#[verifier::opaque]
pub open spec fn extended(lines: Seq<Seq<char>>, message: Seq<char>, now: MomentView) -> Seq<
    Seq<char>,
> {
    newest(lines.push(log_line(message, now)))
}

/// The rolling log.
#[derive(Debug)]
pub struct DebugLog {
    pub lines: VecDeque<String>,
}

impl View for DebugLog {
    type V = Seq<Seq<char>>;

    open spec fn view(&self) -> Seq<Seq<char>> {
        texts(self.lines@)
    }
}

impl DebugLog {
    /// The log without lines.
    pub fn new() -> (log: DebugLog)
        ensures
            log@ == Seq::<Seq<char>>::empty(),
    {
        let log = DebugLog { lines: VecDeque::new() };
        assert(log@ =~= Seq::<Seq<char>>::empty());
        log
    }

    /// Adds a line; lines beyond the limit go, the oldest first.
    pub fn push(&mut self, message: &str, now: &Moment)
        ensures
            final(self)@ == extended(old(self)@, message@, now@),
            final(self)@.len() <= DEBUG_LOG_LIMIT,
    {
        reveal(extended);
        let mut line = "[+".to_owned();
        line.append(align_right(now.seconds.as_str(), 8).as_str());
        line.append("s] ");
        line.append(message);
        let ghost all = old(self)@.push(log_line(message@, now@));
        self.lines.push_back(line);
        let ghost mut gone: int = 0;
        assert(texts(self.lines@) =~= all.skip(0));
        while self.lines.len() > DEBUG_LOG_LIMIT
            invariant
                0 <= gone <= all.len(),
                self@ == all.skip(gone),
                gone > 0 ==> self@.len() >= DEBUG_LOG_LIMIT,
            decreases self.lines@.len(),
        {
            let ghost before = self.lines@;
            let _dropped = self.lines.pop_front();
            assert(self.lines@ == before.subrange(1, before.len() as int));
            assert(texts(self.lines@) =~= texts(before).skip(1));
            assert(all.skip(gone).skip(1) =~= all.skip(gone + 1));
            proof {
                gone = gone + 1;
            }
        }
        assert(self@ =~= newest(all));
    }

    /// Takes all lines out.
    pub fn clear(&mut self)
        ensures
            final(self)@ == Seq::<Seq<char>>::empty(),
    {
        self.lines.clear();
        assert(self@ =~= Seq::<Seq<char>>::empty());
    }

    /// The number of lines.
    pub fn len(&self) -> (count: usize)
        ensures
            count == self@.len(),
    {
        self.lines.len()
    }

    /// All lines as one text, each on a line of its own.
    pub fn copy_text(&self) -> (text: String)
        ensures
            text@ == joined(self@, "\n"@),
    {
        let mut list: Vec<String> = Vec::new();
        let mut index: usize = 0;
        while index < self.lines.len()
            invariant
                index <= self.lines@.len(),
                list@.len() == index,
                forall|i: int| 0 <= i < index ==> (#[trigger] list@[i])@ == self.lines@[i]@,
            decreases self.lines@.len() - index,
        {
            list.push(self.lines[index].clone());
            index = index + 1;
        }
        assert(list.deep_view() =~= self@);
        join(&list, "\n")
    }
}

/// However much is logged, the log keeps to its limit, and the line that came last is there.
pub proof fn log_keeps_to_its_limit(lines: Seq<Seq<char>>, message: Seq<char>, now: MomentView)
    ensures
        extended(lines, message, now).len() <= DEBUG_LOG_LIMIT,
        extended(lines, message, now).last() == log_line(message, now),
{
    reveal(extended);
}

/// A line that goes is older than every line that stays.
pub proof fn log_drops_the_oldest(lines: Seq<Seq<char>>, message: Seq<char>, now: MomentView, i: int)
    requires
        0 <= i < extended(lines, message, now).len() - 1,
    ensures
        extended(lines, message, now)[i] == lines[lines.len() + 1 - extended(
            lines,
            message,
            now,
        ).len() + i],
{
    reveal(extended);
}

/// The log keeps the newest 500 lines: it grows by one line with each message until it holds that
/// many, and each line tells its moment and the whole message.
pub proof fn the_log_keeps_the_newest_lines(
    lines: Seq<Seq<char>>,
    message: Seq<char>,
    now: MomentView,
)
    ensures
        extended(lines, message, now).len() == if lines.len() < 500 {
            lines.len() + 1
        } else {
            500
        },
        lines.len() < 500 ==> extended(lines, message, now).drop_last() == lines,
        lines.len() == 500 ==> extended(lines, message, now).drop_last() == lines.drop_first(),
        exists|head: Seq<char>|
            extended(lines, message, now).last() == #[trigger] (head + message),
{
    reveal(extended);
    let after = extended(lines, message, now);
    assert(lines.len() < 500 ==> after.drop_last() =~= lines);
    assert(lines.len() == 500 ==> after.drop_last() =~= lines.drop_first());
    let head = "[+"@ + right_aligned(now.seconds, 8) + "s] "@;
    assert(after.last() == head + message);
}

} // verus!
