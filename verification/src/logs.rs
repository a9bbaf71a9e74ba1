//! Bounded, append-only operational log.
//!
//! The buffer keeps the most recent `MAX_LOGS` rendered lines; when an append
//! would exceed the bound the oldest line is evicted first.

use vstd::prelude::*;

verus! {

/// Upper bound on the number of retained log lines.
pub const MAX_LOGS: usize = 50;

/// The contents of a log buffer after appending one line: the line goes at
/// the end, and the oldest line leaves if the bound would be exceeded.
pub open spec fn log_appended(l: Seq<Seq<char>>, line: Seq<char>) -> Seq<Seq<char>> {
    let full = l.push(line);
    if full.len() <= MAX_LOGS {
        full
    } else {
        full.skip(full.len() - MAX_LOGS)
    }
}

/// The views of a sequence of owned strings.
pub open spec fn line_views(l: Seq<String>) -> Seq<Seq<char>> {
    l.map_values(|s: String| s@)
}

/// A bounded FIFO buffer of rendered log lines.
pub struct LogBuffer {
    lines: Vec<String>,
}

impl LogBuffer {
    /// The retained lines, oldest first.
    pub closed spec fn view(&self) -> Seq<Seq<char>> {
        line_views(self.lines@)
    }

    /// The buffer never holds more than `MAX_LOGS` lines.
    pub open spec fn wf(&self) -> bool {
        self@.len() <= MAX_LOGS
    }

    /// An empty buffer.
    pub fn new() -> (r: LogBuffer)
        ensures
            r.wf(),
            r@ == Seq::<Seq<char>>::empty(),
    {
        let r = LogBuffer { lines: Vec::new() };
        proof {
            assert(r@ =~= Seq::<Seq<char>>::empty());
        }
        r
    }

    /// Appends one rendered line, evicting the oldest if the bound would be
    /// exceeded.
    pub fn append(&mut self, line: String)
        requires
            old(self).wf(),
        ensures
            final(self).wf(),
            final(self)@ == log_appended(old(self)@, line@),
    {
        let ghost pre = self@;
        let ghost entry = line@;
        self.lines.push(line);
        proof {
            assert(self@ =~= pre.push(entry));
        }
        if self.lines.len() > MAX_LOGS {
            let ghost mid = self@;
            self.lines.remove(0);
            proof {
                assert(self@ =~= mid.skip(1));
            }
        }
        proof {
            assert(self@ =~= log_appended(pre, entry));
        }
    }

    /// The number of retained lines.
    pub fn len(&self) -> (r: usize)
        ensures
            r == self@.len(),
    {
        self.lines.len()
    }

    /// A copy of the retained lines, oldest first.
    pub fn snapshot(&self) -> (r: Vec<String>)
        ensures
            r@.map_values(|s: String| s@) == self@,
    {
        let mut out: Vec<String> = Vec::new();
        let mut i: usize = 0;
        while i < self.lines.len()
            invariant
                i <= self.lines.len(),
                line_views(out@) =~= self@.take(i as int),
            decreases self.lines.len() - i,
        {
            let ghost prev = out@;
            let line = self.lines[i].clone();
            proof {
                assert(line@ == self@[i as int]);
            }
            out.push(line);
            i = i + 1;
            proof {
                assert(line_views(out@) =~= line_views(prev).push(line@));
                assert(line_views(out@) =~= self@.take(i as int));
            }
        }
        proof {
            assert(line_views(out@) =~= self@);
        }
        out
    }
}

/// Law: a well-formed log buffer never exceeds the bound, and an append to a
/// full buffer keeps exactly the most recent `MAX_LOGS` lines, oldest first.
pub proof fn lemma_log_buffer_bounded(l: Seq<Seq<char>>, line: Seq<char>)
    requires
        l.len() <= MAX_LOGS,
    ensures
        log_appended(l, line).len() <= MAX_LOGS,
        l.len() < MAX_LOGS ==> log_appended(l, line) == l.push(line),
        l.len() == MAX_LOGS ==> log_appended(l, line) == l.push(line).skip(1),
{
}

/// The contents of a buffer that started empty after a whole run of appends,
/// in order.
pub open spec fn log_appended_all(lines: Seq<Seq<char>>) -> Seq<Seq<char>>
    decreases lines.len(),
{
    if lines.len() == 0 {
        Seq::empty()
    } else {
        log_appended(log_appended_all(lines.drop_last()), lines.last())
    }
}

/// Law: any run of appends to a buffer that started empty retains exactly
/// the most recent `MAX_LOGS` of the appended lines, oldest first — never
/// more, and the oldest are the ones evicted.
pub proof fn lemma_log_retains_most_recent(lines: Seq<Seq<char>>)
    ensures
        lines.len() <= MAX_LOGS ==> log_appended_all(lines) == lines,
        lines.len() > MAX_LOGS ==> log_appended_all(lines) == lines.skip(
            lines.len() - MAX_LOGS,
        ),
        log_appended_all(lines).len() <= MAX_LOGS,
    decreases lines.len(),
{
    if lines.len() == 0 {
        assert(log_appended_all(lines) =~= lines);
    } else {
        let prefix = lines.drop_last();
        lemma_log_retains_most_recent(prefix);
        let before = log_appended_all(prefix);
        if lines.len() <= MAX_LOGS {
            assert(before == prefix);
            assert(log_appended_all(lines) =~= lines);
        } else if lines.len() == MAX_LOGS + 1 {
            assert(before == prefix);
            assert(log_appended_all(lines) =~= lines.skip(1));
        } else {
            assert(before == prefix.skip(prefix.len() - MAX_LOGS));
            assert(log_appended_all(lines) =~= lines.skip(lines.len() - MAX_LOGS));
        }
    }
}

} // verus!
