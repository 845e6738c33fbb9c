//! The agent's own bookkeeping between ticks, and its log lines.

use vstd::prelude::*;
use crate::text::push_char;

verus! {

/// What to log after trying to collect a tick's metrics.
#[derive(Debug, Clone, Copy, PartialEq, Eq, Structural)]
pub enum MetricsNote {
    /// Collected, as usual.
    Collected,
    /// Collected again after `after` failed tries.
    Recovered { after: u32 },
    /// The `attempt`-th failure in a row.
    Failed { attempt: u32 },
}

/// Counts failed metrics collections in a row.
pub struct MetricsWatch {
    failures: u32,
}

impl MetricsWatch {
    pub closed spec fn failures(&self) -> u32 {
        self.failures
    }

    /// The current run of failures.
    pub fn failures_count(&self) -> (n: u32)
        ensures
            n == self.failures(),
    {
        self.failures
    }

    pub fn new() -> (w: MetricsWatch)
        ensures
            w.failures() == 0,
    {
        MetricsWatch { failures: 0 }
    }

    /// Records whether this tick's collection worked.
    pub fn record(&mut self, collected: bool) -> (note: MetricsNote)
        requires
            !collected ==> old(self).failures() < u32::MAX,
        ensures
            collected ==> final(self).failures() == 0,
            collected ==> note == (if old(self).failures() > 0 {
                MetricsNote::Recovered { after: old(self).failures() }
            } else {
                MetricsNote::Collected
            }),
            !collected ==> final(self).failures() == old(self).failures() + 1,
            !collected ==> note == (MetricsNote::Failed { attempt: final(self).failures() }),
    {
        if collected {
            let before = self.failures;
            self.failures = 0;
            if before > 0 {
                MetricsNote::Recovered { after: before }
            } else {
                MetricsNote::Collected
            }
        } else {
            self.failures = self.failures + 1;
            MetricsNote::Failed { attempt: self.failures }
        }
    }
}

/// `s` padded on the right with spaces to `width` characters (as `{:<w}`).
pub open spec fn pad_right(s: Seq<char>, width: nat) -> Seq<char> {
    if s.len() >= width { s } else { s + Seq::new((width - s.len()) as nat, |i: int| ' ') }
}

/// One line of the agent's log.
pub open spec fn log_line_text(timestamp: Seq<char>, level: Seq<char>, message: Seq<char>) -> Seq<char> {
    timestamp + " ["@ + pad_right(level, 5) + "] "@ + message + "\n"@
}

/// Law: a log line is the timestamp, ` [`, the level padded with spaces to
/// five characters, `] `, the whole message and a newline, whatever their
/// lengths: its length is the sum of theirs plus five, it begins with the
/// timestamp and the bracketed level, and it ends with the entire message.
pub proof fn lemma_log_line_whole(timestamp: Seq<char>, level: Seq<char>, message: Seq<char>)
    ensures
        ({
            let line = log_line_text(timestamp, level, message);
            let n = timestamp.len() as int;
            let l = level.len() as int;
            let w: int = if l >= 5 { l } else { 5 };
            &&& line.len() == n + w + message.len() + 5
            &&& line.subrange(0, n) == timestamp
            &&& line[n] == ' '
            &&& line[n + 1] == '['
            &&& line.subrange(n + 2, n + 2 + l) == level
            &&& forall|i: int| n + 2 + l <= i < n + 2 + w ==> line[i] == ' '
            &&& line[n + 2 + w] == ']'
            &&& line.subrange(line.len() - message.len() - 1, line.len() - 1) == message
            &&& line[line.len() - 1] == '\n'
        }),
{
    reveal_strlit(" [");
    reveal_strlit("] ");
    reveal_strlit("\n");
    let line = log_line_text(timestamp, level, message);
    let n = timestamp.len() as int;
    let l = level.len() as int;
    let p = pad_right(level, 5);
    let w: int = if l >= 5 { l } else { 5 };
    assert(p.len() == w);
    assert(line == timestamp + " ["@ + p + "] "@ + message + "\n"@);
    assert(line.subrange(0, n) =~= timestamp);
    assert(line.subrange(n + 2, n + 2 + l) =~= level);
    assert(line.subrange(line.len() - message.len() - 1, line.len() - 1) =~= message);
}

/// Formats a log line: `<time> [<LEVEL padded to 5>] <message>` and a newline.
pub fn log_line(timestamp: &str, level: &str, message: &str) -> (line: String)
    ensures
        line@ == log_line_text(timestamp@, level@, message@),
{
    let mut line = String::from_str(timestamp);
    line.append(" [");
    line.append(level);
    let n = level.unicode_len();
    let ghost start = line@;
    if n < 5 {
        let mut k = n;
        assert(line@ =~= start + Seq::new(0nat, |i: int| ' '));
        while k < 5
            invariant
                n == level@.len(),
                n <= k <= 5,
                line@ == start + Seq::new((k - n) as nat, |i: int| ' '),
            decreases 5 - k,
        {
            push_char(&mut line, ' ');
            k = k + 1;
            proof {
                assert(line@ =~= start + Seq::new((k - n) as nat, |i: int| ' '));
            }
        }
    }
    line.append("] ");
    line.append(message);
    line.append("\n");
    line
}

} // verus!
