//! The bounded rolling log buffer used for progress reporting: capped at 500
//! entries with oldest-first eviction, purely observational.

use vstd::prelude::*;
use vstd::string::StrSliceExecFns;
use vstd::string::StringExecFns;
use crate::strutil::views_of;

verus! {

/// Capacity of the rolling log buffer.
pub const LOG_CAP: usize = 500;

/// A bounded rolling buffer of log lines.
pub struct LogBuffer {
    entries: Vec<String>,
}

impl LogBuffer {
    /// The buffered lines, oldest first.
    pub closed spec fn lines(&self) -> Seq<Seq<char>> {
        views_of(self.entries@)
    }

    /// The buffer never outgrows its cap.
    pub closed spec fn wf(&self) -> bool {
        self.entries@.len() <= LOG_CAP
    }

    /// An empty buffer.
    pub fn new() -> (b: LogBuffer)
        ensures
            b.wf(),
            b.lines() =~= Seq::<Seq<char>>::empty(),
    {
        LogBuffer { entries: Vec::new() }
    }

    /// Append one line; at the cap, the oldest line is evicted first.
    pub fn push_entry(&mut self, entry: String)
        requires
            old(self).wf(),
        ensures
            final(self).wf(),
            final(self).lines() == if old(self).lines().len() < LOG_CAP as int {
                old(self).lines().push(entry@)
            } else {
                old(self).lines().subrange(1, old(self).lines().len() as int).push(entry@)
            },
    {
        let ghost prev = self.entries@;
        self.entries.push(entry);
        if self.entries.len() > LOG_CAP {
            self.entries.remove(0);
            proof {
                assert(views_of(self.entries@) =~= views_of(prev).subrange(
                    1,
                    prev.len() as int,
                ).push(entry@));
            }
        } else {
            proof {
                assert(views_of(self.entries@) =~= views_of(prev).push(entry@));
            }
        }
    }

    /// How many lines are buffered.
    pub fn len(&self) -> (n: usize)
        ensures
            n == self.lines().len(),
    {
        self.entries.len()
    }

    /// The line at position `i`, oldest first.
    pub fn get(&self, i: usize) -> (r: &String)
        requires
            i < self.lines().len(),
        ensures
            r@ == self.lines()[i as int],
    {
        &self.entries[i]
    }
}

/// A log line: the timestamp in brackets, a space, then the message.
pub fn format_log_entry(timestamp: &str, message: &str) -> (r: String)
    ensures
        r@ == "["@ + timestamp@ + "] "@ + message@,
{
    let mut out = String::from_str("[");
    out.append(timestamp);
    out.append("] ");
    out.append(message);
    out
}

} // verus!
