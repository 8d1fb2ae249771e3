//! The interaction layer's state: a bounded, append-only activity log,
//! kept as a fixed-capacity FIFO with oldest-first eviction.

use vstd::prelude::*;

verus! {

/// How many log lines the application keeps.
pub const LOG_CAPACITY: usize = 500;

/// The application state the interaction layer owns: the bounded
/// activity log. Purely observational; the pipeline never reads it.
pub struct App {
    pub logs: Vec<String>,
}

impl App {
    /// The log never outgrows its capacity.
    pub open spec fn wf(self) -> bool {
        self.logs@.len() <= LOG_CAPACITY
    }

    /// The log entries, oldest first.
    pub open spec fn entries(self) -> Seq<Seq<char>> {
        self.logs.deep_view()
    }

    /// A fresh application state with an empty log.
    pub fn new() -> (a: App)
        ensures
            a.wf(),
            a.entries().len() == 0,
    {
        App { logs: Vec::new() }
    }

    /// Appends a status line, evicting the oldest line once the log is
    /// full.
    pub fn push_log(&mut self, line: &str)
        requires
            old(self).wf(),
        ensures
            final (self).wf(),
            final (self).entries() == if old(self).entries().len() < LOG_CAPACITY {
                old(self).entries() + seq![line@]
            } else {
                (old(self).entries() + seq![line@]).skip(1)
            },
    {
        self.logs.push(line.to_owned());
        if self.logs.len() > LOG_CAPACITY {
            self.logs.remove(0);
            proof {
                assert(self.logs.deep_view() =~= (old(self).entries() + seq![line@]).skip(1));
            }
        } else {
            proof {
                assert(self.logs.deep_view() =~= old(self).entries() + seq![line@]);
            }
        }
    }
}

} // verus!
