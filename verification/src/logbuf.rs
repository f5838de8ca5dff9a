//! Bounded line store shared by the supervisor and its two stream readers:
//! an ordered sequence of text lines, capped at `LOG_CAPACITY`, evicting the
//! oldest line first once full.
use vstd::prelude::*;

verus! {

/// Most lines the buffer retains; appending beyond it evicts the oldest line.
pub const LOG_CAPACITY: usize = 1000;

/// Fixed-capacity ordered line store with oldest-first eviction.
pub struct LogBuffer {
    lines: Vec<String>,
}

impl View for LogBuffer {
    type V = Seq<Seq<char>>;

    closed spec fn view(&self) -> Seq<Seq<char>> {
        self.lines.deep_view()
    }
}

/// The buffer never holds more lines than its capacity.
pub open spec fn log_inv(logs: Seq<Seq<char>>) -> bool {
    logs.len() <= LOG_CAPACITY
}

/// One append under the capacity bound: the new line goes to the back, and
/// when the buffer is already full the oldest line leaves the front.
pub open spec fn spec_append_line(logs: Seq<Seq<char>>, line: Seq<char>) -> Seq<Seq<char>> {
    if logs.len() < LOG_CAPACITY {
        logs.push(line)
    } else {
        logs.subrange(1, logs.len() as int).push(line)
    }
}

impl LogBuffer {
    /// A fresh, empty buffer.
    pub fn new() -> (buf: LogBuffer)
        ensures
            buf@ == Seq::<Seq<char>>::empty(),
    {
        let buf = LogBuffer { lines: Vec::new() };
        proof {
            assert(buf@ =~= Seq::<Seq<char>>::empty());
        }
        buf
    }

    /// How many lines are currently held.
    pub fn len(&self) -> (n: usize)
        ensures
            n == self@.len(),
    {
        self.lines.len()
    }

    /// Append one line, evicting the oldest line when the buffer is full.
    pub fn append(&mut self, line: String)
        requires
            log_inv(old(self)@),
        ensures
            final(self)@ == spec_append_line(old(self)@, line@),
            log_inv(final(self)@),
    {
        let ghost pre = self@;
        let ghost l = line@;
        self.lines.push(line);
        proof {
            assert(self@ =~= pre.push(l));
        }
        if self.lines.len() > LOG_CAPACITY {
            let ghost mid = self@;
            let _ = self.lines.remove(0);
            proof {
                assert(self@ =~= mid.remove(0));
                assert(mid.remove(0) =~= pre.subrange(1, pre.len() as int).push(l));
            }
        }
    }

    /// Drop every line; the buffer becomes empty at any status.
    pub fn clear(&mut self)
        ensures
            final(self)@ == Seq::<Seq<char>>::empty(),
    {
        self.lines.clear();
        proof {
            assert(self@ =~= Seq::<Seq<char>>::empty());
        }
    }

    /// An independent copy of the current lines, oldest first; later appends
    /// do not affect a snapshot already taken.
    pub fn snapshot(&self) -> (r: Vec<String>)
        ensures
            r.deep_view() == self@,
    {
        let r = self.lines.clone();
        proof {
            assert(r.deep_view() =~= self@);
        }
        r
    }
}

/// Appending never grows the buffer past its capacity, and an append to a
/// full buffer evicts exactly the oldest line, keeping the order of the
/// remaining lines.
pub proof fn lemma_append_bounded(logs: Seq<Seq<char>>, line: Seq<char>)
    requires
        log_inv(logs),
    ensures
        spec_append_line(logs, line).len() <= LOG_CAPACITY,
        logs.len() < LOG_CAPACITY ==> spec_append_line(logs, line) == logs.push(line),
        logs.len() == LOG_CAPACITY ==> {
            let out = spec_append_line(logs, line);
            &&& out.len() == LOG_CAPACITY
            &&& forall|i: int| 0 <= i < LOG_CAPACITY - 1 ==> out[i] == logs[i + 1]
            &&& out[LOG_CAPACITY - 1] == line
        },
{
}

} // verus!
