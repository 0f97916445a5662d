//! A capacity-bounded, ordered sequence of text lines.
//!
//! Appending to a full buffer evicts the single oldest line first, so the
//! length never exceeds the configured capacity and insertion order is
//! display order (oldest first).

use vstd::prelude::*;

verus! {

/// The mathematical effect of one append: push the line at the end and,
/// if the result is over capacity, drop the element at index 0.
pub open spec fn push_evict(s: Seq<Seq<char>>, cap: nat, line: Seq<char>) -> Seq<Seq<char>> {
    let grown = s.push(line);
    if grown.len() > cap {
        grown.subrange(1, grown.len() as int)
    } else {
        grown
    }
}

/// The effect of appending a whole sequence of lines, oldest first.
pub open spec fn append_all(s: Seq<Seq<char>>, cap: nat, ls: Seq<Seq<char>>) -> Seq<Seq<char>>
    decreases ls.len(),
{
    if ls.len() == 0 {
        s
    } else {
        append_all(push_evict(s, cap, ls[0]), cap, ls.subrange(1, ls.len() as int))
    }
}

pub struct LogBuffer {
    lines: Vec<String>,
    capacity: usize,
}

impl View for LogBuffer {
    type V = Seq<Seq<char>>;

    closed spec fn view(&self) -> Seq<Seq<char>> {
        self.lines.deep_view()
    }
}

impl LogBuffer {
    pub closed spec fn cap(&self) -> nat {
        self.capacity as nat
    }

    /// The buffer never holds more lines than its capacity.
    pub closed spec fn wf(&self) -> bool {
        self@.len() <= self.cap()
    }

    pub fn new(capacity: usize) -> (r: LogBuffer)
        ensures
            r@ =~= Seq::<Seq<char>>::empty(),
            r.cap() == capacity,
            r.wf(),
    {
        LogBuffer { lines: Vec::new(), capacity }
    }

    pub fn length(&self) -> (r: usize)
        ensures
            r == self@.len(),
    {
        self.lines.len()
    }

    pub fn capacity(&self) -> (r: usize)
        ensures
            r == self.cap(),
    {
        self.capacity
    }

    /// A copy of the line at `i`, oldest line first.
    pub fn line_at(&self, i: usize) -> (r: String)
        requires
            i < self@.len(),
        ensures
            r@ == self@[i as int],
    {
        self.lines[i].clone()
    }

    /// A copy of all lines, oldest first.
    pub fn lines_vec(&self) -> (r: Vec<String>)
        ensures
            r.deep_view() == self@,
    {
        let mut r: Vec<String> = Vec::new();
        let mut i: usize = 0;
        while i < self.lines.len()
            invariant
                i <= self.lines@.len(),
                r@.len() == i,
                forall|k: int| 0 <= k < i ==> (#[trigger] r@[k])@ == self.lines@[k]@,
            decreases self.lines@.len() - i,
        {
            r.push(self.lines[i].clone());
            i += 1;
        }
        proof {
            assert(r.deep_view() =~= self@);
        }
        r
    }

    /// Inserts `line` at the end; if the resulting length exceeds the
    /// capacity, removes the oldest entry.
    pub fn append(&mut self, line: String)
        requires
            old(self).wf(),
        ensures
            final(self)@ == push_evict(old(self)@, old(self).cap(), line@),
            final(self).cap() == old(self).cap(),
            final(self).wf(),
    {
        let ghost before = self.lines.deep_view();
        self.lines.push(line);
        proof {
            assert(self.lines.deep_view() =~= before.push(line@));
        }
        if self.lines.len() > self.capacity {
            let ghost grown = self.lines.deep_view();
            self.lines.remove(0);
            proof {
                assert(self.lines.deep_view() =~= grown.subrange(1, grown.len() as int));
            }
        }
    }

    /// Empties the buffer; the capacity is unchanged.
    pub fn clear(&mut self)
        ensures
            final(self)@ =~= Seq::<Seq<char>>::empty(),
            final(self).cap() == old(self).cap(),
            final(self).wf(),
    {
        self.lines.clear();
    }
}

/// However many lines are appended, a buffer that starts within its
/// capacity stays within it.
pub proof fn lemma_append_all_bounded(s: Seq<Seq<char>>, cap: nat, ls: Seq<Seq<char>>)
    requires
        s.len() <= cap,
    ensures
        append_all(s, cap, ls).len() <= cap,
    decreases ls.len(),
{
    if ls.len() > 0 {
        lemma_append_all_bounded(push_evict(s, cap, ls[0]), cap, ls.subrange(1, ls.len() as int));
    }
}

/// Appending a sequence of lines leaves exactly the most recent lines, in
/// their original relative order: the buffer ends up equal to the last
/// `cap` elements of the concatenation of its old contents and the new
/// lines (or all of them, when they fit).
pub proof fn lemma_append_all_keeps_latest(s: Seq<Seq<char>>, cap: nat, ls: Seq<Seq<char>>)
    requires
        s.len() <= cap,
    ensures
        ({
            let total = s.len() + ls.len();
            let dropped: int = if total > cap { total - cap } else { 0 };
            append_all(s, cap, ls) =~= (s + ls).skip(dropped)
        }),
    decreases ls.len(),
{
    let total = s.len() + ls.len();
    let dropped: int = if total > cap { total - cap } else { 0 };
    if ls.len() == 0 {
        assert(append_all(s, cap, ls) =~= (s + ls).skip(dropped));
    } else {
        let s1 = push_evict(s, cap, ls[0]);
        let ls1 = ls.subrange(1, ls.len() as int);
        let total1 = s1.len() + ls1.len();
        let dropped1: int = if total1 > cap { total1 - cap } else { 0 };
        lemma_append_all_keeps_latest(s1, cap, ls1);
        if s.len() + 1 <= cap {
            assert(s1 =~= s.push(ls[0]));
            assert(s1 + ls1 =~= s + ls);
        } else {
            assert(s.len() == cap);
            assert(s1 =~= s.push(ls[0]).subrange(1, (s.len() + 1) as int));
            assert((s1 + ls1).skip(dropped1) =~= (s + ls).skip(dropped));
        }
        assert(append_all(s, cap, ls) == append_all(s1, cap, ls1));
        assert(append_all(s, cap, ls) =~= (s + ls).skip(dropped));
    }
}

/// Appending `cap + k` lines to an empty buffer leaves exactly the last
/// `cap` of them, in their original relative order.
pub proof fn lemma_eviction_keeps_last_capacity(cap: nat, ls: Seq<Seq<char>>)
    requires
        ls.len() >= cap,
    ensures
        append_all(Seq::empty(), cap, ls) =~= ls.skip(ls.len() - cap),
{
    lemma_append_all_keeps_latest(Seq::empty(), cap, ls);
    assert(Seq::<Seq<char>>::empty() + ls =~= ls);
}

} // verus!
