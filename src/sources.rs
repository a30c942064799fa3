//! The source stack: a stack of cursors over directive lists, where the top
//! cursor is read first and an exhausted cursor gives way to the one below.
use crate::directive::Directive;
use vstd::prelude::*;

verus! {

/// A list of directives and the position of the next one to hand out.
#[derive(Debug)]
pub struct Cursor {
    pub directives: Vec<Directive>,
    pub next: usize,
}

impl Cursor {
    pub open spec fn wf(&self) -> bool {
        self.next <= self.directives@.len()
    }

    /// The directives not yet handed out.
    pub open spec fn remaining(&self) -> Seq<Directive> {
        self.directives@.subrange(self.next as int, self.directives@.len() as int)
    }
}

/// The directives still to come from a stack of cursors, top first: reading
/// them in this order is textual substitution of each included file.
pub open spec fn pending(cursors: Seq<Cursor>) -> Seq<Directive>
    decreases cursors.len(),
{
    if cursors.len() == 0 {
        Seq::empty()
    } else {
        cursors.last().remaining() + pending(cursors.drop_last())
    }
}

/// The active sources of a load, the most recently opened file on top.
#[derive(Debug)]
pub struct IncludeStack {
    pub cursors: Vec<Cursor>,
}

impl IncludeStack {
    pub open spec fn wf(&self) -> bool {
        forall|i: int| 0 <= i < self.cursors@.len() ==> (#[trigger] self.cursors@[i]).wf()
    }

    pub open spec fn pending(&self) -> Seq<Directive> {
        pending(self.cursors@)
    }

    /// A stack holding one source.
    pub fn new(directives: Vec<Directive>) -> (r: IncludeStack)
        ensures
            r.wf(),
            r.pending() == directives@,
    {
        let mut r = IncludeStack { cursors: Vec::new() };
        r.push(directives);
        proof {
            assert(r.cursors@.drop_last() =~= Seq::<Cursor>::empty());
            assert(r.cursors@.last().remaining() =~= directives@);
            assert(r.pending() =~= directives@);
        }
        r
    }

    /// Puts a source on top: its directives come before everything pending.
    pub fn push(&mut self, directives: Vec<Directive>)
        requires
            old(self).wf(),
        ensures
            final(self).wf(),
            final(self).pending() == directives@ + old(self).pending(),
            final(self).cursors@.len() == old(self).cursors@.len() + 1,
    {
        let ghost d = directives@;
        self.cursors.push(Cursor { directives, next: 0 });
        proof {
            assert(self.cursors@.drop_last() =~= old(self).cursors@);
            assert(self.cursors@.last().remaining() =~= d);
            assert forall|i: int| 0 <= i < self.cursors@.len() implies (#[trigger] self.cursors@[i]).wf() by {
                if i < old(self).cursors@.len() {
                    assert(self.cursors@[i] == old(self).cursors@[i]);
                }
            }
        }
    }

    /// Hands out the next pending directive, dropping exhausted cursors on
    /// the way; `None` once nothing is pending, with the stack then empty.
    pub fn next(&mut self) -> (r: Option<Directive>)
        requires
            old(self).wf(),
        ensures
            final(self).wf(),
            old(self).pending().len() == 0 ==> r is None && final(self).cursors@.len() == 0,
            old(self).pending().len() > 0 ==> r == Some(old(self).pending()[0])
                && final(self).pending() == old(self).pending().drop_first(),
    {
        loop
            invariant
                self.wf(),
                self.pending() == old(self).pending(),
            decreases self.cursors@.len(),
        {
            let n = self.cursors.len();
            if n == 0 {
                return None;
            }
            let ghost before = self.cursors@;
            let top = self.cursors.pop();
            match top {
                None => {
                    return None;
                },
                Some(c) => {
                    assert(before.drop_last() =~= self.cursors@);
                    assert(c == before.last());
                    assert(c.wf());
                    if c.next < c.directives.len() {
                        let mut c = c;
                        let i = c.next;
                        let ghost orig = c;
                        let mut d = Directive::ObjectEnd;
                        std::mem::swap(&mut d, &mut c.directives[i]);
                        c.next = i + 1;
                        proof {
                            assert(d == orig.remaining()[0]);
                            assert(c.remaining() =~= orig.remaining().drop_first());
                        }
                        self.cursors.push(c);
                        proof {
                            assert(self.cursors@.drop_last() =~= before.drop_last());
                            assert(self.pending() =~= old(self).pending().drop_first());
                            assert forall|j: int| 0 <= j < self.cursors@.len() implies (
                            #[trigger] self.cursors@[j]).wf() by {
                                if j < n - 1 {
                                    assert(self.cursors@[j] == before[j]);
                                }
                            }
                        }
                        return Some(d);
                    } else {
                        proof {
                            assert(c.remaining() =~= Seq::<Directive>::empty());
                            assert(pending(before) =~= pending(self.cursors@));
                            assert forall|j: int| 0 <= j < self.cursors@.len() implies (
                            #[trigger] self.cursors@[j]).wf() by {
                                assert(self.cursors@[j] == before[j]);
                            }
                        }
                    }
                },
            }
        }
    }
}

} // verus!
