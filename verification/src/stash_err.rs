//! The lazy adapter that yields success values and stashes failures.

use vstd::prelude::*;

use crate::error::Stashable;
use crate::stash::ErrorSink;
use crate::stashable::IntoStashable;

verus! {

/// Position of the first success in `items`, or `items.len()` if every
/// element is a failure.
pub open spec fn spec_first_ok<T, E>(items: Seq<Result<T, E>>) -> int
    decreases items.len(),
{
    if items.len() == 0 {
        0
    } else {
        match items[0] {
            Ok(_) => 0,
            Err(_) => 1 + spec_first_ok(items.drop_first()),
        }
    }
}

pub proof fn lemma_first_ok_bounds<T, E>(items: Seq<Result<T, E>>)
    ensures
        0 <= spec_first_ok(items) <= items.len(),
        forall|j: int| 0 <= j < spec_first_ok(items) ==> items[j] is Err,
        spec_first_ok(items) < items.len() ==> items[spec_first_ok(items)] is Ok,
    decreases items.len(),
{
    if items.len() > 0 && items[0] is Err {
        lemma_first_ok_bounds(items.drop_first());
        assert forall|j: int| 0 <= j < spec_first_ok(items) implies items[j] is Err by {
            if j > 0 {
                assert(items.drop_first()[j - 1] == items[j]);
            }
        }
    }
}

/// Skipping a failure moves the first success one step closer.
pub proof fn lemma_first_ok_step<T, E>(items: Seq<Result<T, E>>)
    requires
        items.len() > 0,
        items[0] is Err,
    ensures
        spec_first_ok(items) == 1 + spec_first_ok(items.skip(1)),
{
    assert(items.skip(1) =~= items.drop_first());
}

/// Adds [`stash_err`](StashErr::stash_err) on `Vec<Result<T, E>>`.
pub trait StashErr<T, E, S>: Sized where E: IntoStashable, S: ErrorSink {
    /// Starts a lazy traversal that yields the success values one at a time
    /// and moves every failure into the sink as soon as it is encountered.
    /// The iterator owns the sink while the traversal runs;
    /// [`StashErrIter::finish`] hands it back.
    fn stash_err(self, stash: S) -> (r: StashErrIter<T, E, S>);
}

impl<T, E, S> StashErr<T, E, S> for Vec<Result<T, E>> where E: IntoStashable, S: ErrorSink {
    fn stash_err(self, stash: S) -> (r: StashErrIter<T, E, S>)
        ensures
            r.items == self,
            r.stash == stash,
    {
        StashErrIter { items: self, stash }
    }
}

/// A single-pass, pull-based traversal over a sequence of results: each call
/// of [`next`](Self::next) stashes the failures it passes over and stops at
/// the first success.
pub struct StashErrIter<T, E, S> where E: IntoStashable, S: ErrorSink {
    pub items: Vec<Result<T, E>>,
    pub stash: S,
}

impl<T, E, S> StashErrIter<T, E, S> where E: IntoStashable, S: ErrorSink {
    pub open spec fn wf(&self) -> bool {
        self.stash.sink_wf()
    }

    /// Stashes failures until a success value is encountered and returns it;
    /// returns `None` when the items are exhausted. Each item is pulled only
    /// when asked for.
    pub fn next(&mut self) -> (r: Option<T>)
        requires
            old(self).wf(),
        ensures
            final(self).wf(),
            ({
                let pre = old(self).items@;
                let k = spec_first_ok(pre);
                &&& (k == pre.len() ==> r is None && final(self).items@.len() == 0)
                &&& (k < pre.len() ==> (pre[k] matches Ok(t) && r == Some(t)) && final(self).items@
                    == pre.skip(k + 1))
                &&& (exists|ps: Seq<Stashable>|
                    {
                        &&& ps.len() == k
                        &&& final(self).stash.sink_errors() == old(self).stash.sink_errors() + ps
                        &&& (forall|j: int|
                            0 <= j < k ==> (#[trigger] pre[j] matches Err(e) && e.is_stashable(
                                ps[j],
                            )))
                    })
                &&& (k > 0 ==> S::sink_summary_rel(old(self).stash, final(self).stash))
                &&& (k == 0 ==> final(self).stash == old(self).stash)
            }),
    {
        let ghost pre = self.items@;
        let ghost old_stash = self.stash;
        let ghost mut ps: Seq<Stashable> = Seq::empty();
        let ghost mut j: int = 0;
        proof {
            lemma_first_ok_bounds(pre);
        }
        loop
            invariant
                old(self).items@ == pre,
                old(self).stash == old_stash,
                self.stash.sink_wf(),
                0 <= j <= spec_first_ok(pre),
                spec_first_ok(pre) <= pre.len(),
                self.items@ == pre.skip(j),
                spec_first_ok(pre) == j + spec_first_ok(self.items@),
                forall|i: int| 0 <= i < spec_first_ok(pre) ==> pre[i] is Err,
                spec_first_ok(pre) < pre.len() ==> pre[spec_first_ok(pre)] is Ok,
                ps.len() == j,
                self.stash.sink_errors() == old_stash.sink_errors() + ps,
                forall|i: int|
                    0 <= i < j ==> (#[trigger] pre[i] matches Err(e) && e.is_stashable(ps[i])),
                j > 0 ==> S::sink_summary_rel(old_stash, self.stash),
                j == 0 ==> self.stash == old_stash,
            decreases self.items@.len(),
        {
            if self.items.len() == 0 {
                proof {
                    assert(j == spec_first_ok(pre));
                    assert(ps.len() == spec_first_ok(pre) && self.stash.sink_errors()
                        == old_stash.sink_errors() + ps && (forall|i: int|
                        0 <= i < spec_first_ok(pre) ==> (#[trigger] pre[i] matches Err(e)
                            && e.is_stashable(ps[i]))));
                }
                return None;
            }
            let ghost mid_stash = self.stash;
            let item = self.items.remove(0);
            proof {
                assert(item == pre[j]);
                assert(pre.skip(j).remove(0) =~= pre.skip(j + 1));
            }
            match item {
                Ok(t) => {
                    proof {
                        assert(j == spec_first_ok(pre));
                        assert(ps.len() == spec_first_ok(pre) && self.stash.sink_errors()
                            == old_stash.sink_errors() + ps && (forall|i: int|
                            0 <= i < spec_first_ok(pre) ==> (#[trigger] pre[i] matches Err(e)
                                && e.is_stashable(ps[i]))));
                    }
                    return Some(t);
                },
                Err(e) => {
                    proof {
                        lemma_first_ok_step(pre.skip(j));
                    }
                    let s = e.into_stashable();
                    let ghost gs = s;
                    self.stash.stash(s);
                    proof {
                        ps = ps.push(gs);
                        assert(self.stash.sink_errors() =~= old_stash.sink_errors() + ps);
                        if j > 0 {
                            S::sink_summary_rel_trans(old_stash, mid_stash, self.stash);
                        }
                        j = j + 1;
                    }
                },
            }
        }
    }

    /// Ends the traversal and hands the sink back.
    pub fn finish(self) -> (r: S)
        ensures
            r == self.stash,
    {
        self.stash
    }
}

} // verus!
