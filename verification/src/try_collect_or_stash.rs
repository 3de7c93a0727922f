//! Draining a whole sequence of results, stashing every failure.

use vstd::prelude::*;

use crate::error::ErrorData;
use crate::error::Stashable;
use crate::or_stash::StashedResult;
use crate::stash::ErrorSink;
use crate::stashable::IntoStashable;

verus! {

/// The success values of `items`, in order.
pub open spec fn spec_ok_values<T, E>(items: Seq<Result<T, E>>) -> Seq<T>
    decreases items.len(),
{
    if items.len() == 0 {
        Seq::empty()
    } else {
        (match items[0] {
            Ok(t) => seq![t],
            Err(_) => Seq::empty(),
        }) + spec_ok_values(items.drop_first())
    }
}

/// The failure values of `items`, in order.
pub open spec fn spec_err_values<T, E>(items: Seq<Result<T, E>>) -> Seq<E>
    decreases items.len(),
{
    if items.len() == 0 {
        Seq::empty()
    } else {
        (match items[0] {
            Ok(_) => Seq::empty(),
            Err(e) => seq![e],
        }) + spec_err_values(items.drop_first())
    }
}

pub proof fn lemma_ok_values_push<T, E>(items: Seq<Result<T, E>>, x: Result<T, E>)
    ensures
        spec_ok_values(items.push(x)) == spec_ok_values(items) + (match x {
            Ok(t) => seq![t],
            Err(_) => Seq::<T>::empty(),
        }),
    decreases items.len(),
{
    if items.len() == 0 {
        assert(items.push(x).drop_first() =~= items);
        assert(spec_ok_values(items.push(x)) =~= spec_ok_values(items) + (match x {
            Ok(t) => seq![t],
            Err(_) => Seq::<T>::empty(),
        }));
    } else {
        lemma_ok_values_push(items.drop_first(), x);
        assert(items.push(x).drop_first() =~= items.drop_first().push(x));
        assert(spec_ok_values(items.push(x)) =~= spec_ok_values(items) + (match x {
            Ok(t) => seq![t],
            Err(_) => Seq::<T>::empty(),
        }));
    }
}

pub proof fn lemma_err_values_push<T, E>(items: Seq<Result<T, E>>, x: Result<T, E>)
    ensures
        spec_err_values(items.push(x)) == spec_err_values(items) + (match x {
            Ok(_) => Seq::<E>::empty(),
            Err(e) => seq![e],
        }),
    decreases items.len(),
{
    if items.len() == 0 {
        assert(items.push(x).drop_first() =~= items);
        assert(spec_err_values(items.push(x)) =~= spec_err_values(items) + (match x {
            Ok(_) => Seq::<E>::empty(),
            Err(e) => seq![e],
        }));
    } else {
        lemma_err_values_push(items.drop_first(), x);
        assert(items.push(x).drop_first() =~= items.drop_first().push(x));
        assert(spec_err_values(items.push(x)) =~= spec_err_values(items) + (match x {
            Ok(_) => Seq::<E>::empty(),
            Err(e) => seq![e],
        }));
    }
}

/// When no element failed, every element is a success and the projection
/// keeps each value at its place.
pub proof fn lemma_all_ok<T, E>(items: Seq<Result<T, E>>)
    requires
        spec_err_values(items).len() == 0,
    ensures
        spec_ok_values(items).len() == items.len(),
        forall|i: int|
            0 <= i < items.len() ==> (#[trigger] items[i] matches Ok(u) && spec_ok_values(items)[i]
                == u),
    decreases items.len(),
{
    if items.len() > 0 {
        lemma_all_ok(items.drop_first());
        assert forall|i: int|
            0 <= i < items.len() implies (#[trigger] items[i] matches Ok(u) && spec_ok_values(
            items,
        )[i] == u) by {
            if i > 0 {
                assert(items.drop_first()[i - 1] == items[i]);
            }
        }
    }
}

/// A non-empty failure projection names at least one failing element.
pub proof fn lemma_err_values_nonempty<T, E>(items: Seq<Result<T, E>>)
    requires
        spec_err_values(items).len() > 0,
    ensures
        exists|i: int| 0 <= i < items.len() && #[trigger] items[i] is Err,
    decreases items.len(),
{
    if items[0] is Err {
        assert(items[0] is Err);
    } else {
        lemma_err_values_nonempty(items.drop_first());
        let i = choose|i: int| 0 <= i < items.drop_first().len() && #[trigger] items.drop_first()[i] is Err;
        assert(items[i + 1] == items.drop_first()[i]);
        assert(items[i + 1] is Err);
    }
}

/// Holds of the stash entries that wrapping `e` (without context) may
/// produce: the entry is a context-free wrapper around a conversion of `e`.
pub open spec fn is_wrap_of<E: IntoStashable>(e: E, s: Stashable) -> bool {
    s matches Stashable::Tree(d) && *d matches ErrorData::Wrapped(w) && w.context is None
        && e.is_stashable(w.inner)
}

/// Adds [`try_collect_or_stash`](TryCollectOrStash::try_collect_or_stash) on
/// `Vec<Result<T, E>>`.
pub trait TryCollectOrStash<T, E: IntoStashable, S: ErrorSink>: Sized {
    /// Drains the whole sequence, never short-circuiting: every failure is
    /// wrapped (recording the location) and pushed into `stash`, every
    /// success value is collected. Returns the collected values exactly when
    /// the sequence held no failure; errors already in the stash before the
    /// call do not count as failures of this call.
    fn try_collect_or_stash(self, stash: &mut S) -> (r: StashedResult<Vec<T>>)
        requires
            old(stash).sink_wf(),
        ensures
            final(stash).sink_wf(),
            self.spec_items().len() == spec_ok_values(self.spec_items()).len() + spec_err_values(
                self.spec_items(),
            ).len(),
            spec_err_values(self.spec_items()).len() == 0 ==> (r matches StashedResult::Success(v)
                && v@ == spec_ok_values(self.spec_items()) && *final(stash) == *old(stash)),
            spec_err_values(self.spec_items()).len() > 0 ==> {
                &&& r is Stashed
                &&& S::sink_summary_rel(*old(stash), *final(stash))
                &&& (exists|ps: Seq<Stashable>|
                    {
                        &&& ps.len() == spec_err_values(self.spec_items()).len()
                        &&& final(stash).sink_errors() == old(stash).sink_errors() + ps
                        &&& (forall|i: int|
                            0 <= i < ps.len() ==> is_wrap_of(
                                #[trigger] spec_err_values(self.spec_items())[i],
                                ps[i],
                            ))
                    })
            },
    ;

    /// The sequence of results this value holds.
    spec fn spec_items(&self) -> Seq<Result<T, E>>;
}

impl<T, E: IntoStashable, S: ErrorSink> TryCollectOrStash<T, E, S> for Vec<Result<T, E>> {
    open spec fn spec_items(&self) -> Seq<Result<T, E>> {
        self@
    }

    fn try_collect_or_stash(self, stash: &mut S) -> (r: StashedResult<Vec<T>>) {
        let ghost pre = self@;
        let ghost old_stash = *old(stash);
        let mut items = self;
        let n = items.len();
        let mut out: Vec<T> = Vec::new();
        let ghost mut ps: Seq<Stashable> = Seq::empty();
        let ghost mut done: Seq<Result<T, E>> = Seq::empty();
        while items.len() > 0
            invariant
                old_stash.sink_wf(),
                stash.sink_wf(),
                n == pre.len(),
                done.len() + items@.len() == pre.len(),
                done == pre.take(done.len() as int),
                items@ == pre.skip(done.len() as int),
                out@ == spec_ok_values(done),
                ps.len() == spec_err_values(done).len(),
                stash.sink_errors() == old_stash.sink_errors() + ps,
                forall|i: int|
                    0 <= i < ps.len() ==> is_wrap_of(#[trigger] spec_err_values(done)[i], ps[i]),
                ps.len() > 0 ==> S::sink_summary_rel(old_stash, *stash),
                ps.len() == 0 ==> *stash == old_stash,
            decreases items@.len(),
        {
            let ghost mid_stash = *stash;
            let ghost k = done.len() as int;
            let item = items.remove(0);
            let ghost gitem = item;
            proof {
                assert(item == pre[k]);
                assert(pre.skip(k).remove(0) =~= pre.skip(k + 1));
                assert(pre.take(k + 1) =~= pre.take(k).push(pre[k]));
                lemma_ok_values_push(done, pre[k]);
                lemma_err_values_push(done, pre[k]);
            }
            match item {
                Ok(t) => {
                    out.push(t);
                },
                Err(e) => {
                    let ghost ge = e;
                    let wrapped = crate::error::Error::wrap(e);
                    let s = wrapped.into_stashable();
                    let ghost gs = s;
                    stash.stash(s);
                    proof {
                        ps = ps.push(gs);
                        assert(stash.sink_errors() =~= old_stash.sink_errors() + ps);
                        if spec_err_values(done).len() > 0 {
                            S::sink_summary_rel_trans(old_stash, mid_stash, *stash);
                        }
                        assert(spec_err_values(done.push(gitem)) =~= spec_err_values(done)
                            + seq![ge]);
                    }
                },
            }
            proof {
                done = done.push(gitem);
            }
        }
        proof {
            assert(done =~= pre);
            lemma_ok_err_partition::<T, E>(pre);
        }
        if out.len() != n {
            StashedResult::Stashed
        } else {
            StashedResult::Success(out)
        }
    }
}

/// Every element is a success or a failure: the two projections partition the
/// sequence.
pub broadcast proof fn lemma_ok_err_partition<T, E>(items: Seq<Result<T, E>>)
    ensures
        (#[trigger] spec_ok_values(items)).len() + spec_err_values(items).len() == items.len(),
    decreases items.len(),
{
    if items.len() > 0 {
        lemma_ok_err_partition::<T, E>(items.drop_first());
    }
}

} // verus!
