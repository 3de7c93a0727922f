//! Mapping every element of a fixed-size array, stashing every failure.

use vstd::prelude::*;

use crate::error::Stashable;
use crate::or_stash::StashedResult;
use crate::stash::ErrorSink;
use crate::stashable::IntoStashable;
use crate::try_collect_or_stash::lemma_all_ok;
use crate::try_collect_or_stash::lemma_err_values_nonempty;
use crate::try_collect_or_stash::lemma_err_values_push;
use crate::try_collect_or_stash::lemma_ok_err_partition;
use crate::try_collect_or_stash::lemma_ok_values_push;
use crate::try_collect_or_stash::spec_err_values;
use crate::try_collect_or_stash::spec_ok_values;

verus! {

/// Adds [`try_map_or_stash`](TryMapOrStash::try_map_or_stash) on `[T; N]` and
/// `[Result<T, E1>; N]`.
///
/// Each element yields exactly one outcome: a mapped value, or one error
/// pushed into the stash — either the element's own failure or the failure
/// the mapping function returned for it. The outcomes appear in element
/// order; success is returned exactly when every element yielded a value.
pub trait TryMapOrStash<T, E, S, const N: usize>: Sized where E: IntoStashable, S: ErrorSink {
    /// The value element `i` offers to the mapping function, if it is not a
    /// failure of its own.
    spec fn element_ok(&self, i: int) -> Option<T>;

    /// Holds of the stash entries that element `i`'s own failure may convert
    /// into.
    spec fn element_err_is(&self, i: int, s: Stashable) -> bool;

    /// Maps every element through `f`, pushing every failure into `stash`.
    /// Returns the mapped values exactly when no element failed; errors
    /// already in the stash before the call do not count as failures of this
    /// call.
    fn try_map_or_stash<U, F: Fn(T) -> Result<U, E>>(self, f: F, stash: &mut S) -> (r:
        StashedResult<Vec<U>>)
        requires
            old(stash).sink_wf(),
            forall|i: int|
                0 <= i < N ==> (#[trigger] self.element_ok(i) matches Some(t) ==> call_requires(
                    f,
                    (t,),
                )),
        ensures
            final(stash).sink_wf(),
            exists|outs: Seq<Result<U, Stashable>>|
                {
                    &&& outs.len() == N
                    &&& (forall|i: int|
                        0 <= i < N ==> match #[trigger] outs[i] {
                            Ok(u) => exists|t: T|
                                self.element_ok(i) == Some(t) && call_ensures(
                                    f,
                                    (t,),
                                    Result::<U, E>::Ok(u),
                                ),
                            Err(s) => self.element_err_is(i, s) || (exists|t: T, e: E|
                                self.element_ok(i) == Some(t) && #[trigger] call_ensures(
                                    f,
                                    (t,),
                                    Result::<U, E>::Err(e),
                                ) && e.is_stashable(s)),
                        })
                    &&& spec_err_values(outs).len() <= N
                    &&& final(stash).sink_errors() == old(stash).sink_errors() + spec_err_values(
                        outs,
                    )
                    &&& (spec_err_values(outs).len() == 0 ==> (r matches StashedResult::Success(v)
                        && v@ == spec_ok_values(outs) && *final(stash) == *old(stash)))
                    &&& (spec_err_values(outs).len() > 0 ==> r is Stashed
                        && S::sink_summary_rel(*old(stash), *final(stash)))
                },
            r matches StashedResult::Success(v) ==> v@.len() == N && (forall|i: int|
                0 <= i < N ==> (exists|t: T|
                    #[trigger] self.element_ok(i) == Some(t) && call_ensures(
                        f,
                        (t,),
                        Result::<U, E>::Ok(v@[i]),
                    ))),
            r is Stashed ==> (exists|i: int|
                #![trigger self.element_ok(i)]
                0 <= i < N && ((exists|s: Stashable| self.element_err_is(i, s)) || (exists|
                    t: T,
                    e: E,
                |
                    self.element_ok(i) == Some(t) && #[trigger] call_ensures(
                        f,
                        (t,),
                        Result::<U, E>::Err(e),
                    )))),
    ;
}

impl<T, E, S, const N: usize> TryMapOrStash<T, E, S, N> for [T; N] where
    T: Copy,
    E: IntoStashable,
    S: ErrorSink,
 {
    open spec fn element_ok(&self, i: int) -> Option<T> {
        if 0 <= i < N {
            Some(self@[i])
        } else {
            None
        }
    }

    open spec fn element_err_is(&self, i: int, s: Stashable) -> bool {
        false
    }

    fn try_map_or_stash<U, F: Fn(T) -> Result<U, E>>(self, f: F, stash: &mut S) -> (r:
        StashedResult<Vec<U>>) {
        let ghost old_stash = *old(stash);
        let mut out: Vec<U> = Vec::new();
        let ghost mut outs: Seq<Result<U, Stashable>> = Seq::empty();
        let ghost mut ps: Seq<Stashable> = Seq::empty();
        let mut k: usize = 0;
        while k < N
            invariant
                0 <= k <= N,
                old_stash.sink_wf(),
                stash.sink_wf(),
                forall|i: int|
                    0 <= i < N ==> (#[trigger] <[T; N] as TryMapOrStash<T, E, S, N>>::element_ok(&self, i) matches Some(t) ==> call_requires(
                        f,
                        (t,),
                    )),
                outs.len() == k,
                ps == spec_err_values(outs),
                out@ == spec_ok_values(outs),
                forall|i: int|
                    0 <= i < k ==> match #[trigger] outs[i] {
                        Ok(u) => exists|t: T|
                            <[T; N] as TryMapOrStash<T, E, S, N>>::element_ok(&self, i) == Some(t) && call_ensures(
                                f,
                                (t,),
                                Result::<U, E>::Ok(u),
                            ),
                        Err(s) => <[T; N] as TryMapOrStash<T, E, S, N>>::element_err_is(&self, i, s) || (exists|t: T, e: E|
                            <[T; N] as TryMapOrStash<T, E, S, N>>::element_ok(&self, i) == Some(t) && #[trigger] call_ensures(
                                f,
                                (t,),
                                Result::<U, E>::Err(e),
                            ) && e.is_stashable(s)),
                    },
                stash.sink_errors() == old_stash.sink_errors() + ps,
                ps.len() > 0 ==> S::sink_summary_rel(old_stash, *stash),
                ps.len() == 0 ==> *stash == old_stash,
            decreases N - k,
        {
            let ghost mid_stash = *stash;
            let t = self[k];
            proof {
                assert(<[T; N] as TryMapOrStash<T, E, S, N>>::element_ok(&self, k as int) == Some(
                    t,
                ));
            }
            let res = f(t);
            match res {
                Ok(u) => {
                    let ghost gu = u;
                    out.push(u);
                    proof {
                        lemma_ok_values_push(outs, Result::<U, Stashable>::Ok(gu));
                        lemma_err_values_push(outs, Result::<U, Stashable>::Ok(gu));
                        outs = outs.push(Result::<U, Stashable>::Ok(gu));
                    }
                },
                Err(e) => {
                    let ghost ge = e;
                    let s = e.into_stashable();
                    let ghost gs = s;
                    stash.stash(s);
                    proof {
                        lemma_ok_values_push(outs, Result::<U, Stashable>::Err(gs));
                        lemma_err_values_push(outs, Result::<U, Stashable>::Err(gs));
                        outs = outs.push(Result::<U, Stashable>::Err(gs));
                        ps = ps.push(gs);
                        assert(stash.sink_errors() =~= old_stash.sink_errors() + ps);
                        if ps.len() > 1 {
                            S::sink_summary_rel_trans(old_stash, mid_stash, *stash);
                        }
                    }
                },
            }
            k += 1;
        }
        proof {
            lemma_ok_err_partition::<U, Stashable>(outs);
            if spec_err_values(outs).len() == 0 {
                lemma_all_ok::<U, Stashable>(outs);
                assert forall|i: int| 0 <= i < N implies (exists|t: T|
                    #[trigger] <[T; N] as TryMapOrStash<T, E, S, N>>::element_ok(&self, i) == Some(
                        t,
                    ) && call_ensures(f, (t,), Result::<U, E>::Ok(out@[i]))) by {
                    assert(outs[i] matches Ok(u) && spec_ok_values(outs)[i] == u);
                }
            } else {
                lemma_err_values_nonempty::<U, Stashable>(outs);
                let i = choose|i: int| 0 <= i < outs.len() && #[trigger] outs[i] is Err;
                assert(outs[i] is Err);
                // a ground instance of the element description, for the
                // quantifiers below
                let _elem = <[T; N] as TryMapOrStash<T, E, S, N>>::element_ok(&self, i);
                assert((exists|s: Stashable|
                    <[T; N] as TryMapOrStash<T, E, S, N>>::element_err_is(&self, i, s)) || (exists|
                    t: T,
                    e: E,
                |
                    <[T; N] as TryMapOrStash<T, E, S, N>>::element_ok(&self, i) == Some(t)
                        && #[trigger] call_ensures(f, (t,), Result::<U, E>::Err(e))));
            }
        }
        if out.len() != N {
            StashedResult::Stashed
        } else {
            StashedResult::Success(out)
        }
    }
}

impl<T, E1, E, S, const N: usize> TryMapOrStash<T, E, S, N> for [Result<T, E1>; N] where
    T: Copy,
    E1: Copy + IntoStashable,
    E: IntoStashable,
    S: ErrorSink,
 {
    open spec fn element_ok(&self, i: int) -> Option<T> {
        if 0 <= i < N {
            match self@[i] {
                Ok(t) => Some(t),
                Err(_) => None,
            }
        } else {
            None
        }
    }

    open spec fn element_err_is(&self, i: int, s: Stashable) -> bool {
        0 <= i < N && match self@[i] {
            Ok(_) => false,
            Err(e) => e.is_stashable(s),
        }
    }

    fn try_map_or_stash<U, F: Fn(T) -> Result<U, E>>(self, f: F, stash: &mut S) -> (r:
        StashedResult<Vec<U>>) {
        let ghost old_stash = *old(stash);
        let mut out: Vec<U> = Vec::new();
        let ghost mut outs: Seq<Result<U, Stashable>> = Seq::empty();
        let ghost mut ps: Seq<Stashable> = Seq::empty();
        let mut k: usize = 0;
        while k < N
            invariant
                0 <= k <= N,
                old_stash.sink_wf(),
                stash.sink_wf(),
                forall|i: int|
                    0 <= i < N ==> (#[trigger] <[Result<T, E1>; N] as TryMapOrStash<T, E, S, N>>::element_ok(&self, i) matches Some(t) ==> call_requires(
                        f,
                        (t,),
                    )),
                outs.len() == k,
                ps == spec_err_values(outs),
                out@ == spec_ok_values(outs),
                forall|i: int|
                    0 <= i < k ==> match #[trigger] outs[i] {
                        Ok(u) => exists|t: T|
                            <[Result<T, E1>; N] as TryMapOrStash<T, E, S, N>>::element_ok(&self, i) == Some(t) && call_ensures(
                                f,
                                (t,),
                                Result::<U, E>::Ok(u),
                            ),
                        Err(s) => <[Result<T, E1>; N] as TryMapOrStash<T, E, S, N>>::element_err_is(&self, i, s) || (exists|t: T, e: E|
                            <[Result<T, E1>; N] as TryMapOrStash<T, E, S, N>>::element_ok(&self, i) == Some(t) && #[trigger] call_ensures(
                                f,
                                (t,),
                                Result::<U, E>::Err(e),
                            ) && e.is_stashable(s)),
                    },
                stash.sink_errors() == old_stash.sink_errors() + ps,
                ps.len() > 0 ==> S::sink_summary_rel(old_stash, *stash),
                ps.len() == 0 ==> *stash == old_stash,
            decreases N - k,
        {
            let ghost mid_stash = *stash;
            let item = self[k];
            match item {
                Ok(t) => {
                    proof {
                        assert(<[Result<T, E1>; N] as TryMapOrStash<T, E, S, N>>::element_ok(
                            &self,
                            k as int,
                        ) == Some(t));
                    }
                    let res = f(t);
                    match res {
                        Ok(u) => {
                            let ghost gu = u;
                            out.push(u);
                            proof {
                                lemma_ok_values_push(outs, Result::<U, Stashable>::Ok(gu));
                                lemma_err_values_push(outs, Result::<U, Stashable>::Ok(gu));
                                outs = outs.push(Result::<U, Stashable>::Ok(gu));
                            }
                        },
                        Err(e) => {
                            let ghost ge = e;
                            let s = e.into_stashable();
                            let ghost gs = s;
                            stash.stash(s);
                            proof {
                                lemma_ok_values_push(outs, Result::<U, Stashable>::Err(gs));
                                lemma_err_values_push(outs, Result::<U, Stashable>::Err(gs));
                                outs = outs.push(Result::<U, Stashable>::Err(gs));
                                ps = ps.push(gs);
                                assert(stash.sink_errors() =~= old_stash.sink_errors() + ps);
                                if ps.len() > 1 {
                                    S::sink_summary_rel_trans(old_stash, mid_stash, *stash);
                                }
                            }
                        },
                    }
                },
                Err(e1) => {
                    let s = e1.into_stashable();
                    let ghost gs = s;
                    stash.stash(s);
                    proof {
                        lemma_ok_values_push(outs, Result::<U, Stashable>::Err(gs));
                        lemma_err_values_push(outs, Result::<U, Stashable>::Err(gs));
                        outs = outs.push(Result::<U, Stashable>::Err(gs));
                        ps = ps.push(gs);
                        assert(stash.sink_errors() =~= old_stash.sink_errors() + ps);
                        if ps.len() > 1 {
                            S::sink_summary_rel_trans(old_stash, mid_stash, *stash);
                        }
                    }
                },
            }
            k += 1;
        }
        proof {
            lemma_ok_err_partition::<U, Stashable>(outs);
            if spec_err_values(outs).len() == 0 {
                lemma_all_ok::<U, Stashable>(outs);
                assert forall|i: int| 0 <= i < N implies (exists|t: T|
                    #[trigger] <[Result<T, E1>; N] as TryMapOrStash<T, E, S, N>>::element_ok(
                        &self,
                        i,
                    ) == Some(t) && call_ensures(f, (t,), Result::<U, E>::Ok(out@[i]))) by {
                    assert(outs[i] matches Ok(u) && spec_ok_values(outs)[i] == u);
                }
            } else {
                lemma_err_values_nonempty::<U, Stashable>(outs);
                let i = choose|i: int| 0 <= i < outs.len() && #[trigger] outs[i] is Err;
                assert(outs[i] is Err);
                // a ground instance of the element description, for the
                // quantifiers below
                let _elem = <[Result<T, E1>; N] as TryMapOrStash<T, E, S, N>>::element_ok(
                    &self,
                    i,
                );
                let se = outs[i]->Err_0;
                if <[Result<T, E1>; N] as TryMapOrStash<T, E, S, N>>::element_err_is(&self, i, se) {
                    assert(exists|s: Stashable|
                        <[Result<T, E1>; N] as TryMapOrStash<T, E, S, N>>::element_err_is(
                            &self,
                            i,
                            s,
                        ));
                }
                assert(0 <= i < N && ((exists|s: Stashable|
                    <[Result<T, E1>; N] as TryMapOrStash<T, E, S, N>>::element_err_is(
                        &self,
                        i,
                        s,
                    )) || (exists|t: T, e: E|
                    <[Result<T, E1>; N] as TryMapOrStash<T, E, S, N>>::element_ok(&self, i)
                        == Some(t) && #[trigger] call_ensures(f, (t,), Result::<U, E>::Err(e)))));
            }
        }
        if out.len() != N {
            StashedResult::Stashed
        } else {
            StashedResult::Success(out)
        }
    }
}

} // verus!
