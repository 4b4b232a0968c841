//! The four dispatch disciplines of the plugin hook driver, as functions
//! over the sequence of registered plugins: broadcast-until-error and
//! fold/transform (both thread a state value and stop at the first error),
//! first-wins (the first present value settles the outcome), the fold
//! variant with an early-stop signal, and collect-all (contributions and
//! diagnostics of every plugin are concatenated).

use vstd::prelude::*;

verus! {

use crate::plugin::Diagnostic;
use crate::plugin::Error;

/// Broadcast and fold/transform hooks: a state value is threaded through
/// every plugin in registration order; the first error aborts the
/// remaining dispatch and propagates. For pure notifications the threaded
/// state is the mutated argument record (or unit).
pub open spec fn dispatch_fold<P, A>(
    ps: Seq<P>,
    a: A,
    f: spec_fn(P, A) -> Result<A, Error>,
) -> Result<A, Error>
    decreases ps.len(),
{
    if ps.len() == 0 {
        Result::Ok(a)
    } else {
        match f(ps[0], a) {
            Result::Ok(a2) => dispatch_fold(ps.drop_first(), a2, f),
            Result::Err(e) => Result::Err(e),
        }
    }
}

/// First-wins hooks: plugins are tried in order and the first present
/// value becomes the result, skipping the rest; if every plugin answers
/// absence, the overall result is absence.
pub open spec fn dispatch_first_wins<P, B>(
    ps: Seq<P>,
    f: spec_fn(P) -> Result<Option<B>, Error>,
) -> Result<Option<B>, Error>
    decreases ps.len(),
{
    if ps.len() == 0 {
        Result::Ok(Option::None)
    } else {
        match f(ps[0]) {
            Result::Ok(Option::Some(b)) => Result::Ok(Option::Some(b)),
            Result::Ok(Option::None) => dispatch_first_wins(ps.drop_first(), f),
            Result::Err(e) => Result::Err(e),
        }
    }
}

/// First-wins hooks whose argument record is also threaded mutably through
/// the plugins that run before the winner.
pub open spec fn dispatch_first_wins_mut<P, A, B>(
    ps: Seq<P>,
    a: A,
    f: spec_fn(P, A) -> Result<(A, Option<B>), Error>,
) -> Result<(A, Option<B>), Error>
    decreases ps.len(),
{
    if ps.len() == 0 {
        Result::Ok((a, Option::None))
    } else {
        match f(ps[0], a) {
            Result::Ok((a2, Option::Some(b))) => Result::Ok((a2, Option::Some(b))),
            Result::Ok((a2, Option::None)) => dispatch_first_wins_mut(ps.drop_first(), a2, f),
            Result::Err(e) => Result::Err(e),
        }
    }
}

/// The fold variant with an early stop: a plugin may signal that the fold
/// ends with its value, skipping the remaining plugins entirely.
pub open spec fn dispatch_fold_until<P, A>(
    ps: Seq<P>,
    a: A,
    f: spec_fn(P, A) -> Result<(A, bool), Error>,
) -> Result<A, Error>
    decreases ps.len(),
{
    if ps.len() == 0 {
        Result::Ok(a)
    } else {
        match f(ps[0], a) {
            Result::Ok((a2, true)) => Result::Ok(a2),
            Result::Ok((a2, false)) => dispatch_fold_until(ps.drop_first(), a2, f),
            Result::Err(e) => Result::Err(e),
        }
    }
}

/// Collect-all hooks: every plugin may contribute items and diagnostics;
/// all contributions are concatenated in registration order, with no
/// short-circuiting except on error.
pub open spec fn dispatch_collect<P, X>(
    ps: Seq<P>,
    f: spec_fn(P) -> Result<(Seq<X>, Seq<Diagnostic>), Error>,
) -> Result<(Seq<X>, Seq<Diagnostic>), Error>
    decreases ps.len(),
{
    if ps.len() == 0 {
        Result::Ok((Seq::empty(), Seq::empty()))
    } else {
        match f(ps[0]) {
            Result::Ok((xs, ds)) => match dispatch_collect(ps.drop_first(), f) {
                Result::Ok((xs2, ds2)) => Result::Ok((xs + xs2, ds + ds2)),
                Result::Err(e) => Result::Err(e),
            },
            Result::Err(e) => Result::Err(e),
        }
    }
}

/// One step of walking a plugin sequence: the suffix from `i` starts with
/// plugin `i` and continues as the suffix from `i + 1`.
pub proof fn lemma_skip_step<P>(ps: Seq<P>, i: int)
    requires
        0 <= i < ps.len(),
    ensures
        ps.skip(i).len() == ps.len() - i,
        ps.skip(i)[0] == ps[i],
        ps.skip(i).drop_first() == ps.skip(i + 1),
{
    assert(ps.skip(i).drop_first() =~= ps.skip(i + 1));
}

/// Law (fold sequencing): folding over a concatenation threads the value
/// left to right — the second list continues from the state the first
/// ended with — and the first error settles the outcome, leaving the
/// second list without any effect.
pub proof fn lemma_fold_append<P, A>(
    ps1: Seq<P>,
    ps2: Seq<P>,
    a: A,
    f: spec_fn(P, A) -> Result<A, Error>,
)
    ensures
        dispatch_fold(ps1 + ps2, a, f) == match dispatch_fold(ps1, a, f) {
            Result::Ok(m) => dispatch_fold(ps2, m, f),
            Result::Err(e) => Result::Err(e),
        },
    decreases ps1.len(),
{
    if ps1.len() == 0 {
        assert(ps1 + ps2 =~= ps2);
    } else {
        assert((ps1 + ps2)[0] == ps1[0]);
        assert((ps1 + ps2).drop_first() =~= ps1.drop_first() + ps2);
        match f(ps1[0], a) {
            Result::Ok(a2) => {
                lemma_fold_append(ps1.drop_first(), ps2, a2, f);
            },
            Result::Err(_) => {},
        }
    }
}

/// Law (first-wins short-circuits): once some plugin has decided the
/// dispatch — answered a present value or an error — plugins registered
/// after it cannot influence the outcome.
pub proof fn lemma_first_wins_ignores_later_plugins<P, B>(
    ps: Seq<P>,
    more: Seq<P>,
    f: spec_fn(P) -> Result<Option<B>, Error>,
)
    requires
        dispatch_first_wins(ps, f) != Result::<Option<B>, Error>::Ok(Option::None),
    ensures
        dispatch_first_wins(ps + more, f) == dispatch_first_wins(ps, f),
    decreases ps.len(),
{
    if ps.len() == 0 {
    } else {
        assert((ps + more)[0] == ps[0]);
        assert((ps + more).drop_first() =~= ps.drop_first() + more);
        match f(ps[0]) {
            Result::Ok(Option::None) => {
                lemma_first_wins_ignores_later_plugins(ps.drop_first(), more, f);
            },
            _ => {},
        }
    }
}

/// Law (stateful first-wins short-circuits): the same, for first-wins
/// hooks that thread their argument record.
pub proof fn lemma_first_wins_mut_ignores_later_plugins<P, A, B>(
    ps: Seq<P>,
    more: Seq<P>,
    a: A,
    f: spec_fn(P, A) -> Result<(A, Option<B>), Error>,
)
    requires
        !(dispatch_first_wins_mut(ps, a, f) matches Result::Ok((_, Option::None))),
    ensures
        dispatch_first_wins_mut(ps + more, a, f) == dispatch_first_wins_mut(ps, a, f),
    decreases ps.len(),
{
    if ps.len() == 0 {
    } else {
        assert((ps + more)[0] == ps[0]);
        assert((ps + more).drop_first() =~= ps.drop_first() + more);
        match f(ps[0], a) {
            Result::Ok((a2, Option::None)) => {
                lemma_first_wins_mut_ignores_later_plugins(ps.drop_first(), more, a2, f);
            },
            _ => {},
        }
    }
}

/// Whether an early-stop fold ran off the end of the plugin list without
/// any plugin signalling a stop or failing.
pub open spec fn dispatch_fold_until_continues<P, A>(
    ps: Seq<P>,
    a: A,
    f: spec_fn(P, A) -> Result<(A, bool), Error>,
) -> bool
    decreases ps.len(),
{
    if ps.len() == 0 {
        true
    } else {
        match f(ps[0], a) {
            Result::Ok((a2, false)) => dispatch_fold_until_continues(ps.drop_first(), a2, f),
            _ => false,
        }
    }
}

/// Law (early stop skips the rest): once a plugin has signalled the end of
/// the fold, or an error has occurred, plugins registered after it cannot
/// influence the outcome.
pub proof fn lemma_fold_until_ignores_later_plugins<P, A>(
    ps: Seq<P>,
    more: Seq<P>,
    a: A,
    f: spec_fn(P, A) -> Result<(A, bool), Error>,
)
    requires
        !dispatch_fold_until_continues(ps, a, f),
    ensures
        dispatch_fold_until(ps + more, a, f) == dispatch_fold_until(ps, a, f),
    decreases ps.len(),
{
    if ps.len() == 0 {
    } else {
        assert((ps + more)[0] == ps[0]);
        assert((ps + more).drop_first() =~= ps.drop_first() + more);
        match f(ps[0], a) {
            Result::Ok((a2, false)) => {
                lemma_fold_until_ignores_later_plugins(ps.drop_first(), more, a2, f);
            },
            _ => {},
        }
    }
}

} // verus!
