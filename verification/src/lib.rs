//! Overflow-safe arithmetic on size hints.
//!
//! A size hint is a pair `(lower, upper)` of bounds on how many elements a
//! lazy sequence will produce: `lower` is a guaranteed minimum, and `upper`
//! is an optional maximum, `None` meaning no known finite upper bound.
//! Combinators over lazy sequences combine the hints of their inputs with the
//! functions here: concatenation adds hints, repetition and nesting multiply
//! them, and alternation takes the maximum or minimum.
//!
//! Every function is total: arithmetic that would overflow is resolved
//! deterministically, either by clamping a lower bound to `usize::MAX` or by
//! dropping an upper bound to `None`, so no input can make a call fail.

use vstd::prelude::*;

verus! {

/// A lower bound and an optional upper bound on the number of elements a
/// lazy sequence will produce. `None` as the upper bound means that no
/// finite upper bound is known.
pub type SizeHint = (usize, Option<usize>);

/// The sum of two counts, clamped to the largest representable count.
pub open spec fn saturated_sum(a: int, b: int) -> usize {
    if a + b > usize::MAX {
        usize::MAX
    } else {
        (a + b) as usize
    }
}

/// The sum of two counts when it is representable, absent when it overflows.
pub open spec fn checked_sum(a: int, b: int) -> Option<usize> {
    if a + b > usize::MAX {
        None
    } else {
        Some((a + b) as usize)
    }
}

/// The product of two counts, clamped to the largest representable count.
pub open spec fn saturated_product(a: int, b: int) -> usize {
    if a * b > usize::MAX {
        usize::MAX
    } else {
        (a * b) as usize
    }
}

/// The product of two counts when it is representable, absent when it
/// overflows.
pub open spec fn checked_product(a: int, b: int) -> Option<usize> {
    if a * b > usize::MAX {
        None
    } else {
        Some((a * b) as usize)
    }
}

/// What `add_scalar` returns: both bounds shifted up by `x`, the lower bound
/// saturating and the upper bound going absent on overflow.
pub open spec fn spec_add_scalar(sh: SizeHint, x: usize) -> SizeHint {
    (
        saturated_sum(sh.0 as int, x as int),
        match sh.1 {
            Some(hi) => checked_sum(hi as int, x as int),
            None => None,
        },
    )
}

/// What `add` returns: the component-wise sum, with a saturating lower bound
/// and an upper bound only when both inputs have one and the sum fits.
pub open spec fn spec_add(a: SizeHint, b: SizeHint) -> SizeHint {
    (
        saturated_sum(a.0 as int, b.0 as int),
        match (a.1, b.1) {
            (Some(x), Some(y)) => checked_sum(x as int, y as int),
            _ => None,
        },
    )
}

/// What `mul_scalar` returns: both bounds scaled by `x`, the lower bound
/// saturating on overflow; scaling by zero forces the exact upper bound
/// `Some(0)`, and otherwise the upper bound goes absent on overflow.
pub open spec fn spec_mul_scalar(sh: SizeHint, x: usize) -> SizeHint {
    (
        saturated_product(sh.0 as int, x as int),
        if x == 0 {
            Some(0usize)
        } else {
            match sh.1 {
                Some(hi) => checked_product(hi as int, x as int),
                None => None,
            }
        },
    )
}

/// What `mul` returns: the component-wise product, with a saturating lower
/// bound. The upper bound is present when both inputs have one and the
/// product fits; a present upper bound of zero on one side collapses an
/// absent one on the other side to exactly `Some(0)`.
pub open spec fn spec_mul(a: SizeHint, b: SizeHint) -> SizeHint {
    (
        saturated_product(a.0 as int, b.0 as int),
        match (a.1, b.1) {
            (Some(x), Some(y)) => checked_product(x as int, y as int),
            (Some(x), None) => if x == 0 {
                Some(0usize)
            } else {
                None
            },
            (None, Some(y)) => if y == 0 {
                Some(0usize)
            } else {
                None
            },
            (None, None) => None,
        },
    )
}

/// What `max` returns: the component-wise maximum, where an absent upper
/// bound dominates a present one.
pub open spec fn spec_max(a: SizeHint, b: SizeHint) -> SizeHint {
    (
        if a.0 >= b.0 {
            a.0
        } else {
            b.0
        },
        match (a.1, b.1) {
            (Some(x), Some(y)) => Some(if x >= y { x } else { y }),
            _ => None,
        },
    )
}

/// What `min` returns: the component-wise minimum, where a present upper
/// bound is kept as the known ceiling even when the other side's is absent.
pub open spec fn spec_min(a: SizeHint, b: SizeHint) -> SizeHint {
    (
        if a.0 <= b.0 {
            a.0
        } else {
            b.0
        },
        match (a.1, b.1) {
            (Some(x), Some(y)) => Some(if x <= y { x } else { y }),
            (Some(x), None) => Some(x),
            (None, Some(y)) => Some(y),
            (None, None) => None,
        },
    )
}

/// Add the constant `x` to both bounds of a size hint. The lower bound
/// saturates at `usize::MAX`; an upper bound that would overflow goes
/// absent, since a clamped value would be a false ceiling.
pub fn add_scalar(sh: SizeHint, x: usize) -> (r: SizeHint)
    ensures
        r == spec_add_scalar(sh, x),
{
    let low: usize = sh.0.saturating_add(x);
    let hi: Option<usize> = match sh.1 {
        Some(elt) => elt.checked_add(x),
        None => None,
    };
    (low, hi)
}

/// Add two size hints, as concatenating two lazy sequences adds their
/// element counts. The lower bound saturates at `usize::MAX`; the upper
/// bound is present only when both inputs have one and their sum fits.
pub fn add(a: SizeHint, b: SizeHint) -> (r: SizeHint)
    ensures
        r == spec_add(a, b),
{
    let low: usize = match a.0.checked_add(b.0) {
        Some(s) => s,
        None => usize::MAX,
    };
    let hi: Option<usize> = match (a.1, b.1) {
        (Some(x), Some(y)) => x.checked_add(y),
        _ => None,
    };
    (low, hi)
}

/// Scale both bounds of a size hint by the constant `x`, as repeating a lazy
/// sequence `x` times scales its element count. The lower bound saturates at
/// `usize::MAX`. Scaling by zero yields the exact upper bound `Some(0)`
/// whatever the input; otherwise an upper bound that would overflow goes
/// absent.
pub fn mul_scalar(sh: SizeHint, x: usize) -> (r: SizeHint)
    ensures
        r == spec_mul_scalar(sh, x),
{
    let low: usize = match sh.0.checked_mul(x) {
        Some(p) => p,
        None => usize::MAX,
    };
    let hi: Option<usize> = if x == 0 {
        Some(0)
    } else {
        match sh.1 {
            Some(elt) => elt.checked_mul(x),
            None => None,
        }
    };
    (low, hi)
}

/// Multiply two size hints, as nesting one lazy sequence inside another
/// multiplies their element counts. The lower bound saturates at
/// `usize::MAX`. The upper bound is present when both inputs have one and
/// the product fits; a side bounded above by zero collapses an unbounded
/// other side to exactly `Some(0)`.
pub fn mul(a: SizeHint, b: SizeHint) -> (r: SizeHint)
    ensures
        r == spec_mul(a, b),
{
    let low: usize = match a.0.checked_mul(b.0) {
        Some(p) => p,
        None => usize::MAX,
    };
    let hi: Option<usize> = match (a.1, b.1) {
        (Some(x), Some(y)) => x.checked_mul(y),
        (Some(0), None) | (None, Some(0)) => Some(0),
        _ => None,
    };
    (low, hi)
}

/// The component-wise maximum of two size hints, as alternation lets the
/// longer branch dominate. An absent upper bound dominates a present one:
/// the unbounded branch may produce more elements than any finite ceiling.
pub fn max(a: SizeHint, b: SizeHint) -> (r: SizeHint)
    ensures
        r == spec_max(a, b),
{
    let lower: usize = if a.0 >= b.0 {
        a.0
    } else {
        b.0
    };
    let upper: Option<usize> = match (a.1, b.1) {
        (Some(x), Some(y)) => Some(if x >= y { x } else { y }),
        _ => None,
    };
    (lower, upper)
}

/// The component-wise minimum of two size hints, as alternation lets the
/// more constrained branch bound the result. When only one side has an
/// upper bound, that bound is kept: the absent side cannot tighten it, but
/// the present one is the tightest known ceiling.
pub fn min(a: SizeHint, b: SizeHint) -> (r: SizeHint)
    ensures
        r == spec_min(a, b),
{
    let lower: usize = if a.0 <= b.0 {
        a.0
    } else {
        b.0
    };
    let upper: Option<usize> = match (a.1, b.1) {
        (Some(x), Some(y)) => Some(if x <= y { x } else { y }),
        (Some(x), None) => Some(x),
        (None, Some(y)) => Some(y),
        (None, None) => None,
    };
    (lower, upper)
}

/// The lower bound of a sum of hints is the sum of the lower bounds when
/// that sum is representable, and `usize::MAX` when it would overflow.
pub proof fn lemma_add_lower(a: SizeHint, b: SizeHint)
    ensures
        a.0 + b.0 <= usize::MAX ==> spec_add(a, b).0 == a.0 + b.0,
        a.0 + b.0 > usize::MAX ==> spec_add(a, b).0 == usize::MAX,
{
}

/// The upper bound of a sum of hints is absent whenever either input's is
/// absent, and otherwise is the checked sum of the two: present when it
/// fits, absent when it overflows.
pub proof fn lemma_add_upper(a: SizeHint, b: SizeHint)
    ensures
        a.1 is None || b.1 is None ==> spec_add(a, b).1 is None,
        a.1 is Some && b.1 is Some ==> spec_add(a, b).1 == checked_sum(
            a.1->0 as int,
            b.1->0 as int,
        ),
{
}

/// Scaling any hint by zero yields the exact upper bound `Some(0)`,
/// whatever the input's upper bound was.
pub proof fn lemma_mul_scalar_zero(sh: SizeHint)
    ensures
        spec_mul_scalar(sh, 0).1 == Some(0usize),
{
}

/// Scaling by one is the identity.
pub proof fn lemma_mul_scalar_one(sh: SizeHint)
    ensures
        spec_mul_scalar(sh, 1) == sh,
{
}

/// Adding zero is the identity.
pub proof fn lemma_add_scalar_zero(sh: SizeHint)
    ensures
        spec_add_scalar(sh, 0) == sh,
{
}

/// The maximum's lower bound dominates both inputs' lower bounds, and the
/// minimum's is dominated by both.
pub proof fn lemma_max_min_lower(a: SizeHint, b: SizeHint)
    ensures
        spec_max(a, b).0 >= a.0,
        spec_max(a, b).0 >= b.0,
        spec_min(a, b).0 <= a.0,
        spec_min(a, b).0 <= b.0,
{
}

/// Addition of hints is commutative.
pub proof fn lemma_add_commutes(a: SizeHint, b: SizeHint)
    ensures
        spec_add(a, b) == spec_add(b, a),
{
}

/// Multiplication of hints is commutative.
pub proof fn lemma_mul_commutes(a: SizeHint, b: SizeHint)
    ensures
        spec_mul(a, b) == spec_mul(b, a),
{
}

/// The maximum of hints is commutative.
pub proof fn lemma_max_commutes(a: SizeHint, b: SizeHint)
    ensures
        spec_max(a, b) == spec_max(b, a),
{
}

/// The minimum of hints is commutative.
pub proof fn lemma_min_commutes(a: SizeHint, b: SizeHint)
    ensures
        spec_min(a, b) == spec_min(b, a),
{
}

} // verus!
