//! Gain values saturate to a closed range; they are never rejected.
use vstd::prelude::*;

verus! {

/// `greater` may be applied to any two values.
pub open spec fn comparison_defined_everywhere<T, G: Fn(T, T) -> bool>(greater: G) -> bool {
    forall|a: T, b: T| #[trigger] greater.requires((a, b))
}

/// `r` is `g` saturated to `[low, high]`, where `greater(a, b)` says `a > b`:
/// `high` when `g > high`, else `low` when `low > g`, else `g` itself.
pub open spec fn saturated<T, G: Fn(T, T) -> bool>(greater: G, low: T, high: T, g: T, r: T) -> bool {
    ||| (greater.ensures((g, high), true) && r == high)
    ||| (greater.ensures((g, high), false) && greater.ensures((low, g), true) && r == low)
    ||| (greater.ensures((g, high), false) && greater.ensures((low, g), false) && r == g)
}

/// Saturates `g` to `[low, high]` under the order `greater`.
pub fn saturate<T: Copy, G: Fn(T, T) -> bool>(g: T, low: T, high: T, greater: G) -> (r: T)
    requires
        comparison_defined_everywhere(greater),
    ensures
        saturated(greater, low, high, g, r),
{
    if greater(g, high) {
        high
    } else if greater(low, g) {
        low
    } else {
        g
    }
}

} // verus!
