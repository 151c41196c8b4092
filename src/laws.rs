use vstd::prelude::*;

use vstd::laws_eq::{obeys_concrete_eq, obeys_eq, obeys_eq_spec_properties};
use vstd::std_specs::cmp::PartialEqSpec;

use crate::array::ArrayPlusExtra;
use crate::decode::{decode_spec, DecodeError};

verus! {

/// The flat view is the `data` part followed by the `extra` part: position `i < N` holds
/// `data[i]`, and position `N <= i < N + EXTRA` holds `extra[i - N]`.
pub proof fn lemma_flat_view_parts<T, const N: usize, const EXTRA: usize>(
    a: ArrayPlusExtra<T, N, EXTRA>,
)
    requires
        a@.len() == N + EXTRA,
    ensures
        a@ == a.data_view() + a.extra_view(),
        a.data_view().len() == N,
        a.extra_view().len() == EXTRA,
        forall|i: int| 0 <= i < N ==> #[trigger] a@[i] == a.data_view()[i],
        forall|i: int| N <= i < N + EXTRA ==> #[trigger] a@[i] == a.extra_view()[i - N],
{
    assert(a@ =~= a.data_view() + a.extra_view());
}

/// Converting an array into a plain array of `M == N + EXTRA` elements and wrapping that again
/// gives an instance with the same flat view; under `==` it equals the first one whenever `T`'s
/// `==` is reflexive.
pub proof fn lemma_array_round_trip<T: PartialEq, const N: usize, const EXTRA: usize, const M: usize>(
    a: ArrayPlusExtra<T, N, EXTRA>,
    plain: [T; M],
    b: ArrayPlusExtra<T, N, EXTRA>,
)
    requires
        M == N + EXTRA,
        plain@ == a@,
        b@ == plain@,
    ensures
        b@ == a@,
        (forall|x: T| #[trigger] x.eq_spec(&x)) ==> b.eq_spec(&a),
{
    if forall|x: T| #[trigger] x.eq_spec(&x) {
        assert forall|i: int| 0 <= i < b@.len() implies (#[trigger] b@[i]).eq_spec(&a@[i]) by {
            assert(b@[i].eq_spec(&b@[i]));
        }
    }
}

/// Array `==` is symmetric and transitive whenever `T`'s `==` is.
pub proof fn lemma_eq_symmetric_transitive<T: PartialEq, const N: usize, const EXTRA: usize>()
    requires
        obeys_eq::<T>(),
    ensures
        obeys_eq::<ArrayPlusExtra<T, N, EXTRA>>(),
{
    reveal(obeys_eq_spec_properties);
    assert forall|x: ArrayPlusExtra<T, N, EXTRA>, y: ArrayPlusExtra<T, N, EXTRA>|
        #[trigger] x.eq_spec(&y) implies y.eq_spec(&x) by {
        assert forall|i: int| 0 <= i < y@.len() implies (#[trigger] y@[i]).eq_spec(&x@[i]) by {
            assert(x@[i].eq_spec(&y@[i]));
        }
    }
    assert forall|x: ArrayPlusExtra<T, N, EXTRA>, y: ArrayPlusExtra<T, N, EXTRA>, z: ArrayPlusExtra<T, N, EXTRA>|
        x.eq_spec(&y) && #[trigger] y.eq_spec(&z) implies #[trigger] x.eq_spec(&z) by {
        assert forall|i: int| 0 <= i < x@.len() implies (#[trigger] x@[i]).eq_spec(&z@[i]) by {
            assert(x@[i].eq_spec(&y@[i]));
            assert(y@[i].eq_spec(&z@[i]));
        }
    }
}

/// Array `==` is reflexive whenever `T`'s `==` is.
pub proof fn lemma_eq_reflexive<T: PartialEq, const N: usize, const EXTRA: usize>(
    a: ArrayPlusExtra<T, N, EXTRA>,
)
    requires
        forall|x: T| #[trigger] x.eq_spec(&x),
    ensures
        a.eq_spec(&a),
{
    assert forall|i: int| 0 <= i < a@.len() implies (#[trigger] a@[i]).eq_spec(&a@[i]) by {
        assert(a@[i].eq_spec(&a@[i]));
    }
}

/// When `T`'s `==` is equality, array `==` is exactly equality of the flat views: two arrays
/// that differ in any element are unequal.
pub proof fn lemma_eq_is_flat_view_eq<T: PartialEq, const N: usize, const EXTRA: usize>(
    a: ArrayPlusExtra<T, N, EXTRA>,
    b: ArrayPlusExtra<T, N, EXTRA>,
)
    requires
        obeys_concrete_eq::<T>(),
    ensures
        a.eq_spec(&b) <==> a@ == b@,
{
    reveal(obeys_concrete_eq);
    if a.eq_spec(&b) {
        assert forall|i: int| 0 <= i < a@.len() implies #[trigger] a@[i] == b@[i] by {
            assert(a@[i].eq_spec(&b@[i]));
        }
        assert(a@ =~= b@);
    }
    if a@ == b@ {
        assert forall|i: int| 0 <= i < a@.len() implies (#[trigger] a@[i]).eq_spec(&b@[i]) by {
            assert(a@[i] == b@[i]);
        }
    }
}

/// Decoding the sequence that an array encodes to, its flat view, succeeds and gives back that
/// flat view.
pub proof fn lemma_decode_round_trip<T, const N: usize, const EXTRA: usize>(
    a: ArrayPlusExtra<T, N, EXTRA>,
)
    requires
        a@.len() == N + EXTRA,
        N + EXTRA <= usize::MAX,
    ensures
        decode_spec((N + EXTRA) as usize, a@) == Ok::<Seq<T>, DecodeError>(a@),
{
}

/// A sequence one element short of the expected length fails to decode with `TooFew`, and one
/// with a single element too many fails with `TooMany`.
pub proof fn lemma_decode_wrong_length<T>(expected: usize, items: Seq<T>)
    ensures
        items.len() + 1 == expected ==> decode_spec(expected, items) == Err::<Seq<T>, DecodeError>(
            DecodeError::TooFew { expected, found: (expected - 1) as usize },
        ),
        items.len() == expected + 1 ==> decode_spec(expected, items) == Err::<Seq<T>, DecodeError>(
            DecodeError::TooMany { expected },
        ),
{
}

} // verus!
