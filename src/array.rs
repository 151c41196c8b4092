use vstd::prelude::*;

use vstd::std_specs::cmp::PartialEqSpec;

use crate::decode::{decode_spec, DecodeError};

verus! {

/// An array that holds `N + EXTRA` elements, where `N` and `EXTRA` are given as const generics.
///
/// The elements form one flat sequence: the first `N` are the `data` part and the last `EXTRA`
/// are the `extra` part. The storage is a single contiguous buffer whose length never changes.
#[derive(Debug, Hash)]
pub struct ArrayPlusExtra<T, const N: usize, const EXTRA: usize> {
    elems: Vec<T>,
}

impl<T, const N: usize, const EXTRA: usize> View for ArrayPlusExtra<T, N, EXTRA> {
    type V = Seq<T>;

    /// The flat view: all `N + EXTRA` elements in storage order.
    closed spec fn view(&self) -> Seq<T> {
        self.elems@
    }
}

/// The view of a decoding outcome: the decoded array's flat view, or the error.
pub open spec fn result_view<T, const N: usize, const EXTRA: usize>(
    r: Result<ArrayPlusExtra<T, N, EXTRA>, DecodeError>,
) -> Result<Seq<T>, DecodeError> {
    match r {
        Ok(a) => Ok(a@),
        Err(e) => Err(e),
    }
}

/// Relies on `Vec::as_mut_slice`: the slice covers the whole vector, writes through it land in
/// the vector, and a slice borrowed mutably keeps its length. The call does not panic.
#[verifier::external_body]
fn vec_as_mut_slice<T>(v: &mut Vec<T>) -> (r: &mut [T])
    ensures
        r@ == old(v)@,
        final(v)@ == final(r)@,
        final(r)@.len() == r@.len(),
    no_unwind
{
    v.as_mut_slice()
}

/// Relies on `<&[T; M] as TryFrom<&[T]>>::try_from`: it succeeds exactly when the slice has
/// length `M`, and the array reference then views the same elements.
#[verifier::external_body]
fn slice_as_array<T, const M: usize>(s: &[T]) -> (r: Option<&[T; M]>)
    ensures
        r is Some <==> s@.len() == M,
        r matches Some(a) ==> a@ == s@,
{
    <&[T; M]>::try_from(s).ok()
}

/// Relies on `<[T; M] as TryFrom<Vec<T>>>::try_from`: it succeeds exactly when the vector has
/// length `M`, and the array then holds the vector's elements in order.
#[verifier::external_body]
fn vec_into_array<T, const M: usize>(v: Vec<T>) -> (r: Option<[T; M]>)
    ensures
        r is Some <==> v@.len() == M,
        r matches Some(a) ==> a@ == v@,
{
    <[T; M]>::try_from(v).ok()
}

/// Relies on `<Vec<T> as From<[T; M]>>::from`: the vector holds the array's elements in order.
#[verifier::external_body]
fn array_into_vec<T, const M: usize>(a: [T; M]) -> (r: Vec<T>)
    ensures
        r@ == a@,
{
    Vec::from(a)
}

impl<T, const N: usize, const EXTRA: usize> ArrayPlusExtra<T, N, EXTRA> {
    #[verifier::type_invariant]
    spec fn inv(&self) -> bool {
        self.elems@.len() == N + EXTRA
    }

    /// The `data` part: the first `N` elements of the flat view.
    pub open spec fn data_view(&self) -> Seq<T> {
        self@.subrange(0, N as int)
    }

    /// The `extra` part: the last `EXTRA` elements of the flat view.
    pub open spec fn extra_view(&self) -> Seq<T> {
        self@.subrange(N as int, N + EXTRA)
    }

    /// The number of elements, `N + EXTRA`.
    pub fn len(&self) -> (r: usize)
        ensures
            r == N + EXTRA,
            r == self@.len(),
    {
        proof {
            use_type_invariant(self);
        }
        self.elems.len()
    }

    /// A read-only view of all `N + EXTRA` elements: the `data` part, then the `extra` part.
    pub fn as_slice(&self) -> (r: &[T])
        ensures
            r@ == self@,
            r@.len() == N + EXTRA,
    {
        proof {
            use_type_invariant(self);
        }
        self.elems.as_slice()
    }

    /// A mutable view of all `N + EXTRA` elements. Whatever is written through it is what the
    /// array holds afterwards.
    pub fn as_mut_slice(&mut self) -> (r: &mut [T])
        ensures
            r@ == old(self)@,
            r@.len() == N + EXTRA,
            final(self)@ == final(r)@,
    {
        proof {
            use_type_invariant(&*self);
        }
        vec_as_mut_slice(&mut self.elems)
    }

    /// The `data` part: the first `N` elements.
    pub fn data(&self) -> (r: &[T])
        ensures
            r@ == self.data_view(),
    {
        proof {
            use_type_invariant(self);
        }
        let (d, _) = self.elems.as_slice().split_at(N);
        d
    }

    /// The `extra` part: the last `EXTRA` elements.
    pub fn extra(&self) -> (r: &[T])
        ensures
            r@ == self.extra_view(),
    {
        proof {
            use_type_invariant(self);
        }
        let (_, e) = self.elems.as_slice().split_at(N);
        e
    }

    /// Views the elements as an array of `M == N + EXTRA` elements, without copying.
    pub fn as_array<const M: usize>(&self) -> (r: &[T; M])
        requires
            M == N + EXTRA,
        ensures
            r@ == self@,
    {
        proof {
            use_type_invariant(self);
        }
        slice_as_array::<T, M>(self.elems.as_slice()).unwrap()
    }

    /// Converts into an owned array of `M == N + EXTRA` elements; each element moves once.
    pub fn into_array<const M: usize>(self) -> (r: [T; M])
        requires
            M == N + EXTRA,
        ensures
            r@ == self@,
    {
        proof {
            use_type_invariant(&self);
        }
        vec_into_array::<T, M>(self.elems).unwrap()
    }

    /// Wraps an owned array of `M == N + EXTRA` elements; each element moves once.
    pub fn from_array<const M: usize>(a: [T; M]) -> (r: Self)
        requires
            M == N + EXTRA,
        ensures
            r@ == a@,
    {
        ArrayPlusExtra { elems: array_into_vec(a) }
    }

    /// Takes the elements of `items` when there are exactly `N + EXTRA` of them; otherwise
    /// reports whether the sequence fell short or ran over.
    pub fn from_vec(items: Vec<T>) -> (r: Result<Self, DecodeError>)
        requires
            N + EXTRA <= usize::MAX,
        ensures
            result_view(r) == decode_spec((N + EXTRA) as usize, items@),
            r is Ok <==> items@.len() == N + EXTRA,
    {
        let expected: usize = N + EXTRA;
        let found: usize = items.len();
        if found < expected {
            Err(DecodeError::TooFew { expected, found })
        } else if found > expected {
            Err(DecodeError::TooMany { expected })
        } else {
            Ok(ArrayPlusExtra { elems: items })
        }
    }

    /// Builds the array from its two parts: `data` first, then `extra`.
    pub fn from_parts(data: [T; N], extra: [T; EXTRA]) -> (r: Self)
        requires
            N + EXTRA <= usize::MAX,
        ensures
            r@ == data@ + extra@,
            r.data_view() == data@,
            r.extra_view() == extra@,
    {
        let mut elems = array_into_vec(data);
        let mut rest = array_into_vec(extra);
        elems.append(&mut rest);
        let r = ArrayPlusExtra { elems };
        assert(r.data_view() =~= data@);
        assert(r.extra_view() =~= extra@);
        r
    }
}

impl<T: Copy, const N: usize, const EXTRA: usize> ArrayPlusExtra<T, N, EXTRA> {
    /// Creates an array with `value` in every one of the `N + EXTRA` slots.
    pub fn new(value: T) -> (r: Self)
        requires
            N + EXTRA <= usize::MAX,
        ensures
            r@ == Seq::new((N + EXTRA) as nat, |_i: int| value),
    {
        let len: usize = N + EXTRA;
        let mut elems: Vec<T> = Vec::with_capacity(len);
        let mut i: usize = 0;
        while i < len
            invariant
                i <= len,
                len == N + EXTRA,
                elems@ == Seq::new(i as nat, |_j: int| value),
            decreases len - i,
        {
            elems.push(value);
            i = i + 1;
            assert(elems@ =~= Seq::new(i as nat, |_j: int| value));
        }
        ArrayPlusExtra { elems }
    }
}

impl<T: Clone, const N: usize, const EXTRA: usize> Clone for ArrayPlusExtra<T, N, EXTRA> {
    /// Duplicates every element with `T::clone`.
    fn clone(&self) -> (r: Self)
        ensures
            r@.len() == self@.len(),
            forall|i: int| 0 <= i < self@.len() ==> cloned(self@[i], #[trigger] r@[i]),
    {
        proof {
            use_type_invariant(self);
        }
        ArrayPlusExtra { elems: self.elems.clone() }
    }
}

impl<T: PartialEq, const N: usize, const EXTRA: usize> PartialEq for ArrayPlusExtra<T, N, EXTRA> {
    /// Element-wise equality of the flat views.
    fn eq(&self, other: &Self) -> (r: bool) {
        self.elems == other.elems
    }
}

impl<T: PartialEq, const N: usize, const EXTRA: usize> vstd::std_specs::cmp::PartialEqSpecImpl for ArrayPlusExtra<T, N, EXTRA> {
    open spec fn obeys_eq_spec() -> bool {
        <T as PartialEqSpec>::obeys_eq_spec()
    }

    open spec fn eq_spec(&self, other: &Self) -> bool {
        &&& self@.len() == other@.len()
        &&& forall|i: int| 0 <= i < self@.len() ==> (#[trigger] self@[i]).eq_spec(&other@[i])
    }
}

impl<T: Eq, const N: usize, const EXTRA: usize> Eq for ArrayPlusExtra<T, N, EXTRA> {

}

impl<T, const N: usize, const EXTRA: usize> core::ops::Deref for ArrayPlusExtra<T, N, EXTRA> {
    type Target = [T];

    /// The flat view, as `as_slice` gives it.
    fn deref(&self) -> (r: &[T])
        ensures
            r@ == self@,
    {
        self.as_slice()
    }
}

impl<T, const N: usize, const EXTRA: usize> core::ops::DerefMut for ArrayPlusExtra<T, N, EXTRA> {
    /// The mutable flat view, as `as_mut_slice` gives it.
    fn deref_mut(&mut self) -> (r: &mut [T])
        ensures
            r@ == old(self)@,
            final(self)@ == final(r)@,
    {
        self.as_mut_slice()
    }
}

} // verus!
