use vstd::prelude::*;

use crate::array::{result_view, ArrayPlusExtra};

verus! {

/// Why a sequence could not be turned into an array of `expected` elements.
#[derive(Debug, Clone, Copy, PartialEq, Eq, Structural)]
pub enum DecodeError {
    /// The sequence ended after `found` elements, before all `expected` slots were filled.
    TooFew { expected: usize, found: usize },
    /// The sequence went on past the last of the `expected` slots.
    TooMany { expected: usize },
}

/// The outcome of decoding `items` into an array of `expected` elements: the items themselves
/// when there are exactly `expected` of them, else the length mismatch.
pub open spec fn decode_spec<T>(expected: usize, items: Seq<T>) -> Result<Seq<T>, DecodeError> {
    if items.len() < expected {
        Err(DecodeError::TooFew { expected, found: items.len() as usize })
    } else if items.len() > expected {
        Err(DecodeError::TooMany { expected })
    } else {
        Ok(items)
    }
}

/// An array of `N + EXTRA` elements under construction, filled one element at a time from a
/// stream. The slots not yet filled hold nothing, so they can neither be read nor dropped.
pub struct ArrayBuilder<T, const N: usize, const EXTRA: usize> {
    filled: Vec<T>,
}

impl<T, const N: usize, const EXTRA: usize> View for ArrayBuilder<T, N, EXTRA> {
    type V = Seq<T>;

    /// The elements filled so far, in order.
    closed spec fn view(&self) -> Seq<T> {
        self.filled@
    }
}

impl<T, const N: usize, const EXTRA: usize> ArrayBuilder<T, N, EXTRA> {
    /// Well-formed: the size fits a `usize`, and no more than `N + EXTRA` slots are filled.
    pub open spec fn wf(&self) -> bool {
        &&& N + EXTRA <= usize::MAX
        &&& self@.len() <= N + EXTRA
    }

    /// An empty builder: no slot is filled yet.
    pub fn new() -> (r: Self)
        requires
            N + EXTRA <= usize::MAX,
        ensures
            r.wf(),
            r@ == Seq::<T>::empty(),
    {
        ArrayBuilder { filled: Vec::new() }
    }

    /// How many slots are filled.
    pub fn len(&self) -> (r: usize)
        requires
            self.wf(),
        ensures
            r == self@.len(),
            r <= N + EXTRA,
    {
        self.filled.len()
    }

    /// Whether all `N + EXTRA` slots are filled.
    pub fn is_full(&self) -> (r: bool)
        requires
            self.wf(),
        ensures
            r == (self@.len() == N + EXTRA),
    {
        self.filled.len() == N + EXTRA
    }

    /// Fills the next slot with `item`; when every slot is already filled, the item is refused
    /// and the builder is left as it was.
    pub fn push(&mut self, item: T) -> (r: Result<(), DecodeError>)
        requires
            old(self).wf(),
        ensures
            final(self).wf(),
            old(self)@.len() < N + EXTRA ==> r is Ok && final(self)@ == old(self)@.push(item),
            old(self)@.len() == N + EXTRA ==> r == Err::<(), DecodeError>(
                DecodeError::TooMany { expected: (N + EXTRA) as usize },
            ) && final(self)@ == old(self)@,
    {
        let expected: usize = N + EXTRA;
        if self.filled.len() < expected {
            self.filled.push(item);
            Ok(())
        } else {
            Err(DecodeError::TooMany { expected })
        }
    }

    /// The finished array when every slot is filled, else the count of filled slots.
    pub fn finish(self) -> (r: Result<ArrayPlusExtra<T, N, EXTRA>, DecodeError>)
        requires
            self.wf(),
        ensures
            result_view(r) == decode_spec((N + EXTRA) as usize, self@),
            r is Ok <==> self@.len() == N + EXTRA,
    {
        ArrayPlusExtra::from_vec(self.filled)
    }
}

} // verus!
