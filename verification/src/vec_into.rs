//! Converting every element of a vector with `Into`.

use vstd::prelude::*;

verus! {

/// Converts a `Vec<E>` into a `Vec<D>` element by element.
pub trait VecInto<D>: Sized {
    /// Converts every element with `Into`, keeping the order.
    fn vec_into(self) -> Vec<D>;
}

impl<E, D> VecInto<D> for Vec<E> where E: Into<D> {
    fn vec_into(self) -> (out: Vec<D>)
        ensures
            out@.len() == self@.len(),
            forall|i: int| 0 <= i < self@.len() ==> call_ensures(E::into, (self@[i],), #[trigger] out@[i]),
    {
        let ghost items = self@;
        let mut out: Vec<D> = Vec::new();
        for e in it: self
            invariant
                it.seq() == items,
                out@.len() == it.index(),
                forall|i: int| 0 <= i < it.index() ==> call_ensures(E::into, (items[i],), #[trigger] out@[i]),
        {
            out.push(e.into());
        }
        out
    }
}

} // verus!
