//! The models of optional values, of lists and of outcomes.

use vstd::prelude::*;

verus! {

/// The model of an optional value.
pub open spec fn opt_view<T: View>(o: Option<T>) -> Option<T::V> {
    match o {
        Some(t) => Some(t@),
        None => None,
    }
}

/// The models of the elements of a sequence, in order.
pub open spec fn seq_view<T: View>(s: Seq<T>) -> Seq<T::V> {
    Seq::new(s.len(), |i: int| s[i]@)
}

/// The models of the elements of an optional list.
pub open spec fn opt_seq_view<T: View>(o: Option<Vec<T>>) -> Option<Seq<T::V>> {
    match o {
        Some(v) => Some(seq_view(v@)),
        None => None,
    }
}

/// The model of an outcome that holds one value.
pub open spec fn item_view<T: View, F>(r: Result<T, F>) -> Result<T::V, F> {
    match r {
        Ok(e) => Ok(e@),
        Err(f) => Err(f),
    }
}

/// The model of an outcome that holds a list.
pub open spec fn list_view<T: View, F>(r: Result<Vec<T>, F>) -> Result<Seq<T::V>, F> {
    match r {
        Ok(v) => Ok(seq_view(v@)),
        Err(f) => Err(f),
    }
}

} // verus!
