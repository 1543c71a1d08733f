//! Two values of one type.

use vstd::prelude::*;

verus! {

pub struct MyNewStruct<T> {
    pub a: T,
    pub b: T,
}

impl<T> MyNewStruct<T> {
    pub fn new(a: T, b: T) -> (r: Self)
        ensures
            r.a == a,
            r.b == b,
    {
        Self { a, b }
    }
}

} // verus!
