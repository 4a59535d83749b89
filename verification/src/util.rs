//! Small helper types.
use std::marker::PhantomData;
use std::rc::Rc;

use vstd::prelude::*;

verus! {

/// Zero-sized marker that keeps the type holding it on the thread that made it.
pub struct PhantomNotSend {
    _ns: PhantomData<Rc<()>>,
}

impl PhantomNotSend {
    /// The only value of the type.
    pub closed spec fn marker() -> Self {
        PhantomNotSend { _ns: PhantomData }
    }
}

impl Default for PhantomNotSend {
    fn default() -> (marker: Self)
        ensures
            marker == Self::marker(),
    {
        PhantomNotSend { _ns: PhantomData }
    }
}

} // verus!
