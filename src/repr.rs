use std::marker::PhantomData;
use vstd::prelude::*;

mod private;

pub use private::Sealed;

verus! {

/// Marker of values shown in base-58.
#[derive(Eq, Copy, Clone, PartialEq, Debug)]
pub struct Bs58;

/// Marker of values kept as raw bytes.
#[derive(Eq, Copy, Clone, PartialEq, Debug)]
pub struct Raw;

impl Sealed for Bs58 {}

impl Sealed for Raw {}

/// A representation format; only this crate defines them.
pub trait ReprFormat: Sealed {}

impl ReprFormat for Bs58 {}

impl ReprFormat for Raw {}

/// A value with a fixed-size byte form.
pub trait ReprBytes: Sized {
    /// The byte form.
    fn to_bytes(&self) -> Vec<u8>;

    /// The value whose byte form is `bytes`, if any.
    fn from_bytes(bytes: &[u8]) -> Option<Self>;
}

/// A value tagged with the format `F` in which it is represented.
#[derive(Eq, PartialEq, Debug)]
pub struct Repr<T, F = Bs58> {
    data: T,
    _phantom: PhantomData<F>,
}

impl<T, F> Repr<T, F> {
    pub closed spec fn inner(&self) -> T {
        self.data
    }

    /// The value itself.
    pub fn get(&self) -> (r: &T)
        ensures
            *r == self.inner(),
    {
        &self.data
    }

    /// Gives the value back.
    pub fn into_inner(self) -> (r: T)
        ensures
            r == self.inner(),
    {
        self.data
    }
}

impl<T> Repr<T> {
    /// Wraps `data` in the base-58 format.
    pub fn new(data: T) -> (r: Self)
        ensures
            r.inner() == data,
    {
        Repr { data, _phantom: PhantomData }
    }
}

impl<T> Repr<T, Raw> {
    /// Wraps `data` in the raw format.
    pub fn raw(data: T) -> (r: Self)
        ensures
            r.inner() == data,
    {
        Repr { data, _phantom: PhantomData }
    }
}

impl<T> From<T> for Repr<T> {
    fn from(data: T) -> (r: Self) {
        Repr::new(data)
    }
}

impl<T> vstd::std_specs::convert::FromSpecImpl<T> for Repr<T> {
    open spec fn obeys_from_spec() -> bool {
        true
    }

    closed spec fn from_spec(v: T) -> Self {
        Repr { data: v, _phantom: PhantomData }
    }
}

impl<T> From<T> for Repr<T, Raw> {
    fn from(data: T) -> (r: Self) {
        Repr::raw(data)
    }
}

impl<T> vstd::std_specs::convert::FromSpecImpl<T> for Repr<T, Raw> {
    open spec fn obeys_from_spec() -> bool {
        true
    }

    closed spec fn from_spec(v: T) -> Self {
        Repr { data: v, _phantom: PhantomData }
    }
}

/// Converting a value with `From` wraps it unchanged, in either format: the
/// same as `Repr::new` and `Repr::raw`.
pub proof fn lemma_from_keeps_value<T>(v: T)
    ensures
        <Repr<T> as vstd::std_specs::convert::FromSpec<T>>::from_spec(v).inner() == v,
        <Repr<T, Raw> as vstd::std_specs::convert::FromSpec<T>>::from_spec(v).inner() == v,
        forall|r: Repr<T>| r.inner() == v ==> r == <Repr<T> as vstd::std_specs::convert::FromSpec<T>>::from_spec(v),
        forall|r: Repr<T, Raw>| r.inner() == v ==> r == <Repr<T, Raw> as vstd::std_specs::convert::FromSpec<T>>::from_spec(v),
{
}

} // verus!
