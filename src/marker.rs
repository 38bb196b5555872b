//! Zero-sized markers that tag a query key with its kind.
use core::marker::PhantomData;
use vstd::prelude::*;

verus! {

/// A static marker of the kind `A` of a query. It carries no runtime data
/// and takes no part in a key's identity or cache address, which come from
/// the kind's discriminant.
#[derive(Debug, Hash)]
pub struct Id<A>(pub PhantomData<A>);

/// The marker for kind `A`.
pub fn id<A>() -> (r: Id<A>)
    ensures
        r == Id::<A>(PhantomData),
{
    Id(PhantomData)
}

/// A statement that the types `A` and `B` are the same; it is only ever
/// built for `A == B`, by `refl`.
#[derive(Debug, Hash)]
pub struct Is<A, B>(pub PhantomData<(A, B)>);

/// The witness that `A` is `A`.
pub fn refl<A>() -> (r: Is<A, A>)
    ensures
        r == Is::<A, A>(PhantomData),
{
    Is(PhantomData)
}

} // verus!
