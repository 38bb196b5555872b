//! The heterogeneous store: cache addresses mapped to a tagged variant over
//! the output kinds, with checked recovery of each kind.
use intmap::IntMap;
use vstd::prelude::*;

verus! {

/// The output of a module query: the module's path and its source text.
#[derive(Debug)]
pub struct ConcreteModule(pub String, pub String);

impl View for ConcreteModule {
    type V = (Seq<char>, Seq<char>);

    open spec fn view(&self) -> (Seq<char>, Seq<char>) {
        (self.0@, self.1@)
    }
}

impl ConcreteModule {
    /// A copy of the module.
    pub fn duplicate(&self) -> (r: ConcreteModule)
        ensures
            r@ == self@,
    {
        ConcreteModule(self.0.clone(), self.1.clone())
    }
}

/// Why a query failed.
#[derive(Debug)]
pub enum Fail {
    /// The entry at this address holds an output of another kind.
    InvalidCacheDowncast(u64),
    /// The source file at this path could not be read.
    UnboundModule(String),
}

/// The model of a failure.
pub enum FailView {
    InvalidCacheDowncast(u64),
    UnboundModule(Seq<char>),
}

impl View for Fail {
    type V = FailView;

    open spec fn view(&self) -> FailView {
        match self {
            Fail::InvalidCacheDowncast(h) => FailView::InvalidCacheDowncast(*h),
            Fail::UnboundModule(p) => FailView::UnboundModule(p@),
        }
    }
}

/// The model of a result: the output's view, or the failure's.
pub open spec fn result_view<T: View>(r: Result<T, Fail>) -> Result<T::V, FailView> {
    match r {
        Ok(v) => Ok(v@),
        Err(e) => Err(e@),
    }
}

/// One cached output, tagged with its kind.
#[derive(Debug)]
pub enum Resource {
    Source(String),
    Module(ConcreteModule),
}

/// The model of a cached output.
pub enum ResourceView {
    Source(Seq<char>),
    Module(Seq<char>, Seq<char>),
}

impl View for Resource {
    type V = ResourceView;

    open spec fn view(&self) -> ResourceView {
        match self {
            Resource::Source(s) => ResourceView::Source(s@),
            Resource::Module(m) => ResourceView::Module(m.0@, m.1@),
        }
    }
}

/// Recovery of a source text from the entry `r` found at address `hash`.
pub open spec fn recover_source(r: ResourceView, hash: u64) -> Result<Seq<char>, FailView> {
    match r {
        ResourceView::Source(s) => Ok(s),
        _ => Err(FailView::InvalidCacheDowncast(hash)),
    }
}

/// Recovery of a module from the entry `r` found at address `hash`.
pub open spec fn recover_module(r: ResourceView, hash: u64) -> Result<
    (Seq<char>, Seq<char>),
    FailView,
> {
    match r {
        ResourceView::Module(p, s) => Ok((p, s)),
        _ => Err(FailView::InvalidCacheDowncast(hash)),
    }
}

impl Resource {
    /// The source text held here, after checking that this entry is one.
    pub fn as_source(&self, hash: u64) -> (r: Result<String, Fail>)
        ensures
            result_view(r) == recover_source(self@, hash),
    {
        match self {
            Resource::Source(s) => Ok(s.clone()),
            _ => Err(Fail::InvalidCacheDowncast(hash)),
        }
    }

    /// The module held here, after checking that this entry is one.
    pub fn as_module(&self, hash: u64) -> (r: Result<ConcreteModule, Fail>)
        ensures
            result_view(r) == recover_module(self@, hash),
    {
        match self {
            Resource::Module(m) => Ok(m.duplicate()),
            _ => Err(Fail::InvalidCacheDowncast(hash)),
        }
    }
}

#[verifier::external_type_specification]
#[verifier::external_body]
#[verifier::reject_recursive_types(V)]
pub struct ExIntMap<V>(intmap::IntMap<V>);

/// What an `intmap::IntMap` of resources holds, by key.
pub uninterp spec fn int_map_entries(m: IntMap<Resource>) -> Map<u64, Resource>;

/// The entries of a map, each by its model.
pub open spec fn entries_view(m: IntMap<Resource>) -> Map<u64, ResourceView> {
    int_map_entries(m).map_values(|r: Resource| r@)
}

/// Relies on `intmap::IntMap::new`: a map with no entries.
#[verifier::external_body]
pub(crate) fn int_map_new() -> (r: IntMap<Resource>)
    ensures
        int_map_entries(r) =~= Map::empty(),
{
    intmap::IntMap::new()
}

/// Relies on `intmap::IntMap::get`: the value stored under `key`, if any.
#[verifier::external_body]
pub(crate) fn int_map_get(m: &IntMap<Resource>, key: u64) -> (r: Option<&Resource>)
    ensures
        r is Some <==> int_map_entries(*m).contains_key(key),
        r is Some ==> *r->Some_0 == int_map_entries(*m)[key],
{
    m.get(key)
}

/// Whether a map of `n` entries can take one more: after an insert the map
/// computes its load as `count * 1000` in a `usize`.
pub open spec fn has_room(n: nat) -> bool {
    (n + 1) * 1000 <= usize::MAX
}

/// Relies on `intmap::IntMap::len`: the number of entries.
#[verifier::external_body]
pub(crate) fn int_map_len(m: &IntMap<Resource>) -> (r: usize)
    ensures
        r == int_map_entries(*m).len(),
{
    m.len()
}

/// Relies on `intmap::IntMap::insert_checked`: stores `value` under `key`
/// only when the key is absent, and says whether it did. Its load check
/// multiplies the entry count by 1000 in a `usize`, hence the bound.
#[verifier::external_body]
pub(crate) fn int_map_insert_checked(
    m: &mut IntMap<Resource>,
    key: u64,
    value: Resource,
) -> (r: bool)
    requires
        has_room(int_map_entries(*old(m)).len()),
    ensures
        r == !int_map_entries(*old(m)).contains_key(key),
        r ==> int_map_entries(*final(m)) == int_map_entries(*old(m)).insert(key, value),
        !r ==> int_map_entries(*final(m)) == int_map_entries(*old(m)),
{
    m.insert_checked(key, value)
}

} // verus!
