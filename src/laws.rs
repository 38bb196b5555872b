//! Properties of the engine, stated over the models that its operations'
//! contracts use and proved from them.
use vstd::prelude::*;
use vstd::utf8::{encode_utf8, encode_utf8_decode_utf8};

use crate::engine::{
    module_cache, module_hash, module_step, source_hash, source_step, supply_cache,
    supply_result, StepView,
};
use crate::key::key_bytes;
use crate::store::{recover_module, recover_source, FailView, ResourceView};

verus! {

/// Once a source execution has completed successfully, looking the same
/// source up again answers from the cache with the same text and asks for no
/// further read.
pub proof fn lemma_source_idempotent(
    cache: Map<u64, ResourceView>,
    path: Seq<char>,
    contents: Option<Seq<char>>,
)
    requires
        supply_result(cache, path, contents) is Ok,
    ensures
        source_step(supply_cache(cache, path, contents), path) == StepView::Ready(
            supply_result(cache, path, contents),
        ),
{
}

/// Once a module lookup has succeeded, looking the same module up again gives
/// the same module and leaves the cache as it is.
pub proof fn lemma_module_idempotent(cache: Map<u64, ResourceView>, path: Seq<char>)
    requires
        module_step(cache, path) matches StepView::Ready(Ok(_)),
    ensures
        module_step(module_cache(cache, path), path) == module_step(cache, path),
        module_cache(module_cache(cache, path), path) == module_cache(cache, path),
{
}

/// An entry of one kind is never handed out as another: a module lookup that
/// finds a source text at its address fails with `InvalidCacheDowncast`, and
/// so does a source lookup that finds a module; neither changes the cache.
pub proof fn lemma_kind_checked(cache: Map<u64, ResourceView>, path: Seq<char>)
    ensures
        cache.contains_key(module_hash(path)) && cache[module_hash(path)] is Source ==> {
            &&& module_step(cache, path) == StepView::<(Seq<char>, Seq<char>)>::Ready(
                Err(FailView::InvalidCacheDowncast(module_hash(path))),
            )
            &&& module_cache(cache, path) == cache
        },
        cache.contains_key(source_hash(path)) && cache[source_hash(path)] is Module
            ==> source_step(cache, path) == StepView::<Seq<char>>::Ready(
            Err(FailView::InvalidCacheDowncast(source_hash(path))),
        ),
        forall|h: u64, text: Seq<char>|
            recover_module(ResourceView::Source(text), h) == Err::<(Seq<char>, Seq<char>), _>(
                FailView::InvalidCacheDowncast(h),
            ),
        forall|h: u64, p: Seq<char>, text: Seq<char>|
            recover_source(ResourceView::Module(p, text), h) == Err::<Seq<char>, _>(
                FailView::InvalidCacheDowncast(h),
            ),
{
}

/// After the source at `path` has been read and stored, a module lookup for
/// `path` reads nothing more; where the module's address is free and differs
/// from the source's, it yields the module built from that very text.
pub proof fn lemma_module_reuses_source(
    cache: Map<u64, ResourceView>,
    path: Seq<char>,
    text: Seq<char>,
)
    requires
        supply_result(cache, path, Some(text)) is Ok,
    ensures
        module_step(supply_cache(cache, path, Some(text)), path) is Ready,
        !cache.contains_key(module_hash(path)) && module_hash(path) != source_hash(path) ==> {
            &&& module_step(supply_cache(cache, path, Some(text)), path) == StepView::Ready(
                Ok((path, supply_result(cache, path, Some(text))->Ok_0)),
            )
            &&& source_step(
                module_cache(supply_cache(cache, path, Some(text)), path),
                path,
            ) == StepView::Ready(supply_result(cache, path, Some(text)))
        },
{
}

/// A failed read is not remembered: the cache is unchanged, the source is
/// still to be read, and a later successful read yields its text.
pub proof fn lemma_failure_not_cached(
    cache: Map<u64, ResourceView>,
    path: Seq<char>,
    text: Seq<char>,
)
    requires
        !cache.contains_key(source_hash(path)),
    ensures
        supply_result(cache, path, None) == Err::<Seq<char>, _>(FailView::UnboundModule(path)),
        supply_cache(cache, path, None) == cache,
        source_step(supply_cache(cache, path, None), path) == StepView::<Seq<char>>::Read(path),
        supply_result(supply_cache(cache, path, None), path, Some(text)) == Ok::<_, FailView>(
            text,
        ),
{
}

/// Distinct keys are serialised to distinct bytes, so only a collision of
/// the hash itself can give them one address.
pub proof fn lemma_key_bytes_injective(k1: u8, p1: Seq<char>, k2: u8, p2: Seq<char>)
    requires
        k1 != k2 || p1 != p2,
    ensures
        key_bytes(k1, p1) != key_bytes(k2, p2),
{
    if key_bytes(k1, p1) == key_bytes(k2, p2) {
        assert(key_bytes(k1, p1)[0] == k1);
        assert(key_bytes(k2, p2)[0] == k2);
        assert(encode_utf8(p1) =~= key_bytes(k1, p1).subrange(1, key_bytes(k1, p1).len() as int));
        assert(encode_utf8(p2) =~= key_bytes(k2, p2).subrange(1, key_bytes(k2, p2).len() as int));
        encode_utf8_decode_utf8(p1);
        encode_utf8_decode_utf8(p2);
    }
}

/// Sources at two paths whose addresses differ have independent entries:
/// completing one leaves the other's lookup as it was.
pub proof fn lemma_entries_independent(
    cache: Map<u64, ResourceView>,
    p1: Seq<char>,
    p2: Seq<char>,
    contents: Option<Seq<char>>,
)
    requires
        source_hash(p1) != source_hash(p2),
    ensures
        source_step(supply_cache(cache, p1, contents), p2) == source_step(cache, p2),
{
}

} // verus!
