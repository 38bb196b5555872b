//! The engine: looks a key up by its address, recovers the cached output with
//! a kind check, and otherwise runs the kind's executor and stores its output
//! once.
//!
//! The only outside work is reading a source file. A source lookup that misses
//! hands back a `Step::Read` naming the path; the caller reads the file and
//! hands the outcome to `supply_source`, which runs the source executor on it.
//!
//! The kinds form a fixed acyclic graph: a module asks only for its source,
//! and a source asks for nothing, so no lookup can come back to itself.
use intmap::IntMap;
use vstd::prelude::*;

use crate::key::{key_hash, key_hash_of, MODULE_KIND, SOURCE_KIND};
use crate::marker::{id, Id};
use crate::store::{
    entries_view, has_room, int_map_entries, int_map_get, int_map_insert_checked, int_map_len,
    int_map_new, recover_module,
    recover_source, result_view, ConcreteModule, Fail, FailView, Resource, ResourceView,
};

verus! {

/// The kind of the leaf query that reads a source file.
#[derive(Debug)]
pub struct Source;

/// The kind of the composite query that derives a module from its source.
#[derive(Debug)]
pub struct Module;

/// The leaf query: the text of the file at a path.
#[derive(Debug)]
pub struct SourceQuery(pub Id<Source>, pub String);

/// The composite query: the module at a path, derived from its source query.
#[derive(Debug)]
pub struct ModuleQuery(pub Id<Module>, pub String);

/// Cache address of the source query for `path`.
pub open spec fn source_hash(path: Seq<char>) -> u64 {
    key_hash_of(SOURCE_KIND, path)
}

/// Cache address of the module query for `path`.
pub open spec fn module_hash(path: Seq<char>) -> u64 {
    key_hash_of(MODULE_KIND, path)
}

impl SourceQuery {
    pub fn new(path: String) -> (r: SourceQuery)
        ensures
            r.1@ == path@,
    {
        SourceQuery(id(), path)
    }

    /// This key's cache address.
    pub fn hash_key(&self) -> (r: u64)
        ensures
            r == source_hash(self.1@),
    {
        key_hash(SOURCE_KIND, self.1.as_str())
    }
}

impl ModuleQuery {
    pub fn new(path: String) -> (r: ModuleQuery)
        ensures
            r.1@ == path@,
    {
        ModuleQuery(id(), path)
    }

    /// This key's cache address.
    pub fn hash_key(&self) -> (r: u64)
        ensures
            r == module_hash(self.1@),
    {
        key_hash(MODULE_KIND, self.1.as_str())
    }
}

/// What a lookup leads to: an answer, or a file that must be read first.
#[derive(Debug)]
pub enum Step<T> {
    Ready(Result<T, Fail>),
    Read(String),
}

/// The model of a step.
pub enum StepView<T> {
    Ready(Result<T, FailView>),
    Read(Seq<char>),
}

impl<T: View> View for Step<T> {
    type V = StepView<T::V>;

    open spec fn view(&self) -> StepView<T::V> {
        match self {
            Step::Ready(r) => StepView::Ready(result_view(*r)),
            Step::Read(p) => StepView::Read(p@),
        }
    }
}

/// The model of what a read gave.
pub open spec fn text_view(contents: Option<String>) -> Option<Seq<char>> {
    match contents {
        Some(s) => Some(s@),
        None => None,
    }
}

/// The source executor: the text read from `path`, or `UnboundModule(path)`
/// when the file could not be read.
pub open spec fn source_output(path: Seq<char>, contents: Option<Seq<char>>) -> Result<
    Seq<char>,
    FailView,
> {
    match contents {
        Some(s) => Ok(s),
        None => Err(FailView::UnboundModule(path)),
    }
}

/// A source lookup in `cache`: the recovered entry on a hit, a read on a miss.
pub open spec fn source_step(cache: Map<u64, ResourceView>, path: Seq<char>) -> StepView<
    Seq<char>,
> {
    let h = source_hash(path);
    if cache.contains_key(h) {
        StepView::Ready(recover_source(cache[h], h))
    } else {
        StepView::Read(path)
    }
}

/// What completing a source execution returns, given what was read.
pub open spec fn supply_result(
    cache: Map<u64, ResourceView>,
    path: Seq<char>,
    contents: Option<Seq<char>>,
) -> Result<Seq<char>, FailView> {
    let h = source_hash(path);
    match contents {
        Some(s) => if cache.contains_key(h) {
            recover_source(cache[h], h)
        } else {
            Ok(s)
        },
        None => Err(FailView::UnboundModule(path)),
    }
}

/// The cache after completing a source execution: a successful output is
/// stored once; a failure stores nothing.
pub open spec fn supply_cache(
    cache: Map<u64, ResourceView>,
    path: Seq<char>,
    contents: Option<Seq<char>>,
) -> Map<u64, ResourceView> {
    let h = source_hash(path);
    match contents {
        Some(s) => if cache.contains_key(h) {
            cache
        } else {
            cache.insert(h, ResourceView::Source(s))
        },
        None => cache,
    }
}

/// A module lookup in `cache`: the recovered entry on a hit; on a miss, the
/// module derived from the source lookup, whose failure or read passes through.
pub open spec fn module_step(cache: Map<u64, ResourceView>, path: Seq<char>) -> StepView<
    (Seq<char>, Seq<char>),
> {
    let h = module_hash(path);
    if cache.contains_key(h) {
        StepView::Ready(recover_module(cache[h], h))
    } else {
        match source_step(cache, path) {
            StepView::Read(p) => StepView::Read(p),
            StepView::Ready(Err(e)) => StepView::Ready(Err(e)),
            StepView::Ready(Ok(s)) => StepView::Ready(Ok((path, s))),
        }
    }
}

/// The cache after a module lookup: a newly derived module is stored once.
pub open spec fn module_cache(cache: Map<u64, ResourceView>, path: Seq<char>) -> Map<
    u64,
    ResourceView,
> {
    let h = module_hash(path);
    if cache.contains_key(h) {
        cache
    } else {
        match source_step(cache, path) {
            StepView::Ready(Ok(s)) => cache.insert(h, ResourceView::Module(path, s)),
            _ => cache,
        }
    }
}

/// Runs the source executor on the outcome of reading `path`.
pub fn execute_source(path: &String, contents: Option<String>) -> (r: Result<String, Fail>)
    ensures
        result_view(r) == source_output(path@, text_view(contents)),
{
    match contents {
        Some(s) => Ok(s),
        None => Err(Fail::UnboundModule(path.clone())),
    }
}

/// A session's cache of query outputs.
pub struct Compiler {
    queries: IntMap<Resource>,
}

impl View for Compiler {
    type V = Map<u64, ResourceView>;

    closed spec fn view(&self) -> Map<u64, ResourceView> {
        entries_view(self.queries)
    }
}

impl Default for Compiler {
    fn default() -> (r: Compiler)
        ensures
            r@ == Map::<u64, ResourceView>::empty(),
    {
        Compiler::new()
    }
}

impl Compiler {
    /// An engine with an empty cache.
    pub fn new() -> (r: Compiler)
        ensures
            r@ == Map::<u64, ResourceView>::empty(),
    {
        let r = Compiler { queries: int_map_new() };
        assert(r@ =~= Map::<u64, ResourceView>::empty());
        r
    }

    /// The number of cached outputs.
    pub fn len(&self) -> (r: usize)
        ensures
            r == self@.len(),
    {
        proof {
            assert(entries_view(self.queries).dom() =~= int_map_entries(self.queries).dom());
        }
        int_map_len(&self.queries)
    }

    /// Whether the cache can take one more output; `supply_source` and
    /// `query_module` ask for this.
    pub fn has_room(&self) -> (r: bool)
        ensures
            r == has_room(self@.len()),
    {
        let n = self.len();
        proof {
            assert((n as int + 1) * 1000 <= usize::MAX <==> n < usize::MAX / 1000) by (nonlinear_arith);
        }
        n < usize::MAX / 1000
    }

    /// Looks the source query up: its cached text, a failed kind check, or
    /// the path to read when nothing is cached.
    pub fn query_source(&self, q: &SourceQuery) -> (r: Step<String>)
        ensures
            r@ == source_step(self@, q.1@),
    {
        let h = q.hash_key();
        match int_map_get(&self.queries, h) {
            Some(resource) => Step::Ready(resource.as_source(h)),
            None => Step::Read(q.1.clone()),
        }
    }

    /// Runs the source executor on what reading the query's path gave
    /// (`None` when it could not be read) and stores a successful output,
    /// unless an entry already stands at its address.
    pub fn supply_source(&mut self, q: &SourceQuery, contents: Option<String>) -> (r: Result<
        String,
        Fail,
    >)
        requires
            has_room(old(self)@.len()),
        ensures
            result_view(r) == supply_result(old(self)@, q.1@, text_view(contents)),
            final(self)@ == supply_cache(old(self)@, q.1@, text_view(contents)),
    {
        let h = q.hash_key();
        let text = match execute_source(&q.1, contents) {
            Ok(text) => text,
            Err(e) => {
                return Err(e);
            },
        };
        match int_map_get(&self.queries, h) {
            Some(resource) => resource.as_source(h),
            None => {
                let out = text.clone();
                proof {
                    assert(entries_view(self.queries).dom() =~= int_map_entries(self.queries).dom());
                }
                int_map_insert_checked(&mut self.queries, h, Resource::Source(text));
                proof {
                    assert(self@ =~= supply_cache(old(self)@, q.1@, text_view(contents)));
                }
                Ok(out)
            },
        }
    }

    /// Looks the module query up; on a miss, looks its source up and, once
    /// the source is there, derives the module and stores it.
    pub fn query_module(&mut self, q: &ModuleQuery) -> (r: Step<ConcreteModule>)
        requires
            has_room(old(self)@.len()),
        ensures
            r@ == module_step(old(self)@, q.1@),
            final(self)@ == module_cache(old(self)@, q.1@),
    {
        let h = q.hash_key();
        match int_map_get(&self.queries, h) {
            Some(resource) => {
                return Step::Ready(resource.as_module(h));
            },
            None => {},
        }
        match self.query_source(&SourceQuery::new(q.1.clone())) {
            Step::Read(p) => Step::Read(p),
            Step::Ready(Err(e)) => Step::Ready(Err(e)),
            Step::Ready(Ok(text)) => {
                let module = ConcreteModule(q.1.clone(), text);
                let out = module.duplicate();
                proof {
                    assert(entries_view(self.queries).dom() =~= int_map_entries(self.queries).dom());
                }
                int_map_insert_checked(&mut self.queries, h, Resource::Module(module));
                proof {
                    assert(self@ =~= module_cache(old(self)@, q.1@));
                }
                Step::Ready(Ok(out))
            },
        }
    }
}

} // verus!
