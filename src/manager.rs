use vstd::prelude::*;

use crate::component::Component;
use crate::middleware::{DynFairing, MiddlewareComponent};
use crate::symbols::{
    component_symbol, find_bytes, middleware_symbol, occurs_in, spec_component_symbol,
    spec_middleware_symbol,
};

verus! {

/// Why loading a plugin failed.
#[derive(Debug, Clone, Copy, PartialEq, Eq, Structural)]
pub enum PluginError {
    /// The file is missing, unreadable, or not a dynamic library for this
    /// platform; nothing was kept.
    LoadError,
    /// The library opened but does not export the registration symbol; the
    /// library is kept open, and no plugin instance was added.
    SymbolNotFound,
    /// The library holds the registration symbol but declares another plugin
    /// interface version, or none; its entry point was not run, and the
    /// library is kept open.
    AbiMismatch,
}

/// The plugin interface version of this library. A plugin declares the
/// version it was built against; its entry point runs only on a match.
pub const ABI_VERSION: u32 = 1;

/// What opening a library and running its registration entry point came to.
pub enum LoadOutcome<L, P> {
    /// The file could not be opened as a dynamic library.
    OpenFailed,
    /// The library opened, but the registration symbol is absent.
    SymbolMissing(L),
    /// The library opened and holds the registration symbol, but
    /// `PluginManager::accepts_abi` refused the version it declares.
    Incompatible(L),
    /// The library opened and its registration entry point built a plugin.
    Constructed(L, P),
}

/// A call the manager made into plugin code, or a library it released; the
/// index is the position of the instance or library in its collection.
#[derive(Debug, Clone, Copy)]
pub enum Hook {
    /// The load hook of a route plugin.
    ComponentLoad(usize),
    /// The export of a route plugin's routes.
    ComponentExport(usize),
    /// The unload hook of a route plugin.
    ComponentUnload(usize),
    /// The load hook of a filter plugin.
    MiddlewareLoad(usize),
    /// The export of a filter plugin's filters.
    MiddlewareExport(usize),
    /// The unload hook of a filter plugin.
    MiddlewareUnload(usize),
    /// The release of a library.
    LibraryRelease(usize),
}

/// The routes advertised by `cs`, plugin after plugin.
pub open spec fn routes_of<C: Component>(cs: Seq<C>) -> Seq<C::Route>
    decreases cs.len(),
{
    if cs.len() == 0 {
        Seq::empty()
    } else {
        routes_of(cs.drop_last()) + cs.last().spec_routes()
    }
}

/// The filters advertised by `ms`, plugin after plugin.
pub open spec fn filters_of<M: MiddlewareComponent>(ms: Seq<M>) -> Seq<M::Filter>
    decreases ms.len(),
{
    if ms.len() == 0 {
        Seq::empty()
    } else {
        filters_of(ms.drop_last()) + ms.last().spec_middlewares()
    }
}

/// The filters held by a sequence of adapters.
pub open spec fn unwrapped<F>(s: Seq<DynFairing<F>>) -> Seq<F> {
    s.map_values(|d: DynFairing<F>| d@)
}

/// The export calls made for the instances at positions `from` up to `to`.
pub open spec fn component_exports(from: nat, to: nat) -> Seq<Hook> {
    Seq::new((to - from) as nat, |i: int| Hook::ComponentExport((from + i) as usize))
}

/// The export calls made for the instances at positions `from` up to `to`.
pub open spec fn middleware_exports(from: nat, to: nat) -> Seq<Hook> {
    Seq::new((to - from) as nat, |i: int| Hook::MiddlewareExport((from + i) as usize))
}

/// What retiring `k` filter plugins, `m` route plugins and `l` libraries
/// does, in order: every filter plugin's unload hook, then every route
/// plugin's, then the release of every library.
pub open spec fn unload_events(k: nat, m: nat, l: nat) -> Seq<Hook> {
    Seq::new(k, |i: int| Hook::MiddlewareUnload(i as usize)) + Seq::new(
        m,
        |i: int| Hook::ComponentUnload(i as usize),
    ) + Seq::new(l, |i: int| Hook::LibraryRelease(i as usize))
}

/// Keeps the libraries that the host opened and the plugin instances their
/// entry points built, drives the plugins' hooks, and hands their routes and
/// filters over, each instance's at most once.
///
/// `L` is a library handle: dropping it closes the library. The handles
/// outlive every plugin instance, since the instances' code lives in them.
pub struct PluginManager<L, C, M> {
    components: Vec<C>,
    middlewares: Vec<M>,
    loaded_libs: Vec<L>,
    routes_taken: usize,
    filters_taken: usize,
    history: Ghost<Seq<Hook>>,
}

impl<L, C: Component, M: MiddlewareComponent> PluginManager<L, C, M> {
    /// The route plugins, in load order.
    pub closed spec fn spec_components(&self) -> Seq<C> {
        self.components@
    }

    /// The filter plugins, in load order.
    pub closed spec fn spec_middlewares(&self) -> Seq<M> {
        self.middlewares@
    }

    /// The libraries kept open, in load order.
    pub closed spec fn spec_libraries(&self) -> Seq<L> {
        self.loaded_libs@
    }

    /// How many route plugins, from the first, have handed their routes over.
    pub closed spec fn routes_taken(&self) -> nat {
        self.routes_taken as nat
    }

    /// How many filter plugins, from the first, have handed their filters over.
    pub closed spec fn filters_taken(&self) -> nat {
        self.filters_taken as nat
    }

    /// Every hook call and release made so far, in order.
    pub closed spec fn history(&self) -> Seq<Hook> {
        self.history@
    }

    /// The plugins that have handed their collections over are a prefix of
    /// those held.
    pub closed spec fn wf(&self) -> bool {
        &&& self.routes_taken <= self.components@.len()
        &&& self.filters_taken <= self.middlewares@.len()
    }

    /// The routes that the next collection hands over.
    pub open spec fn pending_routes(&self) -> Seq<C::Route> {
        routes_of(
            self.spec_components().subrange(
                self.routes_taken() as int,
                self.spec_components().len() as int,
            ),
        )
    }

    /// The filters that the next collection hands over.
    pub open spec fn pending_filters(&self) -> Seq<M::Filter> {
        filters_of(
            self.spec_middlewares().subrange(
                self.filters_taken() as int,
                self.spec_middlewares().len() as int,
            ),
        )
    }

    /// What `load_components` does with `outcome`, returning `r`.
    pub open spec fn component_load_step(
        before: Self,
        after: Self,
        outcome: LoadOutcome<L, C>,
        r: Result<(), PluginError>,
    ) -> bool {
        &&& after.spec_middlewares() == before.spec_middlewares()
        &&& after.routes_taken() == before.routes_taken()
        &&& after.filters_taken() == before.filters_taken()
        &&& match outcome {
            LoadOutcome::OpenFailed => {
                &&& r == Err::<(), PluginError>(PluginError::LoadError)
                &&& after.spec_libraries() == before.spec_libraries()
                &&& after.spec_components() == before.spec_components()
                &&& after.history() == before.history()
            },
            LoadOutcome::SymbolMissing(lib) => {
                &&& r == Err::<(), PluginError>(PluginError::SymbolNotFound)
                &&& after.spec_libraries() == before.spec_libraries().push(lib)
                &&& after.spec_components() == before.spec_components()
                &&& after.history() == before.history()
            },
            LoadOutcome::Incompatible(lib) => {
                &&& r == Err::<(), PluginError>(PluginError::AbiMismatch)
                &&& after.spec_libraries() == before.spec_libraries().push(lib)
                &&& after.spec_components() == before.spec_components()
                &&& after.history() == before.history()
            },
            LoadOutcome::Constructed(lib, c) => {
                &&& r == Ok::<(), PluginError>(())
                &&& after.spec_libraries() == before.spec_libraries().push(lib)
                &&& after.spec_components() == before.spec_components().push(c)
                &&& after.history() == before.history().push(
                    Hook::ComponentLoad(before.spec_components().len() as usize),
                )
            },
        }
    }

    /// What `load_middleware` does with `outcome`, returning `r`.
    pub open spec fn middleware_load_step(
        before: Self,
        after: Self,
        outcome: LoadOutcome<L, M>,
        r: Result<(), PluginError>,
    ) -> bool {
        &&& after.spec_components() == before.spec_components()
        &&& after.routes_taken() == before.routes_taken()
        &&& after.filters_taken() == before.filters_taken()
        &&& match outcome {
            LoadOutcome::OpenFailed => {
                &&& r == Err::<(), PluginError>(PluginError::LoadError)
                &&& after.spec_libraries() == before.spec_libraries()
                &&& after.spec_middlewares() == before.spec_middlewares()
                &&& after.history() == before.history()
            },
            LoadOutcome::SymbolMissing(lib) => {
                &&& r == Err::<(), PluginError>(PluginError::SymbolNotFound)
                &&& after.spec_libraries() == before.spec_libraries().push(lib)
                &&& after.spec_middlewares() == before.spec_middlewares()
                &&& after.history() == before.history()
            },
            LoadOutcome::Incompatible(lib) => {
                &&& r == Err::<(), PluginError>(PluginError::AbiMismatch)
                &&& after.spec_libraries() == before.spec_libraries().push(lib)
                &&& after.spec_middlewares() == before.spec_middlewares()
                &&& after.history() == before.history()
            },
            LoadOutcome::Constructed(lib, m) => {
                &&& r == Ok::<(), PluginError>(())
                &&& after.spec_libraries() == before.spec_libraries().push(lib)
                &&& after.spec_middlewares() == before.spec_middlewares().push(m)
                &&& after.history() == before.history().push(
                    Hook::MiddlewareLoad(before.spec_middlewares().len() as usize),
                )
            },
        }
    }

    /// A manager with no libraries and no plugins.
    pub fn new() -> (r: Self)
        ensures
            r.wf(),
            r.spec_components().len() == 0,
            r.spec_middlewares().len() == 0,
            r.spec_libraries().len() == 0,
            r.routes_taken() == 0,
            r.filters_taken() == 0,
            r.history().len() == 0,
    {
        PluginManager {
            components: Vec::new(),
            middlewares: Vec::new(),
            loaded_libs: Vec::new(),
            routes_taken: 0,
            filters_taken: 0,
            history: Ghost(Seq::empty()),
        }
    }

    /// The number of libraries kept open.
    pub fn library_count(&self) -> (r: usize)
        ensures
            r == self.spec_libraries().len(),
    {
        self.loaded_libs.len()
    }

    /// The number of route plugins held.
    pub fn component_count(&self) -> (r: usize)
        ensures
            r == self.spec_components().len(),
    {
        self.components.len()
    }

    /// The number of filter plugins held.
    pub fn middleware_count(&self) -> (r: usize)
        ensures
            r == self.spec_middlewares().len(),
    {
        self.middlewares.len()
    }

    /// Takes over what loading a route plugin came to.
    ///
    /// A library that opened is kept, whether or not a plugin was built from
    /// it; a constructed plugin has its load hook fired, once, and is then
    /// appended, so that the next collection hands its routes over.
    pub fn load_components(&mut self, outcome: LoadOutcome<L, C>) -> (r: Result<(), PluginError>)
        requires
            old(self).wf(),
        ensures
            final(self).wf(),
            Self::component_load_step(*old(self), *final(self), outcome, r),
    {
        match outcome {
            LoadOutcome::OpenFailed => Err(PluginError::LoadError),
            LoadOutcome::SymbolMissing(lib) => {
                self.loaded_libs.push(lib);
                Err(PluginError::SymbolNotFound)
            },
            LoadOutcome::Incompatible(lib) => {
                self.loaded_libs.push(lib);
                Err(PluginError::AbiMismatch)
            },
            LoadOutcome::Constructed(lib, component) => {
                self.loaded_libs.push(lib);
                component.on_component_load();
                self.history = Ghost(
                    self.history@.push(Hook::ComponentLoad(self.components.len())),
                );
                self.components.push(component);
                Ok(())
            },
        }
    }

    /// Takes over what loading a filter plugin came to.
    ///
    /// A library that opened is kept, whether or not a plugin was built from
    /// it; a constructed plugin has its load hook fired, once, and is then
    /// appended, so that the next collection hands its filters over.
    pub fn load_middleware(&mut self, outcome: LoadOutcome<L, M>) -> (r: Result<(), PluginError>)
        requires
            old(self).wf(),
        ensures
            final(self).wf(),
            Self::middleware_load_step(*old(self), *final(self), outcome, r),
    {
        match outcome {
            LoadOutcome::OpenFailed => Err(PluginError::LoadError),
            LoadOutcome::SymbolMissing(lib) => {
                self.loaded_libs.push(lib);
                Err(PluginError::SymbolNotFound)
            },
            LoadOutcome::Incompatible(lib) => {
                self.loaded_libs.push(lib);
                Err(PluginError::AbiMismatch)
            },
            LoadOutcome::Constructed(lib, middleware) => {
                self.loaded_libs.push(lib);
                middleware.on_middleware_load();
                self.history = Ghost(
                    self.history@.push(Hook::MiddlewareLoad(self.middlewares.len())),
                );
                self.middlewares.push(middleware);
                Ok(())
            },
        }
    }
    /// What `get_routes` does, handing over `out`: every route plugin not yet
    /// asked is asked once, in load order, and its routes follow those of the
    /// plugins before it; nothing else changes.
    pub open spec fn routes_step(before: Self, after: Self, out: Seq<C::Route>) -> bool {
        &&& out == before.pending_routes()
        &&& after.spec_components() == before.spec_components()
        &&& after.spec_middlewares() == before.spec_middlewares()
        &&& after.spec_libraries() == before.spec_libraries()
        &&& after.routes_taken() == before.spec_components().len()
        &&& after.filters_taken() == before.filters_taken()
        &&& after.history() == before.history() + component_exports(
            before.routes_taken(),
            before.spec_components().len(),
        )
    }

    /// What `get_middlewares` does, handing over adapters around `out`: every
    /// filter plugin not yet asked is asked once, in load order, and its
    /// filters follow those of the plugins before it; nothing else changes.
    pub open spec fn filters_step(before: Self, after: Self, out: Seq<M::Filter>) -> bool {
        &&& out == before.pending_filters()
        &&& after.spec_components() == before.spec_components()
        &&& after.spec_middlewares() == before.spec_middlewares()
        &&& after.spec_libraries() == before.spec_libraries()
        &&& after.routes_taken() == before.routes_taken()
        &&& after.filters_taken() == before.spec_middlewares().len()
        &&& after.history() == before.history() + middleware_exports(
            before.filters_taken(),
            before.spec_middlewares().len(),
        )
    }

    /// A route plugin that loads is hooked once before anything else is
    /// asked of it, and the next collection hands over its routes after those
    /// still pending from earlier plugins, asking for its export once.
    pub proof fn lemma_load_then_collect(
        before: Self,
        mid: Self,
        after: Self,
        lib: L,
        c: C,
        r: Result<(), PluginError>,
        out: Seq<C::Route>,
    )
        requires
            before.wf(),
            Self::component_load_step(before, mid, LoadOutcome::Constructed(lib, c), r),
            Self::routes_step(mid, after, out),
        ensures
            r is Ok,
            out == before.pending_routes() + c.spec_routes(),
            after.history() == before.history().push(
                Hook::ComponentLoad(before.spec_components().len() as usize),
            ) + component_exports(before.routes_taken(), before.spec_components().len() + 1),
            after.routes_taken() == after.spec_components().len(),
    {
        let cs = mid.spec_components();
        let t = before.routes_taken() as int;
        assert(cs.subrange(t, cs.len() as int).drop_last() =~= before.spec_components().subrange(
            t,
            before.spec_components().len() as int,
        ));
    }

    /// Collecting routes twice with no load in between: the second collection
    /// hands over nothing, asks no plugin for its export, and leaves the
    /// manager as the first one left it.
    pub proof fn lemma_collect_routes_twice(
        before: Self,
        mid: Self,
        after: Self,
        first: Seq<C::Route>,
        second: Seq<C::Route>,
    )
        requires
            before.wf(),
            Self::routes_step(before, mid, first),
            Self::routes_step(mid, after, second),
        ensures
            first == before.pending_routes(),
            second.len() == 0,
            after.history() == mid.history(),
            after.spec_components() == mid.spec_components(),
            after.spec_middlewares() == mid.spec_middlewares(),
            after.spec_libraries() == mid.spec_libraries(),
            after.routes_taken() == mid.routes_taken(),
            after.filters_taken() == mid.filters_taken(),
    {
        let cs = mid.spec_components();
        assert(cs.subrange(cs.len() as int, cs.len() as int) =~= Seq::<C>::empty());
        assert(mid.history() + component_exports(cs.len(), cs.len()) =~= mid.history());
    }

    /// Collecting filters twice with no load in between: the second
    /// collection hands over nothing, asks no plugin for its export, and
    /// leaves the manager as the first one left it.
    pub proof fn lemma_collect_filters_twice(
        before: Self,
        mid: Self,
        after: Self,
        first: Seq<M::Filter>,
        second: Seq<M::Filter>,
    )
        requires
            before.wf(),
            Self::filters_step(before, mid, first),
            Self::filters_step(mid, after, second),
        ensures
            first == before.pending_filters(),
            second.len() == 0,
            after.history() == mid.history(),
            after.spec_components() == mid.spec_components(),
            after.spec_middlewares() == mid.spec_middlewares(),
            after.spec_libraries() == mid.spec_libraries(),
            after.routes_taken() == mid.routes_taken(),
            after.filters_taken() == mid.filters_taken(),
    {
        let ms = mid.spec_middlewares();
        assert(ms.subrange(ms.len() as int, ms.len() as int) =~= Seq::<M>::empty());
        assert(mid.history() + middleware_exports(ms.len(), ms.len()) =~= mid.history());
    }

    /// A filter plugin that loads is hooked once before anything else is
    /// asked of it, and the next collection hands over its filters after
    /// those still pending from earlier plugins, asking for its export once.
    pub proof fn lemma_load_middleware_then_collect(
        before: Self,
        mid: Self,
        after: Self,
        lib: L,
        m: M,
        r: Result<(), PluginError>,
        out: Seq<M::Filter>,
    )
        requires
            before.wf(),
            Self::middleware_load_step(before, mid, LoadOutcome::Constructed(lib, m), r),
            Self::filters_step(mid, after, out),
        ensures
            r is Ok,
            out == before.pending_filters() + m.spec_middlewares(),
            after.history() == before.history().push(
                Hook::MiddlewareLoad(before.spec_middlewares().len() as usize),
            ) + middleware_exports(before.filters_taken(), before.spec_middlewares().len() + 1),
            after.filters_taken() == after.spec_middlewares().len(),
    {
        let ms = mid.spec_middlewares();
        let t = before.filters_taken() as int;
        assert(ms.subrange(t, ms.len() as int).drop_last() =~= before.spec_middlewares().subrange(
            t,
            before.spec_middlewares().len() as int,
        ));
    }

    /// Hands over the routes of every route plugin loaded since the last
    /// collection, plugin after plugin in load order.
    ///
    /// Each plugin's export is asked for once over its lifetime and its
    /// descriptor is consumed at once, so no buffer is taken over twice; a
    /// second collection with no load in between hands over nothing.
    pub fn get_routes(&mut self) -> (r: Vec<C::Route>)
        requires
            old(self).wf(),
        ensures
            final(self).wf(),
            Self::routes_step(*old(self), *final(self), r@),
    {
        let n = self.components.len();
        let start = self.routes_taken;
        let mut out: Vec<C::Route> = Vec::new();
        let mut i = start;
        while i < n
            invariant
                start == old(self).routes_taken,
                n == self.components@.len(),
                start <= i <= n,
                self.components@ == old(self).components@,
                self.middlewares@ == old(self).middlewares@,
                self.loaded_libs@ == old(self).loaded_libs@,
                self.routes_taken == old(self).routes_taken,
                self.filters_taken == old(self).filters_taken,
                self.filters_taken <= self.middlewares@.len(),
                out@ == routes_of(self.components@.subrange(start as int, i as int)),
                self.history@ == old(self).history@ + component_exports(start as nat, i as nat),
            decreases n - i,
        {
            let descriptor = self.components[i].routes();
            self.history = Ghost(self.history@.push(Hook::ComponentExport(i)));
            let mut taken = descriptor.reconstruct();
            out.append(&mut taken);
            proof {
                let cs = self.components@;
                assert(cs.subrange(start as int, i + 1).drop_last() =~= cs.subrange(
                    start as int,
                    i as int,
                ));
                assert(component_exports(start as nat, i as nat).push(Hook::ComponentExport(i))
                    =~= component_exports(start as nat, (i + 1) as nat));
                assert(old(self).history@ + component_exports(start as nat, (i + 1) as nat)
                    =~= old(self).history@ + component_exports(start as nat, i as nat).push(
                    Hook::ComponentExport(i),
                ));
            }
            i = i + 1;
        }
        self.routes_taken = n;
        out
    }

    /// Hands over, each in an adapter, the filters of every filter plugin
    /// loaded since the last collection, plugin after plugin in load order.
    ///
    /// Each plugin's export is asked for once over its lifetime and its
    /// descriptor is consumed at once, so no buffer is taken over twice; a
    /// second collection with no load in between hands over nothing.
    pub fn get_middlewares(&mut self) -> (r: Vec<DynFairing<M::Filter>>)
        requires
            old(self).wf(),
        ensures
            final(self).wf(),
            Self::filters_step(*old(self), *final(self), unwrapped(r@)),
    {
        let n = self.middlewares.len();
        let start = self.filters_taken;
        let mut out: Vec<DynFairing<M::Filter>> = Vec::new();
        let mut i = start;
        while i < n
            invariant
                start == old(self).filters_taken,
                n == self.middlewares@.len(),
                start <= i <= n,
                self.components@ == old(self).components@,
                self.middlewares@ == old(self).middlewares@,
                self.loaded_libs@ == old(self).loaded_libs@,
                self.routes_taken == old(self).routes_taken,
                self.filters_taken == old(self).filters_taken,
                self.routes_taken <= self.components@.len(),
                unwrapped(out@) == filters_of(self.middlewares@.subrange(start as int, i as int)),
                self.history@ == old(self).history@ + middleware_exports(start as nat, i as nat),
            decreases n - i,
        {
            let descriptor = self.middlewares[i].middlewares();
            self.history = Ghost(self.history@.push(Hook::MiddlewareExport(i)));
            let taken = descriptor.reconstruct();
            let ghost before = out@;
            let mut wrapped = wrap_all(taken);
            let ghost fresh = wrapped@;
            out.append(&mut wrapped);
            proof {
                let ms = self.middlewares@;
                assert(ms.subrange(start as int, i + 1).drop_last() =~= ms.subrange(
                    start as int,
                    i as int,
                ));
                assert(unwrapped(out@) =~= unwrapped(before) + unwrapped(fresh));
                assert(middleware_exports(start as nat, i as nat).push(Hook::MiddlewareExport(i))
                    =~= middleware_exports(start as nat, (i + 1) as nat));
                assert(old(self).history@ + middleware_exports(start as nat, (i + 1) as nat)
                    =~= old(self).history@ + middleware_exports(start as nat, i as nat).push(
                    Hook::MiddlewareExport(i),
                ));
            }
            i = i + 1;
        }
        self.filters_taken = n;
        out
    }
    /// Whether a plugin that declares `declared` as its interface version may
    /// have its entry point run: only on an exact match.
    pub fn accepts_abi(&self, declared: Option<u32>) -> (r: bool)
        ensures
            r == (declared == Some(ABI_VERSION)),
    {
        match declared {
            Some(v) => v == ABI_VERSION,
            None => false,
        }
    }

    /// Whether a library's symbol table listing names the registration
    /// symbol of route plugins. Advisory: `load_components` never asks.
    pub fn contains_component(&self, symbol_table: &[u8]) -> (r: bool)
        ensures
            r == occurs_in(symbol_table@, spec_component_symbol()),
    {
        let symbol = component_symbol();
        find_bytes(symbol_table, symbol.as_slice())
    }

    /// Whether a library's symbol table listing names the registration
    /// symbol of filter plugins. Advisory: `load_middleware` never asks.
    pub fn contains_middleware(&self, symbol_table: &[u8]) -> (r: bool)
        ensures
            r == occurs_in(symbol_table@, spec_middleware_symbol()),
    {
        let symbol = middleware_symbol();
        find_bytes(symbol_table, symbol.as_slice())
    }

    /// Retires every plugin and releases every library.
    ///
    /// Fires the unload hook of each filter plugin, in load order, then of
    /// each route plugin, in load order, each once; drops the plugin
    /// instances; then releases the libraries in the order they were opened.
    /// Afterwards all three collections are empty.
    pub fn unload(&mut self)
        requires
            old(self).wf(),
        ensures
            final(self).wf(),
            final(self).spec_components().len() == 0,
            final(self).spec_middlewares().len() == 0,
            final(self).spec_libraries().len() == 0,
            final(self).routes_taken() == 0,
            final(self).filters_taken() == 0,
            final(self).history() == old(self).history() + unload_events(
                old(self).spec_middlewares().len(),
                old(self).spec_components().len(),
                old(self).spec_libraries().len(),
            ),
    {
        let ghost h0 = self.history@;
        let k = self.middlewares.len();
        let mut i: usize = 0;
        while i < k
            invariant
                k == self.middlewares@.len(),
                i <= k,
                self.components@ == old(self).components@,
                self.middlewares@ == old(self).middlewares@,
                self.loaded_libs@ == old(self).loaded_libs@,
                h0 == old(self).history@,
                self.history@ == h0 + Seq::new(i as nat, |j: int| Hook::MiddlewareUnload(j as usize)),
            decreases k - i,
        {
            self.middlewares[i].on_middleware_unload();
            proof {
                assert(Seq::new(i as nat, |j: int| Hook::MiddlewareUnload(j as usize)).push(
                    Hook::MiddlewareUnload(i),
                ) =~= Seq::new((i + 1) as nat, |j: int| Hook::MiddlewareUnload(j as usize)));
            }
            self.history = Ghost(self.history@.push(Hook::MiddlewareUnload(i)));
            i = i + 1;
        }
        let ghost h1 = self.history@;
        let m = self.components.len();
        let mut i: usize = 0;
        while i < m
            invariant
                m == self.components@.len(),
                i <= m,
                self.components@ == old(self).components@,
                self.loaded_libs@ == old(self).loaded_libs@,
                self.history@ == h1 + Seq::new(i as nat, |j: int| Hook::ComponentUnload(j as usize)),
            decreases m - i,
        {
            self.components[i].on_component_unload();
            proof {
                assert(Seq::new(i as nat, |j: int| Hook::ComponentUnload(j as usize)).push(
                    Hook::ComponentUnload(i),
                ) =~= Seq::new((i + 1) as nat, |j: int| Hook::ComponentUnload(j as usize)));
            }
            self.history = Ghost(self.history@.push(Hook::ComponentUnload(i)));
            i = i + 1;
        }
        self.middlewares.clear();
        self.components.clear();
        self.routes_taken = 0;
        self.filters_taken = 0;
        let ghost h2 = self.history@;
        let l = self.loaded_libs.len();
        let mut i: usize = 0;
        while i < l
            invariant
                l == old(self).loaded_libs@.len(),
                i <= l,
                self.loaded_libs@.len() == l - i,
                self.components@.len() == 0,
                self.middlewares@.len() == 0,
                self.routes_taken == 0,
                self.filters_taken == 0,
                self.history@ == h2 + Seq::new(i as nat, |j: int| Hook::LibraryRelease(j as usize)),
            decreases l - i,
        {
            // the handle is dropped at the end of this iteration, which
            // closes the library
            let _released = self.loaded_libs.remove(0);
            proof {
                assert(Seq::new(i as nat, |j: int| Hook::LibraryRelease(j as usize)).push(
                    Hook::LibraryRelease(i),
                ) =~= Seq::new((i + 1) as nat, |j: int| Hook::LibraryRelease(j as usize)));
            }
            self.history = Ghost(self.history@.push(Hook::LibraryRelease(i)));
            i = i + 1;
        }
        proof {
            assert(self.history@ =~= old(self).history@ + unload_events(k as nat, m as nat, l as nat));
        }
    }
}


/// Puts each filter, in order, in an adapter of its own.
fn wrap_all<F>(items: Vec<F>) -> (r: Vec<DynFairing<F>>)
    ensures
        unwrapped(r@) == items@,
{
    let ghost all = items@;
    let mut rest = items;
    let mut out: Vec<DynFairing<F>> = Vec::new();
    while rest.len() > 0
        invariant
            unwrapped(out@) + rest@ == all,
        decreases rest@.len(),
    {
        let ghost done = out@;
        let ghost left = rest@;
        let item = rest.remove(0);
        out.push(DynFairing::from(item));
        proof {
            assert(unwrapped(out@) =~= unwrapped(done).push(item));
            assert(unwrapped(out@) + rest@ =~= unwrapped(done) + left);
        }
    }
    proof {
        assert(unwrapped(out@) =~= unwrapped(out@) + rest@);
    }
    out
}

} // verus!
