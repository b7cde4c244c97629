use vstd::prelude::*;

use crate::descriptor::{export_items, DescriptorError, TransferDescriptor};

verus! {

/// A plugin that contributes request filters to the host.
///
/// Implemented by plugin authors. The manager fires `on_middleware_load` once
/// right after taking the instance over and `on_middleware_unload` once at
/// shutdown, and asks for the filters at most once.
pub trait MiddlewareComponent: Send + Sync {
    /// The host's filter type; the library only moves its values.
    type Filter;

    /// The identity the plugin reports. A plugin proved against this trait
    /// states its own; the default is the empty name.
    open spec fn spec_name(&self) -> Seq<char> {
        Seq::empty()
    }

    /// The filters the plugin advertises, in export order. A plugin proved
    /// against this trait states its own; the default advertises none.
    open spec fn spec_middlewares(&self) -> Seq<Self::Filter> {
        Seq::empty()
    }

    /// Returns the plugin's identity: the same on every call.
    fn name(&self) -> (r: &'static str)
        ensures
            r@ == self.spec_name(),
    ;

    /// Fired once, before the plugin's filters can be collected.
    fn on_middleware_load(&self) {
    }

    /// Fired once, when the manager retires the plugin.
    fn on_middleware_unload(&self) {
    }

    /// Hands over the advertised filters.
    fn middlewares(&self) -> (r: TransferDescriptor<Self::Filter>)
        ensures
            r@ == self.spec_middlewares(),
    ;
}

/// Accumulates the filters of one plugin and hands them over in one
/// transfer descriptor.
pub struct MiddlewareFactory<F> {
    middlewares: Vec<F>,
}

impl<F> MiddlewareFactory<F> {
    /// The filters added so far, in order.
    pub closed spec fn view(&self) -> Seq<F> {
        self.middlewares@
    }

    /// A factory with no filters.
    pub fn new() -> (r: Self)
        ensures
            r@ == Seq::<F>::empty(),
    {
        MiddlewareFactory { middlewares: Vec::new() }
    }

    /// Adds one filter after those already added.
    pub fn add_middleware(self, middleware: F) -> (r: Self)
        ensures
            r@ == self@.push(middleware),
    {
        let mut middlewares = self.middlewares;
        middlewares.push(middleware);
        MiddlewareFactory { middlewares }
    }

    /// Adds several filters, in their order, after those already added.
    pub fn add_middlewares(self, middlewares: Vec<F>) -> (r: Self)
        ensures
            r@ == self@ + middlewares@,
    {
        let mut all = self.middlewares;
        let mut more = middlewares;
        all.append(&mut more);
        MiddlewareFactory { middlewares: all }
    }

    /// Consumes the factory and hands its filters over, in the order added.
    pub fn export(self) -> (r: Result<TransferDescriptor<F>, DescriptorError>)
        ensures
            r matches Ok(d) ==> d@ == self@,
            r matches Err(e) ==> e == DescriptorError::CapacityMismatch,
    {
        export_items(self.middlewares)
    }
}

/// Holds one filter taken over from a plugin, so that the host can attach it
/// through its own concrete filter interface; each hook of that interface
/// forwards to the wrapped filter.
pub struct DynFairing<F> {
    inner: F,
}

impl<F> DynFairing<F> {
    /// The wrapped filter.
    pub closed spec fn view(&self) -> F {
        self.inner
    }

    /// Wraps `inner`.
    pub fn from(inner: F) -> (r: Self)
        ensures
            r@ == inner,
    {
        DynFairing { inner }
    }

    /// The wrapped filter, to forward a hook to.
    pub fn inner(&self) -> (r: &F)
        ensures
            *r == self@,
    {
        &self.inner
    }

    /// Gives the wrapped filter back.
    pub fn into_inner(self) -> (r: F)
        ensures
            r == self@,
    {
        self.inner
    }
}

} // verus!
