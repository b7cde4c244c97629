use vstd::prelude::*;

use crate::descriptor::{export_items, DescriptorError, TransferDescriptor};

verus! {

/// Accumulates both the routes and the filters of one plugin, and hands each
/// kind over in its own transfer descriptor.
pub struct PluginExporter<R, F> {
    routes: Vec<R>,
    middlewares: Vec<F>,
}

impl<R, F> PluginExporter<R, F> {
    /// The routes added so far, in order.
    pub closed spec fn spec_routes(&self) -> Seq<R> {
        self.routes@
    }

    /// The filters added so far, in order.
    pub closed spec fn spec_middlewares(&self) -> Seq<F> {
        self.middlewares@
    }

    /// An exporter with no routes and no filters.
    pub fn new() -> (r: Self)
        ensures
            r.spec_routes() == Seq::<R>::empty(),
            r.spec_middlewares() == Seq::<F>::empty(),
    {
        PluginExporter { routes: Vec::new(), middlewares: Vec::new() }
    }

    /// Adds routes, in their order, after those already added.
    pub fn add_routes(self, routes: Vec<R>) -> (r: Self)
        ensures
            r.spec_routes() == self.spec_routes() + routes@,
            r.spec_middlewares() == self.spec_middlewares(),
    {
        let PluginExporter { routes: mut all, middlewares } = self;
        let mut more = routes;
        all.append(&mut more);
        PluginExporter { routes: all, middlewares }
    }

    /// Adds filters, in their order, after those already added.
    pub fn add_middlewares(self, middlewares: Vec<F>) -> (r: Self)
        ensures
            r.spec_routes() == self.spec_routes(),
            r.spec_middlewares() == self.spec_middlewares() + middlewares@,
    {
        let PluginExporter { routes, middlewares: mut all } = self;
        let mut more = middlewares;
        all.append(&mut more);
        PluginExporter { routes, middlewares: all }
    }

    /// Consumes the exporter and hands its routes over, in the order added.
    pub fn export_routes(self) -> (r: Result<TransferDescriptor<R>, DescriptorError>)
        ensures
            r matches Ok(d) ==> d@ == self.spec_routes(),
            r matches Err(e) ==> e == DescriptorError::CapacityMismatch,
    {
        export_items(self.routes)
    }

    /// Consumes the exporter and hands its filters over, in the order added.
    pub fn export_middlewares(self) -> (r: Result<TransferDescriptor<F>, DescriptorError>)
        ensures
            r matches Ok(d) ==> d@ == self.spec_middlewares(),
            r matches Err(e) ==> e == DescriptorError::CapacityMismatch,
    {
        export_items(self.middlewares)
    }
}

impl<R, F> Default for PluginExporter<R, F> {
    fn default() -> (r: Self)
        ensures
            r.spec_routes() == Seq::<R>::empty(),
            r.spec_middlewares() == Seq::<F>::empty(),
    {
        PluginExporter::new()
    }
}

} // verus!
