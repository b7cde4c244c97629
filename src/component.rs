use vstd::prelude::*;

use crate::descriptor::{export_items, DescriptorError, TransferDescriptor};

verus! {

/// A plugin that contributes endpoint handlers to the host.
///
/// Implemented by plugin authors. The manager fires `on_component_load` once
/// right after taking the instance over and `on_component_unload` once at
/// shutdown, and asks for the routes at most once.
pub trait Component: Send + Sync {
    /// The host's endpoint handler type; the library only moves its values.
    type Route;

    /// The identity the plugin reports. A plugin proved against this trait
    /// states its own; the default is the empty name.
    open spec fn spec_name(&self) -> Seq<char> {
        Seq::empty()
    }

    /// The handlers the plugin advertises, in export order. A plugin proved
    /// against this trait states its own; the default advertises none.
    open spec fn spec_routes(&self) -> Seq<Self::Route> {
        Seq::empty()
    }

    /// Returns the plugin's identity: the same on every call.
    fn name(&self) -> (r: &'static str)
        ensures
            r@ == self.spec_name(),
    ;

    /// Fired once, before the plugin's routes can be collected.
    fn on_component_load(&self) {
    }

    /// Fired once, when the manager retires the plugin.
    fn on_component_unload(&self) {
    }

    /// Hands over the advertised handlers.
    fn routes(&self) -> (r: TransferDescriptor<Self::Route>)
        ensures
            r@ == self.spec_routes(),
    ;
}

/// Accumulates the routes of one plugin and hands them over in one
/// transfer descriptor.
pub struct ComponentFactory<R> {
    routes: Vec<R>,
}

impl<R> ComponentFactory<R> {
    /// The routes added so far, in order.
    pub closed spec fn view(&self) -> Seq<R> {
        self.routes@
    }

    /// A factory with no routes.
    pub fn new() -> (r: Self)
        ensures
            r@ == Seq::<R>::empty(),
    {
        ComponentFactory { routes: Vec::new() }
    }

    /// Adds one route after those already added.
    pub fn add_route(self, route: R) -> (r: Self)
        ensures
            r@ == self@.push(route),
    {
        let mut routes = self.routes;
        routes.push(route);
        ComponentFactory { routes }
    }

    /// Adds several routes, in their order, after those already added.
    pub fn add_routes(self, routes: Vec<R>) -> (r: Self)
        ensures
            r@ == self@ + routes@,
    {
        let mut all = self.routes;
        let mut more = routes;
        all.append(&mut more);
        ComponentFactory { routes: all }
    }

    /// Consumes the factory and hands its routes over, in the order added.
    pub fn export(self) -> (r: Result<TransferDescriptor<R>, DescriptorError>)
        ensures
            r matches Ok(d) ==> d@ == self@,
            r matches Err(e) ==> e == DescriptorError::CapacityMismatch,
    {
        export_items(self.routes)
    }
}

} // verus!
