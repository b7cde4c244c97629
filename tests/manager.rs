use std::sync::{Arc, Mutex};

use arq_plugins::component::{Component, ComponentFactory};
use arq_plugins::descriptor::TransferDescriptor;
use arq_plugins::manager::{LoadOutcome, PluginError, PluginManager, ABI_VERSION};
use arq_plugins::middleware::{MiddlewareComponent, MiddlewareFactory};
use arq_plugins::symbols::{abi_symbol, component_symbol, find_bytes, middleware_symbol};

type Log = Arc<Mutex<Vec<String>>>;

fn new_log() -> Log {
    Arc::new(Mutex::new(Vec::new()))
}

fn entries(log: &Log) -> Vec<String> {
    log.lock().unwrap().clone()
}

struct FakeLib {
    id: u32,
    log: Log,
}

impl Drop for FakeLib {
    fn drop(&mut self) {
        self.log.lock().unwrap().push(format!("release lib{}", self.id));
    }
}

struct Routes {
    name: &'static str,
    routes: Vec<String>,
    log: Log,
}

impl Component for Routes {
    type Route = String;

    fn name(&self) -> &'static str {
        self.name
    }

    fn on_component_load(&self) {
        self.log.lock().unwrap().push(format!("load {}", self.name));
    }

    fn on_component_unload(&self) {
        self.log.lock().unwrap().push(format!("unload {}", self.name));
    }

    fn routes(&self) -> TransferDescriptor<String> {
        self.log.lock().unwrap().push(format!("export {}", self.name));
        ComponentFactory::new().add_routes(self.routes.clone()).export().unwrap()
    }
}

struct Filters {
    name: &'static str,
    filters: Vec<u32>,
    log: Log,
}

impl MiddlewareComponent for Filters {
    type Filter = u32;

    fn name(&self) -> &'static str {
        self.name
    }

    fn on_middleware_load(&self) {
        self.log.lock().unwrap().push(format!("load {}", self.name));
    }

    fn on_middleware_unload(&self) {
        self.log.lock().unwrap().push(format!("unload {}", self.name));
    }

    fn middlewares(&self) -> TransferDescriptor<u32> {
        self.log.lock().unwrap().push(format!("export {}", self.name));
        MiddlewareFactory::new().add_middlewares(self.filters.clone()).export().unwrap()
    }
}

/// A plugin that keeps the default hooks.
struct Quiet;

impl Component for Quiet {
    type Route = String;

    fn name(&self) -> &'static str {
        "quiet"
    }

    fn routes(&self) -> TransferDescriptor<String> {
        ComponentFactory::new().add_route("/quiet".to_string()).export().unwrap()
    }
}

type Manager = PluginManager<FakeLib, Routes, Filters>;

fn lib(id: u32, log: &Log) -> FakeLib {
    FakeLib { id, log: log.clone() }
}

fn routes(name: &'static str, rs: &[&str], log: &Log) -> Routes {
    Routes { name, routes: rs.iter().map(|r| r.to_string()).collect(), log: log.clone() }
}

fn filters(name: &'static str, fs: &[u32], log: &Log) -> Filters {
    Filters { name, filters: fs.to_vec(), log: log.clone() }
}

#[test]
fn new_manager_is_empty() {
    let mut m: Manager = PluginManager::new();
    assert_eq!(m.library_count(), 0);
    assert_eq!(m.component_count(), 0);
    assert_eq!(m.middleware_count(), 0);
    assert!(m.get_routes().is_empty());
    assert!(m.get_middlewares().is_empty());
}

#[test]
fn loading_a_component_fires_its_load_hook_once() {
    let log = new_log();
    let mut m: Manager = PluginManager::new();
    let r = m.load_components(LoadOutcome::Constructed(lib(0, &log), routes("users", &["/u"], &log)));
    assert_eq!(r, Ok(()));
    assert_eq!(entries(&log), vec!["load users"]);
    assert_eq!(m.library_count(), 1);
    assert_eq!(m.component_count(), 1);
    assert_eq!(m.middleware_count(), 0);
    assert_eq!(m.get_routes(), vec!["/u"]);
    assert_eq!(entries(&log), vec!["load users", "export users"]);
}

#[test]
fn loading_a_middleware_fires_its_load_hook_once() {
    let log = new_log();
    let mut m: Manager = PluginManager::new();
    let r = m.load_middleware(LoadOutcome::Constructed(lib(0, &log), filters("auth", &[1, 2], &log)));
    assert_eq!(r, Ok(()));
    assert_eq!(entries(&log), vec!["load auth"]);
    assert_eq!(m.library_count(), 1);
    assert_eq!(m.middleware_count(), 1);
    let got: Vec<u32> = m.get_middlewares().into_iter().map(|d| d.into_inner()).collect();
    assert_eq!(got, vec![1, 2]);
    assert_eq!(entries(&log), vec!["load auth", "export auth"]);
}

#[test]
fn plugin_name_is_stable() {
    let log = new_log();
    let p = routes("users", &[], &log);
    assert_eq!(p.name(), "users");
    assert_eq!(p.name(), p.name());
    let f = filters("auth", &[], &log);
    assert_eq!(f.name(), f.name());
}

#[test]
fn default_hooks_do_nothing() {
    let mut m: PluginManager<u8, Quiet, Filters> = PluginManager::new();
    assert_eq!(m.load_components(LoadOutcome::Constructed(3, Quiet)), Ok(()));
    assert_eq!(m.get_routes(), vec!["/quiet"]);
    m.unload();
    assert_eq!(m.component_count(), 0);
}

#[test]
fn open_failure_is_a_load_error_and_changes_nothing() {
    let log = new_log();
    let mut m: Manager = PluginManager::new();
    m.load_components(LoadOutcome::Constructed(lib(0, &log), routes("a", &[], &log))).unwrap();
    m.load_middleware(LoadOutcome::Constructed(lib(1, &log), filters("b", &[], &log))).unwrap();
    assert_eq!(m.load_components(LoadOutcome::OpenFailed), Err(PluginError::LoadError));
    assert_eq!(m.load_middleware(LoadOutcome::OpenFailed), Err(PluginError::LoadError));
    assert_eq!(m.library_count(), 2);
    assert_eq!(m.component_count(), 1);
    assert_eq!(m.middleware_count(), 1);
    assert_eq!(entries(&log), vec!["load a", "load b"]);
}

#[test]
fn missing_symbol_keeps_the_library_only() {
    let log = new_log();
    let mut m: Manager = PluginManager::new();
    assert_eq!(m.load_components(LoadOutcome::SymbolMissing(lib(0, &log))), Err(PluginError::SymbolNotFound));
    assert_eq!(m.library_count(), 1);
    assert_eq!(m.component_count(), 0);
    assert_eq!(m.middleware_count(), 0);
    assert_eq!(m.load_middleware(LoadOutcome::SymbolMissing(lib(1, &log))), Err(PluginError::SymbolNotFound));
    assert_eq!(m.library_count(), 2);
    assert_eq!(m.component_count(), 0);
    assert_eq!(m.middleware_count(), 0);
    assert!(entries(&log).is_empty());
    m.unload();
    assert_eq!(entries(&log), vec!["release lib0", "release lib1"]);
}

#[test]
fn unload_fires_middleware_hooks_then_component_hooks_then_releases() {
    let log = new_log();
    let mut m: Manager = PluginManager::new();
    m.load_components(LoadOutcome::Constructed(lib(0, &log), routes("c1", &[], &log))).unwrap();
    m.load_middleware(LoadOutcome::Constructed(lib(1, &log), filters("m1", &[], &log))).unwrap();
    m.load_components(LoadOutcome::Constructed(lib(2, &log), routes("c2", &[], &log))).unwrap();
    m.load_middleware(LoadOutcome::Constructed(lib(3, &log), filters("m2", &[], &log))).unwrap();
    assert_eq!(m.load_components(LoadOutcome::SymbolMissing(lib(4, &log))), Err(PluginError::SymbolNotFound));
    log.lock().unwrap().clear();
    m.unload();
    assert_eq!(
        entries(&log),
        vec![
            "unload m1",
            "unload m2",
            "unload c1",
            "unload c2",
            "release lib0",
            "release lib1",
            "release lib2",
            "release lib3",
            "release lib4",
        ]
    );
    assert_eq!(m.library_count(), 0);
    assert_eq!(m.component_count(), 0);
    assert_eq!(m.middleware_count(), 0);
}

#[test]
fn unload_on_empty_manager_does_nothing() {
    let mut m: Manager = PluginManager::new();
    m.unload();
    assert_eq!(m.library_count(), 0);
}

#[test]
fn routes_keep_plugin_order_and_export_order() {
    let log = new_log();
    let mut m: Manager = PluginManager::new();
    m.load_components(LoadOutcome::Constructed(lib(0, &log), routes("a", &["/a1", "/a2"], &log))).unwrap();
    m.load_components(LoadOutcome::Constructed(lib(1, &log), routes("b", &["/b1"], &log))).unwrap();
    m.load_components(LoadOutcome::Constructed(lib(2, &log), routes("c", &[], &log))).unwrap();
    assert_eq!(m.get_routes(), vec!["/a1", "/a2", "/b1"]);
}

#[test]
fn second_route_collection_is_empty() {
    let log = new_log();
    let mut m: Manager = PluginManager::new();
    m.load_components(LoadOutcome::Constructed(lib(0, &log), routes("a", &["/a"], &log))).unwrap();
    assert_eq!(m.get_routes(), vec!["/a"]);
    assert!(m.get_routes().is_empty());
    assert_eq!(entries(&log), vec!["load a", "export a"]);
    m.load_components(LoadOutcome::Constructed(lib(1, &log), routes("b", &["/b"], &log))).unwrap();
    assert_eq!(m.get_routes(), vec!["/b"]);
    assert_eq!(entries(&log), vec!["load a", "export a", "load b", "export b"]);
}

#[test]
fn second_filter_collection_is_empty() {
    let log = new_log();
    let mut m: Manager = PluginManager::new();
    m.load_middleware(LoadOutcome::Constructed(lib(0, &log), filters("a", &[1, 2], &log))).unwrap();
    m.load_middleware(LoadOutcome::Constructed(lib(1, &log), filters("b", &[3], &log))).unwrap();
    let first: Vec<u32> = m.get_middlewares().into_iter().map(|d| d.into_inner()).collect();
    assert_eq!(first, vec![1, 2, 3]);
    assert!(m.get_middlewares().is_empty());
    assert_eq!(entries(&log), vec!["load a", "load b", "export a", "export b"]);
}

#[test]
fn collections_after_unload_and_reload_start_afresh() {
    let log = new_log();
    let mut m: Manager = PluginManager::new();
    m.load_components(LoadOutcome::Constructed(lib(0, &log), routes("a", &["/a"], &log))).unwrap();
    assert_eq!(m.get_routes(), vec!["/a"]);
    m.unload();
    m.load_components(LoadOutcome::Constructed(lib(1, &log), routes("b", &["/b"], &log))).unwrap();
    assert_eq!(m.get_routes(), vec!["/b"]);
}

#[test]
fn symbol_listing_with_component_entry_is_recognised() {
    let m: Manager = PluginManager::new();
    let listing = b"0000000000001120 T _arq_component_constructor\n                 U malloc\n";
    assert!(m.contains_component(listing));
    assert!(!m.contains_middleware(listing));
}

#[test]
fn symbol_listing_with_middleware_entry_is_recognised() {
    let m: Manager = PluginManager::new();
    let listing = b"0000000000001120 T _arq_middleware_constructor\n";
    assert!(m.contains_middleware(listing));
    assert!(!m.contains_component(listing));
    assert!(!m.contains_component(b""));
    assert!(!m.contains_middleware(b"_arq_middleware_construct"));
}

#[test]
fn registration_symbols_spell_their_names() {
    assert_eq!(component_symbol(), b"_arq_component_constructor".to_vec());
    assert_eq!(middleware_symbol(), b"_arq_middleware_constructor".to_vec());
    assert_eq!(abi_symbol(), b"_arq_abi_version".to_vec());
}

#[test]
fn byte_search_edge_cases() {
    assert!(find_bytes(b"abc", b""));
    assert!(find_bytes(b"", b""));
    assert!(!find_bytes(b"ab", b"abc"));
    assert!(find_bytes(b"abc", b"abc"));
    assert!(find_bytes(b"xxabc", b"abc"));
    assert!(!find_bytes(b"abxc", b"abc"));
    assert!(find_bytes(b"aab", b"ab"));
}

#[test]
fn only_the_matching_interface_version_is_accepted() {
    let m: Manager = PluginManager::new();
    assert!(m.accepts_abi(Some(ABI_VERSION)));
    assert!(m.accepts_abi(Some(1)));
    assert!(!m.accepts_abi(Some(2)));
    assert!(!m.accepts_abi(Some(0)));
    assert!(!m.accepts_abi(None));
}

#[test]
fn incompatible_plugin_keeps_the_library_only() {
    let log = new_log();
    let mut m: Manager = PluginManager::new();
    assert_eq!(m.load_components(LoadOutcome::Incompatible(lib(0, &log))), Err(PluginError::AbiMismatch));
    assert_eq!(m.load_middleware(LoadOutcome::Incompatible(lib(1, &log))), Err(PluginError::AbiMismatch));
    assert_eq!(m.library_count(), 2);
    assert_eq!(m.component_count(), 0);
    assert_eq!(m.middleware_count(), 0);
    assert!(m.get_routes().is_empty());
    assert!(entries(&log).is_empty());
}
