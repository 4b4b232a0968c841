use bundler_core::module::ChunkGraph;
use bundler_core::module::ExportsInfo;
use bundler_core::module::ModuleGraphModule;
use bundler_core::module::ModuleIdentifier;
use bundler_core::module::ModuleIssuer;
use bundler_core::module::ModuleProfile;

fn node(id: usize) -> ModuleGraphModule {
    ModuleGraphModule::new(ModuleIdentifier(id), ExportsInfo(0))
}

#[test]
fn graph_issuer_set_if_unset_is_set_once() {
    let a = ModuleIdentifier(1);
    let c = ModuleIdentifier(3);
    let mut n = node(2);
    assert_eq!(*n.get_issuer(), ModuleIssuer::Unset);
    n.set_issuer_if_unset(Some(a));
    assert_eq!(*n.get_issuer(), ModuleIssuer::Present(a));
    // a second call never changes the stored issuer, whatever its candidate
    n.set_issuer_if_unset(Some(c));
    assert_eq!(*n.get_issuer(), ModuleIssuer::Present(a));
    n.set_issuer_if_unset(None);
    assert_eq!(*n.get_issuer(), ModuleIssuer::Present(a));
}

#[test]
fn graph_issuer_set_if_unset_with_absent_candidate() {
    let mut n = node(1);
    n.set_issuer_if_unset(None);
    assert_eq!(*n.get_issuer(), ModuleIssuer::Absent);
    // the transition away from `Unset` happened, so it is still set-once
    n.set_issuer_if_unset(Some(ModuleIdentifier(9)));
    assert_eq!(*n.get_issuer(), ModuleIssuer::Absent);
}

#[test]
fn graph_issuer_overwrite_is_unconditional() {
    let mut n = node(1);
    n.set_issuer_if_unset(Some(ModuleIdentifier(5)));
    n.set_issuer(ModuleIssuer::Present(ModuleIdentifier(7)));
    assert_eq!(*n.get_issuer(), ModuleIssuer::Present(ModuleIdentifier(7)));
}

#[test]
fn graph_connection_add_remove_is_clean() {
    let mut n = node(1);
    // removing a non-member then adding equals a single clean add
    n.remove_outgoing_connection(&4);
    n.add_outgoing_connection(4);
    assert!(n.outgoing_connections().contains(&4));
    assert_eq!(n.outgoing_connections().len(), 1);
    // adding then removing cancels the add
    n.add_outgoing_connection(9);
    n.remove_outgoing_connection(&9);
    assert!(!n.outgoing_connections().contains(&9));
    assert_eq!(n.outgoing_connections().len(), 1);
    // duplicate adds are idempotent
    n.add_incoming_connection(2);
    n.add_incoming_connection(2);
    assert_eq!(n.incoming_connections().len(), 1);
    // removing a non-member is a no-op, not an error
    n.remove_incoming_connection(&77);
    assert_eq!(n.incoming_connections().len(), 1);
}

#[test]
fn graph_end_to_end_three_modules() {
    let a = ModuleIdentifier(0);
    let b = ModuleIdentifier(1);
    let c = ModuleIdentifier(2);
    let mut node_a = ModuleGraphModule::new(a, ExportsInfo(10));
    let mut node_b = ModuleGraphModule::new(b, ExportsInfo(11));
    let mut node_c = ModuleGraphModule::new(c, ExportsInfo(12));
    // one dependency each: a -> b via edge 1, b -> c via edge 2, with the
    // paired mutation convention
    node_a.add_outgoing_connection(1);
    node_b.add_incoming_connection(1);
    node_b.add_outgoing_connection(2);
    node_c.add_incoming_connection(2);
    assert_eq!(node_a.outgoing_connections().len(), 1);
    assert!(node_a.outgoing_connections().contains(&1));
    assert_eq!(node_b.incoming_connections().len(), 1);
    assert!(node_b.incoming_connections().contains(&1));
    assert_eq!(node_b.outgoing_connections().len(), 1);
    assert!(node_b.outgoing_connections().contains(&2));
    assert_eq!(node_c.incoming_connections().len(), 1);
    assert!(node_c.incoming_connections().contains(&2));
    // issuer of b: set-if-unset to a, then to c, still reports a
    node_b.set_issuer_if_unset(Some(a));
    node_b.set_issuer_if_unset(Some(c));
    assert_eq!(*node_b.get_issuer(), ModuleIssuer::Present(a));
}

#[test]
fn graph_profile_is_last_write_wins() {
    let mut n = node(1);
    assert!(n.get_profile().is_none());
    n.set_profile(Box::new(ModuleProfile { factory_ms: 1, building_ms: 2 }));
    n.set_profile(Box::new(ModuleProfile { factory_ms: 3, building_ms: 4 }));
    let p = n.get_profile().unwrap();
    assert_eq!(p.factory_ms, 3);
    assert_eq!(p.building_ms, 4);
}

#[test]
fn graph_module_display_id_lookup() {
    let m = ModuleIdentifier(3);
    let n = ModuleGraphModule::new(m, ExportsInfo(0));
    let mut cg = ChunkGraph::new();
    assert!(cg.get_module_id(m).is_none());
    cg.set_module_id(m, String::from("./src/main.js"));
    assert_eq!(n.id(&cg), "./src/main.js");
    // other modules are untouched
    assert!(cg.get_module_id(ModuleIdentifier(4)).is_none());
}

#[test]
fn graph_new_node_starts_empty() {
    let n = node(8);
    assert_eq!(n.module_identifier, ModuleIdentifier(8));
    assert!(n.incoming_connections().is_empty());
    assert!(n.outgoing_connections().is_empty());
    assert!(n.get_incoming_connections_unordered().is_empty());
    assert!(n.get_outgoing_connections_unordered().is_empty());
    assert_eq!(*n.get_issuer(), ModuleIssuer::Unset);
    assert!(n.pre_order_index.is_none());
    assert!(n.post_order_index.is_none());
    assert!(n.profile.is_none());
    assert!(!n.is_async);
    assert!(n.depth.is_none());
    assert!(n.all_dependencies.is_empty());
    assert!(n.optimization_bailout.is_empty());
}
