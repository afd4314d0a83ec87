use thingos::arch::ArchKernel;
use thingos::bundles::{BundleContext, Compositor, FramebufferDriver, KeyboardDriver};
use thingos::capgraph::{BundleId, EdgeId, Graph, GraphError, NodePattern, PropMap, Value, WatchReason};
use thingos::kernel::{Kernel, TaskId};

fn setup_graph() -> Graph {
    Graph::new()
}

#[test]
fn bundle_owns_nodes_it_creates() {
    let mut graph = setup_graph();
    let bundle = BundleId(1);
    let node = graph
        .fiat_node(bundle, vec!["Window".to_string()], PropMap::new())
        .expect("node creation");
    assert!(graph.is_owned_by(bundle, node).unwrap());
}

#[test]
fn forbids_cross_bundle_edge_creation_without_capability() {
    let mut graph = setup_graph();
    let a = BundleId(1);
    let b = BundleId(2);
    graph.fiat_node(a, vec!["Surface".to_string()], PropMap::new()).unwrap();
    let node_b1 = graph.fiat_node(b, vec!["Window".to_string()], PropMap::new()).unwrap();
    let node_b2 = graph.fiat_node(b, vec!["Cursor".to_string()], PropMap::new()).unwrap();

    let result = graph.link(a, "HAS_SURFACE".to_string(), node_b1, node_b2, PropMap::new());
    assert_eq!(result, Err(GraphError::Forbidden));
}

#[test]
fn allow_edges_into_owned_nodes() {
    let mut graph = setup_graph();
    let owner = BundleId(1);
    let other = BundleId(2);
    let owned = graph.fiat_node(owner, vec!["Surface".to_string()], PropMap::new()).unwrap();
    let node_other = graph.fiat_node(other, vec!["Window".to_string()], PropMap::new()).unwrap();

    let result = graph.link(owner, "HAS_SURFACE".to_string(), node_other, owned, PropMap::new());
    assert_eq!(result, Ok(EdgeId(2))); // 0 + 1 for owns edges, 2 for new link
}

#[test]
fn denies_property_writes_without_rights() {
    let mut graph = setup_graph();
    let a = BundleId(1);
    let b = BundleId(2);
    let node = graph.fiat_node(a, vec!["Window".to_string()], PropMap::new()).unwrap();

    let mut props = PropMap::new();
    props.insert("title".to_string(), Value::from_text("hi"));
    let res = graph.set_props(b, node, props);
    assert_eq!(res, Err(GraphError::Forbidden));
}

#[test]
fn watches_fire_on_creation_and_updates() {
    let mut graph = setup_graph();
    let bundle = BundleId(1);
    let pattern = NodePattern::default().with_label("KeyboardEvent");
    let watch_id = graph.watch_register(bundle, pattern).unwrap();

    let mut props = PropMap::new();
    props.insert("key".to_string(), Value::from_text("A"));
    let node = graph.fiat_node(bundle, vec!["KeyboardEvent".to_string()], props).unwrap();

    let mut events = graph.watch_poll(bundle);
    assert_eq!(events.len(), 1);
    assert_eq!(events[0].watch_id, watch_id);
    assert_eq!(events[0].node_id, node);
    assert_eq!(events[0].reason, WatchReason::NodeCreated);

    let mut props = PropMap::new();
    props.insert("key".to_string(), Value::from_text("B"));
    graph.set_props(bundle, node, props).unwrap();
    events = graph.watch_poll(bundle);
    assert_eq!(events.len(), 1);
    assert_eq!(events[0].reason, WatchReason::PropertiesChanged);
}

#[test]
fn kernel_launches_and_schedules_bundles() {
    let mut kernel = Kernel::new();
    let (bundle, task) = kernel.launch_bundle("framebuffer");
    assert_eq!(bundle, BundleId(1));
    assert_eq!(task, TaskId(0));

    let next = kernel.scheduler_mut().schedule_next();
    assert_eq!(next, Some(task));
}

#[test]
fn syscalls_delegate_to_graph() {
    let mut kernel = Kernel::new();
    let (bundle, _) = kernel.launch_bundle("keyboard");
    let node = kernel
        .syscall_graph_fiat_node(bundle, vec!["KeyboardEvent".to_string()], PropMap::new())
        .unwrap();
    let pattern = NodePattern::default().with_label("KeyboardEvent");
    let nodes = kernel.syscall_graph_get_nodes(bundle, &pattern).expect("query nodes");
    assert_eq!(nodes, vec![node]);
}

#[test]
fn framebuffer_driver_projects_resources() {
    let mut kernel = Kernel::new();
    let (bundle, task) = kernel.launch_bundle("framebuffer");
    let mut driver = FramebufferDriver::new();
    let mut ctx = BundleContext { kernel: &mut kernel, bundle, task };
    let (fb, surface) = driver.initialize(&mut ctx, 800, 600).unwrap();
    assert_eq!(driver.surface(), Some(surface));

    let pattern = NodePattern::default().with_label("Framebuffer");
    let nodes = ctx.kernel.syscall_graph_get_nodes(bundle, &pattern).unwrap();
    assert_eq!(nodes, vec![fb]);
}

#[test]
fn compositor_watches_surfaces_and_links_frames() {
    let mut kernel = Kernel::new();
    let (fb_bundle, fb_task) = kernel.launch_bundle("framebuffer");
    let mut fb_driver = FramebufferDriver::new();
    let mut fb_ctx = BundleContext { kernel: &mut kernel, bundle: fb_bundle, task: fb_task };
    let (fb, surface) = fb_driver.initialize(&mut fb_ctx, 640, 480).unwrap();

    let (comp_bundle, comp_task) = fb_ctx.kernel.launch_bundle("compositor");
    fb_ctx
        .kernel
        .grant_capability_edge(fb_bundle, comp_bundle, "CAN_READ", fb, PropMap::new(), None)
        .unwrap();
    fb_ctx
        .kernel
        .grant_capability_edge(fb_bundle, comp_bundle, "CAN_READ", surface, PropMap::new(), None)
        .unwrap();
    let mut link_props = PropMap::new();
    link_props.insert("kind".to_string(), Value::from_text("COMPOSES"));
    fb_ctx
        .kernel
        .grant_capability_edge(fb_bundle, comp_bundle, "CAN_LINK", fb, link_props, Some(surface))
        .unwrap();
    let mut compositor = Compositor::new();
    let mut comp_ctx = BundleContext { kernel: fb_ctx.kernel, bundle: comp_bundle, task: comp_task };
    compositor.register_surface_watch(&mut comp_ctx).unwrap();

    let mut dirty_props = PropMap::new();
    dirty_props.insert("dirty".to_string(), Value::Bool(true));
    comp_ctx.kernel.syscall_graph_set_props(fb_bundle, surface, dirty_props).unwrap();

    let events = compositor.poll(&mut comp_ctx);
    assert_eq!(events.len(), 1); // property change triggers watch visibility

    let edge = compositor
        .publish_frame_request(&mut comp_ctx, fb, surface)
        .expect("link composition");
    assert!(!comp_ctx.kernel.syscall_watch_poll(comp_bundle).is_empty());
    assert!(edge.0 >= 2);
}

#[test]
fn keyboard_driver_creates_events() {
    let mut kernel = Kernel::new();
    let (bundle, task) = kernel.launch_bundle("keyboard");
    let driver = KeyboardDriver;
    let mut ctx = BundleContext { kernel: &mut kernel, bundle, task };
    let node = driver.publish_key(&mut ctx, "A").unwrap();

    let pattern = NodePattern::default().with_label("KeyEvent");
    let visible = ctx.kernel.syscall_graph_get_nodes(bundle, &pattern).unwrap();
    assert_eq!(visible, vec![node]);
}

#[test]
fn arch_kernel_boots_tasks() {
    let mut arch = ArchKernel::new();
    arch.initialize_platform();
    let tasks = arch.launch_boot_bundles();
    assert_eq!(tasks.len(), 5);
    assert_eq!(tasks[0], TaskId(0));
}
