use gdext_init::handle::InitHandle;
use gdext_init::layer::ExtensionLayer;
use gdext_init::level::InitLevel;

/// A layer that counts its invocations, so a test can see which layer ran.
struct CountingLayer {
    id: u32,
    inits: u32,
    deinits: u32,
}

impl CountingLayer {
    fn new(id: u32) -> Self {
        CountingLayer {
            id,
            inits: 0,
            deinits: 0,
        }
    }
}

impl ExtensionLayer for CountingLayer {
    fn initialize(&mut self) {
        self.inits += 1;
    }

    fn deinitialize(&mut self) {
        self.deinits += 1;
    }
}

#[test]
fn empty_handle_defaults_to_scene() {
    let handle: InitHandle<CountingLayer> = InitHandle::new();
    assert_eq!(handle.lowest_init_level(), InitLevel::Scene);
}

#[test]
fn default_handle_is_empty() {
    let handle: InitHandle<CountingLayer> = Default::default();
    assert_eq!(handle.lowest_init_level(), InitLevel::Scene);
    assert!(handle.layer_at(InitLevel::Core).is_none());
    assert!(handle.layer_at(InitLevel::Servers).is_none());
    assert!(handle.layer_at(InitLevel::Scene).is_none());
    assert!(handle.layer_at(InitLevel::Editor).is_none());
}

#[test]
fn lowest_init_level_is_the_minimum_registration() {
    let mut handle = InitHandle::new();
    handle.register_layer(InitLevel::Editor, CountingLayer::new(1));
    assert_eq!(handle.lowest_init_level(), InitLevel::Editor);
    handle.register_layer(InitLevel::Servers, CountingLayer::new(2));
    assert_eq!(handle.lowest_init_level(), InitLevel::Servers);
    handle.register_layer(InitLevel::Core, CountingLayer::new(3));
    assert_eq!(handle.lowest_init_level(), InitLevel::Core);
}

#[test]
fn scenario_core_and_scene() {
    let mut handle = InitHandle::new();
    handle.register_layer(InitLevel::Core, CountingLayer::new(1));
    handle.register_layer(InitLevel::Scene, CountingLayer::new(2));
    assert_eq!(handle.lowest_init_level(), InitLevel::Core);

    assert!(handle.run_init_function(InitLevel::Core));
    let a = handle.layer_at(InitLevel::Core).unwrap();
    assert_eq!(a.id, 1);
    assert_eq!(a.inits, 1);

    assert!(!handle.run_init_function(InitLevel::Servers));

    assert!(handle.run_init_function(InitLevel::Scene));
    let b = handle.layer_at(InitLevel::Scene).unwrap();
    assert_eq!(b.id, 2);
    assert_eq!(b.inits, 1);

    // The layer at Core was not touched by the later dispatches.
    assert_eq!(handle.layer_at(InitLevel::Core).unwrap().inits, 1);
}

#[test]
fn dispatch_at_unregistered_level_is_a_noop() {
    let mut handle: InitHandle<CountingLayer> = InitHandle::new();
    assert!(!handle.run_init_function(InitLevel::Core));
    assert!(!handle.run_init_function(InitLevel::Servers));
    assert!(!handle.run_init_function(InitLevel::Scene));
    assert!(!handle.run_init_function(InitLevel::Editor));
    assert!(!handle.run_deinit_function(InitLevel::Core));
    assert!(!handle.run_deinit_function(InitLevel::Editor));

    // With one registration elsewhere, a miss still touches nothing.
    handle.register_layer(InitLevel::Editor, CountingLayer::new(7));
    assert!(!handle.run_init_function(InitLevel::Core));
    let layer = handle.layer_at(InitLevel::Editor).unwrap();
    assert_eq!(layer.inits, 0);
    assert_eq!(layer.deinits, 0);
}

#[test]
fn last_registration_at_a_level_wins() {
    let mut handle = InitHandle::new();
    handle.register_layer(InitLevel::Editor, CountingLayer::new(1));
    handle.register_layer(InitLevel::Editor, CountingLayer::new(2));

    assert!(handle.run_init_function(InitLevel::Editor));
    let layer = handle.layer_at(InitLevel::Editor).unwrap();
    assert_eq!(layer.id, 2);
    assert_eq!(layer.inits, 1);
}

#[test]
fn deinit_dispatches_to_the_registered_layer() {
    let mut handle = InitHandle::new();
    handle.register_layer(InitLevel::Servers, CountingLayer::new(4));

    assert!(handle.run_deinit_function(InitLevel::Servers));
    assert!(!handle.run_deinit_function(InitLevel::Scene));

    let layer = handle.layer_at(InitLevel::Servers).unwrap();
    assert_eq!(layer.deinits, 1);
    assert_eq!(layer.inits, 0);
}
