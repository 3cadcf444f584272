use vstd::prelude::*;

verus! {

/// A registrable unit of work bound to one [`crate::InitLevel`].
///
/// A layer exposes exactly two operations: `initialize`, run when the host
/// enters the layer's level, and `deinitialize`, run when the host leaves
/// it. A layer has no identity beyond its binding to a level, and its two
/// operations carry no contract: what they do is the registering
/// extension's own business. The controller only guarantees *which* layer
/// is invoked, and when.
pub trait ExtensionLayer: Sized {
    fn initialize(&mut self);

    fn deinitialize(&mut self);
}

/// The layer the default load routine registers at the `Scene` level.
///
/// Its `initialize` is where an embedding triggers its own type
/// registration; the embedding shell performs that work, as this library
/// treats it as an opaque capability. Its `deinitialize` is intentionally a
/// no-op: an extension author may replace this layer entirely (last
/// registration wins), so no cleanup may rely on it running.
pub struct DefaultLayer;

impl ExtensionLayer for DefaultLayer {
    fn initialize(&mut self) {
    }

    fn deinitialize(&mut self) {
        // Nothing: cleanup must not rely on this layer still being the one
        // registered at `Scene`.
    }
}

} // verus!
