//! Initialization and shutdown controller for a native extension loaded by a
//! host application.
//!
//! The host exposes a small set of ordered lifecycle phases ([`InitLevel`])
//! and calls into the extension once at load time; afterwards it calls back
//! to bring each phase up and later tear it down. An [`InitHandle`] owns at
//! most one [`ExtensionLayer`] per level and dispatches those callbacks; the
//! [`boundary`] module holds the decisions made at load time and at each
//! callback, stated and proved over the handle's map view.

pub mod boundary;
pub mod handle;
pub mod layer;
pub mod level;

pub use boundary::EditorRunBehavior;
pub use boundary::ExtensionLibrary;
pub use handle::InitHandle;
pub use layer::DefaultLayer;
pub use layer::ExtensionLayer;
pub use level::InitLevel;
