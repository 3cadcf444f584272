use vstd::prelude::*;

use crate::handle::is_lowest_registered;
use crate::handle::InitHandle;
use crate::layer::DefaultLayer;
use crate::layer::ExtensionLayer;
use crate::level::InitLevel;

verus! {

/// Determines if and how an extension's code is run while the host is in
/// its editor (authoring) mode. Consulted once at load time; enforcing the
/// chosen policy is the host binding's responsibility, not this
/// controller's.
#[derive(Copy, Clone, Debug)]
#[non_exhaustive]
pub enum EditorRunBehavior {
    /// Only classes marked as tools run in the editor. All classes are
    /// still registered and callable.
    ToolClassesOnly,
    /// The extension runs with full functionality in the editor.
    AllClasses,
}

/// The entry point an extension supplies: a builder that fills the handle
/// with layer registrations, and a static policy query.
///
/// Every extension library has exactly one implementation of this trait.
pub trait ExtensionLibrary {
    /// The layer type this extension registers.
    type Layer: ExtensionLayer;

    /// Registers this extension's layers on the fresh handle, any number of
    /// times and at any levels, and reports whether setup succeeded. A
    /// `false` makes the whole load fail, whatever was registered before.
    fn load_library(handle: &mut InitHandle<Self::Layer>) -> bool;

    /// Determines if and how the extension's code runs in the editor.
    fn editor_run_behavior() -> EditorRunBehavior {
        EditorRunBehavior::ToolClassesOnly
    }
}

/// The default builder behavior: registers the default layer at the `Scene`
/// level and reports success.
pub fn default_load_library(handle: &mut InitHandle<DefaultLayer>) -> (ok: bool)
    ensures
        final(handle)@ == old(handle)@.insert(InitLevel::Scene, DefaultLayer),
        ok,
{
    handle.register_layer(InitLevel::Scene, DefaultLayer);
    true
}

/// Whether classes not marked as tools are to be kept from running in the
/// editor, per the extension's declared policy.
pub fn tool_only_in_editor(behavior: EditorRunBehavior) -> (only_tool: bool)
    ensures
        only_tool == (behavior is ToolClassesOnly),
{
    match behavior {
        EditorRunBehavior::ToolClassesOnly => true,
        EditorRunBehavior::AllClasses => false,
    }
}

/// Everything a successful load hands back to the host, as plain values:
/// the handle the per-level callbacks will dispatch through, the raw
/// minimum level for the host's function table, the load's success code,
/// and the editor policy flag for the runtime configuration.
pub struct LoadOutcome<L: ExtensionLayer> {
    pub handle: InitHandle<L>,
    pub minimum_initialization_level: u32,
    pub success_code: u8,
    pub tool_only_in_editor: bool,
}

/// Derives what load reports to the host, from the handle as the builder
/// left it and from the builder's own verdict. The handle is passed on
/// untouched, and the success code is 1 exactly when the builder reported
/// success: a builder that returns `false` fails the whole load, even
/// though every registration it made still stands in the handle.
pub fn finish_load<L: ExtensionLayer>(
    handle: InitHandle<L>,
    builder_ok: bool,
    only_tool: bool,
) -> (out: LoadOutcome<L>)
    ensures
        out.handle == handle,
        out.success_code == if builder_ok { 1u8 } else { 0u8 },
        out.tool_only_in_editor == only_tool,
        is_lowest_registered(
            handle@,
            InitLevel::spec_from_sys(out.minimum_initialization_level),
        ),
        InitLevel::spec_from_sys(out.minimum_initialization_level).ordinal()
            == out.minimum_initialization_level,
{
    let lowest = handle.lowest_init_level();
    LoadOutcome {
        minimum_initialization_level: lowest.to_sys(),
        success_code: if builder_ok { 1 } else { 0 },
        tool_only_in_editor: only_tool,
        handle,
    }
}

/// The decisions made exactly once at load time: read the extension's
/// editor policy, build an empty handle, run the extension's builder over
/// it, and derive the minimum initialization level and the success code.
///
/// The foreign shell around this call owns what cannot be reasoned about
/// here: binding the host's interface table, publishing the handle into the
/// process-wide slot, filling the host's output structure, and containing a
/// panic of the builder (which the shell converts into success code 0).
pub fn load_extension<E: ExtensionLibrary>() -> (out: LoadOutcome<E::Layer>)
    ensures
        out.success_code == 0 || out.success_code == 1,
        is_lowest_registered(
            out.handle@,
            InitLevel::spec_from_sys(out.minimum_initialization_level),
        ),
        InitLevel::spec_from_sys(out.minimum_initialization_level).ordinal()
            == out.minimum_initialization_level,
{
    let only_tool = tool_only_in_editor(E::editor_run_behavior());
    let mut handle = InitHandle::new();
    let success = E::load_library(&mut handle);
    finish_load(handle, success, only_tool)
}

/// The work of the host's per-level initialize callback, without its
/// foreign shell: converts the host's raw level identifier (unrecognized
/// identifiers fall back to `Scene`) and dispatches to the layer registered
/// at that level, a no-op when there is none.
pub fn initialize_layer<L: ExtensionLayer>(
    handle: &mut InitHandle<L>,
    raw_level: u32,
) -> (ran: bool)
    ensures
        ran == old(handle)@.dom().contains(InitLevel::spec_from_sys(raw_level)),
        final(handle)@.dom() == old(handle)@.dom(),
        forall|l: InitLevel|
            l != InitLevel::spec_from_sys(raw_level) && old(handle)@.dom().contains(l)
                ==> final(handle)@[l] == old(handle)@[l],
        !old(handle)@.dom().contains(InitLevel::spec_from_sys(raw_level))
            ==> final(handle)@ == old(handle)@,
{
    let level = InitLevel::from_sys(raw_level);
    handle.run_init_function(level)
}

/// The work of the host's per-level deinitialize callback, symmetric to
/// [`initialize_layer`].
pub fn deinitialize_layer<L: ExtensionLayer>(
    handle: &mut InitHandle<L>,
    raw_level: u32,
) -> (ran: bool)
    ensures
        ran == old(handle)@.dom().contains(InitLevel::spec_from_sys(raw_level)),
        final(handle)@.dom() == old(handle)@.dom(),
        forall|l: InitLevel|
            l != InitLevel::spec_from_sys(raw_level) && old(handle)@.dom().contains(l)
                ==> final(handle)@[l] == old(handle)@[l],
        !old(handle)@.dom().contains(InitLevel::spec_from_sys(raw_level))
            ==> final(handle)@ == old(handle)@,
{
    let level = InitLevel::from_sys(raw_level);
    handle.run_deinit_function(level)
}

} // verus!
