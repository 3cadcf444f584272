use vstd::prelude::*;

use crate::layer::ExtensionLayer;
use crate::level::InitLevel;

verus! {

/// Whether `level` is the minimum level with a registration in `m`, or the
/// default `Scene` when `m` is empty.
pub open spec fn is_lowest_registered<L>(m: Map<InitLevel, L>, level: InitLevel) -> bool {
    if exists|l: InitLevel| m.dom().contains(l) {
        &&& m.dom().contains(level)
        &&& forall|l: InitLevel| m.dom().contains(l) ==> level.ordinal() <= l.ordinal()
    } else {
        level == InitLevel::Scene
    }
}

/// Owner of all registered layers: a mapping from [`InitLevel`] to at most
/// one layer, viewed in contracts as a `Map<InitLevel, L>`.
///
/// A handle is built once at load time, filled by the extension's builder
/// through [`register_layer`](Self::register_layer), and consumed for the
/// rest of the process by the dispatch calls.
pub struct InitHandle<L: ExtensionLayer> {
    core: Option<L>,
    servers: Option<L>,
    scene: Option<L>,
    editor: Option<L>,
}

impl<L: ExtensionLayer> InitHandle<L> {
    /// The layer slot for a level.
    closed spec fn slot(&self, level: InitLevel) -> Option<L> {
        match level {
            InitLevel::Core => self.core,
            InitLevel::Servers => self.servers,
            InitLevel::Scene => self.scene,
            InitLevel::Editor => self.editor,
        }
    }

    /// The handle as a mapping from levels to their registered layers.
    pub closed spec fn view(&self) -> Map<InitLevel, L> {
        Map::new(
            |level: InitLevel| self.slot(level) is Some,
            |level: InitLevel| self.slot(level).unwrap(),
        )
    }

    /// An empty handle: no layer is registered at any level.
    pub fn new() -> (handle: Self)
        ensures
            handle@ == Map::<InitLevel, L>::empty(),
    {
        let handle = InitHandle { core: None, servers: None, scene: None, editor: None };
        proof {
            assert(handle@ =~= Map::<InitLevel, L>::empty());
        }
        handle
    }

    /// Binds a layer to a level. Always succeeds; a layer already registered
    /// at that level is silently replaced, so the last registration wins.
    pub fn register_layer(&mut self, level: InitLevel, layer: L)
        ensures
            final(self)@ == old(self)@.insert(level, layer),
    {
        match level {
            InitLevel::Core => self.core = Some(layer),
            InitLevel::Servers => self.servers = Some(layer),
            InitLevel::Scene => self.scene = Some(layer),
            InitLevel::Editor => self.editor = Some(layer),
        }
        proof {
            assert(self@ =~= old(self)@.insert(level, layer));
        }
    }

    /// The minimum level with a registered layer, or `Scene` if none: the
    /// earliest phase at which the host must call back. Calling back for an
    /// earlier, unregistered phase is harmless, since dispatch degrades to a
    /// no-op there.
    pub fn lowest_init_level(&self) -> (lowest: InitLevel)
        ensures
            is_lowest_registered(self@, lowest),
    {
        if self.core.is_some() {
            proof {
                assert(self@.dom().contains(InitLevel::Core));
            }
            InitLevel::Core
        } else if self.servers.is_some() {
            proof {
                assert(!self@.dom().contains(InitLevel::Core));
                assert(self@.dom().contains(InitLevel::Servers));
            }
            InitLevel::Servers
        } else if self.scene.is_some() {
            proof {
                assert(!self@.dom().contains(InitLevel::Core));
                assert(!self@.dom().contains(InitLevel::Servers));
                assert(self@.dom().contains(InitLevel::Scene));
            }
            InitLevel::Scene
        } else if self.editor.is_some() {
            proof {
                assert(!self@.dom().contains(InitLevel::Core));
                assert(!self@.dom().contains(InitLevel::Servers));
                assert(!self@.dom().contains(InitLevel::Scene));
                assert(self@.dom().contains(InitLevel::Editor));
            }
            InitLevel::Editor
        } else {
            proof {
                assert forall|l: InitLevel| !self@.dom().contains(l) by {
                    assert(self.slot(l) is None);
                }
            }
            InitLevel::Scene
        }
    }

    /// Runs `initialize` on the layer registered at `level`, if any, and
    /// reports whether one ran. With no layer registered there it is a no-op
    /// and never fails. Layers at other levels are untouched.
    pub fn run_init_function(&mut self, level: InitLevel) -> (ran: bool)
        ensures
            ran == old(self)@.dom().contains(level),
            final(self)@.dom() == old(self)@.dom(),
            forall|l: InitLevel| l != level && old(self)@.dom().contains(l)
                ==> final(self)@[l] == old(self)@[l],
            !old(self)@.dom().contains(level) ==> final(self)@ == old(self)@,
    {
        let ran: bool = match level {
            InitLevel::Core => Self::run_init_slot(&mut self.core),
            InitLevel::Servers => Self::run_init_slot(&mut self.servers),
            InitLevel::Scene => Self::run_init_slot(&mut self.scene),
            InitLevel::Editor => Self::run_init_slot(&mut self.editor),
        };
        proof {
            assert(self@.dom() =~= old(self)@.dom());
            if !old(self)@.dom().contains(level) {
                assert(self@ =~= old(self)@);
            }
        }
        ran
    }

    /// Runs `deinitialize` on the layer registered at `level`, if any, and
    /// reports whether one ran. With no layer registered there it is a no-op
    /// and never fails. Layers at other levels are untouched.
    pub fn run_deinit_function(&mut self, level: InitLevel) -> (ran: bool)
        ensures
            ran == old(self)@.dom().contains(level),
            final(self)@.dom() == old(self)@.dom(),
            forall|l: InitLevel| l != level && old(self)@.dom().contains(l)
                ==> final(self)@[l] == old(self)@[l],
            !old(self)@.dom().contains(level) ==> final(self)@ == old(self)@,
    {
        let ran: bool = match level {
            InitLevel::Core => Self::run_deinit_slot(&mut self.core),
            InitLevel::Servers => Self::run_deinit_slot(&mut self.servers),
            InitLevel::Scene => Self::run_deinit_slot(&mut self.scene),
            InitLevel::Editor => Self::run_deinit_slot(&mut self.editor),
        };
        proof {
            assert(self@.dom() =~= old(self)@.dom());
            if !old(self)@.dom().contains(level) {
                assert(self@ =~= old(self)@);
            }
        }
        ran
    }

    /// The layer currently registered at a level, if any.
    pub fn layer_at(&self, level: InitLevel) -> (r: Option<&L>)
        ensures
            r is Some <==> self@.dom().contains(level),
            r matches Some(layer) ==> *layer == self@[level],
    {
        match level {
            InitLevel::Core => self.core.as_ref(),
            InitLevel::Servers => self.servers.as_ref(),
            InitLevel::Scene => self.scene.as_ref(),
            InitLevel::Editor => self.editor.as_ref(),
        }
    }

    fn run_init_slot(slot: &mut Option<L>) -> (ran: bool)
        ensures
            ran == (*old(slot) is Some),
            *final(slot) is Some <==> *old(slot) is Some,
    {
        match slot.take() {
            Some(mut layer) => {
                layer.initialize();
                *slot = Some(layer);
                true
            },
            None => false,
        }
    }

    fn run_deinit_slot(slot: &mut Option<L>) -> (ran: bool)
        ensures
            ran == (*old(slot) is Some),
            *final(slot) is Some <==> *old(slot) is Some,
    {
        match slot.take() {
            Some(mut layer) => {
                layer.deinitialize();
                *slot = Some(layer);
                true
            },
            None => false,
        }
    }
}

impl<L: ExtensionLayer> Default for InitHandle<L> {
    fn default() -> (handle: Self)
        ensures
            handle@ == Map::<InitLevel, L>::empty(),
    {
        InitHandle::new()
    }
}

/// Law: the layer dispatched for a level is the last one registered there.
/// Registering a second layer at an occupied level replaces the first, and
/// a registration at any other level does not disturb the binding.
pub proof fn lemma_last_registration_wins<L: ExtensionLayer>(
    m: Map<InitLevel, L>,
    level: InitLevel,
    earlier: L,
    later: L,
    other: InitLevel,
    other_layer: L,
)
    requires
        other != level,
    ensures
        m.insert(level, earlier).insert(level, later) == m.insert(level, later),
        m.insert(level, later)[level] == later,
        m.insert(level, later).insert(other, other_layer)[level] == later,
{
    assert(m.insert(level, earlier).insert(level, later) =~= m.insert(level, later));
}

} // verus!
