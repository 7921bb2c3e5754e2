//! The shutdown flag and the registry, and the one way in which entries leave it.
use vstd::prelude::*;

verus! {

/// What a [`Lifecycle`] holds.
#[verifier::ext_equal]
pub struct LifecycleView<W> {
    pub requested: bool,
    pub registry: Seq<W>,
}

/// The shutdown flag and the registry of resources, by their weak references.
pub struct Lifecycle<W> {
    requested: bool,
    registry: Vec<W>,
}

impl<W> View for Lifecycle<W> {
    type V = LifecycleView<W>;

    closed spec fn view(&self) -> LifecycleView<W> {
        LifecycleView { requested: self.requested, registry: self.registry@ }
    }
}

impl<W> LifecycleView<W> {
    /// Nothing signalled, nothing registered.
    pub open spec fn initial() -> Self {
        LifecycleView { requested: false, registry: Seq::empty() }
    }

    /// After the registration of `resource`.
    pub open spec fn registered(self, resource: W) -> Self {
        LifecycleView { registry: self.registry.push(resource), ..self }
    }

    /// After the signal, with the registry handed over to the walk.
    pub open spec fn signalled(self) -> Self {
        LifecycleView { requested: true, registry: Seq::empty() }
    }
}

impl<W> Lifecycle<W> {
    /// The state in which a process starts.
    pub fn new() -> (lifecycle: Self)
        ensures
            lifecycle@ == LifecycleView::<W>::initial(),
    {
        Lifecycle { requested: false, registry: Vec::new() }
    }
}

/// Registers a resource for release during shutdown.
pub fn register_releasable<W>(lifecycle: &mut Lifecycle<W>, resource: W)
    ensures
        final(lifecycle)@ == old(lifecycle)@.registered(resource),
{
    lifecycle.registry.push(resource);
}

/// Whether shutdown has been signalled.
pub fn shutdown_requested<W>(lifecycle: &Lifecycle<W>) -> (requested: bool)
    ensures
        requested == lifecycle@.requested,
{
    lifecycle.requested
}

/// What a [`ShutdownWalk`] holds.
#[verifier::ext_equal]
pub struct ShutdownWalkView<W> {
    /// What the shutdown flag was when the entries left the registry.
    pub requested: bool,
    pub entries: Seq<W>,
}

/// Entries that have left the registry to be walked over. Only [`request_shutdown`] makes one,
/// so that whoever walks over entries comes after the signal.
pub struct ShutdownWalk<W> {
    requested: bool,
    entries: Vec<W>,
}

impl<W> View for ShutdownWalk<W> {
    type V = ShutdownWalkView<W>;

    closed spec fn view(&self) -> ShutdownWalkView<W> {
        ShutdownWalkView { requested: self.requested, entries: self.entries@ }
    }
}

impl<W> ShutdownWalk<W> {
    /// Takes the walk apart into the shutdown flag under which it is made and its entries.
    pub(crate) fn into_parts(self) -> (parts: (bool, Vec<W>))
        ensures
            parts.0 == self@.requested,
            parts.1@ == self@.entries,
    {
        (self.requested, self.entries)
    }
}

/// Sets the shutdown flag and then takes all entries out of the registry, in the order of their
/// registration. The registry is free for new entries while these are walked over.
pub fn request_shutdown<W>(lifecycle: &mut Lifecycle<W>) -> (walk: ShutdownWalk<W>)
    ensures
        final(lifecycle)@ == old(lifecycle)@.signalled(),
        walk@.requested == final(lifecycle)@.requested,
        walk@.entries == old(lifecycle)@.registry,
{
    lifecycle.requested = true;
    let mut entries: Vec<W> = Vec::new();
    std::mem::swap(&mut entries, &mut lifecycle.registry);
    ShutdownWalk { requested: lifecycle.requested, entries }
}

/// Something that happens to a lifecycle.
pub enum Event<W> {
    /// A resource is registered.
    Registered(W),
    /// Shutdown is signalled.
    Signalled,
}

/// What a process's lifecycle holds after `events`, oldest first.
pub open spec fn lifecycle_after<W>(events: Seq<Event<W>>) -> LifecycleView<W>
    decreases events.len(),
{
    if events.len() == 0 {
        LifecycleView::initial()
    } else {
        let earlier = lifecycle_after(events.drop_last());
        match events.last() {
            Event::Registered(resource) => earlier.registered(resource),
            Event::Signalled => earlier.signalled(),
        }
    }
}

/// Shutdown counts as requested exactly if it has been signalled at some time.
pub proof fn law_requested_iff_signalled<W>(events: Seq<Event<W>>)
    ensures
        lifecycle_after(events).requested <==> exists|i: int|
            0 <= i < events.len() && #[trigger] events[i] is Signalled,
    decreases events.len(),
{
    if events.len() > 0 {
        let earlier = events.drop_last();
        law_requested_iff_signalled(earlier);
        if lifecycle_after(earlier).requested {
            let i = choose|i: int| 0 <= i < earlier.len() && #[trigger] earlier[i] is Signalled;
            assert(events[i] is Signalled);
        }
        if exists|i: int| 0 <= i < events.len() && #[trigger] events[i] is Signalled {
            let i = choose|i: int| 0 <= i < events.len() && #[trigger] events[i] is Signalled;
            if i < earlier.len() {
                assert(earlier[i] is Signalled);
            } else {
                assert(events.last() is Signalled);
            }
        }
    }
}

/// The registry holds, in order, what was registered since the last signal, or since the start
/// of the process if there was none: a signal takes what came before it and nothing that comes
/// after. So a signal that is given while an earlier one still walks takes none of the entries
/// that the earlier one took.
pub proof fn law_registry_holds_what_came_since_the_signal<W>(
    earlier: Seq<Event<W>>,
    resources: Seq<W>,
)
    requires
        earlier.len() == 0 || earlier.last() is Signalled,
    ensures
        lifecycle_after(
            earlier + resources.map_values(|resource: W| Event::Registered(resource)),
        ).registry == resources,
    decreases resources.len(),
{
    let registrations = resources.map_values(|resource: W| Event::Registered(resource));
    let events = earlier + registrations;
    if resources.len() == 0 {
        assert(events == earlier);
    } else {
        law_registry_holds_what_came_since_the_signal(earlier, resources.drop_last());
        assert(events.drop_last() == earlier + resources.drop_last().map_values(
            |resource: W| Event::Registered(resource),
        ));
        assert(events.last() == Event::Registered(resources.last()));
        assert(resources == resources.drop_last().push(resources.last()));
    }
}

} // verus!
