//! The shutdown signal, and the resources that are released when it is given.
//!
//! An environment tells its cleanup hooks of its end when it has begun to go, which is too late
//! for calls into it. The embedder therefore signals shutdown earlier, while the runtime is
//! still healthy. Two things happen then. A flag is set, which the ends of promises consult
//! before they call into the runtime. And every registered resource that is still alive is
//! released, so that the runtime finds none left to close by force.
//!
//! Both are advisory: without the signal the cleanup hooks are what is left.
use vstd::prelude::*;

pub use crate::registry::{
    law_registry_holds_what_came_since_the_signal, law_requested_iff_signalled, lifecycle_after,
    register_releasable, request_shutdown, shutdown_requested, Event, Lifecycle, LifecycleView,
    ShutdownWalk, ShutdownWalkView,
};

verus! {

/// A resource that can be released during shutdown, as the strong reference to it.
///
/// The registry holds weak references, so that it keeps no resource alive. What an upgrade
/// finds and what a release does depend on more than the resource: on the shutdown flag, which a
/// release is handed, and on all else, which is the `World`. The two relations name what the
/// methods do, so that contracts can say which of them were called, and in which order. A
/// resource that says nothing of itself has the relations that hold of everything.
///
/// A release may be asked for by the registry and by the resource's own end, from any thread.
/// A second release must do nothing.
pub trait Releasable: Sized + Send + Sync {
    /// The weak reference to a resource.
    type Weak;

    /// What upgrades and releases depend on and change.
    type World;

    /// `upgrade` of `weak` may return `strong` in `world`.
    open spec fn upgrades(weak: Self::Weak, world: Self::World, strong: Option<Self>) -> bool {
        true
    }

    /// `release_for_shutdown`, where the shutdown flag reads `requested`, may turn `before`
    /// into `after`.
    open spec fn releases(
        self,
        requested: bool,
        before: Self::World,
        after: Self::World,
    ) -> bool {
        true
    }

    /// The strong reference, if the resource is still alive.
    fn upgrade(weak: &Self::Weak, world: &Self::World) -> (strong: Option<Self>)
        ensures
            Self::upgrades(*weak, *world, strong),
    ;

    /// Releases the resource. `requested` is what the shutdown flag reads meanwhile.
    fn release_for_shutdown(&self, requested: bool, world: &mut Self::World)
        ensures
            self.releases(requested, *old(world), *final(world)),
    ;
}

/// Whether a second release of `resource` does nothing, as it must, be it before or after the
/// signal.
pub open spec fn releases_once<R: Releasable>(resource: R) -> bool {
    forall|first: bool, second: bool, before: R::World, once: R::World, twice: R::World|
        #[trigger] resource.releases(first, before, once) && #[trigger] resource.releases(
            second,
            once,
            twice,
        ) ==> twice == once
}

/// Whether a visit of one entry, where the shutdown flag reads `requested`, may turn `before`
/// into `after`: the entry is upgraded, and released if it is alive.
pub open spec fn visits<R: Releasable>(
    requested: bool,
    weak: R::Weak,
    before: R::World,
    after: R::World,
) -> bool {
    exists|strong: Option<R>| #[trigger]
        R::upgrades(weak, before, strong) && released_if_alive(requested, strong, before, after)
}

/// Whether an upgrade that returned `strong` is followed by what it should be: a release if
/// the resource is alive, and nothing else.
pub open spec fn released_if_alive<R: Releasable>(
    requested: bool,
    strong: Option<R>,
    before: R::World,
    after: R::World,
) -> bool {
    match strong {
        Some(resource) => resource.releases(requested, before, after),
        None => after == before,
    }
}

/// Whether `worlds` are the states of a walk over `entries`: every entry is visited once, in
/// order, and nothing happens besides. The shutdown flag reads `requested` at every visit.
pub open spec fn is_walk<R: Releasable>(
    requested: bool,
    entries: Seq<R::Weak>,
    worlds: Seq<R::World>,
) -> bool {
    &&& worlds.len() == entries.len() + 1
    &&& forall|i: int|
        0 <= i < entries.len() ==> visits::<R>(
            requested,
            #[trigger] entries[i],
            worlds[i],
            worlds[i + 1],
        )
}

/// Whether a walk over `entries`, at every visit of which the shutdown flag reads `requested`,
/// may turn `before` into `after`.
pub open spec fn walks<R: Releasable>(
    requested: bool,
    entries: Seq<R::Weak>,
    before: R::World,
    after: R::World,
) -> bool {
    exists|worlds: Seq<R::World>| #[trigger]
        is_walk::<R>(requested, entries, worlds) && worlds.first() == before && worlds.last()
            == after
}

/// Releases a resource if the upgrade of its entry found it alive.
pub fn release_upgraded<R: Releasable>(
    requested: bool,
    upgraded: Option<R>,
    world: &mut R::World,
)
    ensures
        released_if_alive(requested, upgraded, *old(world), *final(world)),
{
    if let Some(strong) = upgraded {
        strong.release_for_shutdown(requested, world);
    }
}

/// Walks over the entries that a signal took out of the registry, and releases every resource
/// that is alive when its turn comes.
pub fn release_entries<R: Releasable>(walk: ShutdownWalk<R::Weak>, world: &mut R::World)
    ensures
        walks::<R>(walk@.requested, walk@.entries, *old(world), *final(world)),
{
    let (requested, entries) = walk.into_parts();
    let ghost mut worlds: Seq<R::World> = seq![*world];
    let mut i: usize = 0;
    while i < entries.len()
        invariant
            i <= entries.len(),
            is_walk::<R>(requested, entries@.take(i as int), worlds),
            worlds.first() == *old(world),
            worlds.last() == *world,
        decreases entries.len() - i,
    {
        let ghost before = *world;
        let upgraded = R::upgrade(&entries[i], world);
        release_upgraded(requested, upgraded, world);
        proof {
            let visited = entries@.take(i as int);
            assert(visits::<R>(requested, entries@[i as int], before, *world));
            assert forall|k: int| 0 <= k < i + 1 implies visits::<R>(
                requested,
                #[trigger] entries@.take(i + 1)[k],
                worlds.push(*world)[k],
                worlds.push(*world)[k + 1],
            ) by {
                if k < i {
                    assert(entries@.take(i + 1)[k] == visited[k]);
                }
            }
            worlds = worlds.push(*world);
        }
        i = i + 1;
    }
    assert(entries@.take(i as int) == entries@);
}

/// Signals that the process is about to end: sets the shutdown flag, empties the registry and
/// then releases every resource in it that is alive when its turn comes. The flag is set at
/// every release.
pub fn signal_shutdown_requested<R: Releasable>(
    lifecycle: &mut Lifecycle<R::Weak>,
    world: &mut R::World,
)
    ensures
        final(lifecycle)@ == old(lifecycle)@.signalled(),
        walks::<R>(true, old(lifecycle)@.registry, *old(world), *final(world)),
{
    let walk = request_shutdown(lifecycle);
    release_entries::<R>(walk, world);
}

/// A world in which releases can come back to the registry: the lifecycle is part of it.
pub struct Process<W, S> {
    pub lifecycle: Lifecycle<W>,
    /// All else that upgrades and releases depend on and change.
    pub rest: S,
}

/// Signals that the process is about to end, as [`signal_shutdown_requested`] does, where a
/// release may itself register resources or signal again. The walk covers what was registered
/// before the signal, and begins with the flag set and the registry empty.
pub fn signal_shutdown_reentrant<W, S, R: Releasable<Weak = W, World = Process<W, S>>>(
    process: &mut Process<W, S>,
)
    ensures
        exists|start: Process<W, S>|
            {
                &&& start.lifecycle@ == old(process).lifecycle@.signalled()
                &&& start.rest == old(process).rest
                &&& #[trigger] walks::<R>(
                    true,
                    old(process).lifecycle@.registry,
                    start,
                    *final(process),
                )
            },
{
    let walk = request_shutdown(&mut process.lifecycle);
    release_entries::<R>(walk, process);
}

/// At every point of a walk the registry holds, in order, what releases have registered since
/// the walk began, and none of the walk's own entries. So a signal that a release gives takes
/// only the former, and what is left at the end waits for the next signal. `added` are the
/// registrations of each visit.
pub proof fn law_registrations_during_a_walk_wait<
    W,
    S,
    R: Releasable<Weak = W, World = Process<W, S>>,
>(
    before: LifecycleView<W>,
    worlds: Seq<Process<W, S>>,
    added: Seq<Seq<W>>,
)
    requires
        is_walk::<R>(true, before.registry, worlds),
        worlds.first().lifecycle@ == before.signalled(),
        added.len() == before.registry.len(),
        forall|i: int|
            0 <= i < added.len() ==> worlds[i + 1].lifecycle@.registry
                == worlds[i].lifecycle@.registry + #[trigger] added[i],
    ensures
        forall|n: int|
            0 <= n <= added.len() ==> (#[trigger] worlds[n]).lifecycle@.registry == added.take(
                n,
            ).flatten(),
        worlds.last().lifecycle@.registry == added.flatten(),
{
    assert forall|n: int| 0 <= n <= added.len() implies (
    #[trigger] worlds[n]).lifecycle@.registry == added.take(n).flatten() by {
        lemma_registrations_add_up(worlds, added, n);
    }
    assert(added.take(added.len() as int) == added);
}

/// The first `n` visits of a walk that began with an empty registry leave in it what they
/// registered.
proof fn lemma_registrations_add_up<W, S>(
    worlds: Seq<Process<W, S>>,
    added: Seq<Seq<W>>,
    n: int,
)
    requires
        0 <= n <= added.len(),
        worlds.len() == added.len() + 1,
        worlds.first().lifecycle@.registry.len() == 0,
        forall|i: int|
            0 <= i < added.len() ==> worlds[i + 1].lifecycle@.registry
                == worlds[i].lifecycle@.registry + #[trigger] added[i],
    ensures
        worlds[n].lifecycle@.registry == added.take(n).flatten(),
    decreases n,
{
    if n > 0 {
        lemma_registrations_add_up(worlds, added, n - 1);
        let earlier = added.take(n - 1);
        assert(added.take(n) == earlier.push(added[n - 1]));
        earlier.lemma_flatten_push(added[n - 1]);
        assert(worlds[n - 1 + 1].lifecycle@.registry == worlds[n - 1].lifecycle@.registry
            + added[n - 1]);
    }
}

/// To signal again changes nothing: the flag stays set, and the walk finds no entry.
pub proof fn law_second_signal_changes_nothing<R: Releasable>(
    lifecycle: LifecycleView<R::Weak>,
    before: R::World,
    after: R::World,
)
    requires
        walks::<R>(true, lifecycle.signalled().registry, before, after),
    ensures
        lifecycle.signalled().signalled() == lifecycle.signalled(),
        after == before,
{
}

/// A resource that has been released, before or after the signal, is left alone by a walk,
/// however often it is registered.
pub proof fn law_released_resource_is_left_alone<R: Releasable>(
    resource: R,
    earlier: bool,
    requested: bool,
    entries: Seq<R::Weak>,
    unreleased: R::World,
    before: R::World,
    after: R::World,
)
    requires
        releases_once(resource),
        resource.releases(earlier, unreleased, before),
        forall|i: int, world: R::World, strong: R|
            0 <= i < entries.len() && #[trigger] R::upgrades(entries[i], world, Some(strong))
                ==> strong == resource,
        walks::<R>(requested, entries, before, after),
    ensures
        after == before,
{
    let worlds = choose|worlds: Seq<R::World>| #[trigger]
        is_walk::<R>(requested, entries, worlds) && worlds.first() == before && worlds.last()
            == after;
    lemma_released_throughout(
        resource,
        earlier,
        requested,
        entries,
        unreleased,
        worlds,
        entries.len() as int,
    );
}

/// The first `n` visits of a walk over a resource that has been released change nothing.
proof fn lemma_released_throughout<R: Releasable>(
    resource: R,
    earlier: bool,
    requested: bool,
    entries: Seq<R::Weak>,
    unreleased: R::World,
    worlds: Seq<R::World>,
    n: int,
)
    requires
        0 <= n <= entries.len(),
        is_walk::<R>(requested, entries, worlds),
        releases_once(resource),
        resource.releases(earlier, unreleased, worlds.first()),
        forall|i: int, world: R::World, strong: R|
            0 <= i < entries.len() && #[trigger] R::upgrades(entries[i], world, Some(strong))
                ==> strong == resource,
    ensures
        worlds[n] == worlds.first(),
    decreases n,
{
    if n > 0 {
        lemma_released_throughout(
            resource,
            earlier,
            requested,
            entries,
            unreleased,
            worlds,
            n - 1,
        );
        let weak = entries[n - 1];
        assert(visits::<R>(requested, weak, worlds[n - 1], worlds[n]));
        let strong = choose|strong: Option<R>| #[trigger]
            R::upgrades(weak, worlds[n - 1], strong) && released_if_alive(
                requested,
                strong,
                worlds[n - 1],
                worlds[n],
            );
        if strong is Some {
            assert(resource.releases(requested, worlds[n - 1], worlds[n]));
        }
    }
}

} // verus!
