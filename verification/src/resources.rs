//! Ownership and teardown of GPU resources.
//!
//! Every native object the engine creates (instance, device context,
//! command pool, buffer, pipeline layout, pipeline, transient shader
//! module) is entered into a [`ResourceRegistry`]: an arena whose entries
//! carry the native handle, the entry's dependencies (always earlier
//! entries, so the ownership graph is acyclic by construction) and whether
//! the entry is still alive. The registry enforces the teardown contract:
//! a resource can only be torn down while no live dependent exists, so an
//! ancestor (say, the device context) can never be destroyed under a
//! pipeline or buffer that was built against it. Tearing an entry down
//! yields its native handle, which the unverified shell then destroys
//! through the driver.

use vstd::pervasive::unreached;
use vstd::pervasive::VecAdditionalExecFns;
use vstd::prelude::*;

verus! {

/// The kind of native object a registry entry stands for.
#[derive(Clone, Copy, Debug, PartialEq, Eq)]
pub enum ResourceKind {
    Instance,
    DeviceContext,
    CommandPool,
    Buffer,
    RenderPass,
    DescriptorLayout,
    PipelineLayout,
    Pipeline,
    ShaderModule,
}

/// One registered resource: its kind, its native handle, whether it is
/// still alive, and the registry indices of the resources it depends on.
pub struct ResourceEntry {
    pub kind: ResourceKind,
    pub handle: u64,
    pub alive: bool,
    pub deps: Vec<usize>,
}

/// Why a teardown request was refused.
#[derive(Clone, Copy, Debug, PartialEq, Eq)]
pub enum RegistryError {
    /// The index was never handed out by this registry.
    UnknownResource,
    /// The entry was already torn down.
    AlreadyDestroyed,
    /// A live entry still depends on this one; destroying it would leave a
    /// dangling handle.
    HasLiveDependent,
}

/// Arena of registered resources; see the module documentation.
pub struct ResourceRegistry {
    entries: Vec<ResourceEntry>,
}

impl ResourceRegistry {
    /// The registered entries, in creation order.
    pub closed spec fn res(self) -> Seq<ResourceEntry> {
        self.entries@
    }

    /// Entry `i` only depends on entries created before it.
    pub open spec fn deps_below(self, i: int) -> bool {
        forall|j: int|
            0 <= j < self.res()[i].deps@.len() ==> (#[trigger] self.res()[i].deps@[j] as int) < i
    }

    /// All dependencies of entry `i` are alive.
    pub open spec fn deps_alive(self, i: int) -> bool {
        forall|j: int|
            0 <= j < self.res()[i].deps@.len() ==> self.res()[
                #[trigger] self.res()[i].deps@[j] as int
            ].alive
    }

    /// Well-formedness: dependencies point strictly backwards (the graph is
    /// acyclic) and no live entry depends on a dead one (a handle is never
    /// left dangling).
    pub open spec fn wf(self) -> bool {
        forall|i: int|
            0 <= i < self.res().len() ==> #[trigger] self.deps_below(i) && (self.res()[i].alive
                ==> self.deps_alive(i))
    }

    /// Some live entry depends on entry `id`.
    pub open spec fn has_live_dependent(self, id: usize) -> bool {
        exists|i: int|
            0 <= i < self.res().len() && (#[trigger] self.res()[i]).alive && self.res()[
                i
            ].deps@.contains(id)
    }

    /// An empty registry.
    pub fn new() -> (reg: ResourceRegistry)
        ensures
            reg.wf(),
            reg.res().len() == 0,
    {
        ResourceRegistry { entries: Vec::new() }
    }

    /// Number of entries ever registered (alive or not).
    pub fn len(&self) -> (n: usize)
        ensures
            n == self.res().len(),
    {
        self.entries.len()
    }

    /// Whether `id` names an entry that is still alive.
    pub fn is_alive(&self, id: usize) -> (r: bool)
        requires
            id < self.res().len(),
        ensures
            r == self.res()[id as int].alive,
    {
        self.entries[id].alive
    }

    /// The native handle of entry `id`.
    pub fn handle_of(&self, id: usize) -> (h: u64)
        requires
            id < self.res().len(),
        ensures
            h == self.res()[id as int].handle,
    {
        self.entries[id].handle
    }

    /// Registers a freshly created native object of the given kind, which
    /// depends on the given live entries, and returns its index. The new
    /// entry starts alive; its dependencies are thereby pinned: they cannot
    /// be torn down before it is.
    pub fn register(&mut self, kind: ResourceKind, handle: u64, deps: Vec<usize>) -> (id: usize)
        requires
            old(self).wf(),
            forall|j: int|
                0 <= j < deps@.len() ==> (#[trigger] deps@[j] as int) < old(self).res().len()
                    && old(self).res()[deps@[j] as int].alive,
        ensures
            final(self).wf(),
            id as int == old(self).res().len(),
            final(self).res().len() == old(self).res().len() + 1,
            final(self).res()[id as int].kind == kind,
            final(self).res()[id as int].handle == handle,
            final(self).res()[id as int].alive,
            final(self).res()[id as int].deps@ == deps@,
            forall|i: int|
                0 <= i < old(self).res().len() ==> final(self).res()[i] == old(self).res()[i],
    {
        let id = self.entries.len();
        self.entries.push(ResourceEntry { kind, handle, alive: true, deps });
        proof {
            assert forall|i: int| 0 <= i < self.res().len() implies #[trigger] self.deps_below(i)
                && (self.res()[i].alive ==> self.deps_alive(i)) by {
                if i < id {
                    assert(old(self).deps_below(i));
                    assert(old(self).res()[i].alive ==> old(self).deps_alive(i));
                    assert(self.res()[i] == old(self).res()[i]);
                }
            }
        }
        id
    }

    /// Tears down entry `id` if that is allowed: the entry must exist, be
    /// alive, and have no live dependent. On success the entry is marked
    /// dead and its native handle is returned for the shell to destroy;
    /// otherwise the registry is unchanged and the error says exactly why —
    /// in particular, destroying a resource under a live dependent is
    /// refused, never silently tolerated.
    pub fn teardown(&mut self, id: usize) -> (r: Result<u64, RegistryError>)
        requires
            old(self).wf(),
        ensures
            final(self).wf(),
            r is Ok <==> (id < old(self).res().len() && old(self).res()[id as int].alive && !old(
                self,
            ).has_live_dependent(id)),
            r matches Ok(h) ==> h == old(self).res()[id as int].handle,
            r is Ok ==> final(self).res().len() == old(self).res().len() && !final(self).res()[
                id as int
            ].alive && final(self).res()[id as int].kind == old(self).res()[id as int].kind
                && final(self).res()[id as int].handle == old(self).res()[id as int].handle
                && final(self).res()[id as int].deps@ == old(self).res()[id as int].deps@ && forall|
                i: int,
            |
                0 <= i < old(self).res().len() && i != id ==> final(self).res()[i] == old(
                    self,
                ).res()[i],
            r is Err ==> *final(self) == *old(self),
            r == Err::<u64, RegistryError>(RegistryError::UnknownResource) <==> id >= old(
                self,
            ).res().len(),
            r == Err::<u64, RegistryError>(RegistryError::AlreadyDestroyed) <==> (id < old(
                self,
            ).res().len() && !old(self).res()[id as int].alive),
            r == Err::<u64, RegistryError>(RegistryError::HasLiveDependent) <==> (id < old(
                self,
            ).res().len() && old(self).res()[id as int].alive && old(self).has_live_dependent(id)),
    {
        if id >= self.entries.len() {
            return Err(RegistryError::UnknownResource);
        }
        if !self.entries[id].alive {
            return Err(RegistryError::AlreadyDestroyed);
        }
        let n = self.entries.len();
        let mut i: usize = 0;
        while i < n
            invariant
                *self == *old(self),
                old(self).wf(),
                n == self.res().len(),
                id < n,
                self.res()[id as int].alive,
                i <= n,
                forall|k: int|
                    0 <= k < i ==> !((#[trigger] self.res()[k]).alive && self.res()[
                        k
                    ].deps@.contains(id)),
            decreases n - i,
        {
            if self.entries[i].alive && deps_contain(&self.entries[i].deps, id) {
                proof {
                    assert(old(self).res()[i as int].alive && old(self).res()[
                        i as int
                    ].deps@.contains(id));
                    assert(old(self).has_live_dependent(id));
                }
                return Err(RegistryError::HasLiveDependent);
            }
            i = i + 1;
        }
        let handle = self.entries[id].handle;
        let kind = self.entries[id].kind;
        let deps = copy_indices(&self.entries[id].deps);
        self.entries.set(id, ResourceEntry { kind, handle, alive: false, deps });
        proof {
            assert forall|i2: int| 0 <= i2 < self.res().len() implies #[trigger] self.deps_below(
                i2,
            ) && (self.res()[i2].alive ==> self.deps_alive(i2)) by {
                assert(old(self).deps_below(i2));
                assert(old(self).res()[i2].alive ==> old(self).deps_alive(i2));
                if i2 != id && self.res()[i2].alive {
                    assert forall|j: int| 0 <= j < self.res()[i2].deps@.len() implies self.res()[
                        #[trigger] self.res()[i2].deps@[j] as int
                    ].alive by {
                        let d = self.res()[i2].deps@[j];
                        assert(old(self).res()[d as int].alive);
                        assert(d != id) by {
                            if d == id {
                                assert(old(self).res()[i2].deps@.contains(id));
                            }
                        }
                    }
                }
            }
        }
        Ok(handle)
    }

    /// Teardown for a caller that has already established the entry is
    /// alive and unencumbered; returns the native handle directly.
    pub fn teardown_live(&mut self, id: usize) -> (h: u64)
        requires
            old(self).wf(),
            id < old(self).res().len(),
            old(self).res()[id as int].alive,
            !old(self).has_live_dependent(id),
        ensures
            final(self).wf(),
            h == old(self).res()[id as int].handle,
            final(self).res().len() == old(self).res().len(),
            !final(self).res()[id as int].alive,
            final(self).res()[id as int].kind == old(self).res()[id as int].kind,
            final(self).res()[id as int].handle == old(self).res()[id as int].handle,
            final(self).res()[id as int].deps@ == old(self).res()[id as int].deps@,
            forall|i: int|
                0 <= i < old(self).res().len() && i != id ==> final(self).res()[i] == old(
                    self,
                ).res()[i],
    {
        match self.teardown(id) {
            Ok(h) => h,
            Err(_) => unreached(),
        }
    }

    /// Tears down every remaining live entry, in reverse creation order —
    /// the order that respects the dependency graph, since dependencies
    /// always point backwards. Returns the native handles to destroy, in
    /// that order.
    pub fn teardown_all(&mut self) -> (handles: Vec<u64>)
        requires
            old(self).wf(),
        ensures
            final(self).wf(),
            final(self).res().len() == old(self).res().len(),
            forall|i: int|
                0 <= i < final(self).res().len() ==> !(#[trigger] final(self).res()[i]).alive
                    && final(self).res()[i].kind == old(self).res()[i].kind && final(self).res()[
                    i
                ].handle == old(self).res()[i].handle,
            handles@ == teardown_order(old(self).res()),
    {
        let mut handles: Vec<u64> = Vec::new();
        let n = self.entries.len();
        let mut i: usize = n;
        while i > 0
            invariant
                n == self.res().len(),
                n == old(self).res().len(),
                i <= n,
                forall|k: int| 0 <= k < i ==> self.res()[k] == old(self).res()[k],
                forall|k: int|
                    i <= k < n ==> !(#[trigger] self.res()[k]).alive && self.res()[k].kind == old(
                        self,
                    ).res()[k].kind && self.res()[k].handle == old(self).res()[k].handle
                        && self.res()[k].deps@ == old(self).res()[k].deps@,
                handles@ == teardown_order(old(self).res().skip(i as int)),
            decreases i,
        {
            i = i - 1;
            let ghost pre = self.res();
            if self.entries[i].alive {
                handles.push(self.entries[i].handle);
                let handle = self.entries[i].handle;
                let kind = self.entries[i].kind;
                let deps = copy_indices(&self.entries[i].deps);
                self.entries.set(i, ResourceEntry { kind, handle, alive: false, deps });
            }
            proof {
                let s = old(self).res();
                assert(s.skip(i as int).len() == n - i);
                assert(s.skip(i as int).drop_first() =~= s.skip(i + 1));
                assert(s.skip(i as int).first() == s[i as int]);
            }
        }
        proof {
            assert(old(self).res().skip(0) =~= old(self).res());
            assert forall|i2: int| 0 <= i2 < self.res().len() implies #[trigger] self.deps_below(
                i2,
            ) && (self.res()[i2].alive ==> self.deps_alive(i2)) by {
                assert(old(self).deps_below(i2));
                assert(self.res()[i2].deps@ == old(self).res()[i2].deps@);
            }
        }
        handles
    }
}

/// The handles of the live entries of `s`, in reverse creation order.
pub open spec fn teardown_order(s: Seq<ResourceEntry>) -> Seq<u64>
    decreases s.len(),
{
    if s.len() == 0 {
        Seq::empty()
    } else if s.first().alive {
        teardown_order(s.drop_first()).push(s.first().handle)
    } else {
        teardown_order(s.drop_first())
    }
}

/// Whether the dependency list `v` mentions index `x`.
fn deps_contain(v: &Vec<usize>, x: usize) -> (r: bool)
    ensures
        r == v@.contains(x),
{
    let n = v.len();
    let mut i: usize = 0;
    while i < n
        invariant
            n == v@.len(),
            i <= n,
            forall|k: int| 0 <= k < i ==> v@[k] != x,
        decreases n - i,
    {
        if v[i] == x {
            return true;
        }
        i = i + 1;
    }
    false
}

/// A by-value copy of a dependency list.
fn copy_indices(v: &Vec<usize>) -> (r: Vec<usize>)
    ensures
        r@ == v@,
{
    let n = v.len();
    let mut r: Vec<usize> = Vec::new();
    let mut i: usize = 0;
    while i < n
        invariant
            n == v@.len(),
            i <= n,
            r@.len() == i,
            forall|k: int| 0 <= k < i ==> r@[k] == v@[k],
        decreases n - i,
    {
        r.push(v[i]);
        i = i + 1;
    }
    proof {
        assert(r@ =~= v@);
    }
    r
}

/// The uniform contract of every GPU-visible resource type: expose the
/// native handle read-only, and tear the object down through the registry
/// that records its ownership, which refuses while a dependent is alive.
pub trait VulkanObject {
    /// The native handle the object wraps.
    spec fn handle_spec(&self) -> u64;

    /// The object's entry in the registry it was registered with.
    spec fn id_spec(&self) -> usize;

    /// The object's registry entry exists and carries its native handle.
    open spec fn registered_in(&self, reg: ResourceRegistry) -> bool {
        &&& (self.id_spec() as int) < reg.res().len()
        &&& reg.res()[self.id_spec() as int].handle == self.handle_spec()
    }

    /// The native handle, read-only.
    fn vulkan_object(&self) -> (h: u64)
        ensures
            h == self.handle_spec(),
    ;

    /// The object's registry entry, for registering dependents against it.
    fn resource_id(&self) -> (id: usize)
        ensures
            id == self.id_spec(),
    ;

    /// Tears the object's registry entry down, as
    /// [`ResourceRegistry::teardown`] does, and returns the native handle
    /// to destroy through the driver.
    fn cleanup(&self, reg: &mut ResourceRegistry) -> (r: Result<u64, RegistryError>)
        requires
            old(reg).wf(),
            self.registered_in(*old(reg)),
        ensures
            final(reg).wf(),
            r is Ok <==> (old(reg).res()[self.id_spec() as int].alive && !old(
                reg,
            ).has_live_dependent(self.id_spec())),
            r matches Ok(h) ==> h == self.handle_spec(),
            r is Ok ==> final(reg).res().len() == old(reg).res().len() && !final(reg).res()[
                self.id_spec() as int
            ].alive && forall|i: int|
                0 <= i < old(reg).res().len() && i != self.id_spec() as int ==> final(reg).res()[i]
                    == old(reg).res()[i],
            r is Err ==> *final(reg) == *old(reg),
    ;
}

/// A live dependent blocks teardown: if `a` is alive and lists `d` among
/// its dependencies, then `d` has a live dependent, so
/// [`ResourceRegistry::teardown`] refuses to destroy `d`.
pub proof fn lemma_live_dependent_blocks_teardown(reg: ResourceRegistry, a: int, d: usize)
    requires
        reg.wf(),
        0 <= a < reg.res().len(),
        reg.res()[a].alive,
        reg.res()[a].deps@.contains(d),
    ensures
        reg.has_live_dependent(d),
{
}

} // verus!
