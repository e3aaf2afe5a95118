//! Teardown ordering.
//!
//! Resources form a creation-ordered chain (instance up to the per-slot sync
//! primitives) and no later-created resource may outlive an earlier one. On
//! shutdown everything is destroyed in strict reverse creation order. The
//! ledger here makes out-of-order destruction unreachable through its public
//! contract: a resource can only be destroyed once everything created after
//! it is already gone.

use vstd::prelude::*;

verus! {

/// How many destruction stages a full run tears down.
pub const RESOURCE_STAGES: usize = 10;

/// The resources of one run, one per destruction stage.
#[derive(Debug, Clone, Copy, PartialEq, Eq, Structural)]
pub enum ResourceKind {
    Instance,
    Surface,
    ExecutionContext,
    PresentationChain,
    ImageViews,
    RenderPass,
    Pipeline,
    Framebuffers,
    CommandPool,
    SyncObjects,
}

/// The position of a resource in creation order: the instance comes first,
/// the per-slot sync primitives last.
pub open spec fn creation_rank(k: ResourceKind) -> int {
    match k {
        ResourceKind::Instance => 0,
        ResourceKind::Surface => 1,
        ResourceKind::ExecutionContext => 2,
        ResourceKind::PresentationChain => 3,
        ResourceKind::ImageViews => 4,
        ResourceKind::RenderPass => 5,
        ResourceKind::Pipeline => 6,
        ResourceKind::Framebuffers => 7,
        ResourceKind::CommandPool => 8,
        ResourceKind::SyncObjects => 9,
    }
}

/// The position of this resource in creation order.
impl ResourceKind {
    pub fn rank(&self) -> (r: usize)
        ensures
            r == creation_rank(*self),
    {
        match self {
            ResourceKind::Instance => 0,
            ResourceKind::Surface => 1,
            ResourceKind::ExecutionContext => 2,
            ResourceKind::PresentationChain => 3,
            ResourceKind::ImageViews => 4,
            ResourceKind::RenderPass => 5,
            ResourceKind::Pipeline => 6,
            ResourceKind::Framebuffers => 7,
            ResourceKind::CommandPool => 8,
            ResourceKind::SyncObjects => 9,
        }
    }
}

/// The order shutdown destroys the resources in.
pub open spec fn teardown_sequence() -> Seq<ResourceKind> {
    seq![
        ResourceKind::SyncObjects,
        ResourceKind::CommandPool,
        ResourceKind::Framebuffers,
        ResourceKind::Pipeline,
        ResourceKind::RenderPass,
        ResourceKind::ImageViews,
        ResourceKind::PresentationChain,
        ResourceKind::ExecutionContext,
        ResourceKind::Surface,
        ResourceKind::Instance,
    ]
}

/// The destruction schedule for shutdown: every stage once, sync primitives
/// first, the instance last.
pub fn teardown_order() -> (r: Vec<ResourceKind>)
    ensures
        r@ == teardown_sequence(),
{
    let mut order: Vec<ResourceKind> = Vec::new();
    order.push(ResourceKind::SyncObjects);
    order.push(ResourceKind::CommandPool);
    order.push(ResourceKind::Framebuffers);
    order.push(ResourceKind::Pipeline);
    order.push(ResourceKind::RenderPass);
    order.push(ResourceKind::ImageViews);
    order.push(ResourceKind::PresentationChain);
    order.push(ResourceKind::ExecutionContext);
    order.push(ResourceKind::Surface);
    order.push(ResourceKind::Instance);
    proof {
        assert(order@ =~= teardown_sequence());
    }
    order
}

/// The teardown sequence visits every stage exactly once, in strict reverse
/// creation order.
pub proof fn lemma_teardown_reverses_creation()
    ensures
        teardown_sequence().len() == RESOURCE_STAGES,
        forall|i: int|
            0 <= i < teardown_sequence().len() ==> creation_rank(#[trigger] teardown_sequence()[i])
                == RESOURCE_STAGES - 1 - i,
{
    assert forall|i: int| 0 <= i < teardown_sequence().len() implies creation_rank(
        #[trigger] teardown_sequence()[i],
    ) == RESOURCE_STAGES - 1 - i by {
        if i == 0 {
            assert(teardown_sequence()[0] == ResourceKind::SyncObjects);
        } else if i == 1 {
            assert(teardown_sequence()[1] == ResourceKind::CommandPool);
        } else if i == 2 {
            assert(teardown_sequence()[2] == ResourceKind::Framebuffers);
        } else if i == 3 {
            assert(teardown_sequence()[3] == ResourceKind::Pipeline);
        } else if i == 4 {
            assert(teardown_sequence()[4] == ResourceKind::RenderPass);
        } else if i == 5 {
            assert(teardown_sequence()[5] == ResourceKind::ImageViews);
        } else if i == 6 {
            assert(teardown_sequence()[6] == ResourceKind::PresentationChain);
        } else if i == 7 {
            assert(teardown_sequence()[7] == ResourceKind::ExecutionContext);
        } else if i == 8 {
            assert(teardown_sequence()[8] == ResourceKind::Surface);
        } else {
            assert(teardown_sequence()[9] == ResourceKind::Instance);
        }
    }
}

/// No resource has been destroyed before every resource created after it:
/// the destroyed entries form a suffix of the creation order.
pub open spec fn reverse_ordered(alive: Seq<bool>) -> bool {
    forall|i: int, j: int|
        0 <= i <= j < alive.len() && !(#[trigger] alive[i]) ==> !(#[trigger] alive[j])
}

/// In a reverse-ordered ledger, a destroyed resource implies that every
/// resource created after it is destroyed too: nothing created later
/// outlives it.
pub proof fn lemma_dependents_destroyed_first(alive: Seq<bool>, i: int, j: int)
    requires
        reverse_ordered(alive),
        0 <= i <= j < alive.len(),
        !alive[i],
    ensures
        !alive[j],
{
}

/// A ledger of which resources are still alive, indexed by creation rank.
/// Destruction is only reachable in reverse creation order.
pub struct TeardownSequencer {
    alive: Vec<bool>,
}

impl TeardownSequencer {
    /// Which resources are still alive, by creation rank.
    pub closed spec fn spec_alive(&self) -> Seq<bool> {
        self.alive@
    }

    /// A fresh ledger: every resource has just been created and is alive.
    pub fn new(count: usize) -> (r: TeardownSequencer)
        ensures
            r.spec_alive().len() == count,
            forall|i: int| 0 <= i < count ==> r.spec_alive()[i],
            reverse_ordered(r.spec_alive()),
    {
        let mut alive: Vec<bool> = Vec::new();
        let mut k: usize = 0;
        while k < count
            invariant
                0 <= k <= count,
                alive@.len() == k,
                forall|i: int| 0 <= i < k ==> alive@[i],
            decreases count - k,
        {
            alive.push(true);
            k = k + 1;
        }
        TeardownSequencer { alive }
    }

    /// How many resources the ledger tracks.
    pub fn count(&self) -> (r: usize)
        ensures
            r == self.spec_alive().len(),
    {
        self.alive.len()
    }

    /// Whether the resource with this creation rank is still alive.
    pub fn is_alive(&self, rank: usize) -> (r: bool)
        requires
            rank < self.spec_alive().len(),
        ensures
            r == self.spec_alive()[rank as int],
    {
        self.alive[rank]
    }

    /// Destroy one resource. Only reachable when the resource is alive and
    /// everything created after it is already destroyed, so destruction can
    /// only proceed in reverse creation order; the suffix shape of the
    /// destroyed set is preserved.
    pub fn destroy(&mut self, rank: usize)
        requires
            reverse_ordered(old(self).spec_alive()),
            rank < old(self).spec_alive().len(),
            old(self).spec_alive()[rank as int],
            forall|j: int|
                rank < j < old(self).spec_alive().len() ==> !old(self).spec_alive()[j],
        ensures
            final(self).spec_alive() == old(self).spec_alive().update(rank as int, false),
            reverse_ordered(final(self).spec_alive()),
    {
        self.alive.set(rank, false);
    }

    /// Destroy every remaining resource, latest-created first. Afterwards
    /// nothing is alive, and at no point was a resource destroyed before the
    /// resources created after it.
    pub fn teardown_all(&mut self)
        requires
            reverse_ordered(old(self).spec_alive()),
        ensures
            final(self).spec_alive().len() == old(self).spec_alive().len(),
            forall|i: int| 0 <= i < final(self).spec_alive().len() ==> !final(self).spec_alive()[i],
            reverse_ordered(final(self).spec_alive()),
    {
        let n = self.alive.len();
        let mut k: usize = n;
        while k > 0
            invariant
                0 <= k <= n,
                self.spec_alive().len() == n,
                reverse_ordered(self.spec_alive()),
                forall|j: int| k <= j < n ==> !self.spec_alive()[j],
            decreases k,
        {
            k = k - 1;
            if self.is_alive(k) {
                self.destroy(k);
            }
        }
    }
}

} // verus!
