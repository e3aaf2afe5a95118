//! The per-frame synchronization state machine.
//!
//! Each redraw tick runs wait-previous, acquire, submit, present, advance.
//! The platform layer performs the blocking waits, the acquire and the queue
//! calls; this module owns the in-flight slot index and decides, for each
//! tick, which fence to wait on, which semaphores and fence the submission
//! uses, and which command buffer is submitted — always the one indexed by
//! the acquired image index, never by the slot index, since the chain's image
//! count and the slot count may differ.

use vstd::prelude::*;

use vstd::arithmetic::div_mod::lemma_fundamental_div_mod;
use vstd::arithmetic::div_mod::lemma_fundamental_div_mod_converse;
use vstd::arithmetic::div_mod::lemma_mod_bound;

verus! {

/// How many frame slots may be in flight simultaneously. Semaphore and fence
/// sets are sized by this count, not by the chain's image count.
pub const MAX_FRAMES_IN_FLIGHT: usize = 2;

/// What the acquire step reported: the index of the next presentable image,
/// or a failure (for example, a chain that is out of date). A failure
/// abandons the tick; it is reported by the caller, never retried here.
#[derive(Debug, Clone, Copy, PartialEq, Eq, Structural)]
pub enum AcquireOutcome {
    Acquired(u32),
    Failed,
}

/// The submission parameters for one tick: which command buffer to submit,
/// which slot's "image available" semaphore the submission waits on, which
/// slot's "render finished" semaphore it signals, and which slot's fence is
/// armed to signal completion.
#[derive(Debug, Clone, Copy, PartialEq, Eq, Structural)]
pub struct SubmitPlan {
    pub command_buffer_index: usize,
    pub wait_semaphore_slot: usize,
    pub signal_semaphore_slot: usize,
    pub fence_slot: usize,
}

/// The owner of the current in-flight slot index. The index is advanced
/// exactly once per completed tick, by `tick`, and by nothing else.
pub struct FrameLoop {
    slot_count: usize,
    current_frame: usize,
    fence_arms: Ghost<Seq<nat>>,
}

impl FrameLoop {
    /// The fixed number of in-flight slots.
    pub closed spec fn spec_slot_count(&self) -> int {
        self.slot_count as int
    }

    /// The slot the next tick runs in.
    pub closed spec fn spec_current(&self) -> int {
        self.current_frame as int
    }

    /// How often each slot's fence has been armed: once per completed tick in
    /// that slot, and the fence is signaled exactly once per arming.
    pub closed spec fn arms(&self) -> Seq<nat> {
        self.fence_arms@
    }

    /// Well-formedness: at least one slot, the current index strictly inside
    /// the slot range, and one arming count per slot.
    pub open spec fn wf(&self) -> bool {
        &&& 1 <= self.spec_slot_count()
        &&& 0 <= self.spec_current() < self.spec_slot_count()
        &&& self.arms().len() == self.spec_slot_count()
    }

    /// A fresh loop: slot zero is current and no fence has been armed yet.
    pub fn new(slot_count: usize) -> (r: FrameLoop)
        requires
            slot_count >= 1,
        ensures
            r.wf(),
            r.spec_slot_count() == slot_count,
            r.spec_current() == 0,
            forall|i: int| 0 <= i < slot_count ==> r.arms()[i] == 0,
    {
        FrameLoop {
            slot_count,
            current_frame: 0,
            fence_arms: Ghost(Seq::new(slot_count as nat, |i: int| 0nat)),
        }
    }

    /// The number of slots, and so the number of "image available"
    /// semaphores, "render finished" semaphores and fences the platform layer
    /// must create.
    pub fn slot_count(&self) -> (r: usize)
        ensures
            r == self.spec_slot_count(),
    {
        self.slot_count
    }

    /// The slot the coming tick runs in: the tick first blocks on this slot's
    /// fence (wait-previous) and then resets it.
    pub fn current_slot(&self) -> (r: usize)
        requires
            self.wf(),
        ensures
            r == self.spec_current(),
            0 <= r < self.spec_slot_count(),
    {
        self.current_frame
    }

    /// Complete one tick after the acquire step. On a successful acquire the
    /// tick submits the command buffer indexed by the acquired image index
    /// with the current slot's semaphores, arms the current slot's fence, and
    /// advances the slot index by one modulo the slot count. On a failed
    /// acquire the tick is abandoned: nothing is submitted and the slot index
    /// does not advance.
    pub fn tick(&mut self, acquire: AcquireOutcome, command_buffer_count: usize) -> (r: Option<
        SubmitPlan,
    >)
        requires
            old(self).wf(),
            (match acquire {
                AcquireOutcome::Acquired(image_index) => image_index < command_buffer_count,
                AcquireOutcome::Failed => true,
            }),
        ensures
            final(self).wf(),
            final(self).spec_slot_count() == old(self).spec_slot_count(),
            (match acquire {
                AcquireOutcome::Acquired(image_index) => {
                    &&& (match r {
                        Some(plan) => {
                            &&& plan.command_buffer_index == image_index
                            &&& plan.command_buffer_index < command_buffer_count
                            &&& plan.wait_semaphore_slot == old(self).spec_current()
                            &&& plan.signal_semaphore_slot == old(self).spec_current()
                            &&& plan.fence_slot == old(self).spec_current()
                        },
                        None => false,
                    })
                    &&& final(self).spec_current() == (old(self).spec_current() + 1) % old(
                        self,
                    ).spec_slot_count()
                    &&& final(self).arms() == old(self).arms().update(
                        old(self).spec_current(),
                        (old(self).arms()[old(self).spec_current()] + 1) as nat,
                    )
                },
                AcquireOutcome::Failed => r is None && *final(self) == *old(self),
            }),
    {
        match acquire {
            AcquireOutcome::Failed => None,
            AcquireOutcome::Acquired(image_index) => {
                let plan = SubmitPlan {
                    command_buffer_index: image_index as usize,
                    wait_semaphore_slot: self.current_frame,
                    signal_semaphore_slot: self.current_frame,
                    fence_slot: self.current_frame,
                };
                let ghost slot = self.current_frame as int;
                self.fence_arms = Ghost(
                    self.fence_arms@.update(slot, (self.fence_arms@[slot] + 1) as nat),
                );
                self.current_frame = (self.current_frame + 1) % self.slot_count;
                Some(plan)
            },
        }
    }
}

impl Default for FrameLoop {
    /// A fresh loop over `MAX_FRAMES_IN_FLIGHT` slots.
    fn default() -> (r: FrameLoop)
        ensures
            r.wf(),
            r.spec_slot_count() == MAX_FRAMES_IN_FLIGHT,
            r.spec_current() == 0,
            forall|i: int| 0 <= i < MAX_FRAMES_IN_FLIGHT ==> r.arms()[i] == 0,
    {
        FrameLoop::new(MAX_FRAMES_IN_FLIGHT)
    }
}

/// The slot index after `n` completed ticks of a fresh loop: each completed
/// tick advances it by one modulo the slot count.
pub open spec fn slot_after_ticks(n: nat, slot_count: nat) -> nat
    decreases n,
{
    if slot_count == 0 {
        0
    } else if n == 0 {
        0
    } else {
        (slot_after_ticks((n - 1) as nat, slot_count) + 1) % slot_count
    }
}

/// Each slot's fence-arming count after `n` completed ticks of a fresh loop:
/// the tick running in a slot arms that slot's fence once.
pub open spec fn arms_after_ticks(n: nat, slot_count: nat) -> Seq<nat>
    decreases n,
{
    if n == 0 {
        Seq::new(slot_count, |i: int| 0nat)
    } else {
        let prev = arms_after_ticks((n - 1) as nat, slot_count);
        let slot = slot_after_ticks((n - 1) as nat, slot_count);
        prev.update(slot as int, (prev[slot as int] + 1) as nat)
    }
}

/// How dividing by the slot count changes from one tick count to the next:
/// stepping past a slot-count boundary resets the remainder and bumps the
/// quotient; any other step bumps the remainder and keeps the quotient.
proof fn lemma_div_mod_succ(a: int, m: int)
    requires
        a >= 0,
        m >= 1,
    ensures
        a % m + 1 == m ==> (a + 1) % m == 0 && (a + 1) / m == a / m + 1,
        a % m + 1 < m ==> (a + 1) % m == a % m + 1 && (a + 1) / m == a / m,
{
    lemma_mod_bound(a, m);
    lemma_fundamental_div_mod(a, m);
    if a % m + 1 == m {
        assert(a + 1 == (a / m + 1) * m) by (nonlinear_arith)
            requires
                a == m * (a / m) + a % m,
                a % m + 1 == m,
        ;
        lemma_fundamental_div_mod_converse(a + 1, m, a / m + 1, 0);
    } else {
        assert(a + 1 == (a / m) * m + (a % m + 1)) by (nonlinear_arith)
            requires
                a == m * (a / m) + a % m,
        ;
        lemma_fundamental_div_mod_converse(a + 1, m, a / m, a % m + 1);
    }
}

/// Running `n` error-free ticks from a fresh loop leaves the in-flight slot
/// index at `n` modulo the slot count.
pub proof fn lemma_slot_index_after_ticks(n: nat, slot_count: nat)
    requires
        slot_count >= 1,
    ensures
        slot_after_ticks(n, slot_count) == n % slot_count,
    decreases n,
{
    if n == 0 {
        lemma_fundamental_div_mod_converse(0, slot_count as int, 0, 0);
    } else {
        lemma_slot_index_after_ticks((n - 1) as nat, slot_count);
        lemma_div_mod_succ((n - 1) as int, slot_count as int);
        lemma_mod_bound((n - 1) as int, slot_count as int);
        if (n - 1) as int % slot_count as int + 1 == slot_count as int {
            lemma_fundamental_div_mod_converse(
                slot_count as int,
                slot_count as int,
                1,
                0,
            );
        } else {
            lemma_fundamental_div_mod_converse(
                ((n - 1) as int % slot_count as int) + 1,
                slot_count as int,
                0,
                ((n - 1) as int % slot_count as int) + 1,
            );
        }
    }
}

/// Running `n` error-free ticks from a fresh loop arms each slot's fence
/// exactly once per completed cycle through that slot: `n` divided by the
/// slot count armings for every slot, plus one more for the slots the final
/// partial cycle has already passed.
pub proof fn lemma_fence_armed_once_per_cycle(n: nat, slot_count: nat, slot: int)
    requires
        slot_count >= 1,
        0 <= slot < slot_count,
    ensures
        arms_after_ticks(n, slot_count).len() == slot_count,
        arms_after_ticks(n, slot_count)[slot] == n / slot_count + (if slot < n % slot_count {
            1nat
        } else {
            0nat
        }),
    decreases n,
{
    if n == 0 {
        lemma_fundamental_div_mod_converse(0, slot_count as int, 0, 0);
    } else {
        lemma_fence_armed_once_per_cycle((n - 1) as nat, slot_count, slot);
        lemma_slot_index_after_ticks((n - 1) as nat, slot_count);
        lemma_div_mod_succ((n - 1) as int, slot_count as int);
        lemma_mod_bound((n - 1) as int, slot_count as int);
    }
}

} // verus!
