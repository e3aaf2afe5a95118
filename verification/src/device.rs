//! Accelerator selection and queue-family resolution.
//!
//! The platform layer enumerates the physical accelerators and queries each
//! queue family; it hands this module the resulting capability snapshots as
//! plain values. The functions here apply the selection policy and return
//! indices into those snapshots; the platform layer then uses the indices on
//! the real handles.

use vstd::prelude::*;

use crate::SetupError;

verus! {

/// The device-type class a physical accelerator reports.
#[derive(Debug, Clone, Copy, PartialEq, Eq, Structural)]
pub enum DeviceClass {
    Discrete,
    Integrated,
    Other,
}

/// Capability snapshot of one enumerated accelerator: its device-type class
/// and whether it reports support for geometry-stage shading, the one
/// required feature.
#[derive(Debug, Clone, Copy, PartialEq, Eq, Structural)]
pub struct AcceleratorInfo {
    pub class: DeviceClass,
    pub supports_geometry_shader: bool,
}

/// An accelerator satisfies the feature requirement when it supports
/// geometry-stage shading.
pub open spec fn feature_ok(d: AcceleratorInfo) -> bool {
    d.supports_geometry_shader
}

/// A discrete-class accelerator that satisfies the feature requirement.
pub open spec fn discrete_candidate(d: AcceleratorInfo) -> bool {
    feature_ok(d) && d.class is Discrete
}

/// An integrated-class accelerator that satisfies the feature requirement.
pub open spec fn integrated_candidate(d: AcceleratorInfo) -> bool {
    feature_ok(d) && d.class is Integrated
}

/// The least index at or after `i` whose element satisfies `p`, if any.
pub open spec fn first_from<T>(s: Seq<T>, i: int, p: spec_fn(T) -> bool) -> Option<int>
    decreases s.len() - i,
{
    if i < 0 || i >= s.len() {
        None
    } else if p(s[i]) {
        Some(i)
    } else {
        first_from(s, i + 1, p)
    }
}

/// Scanning from the start finds the same match as scanning from `i` when no
/// element before `i` satisfies `p`.
proof fn lemma_first_from_skip<T>(s: Seq<T>, i: int, p: spec_fn(T) -> bool)
    requires
        0 <= i <= s.len(),
        forall|j: int| 0 <= j < i ==> !p(s[j]),
    ensures
        first_from(s, 0, p) == first_from(s, i, p),
    decreases i,
{
    if i > 0 {
        lemma_first_from_skip(s, i - 1, p);
    }
}

/// What `first_from(s, i, p)` returns: the least satisfying index at or after
/// `i`, or nothing when no element from `i` on satisfies `p`.
pub proof fn lemma_first_from_props<T>(s: Seq<T>, i: int, p: spec_fn(T) -> bool)
    requires
        0 <= i <= s.len(),
    ensures
        match first_from(s, i, p) {
            Some(k) => i <= k < s.len() && p(s[k]) && forall|j: int| i <= j < k ==> !p(s[j]),
            None => forall|j: int| i <= j < s.len() ==> !p(s[j]),
        },
    decreases s.len() - i,
{
    if i < s.len() && !p(s[i]) {
        lemma_first_from_props(s, i + 1, p);
    }
}

/// The predicate the selection policy prefers: a feature-satisfying
/// discrete-class accelerator.
pub open spec fn discrete_pred() -> spec_fn(AcceleratorInfo) -> bool {
    |d: AcceleratorInfo| discrete_candidate(d)
}

/// The fallback predicate: a feature-satisfying integrated-class accelerator.
pub open spec fn integrated_pred() -> spec_fn(AcceleratorInfo) -> bool {
    |d: AcceleratorInfo| integrated_candidate(d)
}

/// The index the selection policy chooses: the first feature-satisfying
/// discrete accelerator, else the first feature-satisfying integrated one,
/// else nothing.
pub open spec fn selected_accelerator(devs: Seq<AcceleratorInfo>) -> Option<int> {
    match first_from(devs, 0, discrete_pred()) {
        Some(i) => Some(i),
        None => first_from(devs, 0, integrated_pred()),
    }
}

/// Apply the suitability policy to the enumerated accelerators and return the
/// index of the chosen one: reject every accelerator that lacks geometry-stage
/// shading; among the rest, take the first discrete-class device as soon as
/// one is seen, else fall back to the first integrated-class device. With no
/// candidate of either class, startup fails.
pub fn pick_physical_device(devices: &Vec<AcceleratorInfo>) -> (r: Result<usize, SetupError>)
    ensures
        match r {
            Ok(i) => i < devices@.len() && selected_accelerator(devices@) == Some(i as int),
            Err(e) => e == SetupError::NoSuitableAccelerator && selected_accelerator(devices@) is None,
        },
{
    let n = devices.len();
    let mut fallback: Option<usize> = None;
    let mut k: usize = 0;
    while k < n
        invariant
            n == devices@.len(),
            0 <= k <= n,
            forall|j: int| 0 <= j < k ==> !discrete_candidate(devices@[j]),
            match fallback {
                Some(f) => f < n && first_from(devices@, 0, integrated_pred()) == Some(f as int),
                None => forall|j: int| 0 <= j < k ==> !integrated_candidate(devices@[j]),
            },
        decreases n - k,
    {
        let d = devices[k];
        if d.supports_geometry_shader {
            if matches!(d.class, DeviceClass::Discrete) {
                proof {
                    lemma_first_from_skip(devices@, k as int, discrete_pred());
                }
                return Ok(k);
            }
            if matches!(d.class, DeviceClass::Integrated) && fallback.is_none() {
                proof {
                    lemma_first_from_skip(devices@, k as int, integrated_pred());
                }
                fallback = Some(k);
            }
        }
        k = k + 1;
    }
    proof {
        lemma_first_from_skip(devices@, n as int, discrete_pred());
        if fallback is None {
            lemma_first_from_skip(devices@, n as int, integrated_pred());
        }
    }
    match fallback {
        Some(f) => Ok(f),
        None => Err(SetupError::NoSuitableAccelerator),
    }
}

/// For every accelerator list with at least one feature-satisfying discrete
/// device, selection succeeds and yields a feature-satisfying discrete
/// device — never an integrated one — whatever the enumeration order.
pub proof fn lemma_selector_prefers_discrete(devs: Seq<AcceleratorInfo>)
    requires
        exists|i: int| 0 <= i < devs.len() && discrete_candidate(devs[i]),
    ensures
        (match selected_accelerator(devs) {
            Some(k) => 0 <= k < devs.len() && devs[k].class is Discrete && feature_ok(devs[k]),
            None => false,
        }),
{
    lemma_first_from_props(devs, 0, discrete_pred());
    let w = choose|i: int| 0 <= i < devs.len() && discrete_candidate(devs[i]);
    assert(discrete_pred()(devs[w]));
}

/// For every accelerator list whose entries are all feature-satisfying
/// integrated devices, selection returns the first entry.
pub proof fn lemma_selector_integrated_takes_first(devs: Seq<AcceleratorInfo>)
    requires
        devs.len() > 0,
        forall|i: int| 0 <= i < devs.len() ==> integrated_candidate(#[trigger] devs[i]),
    ensures
        (selected_accelerator(devs) == Some(0 as int)),
{
    lemma_first_from_props(devs, 0, discrete_pred());
    assert(!discrete_pred()(devs[0]));
    assert(integrated_pred()(devs[0]));
}

/// For every accelerator list in which no device satisfies the feature
/// requirement, selection fails.
pub proof fn lemma_selector_fails_without_feature(devs: Seq<AcceleratorInfo>)
    requires
        forall|i: int| 0 <= i < devs.len() ==> !feature_ok(#[trigger] devs[i]),
    ensures
        selected_accelerator(devs) is None,
{
    lemma_first_from_props(devs, 0, discrete_pred());
    lemma_first_from_props(devs, 0, integrated_pred());
    if first_from(devs, 0, discrete_pred()) is Some {
        let k = first_from(devs, 0, discrete_pred())->Some_0;
        assert(discrete_pred()(devs[k]));
    }
    if first_from(devs, 0, integrated_pred()) is Some {
        let k = first_from(devs, 0, integrated_pred())->Some_0;
        assert(integrated_pred()(devs[k]));
    }
}

/// Capability snapshot of one queue family: whether its flags include
/// graphics submission, and whether the platform reports it able to present
/// to the target surface (queried per family against the surface, not assumed
/// from the flags).
#[derive(Debug, Clone, Copy, PartialEq, Eq, Structural)]
pub struct QueueFamilyInfo {
    pub supports_graphics: bool,
    pub supports_present: bool,
}

/// The resolved pair of queue-family indices; the two may coincide.
#[derive(Debug, Clone, Copy, PartialEq, Eq, Structural)]
pub struct QueueAssignment {
    pub graphics: u32,
    pub present: u32,
}

/// The predicate for the graphics-submission role.
pub open spec fn graphics_pred() -> spec_fn(QueueFamilyInfo) -> bool {
    |q: QueueFamilyInfo| q.supports_graphics
}

/// The predicate for the surface-presentation role.
pub open spec fn present_pred() -> spec_fn(QueueFamilyInfo) -> bool {
    |q: QueueFamilyInfo| q.supports_present
}

/// The indices queue resolution chooses: the first graphics-capable family
/// and, independently, the first present-capable family, when both exist.
pub open spec fn resolved_queue_indices(fams: Seq<QueueFamilyInfo>) -> Option<(int, int)> {
    match (first_from(fams, 0, graphics_pred()), first_from(fams, 0, present_pred())) {
        (Some(g), Some(p)) => Some((g, p)),
        _ => None,
    }
}

/// Scan the queue families of the chosen accelerator in index order and
/// resolve the two roles: the first family whose flags include graphics
/// submission, and independently the first family that can present to the
/// surface. The scan stops once both are found; the two indices may coincide.
/// Resolution fails when either role is never satisfied.
pub fn find_queue_families(families: &Vec<QueueFamilyInfo>) -> (r: Result<QueueAssignment, SetupError>)
    requires
        families@.len() <= u32::MAX,
    ensures
        match r {
            Ok(qa) => qa.graphics < families@.len() && qa.present < families@.len()
                && resolved_queue_indices(families@) == Some((qa.graphics as int, qa.present as int)),
            Err(e) => {
                &&& resolved_queue_indices(families@) is None
                &&& e == if first_from(families@, 0, graphics_pred()) is None {
                    SetupError::NoGraphicsQueue
                } else {
                    SetupError::NoPresentQueue
                }
            },
        },
{
    let n = families.len();
    let mut graphics: Option<u32> = None;
    let mut present: Option<u32> = None;
    let mut k: usize = 0;
    while k < n && (graphics.is_none() || present.is_none())
        invariant
            n == families@.len(),
            n <= u32::MAX,
            0 <= k <= n,
            match graphics {
                Some(g) => g < n && first_from(families@, 0, graphics_pred()) == Some(g as int),
                None => forall|j: int| 0 <= j < k ==> !families@[j].supports_graphics,
            },
            match present {
                Some(p) => p < n && first_from(families@, 0, present_pred()) == Some(p as int),
                None => forall|j: int| 0 <= j < k ==> !families@[j].supports_present,
            },
        decreases n - k,
    {
        let fam = families[k];
        if fam.supports_graphics && graphics.is_none() {
            proof {
                lemma_first_from_skip(families@, k as int, graphics_pred());
            }
            graphics = Some(k as u32);
        }
        if fam.supports_present && present.is_none() {
            proof {
                lemma_first_from_skip(families@, k as int, present_pred());
            }
            present = Some(k as u32);
        }
        k = k + 1;
    }
    proof {
        if graphics is None {
            lemma_first_from_skip(families@, n as int, graphics_pred());
        }
        if present is None {
            lemma_first_from_skip(families@, n as int, present_pred());
        }
    }
    match (graphics, present) {
        (Some(g), Some(p)) => Ok(QueueAssignment { graphics: g, present: p }),
        (None, _) => Err(SetupError::NoGraphicsQueue),
        (_, None) => Err(SetupError::NoPresentQueue),
    }
}

/// The queue-creation parameters for the execution context: the unique
/// queue-family indices to request one queue from, and whether one queue
/// handle serves both roles.
#[derive(Debug, Clone, PartialEq, Eq)]
pub struct DeviceQueuePlan {
    /// The distinct family indices to request, duplicates collapsed:
    /// `[graphics]` when the roles share a family, `[graphics, present]`
    /// otherwise. One queue is requested per listed family.
    pub unique_family_indices: Vec<u32>,
    /// When true the present role reuses the graphics queue handle; when
    /// false a distinct present queue handle is retrieved.
    pub use_single_queue: bool,
}

/// Collapse the resolved queue-family indices into the set of unique families
/// the execution context must request, and decide whether the present role
/// reuses the graphics queue handle. The platform layer creates the logical
/// device from this plan and retrieves one queue per listed family.
pub fn create_logical_device(assignment: &QueueAssignment) -> (r: DeviceQueuePlan)
    ensures
        r.use_single_queue == (assignment.graphics == assignment.present),
        assignment.graphics == assignment.present ==> r.unique_family_indices@ == seq![
            assignment.graphics,
        ],
        assignment.graphics != assignment.present ==> r.unique_family_indices@ == seq![
            assignment.graphics,
            assignment.present,
        ],
{
    let use_single_queue = assignment.graphics == assignment.present;
    let mut unique_family_indices: Vec<u32> = Vec::new();
    unique_family_indices.push(assignment.graphics);
    if !use_single_queue {
        unique_family_indices.push(assignment.present);
    }
    proof {
        if use_single_queue {
            assert(unique_family_indices@ =~= seq![assignment.graphics]);
        } else {
            assert(unique_family_indices@ =~= seq![assignment.graphics, assignment.present]);
        }
    }
    DeviceQueuePlan { unique_family_indices, use_single_queue }
}

/// The queue family the command pool is scoped to: the present-capable one,
/// as the recorder allocates its buffers for the presentation path.
pub fn command_pool_family(assignment: &QueueAssignment) -> (r: u32)
    ensures
        r == assignment.present,
{
    assignment.present
}

} // verus!
