//! Choosing a compute device and deriving the launch geometry of the
//! reduction kernels from what it reports.
use vstd::prelude::*;

verus! {

/// Upper bound on the number of work items in one work group.
pub const MAX_WORK_GROUP_SIZE: usize = 256;

/// Number of work groups of a reduction launch, and so of partial results.
pub const WORK_GROUP_COUNT: usize = 64;

/// The class of a compute device a platform offers.
#[derive(Clone, Copy, Debug, PartialEq, Eq, Structural)]
pub enum DeviceKind {
    /// A graphics processor or other accelerator.
    Accelerator,
    /// A device of any other class, the host processor among them.
    General,
}

/// Picks the device to compute on among the devices of kinds `kinds`, in the
/// order the platforms list them: the first accelerator, or, where there is
/// none, the first device of any kind.
pub fn select_device(kinds: &Vec<DeviceKind>) -> (r: Option<usize>)
    ensures
        r is None <==> kinds.len() == 0,
        r matches Some(i) ==> {
            &&& i < kinds.len()
            &&& forall|j: int| 0 <= j < i ==> kinds[j] != DeviceKind::Accelerator
            &&& (kinds[i as int] == DeviceKind::Accelerator || (i == 0 && forall|j: int|
                0 <= j < kinds.len() ==> kinds[j] != DeviceKind::Accelerator))
        },
{
    let mut i: usize = 0;
    while i < kinds.len()
        invariant
            i <= kinds.len(),
            forall|j: int| 0 <= j < i ==> kinds[j] != DeviceKind::Accelerator,
        decreases kinds.len() - i,
    {
        if kinds[i] == DeviceKind::Accelerator {
            return Some(i);
        }
        i = i + 1;
    }
    if kinds.len() > 0 {
        Some(0)
    } else {
        None
    }
}

/// The launch geometry of the reduction kernels on one device.
#[derive(Clone, Copy, Debug, PartialEq, Eq, Structural)]
pub struct KernelParams {
    pub work_group_size: usize,
    pub work_group_count: usize,
    pub global_work_size: usize,
}

impl KernelParams {
    /// Every work group holds at least one work item, and the launch covers
    /// exactly `work_group_count` whole groups.
    pub open spec fn wf(self) -> bool {
        &&& 0 < self.work_group_size
        &&& 0 < self.work_group_count
        &&& self.global_work_size == self.work_group_size * self.work_group_count
    }

    /// Derives the geometry from the work group size the device prefers:
    /// that size, clamped to `MAX_WORK_GROUP_SIZE`, times `WORK_GROUP_COUNT`
    /// groups. A device always reports a size of at least one.
    pub fn from_preferred_size(preferred: usize) -> (r: KernelParams)
        requires
            0 < preferred,
        ensures
            r.wf(),
            r.work_group_size == if preferred < MAX_WORK_GROUP_SIZE {
                preferred
            } else {
                MAX_WORK_GROUP_SIZE
            },
            r.work_group_count == WORK_GROUP_COUNT,
            r.global_work_size == r.work_group_size * WORK_GROUP_COUNT,
    {
        let size = if preferred < MAX_WORK_GROUP_SIZE {
            preferred
        } else {
            MAX_WORK_GROUP_SIZE
        };
        KernelParams {
            work_group_size: size,
            work_group_count: WORK_GROUP_COUNT,
            global_work_size: size * WORK_GROUP_COUNT,
        }
    }
}

} // verus!
