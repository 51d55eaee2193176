//! The resource ceilings applied to a container.

use crate::errors::Errcode;
use crate::kernel::{answer, Pid, Reply, Request, RequestView, Step, StepView};
use vstd::prelude::*;

verus! {

/// The ceiling on memory, and on kernel memory, in bytes: 1 GiB.
pub const KMEM_LIMIT: i64 = 1024 * 1024 * 1024;

/// The ceiling on memory, in bytes.
pub const MEM_LIMIT: i64 = KMEM_LIMIT;

/// The relative share of processor time.
pub const CPU_SHARES: u64 = 256;

/// The largest number of processes alive at once.
pub const MAX_PID: i64 = 64;

/// The relative weight for block I/O.
pub const BLKIO_WEIGHT: u16 = 50;

/// The largest number of open file descriptors.
pub const NOFILE_RLIMIT: u64 = 64;

/// The ceilings written into a container's control group.
#[derive(Debug, Clone, Copy, PartialEq, Eq)]
pub struct ResourcePolicy {
    /// Share of processor time relative to sibling groups.
    pub cpu_shares: u64,
    /// Hard limit on memory, in bytes.
    pub memory_hard_limit: i64,
    /// Limit on kernel memory, in bytes.
    pub kernel_memory_limit: i64,
    /// Largest number of processes alive at once.
    pub max_processes: i64,
    /// Weight for block I/O relative to sibling groups.
    pub blkio_weight: u16,
}

impl ResourcePolicy {
    /// The policy that every container gets.
    pub open spec fn fixed() -> ResourcePolicy {
        ResourcePolicy {
            cpu_shares: 256,
            memory_hard_limit: 0x4000_0000,
            kernel_memory_limit: 0x4000_0000,
            max_processes: 64,
            blkio_weight: 50,
        }
    }

    /// The policy that every container gets.
    pub fn baseline() -> (policy: ResourcePolicy)
        ensures
            policy == ResourcePolicy::fixed(),
    {
        ResourcePolicy {
            cpu_shares: CPU_SHARES,
            memory_hard_limit: MEM_LIMIT,
            kernel_memory_limit: KMEM_LIMIT,
            max_processes: MAX_PID,
            blkio_weight: BLKIO_WEIGHT,
        }
    }
}

/// How far the restrictions on a container have come.
#[derive(Debug, Clone, Copy, PartialEq, Eq)]
pub enum ResourceStage {
    /// Nothing has been asked yet.
    Unrestricted,
    /// The control group has been asked for.
    CgroupRequested,
    /// The limit on open files has been asked for.
    LimitRequested,
    /// Every restriction is in place.
    Restricted,
    /// A restriction could not be applied.
    Failed(Errcode),
}

/// Restricting a container: the stage after `reply`, and what comes next.
pub open spec fn restrict_resources_step(
    hostname: Seq<char>,
    pid: Pid,
    state: ResourceStage,
    reply: Option<Reply>,
) -> (ResourceStage, StepView<Result<(), Errcode>>) {
    match state {
        ResourceStage::Unrestricted => if pid >= 0 {
            (
                ResourceStage::CgroupRequested,
                StepView::Perform(
                    RequestView::CreateCgroup {
                        name: hostname,
                        task: pid as u64,
                        policy: ResourcePolicy::fixed(),
                    },
                ),
            )
        } else {
            (
                ResourceStage::Failed(Errcode::ResourcesError(0)),
                StepView::Finished(Err(Errcode::ResourcesError(0))),
            )
        },
        ResourceStage::CgroupRequested => if reply == Some(Reply::Done) {
            (
                ResourceStage::LimitRequested,
                StepView::Perform(RequestView::LimitOpenFiles { soft: 64, hard: 64 }),
            )
        } else {
            (
                ResourceStage::Failed(Errcode::ResourcesError(0)),
                StepView::Finished(Err(Errcode::ResourcesError(0))),
            )
        },
        ResourceStage::LimitRequested => if reply == Some(Reply::Done) {
            (ResourceStage::Restricted, StepView::Finished(Ok(())))
        } else {
            (
                ResourceStage::Failed(Errcode::ResourcesError(0)),
                StepView::Finished(Err(Errcode::ResourcesError(0))),
            )
        },
        ResourceStage::Restricted => (state, StepView::Finished(Ok(()))),
        ResourceStage::Failed(e) => (state, StepView::Finished(Err(e))),
    }
}

/// Restricts the resources of the container `hostname`, whose first
/// process is `pid`, one step at a time.
///
/// First a control group named after the container is created with the
/// fixed policy and the process is put into it; then the number of open
/// file descriptors is limited. Either request failing is the same
/// resource error, as is a `pid` that is no process id. In `Unrestricted`
/// no request is pending and `reply` is not looked at; in every later
/// stage a missing reply counts as the failure of the pending request.
pub fn restrict_resources(
    hostname: &String,
    pid: Pid,
    state: ResourceStage,
    reply: Option<Reply>,
) -> (out: (ResourceStage, Step<Result<(), Errcode>>))
    ensures
        (out.0, out.1@) == restrict_resources_step(hostname@, pid, state, reply),
{
    let failed = (
        ResourceStage::Failed(Errcode::ResourcesError(0)),
        Step::Finished(Err(Errcode::ResourcesError(0))),
    );
    match state {
        ResourceStage::Unrestricted => {
            if pid >= 0 {
                (
                    ResourceStage::CgroupRequested,
                    Step::Perform(
                        Request::CreateCgroup {
                            name: hostname.clone(),
                            task: pid as u64,
                            policy: ResourcePolicy::baseline(),
                        },
                    ),
                )
            } else {
                failed
            }
        },
        ResourceStage::CgroupRequested => match answer(reply) {
            Reply::Done => (
                ResourceStage::LimitRequested,
                Step::Perform(
                    Request::LimitOpenFiles { soft: NOFILE_RLIMIT, hard: NOFILE_RLIMIT },
                ),
            ),
            _ => failed,
        },
        ResourceStage::LimitRequested => match answer(reply) {
            Reply::Done => (ResourceStage::Restricted, Step::Finished(Ok(()))),
            _ => failed,
        },
        ResourceStage::Restricted => (state, Step::Finished(Ok(()))),
        ResourceStage::Failed(e) => (state, Step::Finished(Err(e))),
    }
}

/// Removing a container's control group, given the kernel's reply so far.
pub open spec fn clean_cgroups_step(hostname: Seq<char>, reply: Option<Reply>) -> StepView<
    Result<(), Errcode>,
> {
    match reply {
        None => StepView::Perform(RequestView::RemoveCgroup { name: hostname }),
        Some(Reply::Done) => StepView::Finished(Ok(())),
        Some(_) => StepView::Finished(Err(Errcode::ResourcesError(2))),
    }
}

/// Removes the control group of the container `hostname`. Any reply but
/// success is a resource error.
pub fn clean_cgroups(hostname: &String, reply: Option<Reply>) -> (step: Step<Result<(), Errcode>>)
    ensures
        step@ == clean_cgroups_step(hostname@, reply),
{
    match reply {
        None => Step::Perform(Request::RemoveCgroup { name: hostname.clone() }),
        Some(Reply::Done) => Step::Finished(Ok(())),
        Some(_) => Step::Finished(Err(Errcode::ResourcesError(2))),
    }
}

/// The policy is the same for every container: whatever the hostname and
/// the process id, the requests made for two containers differ in the
/// group's name and the process put into it, and in nothing else.
pub proof fn lemma_policy_is_fixed(hostname: Seq<char>, pid: Pid, other: Seq<char>, other_pid: Pid)
    requires
        pid >= 0,
        other_pid >= 0,
    ensures
        restrict_resources_step(hostname, pid, ResourceStage::Unrestricted, None).1
            == StepView::<Result<(), Errcode>>::Perform(
            RequestView::CreateCgroup {
                name: hostname,
                task: pid as u64,
                policy: ResourcePolicy::fixed(),
            },
        ),
        restrict_resources_step(other, other_pid, ResourceStage::Unrestricted, None).1
            == StepView::<Result<(), Errcode>>::Perform(
            RequestView::CreateCgroup {
                name: other,
                task: other_pid as u64,
                policy: ResourcePolicy::fixed(),
            },
        ),
        restrict_resources_step(hostname, pid, ResourceStage::CgroupRequested, Some(Reply::Done))
            == restrict_resources_step(
            other,
            other_pid,
            ResourceStage::CgroupRequested,
            Some(Reply::Done),
        ),
        restrict_resources_step(hostname, pid, ResourceStage::CgroupRequested, Some(Reply::Done)).1
            == StepView::<Result<(), Errcode>>::Perform(
            RequestView::LimitOpenFiles { soft: 64, hard: 64 },
        ),
        ResourcePolicy::fixed().cpu_shares == 256,
        ResourcePolicy::fixed().memory_hard_limit == 1024 * 1024 * 1024,
        ResourcePolicy::fixed().kernel_memory_limit == 1024 * 1024 * 1024,
        ResourcePolicy::fixed().max_processes == 64,
        ResourcePolicy::fixed().blkio_weight == 50,
{
}

} // verus!
