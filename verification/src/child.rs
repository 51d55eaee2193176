//! The child process: how it is created, and what it does before it runs
//! the container's program.

use crate::config::{ContainerOpts, ContainerOptsView};
use crate::errors::Errcode;
use crate::kernel::{answer, Namespace, Pid, Reply, Request, RequestView, Step, StepView};
use crate::mounts::{mount_step, private_root_flags, set_mount_point};
use crate::namespace::{user_namespace, user_namespace_step, ChildHandshake};
use vstd::prelude::*;

verus! {

/// The size of the child's stack, in bytes: 1 MiB.
pub const STACK_SIZE: usize = 1024 * 1024;

/// The status with which the child ends when it could not be set up.
pub const CHILD_FAILED: isize = -1;

/// The namespaces that the child is created in, all at once.
pub open spec fn isolation() -> Seq<Namespace> {
    seq![
        Namespace::Mount,
        Namespace::Cgroup,
        Namespace::Pid,
        Namespace::Ipc,
        Namespace::Network,
        Namespace::Uts,
    ]
}

/// The request that creates the child of the container `config`.
pub open spec fn clone_request(config: ContainerOptsView) -> RequestView {
    RequestView::Clone {
        config,
        namespaces: isolation(),
        stack_size: STACK_SIZE,
        notify_parent: true,
    }
}

/// Creating the child, given the kernel's reply so far.
pub open spec fn generate_child_process_step(
    config: ContainerOptsView,
    reply: Option<Reply>,
) -> StepView<Result<Pid, Errcode>> {
    match reply {
        None => StepView::Perform(clone_request(config)),
        Some(Reply::Pid(pid)) => if pid > 0 {
            StepView::Finished(Ok(pid))
        } else {
            StepView::Finished(Err(Errcode::ChildProcessError(0)))
        },
        Some(_) => StepView::Finished(Err(Errcode::ChildProcessError(0))),
    }
}

/// Creates the child process and yields its id.
///
/// The child starts in fresh mount, cgroup, process, IPC, network and UTS
/// namespaces at once, on a stack of its own of `STACK_SIZE` bytes, with a
/// copy of `config` to bootstrap from, and its end is signalled to the
/// parent. Any reply but the id of a process is a child process error.
pub fn generate_child_process(config: &ContainerOpts, reply: Option<Reply>) -> (step: Step<
    Result<Pid, Errcode>,
>)
    ensures
        step@ == generate_child_process_step(config@, reply),
{
    match reply {
        None => {
            let mut namespaces: Vec<Namespace> = Vec::new();
            namespaces.push(Namespace::Mount);
            namespaces.push(Namespace::Cgroup);
            namespaces.push(Namespace::Pid);
            namespaces.push(Namespace::Ipc);
            namespaces.push(Namespace::Network);
            namespaces.push(Namespace::Uts);
            assert(namespaces@ =~= isolation());
            Step::Perform(
                Request::Clone {
                    config: config.duplicate(),
                    namespaces,
                    stack_size: STACK_SIZE,
                    notify_parent: true,
                },
            )
        },
        Some(Reply::Pid(pid)) => {
            if pid > 0 {
                Step::Finished(Ok(pid))
            } else {
                Step::Finished(Err(Errcode::ChildProcessError(0)))
            }
        },
        Some(_) => Step::Finished(Err(Errcode::ChildProcessError(0))),
    }
}

/// How far the child has come in isolating itself.
#[derive(Debug, Clone, Copy, PartialEq, Eq)]
pub enum Setup {
    /// Nothing has been asked yet.
    Unconfigured,
    /// The hostname has been asked to be set.
    SettingHostname,
    /// The root mount has been asked to be made private.
    MountingRoot,
    /// The handshake with the parent is under way.
    JoiningUserNamespace(ChildHandshake),
    /// The capabilities have been asked to be dropped.
    DroppingCapabilities,
    /// The syscall filter has been asked to be installed.
    FilteringSyscalls,
    /// The child is isolated.
    Configured,
    /// A step failed.
    Failed(Errcode),
}

/// Ends the setup with the error `e`.
pub open spec fn setup_failed(e: Errcode) -> (Setup, StepView<Result<(), Errcode>>) {
    (Setup::Failed(e), StepView::Finished(Err(e)))
}

/// The child's isolation: the state after `reply`, and what comes next.
pub open spec fn setup_step(config: ContainerOptsView, state: Setup, reply: Option<Reply>) -> (
    Setup,
    StepView<Result<(), Errcode>>,
) {
    match state {
        Setup::Unconfigured => (
            Setup::SettingHostname,
            StepView::Perform(RequestView::SetHostname { name: config.hostname }),
        ),
        Setup::SettingHostname => if reply == Some(Reply::Done) {
            (Setup::MountingRoot, mount_step(None, seq!['/'], private_root_flags(), None))
        } else {
            setup_failed(Errcode::HostnameError(0))
        },
        Setup::MountingRoot => if reply == Some(Reply::Done) {
            (
                Setup::JoiningUserNamespace(ChildHandshake::AttemptedUserNS),
                StepView::Perform(RequestView::Unshare { namespace: Namespace::User }),
            )
        } else {
            setup_failed(Errcode::MountsError(3))
        },
        Setup::JoiningUserNamespace(handshake) => {
            let (next, step) = user_namespace_step(config.fd, handshake, reply);
            match step {
                StepView::Perform(op) => (Setup::JoiningUserNamespace(next), StepView::Perform(op)),
                StepView::Finished(Ok(_)) => (
                    Setup::DroppingCapabilities,
                    StepView::Perform(RequestView::DropCapabilities),
                ),
                StepView::Finished(Err(e)) => setup_failed(e),
            }
        },
        Setup::DroppingCapabilities => if reply == Some(Reply::Done) {
            (Setup::FilteringSyscalls, StepView::Perform(RequestView::FilterSyscalls))
        } else {
            setup_failed(Errcode::CapabilitiesError(0))
        },
        Setup::FilteringSyscalls => if reply == Some(Reply::Done) {
            (Setup::Configured, StepView::Finished(Ok(())))
        } else {
            setup_failed(Errcode::SyscallsError(0))
        },
        Setup::Configured => (state, StepView::Finished(Ok(()))),
        Setup::Failed(e) => (state, StepView::Finished(Err(e))),
    }
}

/// Isolates the child, one step at a time: sets the hostname, makes the
/// root mount private, runs the child's half of the handshake, drops the
/// capabilities, and installs the syscall filter, in this order. The first
/// step that fails ends the setup with that step's error, and no later
/// step is asked for. In `Unconfigured` no request is pending and `reply`
/// is not looked at; in every later state a missing reply counts as the
/// failure of the pending request.
pub fn setup_container_configurations(
    config: &ContainerOpts,
    state: Setup,
    reply: Option<Reply>,
) -> (out: (Setup, Step<Result<(), Errcode>>))
    ensures
        (out.0, out.1@) == setup_step(config@, state, reply),
{
    match state {
        Setup::Unconfigured => (
            Setup::SettingHostname,
            Step::Perform(Request::SetHostname { name: config.hostname.clone() }),
        ),
        Setup::SettingHostname => match answer(reply) {
            Reply::Done => (
                Setup::MountingRoot,
                set_mount_point(config.mount_dir.as_str(), None),
            ),
            _ => (
                Setup::Failed(Errcode::HostnameError(0)),
                Step::Finished(Err(Errcode::HostnameError(0))),
            ),
        },
        Setup::MountingRoot => {
            match set_mount_point(config.mount_dir.as_str(), Some(answer(reply))).result() {
                Ok(_) => {
                    let (handshake, step) = user_namespace(
                        config.fd,
                        config.uid,
                        ChildHandshake::Spawned,
                        None,
                    );
                    (Setup::JoiningUserNamespace(handshake), step)
                },
                Err(e) => (Setup::Failed(e), Step::Finished(Err(e))),
            }
        },
        Setup::JoiningUserNamespace(handshake) => {
            let (next, step) = user_namespace(config.fd, config.uid, handshake, reply);
            match step {
                Step::Perform(op) => (Setup::JoiningUserNamespace(next), Step::Perform(op)),
                Step::Finished(Ok(_)) => (
                    Setup::DroppingCapabilities,
                    Step::Perform(Request::DropCapabilities),
                ),
                Step::Finished(Err(e)) => (Setup::Failed(e), Step::Finished(Err(e))),
            }
        },
        Setup::DroppingCapabilities => match answer(reply) {
            Reply::Done => (Setup::FilteringSyscalls, Step::Perform(Request::FilterSyscalls)),
            _ => (
                Setup::Failed(Errcode::CapabilitiesError(0)),
                Step::Finished(Err(Errcode::CapabilitiesError(0))),
            ),
        },
        Setup::FilteringSyscalls => match answer(reply) {
            Reply::Done => (Setup::Configured, Step::Finished(Ok(()))),
            _ => (
                Setup::Failed(Errcode::SyscallsError(0)),
                Step::Finished(Err(Errcode::SyscallsError(0))),
            ),
        },
        Setup::Configured => (state, Step::Finished(Ok(()))),
        Setup::Failed(e) => (state, Step::Finished(Err(e))),
    }
}

/// Where the child stands between its creation and its program.
#[derive(Debug, Clone, Copy, PartialEq, Eq)]
pub enum Bootstrap {
    /// The child has just been created.
    Entered,
    /// The child is isolating itself.
    Configuring(Setup),
    /// The child's end of the channel has been asked to be closed.
    Closing { configured: bool },
    /// The program has been asked to be run.
    Executing,
    /// The child is over, with this status.
    Exited(isize),
}

/// The child's bootstrap: the state after `reply`, and what comes next.
pub open spec fn child_step(config: ContainerOptsView, state: Bootstrap, reply: Option<Reply>) -> (
    Bootstrap,
    StepView<isize>,
) {
    match state {
        Bootstrap::Entered => (
            Bootstrap::Configuring(Setup::SettingHostname),
            StepView::Perform(RequestView::SetHostname { name: config.hostname }),
        ),
        Bootstrap::Configuring(setup) => {
            let (next, step) = setup_step(config, setup, reply);
            match step {
                StepView::Perform(op) => (Bootstrap::Configuring(next), StepView::Perform(op)),
                StepView::Finished(res) => (
                    Bootstrap::Closing { configured: res is Ok },
                    StepView::Perform(RequestView::Close { fd: config.fd }),
                ),
            }
        },
        Bootstrap::Closing { configured } => if configured && reply == Some(Reply::Done) {
            (
                Bootstrap::Executing,
                StepView::Perform(RequestView::Exec { path: config.path, argv: config.argv }),
            )
        } else {
            (Bootstrap::Exited(CHILD_FAILED), StepView::Finished(CHILD_FAILED))
        },
        Bootstrap::Executing => if reply == Some(Reply::Done) {
            (Bootstrap::Exited(0), StepView::Finished(0))
        } else {
            (Bootstrap::Exited(CHILD_FAILED), StepView::Finished(CHILD_FAILED))
        },
        Bootstrap::Exited(status) => (state, StepView::Finished(status)),
    }
}

/// What the child does from its creation on, one step at a time.
///
/// The child isolates itself; then, whether or not that went well, it
/// closes its end of the channel, so that the parent is never left waiting
/// on it. Only a child that is isolated and has closed its end runs the
/// program of `config` with its arguments. Every other child ends with
/// `CHILD_FAILED` and runs nothing; so does one whose program could not be
/// started. In `Entered` no request is pending and `reply` is not looked
/// at; in every later state a missing reply counts as the failure of the
/// pending request.
pub fn child(config: &ContainerOpts, state: Bootstrap, reply: Option<Reply>) -> (out: (
    Bootstrap,
    Step<isize>,
))
    ensures
        (out.0, out.1@) == child_step(config@, state, reply),
{
    match state {
        Bootstrap::Entered => {
            let (setup, step) = setup_container_configurations(config, Setup::Unconfigured, None);
            (Bootstrap::Configuring(setup), Step::Perform(step.request()))
        },
        Bootstrap::Configuring(setup) => {
            let (next, step) = setup_container_configurations(config, setup, reply);
            match step {
                Step::Perform(op) => (Bootstrap::Configuring(next), Step::Perform(op)),
                Step::Finished(res) => (
                    Bootstrap::Closing { configured: res.is_ok() },
                    Step::Perform(Request::Close { fd: config.fd }),
                ),
            }
        },
        Bootstrap::Closing { configured } => match (configured, answer(reply)) {
            (true, Reply::Done) => (
                Bootstrap::Executing,
                Step::Perform(
                    Request::Exec {
                        path: config.path.clone(),
                        argv: crate::config::duplicate_strings(&config.argv),
                    },
                ),
            ),
            _ => (Bootstrap::Exited(CHILD_FAILED), Step::Finished(CHILD_FAILED)),
        },
        Bootstrap::Executing => match answer(reply) {
            Reply::Done => (Bootstrap::Exited(0), Step::Finished(0)),
            _ => (Bootstrap::Exited(CHILD_FAILED), Step::Finished(CHILD_FAILED)),
        },
        Bootstrap::Exited(status) => (state, Step::Finished(status)),
    }
}

} // verus!
