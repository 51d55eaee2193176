//! The vocabulary between this library and the kernel layer that drives it:
//! the requests that the library makes, and the replies that it takes.

use crate::config::{ContainerOpts, ContainerOptsView};
use crate::mounts::MountFlags;
use crate::resources::ResourcePolicy;
use vstd::prelude::*;

verus! {

/// A file descriptor.
pub type RawFd = i32;

/// A process id.
pub type Pid = i32;

/// An isolation domain of the kernel.
#[derive(Debug, Clone, Copy, PartialEq, Eq)]
pub enum Namespace {
    /// Mount points.
    Mount,
    /// The control group hierarchy.
    Cgroup,
    /// Process ids.
    Pid,
    /// Inter-process communication.
    Ipc,
    /// The network stack.
    Network,
    /// Host and domain name.
    Uts,
    /// User and group ids.
    User,
}

/// A request to the kernel layer.
#[derive(Debug, Clone, PartialEq, Eq)]
pub enum Request {
    /// Create a pair of connected local sockets that keep message
    /// boundaries and are closed on exec.
    SocketPair,
    /// Send the one byte over the socket.
    Send { fd: RawFd, byte: u8 },
    /// Receive one byte from the socket, waiting for it.
    Recv { fd: RawFd },
    /// Close the descriptor.
    Close { fd: RawFd },
    /// Move the calling process into a fresh namespace of this kind.
    Unshare { namespace: Namespace },
    /// Mount `source` at `target`, or change the mount at `target` where
    /// there is no source.
    Mount { source: Option<String>, target: String, flags: MountFlags },
    /// Create a process that starts in fresh namespaces of these kinds, on a
    /// stack of its own, and runs the child's bootstrap on `config`.
    Clone { config: ContainerOpts, namespaces: Vec<Namespace>, stack_size: usize, notify_parent: bool },
    /// Wait until the process has terminated.
    WaitPid { pid: Pid },
    /// Create the control group `name` in the unified hierarchy, with the
    /// ceilings of `policy`, and put the process `task` into it.
    CreateCgroup { name: String, task: u64, policy: ResourcePolicy },
    /// Limit the number of open file descriptors of the calling process.
    LimitOpenFiles { soft: u64, hard: u64 },
    /// Delete the control group `name`.
    RemoveCgroup { name: String },
    /// Set the hostname.
    SetHostname { name: String },
    /// Drop every capability but the few that the container needs.
    DropCapabilities,
    /// Install the allow-list of system calls.
    FilterSyscalls,
    /// Replace the process image.
    Exec { path: String, argv: Vec<String> },
}

/// A request as plain values.
pub enum RequestView {
    SocketPair,
    Send { fd: RawFd, byte: u8 },
    Recv { fd: RawFd },
    Close { fd: RawFd },
    Unshare { namespace: Namespace },
    Mount { source: Option<Seq<char>>, target: Seq<char>, flags: Set<crate::mounts::MountFlag> },
    Clone {
        config: ContainerOptsView,
        namespaces: Seq<Namespace>,
        stack_size: usize,
        notify_parent: bool,
    },
    WaitPid { pid: Pid },
    CreateCgroup { name: Seq<char>, task: u64, policy: ResourcePolicy },
    LimitOpenFiles { soft: u64, hard: u64 },
    RemoveCgroup { name: Seq<char> },
    SetHostname { name: Seq<char> },
    DropCapabilities,
    FilterSyscalls,
    Exec { path: Seq<char>, argv: Seq<Seq<char>> },
}

impl View for Request {
    type V = RequestView;

    open spec fn view(&self) -> RequestView {
        match *self {
            Request::SocketPair => RequestView::SocketPair,
            Request::Send { fd, byte } => RequestView::Send { fd, byte },
            Request::Recv { fd } => RequestView::Recv { fd },
            Request::Close { fd } => RequestView::Close { fd },
            Request::Unshare { namespace } => RequestView::Unshare { namespace },
            Request::Mount { source, target, flags } => RequestView::Mount {
                source: match source {
                    Some(s) => Some(s@),
                    None => None,
                },
                target: target@,
                flags: flags@,
            },
            Request::Clone { config, namespaces, stack_size, notify_parent } => RequestView::Clone {
                config: config@,
                namespaces: namespaces@,
                stack_size,
                notify_parent,
            },
            Request::WaitPid { pid } => RequestView::WaitPid { pid },
            Request::CreateCgroup { name, task, policy } => RequestView::CreateCgroup {
                name: name@,
                task,
                policy,
            },
            Request::LimitOpenFiles { soft, hard } => RequestView::LimitOpenFiles { soft, hard },
            Request::RemoveCgroup { name } => RequestView::RemoveCgroup { name: name@ },
            Request::SetHostname { name } => RequestView::SetHostname { name: name@ },
            Request::DropCapabilities => RequestView::DropCapabilities,
            Request::FilterSyscalls => RequestView::FilterSyscalls,
            Request::Exec { path, argv } => RequestView::Exec {
                path: path@,
                argv: argv.deep_view(),
            },
        }
    }
}

/// What the kernel layer answers to a request.
#[derive(Debug, Clone, Copy, PartialEq, Eq)]
pub enum Reply {
    /// The request succeeded and there is nothing to report.
    Done,
    /// The request failed.
    Failed,
    /// The two ends of a new socket pair: the parent's, then the child's.
    Fds(RawFd, RawFd),
    /// The id of a new process.
    Pid(Pid),
    /// The byte that was received.
    Byte(u8),
}

/// Where an operation stands: it either needs a request performed, or has
/// finished with a result.
#[derive(Debug, Clone, PartialEq, Eq)]
pub enum Step<T> {
    /// The kernel layer is to perform this request and hand back its reply.
    Perform(Request),
    /// The operation is over.
    Finished(T),
}

/// A step as plain values.
pub enum StepView<T> {
    Perform(RequestView),
    Finished(T),
}

impl<T> View for Step<T> {
    type V = StepView<T>;

    open spec fn view(&self) -> StepView<T> {
        match *self {
            Step::Perform(op) => StepView::Perform(op@),
            Step::Finished(t) => StepView::Finished(t),
        }
    }
}

impl<T> Step<T> {
    /// The request that this step asks for.
    pub fn request(self) -> (op: Request)
        requires
            self is Perform,
        ensures
            self == Step::<T>::Perform(op),
    {
        match self {
            Step::Perform(op) => op,
            Step::Finished(_) => vstd::pervasive::unreached(),
        }
    }

    /// The result that this step ended with.
    pub fn result(self) -> (t: T)
        requires
            self is Finished,
        ensures
            self == Step::Finished(t),
    {
        match self {
            Step::Finished(t) => t,
            Step::Perform(_) => vstd::pervasive::unreached(),
        }
    }
}

/// The reply to go by: the one given, or a failure where none was given.
pub open spec fn reply_or_failed(reply: Option<Reply>) -> Reply {
    match reply {
        Some(r) => r,
        None => Reply::Failed,
    }
}

/// The reply to go by where a request is pending: the one given, or a
/// failure where none was given.
pub fn answer(reply: Option<Reply>) -> (r: Reply)
    ensures
        r == reply_or_failed(reply),
{
    match reply {
        Some(r) => r,
        None => Reply::Failed,
    }
}

} // verus!
