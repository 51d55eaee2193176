//! The orchestrator: checks the host, builds the container, creates the
//! child, waits for it, and releases what the container held.

use crate::child::{clone_request, generate_child_process};
use crate::config::{
    container_opts, is_blank, lemma_first_word, split_command, ContainerOpts, ContainerOptsView,
};
use crate::errors::Errcode;
use crate::ipc::socket_pair_step;
use crate::kernel::{answer, Pid, RawFd, Reply, Request, RequestView, Step, StepView};
use crate::mounts::clean_mounts;
use crate::namespace::{handle_child_uid_map, handle_child_uid_map_step, ParentHandshake};
use crate::resources::{
    clean_cgroups, restrict_resources, restrict_resources_step, ResourceStage,
};
use vstd::prelude::*;
use vstd::string::*;

verus! {

/// The oldest kernel that is supported: its major version.
pub const MINIMAL_KERNEL_MAJOR: u64 = 4;

/// The oldest kernel that is supported: its minor version.
pub const MINIMAL_KERNEL_MINOR: u64 = 8;

/// Whether `c` is a decimal digit.
pub open spec fn is_digit(c: char) -> bool {
    '0' <= c <= '9'
}

/// The number that the digit `c` stands for.
pub open spec fn digit_value(c: char) -> nat {
    (c as int - '0' as int) as nat
}

/// The end of the run of digits that starts at `from`: the first position
/// at or after `from` that holds no digit, or the end of `s`.
pub open spec fn digits_end(s: Seq<char>, from: int) -> int
    decreases s.len() - from,
{
    if from < 0 || from >= s.len() || !is_digit(s[from]) {
        from
    } else {
        digits_end(s, from + 1)
    }
}

/// The number that a run of digits denotes in base ten.
pub open spec fn number(digits: Seq<char>) -> nat
    decreases digits.len(),
{
    if digits.len() == 0 {
        0
    } else {
        number(digits.drop_last()) * 10 + digit_value(digits.last())
    }
}

/// The major and minor version that a kernel release names. A release is a
/// run of digits, a dot, another run of digits, and whatever follows; any
/// other text names no version.
pub open spec fn release_version(release: Seq<char>) -> Option<(nat, nat)> {
    let dot = digits_end(release, 0);
    let end = digits_end(release, dot + 1);
    if 0 < dot < release.len() && release[dot] == '.' && dot + 1 < end {
        Some((number(release.subrange(0, dot)), number(release.subrange(dot + 1, end))))
    } else {
        None
    }
}

/// Whether a kernel of this version is recent enough.
pub open spec fn version_supported(version: (nat, nat)) -> bool {
    version.0 > MINIMAL_KERNEL_MAJOR || (version.0 == MINIMAL_KERNEL_MAJOR && version.1
        >= MINIMAL_KERNEL_MINOR)
}

/// The name of the one machine architecture that is supported.
pub open spec fn supported_machine() -> Seq<char> {
    seq!['x', '8', '6', '_', '6', '4']
}

/// What the check of a host says, given the kernel release and the machine
/// architecture that the host reports.
pub open spec fn host_verdict(release: Seq<char>, machine: Seq<char>) -> Result<(), Errcode> {
    match release_version(release) {
        None => Err(Errcode::ContainerError(0)),
        Some(version) => if !version_supported(version) {
            Err(Errcode::NotSupported(0))
        } else if machine != supported_machine() {
            Err(Errcode::NotSupported(1))
        } else {
            Ok(())
        },
    }
}

/// A run of digits ends within the text, holds digits only, and is not
/// followed by a digit.
pub proof fn lemma_digits_end_bounds(s: Seq<char>, from: int)
    requires
        0 <= from <= s.len(),
    ensures
        from <= digits_end(s, from) <= s.len(),
        digits_end(s, from) < s.len() ==> !is_digit(s[digits_end(s, from)]),
        forall|i: int| from <= i < digits_end(s, from) ==> is_digit(#[trigger] s[i]),
    decreases s.len() - from,
{
    if from < s.len() && is_digit(s[from]) {
        lemma_digits_end_bounds(s, from + 1);
    }
}

/// The number that the digit `c` stands for, if it is one.
pub fn digit_of(c: char) -> (d: Option<u64>)
    ensures
        d is Some <==> is_digit(c),
        d matches Some(v) ==> v == digit_value(c) && v <= 9,
{
    match c {
        '0' => Some(0),
        '1' => Some(1),
        '2' => Some(2),
        '3' => Some(3),
        '4' => Some(4),
        '5' => Some(5),
        '6' => Some(6),
        '7' => Some(7),
        '8' => Some(8),
        '9' => Some(9),
        _ => None,
    }
}

/// A number cut off at the largest value that fits.
pub open spec fn saturated(n: nat) -> u64 {
    if n > u64::MAX {
        u64::MAX
    } else {
        n as u64
    }
}

/// Reads the run of digits that starts at `from`: yields where it ends and
/// the number it denotes, cut off at `u64::MAX`.
pub fn read_number(text: &str, from: usize) -> (out: (usize, u64))
    requires
        from <= text@.len(),
    ensures
        out.0 == digits_end(text@, from as int),
        out.1 == saturated(number(text@.subrange(from as int, out.0 as int))),
{
    let n: usize = text.unicode_len();
    let mut i: usize = from;
    let mut value: u64 = 0;
    assert(text@.subrange(from as int, from as int) =~= Seq::<char>::empty());
    while i < n
        invariant
            n == text@.len(),
            from <= i <= n,
            digits_end(text@, from as int) == digits_end(text@, i as int),
            value == saturated(number(text@.subrange(from as int, i as int))),
        decreases n - i,
    {
        let d: u64 = match digit_of(text.get_char(i)) {
            Some(d) => d,
            None => {
                return (i, value);
            },
        };
        proof {
            let before = text@.subrange(from as int, i as int);
            let after = text@.subrange(from as int, i + 1);
            assert(after.drop_last() =~= before);
            assert(after.last() == text@[i as int]);
            assert(number(after) == number(before) * 10 + d);
        }
        value = if value > (u64::MAX - d) / 10 {
            u64::MAX
        } else {
            value * 10 + d
        };
        i = i + 1;
    }
    (i, value)
}

/// Whether two texts are the same.
pub fn same_text(a: &str, b: &str) -> (same: bool)
    ensures
        same == (a@ == b@),
{
    let n: usize = a.unicode_len();
    if b.unicode_len() != n {
        return false;
    }
    let mut i: usize = 0;
    while i < n
        invariant
            n == a@.len(),
            n == b@.len(),
            0 <= i <= n,
            forall|k: int| 0 <= k < i ==> a@[k] == b@[k],
        decreases n - i,
    {
        if a.get_char(i) != b.get_char(i) {
            return false;
        }
        i = i + 1;
    }
    assert(a@ =~= b@);
    true
}

/// Reads the major and minor version off a kernel release, each cut off at
/// `u64::MAX`.
pub fn parse_release(release: &str) -> (version: Option<(u64, u64)>)
    ensures
        match release_version(release@) {
            Some((major, minor)) => version == Some((saturated(major), saturated(minor))),
            None => version is None,
        },
{
    let n: usize = release.unicode_len();
    let (dot, major) = read_number(release, 0);
    proof {
        lemma_digits_end_bounds(release@, 0);
    }
    if dot == 0 || dot >= n {
        return None;
    }
    if release.get_char(dot) != '.' {
        return None;
    }
    let (end, minor) = read_number(release, dot + 1);
    proof {
        lemma_digits_end_bounds(release@, dot + 1);
    }
    if end == dot + 1 {
        return None;
    }
    Some((major, minor))
}

/// Checks that the host can run containers: `release` is the kernel release
/// and `machine` the architecture that the host reports.
///
/// A release that names no version is a container error. A kernel older
/// than 4.8 is not supported, and neither is any machine but `x86_64`; the
/// version is looked at first.
pub fn check_linux_version(release: &str, machine: &str) -> (res: Result<(), Errcode>)
    ensures
        res == host_verdict(release@, machine@),
{
    match parse_release(release) {
        None => Err(Errcode::ContainerError(0)),
        Some((major, minor)) => {
            if major < MINIMAL_KERNEL_MAJOR || (major == MINIMAL_KERNEL_MAJOR && minor
                < MINIMAL_KERNEL_MINOR) {
                return Err(Errcode::NotSupported(0));
            }
            proof {
                reveal_strlit("x86_64");
                assert("x86_64"@ =~= supported_machine());
            }
            if !same_text(machine, "x86_64") {
                return Err(Errcode::NotSupported(1));
            }
            Ok(())
        },
    }
}

/// What a run is started with.
#[derive(Debug, Clone, PartialEq, Eq)]
pub struct Args {
    /// The command line to run inside the container.
    pub command: String,
    /// The user id to run it as.
    pub uid: u32,
    /// The directory that serves as the container's root.
    pub mount_dir: String,
    /// The hostname that the container is to have.
    pub hostname: String,
}

/// Arguments as plain values.
pub struct ArgsView {
    pub command: Seq<char>,
    pub uid: u32,
    pub mount_dir: Seq<char>,
    pub hostname: Seq<char>,
}

impl View for Args {
    type V = ArgsView;

    open spec fn view(&self) -> ArgsView {
        ArgsView {
            command: self.command@,
            uid: self.uid,
            mount_dir: self.mount_dir@,
            hostname: self.hostname@,
        }
    }
}

/// How far the creation of a container has come.
#[derive(Debug, Clone, Copy, PartialEq, Eq)]
pub enum Creation {
    /// The container is configured; nothing has been asked yet.
    Configured,
    /// The child has been asked for.
    Spawning,
    /// The child `pid` exists and is being restricted.
    Restricting { pid: Pid, stage: ResourceStage },
    /// The child `pid` is restricted and the handshake is under way.
    Handshaking { pid: Pid, handshake: ParentHandshake },
    /// The child runs, restricted and released.
    Created,
    /// The creation failed.
    Failed(Errcode),
}

/// How far the release of what a container holds has come.
#[derive(Debug, Clone, Copy, PartialEq, Eq)]
pub enum Cleanup {
    /// No release has been asked for.
    Holding,
    /// The parent's end of the channel has been asked to be closed.
    ClosingParent,
    /// The child's end of the channel has been asked to be closed.
    ClosingChild,
    /// The control group has been asked to be removed.
    RemovingCgroup,
    /// The release is over, in full or cut short by a failure.
    Released,
}

/// A container and what it holds: its configuration, both ends of its
/// channel, and its child once there is one.
#[derive(Debug, PartialEq, Eq)]
pub struct Container {
    /// What the container runs and where.
    pub config: ContainerOpts,
    /// The two ends of the channel: the parent's, then the child's. Both
    /// are `NO_FD` where the channel could not be created.
    pub sockets: (RawFd, RawFd),
    /// The child, once it has been created.
    pub child_pid: Option<Pid>,
    /// How far the creation has come.
    pub creation: Creation,
    /// How far the release has come.
    pub cleanup: Cleanup,
    /// Whether the parent's end of the channel is still to be closed.
    pub parent_open: bool,
    /// Whether the child's end of the channel is still to be closed.
    pub child_open: bool,
    /// Whether a control group may exist that is still to be removed.
    pub cgroup_held: bool,
}

/// A container as plain values.
pub struct ContainerView {
    pub config: ContainerOptsView,
    pub sockets: (RawFd, RawFd),
    pub child_pid: Option<Pid>,
    pub creation: Creation,
    pub cleanup: Cleanup,
    pub parent_open: bool,
    pub child_open: bool,
    pub cgroup_held: bool,
}

impl View for Container {
    type V = ContainerView;

    open spec fn view(&self) -> ContainerView {
        ContainerView {
            config: self.config@,
            sockets: self.sockets,
            child_pid: self.child_pid,
            creation: self.creation,
            cleanup: self.cleanup,
            parent_open: self.parent_open,
            child_open: self.child_open,
            cgroup_held: self.cgroup_held,
        }
    }
}

/// The descriptor that stands for an end of a channel that does not exist.
pub const NO_FD: RawFd = -1;

/// The container of a run whose channel could not be created: it has its
/// configuration, but no channel, no child, and nothing to release, and
/// its creation has failed with the socket error.
pub open spec fn unopened_container(args: ArgsView) -> ContainerView {
    ContainerView {
        config: container_opts(args.command, args.uid, args.mount_dir, args.hostname, NO_FD),
        sockets: (NO_FD, NO_FD),
        child_pid: None,
        creation: Creation::Failed(Errcode::SocketError(0)),
        cleanup: Cleanup::Holding,
        parent_open: false,
        child_open: false,
        cgroup_held: false,
    }
}

/// The container that is built from `args` once its channel exists: it
/// holds both ends of the channel and nothing else.
pub open spec fn new_container(args: ArgsView, sockets: (RawFd, RawFd)) -> ContainerView {
    ContainerView {
        config: container_opts(args.command, args.uid, args.mount_dir, args.hostname, sockets.1),
        sockets,
        child_pid: None,
        creation: Creation::Configured,
        cleanup: Cleanup::Holding,
        parent_open: true,
        child_open: true,
        cgroup_held: false,
    }
}

/// Ends the creation of `c` with the error `e`.
pub open spec fn creation_failed(c: ContainerView, e: Errcode) -> (
    ContainerView,
    StepView<Result<(), Errcode>>,
) {
    (ContainerView { creation: Creation::Failed(e), ..c }, StepView::Finished(Err(e)))
}

/// Creating a container: the container after `reply`, and what comes next.
pub open spec fn create_step(c: ContainerView, reply: Option<Reply>) -> (
    ContainerView,
    StepView<Result<(), Errcode>>,
) {
    match c.creation {
        Creation::Configured => (
            ContainerView { creation: Creation::Spawning, ..c },
            StepView::Perform(clone_request(c.config)),
        ),
        Creation::Spawning => match reply {
            Some(Reply::Pid(pid)) => if pid > 0 {
                let (stage, step) = restrict_resources_step(
                    c.config.hostname,
                    pid,
                    ResourceStage::Unrestricted,
                    None,
                );
                (
                    ContainerView {
                        child_pid: Some(pid),
                        cgroup_held: true,
                        creation: Creation::Restricting { pid, stage },
                        ..c
                    },
                    step,
                )
            } else {
                creation_failed(c, Errcode::ChildProcessError(0))
            },
            _ => creation_failed(c, Errcode::ChildProcessError(0)),
        },
        Creation::Restricting { pid, stage } => {
            let (next, step) = restrict_resources_step(c.config.hostname, pid, stage, reply);
            match step {
                StepView::Perform(op) => (
                    ContainerView { creation: Creation::Restricting { pid, stage: next }, ..c },
                    StepView::Perform(op),
                ),
                StepView::Finished(Ok(_)) => (
                    ContainerView {
                        creation: Creation::Handshaking {
                            pid,
                            handshake: ParentHandshake::AwaitingChildStatus,
                        },
                        ..c
                    },
                    StepView::Perform(RequestView::Recv { fd: c.sockets.0 }),
                ),
                StepView::Finished(Err(e)) => creation_failed(c, e),
            }
        },
        Creation::Handshaking { pid, handshake } => {
            let (next, step) = handle_child_uid_map_step(c.sockets.0, handshake, reply);
            match step {
                StepView::Perform(op) => (
                    ContainerView { creation: Creation::Handshaking { pid, handshake: next }, ..c },
                    StepView::Perform(op),
                ),
                StepView::Finished(Ok(_)) => (
                    ContainerView { creation: Creation::Created, ..c },
                    StepView::Finished(Ok(())),
                ),
                StepView::Finished(Err(e)) => creation_failed(c, e),
            }
        },
        Creation::Created => (c, StepView::Finished(Ok(()))),
        Creation::Failed(e) => (c, StepView::Finished(Err(e))),
    }
}

/// The next release that `c` owes: the parent's end of the channel, then
/// the child's, then the control group; each only if it is still held, and
/// none is held any more once it has been asked for.
pub open spec fn release_next(c: ContainerView) -> (ContainerView, StepView<Result<(), Errcode>>) {
    if c.parent_open {
        (
            ContainerView { parent_open: false, cleanup: Cleanup::ClosingParent, ..c },
            StepView::Perform(RequestView::Close { fd: c.sockets.0 }),
        )
    } else if c.child_open {
        (
            ContainerView { child_open: false, cleanup: Cleanup::ClosingChild, ..c },
            StepView::Perform(RequestView::Close { fd: c.sockets.1 }),
        )
    } else if c.cgroup_held {
        (
            ContainerView { cgroup_held: false, cleanup: Cleanup::RemovingCgroup, ..c },
            StepView::Perform(RequestView::RemoveCgroup { name: c.config.hostname }),
        )
    } else {
        (ContainerView { cleanup: Cleanup::Released, ..c }, StepView::Finished(Ok(())))
    }
}

/// Cuts the release of `c` short with the error `e`.
pub open spec fn release_failed(c: ContainerView, e: Errcode) -> (
    ContainerView,
    StepView<Result<(), Errcode>>,
) {
    (ContainerView { cleanup: Cleanup::Released, ..c }, StepView::Finished(Err(e)))
}

/// Releasing what a container holds: the container after `reply`, and what
/// comes next.
pub open spec fn clean_exit_step(c: ContainerView, reply: Option<Reply>) -> (
    ContainerView,
    StepView<Result<(), Errcode>>,
) {
    match c.cleanup {
        Cleanup::Holding => release_next(c),
        Cleanup::Released => release_next(c),
        Cleanup::ClosingParent => if reply == Some(Reply::Done) {
            release_next(c)
        } else {
            release_failed(c, Errcode::SocketError(3))
        },
        Cleanup::ClosingChild => if reply == Some(Reply::Done) {
            release_next(c)
        } else {
            release_failed(c, Errcode::SocketError(4))
        },
        Cleanup::RemovingCgroup => if reply == Some(Reply::Done) {
            release_next(c)
        } else {
            release_failed(c, Errcode::ResourcesError(2))
        },
    }
}

/// A release that ends well leaves nothing held, and a release of a
/// container that holds nothing asks for nothing and ends well: releasing
/// twice is as good as releasing once.
pub proof fn lemma_release_is_idempotent(c: ContainerView, reply: Option<Reply>, again: Option<Reply>)
    requires
        clean_exit_step(c, reply).1 == StepView::Finished(Ok::<(), Errcode>(())),
    ensures
        ({
            let after = clean_exit_step(c, reply).0;
            &&& !after.parent_open
            &&& !after.child_open
            &&& !after.cgroup_held
            &&& clean_exit_step(after, again) == (after, StepView::Finished(Ok::<(), Errcode>(())))
        }),
{
}

/// The creation of a container releases nothing: the ends of the channel
/// that were open before a step of the creation are open after it.
pub proof fn lemma_creation_keeps_channel(c: ContainerView, reply: Option<Reply>)
    ensures
        create_step(c, reply).0.sockets == c.sockets,
        create_step(c, reply).0.parent_open == c.parent_open,
        create_step(c, reply).0.child_open == c.child_open,
        create_step(c, reply).0.cleanup == c.cleanup,
        create_step(c, reply).0.config == c.config,
{
}

/// Waiting for the child, given the kernel's reply so far.
pub open spec fn wait_child_step(pid: Option<Pid>, reply: Option<Reply>) -> StepView<
    Result<(), Errcode>,
> {
    match pid {
        None => StepView::Finished(Ok(())),
        Some(pid) => match reply {
            None => StepView::Perform(RequestView::WaitPid { pid }),
            Some(Reply::Done) => StepView::Finished(Ok(())),
            Some(_) => StepView::Finished(Err(Errcode::ContainerError(1))),
        },
    }
}

/// Waits until the child has terminated. Where there is no child there is
/// nothing to wait for, and nothing is asked. Any reply but success is a
/// container error.
pub fn wait_child(pid: Option<Pid>, reply: Option<Reply>) -> (step: Step<Result<(), Errcode>>)
    ensures
        step@ == wait_child_step(pid, reply),
{
    match pid {
        None => Step::Finished(Ok(())),
        Some(pid) => match reply {
            None => Step::Perform(Request::WaitPid { pid }),
            Some(Reply::Done) => Step::Finished(Ok(())),
            Some(_) => Step::Finished(Err(Errcode::ContainerError(1))),
        },
    }
}

impl Container {
    /// Builds the container that `args` describe, together with its
    /// channel.
    ///
    /// A command without any argument is an argument error, and nothing is
    /// asked of the kernel. Otherwise the channel is asked for; where it
    /// cannot be created the result is a socket error. The container that
    /// results holds both ends of the channel, has no child, and has
    /// neither been created nor released.
    pub fn new(args: &Args, reply: Option<Reply>) -> (step: Step<Result<Container, Errcode>>)
        ensures
            is_blank(args.command@) ==> (step matches Step::Finished(
                Err(Errcode::ArgumentInvalid(what)),
            ) && what@ == "command"@),
            !is_blank(args.command@) ==> match socket_pair_step(reply) {
                StepView::Perform(op) => step@ == StepView::<Result<Container, Errcode>>::Perform(
                    op,
                ),
                StepView::Finished(Err(e)) => step == Step::<Result<Container, Errcode>>::Finished(
                    Err(e),
                ),
                StepView::Finished(Ok(sockets)) => {
                    &&& step matches Step::Finished(Ok(container))
                    &&& container@ == new_container(args@, sockets)
                },
            },
    {
        let step = ContainerOpts::new(
            args.command.clone(),
            args.uid,
            args.mount_dir.clone(),
            args.hostname.clone(),
            reply,
        );
        match step {
            Step::Perform(op) => Step::Perform(op),
            Step::Finished(Err(e)) => Step::Finished(Err(e)),
            Step::Finished(Ok((config, sockets))) => Step::Finished(
                Ok(
                    Container {
                        config,
                        sockets,
                        child_pid: None,
                        creation: Creation::Configured,
                        cleanup: Cleanup::Holding,
                        parent_open: true,
                        child_open: true,
                        cgroup_held: false,
                    },
                ),
            ),
        }
    }

    /// Builds the container of a run whose channel could not be created.
    ///
    /// The container has the configuration that `args` describe, with
    /// `NO_FD` for every descriptor. It holds nothing: no end of a channel
    /// is open and there is no control group, so its release asks for
    /// nothing. Its creation has failed with the socket error, so `create`
    /// yields that error and never asks for a child. A command without any
    /// argument is an argument error.
    pub fn unopened(args: &Args) -> (res: Result<Container, Errcode>)
        ensures
            is_blank(args.command@) ==> (res matches Err(Errcode::ArgumentInvalid(what)) && what@
                == "command"@),
            !is_blank(args.command@) ==> (res matches Ok(container) && container@
                == unopened_container(args@)),
    {
        let argv = split_command(args.command.as_str());
        proof {
            lemma_first_word(args.command@, 0);
        }
        if argv.len() == 0 {
            return Err(Errcode::ArgumentInvalid("command"));
        }
        let path = argv[0].clone();
        assert(argv.deep_view()[0] == argv[0]@);
        Ok(
            Container {
                config: ContainerOpts {
                    path,
                    argv,
                    uid: args.uid,
                    mount_dir: args.mount_dir.clone(),
                    fd: NO_FD,
                    hostname: args.hostname.clone(),
                },
                sockets: (NO_FD, NO_FD),
                child_pid: None,
                creation: Creation::Failed(Errcode::SocketError(0)),
                cleanup: Cleanup::Holding,
                parent_open: false,
                child_open: false,
                cgroup_held: false,
            },
        )
    }

    /// Creates the container, one step at a time: creates the child in its
    /// namespaces, restricts the child's resources, and runs the parent's
    /// half of the handshake, which releases the child.
    ///
    /// The first step that fails ends the creation with that step's error.
    /// Nothing is undone then: the child, if there is one, and what has
    /// been applied to it stay until `clean_exit`. Once the creation is
    /// over, in either way, every further call yields its result again and
    /// asks for nothing. In `Configured` no request is pending and `reply`
    /// is not looked at; in every later stage a missing reply counts as
    /// the failure of the pending request.
    pub fn create(&mut self, reply: Option<Reply>) -> (step: Step<Result<(), Errcode>>)
        ensures
            (final(self)@, step@) == create_step(old(self)@, reply),
    {
        match self.creation {
            Creation::Configured => {
                self.creation = Creation::Spawning;
                Step::Perform(generate_child_process(&self.config, None).request())
            },
            Creation::Spawning => {
                match generate_child_process(&self.config, Some(answer(reply))).result() {
                    Ok(pid) => {
                        let (stage, step) = restrict_resources(
                            &self.config.hostname,
                            pid,
                            ResourceStage::Unrestricted,
                            None,
                        );
                        self.child_pid = Some(pid);
                        self.cgroup_held = true;
                        self.creation = Creation::Restricting { pid, stage };
                        step
                    },
                    Err(e) => {
                        self.creation = Creation::Failed(e);
                        Step::Finished(Err(e))
                    },
                }
            },
            Creation::Restricting { pid, stage } => {
                let (next, step) = restrict_resources(&self.config.hostname, pid, stage, reply);
                match step {
                    Step::Perform(op) => {
                        self.creation = Creation::Restricting { pid, stage: next };
                        Step::Perform(op)
                    },
                    Step::Finished(Ok(_)) => {
                        let (handshake, first) = handle_child_uid_map(
                            pid,
                            self.sockets.0,
                            ParentHandshake::ChildSpawned,
                            None,
                        );
                        self.creation = Creation::Handshaking { pid, handshake };
                        first
                    },
                    Step::Finished(Err(e)) => {
                        self.creation = Creation::Failed(e);
                        Step::Finished(Err(e))
                    },
                }
            },
            Creation::Handshaking { pid, handshake } => {
                let (next, step) = handle_child_uid_map(pid, self.sockets.0, handshake, reply);
                match step {
                    Step::Perform(op) => {
                        self.creation = Creation::Handshaking { pid, handshake: next };
                        Step::Perform(op)
                    },
                    Step::Finished(Ok(_)) => {
                        self.creation = Creation::Created;
                        Step::Finished(Ok(()))
                    },
                    Step::Finished(Err(e)) => {
                        self.creation = Creation::Failed(e);
                        Step::Finished(Err(e))
                    },
                }
            },
            Creation::Created => Step::Finished(Ok(())),
            Creation::Failed(e) => Step::Finished(Err(e)),
        }
    }

    /// Asks for the next release that the container owes, or ends the
    /// release where nothing is held any more.
    fn release(&mut self) -> (step: Step<Result<(), Errcode>>)
        ensures
            (final(self)@, step@) == release_next(old(self)@),
    {
        if self.parent_open {
            self.parent_open = false;
            self.cleanup = Cleanup::ClosingParent;
            Step::Perform(Request::Close { fd: self.sockets.0 })
        } else if self.child_open {
            self.child_open = false;
            self.cleanup = Cleanup::ClosingChild;
            Step::Perform(Request::Close { fd: self.sockets.1 })
        } else if self.cgroup_held {
            self.cgroup_held = false;
            self.cleanup = Cleanup::RemovingCgroup;
            Step::Perform(clean_cgroups(&self.config.hostname, None).request())
        } else {
            self.cleanup = Cleanup::Released;
            Step::Finished(Ok(()))
        }
    }

    /// Releases what the container holds, one step at a time: the mount
    /// state, which asks nothing of the kernel; then the parent's end of
    /// the channel; then the child's; then the control group.
    ///
    /// Only what is held is released, and each thing is asked to be
    /// released once: whatever the replies and however often this is
    /// called, no descriptor is closed twice. The first release that fails
    /// ends the call with that error, and what comes after it stays held;
    /// a later call takes up with what is still held. With nothing held the
    /// call asks for nothing and succeeds. In `Holding` and in `Released`
    /// no request is pending and `reply` is not looked at; in every other
    /// stage a missing reply counts as the failure of the pending request.
    pub fn clean_exit(&mut self, reply: Option<Reply>) -> (step: Step<Result<(), Errcode>>)
        ensures
            (final(self)@, step@) == clean_exit_step(old(self)@, reply),
    {
        match self.cleanup {
            Cleanup::Holding | Cleanup::Released => {
                match clean_mounts(self.config.mount_dir.as_str()) {
                    Ok(_) => self.release(),
                    Err(e) => {
                        self.cleanup = Cleanup::Released;
                        Step::Finished(Err(e))
                    },
                }
            },
            Cleanup::ClosingParent => match answer(reply) {
                Reply::Done => self.release(),
                _ => {
                    self.cleanup = Cleanup::Released;
                    Step::Finished(Err(Errcode::SocketError(3)))
                },
            },
            Cleanup::ClosingChild => match answer(reply) {
                Reply::Done => self.release(),
                _ => {
                    self.cleanup = Cleanup::Released;
                    Step::Finished(Err(Errcode::SocketError(4)))
                },
            },
            Cleanup::RemovingCgroup => {
                match clean_cgroups(&self.config.hostname, Some(answer(reply))).result() {
                    Ok(_) => self.release(),
                    Err(e) => {
                        self.cleanup = Cleanup::Released;
                        Step::Finished(Err(e))
                    },
                }
            },
        }
    }
}

/// Where a run stands.
#[derive(Debug, PartialEq, Eq)]
pub enum Run {
    /// Nothing has been done yet.
    Idle,
    /// The host is supported and the channel has been asked for.
    Opening,
    /// The container exists and is being created.
    Creating(Container),
    /// The container is created and its child is being waited for.
    Waiting(Container),
    /// What the container holds is being released, after the error given,
    /// if any.
    Cleaning(Container, Option<Errcode>),
    /// The run is over.
    Exited(Result<(), Errcode>),
}

/// A run as plain values.
pub enum RunView {
    Idle,
    Opening,
    Creating(ContainerView),
    Waiting(ContainerView),
    Cleaning(ContainerView, Option<Errcode>),
    Exited(Result<(), Errcode>),
}

impl View for Run {
    type V = RunView;

    open spec fn view(&self) -> RunView {
        match *self {
            Run::Idle => RunView::Idle,
            Run::Opening => RunView::Opening,
            Run::Creating(c) => RunView::Creating(c@),
            Run::Waiting(c) => RunView::Waiting(c@),
            Run::Cleaning(c, cause) => RunView::Cleaning(c@, cause),
            Run::Exited(res) => RunView::Exited(res),
        }
    }
}

/// The error for a command line without any argument.
pub open spec fn no_command() -> Errcode {
    Errcode::ArgumentInvalid("command")
}

/// Ends a run with `res`.
pub open spec fn exited(res: Result<(), Errcode>) -> (RunView, StepView<Result<(), Errcode>>) {
    (RunView::Exited(res), StepView::Finished(res))
}

/// What a run ends with once the release is over: the error that led to
/// the release where there was one, whatever the release gave; and what
/// the release gave where there was none.
pub open spec fn verdict(cause: Option<Errcode>, released: Result<(), Errcode>) -> Result<
    (),
    Errcode,
> {
    match cause {
        Some(e) => Err(e),
        None => released,
    }
}

/// A run that is releasing what its container held: it goes on with the
/// release, or ends once the release is over, well or not. The error that
/// led to the release is the run's error; a failed release is the run's
/// error only where nothing had failed before.
pub open spec fn after_release(
    out: (ContainerView, StepView<Result<(), Errcode>>),
    cause: Option<Errcode>,
) -> (RunView, StepView<Result<(), Errcode>>) {
    match out.1 {
        StepView::Perform(op) => (RunView::Cleaning(out.0, cause), StepView::Perform(op)),
        StepView::Finished(released) => exited(verdict(cause, released)),
    }
}

/// A run that is creating its container: it goes on with the creation,
/// waits for the child once the creation went well, or turns to the
/// release once the creation failed.
pub open spec fn after_creation(out: (ContainerView, StepView<Result<(), Errcode>>)) -> (
    RunView,
    StepView<Result<(), Errcode>>,
) {
    match out.1 {
        StepView::Perform(op) => (RunView::Creating(out.0), StepView::Perform(op)),
        StepView::Finished(Ok(_)) => match wait_child_step(out.0.child_pid, None) {
            StepView::Perform(op) => (RunView::Waiting(out.0), StepView::Perform(op)),
            StepView::Finished(_) => after_release(clean_exit_step(out.0, None), None),
        },
        StepView::Finished(Err(e)) => after_release(clean_exit_step(out.0, None), Some(e)),
    }
}

/// A whole run: the state after `reply`, and what comes next.
pub open spec fn start_step(
    args: ArgsView,
    release: Seq<char>,
    machine: Seq<char>,
    state: RunView,
    reply: Option<Reply>,
) -> (RunView, StepView<Result<(), Errcode>>) {
    match state {
        RunView::Idle => match host_verdict(release, machine) {
            Err(e) => exited(Err(e)),
            Ok(_) => if is_blank(args.command) {
                exited(Err(no_command()))
            } else {
                (RunView::Opening, StepView::Perform(RequestView::SocketPair))
            },
        },
        RunView::Opening => if is_blank(args.command) {
            exited(Err(no_command()))
        } else {
            match socket_pair_step(Some(crate::kernel::reply_or_failed(reply))) {
                StepView::Finished(Ok(sockets)) => after_creation(
                    create_step(new_container(args, sockets), None),
                ),
                _ => after_creation(create_step(unopened_container(args), None)),
            }
        },
        RunView::Creating(c) => after_creation(create_step(c, reply)),
        RunView::Waiting(c) => match wait_child_step(
            c.child_pid,
            Some(crate::kernel::reply_or_failed(reply)),
        ) {
            StepView::Finished(Err(e)) => after_release(clean_exit_step(c, None), Some(e)),
            _ => after_release(clean_exit_step(c, None), None),
        },
        RunView::Cleaning(c, cause) => after_release(clean_exit_step(c, reply), cause),
        RunView::Exited(res) => (state, StepView::Finished(res)),
    }
}

/// Goes on with the release of what `container` holds, or ends the run.
fn release_or_exit(
    container: Container,
    step: Step<Result<(), Errcode>>,
    cause: Option<Errcode>,
) -> (out: (Run, Step<Result<(), Errcode>>))
    ensures
        (out.0@, out.1@) == after_release((container@, step@), cause),
{
    match step {
        Step::Perform(op) => (Run::Cleaning(container, cause), Step::Perform(op)),
        Step::Finished(released) => {
            let res: Result<(), Errcode> = match cause {
                Some(e) => Err(e),
                None => released,
            };
            (Run::Exited(res), Step::Finished(res))
        },
    }
}

/// Goes on with the creation of `container`, or with what follows it.
fn create_or_go_on(container: Container, step: Step<Result<(), Errcode>>) -> (out: (
    Run,
    Step<Result<(), Errcode>>,
))
    ensures
        (out.0@, out.1@) == after_creation((container@, step@)),
{
    let mut container = container;
    match step {
        Step::Perform(op) => (Run::Creating(container), Step::Perform(op)),
        Step::Finished(Ok(_)) => match wait_child(container.child_pid, None) {
            Step::Perform(op) => (Run::Waiting(container), Step::Perform(op)),
            Step::Finished(_) => {
                let first = container.clean_exit(None);
                release_or_exit(container, first, None)
            },
        },
        Step::Finished(Err(e)) => {
            let first = container.clean_exit(None);
            release_or_exit(container, first, Some(e))
        },
    }
}

/// Runs a container from beginning to end, one step at a time.
///
/// First the host is checked, from the kernel release and the machine
/// architecture that it reports: on a host that is not supported the run
/// ends with that error before anything is asked of the kernel. A blank
/// command ends the run in the same way. Then the container is built with
/// its channel; where the channel cannot be created, the container is
/// built without one, and its creation has failed with the socket error
/// before it begins. Then the container is created. If that
/// fails, what the container holds is released and the run ends with the
/// creation's error, whether or not the release went well. If it goes
/// well, the child is waited for, and then what the container holds is
/// released, whether or not the wait went well; the run ends with the
/// wait's error, if there was one. A release that fails is the run's error
/// only where neither the creation nor the wait had failed.
///
/// In `Idle` no request is pending and `reply` is not looked at; in every
/// later state a missing reply counts as the failure of the pending
/// request. Once the run is over every further call yields its result
/// again.
pub fn start(args: &Args, release: &str, machine: &str, state: Run, reply: Option<Reply>) -> (out: (
    Run,
    Step<Result<(), Errcode>>,
))
    ensures
        (out.0@, out.1@) == start_step(args@, release@, machine@, state@, reply),
{
    match state {
        Run::Idle => {
            if let Err(e) = check_linux_version(release, machine) {
                return (Run::Exited(Err(e)), Step::Finished(Err(e)));
            }
            match Container::new(args, None) {
                Step::Perform(op) => (Run::Opening, Step::Perform(op)),
                Step::Finished(_) => {
                    let e = Errcode::ArgumentInvalid("command");
                    (Run::Exited(Err(e)), Step::Finished(Err(e)))
                },
            }
        },
        Run::Opening => {
            let built = match Container::new(args, Some(answer(reply))) {
                Step::Finished(Ok(container)) => Ok(container),
                _ => Container::unopened(args),
            };
            match built {
                Ok(container) => {
                    let mut container = container;
                    let first = container.create(None);
                    create_or_go_on(container, first)
                },
                Err(_) => {
                    let e = Errcode::ArgumentInvalid("command");
                    (Run::Exited(Err(e)), Step::Finished(Err(e)))
                },
            }
        },
        Run::Creating(container) => {
            let mut container = container;
            let step = container.create(reply);
            create_or_go_on(container, step)
        },
        Run::Waiting(container) => {
            let mut container = container;
            let cause = match wait_child(container.child_pid, Some(answer(reply))) {
                Step::Finished(Err(e)) => Some(e),
                _ => None,
            };
            let first = container.clean_exit(None);
            release_or_exit(container, first, cause)
        },
        Run::Cleaning(container, cause) => {
            let mut container = container;
            let step = container.clean_exit(reply);
            release_or_exit(container, step, cause)
        },
        Run::Exited(res) => (Run::Exited(res), Step::Finished(res)),
    }
}

} // verus!
