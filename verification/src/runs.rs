//! Whole runs: the requests that are made when the kernel answers with a
//! given sequence of replies, and what holds of them whatever the replies.

use crate::child::{child, child_step, clone_request, Bootstrap};
use crate::config::{container_opts, is_blank, ContainerOpts, ContainerOptsView};
use crate::container::{
    after_release, clean_exit_step, create_step, exited, host_verdict, no_command, start,
    start_step, unopened_container, Args, ArgsView, Cleanup, ContainerView, Run, RunView,
};
use crate::errors::Errcode;
use crate::ipc::{decode_boolean, encode_boolean, socket_pair_step};
use crate::kernel::{
    reply_or_failed, Namespace, Pid, RawFd, Reply, Request, RequestView, Step, StepView,
};
use crate::mounts::private_root_flags;
use crate::resources::ResourcePolicy;
use vstd::prelude::*;

verus! {

/// How often `trace` asks for `fd` to be closed.
pub open spec fn closes(trace: Seq<RequestView>, fd: RawFd) -> nat
    decreases trace.len(),
{
    if trace.len() == 0 {
        0
    } else {
        closes(trace.drop_last(), fd) + if trace.last() == (RequestView::Close { fd }) {
            1nat
        } else {
            0nat
        }
    }
}

/// The requests that a run makes from `state` on, when `reply` answers the
/// request that is pending there and `replies` answer the requests that
/// follow, in order. The run stops when it is over or when the replies
/// have run out.
pub open spec fn requests_from(
    args: ArgsView,
    release: Seq<char>,
    machine: Seq<char>,
    state: RunView,
    reply: Option<Reply>,
    replies: Seq<Reply>,
) -> Seq<RequestView>
    decreases replies.len(),
{
    let (next, step) = start_step(args, release, machine, state, reply);
    match step {
        StepView::Finished(_) => Seq::empty(),
        StepView::Perform(op) => if replies.len() == 0 {
            seq![op]
        } else {
            seq![op] + requests_from(
                args,
                release,
                machine,
                next,
                Some(replies[0]),
                replies.drop_first(),
            )
        },
    }
}

/// What a run ends with from `state` on, under the same replies; nothing
/// where the replies run out before the run is over.
pub open spec fn result_from(
    args: ArgsView,
    release: Seq<char>,
    machine: Seq<char>,
    state: RunView,
    reply: Option<Reply>,
    replies: Seq<Reply>,
) -> Option<Result<(), Errcode>>
    decreases replies.len(),
{
    let (next, step) = start_step(args, release, machine, state, reply);
    match step {
        StepView::Finished(res) => Some(res),
        StepView::Perform(op) => if replies.len() == 0 {
            None
        } else {
            result_from(args, release, machine, next, Some(replies[0]), replies.drop_first())
        },
    }
}

/// The requests of a whole run under `replies`.
pub open spec fn requests(
    args: ArgsView,
    release: Seq<char>,
    machine: Seq<char>,
    replies: Seq<Reply>,
) -> Seq<RequestView> {
    requests_from(args, release, machine, RunView::Idle, None, replies)
}

/// The result of a whole run under `replies`.
pub open spec fn result(
    args: ArgsView,
    release: Seq<char>,
    machine: Seq<char>,
    replies: Seq<Reply>,
) -> Option<Result<(), Errcode>> {
    result_from(args, release, machine, RunView::Idle, None, replies)
}

/// How often `c` may still ask for `fd` to be closed: once for each end of
/// its channel that is `fd` and is still open.
pub open spec fn open_ends(c: ContainerView, fd: RawFd) -> nat {
    (if c.parent_open && c.sockets.0 == fd {
        1nat
    } else {
        0nat
    }) + (if c.child_open && c.sockets.1 == fd {
        1nat
    } else {
        0nat
    })
}

/// How often a run in `state` may still ask for `fd` to be closed.
pub open spec fn closes_left(state: RunView, fd: RawFd) -> nat {
    match state {
        RunView::Idle => 1,
        RunView::Opening => 1,
        RunView::Creating(c) => open_ends(c, fd),
        RunView::Waiting(c) => open_ends(c, fd),
        RunView::Cleaning(c, _) => open_ends(c, fd),
        RunView::Exited(_) => 0,
    }
}

/// Counting closes over a trace that starts with `op`.
pub proof fn lemma_closes_cons(op: RequestView, rest: Seq<RequestView>, fd: RawFd)
    ensures
        closes(seq![op] + rest, fd) == closes(rest, fd) + if op == (RequestView::Close { fd }) {
            1nat
        } else {
            0nat
        },
    decreases rest.len(),
{
    let whole = seq![op] + rest;
    if rest.len() == 0 {
        assert(whole.drop_last() =~= Seq::<RequestView>::empty());
        assert(whole.last() == op);
        assert(closes(whole.drop_last(), fd) == 0);
    } else {
        assert(whole.drop_last() =~= seq![op] + rest.drop_last());
        assert(whole.last() == rest.last());
        lemma_closes_cons(op, rest.drop_last(), fd);
    }
}

/// A container closes only what it holds open, and each end once: a step
/// of its release that asks for `fd` to be closed leaves one open end that
/// is `fd` fewer, and no step of its creation or of its release, in
/// whatever order they are called, asks for anything else to be closed or
/// opens an end again.
pub proof fn lemma_container_spends_close(c: ContainerView, reply: Option<Reply>, fd: RawFd)
    ensures
        match clean_exit_step(c, reply).1 {
            StepView::Perform(op) => open_ends(clean_exit_step(c, reply).0, fd) + (if op == (
                RequestView::Close { fd }
            ) {
                1nat
            } else {
                0nat
            }) <= open_ends(c, fd),
            StepView::Finished(_) => open_ends(clean_exit_step(c, reply).0, fd) <= open_ends(c, fd),
        },
        open_ends(create_step(c, reply).0, fd) == open_ends(c, fd),
        create_step(c, reply).1 != StepView::<Result<(), Errcode>>::Perform(
            RequestView::Close { fd },
        ),
{
}

/// One step of a run uses up what it closes: a step that asks for `fd` to
/// be closed leaves one close of `fd` fewer, and no other step leaves more
/// than there were.
pub proof fn lemma_step_spends_close(
    args: ArgsView,
    release: Seq<char>,
    machine: Seq<char>,
    state: RunView,
    reply: Option<Reply>,
    fd: RawFd,
)
    ensures
        ({
            let (next, step) = start_step(args, release, machine, state, reply);
            match step {
                StepView::Perform(op) => closes_left(next, fd) + (if op == (RequestView::Close {
                    fd,
                }) {
                    1nat
                } else {
                    0nat
                }) <= closes_left(state, fd),
                StepView::Finished(_) => true,
            }
        }),
{
}

/// No descriptor is closed twice, and none that the run does not hold: from
/// any state and under any replies, a run asks for `fd` to be closed at
/// most as often as it holds an open end of the channel that is `fd`.
pub proof fn lemma_closes_bounded(
    args: ArgsView,
    release: Seq<char>,
    machine: Seq<char>,
    state: RunView,
    reply: Option<Reply>,
    replies: Seq<Reply>,
    fd: RawFd,
)
    ensures
        closes(requests_from(args, release, machine, state, reply, replies), fd) <= closes_left(
            state,
            fd,
        ),
    decreases replies.len(),
{
    let (next, step) = start_step(args, release, machine, state, reply);
    lemma_step_spends_close(args, release, machine, state, reply, fd);
    match step {
        StepView::Finished(_) => {},
        StepView::Perform(op) => {
            if replies.len() == 0 {
                lemma_closes_cons(op, Seq::empty(), fd);
                assert(seq![op] + Seq::<RequestView>::empty() =~= seq![op]);
            } else {
                let rest = requests_from(
                    args,
                    release,
                    machine,
                    next,
                    Some(replies[0]),
                    replies.drop_first(),
                );
                lemma_closes_bounded(
                    args,
                    release,
                    machine,
                    next,
                    Some(replies[0]),
                    replies.drop_first(),
                    fd,
                );
                lemma_closes_cons(op, rest, fd);
            }
        },
    }
}

/// Close once: whatever the kernel answers, a run never asks twice for the
/// same descriptor to be closed.
pub proof fn lemma_close_once(
    args: ArgsView,
    release: Seq<char>,
    machine: Seq<char>,
    replies: Seq<Reply>,
    fd: RawFd,
)
    ensures
        closes(requests(args, release, machine, replies), fd) <= 1,
{
    lemma_closes_bounded(args, release, machine, RunView::Idle, None, replies, fd);
}

/// Whether the release of `c` agrees with what `c` holds: the two ends of
/// the channel differ, and whatever has been asked to be released, or
/// comes before it in the order of release, is no longer held.
pub open spec fn orderly(c: ContainerView) -> bool {
    &&& c.sockets.0 != c.sockets.1
    &&& match c.cleanup {
        Cleanup::Holding => true,
        Cleanup::Released => true,
        Cleanup::ClosingParent => !c.parent_open,
        Cleanup::ClosingChild => !c.parent_open && !c.child_open,
        Cleanup::RemovingCgroup => !c.parent_open && !c.child_open && !c.cgroup_held,
    }
}

/// Whether a run has a container and agrees with it: the container's
/// release agrees with what it holds, and no release is pending while the
/// container is created or its child waited for.
pub open spec fn run_orderly(state: RunView) -> bool {
    match state {
        RunView::Creating(c) => orderly(c) && (c.cleanup is Holding || c.cleanup is Released),
        RunView::Waiting(c) => orderly(c) && (c.cleanup is Holding || c.cleanup is Released),
        RunView::Cleaning(c, _) => orderly(c),
        _ => false,
    }
}

/// The container that a run holds.
pub open spec fn held(state: RunView) -> ContainerView
    recommends
        run_orderly(state),
{
    match state {
        RunView::Creating(c) => c,
        RunView::Waiting(c) => c,
        RunView::Cleaning(c, _) => c,
        _ => arbitrary(),
    }
}

/// Whether a run stops at the close of the parent's end of its channel:
/// that close is the last request of `trace`, or, where `trace` is empty,
/// it is the request that is pending in `state` and `reply` refuses it.
pub open spec fn stops_at_parent_close(
    state: RunView,
    reply: Option<Reply>,
    trace: Seq<RequestView>,
) -> bool {
    if trace.len() > 0 {
        trace.last() == (RequestView::Close { fd: held(state).sockets.0 })
    } else {
        held(state).cleanup is ClosingParent && reply != Some(Reply::Done)
    }
}

/// A run that has a container and comes to its end closes every end of the
/// channel that is open, each once: the parent's end in any case, and the
/// child's end unless the run stops at the close of the parent's end,
/// which is where a release stops when that close is refused.
pub proof fn lemma_open_ends_are_closed(
    args: ArgsView,
    release: Seq<char>,
    machine: Seq<char>,
    state: RunView,
    reply: Option<Reply>,
    replies: Seq<Reply>,
)
    requires
        run_orderly(state),
        result_from(args, release, machine, state, reply, replies) is Some,
    ensures
        ({
            let c = held(state);
            let trace = requests_from(args, release, machine, state, reply, replies);
            &&& closes(trace, c.sockets.0) == if c.parent_open {
                1nat
            } else {
                0nat
            }
            &&& stops_at_parent_close(state, reply, trace) || closes(trace, c.sockets.1)
                == if c.child_open {
                1nat
            } else {
                0nat
            }
        }),
    decreases replies.len(),
{
    let c = held(state);
    let (next, step) = start_step(args, release, machine, state, reply);
    match step {
        StepView::Finished(_) => {},
        StepView::Perform(op) => {
            let rest = requests_from(
                args,
                release,
                machine,
                next,
                Some(replies[0]),
                replies.drop_first(),
            );
            let trace = seq![op] + rest;
            lemma_closes_cons(op, rest, c.sockets.0);
            lemma_closes_cons(op, rest, c.sockets.1);
            assert(run_orderly(next));
            assert(held(next).sockets == c.sockets);
            lemma_open_ends_are_closed(
                args,
                release,
                machine,
                next,
                Some(replies[0]),
                replies.drop_first(),
            );
            if rest.len() > 0 {
                assert(trace.last() == rest.last());
            } else {
                assert(trace.last() == op);
                assert(held(next).cleanup is ClosingParent ==> op == (RequestView::Close {
                    fd: c.sockets.0,
                }));
            }
        },
    }
}

/// Each end of the channel is closed exactly once: a run whose channel was
/// created and that comes to its end, well or not, has asked once for the
/// parent's end to be closed, and once for the child's end unless it stops
/// at the close of the parent's end, which is where the release stops when
/// that close is refused.
pub proof fn lemma_close_exactly_once(
    args: ArgsView,
    release: Seq<char>,
    machine: Seq<char>,
    replies: Seq<Reply>,
    parent: RawFd,
    child: RawFd,
)
    requires
        host_verdict(release, machine) is Ok,
        !is_blank(args.command),
        replies.len() > 0,
        replies[0] == Reply::Fds(parent, child),
        parent != child,
        result(args, release, machine, replies) is Some,
    ensures
        closes(requests(args, release, machine, replies), parent) == 1,
        closes(requests(args, release, machine, replies), child) == 1 || requests(
            args,
            release,
            machine,
            replies,
        ).last() == (RequestView::Close { fd: parent }),
{
    let first = start_step(args, release, machine, RunView::Idle, None);
    let second = start_step(args, release, machine, first.0, Some(replies[0]));
    let r1 = replies.drop_first();
    assert(second.1 is Perform);
    let op = second.1->Perform_0;
    assert(run_orderly(second.0));
    let rest = requests_from(args, release, machine, second.0, Some(r1[0]), r1.drop_first());
    reveal_with_fuel(requests_from, 3);
    reveal_with_fuel(result_from, 3);
    assert(r1.len() > 0);
    lemma_open_ends_are_closed(args, release, machine, second.0, Some(r1[0]), r1.drop_first());
    let tail = seq![op] + rest;
    let whole = seq![RequestView::SocketPair] + tail;
    assert(requests(args, release, machine, replies) == whole);
    lemma_closes_cons(op, rest, parent);
    lemma_closes_cons(op, rest, child);
    lemma_closes_cons(RequestView::SocketPair, tail, parent);
    lemma_closes_cons(RequestView::SocketPair, tail, child);
    if rest.len() > 0 {
        assert(whole.last() == rest.last());
    } else {
        assert(whole.last() == op);
    }
}

/// The error that leads to the release is the run's error: a run that is
/// releasing what its container held after an error ends with that error,
/// whatever the release gives.
pub proof fn lemma_cause_survives_release(
    args: ArgsView,
    release: Seq<char>,
    machine: Seq<char>,
    c: ContainerView,
    cause: Errcode,
    reply: Option<Reply>,
    replies: Seq<Reply>,
)
    requires
        result_from(
            args,
            release,
            machine,
            RunView::Cleaning(c, Some(cause)),
            reply,
            replies,
        ) is Some,
    ensures
        result_from(args, release, machine, RunView::Cleaning(c, Some(cause)), reply, replies)
            == Some(Err::<(), Errcode>(cause)),
    decreases replies.len(),
{
    let (next, step) = start_step(
        args,
        release,
        machine,
        RunView::Cleaning(c, Some(cause)),
        reply,
    );
    match step {
        StepView::Finished(_) => {},
        StepView::Perform(_) => {
            lemma_cause_survives_release(
                args,
                release,
                machine,
                next->Cleaning_0,
                cause,
                Some(replies[0]),
                replies.drop_first(),
            );
        },
    }
}

/// A failed creation is the run's error, whatever the release gives: where
/// a step of the creation ends it with an error, the run that comes to its
/// end ends with that error, after the release, and whether or not the
/// release went well.
pub proof fn lemma_creation_error_survives(
    args: ArgsView,
    release: Seq<char>,
    machine: Seq<char>,
    c: ContainerView,
    e: Errcode,
    reply: Option<Reply>,
    replies: Seq<Reply>,
)
    requires
        create_step(c, reply).1 == StepView::Finished(Err::<(), Errcode>(e)),
        result_from(args, release, machine, RunView::Creating(c), reply, replies) is Some,
    ensures
        result_from(args, release, machine, RunView::Creating(c), reply, replies) == Some(
            Err::<(), Errcode>(e),
        ),
{
    let (next, step) = start_step(args, release, machine, RunView::Creating(c), reply);
    match step {
        StepView::Finished(_) => {},
        StepView::Perform(_) => {
            lemma_cause_survives_release(
                args,
                release,
                machine,
                next->Cleaning_0,
                e,
                Some(replies[0]),
                replies.drop_first(),
            );
        },
    }
}

/// A child that cannot be created is the run's error, whatever follows:
/// where the channel is created and the child is refused, a run that comes
/// to its end ends with the child process error, whether the closes that
/// follow are granted or refused.
pub proof fn lemma_failed_spawn_is_the_error(
    args: ArgsView,
    release: Seq<char>,
    machine: Seq<char>,
    replies: Seq<Reply>,
    parent: RawFd,
    child: RawFd,
)
    requires
        host_verdict(release, machine) is Ok,
        !is_blank(args.command),
        replies.len() >= 2,
        replies[0] == Reply::Fds(parent, child),
        parent != child,
        !(replies[1] matches Reply::Pid(pid) && pid > 0),
        result(args, release, machine, replies) is Some,
    ensures
        result(args, release, machine, replies) == Some(
            Err::<(), Errcode>(Errcode::ChildProcessError(0)),
        ),
{
    let first = start_step(args, release, machine, RunView::Idle, None);
    let second = start_step(args, release, machine, first.0, Some(replies[0]));
    let r1 = replies.drop_first();
    let r2 = r1.drop_first();
    assert(r1[0] == replies[1]);
    reveal_with_fuel(result_from, 3);
    lemma_creation_error_survives(
        args,
        release,
        machine,
        second.0->Creating_0,
        Errcode::ChildProcessError(0),
        Some(r1[0]),
        r2,
    );
}

/// A failed wait is the run's error in the same way.
pub proof fn lemma_wait_error_survives(
    args: ArgsView,
    release: Seq<char>,
    machine: Seq<char>,
    c: ContainerView,
    reply: Option<Reply>,
    replies: Seq<Reply>,
)
    requires
        c.child_pid is Some,
        reply != Some(Reply::Done),
        result_from(args, release, machine, RunView::Waiting(c), reply, replies) is Some,
    ensures
        result_from(args, release, machine, RunView::Waiting(c), reply, replies) == Some(
            Err::<(), Errcode>(Errcode::ContainerError(1)),
        ),
{
    let (next, step) = start_step(args, release, machine, RunView::Waiting(c), reply);
    match step {
        StepView::Finished(_) => {},
        StepView::Perform(_) => {
            lemma_cause_survives_release(
                args,
                release,
                machine,
                next->Cleaning_0,
                Errcode::ContainerError(1),
                Some(replies[0]),
                replies.drop_first(),
            );
        },
    }
}

/// On a host that is not supported a run asks nothing of the kernel,
/// whatever it is given, and ends with the verdict on the host.
pub proof fn lemma_unsupported_host_asks_nothing(
    args: ArgsView,
    release: Seq<char>,
    machine: Seq<char>,
    replies: Seq<Reply>,
)
    requires
        host_verdict(release, machine) is Err,
    ensures
        requests(args, release, machine, replies) == Seq::<RequestView>::empty(),
        result(args, release, machine, replies) == Some(host_verdict(release, machine)),
{
}

/// A blank command asks nothing of the kernel either, and ends with an
/// argument error.
pub proof fn lemma_blank_command_asks_nothing(
    args: ArgsView,
    release: Seq<char>,
    machine: Seq<char>,
    replies: Seq<Reply>,
)
    requires
        host_verdict(release, machine) is Ok,
        is_blank(args.command),
    ensures
        requests(args, release, machine, replies) == Seq::<RequestView>::empty(),
        result(args, release, machine, replies) == Some(Err::<(), Errcode>(no_command())),
{
}

/// Without a channel there is no child: where the channel cannot be
/// created, the request for it is the only one that the run makes, and the
/// run ends with a socket error.
pub proof fn lemma_no_channel_no_child(
    args: ArgsView,
    release: Seq<char>,
    machine: Seq<char>,
    replies: Seq<Reply>,
)
    requires
        host_verdict(release, machine) is Ok,
        !is_blank(args.command),
        replies.len() > 0,
        !(socket_pair_step(Some(replies[0])) matches StepView::Finished(Ok(_))),
    ensures
        requests(args, release, machine, replies) == seq![RequestView::SocketPair],
        result(args, release, machine, replies) == Some(
            Err::<(), Errcode>(Errcode::SocketError(0)),
        ),
{
    reveal_with_fuel(requests_from, 3);
    reveal_with_fuel(result_from, 3);
    assert(requests(args, release, machine, replies) =~= seq![RequestView::SocketPair]);
}

/// A run whose channel cannot be created still goes through the creation
/// and the release of its container before it ends: the container is the
/// one without a channel; its creation yields the socket error whatever it
/// is given, and asks for nothing, so no child is ever asked for; its
/// release finds nothing held, asks for nothing, and ends well; and the
/// run ends with the socket error.
pub proof fn lemma_failed_channel_is_released(
    args: ArgsView,
    release: Seq<char>,
    machine: Seq<char>,
    reply: Option<Reply>,
    any: Option<Reply>,
)
    requires
        !is_blank(args.command),
        !(socket_pair_step(Some(reply_or_failed(reply))) matches StepView::Finished(Ok(_))),
    ensures
        ({
            let c = unopened_container(args);
            let failed = StepView::Finished(Err::<(), Errcode>(Errcode::SocketError(0)));
            &&& create_step(c, any) == (c, failed)
            &&& clean_exit_step(c, any) == (
                ContainerView { cleanup: Cleanup::Released, ..c },
                StepView::Finished(Ok::<(), Errcode>(())),
            )
            &&& start_step(args, release, machine, RunView::Opening, reply) == after_release(
                clean_exit_step(create_step(c, None).0, None),
                Some(Errcode::SocketError(0)),
            )
            &&& start_step(args, release, machine, RunView::Opening, reply) == exited(
                Err(Errcode::SocketError(0)),
            )
        }),
{
}

/// The replies of a kernel that grants every request of a run: the channel
/// `parent` and `child`, the process `pid`, the child's status, and
/// success for everything else.
pub open spec fn all_granted(parent: RawFd, child: RawFd, pid: Pid, status: u8) -> Seq<Reply> {
    seq![
        Reply::Fds(parent, child),
        Reply::Pid(pid),
        Reply::Done,
        Reply::Done,
        Reply::Byte(status),
        Reply::Done,
        Reply::Done,
        Reply::Done,
        Reply::Done,
        Reply::Done,
    ]
}

/// The requests of a run in which everything is granted.
pub open spec fn full_run(args: ArgsView, parent: RawFd, child: RawFd, pid: Pid) -> Seq<
    RequestView,
> {
    seq![
        RequestView::SocketPair,
        clone_request(
            container_opts(args.command, args.uid, args.mount_dir, args.hostname, child),
        ),
        RequestView::CreateCgroup {
            name: args.hostname,
            task: pid as u64,
            policy: ResourcePolicy::fixed(),
        },
        RequestView::LimitOpenFiles { soft: 64, hard: 64 },
        RequestView::Recv { fd: parent },
        RequestView::Send { fd: parent, byte: 0 },
        RequestView::WaitPid { pid },
        RequestView::Close { fd: parent },
        RequestView::Close { fd: child },
        RequestView::RemoveCgroup { name: args.hostname },
    ]
}

/// A run in which everything is granted creates the channel, one child,
/// one control group and one limit on open files; receives the child's
/// status and answers false; waits for the child; and then closes the
/// parent's end of the channel, closes the child's end, and removes the
/// control group: these ten requests, in this order, each once. It ends
/// well.
pub proof fn lemma_full_run(
    args: ArgsView,
    release: Seq<char>,
    machine: Seq<char>,
    parent: RawFd,
    child: RawFd,
    pid: Pid,
    status: u8,
)
    requires
        host_verdict(release, machine) is Ok,
        !is_blank(args.command),
        parent != child,
        pid > 0,
    ensures
        requests(args, release, machine, all_granted(parent, child, pid, status)) == full_run(
            args,
            parent,
            child,
            pid,
        ),
        result(args, release, machine, all_granted(parent, child, pid, status)) == Some(
            Ok::<(), Errcode>(()),
        ),
{
    let r0 = all_granted(parent, child, pid, status);
    let r1 = r0.drop_first();
    let r2 = r1.drop_first();
    let r3 = r2.drop_first();
    let r4 = r3.drop_first();
    let r5 = r4.drop_first();
    let r6 = r5.drop_first();
    let r7 = r6.drop_first();
    let r8 = r7.drop_first();
    let r9 = r8.drop_first();
    let r10 = r9.drop_first();
    assert(r10.len() == 0);
    reveal_with_fuel(requests_from, 12);
    reveal_with_fuel(result_from, 12);
    assert(requests(args, release, machine, r0) =~= full_run(args, parent, child, pid));
}

/// Where the child cannot be created, the run closes both ends of the
/// channel, parent's first, asks for nothing else, and ends with a child
/// process error.
pub proof fn lemma_failed_spawn_is_cleaned_up(
    args: ArgsView,
    release: Seq<char>,
    machine: Seq<char>,
    parent: RawFd,
    child: RawFd,
)
    requires
        host_verdict(release, machine) is Ok,
        !is_blank(args.command),
        parent != child,
    ensures
        ({
            let replies = seq![Reply::Fds(parent, child), Reply::Failed, Reply::Done, Reply::Done];
            &&& requests(args, release, machine, replies) == seq![
                RequestView::SocketPair,
                clone_request(
                    container_opts(args.command, args.uid, args.mount_dir, args.hostname, child),
                ),
                RequestView::Close { fd: parent },
                RequestView::Close { fd: child },
            ]
            &&& result(args, release, machine, replies) == Some(
                Err::<(), Errcode>(Errcode::ChildProcessError(0)),
            )
        }),
{
    let r0 = seq![Reply::Fds(parent, child), Reply::Failed, Reply::Done, Reply::Done];
    let r1 = r0.drop_first();
    let r2 = r1.drop_first();
    let r3 = r2.drop_first();
    let r4 = r3.drop_first();
    assert(r4.len() == 0);
    reveal_with_fuel(requests_from, 6);
    reveal_with_fuel(result_from, 6);
    assert(requests(args, release, machine, r0) =~= seq![
        RequestView::SocketPair,
        clone_request(
            container_opts(args.command, args.uid, args.mount_dir, args.hostname, child),
        ),
        RequestView::Close { fd: parent },
        RequestView::Close { fd: child },
    ]);
}

/// The requests that a child makes from `state` on, when `reply` answers
/// the request that is pending there and `replies` answer the requests
/// that follow, in order.
pub open spec fn child_requests_from(
    config: ContainerOptsView,
    state: Bootstrap,
    reply: Option<Reply>,
    replies: Seq<Reply>,
) -> Seq<RequestView>
    decreases replies.len(),
{
    let (next, step) = child_step(config, state, reply);
    match step {
        StepView::Finished(_) => Seq::empty(),
        StepView::Perform(op) => if replies.len() == 0 {
            seq![op]
        } else {
            seq![op] + child_requests_from(config, next, Some(replies[0]), replies.drop_first())
        },
    }
}

/// The status that a child ends with from `state` on, under the same
/// replies; nothing where the replies run out before the child is over.
pub open spec fn child_status_from(
    config: ContainerOptsView,
    state: Bootstrap,
    reply: Option<Reply>,
    replies: Seq<Reply>,
) -> Option<isize>
    decreases replies.len(),
{
    let (next, step) = child_step(config, state, reply);
    match step {
        StepView::Finished(status) => Some(status),
        StepView::Perform(op) => if replies.len() == 0 {
            None
        } else {
            child_status_from(config, next, Some(replies[0]), replies.drop_first())
        },
    }
}

/// The requests of a child's whole life before its program, under
/// `replies`.
pub open spec fn child_requests(config: ContainerOptsView, replies: Seq<Reply>) -> Seq<
    RequestView,
> {
    child_requests_from(config, Bootstrap::Entered, None, replies)
}

/// The status of a child under `replies`.
pub open spec fn child_status(config: ContainerOptsView, replies: Seq<Reply>) -> Option<isize> {
    child_status_from(config, Bootstrap::Entered, None, replies)
}

/// Whether a child in `state` has yet to close its end of the channel.
pub open spec fn end_open(state: Bootstrap) -> bool {
    state is Entered || state is Configuring
}

/// The child asks for nothing to be closed but its own end of the channel,
/// and for that at most once: not at all once it has asked.
pub proof fn lemma_child_closes_at_most_once(
    config: ContainerOptsView,
    state: Bootstrap,
    reply: Option<Reply>,
    replies: Seq<Reply>,
    fd: RawFd,
)
    ensures
        closes(child_requests_from(config, state, reply, replies), fd) <= if end_open(state) && fd
            == config.fd {
            1nat
        } else {
            0nat
        },
    decreases replies.len(),
{
    let (next, step) = child_step(config, state, reply);
    match step {
        StepView::Finished(_) => {},
        StepView::Perform(op) => {
            if replies.len() == 0 {
                lemma_closes_cons(op, Seq::empty(), fd);
                assert(seq![op] + Seq::<RequestView>::empty() =~= seq![op]);
            } else {
                let rest = child_requests_from(
                    config,
                    next,
                    Some(replies[0]),
                    replies.drop_first(),
                );
                lemma_child_closes_at_most_once(
                    config,
                    next,
                    Some(replies[0]),
                    replies.drop_first(),
                    fd,
                );
                lemma_closes_cons(op, rest, fd);
            }
        },
    }
}

/// The child always closes its end of the channel: a child that has come
/// to its end, in whatever way, has asked for its end of the channel to be
/// closed exactly once, so that the parent is never left waiting.
pub proof fn lemma_child_always_closes(
    config: ContainerOptsView,
    state: Bootstrap,
    reply: Option<Reply>,
    replies: Seq<Reply>,
)
    requires
        end_open(state),
        child_status_from(config, state, reply, replies) is Some,
    ensures
        closes(child_requests_from(config, state, reply, replies), config.fd) == 1,
    decreases replies.len(),
{
    let (next, step) = child_step(config, state, reply);
    match step {
        StepView::Finished(_) => {},
        StepView::Perform(op) => {
            let rest = child_requests_from(config, next, Some(replies[0]), replies.drop_first());
            lemma_closes_cons(op, rest, config.fd);
            if end_open(next) {
                lemma_child_always_closes(config, next, Some(replies[0]), replies.drop_first());
            } else {
                lemma_child_closes_at_most_once(
                    config,
                    next,
                    Some(replies[0]),
                    replies.drop_first(),
                    config.fd,
                );
            }
        },
    }
}

/// The requests of a child for which everything goes well, where `status`
/// is the byte that tells whether it got a user namespace.
pub open spec fn child_full_run(config: ContainerOptsView, status: u8) -> Seq<RequestView> {
    seq![
        RequestView::SetHostname { name: config.hostname },
        RequestView::Mount { source: None, target: seq!['/'], flags: private_root_flags() },
        RequestView::Unshare { namespace: Namespace::User },
        RequestView::Send { fd: config.fd, byte: status },
        RequestView::Recv { fd: config.fd },
        RequestView::DropCapabilities,
        RequestView::FilterSyscalls,
        RequestView::Close { fd: config.fd },
        RequestView::Exec { path: config.path, argv: config.argv },
    ]
}

/// Whether these replies let a child come to its program: its hostname is
/// set, the root mount made private, its status sent, the parent's answer
/// false, its capabilities dropped, its syscalls filtered, and its end of
/// the channel closed. Whether it got a user namespace does not matter.
pub open spec fn child_granted(replies: Seq<Reply>) -> bool {
    &&& replies.len() >= 8
    &&& replies[0] == Reply::Done
    &&& replies[1] == Reply::Done
    &&& replies[3] == Reply::Done
    &&& replies[4] matches Reply::Byte(answer)
    &&& !decode_boolean(answer)
    &&& replies[5] == Reply::Done
    &&& replies[6] == Reply::Done
    &&& replies[7] == Reply::Done
}

/// A child for which everything goes well sets its hostname, makes the
/// root mount private, runs the handshake, drops its capabilities, filters
/// its syscalls, closes its end of the channel, and runs the program, in
/// this order.
pub proof fn lemma_child_full_run(config: ContainerOptsView, replies: Seq<Reply>)
    requires
        replies.len() == 8,
        child_granted(replies),
    ensures
        child_requests(config, replies) == child_full_run(
            config,
            encode_boolean(replies[2] == Reply::Done),
        ),
{
    let r0 = replies;
    let r1 = r0.drop_first();
    let r2 = r1.drop_first();
    let r3 = r2.drop_first();
    let r4 = r3.drop_first();
    let r5 = r4.drop_first();
    let r6 = r5.drop_first();
    let r7 = r6.drop_first();
    let r8 = r7.drop_first();
    assert(r8.len() == 0);
    reveal_with_fuel(child_requests_from, 10);
    assert(child_requests(config, replies) =~= child_full_run(
        config,
        encode_boolean(replies[2] == Reply::Done),
    ));
}

/// The program is run only by a child that is isolated and has closed its
/// end of the channel: wherever a child asks for its program to be run,
/// that is its ninth request, and every step before it went well.
pub proof fn lemma_program_runs_only_when_isolated(
    config: ContainerOptsView,
    replies: Seq<Reply>,
    i: int,
)
    requires
        0 <= i < child_requests(config, replies).len(),
        child_requests(config, replies)[i] is Exec,
    ensures
        i == 8,
        child_granted(replies),
{
    let r0 = replies;
    let r1 = r0.drop_first();
    let r2 = r1.drop_first();
    let r3 = r2.drop_first();
    let r4 = r3.drop_first();
    let r5 = r4.drop_first();
    let r6 = r5.drop_first();
    let r7 = r6.drop_first();
    let r8 = r7.drop_first();
    let r9 = r8.drop_first();
    reveal_with_fuel(child_requests_from, 11);
}

/// A list of requests as plain values.
pub open spec fn trace_view(trace: Seq<Request>) -> Seq<RequestView> {
    Seq::new(trace.len(), |i: int| trace[i]@)
}

/// Runs a container against a kernel that answers from a script: yields the
/// requests that the run makes when its requests are answered with
/// `replies`, in order, and what the run ends with, or nothing if the
/// replies run out before the run is over.
///
/// Whatever the script, no descriptor is asked to be closed twice.
pub fn replay(args: &Args, release: &str, machine: &str, replies: &Vec<Reply>) -> (out: (
    Vec<Request>,
    Option<Result<(), Errcode>>,
))
    ensures
        trace_view(out.0@) == requests(args@, release@, machine@, replies@),
        out.1 == result(args@, release@, machine@, replies@),
        forall|fd: RawFd| closes(trace_view(out.0@), fd) <= 1,
{
    let mut trace: Vec<Request> = Vec::new();
    let mut state = Run::Idle;
    let mut reply: Option<Reply> = None;
    let mut i: usize = 0;
    proof {
        assert(replies@.skip(0) =~= replies@);
        assert(trace_view(trace@) + requests(args@, release@, machine@, replies@) =~= requests(
            args@,
            release@,
            machine@,
            replies@,
        ));
        assert forall|fd: RawFd|
            closes(requests(args@, release@, machine@, replies@), fd) <= 1 by {
            lemma_close_once(args@, release@, machine@, replies@, fd);
        }
    }
    loop
        invariant
            0 <= i <= replies.len(),
            requests(args@, release@, machine@, replies@) == trace_view(trace@) + requests_from(
                args@,
                release@,
                machine@,
                state@,
                reply,
                replies@.skip(i as int),
            ),
            result(args@, release@, machine@, replies@) == result_from(
                args@,
                release@,
                machine@,
                state@,
                reply,
                replies@.skip(i as int),
            ),
            forall|fd: RawFd| closes(requests(args@, release@, machine@, replies@), fd) <= 1,
        decreases replies.len() - i,
    {
        let ghost before = trace_view(trace@);
        let ghost rest = replies@.skip(i as int);
        let (next, step) = start(args, release, machine, state, reply);
        state = next;
        match step {
            Step::Finished(res) => {
                assert(trace_view(trace@) + Seq::<RequestView>::empty() =~= trace_view(trace@));
                return (trace, Some(res));
            },
            Step::Perform(op) => {
                trace.push(op);
                assert(trace_view(trace@) =~= before + seq![op@]);
                if i >= replies.len() {
                    assert(rest.len() == 0);
                    return (trace, None);
                }
                reply = Some(replies[i]);
                i = i + 1;
                proof {
                    assert(rest[0] == replies@[i - 1]);
                    assert(rest.drop_first() =~= replies@.skip(i as int));
                    let tail = requests_from(
                        args@,
                        release@,
                        machine@,
                        state@,
                        reply,
                        replies@.skip(i as int),
                    );
                    assert(before + (seq![op@] + tail) =~= (before + seq![op@]) + tail);
                }
            },
        }
    }
}

/// Runs a child against a kernel that answers from a script: yields the
/// requests that the child makes when its requests are answered with
/// `replies`, in order, and the status that it ends with, or nothing if the
/// replies run out before the child is over.
///
/// Whatever the script, a child that has come to its end has asked for its
/// end of the channel to be closed exactly once, and no child asks for it
/// twice.
pub fn replay_child(config: &ContainerOpts, replies: &Vec<Reply>) -> (out: (
    Vec<Request>,
    Option<isize>,
))
    ensures
        trace_view(out.0@) == child_requests(config@, replies@),
        out.1 == child_status(config@, replies@),
        closes(trace_view(out.0@), config.fd) <= 1,
        out.1 is Some ==> closes(trace_view(out.0@), config.fd) == 1,
{
    let mut trace: Vec<Request> = Vec::new();
    let mut state = Bootstrap::Entered;
    let mut reply: Option<Reply> = None;
    let mut i: usize = 0;
    proof {
        assert(replies@.skip(0) =~= replies@);
        assert(trace_view(trace@) + child_requests(config@, replies@) =~= child_requests(
            config@,
            replies@,
        ));
        lemma_child_closes_at_most_once(config@, Bootstrap::Entered, None, replies@, config.fd);
        if child_status(config@, replies@) is Some {
            lemma_child_always_closes(config@, Bootstrap::Entered, None, replies@);
        }
    }
    loop
        invariant
            0 <= i <= replies.len(),
            child_requests(config@, replies@) == trace_view(trace@) + child_requests_from(
                config@,
                state,
                reply,
                replies@.skip(i as int),
            ),
            child_status(config@, replies@) == child_status_from(
                config@,
                state,
                reply,
                replies@.skip(i as int),
            ),
            closes(child_requests(config@, replies@), config.fd) <= 1,
            child_status(config@, replies@) is Some ==> closes(
                child_requests(config@, replies@),
                config.fd,
            ) == 1,
        decreases replies.len() - i,
    {
        let ghost before = trace_view(trace@);
        let ghost rest = replies@.skip(i as int);
        let (next, step) = child(config, state, reply);
        state = next;
        match step {
            Step::Finished(status) => {
                assert(trace_view(trace@) + Seq::<RequestView>::empty() =~= trace_view(trace@));
                return (trace, Some(status));
            },
            Step::Perform(op) => {
                trace.push(op);
                assert(trace_view(trace@) =~= before + seq![op@]);
                if i >= replies.len() {
                    assert(rest.len() == 0);
                    return (trace, None);
                }
                reply = Some(replies[i]);
                i = i + 1;
                proof {
                    assert(rest[0] == replies@[i - 1]);
                    assert(rest.drop_first() =~= replies@.skip(i as int));
                    let tail = child_requests_from(
                        config@,
                        state,
                        reply,
                        replies@.skip(i as int),
                    );
                    assert(before + (seq![op@] + tail) =~= (before + seq![op@]) + tail);
                }
            },
        }
    }
}

} // verus!
