//! The handshake by which the child tells the parent whether it has a user
//! namespace of its own, and the parent releases the child.

use crate::errors::Errcode;
use crate::ipc::{decode_boolean, encode_boolean, recv_boolean, send_boolean};
use crate::kernel::{
    answer, Namespace, Pid, RawFd, Reply, Request, RequestView, Step, StepView,
};
use vstd::prelude::*;

verus! {

/// Where the child stands in the handshake.
#[derive(Debug, Clone, Copy, PartialEq, Eq)]
pub enum ChildHandshake {
    /// Nothing has been asked yet.
    Spawned,
    /// A user namespace has been asked for.
    AttemptedUserNS,
    /// The outcome of that attempt has been sent to the parent.
    SentStatus { has_user_ns: bool },
    /// The parent's answer is being waited for.
    WaitingAck { has_user_ns: bool },
    /// The parent has released the child.
    Proceeding { has_user_ns: bool },
    /// The handshake failed.
    Aborted(Errcode),
}

/// Where the parent stands in the handshake.
#[derive(Debug, Clone, Copy, PartialEq, Eq)]
pub enum ParentHandshake {
    /// Nothing has been asked yet.
    ChildSpawned,
    /// The child's status is being waited for.
    AwaitingChildStatus,
    /// The release has been sent to the child.
    Acknowledging { child_has_user_ns: bool },
    /// The child has been released.
    Done { child_has_user_ns: bool },
    /// The handshake failed.
    Failed(Errcode),
}

/// The child's half of the handshake: the state after `reply`, and what
/// comes next.
pub open spec fn user_namespace_step(fd: RawFd, state: ChildHandshake, reply: Option<Reply>) -> (
    ChildHandshake,
    StepView<Result<(), Errcode>>,
) {
    match state {
        ChildHandshake::Spawned => (
            ChildHandshake::AttemptedUserNS,
            StepView::Perform(RequestView::Unshare { namespace: Namespace::User }),
        ),
        ChildHandshake::AttemptedUserNS => {
            let has_user_ns = reply == Some(Reply::Done);
            (
                ChildHandshake::SentStatus { has_user_ns },
                StepView::Perform(RequestView::Send { fd, byte: encode_boolean(has_user_ns) }),
            )
        },
        ChildHandshake::SentStatus { has_user_ns } => if reply == Some(Reply::Done) {
            (ChildHandshake::WaitingAck { has_user_ns }, StepView::Perform(RequestView::Recv { fd }))
        } else {
            (
                ChildHandshake::Aborted(Errcode::SocketError(1)),
                StepView::Finished(Err(Errcode::SocketError(1))),
            )
        },
        ChildHandshake::WaitingAck { has_user_ns } => match reply {
            Some(Reply::Byte(byte)) => if decode_boolean(byte) {
                (
                    ChildHandshake::Aborted(Errcode::NamespaceError(0)),
                    StepView::Finished(Err(Errcode::NamespaceError(0))),
                )
            } else {
                (ChildHandshake::Proceeding { has_user_ns }, StepView::Finished(Ok(())))
            },
            _ => (
                ChildHandshake::Aborted(Errcode::SocketError(2)),
                StepView::Finished(Err(Errcode::SocketError(2))),
            ),
        },
        ChildHandshake::Proceeding { has_user_ns } => (state, StepView::Finished(Ok(()))),
        ChildHandshake::Aborted(e) => (state, StepView::Finished(Err(e))),
    }
}

/// The child's half of the handshake over `fd`, one step at a time.
///
/// The child asks for a user namespace of its own, which may be refused
/// without harm; sends the parent whether it got one; and waits for the
/// parent's answer. An answer of false releases the child. An answer of
/// true is the parent's signal of an error, and the child aborts with a
/// namespace error. A failure to send or to receive aborts with a socket
/// error. In `Spawned` no request is pending and `reply` is not looked at;
/// in every later state a missing reply counts as the failure of the
/// pending request.
pub fn user_namespace(fd: RawFd, uid: u32, state: ChildHandshake, reply: Option<Reply>) -> (out: (
    ChildHandshake,
    Step<Result<(), Errcode>>,
))
    ensures
        (out.0, out.1@) == user_namespace_step(fd, state, reply),
{
    match state {
        ChildHandshake::Spawned => (
            ChildHandshake::AttemptedUserNS,
            Step::Perform(Request::Unshare { namespace: Namespace::User }),
        ),
        ChildHandshake::AttemptedUserNS => {
            let has_user_ns = match reply {
                Some(Reply::Done) => true,
                _ => false,
            };
            (ChildHandshake::SentStatus { has_user_ns }, send_boolean(fd, has_user_ns, None))
        },
        ChildHandshake::SentStatus { has_user_ns } => {
            match send_boolean(fd, has_user_ns, Some(answer(reply))).result() {
                Ok(_) => (
                    ChildHandshake::WaitingAck { has_user_ns },
                    Step::Perform(recv_boolean(fd, None).request()),
                ),
                Err(e) => (ChildHandshake::Aborted(e), Step::Finished(Err(e))),
            }
        },
        ChildHandshake::WaitingAck { has_user_ns } => {
            match recv_boolean(fd, Some(answer(reply))).result() {
                Ok(true) => (
                    ChildHandshake::Aborted(Errcode::NamespaceError(0)),
                    Step::Finished(Err(Errcode::NamespaceError(0))),
                ),
                Ok(false) => (ChildHandshake::Proceeding { has_user_ns }, Step::Finished(Ok(()))),
                Err(e) => (ChildHandshake::Aborted(e), Step::Finished(Err(e))),
            }
        },
        ChildHandshake::Proceeding { has_user_ns } => (state, Step::Finished(Ok(()))),
        ChildHandshake::Aborted(e) => (state, Step::Finished(Err(e))),
    }
}

/// The parent's half of the handshake: the state after `reply`, and what
/// comes next.
pub open spec fn handle_child_uid_map_step(
    fd: RawFd,
    state: ParentHandshake,
    reply: Option<Reply>,
) -> (ParentHandshake, StepView<Result<(), Errcode>>) {
    match state {
        ParentHandshake::ChildSpawned => (
            ParentHandshake::AwaitingChildStatus,
            StepView::Perform(RequestView::Recv { fd }),
        ),
        ParentHandshake::AwaitingChildStatus => match reply {
            Some(Reply::Byte(byte)) => (
                ParentHandshake::Acknowledging { child_has_user_ns: decode_boolean(byte) },
                StepView::Perform(RequestView::Send { fd, byte: encode_boolean(false) }),
            ),
            _ => (
                ParentHandshake::Failed(Errcode::SocketError(2)),
                StepView::Finished(Err(Errcode::SocketError(2))),
            ),
        },
        ParentHandshake::Acknowledging { child_has_user_ns } => if reply == Some(Reply::Done) {
            (ParentHandshake::Done { child_has_user_ns }, StepView::Finished(Ok(())))
        } else {
            (
                ParentHandshake::Failed(Errcode::SocketError(1)),
                StepView::Finished(Err(Errcode::SocketError(1))),
            )
        },
        ParentHandshake::Done { child_has_user_ns } => (state, StepView::Finished(Ok(()))),
        ParentHandshake::Failed(e) => (state, StepView::Finished(Err(e))),
    }
}

/// The parent's half of the handshake over `fd`, one step at a time.
///
/// The parent waits for the child's status, which it only takes note of,
/// and then sends false, which releases the child. A failure to receive or
/// to send ends the handshake with a socket error. In `ChildSpawned` no
/// request is pending and `reply` is not looked at; in every later state a
/// missing reply counts as the failure of the pending request.
pub fn handle_child_uid_map(
    pid: Pid,
    fd: RawFd,
    state: ParentHandshake,
    reply: Option<Reply>,
) -> (out: (ParentHandshake, Step<Result<(), Errcode>>))
    ensures
        (out.0, out.1@) == handle_child_uid_map_step(fd, state, reply),
{
    match state {
        ParentHandshake::ChildSpawned => (
            ParentHandshake::AwaitingChildStatus,
            Step::Perform(recv_boolean(fd, None).request()),
        ),
        ParentHandshake::AwaitingChildStatus => {
            match recv_boolean(fd, Some(answer(reply))).result() {
                Ok(child_has_user_ns) => (
                    ParentHandshake::Acknowledging { child_has_user_ns },
                    send_boolean(fd, false, None),
                ),
                Err(e) => (ParentHandshake::Failed(e), Step::Finished(Err(e))),
            }
        },
        ParentHandshake::Acknowledging { child_has_user_ns } => {
            match send_boolean(fd, false, Some(answer(reply))).result() {
                Ok(_) => (ParentHandshake::Done { child_has_user_ns }, Step::Finished(Ok(()))),
                Err(e) => (ParentHandshake::Failed(e), Step::Finished(Err(e))),
            }
        },
        ParentHandshake::Done { child_has_user_ns } => (state, Step::Finished(Ok(()))),
        ParentHandshake::Failed(e) => (state, Step::Finished(Err(e))),
    }
}

/// The child goes by the parent's answer alone: whatever it sent before, an
/// answer of false lets it proceed, and an answer of true makes it abort
/// with a namespace error.
pub proof fn lemma_child_obeys_answer(fd: RawFd, has_user_ns: bool, answer: bool)
    ensures
        user_namespace_step(
            fd,
            ChildHandshake::WaitingAck { has_user_ns },
            Some(Reply::Byte(encode_boolean(answer))),
        ) == if answer {
            (
                ChildHandshake::Aborted(Errcode::NamespaceError(0)),
                StepView::Finished(Err::<(), Errcode>(Errcode::NamespaceError(0))),
            )
        } else {
            (ChildHandshake::Proceeding { has_user_ns }, StepView::Finished(Ok::<(), Errcode>(())))
        },
{
}

/// Over a channel that delivers what it is given, the handshake is two
/// messages and always releases the child: the child sends its status,
/// the parent answers false, the child proceeds and the parent is done,
/// whether or not the child got a user namespace.
pub proof fn lemma_handshake_releases_child(
    child_fd: RawFd,
    parent_fd: RawFd,
    unshared: Option<Reply>,
)
    ensures
        ({
            let has_user_ns = unshared == Some(Reply::Done);
            let child_1 = user_namespace_step(child_fd, ChildHandshake::Spawned, None);
            let child_2 = user_namespace_step(child_fd, child_1.0, unshared);
            let parent_1 = handle_child_uid_map_step(parent_fd, ParentHandshake::ChildSpawned, None);
            let status = encode_boolean(has_user_ns);
            let parent_2 = handle_child_uid_map_step(
                parent_fd,
                parent_1.0,
                Some(Reply::Byte(status)),
            );
            let child_3 = user_namespace_step(child_fd, child_2.0, Some(Reply::Done));
            let ack = encode_boolean(false);
            let child_4 = user_namespace_step(child_fd, child_3.0, Some(Reply::Byte(ack)));
            let parent_3 = handle_child_uid_map_step(parent_fd, parent_2.0, Some(Reply::Done));
            &&& child_1.1 == StepView::<Result<(), Errcode>>::Perform(
                RequestView::Unshare { namespace: Namespace::User },
            )
            &&& child_2.1 == StepView::<Result<(), Errcode>>::Perform(
                RequestView::Send { fd: child_fd, byte: status },
            )
            &&& parent_1.1 == StepView::<Result<(), Errcode>>::Perform(
                RequestView::Recv { fd: parent_fd },
            )
            &&& parent_2.1 == StepView::<Result<(), Errcode>>::Perform(
                RequestView::Send { fd: parent_fd, byte: ack },
            )
            &&& child_3.1 == StepView::<Result<(), Errcode>>::Perform(
                RequestView::Recv { fd: child_fd },
            )
            &&& child_4 == (
                ChildHandshake::Proceeding { has_user_ns },
                StepView::Finished(Ok::<(), Errcode>(())),
            )
            &&& parent_3 == (
                ParentHandshake::Done { child_has_user_ns: has_user_ns },
                StepView::Finished(Ok::<(), Errcode>(())),
            )
        }),
{
}

} // verus!
