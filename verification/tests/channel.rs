use crabcan::errors::Errcode;
use crabcan::ipc::{generate_socket_pair, recv_boolean, send_boolean};
use crabcan::kernel::{Namespace, Reply, Step, Request};
use crabcan::namespace::{handle_child_uid_map, user_namespace, ChildHandshake, ParentHandshake};
use nix::sys::socket::{recv, send, socketpair, AddressFamily, MsgFlags, SockFlag, SockType};
use nix::unistd::close;

#[test]
fn a_socket_pair_is_asked_for_and_taken() {
    assert_eq!(generate_socket_pair(None), Step::Perform(Request::SocketPair));
    assert_eq!(
        generate_socket_pair(Some(Reply::Fds(3, 4))),
        Step::Finished(Ok((3, 4)))
    );
    assert_eq!(
        generate_socket_pair(Some(Reply::Fds(4, 3))),
        Step::Finished(Ok((4, 3)))
    );
}

#[test]
fn anything_but_two_ends_is_a_socket_error() {
    for reply in [
        Reply::Failed,
        Reply::Done,
        Reply::Pid(1),
        Reply::Byte(0),
        Reply::Fds(3, 3),
    ] {
        assert_eq!(
            generate_socket_pair(Some(reply)),
            Step::Finished(Err(Errcode::SocketError(0)))
        );
    }
}

#[test]
fn a_boolean_is_one_byte() {
    assert_eq!(
        send_boolean(5, true, None),
        Step::Perform(Request::Send { fd: 5, byte: 1 })
    );
    assert_eq!(
        send_boolean(5, false, None),
        Step::Perform(Request::Send { fd: 5, byte: 0 })
    );
    assert_eq!(send_boolean(5, true, Some(Reply::Done)), Step::Finished(Ok(())));
}

#[test]
fn a_failed_send_is_a_socket_error() {
    for reply in [Reply::Failed, Reply::Byte(1), Reply::Pid(1), Reply::Fds(1, 2)] {
        assert_eq!(
            send_boolean(5, true, Some(reply)),
            Step::Finished(Err(Errcode::SocketError(1)))
        );
    }
}

#[test]
fn only_the_byte_one_is_true() {
    assert_eq!(recv_boolean(6, None), Step::Perform(Request::Recv { fd: 6 }));
    assert_eq!(recv_boolean(6, Some(Reply::Byte(1))), Step::Finished(Ok(true)));
    assert_eq!(recv_boolean(6, Some(Reply::Byte(0))), Step::Finished(Ok(false)));
    assert_eq!(recv_boolean(6, Some(Reply::Byte(2))), Step::Finished(Ok(false)));
    assert_eq!(
        recv_boolean(6, Some(Reply::Byte(255))),
        Step::Finished(Ok(false))
    );
}

#[test]
fn a_failed_receive_is_a_socket_error() {
    for reply in [Reply::Failed, Reply::Done, Reply::Pid(1), Reply::Fds(1, 2)] {
        assert_eq!(
            recv_boolean(6, Some(reply)),
            Step::Finished(Err(Errcode::SocketError(2)))
        );
    }
}

#[test]
fn what_is_sent_is_what_is_received() {
    for boolean in [true, false] {
        let byte = match send_boolean(1, boolean, None) {
            Step::Perform(Request::Send { byte, .. }) => byte,
            other => panic!("{:?}", other),
        };
        assert_eq!(
            recv_boolean(2, Some(Reply::Byte(byte))),
            Step::Finished(Ok(boolean))
        );
    }
}

fn child_run(fd: i32, replies: &[Reply]) -> (Vec<Request>, ChildHandshake, Vec<ChildHandshake>) {
    let mut state = ChildHandshake::Spawned;
    let mut states = vec![state];
    let mut reply = None;
    let mut trace = Vec::new();
    let mut replies = replies.iter();
    loop {
        let (next, step) = user_namespace(fd, 1000, state, reply);
        state = next;
        states.push(state);
        match step {
            Step::Finished(res) => {
                match (res, state) {
                    (Ok(()), ChildHandshake::Proceeding { .. }) => {}
                    (Err(e), ChildHandshake::Aborted(s)) => assert_eq!(e, s),
                    other => panic!("{:?}", other),
                }
                return (trace, state, states);
            }
            Step::Perform(op) => {
                trace.push(op);
                match replies.next() {
                    Some(r) => reply = Some(*r),
                    None => return (trace, state, states),
                }
            }
        }
    }
}

fn parent_run(fd: i32, replies: &[Reply]) -> (Vec<Request>, ParentHandshake, Vec<ParentHandshake>) {
    let mut state = ParentHandshake::ChildSpawned;
    let mut states = vec![state];
    let mut reply = None;
    let mut trace = Vec::new();
    let mut replies = replies.iter();
    loop {
        let (next, step) = handle_child_uid_map(4242, fd, state, reply);
        state = next;
        states.push(state);
        match step {
            Step::Finished(res) => {
                match (res, state) {
                    (Ok(()), ParentHandshake::Done { .. }) => {}
                    (Err(e), ParentHandshake::Failed(s)) => assert_eq!(e, s),
                    other => panic!("{:?}", other),
                }
                return (trace, state, states);
            }
            Step::Perform(op) => {
                trace.push(op);
                match replies.next() {
                    Some(r) => reply = Some(*r),
                    None => return (trace, state, states),
                }
            }
        }
    }
}

#[test]
fn child_sends_false_parent_sends_false_child_proceeds() {
    let (trace, end, states) = child_run(7, &[Reply::Failed, Reply::Done, Reply::Byte(0)]);
    assert_eq!(
        trace,
        vec![
            Request::Unshare { namespace: Namespace::User },
            Request::Send { fd: 7, byte: 0 },
            Request::Recv { fd: 7 },
        ]
    );
    assert_eq!(end, ChildHandshake::Proceeding { has_user_ns: false });
    assert_eq!(
        states,
        vec![
            ChildHandshake::Spawned,
            ChildHandshake::AttemptedUserNS,
            ChildHandshake::SentStatus { has_user_ns: false },
            ChildHandshake::WaitingAck { has_user_ns: false },
            ChildHandshake::Proceeding { has_user_ns: false },
        ]
    );
}

#[test]
fn child_with_a_user_namespace_sends_true_and_proceeds() {
    let (trace, end, _) = child_run(7, &[Reply::Done, Reply::Done, Reply::Byte(0)]);
    assert_eq!(
        trace,
        vec![
            Request::Unshare { namespace: Namespace::User },
            Request::Send { fd: 7, byte: 1 },
            Request::Recv { fd: 7 },
        ]
    );
    assert_eq!(end, ChildHandshake::Proceeding { has_user_ns: true });
}

#[test]
fn parent_sends_true_child_aborts_with_a_namespace_error() {
    for unshared in [Reply::Done, Reply::Failed] {
        let (trace, end, _) = child_run(7, &[unshared, Reply::Done, Reply::Byte(1)]);
        assert_eq!(trace.len(), 3);
        assert_eq!(end, ChildHandshake::Aborted(Errcode::NamespaceError(0)));
    }
}

#[test]
fn child_that_cannot_send_aborts_without_waiting() {
    let (trace, end, _) = child_run(7, &[Reply::Done, Reply::Failed, Reply::Byte(0)]);
    assert_eq!(
        trace,
        vec![
            Request::Unshare { namespace: Namespace::User },
            Request::Send { fd: 7, byte: 1 },
        ]
    );
    assert_eq!(end, ChildHandshake::Aborted(Errcode::SocketError(1)));
}

#[test]
fn child_that_cannot_receive_aborts() {
    let (trace, end, _) = child_run(7, &[Reply::Done, Reply::Done, Reply::Failed]);
    assert_eq!(trace.len(), 3);
    assert_eq!(end, ChildHandshake::Aborted(Errcode::SocketError(2)));
}

#[test]
fn a_finished_child_handshake_stays_finished() {
    let done = ChildHandshake::Proceeding { has_user_ns: true };
    assert_eq!(
        user_namespace(7, 0, done, Some(Reply::Byte(1))),
        (done, Step::Finished(Ok(())))
    );
    let aborted = ChildHandshake::Aborted(Errcode::NamespaceError(0));
    assert_eq!(
        user_namespace(7, 0, aborted, Some(Reply::Done)),
        (aborted, Step::Finished(Err(Errcode::NamespaceError(0))))
    );
}

#[test]
fn a_missing_reply_is_a_failure() {
    assert_eq!(
        user_namespace(7, 0, ChildHandshake::AttemptedUserNS, None),
        (
            ChildHandshake::SentStatus { has_user_ns: false },
            Step::Perform(Request::Send { fd: 7, byte: 0 })
        )
    );
    assert_eq!(
        user_namespace(7, 0, ChildHandshake::SentStatus { has_user_ns: true }, None).0,
        ChildHandshake::Aborted(Errcode::SocketError(1))
    );
    assert_eq!(
        user_namespace(7, 0, ChildHandshake::WaitingAck { has_user_ns: true }, None).0,
        ChildHandshake::Aborted(Errcode::SocketError(2))
    );
    assert_eq!(
        handle_child_uid_map(1, 8, ParentHandshake::AwaitingChildStatus, None).0,
        ParentHandshake::Failed(Errcode::SocketError(2))
    );
    assert_eq!(
        handle_child_uid_map(
            1,
            8,
            ParentHandshake::Acknowledging { child_has_user_ns: false },
            None
        )
        .0,
        ParentHandshake::Failed(Errcode::SocketError(1))
    );
}

#[test]
fn parent_receives_the_status_and_answers_false() {
    for (status, has) in [(0u8, false), (1u8, true), (7u8, false)] {
        let (trace, end, states) = parent_run(8, &[Reply::Byte(status), Reply::Done]);
        assert_eq!(
            trace,
            vec![Request::Recv { fd: 8 }, Request::Send { fd: 8, byte: 0 }]
        );
        assert_eq!(end, ParentHandshake::Done { child_has_user_ns: has });
        assert_eq!(
            states,
            vec![
                ParentHandshake::ChildSpawned,
                ParentHandshake::AwaitingChildStatus,
                ParentHandshake::Acknowledging { child_has_user_ns: has },
                ParentHandshake::Done { child_has_user_ns: has },
            ]
        );
    }
}

#[test]
fn parent_that_cannot_receive_fails_without_answering() {
    let (trace, end, _) = parent_run(8, &[Reply::Failed, Reply::Done]);
    assert_eq!(trace, vec![Request::Recv { fd: 8 }]);
    assert_eq!(end, ParentHandshake::Failed(Errcode::SocketError(2)));
}

#[test]
fn parent_that_cannot_send_fails() {
    let (trace, end, _) = parent_run(8, &[Reply::Byte(1), Reply::Failed]);
    assert_eq!(trace.len(), 2);
    assert_eq!(end, ParentHandshake::Failed(Errcode::SocketError(1)));
}

fn perform_on_socket(op: &Request) -> Reply {
    match op {
        Request::Send { fd, byte } => match send(*fd, &[*byte], MsgFlags::empty()) {
            Ok(_) => Reply::Done,
            Err(_) => Reply::Failed,
        },
        Request::Recv { fd } => {
            let mut data: [u8; 1] = [0];
            match recv(*fd, &mut data, MsgFlags::empty()) {
                Ok(_) => Reply::Byte(data[0]),
                Err(_) => Reply::Failed,
            }
        }
        Request::Close { fd } => match close(*fd) {
            Ok(_) => Reply::Done,
            Err(_) => Reply::Failed,
        },
        _ => Reply::Failed,
    }
}

fn handshake_over_sockets(has_user_ns: bool) -> (ChildHandshake, ParentHandshake) {
    let pair = socketpair(
        AddressFamily::Unix,
        SockType::SeqPacket,
        None,
        SockFlag::SOCK_CLOEXEC,
    )
    .unwrap();
    let (parent_fd, child_fd) = match generate_socket_pair(Some(Reply::Fds(pair.0, pair.1))) {
        Step::Finished(Ok(ends)) => ends,
        other => panic!("{:?}", other),
    };

    // The child runs until it waits for the parent's answer.
    let (child, step) = user_namespace(child_fd, 0, ChildHandshake::Spawned, None);
    assert_eq!(step, Step::Perform(Request::Unshare { namespace: Namespace::User }));
    let unshared = if has_user_ns { Reply::Done } else { Reply::Failed };
    let (child, step) = user_namespace(child_fd, 0, child, Some(unshared));
    let sent = match step {
        Step::Perform(op) => perform_on_socket(&op),
        other => panic!("{:?}", other),
    };
    let (child, waiting) = user_namespace(child_fd, 0, child, Some(sent));

    // The parent runs to its end.
    let (parent, step) = handle_child_uid_map(1, parent_fd, ParentHandshake::ChildSpawned, None);
    let status = match step {
        Step::Perform(op) => perform_on_socket(&op),
        other => panic!("{:?}", other),
    };
    let (parent, step) = handle_child_uid_map(1, parent_fd, parent, Some(status));
    let acked = match step {
        Step::Perform(op) => perform_on_socket(&op),
        other => panic!("{:?}", other),
    };
    let (parent, step) = handle_child_uid_map(1, parent_fd, parent, Some(acked));
    assert_eq!(step, Step::Finished(Ok(())));

    // The child takes the answer.
    let answer = match waiting {
        Step::Perform(op) => perform_on_socket(&op),
        other => panic!("{:?}", other),
    };
    let (child, step) = user_namespace(child_fd, 0, child, Some(answer));
    assert_eq!(step, Step::Finished(Ok(())));

    assert_eq!(
        perform_on_socket(&Request::Close { fd: parent_fd }),
        Reply::Done
    );
    assert_eq!(
        perform_on_socket(&Request::Close { fd: child_fd }),
        Reply::Done
    );
    (child, parent)
}

#[test]
fn handshake_over_a_real_socket_pair() {
    assert_eq!(
        handshake_over_sockets(false),
        (
            ChildHandshake::Proceeding { has_user_ns: false },
            ParentHandshake::Done { child_has_user_ns: false }
        )
    );
    assert_eq!(
        handshake_over_sockets(true),
        (
            ChildHandshake::Proceeding { has_user_ns: true },
            ParentHandshake::Done { child_has_user_ns: true }
        )
    );
}
