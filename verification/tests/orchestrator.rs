use crabcan::config::ContainerOpts;
use crabcan::container::{start, wait_child, Args, Cleanup, Container, Creation, Run, NO_FD};
use crabcan::errors::Errcode;
use crabcan::kernel::{Namespace, Reply, Step, Request};
use crabcan::namespace::ParentHandshake;
use crabcan::resources::{ResourcePolicy, ResourceStage};
use crabcan::runs::replay;

fn args(command: &str) -> Args {
    Args {
        command: command.to_string(),
        uid: 1000,
        mount_dir: "/tmp/ctr-root".to_string(),
        hostname: "test-ctr".to_string(),
    }
}

fn config(fd: i32) -> ContainerOpts {
    ContainerOpts {
        path: "/bin/echo".to_string(),
        argv: vec!["/bin/echo".to_string(), "hi".to_string()],
        uid: 1000,
        mount_dir: "/tmp/ctr-root".to_string(),
        fd,
        hostname: "test-ctr".to_string(),
    }
}

fn run_on(
    command: &str,
    release: &str,
    machine: &str,
    replies: &[Reply],
) -> (Vec<Request>, Option<Result<(), Errcode>>) {
    let args = args(command);
    let mut state = Run::Idle;
    let mut reply = None;
    let mut trace = Vec::new();
    let mut replies = replies.iter();
    loop {
        let (next, step) = start(&args, release, machine, state, reply);
        state = next;
        match step {
            Step::Finished(res) => {
                assert_eq!(state, Run::Exited(res));
                let again = start(&args, release, machine, state, Some(Reply::Done));
                assert_eq!(again, (Run::Exited(res), Step::Finished(res)));
                return (trace, Some(res));
            }
            Step::Perform(op) => {
                trace.push(op);
                match replies.next() {
                    Some(r) => reply = Some(*r),
                    None => return (trace, None),
                }
            }
        }
    }
}

fn run(replies: &[Reply]) -> (Vec<Request>, Option<Result<(), Errcode>>) {
    run_on("/bin/echo hi", "5.10.0", "x86_64", replies)
}

fn clone_request() -> Request {
    Request::Clone {
        config: config(4),
        namespaces: vec![
            Namespace::Mount,
            Namespace::Cgroup,
            Namespace::Pid,
            Namespace::Ipc,
            Namespace::Network,
            Namespace::Uts,
        ],
        stack_size: 1024 * 1024,
        notify_parent: true,
    }
}

fn full_trace() -> Vec<Request> {
    vec![
        Request::SocketPair,
        clone_request(),
        Request::CreateCgroup {
            name: "test-ctr".to_string(),
            task: 4242,
            policy: ResourcePolicy::baseline(),
        },
        Request::LimitOpenFiles { soft: 64, hard: 64 },
        Request::Recv { fd: 3 },
        Request::Send { fd: 3, byte: 0 },
        Request::WaitPid { pid: 4242 },
        Request::Close { fd: 3 },
        Request::Close { fd: 4 },
        Request::RemoveCgroup { name: "test-ctr".to_string() },
    ]
}

const GRANTED: [Reply; 10] = [
    Reply::Fds(3, 4),
    Reply::Pid(4242),
    Reply::Done,
    Reply::Done,
    Reply::Byte(0),
    Reply::Done,
    Reply::Done,
    Reply::Done,
    Reply::Done,
    Reply::Done,
];

fn count(trace: &[Request], wanted: &Request) -> usize {
    trace.iter().filter(|op| *op == wanted).count()
}

fn count_kind(trace: &[Request], kind: fn(&Request) -> bool) -> usize {
    trace.iter().filter(|op| kind(op)).count()
}

#[test]
fn a_run_in_which_everything_is_granted() {
    let (trace, result) = run(&GRANTED);
    assert_eq!(trace, full_trace());
    assert_eq!(result, Some(Ok(())));
    assert_eq!(count_kind(&trace, |op| matches!(op, Request::Clone { .. })), 1);
    assert_eq!(count_kind(&trace, |op| matches!(op, Request::CreateCgroup { .. })), 1);
    assert_eq!(count_kind(&trace, |op| matches!(op, Request::LimitOpenFiles { .. })), 1);
    assert_eq!(count_kind(&trace, |op| matches!(op, Request::Recv { .. })), 1);
    assert_eq!(count_kind(&trace, |op| matches!(op, Request::Send { .. })), 1);
    assert_eq!(count_kind(&trace, |op| matches!(op, Request::WaitPid { .. })), 1);
    assert_eq!(count_kind(&trace, |op| matches!(op, Request::Close { .. })), 2);
    assert_eq!(count_kind(&trace, |op| matches!(op, Request::RemoveCgroup { .. })), 1);
    assert_eq!(count(&trace, &Request::Close { fd: 3 }), 1);
    assert_eq!(count(&trace, &Request::Close { fd: 4 }), 1);
}

#[test]
fn the_childs_status_does_not_change_the_run() {
    for status in [0u8, 1, 2, 255] {
        let mut replies = GRANTED;
        replies[4] = Reply::Byte(status);
        let (trace, result) = run(&replies);
        assert_eq!(trace, full_trace());
        assert_eq!(result, Some(Ok(())));
    }
}

#[test]
fn a_run_waits_for_each_reply() {
    for n in 0..GRANTED.len() {
        let (trace, result) = run(&GRANTED[..n]);
        assert_eq!(trace, full_trace()[..n + 1].to_vec());
        assert_eq!(result, None);
    }
}

#[test]
fn an_unsupported_host_fails_before_anything_is_asked() {
    assert_eq!(
        run_on("/bin/echo hi", "4.7.2-generic", "aarch64", &GRANTED),
        (Vec::new(), Some(Err(Errcode::NotSupported(0))))
    );
    assert_eq!(
        run_on("/bin/echo hi", "5.10.0", "aarch64", &GRANTED),
        (Vec::new(), Some(Err(Errcode::NotSupported(1))))
    );
    assert_eq!(
        run_on("/bin/echo hi", "unknown", "x86_64", &GRANTED),
        (Vec::new(), Some(Err(Errcode::ContainerError(0))))
    );
}

#[test]
fn a_blank_command_fails_before_anything_is_asked() {
    for command in ["", "  ", "\t\n"] {
        assert_eq!(
            run_on(command, "5.10.0", "x86_64", &GRANTED),
            (
                Vec::new(),
                Some(Err(Errcode::ArgumentInvalid("command")))
            )
        );
    }
    assert_eq!(
        run_on("", "4.7.2-generic", "x86_64", &GRANTED),
        (Vec::new(), Some(Err(Errcode::NotSupported(0))))
    );
}

#[test]
fn a_failed_channel_means_no_child_and_nothing_to_release() {
    for first in [Reply::Failed, Reply::Done, Reply::Fds(3, 3), Reply::Pid(1)] {
        let mut replies = GRANTED;
        replies[0] = first;
        let (trace, result) = run(&replies);
        assert_eq!(trace, vec![Request::SocketPair]);
        assert_eq!(result, Some(Err(Errcode::SocketError(0))));
    }
}

#[test]
fn a_failed_spawn_is_cleaned_up() {
    let mut replies = GRANTED;
    replies[1] = Reply::Failed;
    let (trace, result) = run(&replies);
    assert_eq!(
        trace,
        vec![
            Request::SocketPair,
            clone_request(),
            Request::Close { fd: 3 },
            Request::Close { fd: 4 },
        ]
    );
    assert_eq!(result, Some(Err(Errcode::ChildProcessError(0))));
}

#[test]
fn a_failed_restriction_is_cleaned_up() {
    for (at, asked) in [(2, 3), (3, 4)] {
        let mut replies = GRANTED[..at].to_vec();
        replies.push(Reply::Failed);
        replies.extend_from_slice(&[Reply::Done; 3]);
        let (trace, result) = run(&replies);
        let mut expected = full_trace()[..asked].to_vec();
        expected.push(Request::Close { fd: 3 });
        expected.push(Request::Close { fd: 4 });
        expected.push(Request::RemoveCgroup { name: "test-ctr".to_string() });
        assert_eq!(trace, expected);
        assert_eq!(result, Some(Err(Errcode::ResourcesError(0))));
    }
}

#[test]
fn a_failed_handshake_is_cleaned_up() {
    for (at, asked, error) in [
        (4, 5, Errcode::SocketError(2)),
        (5, 6, Errcode::SocketError(1)),
    ] {
        let mut replies = GRANTED[..at].to_vec();
        replies.push(Reply::Failed);
        replies.extend_from_slice(&[Reply::Done; 3]);
        let (trace, result) = run(&replies);
        let mut expected = full_trace()[..asked].to_vec();
        expected.push(Request::Close { fd: 3 });
        expected.push(Request::Close { fd: 4 });
        expected.push(Request::RemoveCgroup { name: "test-ctr".to_string() });
        assert_eq!(trace, expected);
        assert_eq!(result, Some(Err(error)));
        assert!(!trace.iter().any(|op| matches!(op, Request::WaitPid { .. })));
    }
}

#[test]
fn a_failed_wait_is_still_cleaned_up() {
    let mut replies = GRANTED;
    replies[6] = Reply::Failed;
    let (trace, result) = run(&replies);
    assert_eq!(trace, full_trace());
    assert_eq!(result, Some(Err(Errcode::ContainerError(1))));
}

#[test]
fn a_failed_release_is_the_error_of_a_run_that_went_well_so_far() {
    let cases = [
        (7, 8, Errcode::SocketError(3)),
        (8, 9, Errcode::SocketError(4)),
        (9, 10, Errcode::ResourcesError(2)),
    ];
    for (at, asked, error) in cases {
        let mut replies = GRANTED;
        replies[at] = Reply::Failed;
        let (trace, result) = run(&replies);
        assert_eq!(trace, full_trace()[..asked].to_vec());
        assert_eq!(result, Some(Err(error)));
    }
}

#[test]
fn a_failed_spawn_is_the_error_even_if_the_release_fails() {
    let (trace, result) = run_on(
        "a",
        "5.10.0",
        "x86_64",
        &[Reply::Fds(3, 4), Reply::Failed, Reply::Failed],
    );
    assert_eq!(trace.len(), 3);
    assert_eq!(trace[2], Request::Close { fd: 3 });
    assert_eq!(result, Some(Err(Errcode::ChildProcessError(0))));

    let (trace, result) = run(&[Reply::Fds(3, 4), Reply::Failed, Reply::Done, Reply::Failed]);
    assert_eq!(trace.len(), 4);
    assert_eq!(trace[3], Request::Close { fd: 4 });
    assert_eq!(result, Some(Err(Errcode::ChildProcessError(0))));
}

#[test]
fn a_failed_creation_is_the_error_wherever_the_release_fails() {
    let failures = [
        (2, Errcode::ResourcesError(0)),
        (3, Errcode::ResourcesError(0)),
        (4, Errcode::SocketError(2)),
        (5, Errcode::SocketError(1)),
    ];
    for (at, error) in failures {
        for refused in 0..3 {
            let mut replies = GRANTED[..at].to_vec();
            replies.push(Reply::Failed);
            for release in 0..3 {
                replies.push(if release == refused { Reply::Failed } else { Reply::Done });
                if release == refused {
                    break;
                }
            }
            let (trace, result) = run(&replies);
            assert_eq!(trace.len(), at + 1 + refused + 1, "{:?}", replies);
            assert_eq!(result, Some(Err(error)), "{:?}", replies);
        }
    }
}

#[test]
fn a_failed_wait_is_the_error_even_if_the_release_fails() {
    for refused in 7..10 {
        let mut replies = GRANTED;
        replies[6] = Reply::Failed;
        replies[refused] = Reply::Failed;
        let (trace, result) = run(&replies);
        assert_eq!(trace, full_trace()[..refused + 1].to_vec());
        assert_eq!(result, Some(Err(Errcode::ContainerError(1))));
    }
}

#[test]
fn no_descriptor_is_closed_twice_whatever_the_kernel_answers() {
    let choices = [
        Reply::Done,
        Reply::Failed,
        Reply::Byte(0),
        Reply::Byte(1),
        Reply::Pid(4242),
        Reply::Fds(3, 4),
    ];
    let mut script = [0usize; 5];
    let mut runs = 0;
    loop {
        let mut replies = vec![Reply::Fds(3, 4)];
        replies.extend(script.iter().map(|i| choices[*i]));
        replies.extend_from_slice(&[Reply::Done; 8]);
        let (trace, result) = run(&replies);
        assert!(result.is_some());
        assert!(count(&trace, &Request::Close { fd: 3 }) <= 1, "{:?}", replies);
        assert!(count(&trace, &Request::Close { fd: 4 }) <= 1, "{:?}", replies);
        assert!(count_kind(&trace, |op| matches!(op, Request::Close { .. })) <= 2);
        assert_eq!(count(&trace, &Request::Close { fd: 3 }), 1, "{:?}", replies);
        if trace.last() != Some(&Request::Close { fd: 3 }) {
            assert_eq!(count(&trace, &Request::Close { fd: 4 }), 1, "{:?}", replies);
        }
        assert!(count_kind(&trace, |op| matches!(op, Request::Clone { .. })) <= 1);
        assert!(count_kind(&trace, |op| matches!(op, Request::RemoveCgroup { .. })) <= 1);
        runs += 1;
        let mut k = 0;
        while k < script.len() {
            script[k] += 1;
            if script[k] < choices.len() {
                break;
            }
            script[k] = 0;
            k += 1;
        }
        if k == script.len() {
            break;
        }
    }
    assert_eq!(runs, 6 * 6 * 6 * 6 * 6);
}

fn container() -> Container {
    match Container::new(&args("/bin/echo hi"), Some(Reply::Fds(3, 4))) {
        Step::Finished(Ok(container)) => container,
        other => panic!("{:?}", other),
    }
}

#[test]
fn a_new_container_holds_its_channel_and_nothing_else() {
    assert_eq!(
        Container::new(&args("/bin/echo hi"), None),
        Step::Perform(Request::SocketPair)
    );
    assert_eq!(
        container(),
        Container {
            config: config(4),
            sockets: (3, 4),
            child_pid: None,
            creation: Creation::Configured,
            cleanup: Cleanup::Holding,
            parent_open: true,
            child_open: true,
            cgroup_held: false,
        }
    );
    assert_eq!(
        Container::new(&args("/bin/echo hi"), Some(Reply::Failed)),
        Step::Finished(Err(Errcode::SocketError(0)))
    );
    assert_eq!(
        Container::new(&args(" "), None),
        Step::Finished(Err(Errcode::ArgumentInvalid("command")))
    );
}

#[test]
fn creation_goes_through_its_stages() {
    let mut c = container();
    assert_eq!(c.create(None), Step::Perform(clone_request()));
    assert_eq!(c.creation, Creation::Spawning);
    assert_eq!(c.child_pid, None);
    assert!(matches!(
        c.create(Some(Reply::Pid(4242))),
        Step::Perform(Request::CreateCgroup { .. })
    ));
    assert_eq!(
        c.creation,
        Creation::Restricting { pid: 4242, stage: ResourceStage::CgroupRequested }
    );
    assert_eq!(c.child_pid, Some(4242));
    assert!(c.cgroup_held);
    assert_eq!(
        c.create(Some(Reply::Done)),
        Step::Perform(Request::LimitOpenFiles { soft: 64, hard: 64 })
    );
    assert_eq!(c.create(Some(Reply::Done)), Step::Perform(Request::Recv { fd: 3 }));
    assert_eq!(
        c.creation,
        Creation::Handshaking { pid: 4242, handshake: ParentHandshake::AwaitingChildStatus }
    );
    assert_eq!(
        c.create(Some(Reply::Byte(1))),
        Step::Perform(Request::Send { fd: 3, byte: 0 })
    );
    assert_eq!(c.create(Some(Reply::Done)), Step::Finished(Ok(())));
    assert_eq!(c.creation, Creation::Created);
    assert_eq!(c.create(Some(Reply::Failed)), Step::Finished(Ok(())));
    assert_eq!(c.create(None), Step::Finished(Ok(())));
    assert!(c.parent_open && c.child_open);
    assert_eq!(c.cleanup, Cleanup::Holding);
}

#[test]
fn a_failed_creation_keeps_failing_and_undoes_nothing() {
    let mut c = container();
    c.create(None);
    c.create(Some(Reply::Pid(4242)));
    assert_eq!(
        c.create(Some(Reply::Failed)),
        Step::Finished(Err(Errcode::ResourcesError(0)))
    );
    assert_eq!(c.creation, Creation::Failed(Errcode::ResourcesError(0)));
    assert_eq!(
        c.create(Some(Reply::Done)),
        Step::Finished(Err(Errcode::ResourcesError(0)))
    );
    assert_eq!(c.child_pid, Some(4242));
    assert!(c.parent_open && c.child_open && c.cgroup_held);
}

#[test]
fn release_closes_parent_then_child_then_removes_the_cgroup() {
    let mut c = container();
    c.create(None);
    c.create(Some(Reply::Pid(4242)));
    assert_eq!(c.clean_exit(None), Step::Perform(Request::Close { fd: 3 }));
    assert_eq!(c.cleanup, Cleanup::ClosingParent);
    assert_eq!(
        c.clean_exit(Some(Reply::Done)),
        Step::Perform(Request::Close { fd: 4 })
    );
    assert_eq!(c.cleanup, Cleanup::ClosingChild);
    assert_eq!(
        c.clean_exit(Some(Reply::Done)),
        Step::Perform(Request::RemoveCgroup { name: "test-ctr".to_string() })
    );
    assert_eq!(c.cleanup, Cleanup::RemovingCgroup);
    assert_eq!(c.clean_exit(Some(Reply::Done)), Step::Finished(Ok(())));
    assert_eq!(c.cleanup, Cleanup::Released);
    assert!(!c.parent_open && !c.child_open && !c.cgroup_held);
}

#[test]
fn releasing_twice_asks_for_nothing_more() {
    let mut c = container();
    assert_eq!(c.clean_exit(None), Step::Perform(Request::Close { fd: 3 }));
    assert_eq!(
        c.clean_exit(Some(Reply::Done)),
        Step::Perform(Request::Close { fd: 4 })
    );
    assert_eq!(c.clean_exit(Some(Reply::Done)), Step::Finished(Ok(())));
    for reply in [None, Some(Reply::Done), Some(Reply::Failed)] {
        assert_eq!(c.clean_exit(reply), Step::Finished(Ok(())));
        assert_eq!(c.cleanup, Cleanup::Released);
    }
}

#[test]
fn a_release_cut_short_is_taken_up_without_closing_again() {
    let mut c = container();
    c.create(None);
    c.create(Some(Reply::Pid(4242)));
    assert_eq!(c.clean_exit(None), Step::Perform(Request::Close { fd: 3 }));
    assert_eq!(
        c.clean_exit(Some(Reply::Failed)),
        Step::Finished(Err(Errcode::SocketError(3)))
    );
    assert!(!c.parent_open && c.child_open && c.cgroup_held);
    assert_eq!(c.clean_exit(None), Step::Perform(Request::Close { fd: 4 }));
    assert_eq!(
        c.clean_exit(Some(Reply::Failed)),
        Step::Finished(Err(Errcode::SocketError(4)))
    );
    assert_eq!(
        c.clean_exit(None),
        Step::Perform(Request::RemoveCgroup { name: "test-ctr".to_string() })
    );
    assert_eq!(
        c.clean_exit(None),
        Step::Finished(Err(Errcode::ResourcesError(2)))
    );
    assert_eq!(c.clean_exit(None), Step::Finished(Ok(())));
}

#[test]
fn waiting_is_skipped_without_a_child() {
    assert_eq!(wait_child(None, None), Step::Finished(Ok(())));
    assert_eq!(wait_child(None, Some(Reply::Failed)), Step::Finished(Ok(())));
    assert_eq!(
        wait_child(Some(4242), None),
        Step::Perform(Request::WaitPid { pid: 4242 })
    );
    assert_eq!(wait_child(Some(4242), Some(Reply::Done)), Step::Finished(Ok(())));
    assert_eq!(
        wait_child(Some(4242), Some(Reply::Failed)),
        Step::Finished(Err(Errcode::ContainerError(1)))
    );
}

#[test]
fn replaying_a_script_is_stepping_through_it() {
    let choices = [
        Reply::Done,
        Reply::Failed,
        Reply::Byte(0),
        Reply::Pid(4242),
        Reply::Fds(3, 4),
    ];
    for length in 0..5usize {
        let mut script = vec![0usize; length];
        loop {
            let mut replies: Vec<Reply> = script.iter().map(|i| choices[*i]).collect();
            assert_eq!(
                replay(&args("/bin/echo hi"), "5.10.0", "x86_64", &replies),
                run(&replies),
                "{:?}",
                replies
            );
            replies.insert(0, Reply::Fds(3, 4));
            replies.insert(1, Reply::Pid(4242));
            replies.extend_from_slice(&[Reply::Done; 4]);
            assert_eq!(
                replay(&args("/bin/echo hi"), "5.10.0", "x86_64", &replies),
                run(&replies),
                "{:?}",
                replies
            );
            let mut k = 0;
            while k < script.len() {
                script[k] += 1;
                if script[k] < choices.len() {
                    break;
                }
                script[k] = 0;
                k += 1;
            }
            if k == script.len() {
                break;
            }
        }
    }
}

#[test]
fn replaying_the_granted_script() {
    assert_eq!(
        replay(&args("/bin/echo hi"), "5.10.0", "x86_64", &GRANTED.to_vec()),
        (full_trace(), Some(Ok(())))
    );
    assert_eq!(
        replay(&args("/bin/echo hi"), "5.10.0", "x86_64", &Vec::new()),
        (vec![Request::SocketPair], None)
    );
    assert_eq!(
        replay(&args("/bin/echo hi"), "4.7.2-generic", "aarch64", &GRANTED.to_vec()),
        (Vec::new(), Some(Err(Errcode::NotSupported(0))))
    );
    assert_eq!(
        replay(&args(""), "5.10.0", "x86_64", &GRANTED.to_vec()),
        (Vec::new(), Some(Err(Errcode::ArgumentInvalid("command"))))
    );
}

#[test]
fn a_container_without_a_channel_holds_nothing() {
    assert_eq!(NO_FD, -1);
    assert_eq!(
        Container::unopened(&args("/bin/echo hi")),
        Ok(Container {
            config: config(-1),
            sockets: (-1, -1),
            child_pid: None,
            creation: Creation::Failed(Errcode::SocketError(0)),
            cleanup: Cleanup::Holding,
            parent_open: false,
            child_open: false,
            cgroup_held: false,
        })
    );
    for blank in ["", " \t"] {
        assert_eq!(
            Container::unopened(&args(blank)),
            Err(Errcode::ArgumentInvalid("command"))
        );
    }
}

#[test]
fn without_a_channel_no_child_is_asked_for_and_the_release_asks_nothing() {
    for reply in [None, Some(Reply::Done), Some(Reply::Pid(4242)), Some(Reply::Failed)] {
        let mut c = Container::unopened(&args("/bin/echo hi")).unwrap();
        assert_eq!(c.create(reply), Step::Finished(Err(Errcode::SocketError(0))));
        assert_eq!(c.create(reply), Step::Finished(Err(Errcode::SocketError(0))));
        assert_eq!(c.child_pid, None);
        assert_eq!(c.clean_exit(reply), Step::Finished(Ok(())));
        assert_eq!(c.cleanup, Cleanup::Released);
        assert_eq!(c.clean_exit(reply), Step::Finished(Ok(())));
        assert_eq!(c.create(reply), Step::Finished(Err(Errcode::SocketError(0))));
    }
}

#[test]
fn a_failed_channel_ends_the_run_in_one_step() {
    let args = args("/bin/echo hi");
    let (state, step) = start(&args, "5.10.0", "x86_64", Run::Idle, None);
    assert_eq!(state, Run::Opening);
    assert_eq!(step, Step::Perform(Request::SocketPair));
    for reply in [None, Some(Reply::Failed), Some(Reply::Fds(7, 7))] {
        assert_eq!(
            start(&args, "5.10.0", "x86_64", Run::Opening, reply),
            (
                Run::Exited(Err(Errcode::SocketError(0))),
                Step::Finished(Err(Errcode::SocketError(0)))
            )
        );
    }
}
