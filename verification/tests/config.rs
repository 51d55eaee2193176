use crabcan::config::{duplicate_strings, is_separator_char, split_command, ContainerOpts};
use crabcan::errors::Errcode;
use crabcan::kernel::{Reply, Step, Request};

fn words_of(command: &str) -> Vec<String> {
    command
        .split_ascii_whitespace()
        .map(|w| w.to_string())
        .collect()
}

fn build(command: &str, reply: Option<Reply>) -> Step<Result<(ContainerOpts, (i32, i32)), Errcode>> {
    ContainerOpts::new(
        command.to_string(),
        1000,
        "/tmp/ctr-root".to_string(),
        "test-ctr".to_string(),
        reply,
    )
}

#[test]
fn separators_are_the_ascii_whitespace() {
    for c in ['\u{20}', '\t', '\n', '\u{0C}', '\r'] {
        assert!(is_separator_char(c));
    }
    for c in ['a', '0', '/', '\u{0B}', '\u{A0}', '\u{2003}', '\0'] {
        assert!(!is_separator_char(c));
    }
    for code in 0..=0x7fu8 {
        let c = code as char;
        assert_eq!(is_separator_char(c), c.is_ascii_whitespace());
    }
}

#[test]
fn splits_a_simple_command() {
    assert_eq!(split_command("/bin/echo hi"), vec!["/bin/echo", "hi"]);
    assert_eq!(split_command("/bin/ls"), vec!["/bin/ls"]);
}

#[test]
fn splits_on_runs_of_any_whitespace() {
    assert_eq!(
        split_command("  /bin/sh\t-c \n\r ls\u{0C}-l  "),
        vec!["/bin/sh", "-c", "ls", "-l"]
    );
}

#[test]
fn blank_commands_have_no_words() {
    assert!(split_command("").is_empty());
    assert!(split_command(" ").is_empty());
    assert!(split_command(" \t\r\n\u{0C} ").is_empty());
}

#[test]
fn keeps_characters_that_are_not_ascii() {
    assert_eq!(
        split_command("/bin/écho\u{A0}né ünï\u{2003}cödé"),
        vec!["/bin/écho\u{A0}né", "ünï\u{2003}cödé"]
    );
}

#[test]
fn splits_as_the_standard_library_does() {
    let samples = [
        "",
        "a",
        " a",
        "a ",
        "a b",
        "a  b",
        "\ta\nb\rc\u{0C}d",
        "/bin/echo hi",
        "   ",
        "x\u{0B}y z",
        "çà et là",
        "a\0b c",
    ];
    for s in samples {
        assert_eq!(split_command(s), words_of(s), "{:?}", s);
    }
}

#[test]
fn the_program_is_the_first_token() {
    let samples = ["/bin/echo hi", "  /bin/echo hi", "\t\n/bin/echo\thi there ", "/bin/ls"];
    for s in samples {
        match build(s, Some(Reply::Fds(3, 4))) {
            Step::Finished(Ok((opts, sockets))) => {
                let first = s.split_ascii_whitespace().next().unwrap();
                assert_eq!(opts.path, first);
                assert_eq!(opts.argv[0], first);
                assert_eq!(opts.argv, words_of(s));
                assert_eq!(sockets, (3, 4));
            }
            other => panic!("{:?}", other),
        }
    }
}

#[test]
fn a_blank_command_is_an_argument_error() {
    for s in ["", " ", "\t \n"] {
        assert_eq!(
            build(s, None),
            Step::Finished(Err(Errcode::ArgumentInvalid("command")))
        );
        assert_eq!(
            build(s, Some(Reply::Fds(3, 4))),
            Step::Finished(Err(Errcode::ArgumentInvalid("command")))
        );
        assert_eq!(
            build(s, Some(Reply::Failed)),
            Step::Finished(Err(Errcode::ArgumentInvalid("command")))
        );
    }
}

#[test]
fn a_command_asks_for_the_channel_first() {
    assert_eq!(build("/bin/echo hi", None), Step::Perform(Request::SocketPair));
}

#[test]
fn a_channel_that_cannot_be_created_is_a_socket_error() {
    for reply in [
        Reply::Failed,
        Reply::Done,
        Reply::Pid(7),
        Reply::Byte(1),
        Reply::Fds(5, 5),
    ] {
        assert_eq!(
            build("/bin/echo hi", Some(reply)),
            Step::Finished(Err(Errcode::SocketError(0)))
        );
    }
}

#[test]
fn the_configuration_holds_what_it_was_given() {
    match build("/bin/echo hi", Some(Reply::Fds(10, 11))) {
        Step::Finished(Ok((opts, sockets))) => {
            assert_eq!(
                opts,
                ContainerOpts {
                    path: "/bin/echo".to_string(),
                    argv: vec!["/bin/echo".to_string(), "hi".to_string()],
                    uid: 1000,
                    mount_dir: "/tmp/ctr-root".to_string(),
                    fd: 11,
                    hostname: "test-ctr".to_string(),
                }
            );
            assert_eq!(sockets, (10, 11));
            assert_eq!(opts.duplicate(), opts);
        }
        other => panic!("{:?}", other),
    }
}

#[test]
fn duplicates_a_list_of_strings() {
    let list = vec!["a".to_string(), "".to_string(), "bç".to_string()];
    assert_eq!(duplicate_strings(&list), list);
    assert_eq!(duplicate_strings(&Vec::new()), Vec::<String>::new());
}
