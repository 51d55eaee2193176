//! The container's configuration and the splitting of a command line into
//! its arguments.

use crate::errors::Errcode;
use crate::ipc::{generate_socket_pair, socket_pair_step};
use crate::kernel::{RawFd, Reply, Step, StepView};
use vstd::prelude::*;
use vstd::string::*;

verus! {

/// Whether `c` separates two arguments of a command line: an ASCII space,
/// horizontal tab, line feed, form feed or carriage return.
pub open spec fn is_separator(c: char) -> bool {
    c == ' ' || c == '\t' || c == '\n' || c == '\x0C' || c == '\r'
}

/// The end of the word that starts at `from`: the first position at or
/// after `from` that holds a separator, or the end of `s`.
pub open spec fn word_end(s: Seq<char>, from: int) -> int
    decreases s.len() - from,
{
    if from < 0 || from >= s.len() || is_separator(s[from]) {
        from
    } else {
        word_end(s, from + 1)
    }
}

/// The words of `s` that start at or after `from`, in order: the maximal
/// runs of characters that are no separators.
pub open spec fn words_from(s: Seq<char>, from: int) -> Seq<Seq<char>>
    decreases s.len() - from,
{
    if from < 0 || from >= s.len() {
        Seq::empty()
    } else if is_separator(s[from]) {
        words_from(s, from + 1)
    } else {
        proof {
            lemma_word_end_bounds(s, from);
        }
        seq![s.subrange(from, word_end(s, from))] + words_from(s, word_end(s, from))
    }
}

/// The arguments that a command line denotes.
pub open spec fn words(s: Seq<char>) -> Seq<Seq<char>> {
    words_from(s, 0)
}

/// Whether `s` holds nothing but separators.
pub open spec fn is_blank(s: Seq<char>) -> bool {
    forall|i: int| 0 <= i < s.len() ==> is_separator(#[trigger] s[i])
}

/// A word ends after it starts (unless it starts on a separator or outside
/// the text), within the text, and holds no separator.
pub proof fn lemma_word_end_bounds(s: Seq<char>, from: int)
    requires
        0 <= from <= s.len(),
    ensures
        from <= word_end(s, from) <= s.len(),
        from < s.len() && !is_separator(s[from]) ==> from < word_end(s, from),
        word_end(s, from) < s.len() ==> is_separator(s[word_end(s, from)]),
        forall|i: int| from <= i < word_end(s, from) ==> !is_separator(#[trigger] s[i]),
    decreases s.len() - from,
{
    if from < s.len() && !is_separator(s[from]) {
        lemma_word_end_bounds(s, from + 1);
    }
}

/// Every word is a non-empty run without separators.
pub proof fn lemma_words_are_words(s: Seq<char>, from: int)
    requires
        0 <= from <= s.len(),
    ensures
        forall|k: int|
            0 <= k < words_from(s, from).len() ==> (#[trigger] words_from(s, from)[k]).len() > 0,
        forall|k: int, i: int|
            0 <= k < words_from(s, from).len() && 0 <= i < words_from(s, from)[k].len()
                ==> !is_separator(#[trigger] words_from(s, from)[k][i]),
    decreases s.len() - from,
{
    let all = words_from(s, from);
    if from >= s.len() {
        assert(all.len() == 0);
    } else if is_separator(s[from]) {
        lemma_words_are_words(s, from + 1);
        assert(all == words_from(s, from + 1));
    } else {
        let end = word_end(s, from);
        lemma_word_end_bounds(s, from);
        lemma_words_are_words(s, end);
        let head = s.subrange(from, end);
        let tail = words_from(s, end);
        assert(all == seq![head] + tail);
        assert forall|k: int| 0 <= k < all.len() implies (#[trigger] all[k]).len() > 0 by {
            if k > 0 {
                assert(all[k] == tail[k - 1]);
            }
        }
        assert forall|k: int, i: int| 0 <= k < all.len() && 0 <= i < all[k].len() implies
            !is_separator(#[trigger] all[k][i]) by {
            if k > 0 {
                assert(all[k] == tail[k - 1]);
            } else {
                assert(head[i] == s[from + i]);
            }
        }
    }
}

/// Whether `start` is where the first word of `s` at or after `from`
/// begins: it holds no separator, and only separators stand between `from`
/// and it.
pub open spec fn starts_first_word(s: Seq<char>, from: int, start: int) -> bool {
    &&& from <= start < s.len()
    &&& !is_separator(s[start])
    &&& forall|i: int| from <= i < start ==> is_separator(#[trigger] s[i])
}

/// A text has no word from `from` on exactly when it holds nothing but
/// separators from there on; otherwise its first word is the run that
/// starts at its first character that is no separator.
pub proof fn lemma_first_word(s: Seq<char>, from: int)
    requires
        0 <= from <= s.len(),
    ensures
        words_from(s, from).len() == 0 <==> (forall|i: int|
            from <= i < s.len() ==> is_separator(#[trigger] s[i])),
        forall|start: int| #[trigger]
            starts_first_word(s, from, start) ==> words_from(s, from).len() > 0 && words_from(
                s,
                from,
            )[0] == s.subrange(start, word_end(s, start)),
    decreases s.len() - from,
{
    if from < s.len() {
        if is_separator(s[from]) {
            lemma_first_word(s, from + 1);
            assert forall|start: int| #[trigger]
                starts_first_word(s, from, start) implies starts_first_word(s, from + 1, start) by {
                assert(start != from);
            }
        } else {
            lemma_word_end_bounds(s, from);
            assert forall|start: int| #[trigger] starts_first_word(s, from, start) implies start
                == from by {
                if start > from {
                    assert(is_separator(s[from]));
                }
            }
        }
    }
}

/// The end of the run of separators that starts at `from`: the first
/// position at or after `from` that holds no separator, or the end of `s`.
pub open spec fn separators_end(s: Seq<char>, from: int) -> int
    decreases s.len() - from,
{
    if from < 0 || from >= s.len() || !is_separator(s[from]) {
        from
    } else {
        separators_end(s, from + 1)
    }
}

/// The first whitespace-delimited token of `s`: what stands between the
/// separators that `s` begins with and the next separator, or the end.
pub open spec fn first_word(s: Seq<char>) -> Seq<char> {
    s.subrange(separators_end(s, 0), word_end(s, separators_end(s, 0)))
}

/// A run of separators ends within the text, on a character that is no
/// separator, and holds separators only.
pub proof fn lemma_separators_end_bounds(s: Seq<char>, from: int)
    requires
        0 <= from <= s.len(),
    ensures
        from <= separators_end(s, from) <= s.len(),
        separators_end(s, from) < s.len() ==> !is_separator(s[separators_end(s, from)]),
        forall|i: int| from <= i < separators_end(s, from) ==> is_separator(#[trigger] s[i]),
    decreases s.len() - from,
{
    if from < s.len() && is_separator(s[from]) {
        lemma_separators_end_bounds(s, from + 1);
    }
}

/// A command has no argument exactly when it is blank; the first argument
/// of any other command is its first whitespace-delimited token, which is
/// not empty.
pub proof fn lemma_first_argument(command: Seq<char>)
    ensures
        is_blank(command) <==> words(command).len() == 0,
        !is_blank(command) ==> words(command)[0] == first_word(command) && first_word(
            command,
        ).len() > 0,
{
    lemma_first_word(command, 0);
    lemma_separators_end_bounds(command, 0);
    let start = separators_end(command, 0);
    if start < command.len() {
        lemma_word_end_bounds(command, start);
        assert(starts_first_word(command, 0, start));
    }
}

/// Whether `c` separates two arguments of a command line.
pub fn is_separator_char(c: char) -> (b: bool)
    ensures
        b == is_separator(c),
{
    c == ' ' || c == '\t' || c == '\n' || c == '\x0C' || c == '\r'
}

/// Splits a command line into its arguments: the maximal runs of
/// characters that are no ASCII whitespace, in the order in which they
/// stand.
pub fn split_command(command: &str) -> (argv: Vec<String>)
    ensures
        argv.deep_view() == words(command@),
{
    let n: usize = command.unicode_len();
    let mut argv: Vec<String> = Vec::new();
    let mut i: usize = 0;
    assert(argv.deep_view() =~= Seq::<Seq<char>>::empty());
    while i < n
        invariant
            n == command@.len(),
            0 <= i <= n,
            words(command@) == argv.deep_view() + words_from(command@, i as int),
        decreases n - i,
    {
        if is_separator_char(command.get_char(i)) {
            i = i + 1;
        } else {
            let start: usize = i;
            i = i + 1;
            while i < n && !is_separator_char(command.get_char(i))
                invariant
                    n == command@.len(),
                    start < i <= n,
                    word_end(command@, start as int) == word_end(command@, i as int),
                decreases n - i,
            {
                i = i + 1;
            }
            let word = String::from_str(command.substring_char(start, i));
            proof {
                lemma_word_end_bounds(command@, start as int);
                assert(word_end(command@, start as int) == i);
                assert(word@ == command@.subrange(start as int, i as int));
            }
            let ghost before = argv.deep_view();
            argv.push(word);
            assert(argv.deep_view() =~= before + seq![
                command@.subrange(start as int, i as int),
            ]);
        }
    }
    assert(words_from(command@, n as int) =~= Seq::<Seq<char>>::empty());
    argv
}

/// What a container runs and where: fixed once built, and handed as a
/// whole to the child process.
#[derive(Debug, Clone, PartialEq, Eq)]
pub struct ContainerOpts {
    /// The program to run.
    pub path: String,
    /// The program's arguments, the program itself first.
    pub argv: Vec<String>,
    /// The user id that the program runs as inside the container.
    pub uid: u32,
    /// The directory that serves as the container's root.
    pub mount_dir: String,
    /// The child's end of the synchronization channel.
    pub fd: RawFd,
    /// The container's hostname, which also names its control group.
    pub hostname: String,
}

/// A configuration as plain values.
pub struct ContainerOptsView {
    pub path: Seq<char>,
    pub argv: Seq<Seq<char>>,
    pub uid: u32,
    pub mount_dir: Seq<char>,
    pub fd: RawFd,
    pub hostname: Seq<char>,
}

impl ContainerOptsView {
    /// There is a program to run, and it is the first argument.
    pub open spec fn wf(self) -> bool {
        self.argv.len() > 0 && self.path == self.argv[0]
    }
}

impl View for ContainerOpts {
    type V = ContainerOptsView;

    open spec fn view(&self) -> ContainerOptsView {
        ContainerOptsView {
            path: self.path@,
            argv: self.argv.deep_view(),
            uid: self.uid,
            mount_dir: self.mount_dir@,
            fd: self.fd,
            hostname: self.hostname@,
        }
    }
}

/// A copy of a list of strings.
pub fn duplicate_strings(list: &Vec<String>) -> (copy: Vec<String>)
    ensures
        copy.deep_view() == list.deep_view(),
{
    let mut copy: Vec<String> = Vec::new();
    let mut i: usize = 0;
    while i < list.len()
        invariant
            0 <= i <= list.len(),
            copy.len() == i,
            forall|k: int| 0 <= k < i ==> (#[trigger] copy[k])@ == list[k]@,
        decreases list.len() - i,
    {
        copy.push(list[i].clone());
        i = i + 1;
    }
    assert(copy.deep_view() =~= list.deep_view());
    copy
}

/// The configuration that `command` and the other values denote.
pub open spec fn container_opts(
    command: Seq<char>,
    uid: u32,
    mount_dir: Seq<char>,
    hostname: Seq<char>,
    fd: RawFd,
) -> ContainerOptsView {
    ContainerOptsView {
        path: words(command)[0],
        argv: words(command),
        uid,
        mount_dir,
        fd,
        hostname,
    }
}

impl ContainerOpts {
    /// There is a program to run, and it is the first argument.
    pub open spec fn wf(&self) -> bool {
        self@.wf()
    }

    /// Builds the configuration of a container that runs `command`, and the
    /// channel that goes with it.
    ///
    /// A command without any argument, that is an empty or blank one, is an
    /// argument error, and nothing is asked of the kernel. Otherwise the
    /// channel is created first. Where that fails the result is a socket
    /// error. Else the result is the configuration together with both ends
    /// of the channel: the arguments are the words of `command`, the
    /// program is the first of them, and the child's end of the channel is
    /// the configuration's descriptor.
    pub fn new(
        command: String,
        uid: u32,
        mount_dir: String,
        hostname: String,
        reply: Option<Reply>,
    ) -> (step: Step<Result<(ContainerOpts, (RawFd, RawFd)), Errcode>>)
        ensures
            is_blank(command@) ==> (step matches Step::Finished(
                Err(Errcode::ArgumentInvalid(what)),
            ) && what@ == "command"@),
            !is_blank(command@) ==> match socket_pair_step(reply) {
                StepView::Perform(op) => step@ == StepView::<
                    Result<(ContainerOpts, (RawFd, RawFd)), Errcode>,
                >::Perform(op),
                StepView::Finished(Err(e)) => step == Step::<
                    Result<(ContainerOpts, (RawFd, RawFd)), Errcode>,
                >::Finished(Err(e)),
                StepView::Finished(Ok(sockets)) => {
                    &&& step matches Step::Finished(Ok((opts, channel)))
                    &&& channel == sockets
                    &&& opts@ == container_opts(command@, uid, mount_dir@, hostname@, sockets.1)
                    &&& opts.wf()
                },
            },
    {
        let argv = split_command(command.as_str());
        proof {
            lemma_first_word(command@, 0);
        }
        if argv.len() == 0 {
            return Step::Finished(Err(Errcode::ArgumentInvalid("command")));
        }
        match generate_socket_pair(reply) {
            Step::Perform(op) => Step::Perform(op),
            Step::Finished(Err(e)) => Step::Finished(Err(e)),
            Step::Finished(Ok(sockets)) => {
                let path = argv[0].clone();
                assert(argv.deep_view()[0] == argv[0]@);
                Step::Finished(
                    Ok((ContainerOpts { path, argv, uid, mount_dir, fd: sockets.1, hostname }, sockets)),
                )
            },
        }
    }

    /// A copy of this configuration.
    pub fn duplicate(&self) -> (copy: ContainerOpts)
        ensures
            copy@ == self@,
    {
        ContainerOpts {
            path: self.path.clone(),
            argv: duplicate_strings(&self.argv),
            uid: self.uid,
            mount_dir: self.mount_dir.clone(),
            fd: self.fd,
            hostname: self.hostname.clone(),
        }
    }
}

} // verus!
