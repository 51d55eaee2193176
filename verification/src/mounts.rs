//! Mount operations inside the container's mount namespace.

use crate::errors::Errcode;
use crate::kernel::{Reply, Request, RequestView, Step, StepView};
use vstd::prelude::*;
use vstd::string::*;

verus! {

/// One option of a mount request.
#[derive(Debug, Clone, Copy, PartialEq, Eq)]
pub enum MountFlag {
    /// Mount read-only.
    ReadOnly,
    /// Ignore set-user-id and set-group-id bits.
    NoSuid,
    /// Do not interpret device files.
    NoDev,
    /// Do not allow programs to be executed.
    NoExec,
    /// Make a subtree visible at another place.
    Bind,
    /// Apply to every mount below the target as well.
    Recursive,
    /// Do not share mount events with any peer.
    Private,
}

/// A set of mount options.
#[derive(Debug, Clone, Copy, PartialEq, Eq)]
pub struct MountFlags {
    pub read_only: bool,
    pub no_suid: bool,
    pub no_dev: bool,
    pub no_exec: bool,
    pub bind: bool,
    pub recursive: bool,
    pub private: bool,
}

impl View for MountFlags {
    type V = Set<MountFlag>;

    open spec fn view(&self) -> Set<MountFlag> {
        Set::new(|flag: MountFlag| self.has(flag))
    }
}

impl MountFlags {
    /// Whether `flag` is in the set.
    pub open spec fn has(self, flag: MountFlag) -> bool {
        match flag {
            MountFlag::ReadOnly => self.read_only,
            MountFlag::NoSuid => self.no_suid,
            MountFlag::NoDev => self.no_dev,
            MountFlag::NoExec => self.no_exec,
            MountFlag::Bind => self.bind,
            MountFlag::Recursive => self.recursive,
            MountFlag::Private => self.private,
        }
    }

    /// The set without any option.
    pub fn empty() -> (flags: MountFlags)
        ensures
            flags@ == Set::<MountFlag>::empty(),
    {
        let flags = MountFlags {
            read_only: false,
            no_suid: false,
            no_dev: false,
            no_exec: false,
            bind: false,
            recursive: false,
            private: false,
        };
        assert(flags@ =~= Set::<MountFlag>::empty());
        flags
    }

    /// Whether `flag` is in the set.
    pub fn contains(&self, flag: MountFlag) -> (b: bool)
        ensures
            b == self@.contains(flag),
    {
        match flag {
            MountFlag::ReadOnly => self.read_only,
            MountFlag::NoSuid => self.no_suid,
            MountFlag::NoDev => self.no_dev,
            MountFlag::NoExec => self.no_exec,
            MountFlag::Bind => self.bind,
            MountFlag::Recursive => self.recursive,
            MountFlag::Private => self.private,
        }
    }

    /// Adds `flag` to the set.
    pub fn insert(&mut self, flag: MountFlag)
        ensures
            final(self)@ == old(self)@.insert(flag),
    {
        match flag {
            MountFlag::ReadOnly => {
                self.read_only = true;
            },
            MountFlag::NoSuid => {
                self.no_suid = true;
            },
            MountFlag::NoDev => {
                self.no_dev = true;
            },
            MountFlag::NoExec => {
                self.no_exec = true;
            },
            MountFlag::Bind => {
                self.bind = true;
            },
            MountFlag::Recursive => {
                self.recursive = true;
            },
            MountFlag::Private => {
                self.private = true;
            },
        }
        assert(self@ =~= old(self)@.insert(flag));
    }

    /// The set of the options listed in `flags`; an option listed twice
    /// counts once.
    pub fn from_list(flags: &Vec<MountFlag>) -> (set: MountFlags)
        ensures
            set@ == flags@.to_set(),
    {
        let mut set = MountFlags::empty();
        let mut i: usize = 0;
        while i < flags.len()
            invariant
                0 <= i <= flags.len(),
                set@ == flags@.take(i as int).to_set(),
            decreases flags.len() - i,
        {
            set.insert(flags[i]);
            proof {
                let before = flags@.take(i as int);
                let after = flags@.take(i + 1);
                assert(after == before.push(flags@[i as int]));
                assert forall|f: MountFlag| after.to_set().contains(f) <==> before.to_set().insert(
                    flags@[i as int],
                ).contains(f) by {
                    if before.contains(f) {
                        let j = choose|j: int| 0 <= j < before.len() && before[j] == f;
                        assert(after[j] == f);
                    }
                    if after.contains(f) {
                        let j = choose|j: int| 0 <= j < after.len() && after[j] == f;
                        if j < i {
                            assert(before[j] == f);
                        }
                    }
                    assert(after[i as int] == flags@[i as int]);
                }
                assert(after.to_set() =~= before.to_set().insert(flags@[i as int]));
            }
            i = i + 1;
        }
        assert(flags@.take(i as int) == flags@);
        set
    }
}

/// The text of a path that may be absent.
pub open spec fn path_view(path: Option<&str>) -> Option<Seq<char>> {
    match path {
        Some(p) => Some(p@),
        None => None,
    }
}

/// Mounting, given the kernel's reply so far.
pub open spec fn mount_step(
    source: Option<Seq<char>>,
    target: Seq<char>,
    flags: Set<MountFlag>,
    reply: Option<Reply>,
) -> StepView<Result<(), Errcode>> {
    match reply {
        None => StepView::Perform(RequestView::Mount { source, target, flags }),
        Some(Reply::Done) => StepView::Finished(Ok(())),
        Some(_) => StepView::Finished(Err(Errcode::MountsError(3))),
    }
}

/// Mounts `path` at `mount_point`, or changes the mount at `mount_point`
/// where `path` is absent, with the options listed in `flags` taken
/// together. Any reply but success is a mount error.
pub fn mount_directory(
    path: Option<&str>,
    mount_point: &str,
    flags: Vec<MountFlag>,
    reply: Option<Reply>,
) -> (step: Step<Result<(), Errcode>>)
    ensures
        step@ == mount_step(path_view(path), mount_point@, flags@.to_set(), reply),
{
    match reply {
        None => {
            let ms_flags = MountFlags::from_list(&flags);
            let source = match path {
                Some(p) => Some(String::from_str(p)),
                None => None,
            };
            Step::Perform(
                Request::Mount { source, target: String::from_str(mount_point), flags: ms_flags },
            )
        },
        Some(Reply::Done) => Step::Finished(Ok(())),
        Some(_) => Step::Finished(Err(Errcode::MountsError(3))),
    }
}

/// The options with which the root mount is made private.
pub open spec fn private_root_flags() -> Set<MountFlag> {
    set![MountFlag::Recursive, MountFlag::Private]
}

/// Prepares the mount namespace of the container whose root is to be
/// `mount_dir`: makes the root mount, and every mount below it, private, so
/// that no later mount change crosses between container and host.
pub fn set_mount_point(mount_dir: &str, reply: Option<Reply>) -> (step: Step<Result<(), Errcode>>)
    ensures
        step@ == mount_step(None, seq!['/'], private_root_flags(), reply),
{
    let mut flags: Vec<MountFlag> = Vec::new();
    flags.push(MountFlag::Recursive);
    flags.push(MountFlag::Private);
    proof {
        reveal_strlit("/");
        assert("/"@ =~= seq!['/']);
        assert(flags@ =~= seq![MountFlag::Recursive, MountFlag::Private]);
        assert(flags@[0] == MountFlag::Recursive);
        assert(flags@[1] == MountFlag::Private);
        assert(flags@.to_set() =~= private_root_flags());
    }
    mount_directory(None, "/", flags, reply)
}

/// Releases what `set_mount_point` set up for the container rooted at
/// `_root_path`. Making the root private leaves nothing behind, so there is
/// nothing to do, and this always succeeds.
pub fn clean_mounts(_root_path: &str) -> (res: Result<(), Errcode>)
    ensures
        res == Ok::<(), Errcode>(()),
{
    Ok(())
}

} // verus!
