//! The error taxonomy shared by every step of container creation.

use vstd::prelude::*;
use vstd::string::*;

verus! {

/// Why a step of container creation failed. The number carried by most
/// kinds tells apart the places at which that kind can arise.
#[derive(Debug, Clone, Copy, PartialEq, Eq)]
pub enum Errcode {
    /// An argument was unusable; the payload names it.
    ArgumentInvalid(&'static str),
    /// The container could not be set up on this host.
    ContainerError(u8),
    /// The host's kernel version or architecture is not supported.
    NotSupported(u8),
    /// An operation on the synchronization channel failed.
    SocketError(u8),
    /// The child process could not be spawned.
    ChildProcessError(u8),
    /// The hostname could not be assigned.
    HostnameError(u8),
    /// No random data could be obtained.
    RngError,
    /// A mount operation failed.
    MountsError(u8),
    /// The namespace handshake failed.
    NamespaceError(u8),
    /// A resource restriction could not be applied or removed.
    ResourcesError(u8),
    /// The capabilities could not be dropped.
    CapabilitiesError(u8),
    /// The syscall filter could not be installed.
    SyscallsError(u8),
}

/// The exit code of a run that ended well.
pub const EXIT_SUCCESS: i32 = 0;

/// The exit code of a run that ended with an error, whatever its kind.
pub const EXIT_FAILURE: i32 = 1;

impl Errcode {
    /// The process exit code for this error: every kind maps to the same
    /// non-zero code.
    pub fn get_ret_code(&self) -> (code: i32)
        ensures
            code == EXIT_FAILURE,
            code != EXIT_SUCCESS,
    {
        EXIT_FAILURE
    }
}

/// The character that stands for a digit.
pub open spec fn digit_char(d: nat) -> char {
    if d == 0 {
        '0'
    } else if d == 1 {
        '1'
    } else if d == 2 {
        '2'
    } else if d == 3 {
        '3'
    } else if d == 4 {
        '4'
    } else if d == 5 {
        '5'
    } else if d == 6 {
        '6'
    } else if d == 7 {
        '7'
    } else if d == 8 {
        '8'
    } else {
        '9'
    }
}

/// A number written in base ten, without leading zeros.
pub open spec fn decimal(n: nat) -> Seq<char>
    decreases n,
{
    if n < 10 {
        seq![digit_char(n)]
    } else {
        decimal(n / 10) + seq![digit_char(n % 10)]
    }
}

/// A kind of error and its number, written as the kind's name with the
/// number in parentheses.
pub open spec fn numbered(kind: Seq<char>, n: u8) -> Seq<char> {
    kind + seq!['('] + decimal(n as nat) + seq![')']
}

/// The one-line description of an error.
pub open spec fn description(e: Errcode) -> Seq<char> {
    match e {
        Errcode::ArgumentInvalid(what) => "ArgumentInvalid: "@ + what@,
        Errcode::ContainerError(n) => numbered("ContainerError"@, n),
        Errcode::NotSupported(n) => numbered("NotSupported"@, n),
        Errcode::SocketError(n) => numbered("SocketError"@, n),
        Errcode::ChildProcessError(n) => numbered("ChildProcessError"@, n),
        Errcode::HostnameError(n) => numbered("HostnameError"@, n),
        Errcode::RngError => "RngError"@,
        Errcode::MountsError(n) => numbered("MountsError"@, n),
        Errcode::NamespaceError(n) => numbered("NamespaceError"@, n),
        Errcode::ResourcesError(n) => numbered("ResourcesError"@, n),
        Errcode::CapabilitiesError(n) => numbered("CapabilitiesError"@, n),
        Errcode::SyscallsError(n) => numbered("SyscallsError"@, n),
    }
}

/// The text of one digit.
fn digit_str(d: u8) -> (text: &'static str)
    requires
        d < 10,
    ensures
        text@ == seq![digit_char(d as nat)],
{
    proof {
        reveal_strlit("0");
        reveal_strlit("1");
        reveal_strlit("2");
        reveal_strlit("3");
        reveal_strlit("4");
        reveal_strlit("5");
        reveal_strlit("6");
        reveal_strlit("7");
        reveal_strlit("8");
        reveal_strlit("9");
    }
    let text = match d {
        0 => "0",
        1 => "1",
        2 => "2",
        3 => "3",
        4 => "4",
        5 => "5",
        6 => "6",
        7 => "7",
        8 => "8",
        _ => "9",
    };
    assert(text@ =~= seq![digit_char(d as nat)]);
    text
}

/// Writes `kind`, then `n` in parentheses.
fn write_numbered(kind: &str, n: u8) -> (text: String)
    ensures
        text@ == numbered(kind@, n),
{
    proof {
        reveal_strlit("(");
        reveal_strlit(")");
        reveal_with_fuel(decimal, 3);
    }
    let mut text = String::from_str(kind);
    text.append("(");
    if n >= 100 {
        text.append(digit_str(n / 100));
    }
    if n >= 10 {
        text.append(digit_str((n / 10) % 10));
    }
    text.append(digit_str(n % 10));
    text.append(")");
    assert(text@ =~= numbered(kind@, n));
    text
}

impl Errcode {
    /// The one-line description of this error: the name of its kind with
    /// its number in parentheses, or, for an invalid argument, the name of
    /// the kind, a colon, and the argument.
    pub fn message(&self) -> (text: String)
        ensures
            text@ == description(*self),
    {
        match *self {
            Errcode::ArgumentInvalid(what) => {
                let mut text = String::from_str("ArgumentInvalid: ");
                text.append(what);
                text
            },
            Errcode::ContainerError(n) => write_numbered("ContainerError", n),
            Errcode::NotSupported(n) => write_numbered("NotSupported", n),
            Errcode::SocketError(n) => write_numbered("SocketError", n),
            Errcode::ChildProcessError(n) => write_numbered("ChildProcessError", n),
            Errcode::HostnameError(n) => write_numbered("HostnameError", n),
            Errcode::RngError => String::from_str("RngError"),
            Errcode::MountsError(n) => write_numbered("MountsError", n),
            Errcode::NamespaceError(n) => write_numbered("NamespaceError", n),
            Errcode::ResourcesError(n) => write_numbered("ResourcesError", n),
            Errcode::CapabilitiesError(n) => write_numbered("CapabilitiesError", n),
            Errcode::SyscallsError(n) => write_numbered("SyscallsError", n),
        }
    }
}

/// The exit code that a finished run reports.
pub open spec fn exit_code_of(res: Result<(), Errcode>) -> int {
    match res {
        Ok(_) => EXIT_SUCCESS as int,
        Err(_) => EXIT_FAILURE as int,
    }
}

/// The process exit code for the result of a run: zero on success, the
/// error's code otherwise.
pub fn ret_code(res: &Result<(), Errcode>) -> (code: i32)
    ensures
        code == exit_code_of(*res),
        code == 0 <==> *res is Ok,
{
    match res {
        Ok(_) => EXIT_SUCCESS,
        Err(e) => e.get_ret_code(),
    }
}

} // verus!
