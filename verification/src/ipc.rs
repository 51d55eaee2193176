//! The synchronization channel between parent and child: a pair of
//! connected sockets that carry booleans, one byte each.

use crate::errors::Errcode;
use crate::kernel::{RawFd, Reply, Request, RequestView, Step, StepView};
use vstd::prelude::*;

verus! {

/// The byte that stands for a boolean on the channel.
pub open spec fn encode_boolean(boolean: bool) -> u8 {
    if boolean {
        1
    } else {
        0
    }
}

/// The boolean that a byte from the channel stands for: one is true,
/// anything else false.
pub open spec fn decode_boolean(byte: u8) -> bool {
    byte == 1
}

/// What is received is what was sent.
pub proof fn lemma_boolean_round_trip(boolean: bool)
    ensures
        decode_boolean(encode_boolean(boolean)) == boolean,
{
}

/// Creating the channel, given the kernel's reply so far.
pub open spec fn socket_pair_step(reply: Option<Reply>) -> StepView<
    Result<(RawFd, RawFd), Errcode>,
> {
    match reply {
        None => StepView::Perform(RequestView::SocketPair),
        Some(Reply::Fds(parent, child)) => if parent != child {
            StepView::Finished(Ok((parent, child)))
        } else {
            StepView::Finished(Err(Errcode::SocketError(0)))
        },
        Some(_) => StepView::Finished(Err(Errcode::SocketError(0))),
    }
}

/// Creates the channel: asks for a socket pair, then yields its two ends,
/// the parent's first. Any reply but two distinct descriptors is a socket
/// error.
pub fn generate_socket_pair(reply: Option<Reply>) -> (step: Step<Result<(RawFd, RawFd), Errcode>>)
    ensures
        step@ == socket_pair_step(reply),
{
    match reply {
        None => Step::Perform(Request::SocketPair),
        Some(Reply::Fds(parent, child)) => {
            if parent != child {
                Step::Finished(Ok((parent, child)))
            } else {
                Step::Finished(Err(Errcode::SocketError(0)))
            }
        },
        Some(_) => Step::Finished(Err(Errcode::SocketError(0))),
    }
}

/// Sending a boolean, given the kernel's reply so far.
pub open spec fn send_boolean_step(fd: RawFd, boolean: bool, reply: Option<Reply>) -> StepView<
    Result<(), Errcode>,
> {
    match reply {
        None => StepView::Perform(RequestView::Send { fd, byte: encode_boolean(boolean) }),
        Some(Reply::Done) => StepView::Finished(Ok(())),
        Some(_) => StepView::Finished(Err(Errcode::SocketError(1))),
    }
}

/// Sends a boolean over `fd`: asks for its one byte to be sent. Any reply
/// but success is a socket error.
pub fn send_boolean(fd: RawFd, boolean: bool, reply: Option<Reply>) -> (step: Step<
    Result<(), Errcode>,
>)
    ensures
        step@ == send_boolean_step(fd, boolean, reply),
{
    match reply {
        None => {
            let byte: u8 = if boolean {
                1
            } else {
                0
            };
            Step::Perform(Request::Send { fd, byte })
        },
        Some(Reply::Done) => Step::Finished(Ok(())),
        Some(_) => Step::Finished(Err(Errcode::SocketError(1))),
    }
}

/// Receiving a boolean, given the kernel's reply so far.
pub open spec fn recv_boolean_step(fd: RawFd, reply: Option<Reply>) -> StepView<
    Result<bool, Errcode>,
> {
    match reply {
        None => StepView::Perform(RequestView::Recv { fd }),
        Some(Reply::Byte(byte)) => StepView::Finished(Ok(decode_boolean(byte))),
        Some(_) => StepView::Finished(Err(Errcode::SocketError(2))),
    }
}

/// Receives a boolean from `fd`: asks for one byte, and yields whether it
/// is one. Any reply but a byte is a socket error.
pub fn recv_boolean(fd: RawFd, reply: Option<Reply>) -> (step: Step<Result<bool, Errcode>>)
    ensures
        step@ == recv_boolean_step(fd, reply),
{
    match reply {
        None => Step::Perform(Request::Recv { fd }),
        Some(Reply::Byte(byte)) => Step::Finished(Ok(byte == 1)),
        Some(_) => Step::Finished(Err(Errcode::SocketError(2))),
    }
}

/// A boolean sent over a channel that delivers what it is given arrives
/// unchanged: the byte that `send_boolean` asks to send is read back by
/// `recv_boolean` as the boolean that was sent.
pub proof fn lemma_channel_delivers(sender: RawFd, receiver: RawFd, boolean: bool)
    ensures
        send_boolean_step(sender, boolean, None) matches StepView::Perform(
            RequestView::Send { fd, byte },
        ) && fd == sender && recv_boolean_step(receiver, Some(Reply::Byte(byte)))
            == StepView::Finished(Ok::<bool, Errcode>(boolean)),
{
}

} // verus!
