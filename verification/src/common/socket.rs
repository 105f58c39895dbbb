use crate::api::codec::{frames_of, split_frames};
use crate::common::error::Error;
use vstd::prelude::*;

verus! {

/// Which side of a connection this end plays.
#[derive(PartialEq, Eq, Structural, Debug, Clone, Copy)]
pub enum ConnectionRole {
    Client,
    Server,
}

/// The size of the buffer a connection reads into.
pub const BUF_SIZE: usize = 1024;

/// What a read from a connection amounts to, given what the read returned
/// and the receive buffer: bytes arrived, so the buffer (all of it, as it
/// stands after the read) is split into encoded messages; zero bytes means
/// the peer closed the connection; a failed read (nothing waiting on a
/// non-blocking socket among others) means nothing arrived.
pub fn received_frames(read: Result<usize, std::io::Error>, buf: &[u8]) -> (r: Result<
    Option<Vec<Vec<u8>>>,
    Error,
>)
    ensures
        match read {
            Ok(n) => if n > 0 {
                r matches Ok(Some(frames)) && frames@.len() == frames_of(buf@).len() && forall|
                    i: int,
                | 0 <= i < frames@.len() ==> #[trigger] frames@[i]@ == frames_of(buf@)[i]
            } else {
                r matches Err(Error::SocketClosedError)
            },
            Err(_) => r matches Ok(None),
        },
{
    match read {
        Ok(read) => {
            if read > 0 {
                Ok(Some(split_frames(buf)))
            } else {
                Err(Error::SocketClosedError)
            }
        },
        Err(_) => Ok(None),
    }
}

} // verus!
