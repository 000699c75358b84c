use vstd::prelude::*;

verus! {

/// A failure of the whole multiplexer instance; fatal for every channel.
#[derive(Clone, Copy, Debug, PartialEq, Eq, Structural)]
pub enum MultiplexError {
    /// The peer sent a malformed or out-of-protocol message.
    Protocol,
    /// The underlying transport failed.
    Transport,
}

/// Why opening a channel failed.
#[derive(Clone, Copy, Debug, PartialEq, Eq, Structural)]
pub enum ConnectError {
    /// The remote endpoint refused the channel.
    Rejected,
    /// The remote endpoint did not confirm in time.
    Timeout,
    /// No free port was left for the new channel.
    PortsExhausted,
    /// The multiplexer has ended normally.
    Terminated,
    /// The multiplexer has ended with a failure.
    Failed(MultiplexError),
}

/// Why sending on a channel failed.
#[derive(Clone, Copy, Debug, PartialEq, Eq, Structural)]
pub enum SendError {
    /// The channel was closed locally or by the remote receiver.
    Closed,
    /// The multiplexer has ended normally.
    Terminated,
    /// The multiplexer has ended with a failure.
    Failed(MultiplexError),
}

/// Why receiving on a channel failed.
#[derive(Clone, Copy, Debug, PartialEq, Eq, Structural)]
pub enum ReceiveError {
    /// The multiplexer has ended normally before the remote sender closed.
    Terminated,
    /// The multiplexer has ended with a failure.
    Failed(MultiplexError),
}

/// Errors that can tell a normal end of communication from a failure.
pub trait Termination: Sized {
    spec fn spec_is_terminated(&self) -> bool;

    /// True when the error stems from a closed channel or a normally ended
    /// multiplexer, false when it reports a failure.
    fn is_terminated(&self) -> (r: bool)
        ensures
            r == self.spec_is_terminated(),
    ;
}

impl Termination for MultiplexError {
    /// Both kinds of multiplexer error are failures.
    open spec fn spec_is_terminated(&self) -> bool {
        false
    }

    fn is_terminated(&self) -> (r: bool) {
        false
    }
}

impl Termination for ConnectError {
    open spec fn spec_is_terminated(&self) -> bool {
        *self == ConnectError::Terminated
    }

    fn is_terminated(&self) -> (r: bool) {
        match self {
            ConnectError::Terminated => true,
            _ => false,
        }
    }
}

impl Termination for SendError {
    open spec fn spec_is_terminated(&self) -> bool {
        !(*self is Failed)
    }

    fn is_terminated(&self) -> (r: bool) {
        match self {
            SendError::Failed(_) => false,
            _ => true,
        }
    }
}

impl SendError {
    /// True when the channel was closed rather than the multiplexer ended.
    pub fn is_closed(&self) -> (r: bool)
        ensures
            r == (*self == SendError::Closed),
    {
        match self {
            SendError::Closed => true,
            _ => false,
        }
    }
}

impl Termination for ReceiveError {
    open spec fn spec_is_terminated(&self) -> bool {
        *self == ReceiveError::Terminated
    }

    fn is_terminated(&self) -> (r: bool) {
        match self {
            ReceiveError::Terminated => true,
            ReceiveError::Failed(_) => false,
        }
    }
}

/// Lets a loop end quietly on an expected termination: `None` when `r` holds
/// an error for which `is_terminated` is true (the caller then returns),
/// otherwise `r` unchanged.
pub fn term<T, E: Termination>(r: Result<T, E>) -> (o: Option<Result<T, E>>)
    ensures
        match r {
            Ok(_) => o == Some(r),
            Err(e) => if e.spec_is_terminated() {
                o is None
            } else {
                o == Some(r)
            },
        },
{
    let stop = match &r {
        Ok(_) => false,
        Err(e) => e.is_terminated(),
    };
    if stop {
        None
    } else {
        Some(r)
    }
}

} // verus!
