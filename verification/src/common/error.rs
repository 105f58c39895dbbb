use vstd::prelude::*;

verus! {

/// `std::io::Error`, carried through unopened.
#[verifier::external_type_specification]
#[verifier::external_body]
pub struct ExIoError(std::io::Error);

/// `std::sync::PoisonError`, the error of a lock whose holder panicked.
#[verifier::external_type_specification]
#[verifier::external_body]
#[verifier::reject_recursive_types(T)]
pub struct ExPoisonError<T>(std::sync::PoisonError<T>);

/// The errors of connections, configuration and the lobby.
#[derive(Debug)]
pub enum Error {
    OtherError(&'static str),
    MiscError(String),
    LockingFailedError,
    SocketClosedError,
    IOError(std::io::Error),
}

impl From<std::io::Error> for Error {
    fn from(value: std::io::Error) -> (r: Self) {
        Error::IOError(value)
    }
}

impl vstd::std_specs::convert::FromSpecImpl<std::io::Error> for Error {
    open spec fn obeys_from_spec() -> bool {
        true
    }

    open spec fn from_spec(v: std::io::Error) -> Error {
        Error::IOError(v)
    }
}

impl<T> From<std::sync::PoisonError<T>> for Error {
    fn from(_poisoned: std::sync::PoisonError<T>) -> (r: Self) {
        Error::LockingFailedError
    }
}

impl<T> vstd::std_specs::convert::FromSpecImpl<std::sync::PoisonError<T>> for Error {
    open spec fn obeys_from_spec() -> bool {
        true
    }

    open spec fn from_spec(v: std::sync::PoisonError<T>) -> Error {
        Error::LockingFailedError
    }
}

} // verus!
