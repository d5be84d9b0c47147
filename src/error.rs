use vstd::prelude::*;

verus! {

/// std's I/O error, carried unchanged inside `UdpSocketError::IoError`.
#[verifier::external_type_specification]
#[verifier::external_body]
pub struct ExIoError(std::io::Error);

/// bincode's error kind, carried (boxed, as `bincode::Error`) inside
/// `UdpSocketError::BincodeError`.
#[verifier::external_type_specification]
#[verifier::external_body]
pub struct ExBincodeErrorKind(bincode::ErrorKind);

/// The two ways an operation on a channel fails: the network layer, or the
/// binary codec on either encode or decode.
#[derive(Debug)]
pub enum UdpSocketError {
    IoError(std::io::Error),
    BincodeError(Box<bincode::ErrorKind>),
}

impl From<std::io::Error> for UdpSocketError {
    fn from(e: std::io::Error) -> (r: Self) {
        UdpSocketError::IoError(e)
    }
}

impl vstd::std_specs::convert::FromSpecImpl<std::io::Error> for UdpSocketError {
    open spec fn obeys_from_spec() -> bool {
        true
    }

    open spec fn from_spec(e: std::io::Error) -> Self {
        UdpSocketError::IoError(e)
    }
}

impl From<Box<bincode::ErrorKind>> for UdpSocketError {
    fn from(e: Box<bincode::ErrorKind>) -> (r: Self) {
        UdpSocketError::BincodeError(e)
    }
}

impl vstd::std_specs::convert::FromSpecImpl<Box<bincode::ErrorKind>> for UdpSocketError {
    open spec fn obeys_from_spec() -> bool {
        true
    }

    open spec fn from_spec(e: Box<bincode::ErrorKind>) -> Self {
        UdpSocketError::BincodeError(e)
    }
}

/// Surfaces the outcome of a network operation: a success is passed on as it
/// is, and a failure becomes an `IoError` that carries it.
pub fn surface_io<T>(r: Result<T, std::io::Error>) -> (out: Result<T, UdpSocketError>)
    ensures
        match r {
            Ok(v) => out == Ok::<T, UdpSocketError>(v),
            Err(e) => out == Err::<T, UdpSocketError>(UdpSocketError::IoError(e)),
        },
{
    match r {
        Ok(v) => Ok(v),
        Err(e) => Err(UdpSocketError::from(e)),
    }
}

/// Surfaces the outcome of an encode or a decode: a success is passed on as it
/// is, and a failure becomes a `BincodeError` that carries it.
pub fn surface_codec<T>(r: Result<T, Box<bincode::ErrorKind>>) -> (out: Result<T, UdpSocketError>)
    ensures
        match r {
            Ok(v) => out == Ok::<T, UdpSocketError>(v),
            Err(e) => out == Err::<T, UdpSocketError>(UdpSocketError::BincodeError(e)),
        },
{
    match r {
        Ok(v) => Ok(v),
        Err(e) => Err(UdpSocketError::from(e)),
    }
}

} // verus!
