use vstd::prelude::*;

verus! {

/// Errors reported to the caller of the registry client.
#[derive(Clone, Copy, Debug, PartialEq, Eq, Structural)]
pub enum RegistryError {
    /// The store cannot be reached or the connection was lost.
    ConnectionError,
    /// A lease grant or renewal was rejected.
    LeaseError,
    /// Writing the service key was rejected.
    PutError,
    /// Reading the keys under a prefix was rejected.
    RangeError,
    /// Opening the watch stream was rejected.
    WatchError,
    /// Tearing down a resource that is already torn down.
    ShutdownError,
}

/// How a single store call failed, as seen by the code that made it.
#[derive(Clone, Copy, Debug, PartialEq, Eq, Structural)]
pub enum StoreFault {
    /// No answer: the connection is down or was closed.
    Unreachable,
    /// The store answered and refused the request.
    Rejected,
}

/// The store operations whose failures are reported.
#[derive(Clone, Copy, Debug, PartialEq, Eq, Structural)]
pub enum StoreOp {
    Connect,
    Range,
    Grant,
    KeepAlive,
    Put,
    Watch,
    Close,
}

/// The error reported for a failed store call: a lost connection is a
/// `ConnectionError` whatever the call; a refusal is named after the call.
pub open spec fn error_for(op: StoreOp, fault: StoreFault) -> RegistryError {
    match fault {
        StoreFault::Unreachable => match op {
            StoreOp::Close => RegistryError::ShutdownError,
            _ => RegistryError::ConnectionError,
        },
        StoreFault::Rejected => match op {
            StoreOp::Connect => RegistryError::ConnectionError,
            StoreOp::Range => RegistryError::RangeError,
            StoreOp::Grant => RegistryError::LeaseError,
            StoreOp::KeepAlive => RegistryError::LeaseError,
            StoreOp::Put => RegistryError::PutError,
            StoreOp::Watch => RegistryError::WatchError,
            StoreOp::Close => RegistryError::ShutdownError,
        },
    }
}

/// Classifies the failure of a store call.
pub fn classify(op: StoreOp, fault: StoreFault) -> (r: RegistryError)
    ensures
        r == error_for(op, fault),
{
    match fault {
        StoreFault::Unreachable => match op {
            StoreOp::Close => RegistryError::ShutdownError,
            _ => RegistryError::ConnectionError,
        },
        StoreFault::Rejected => match op {
            StoreOp::Connect => RegistryError::ConnectionError,
            StoreOp::Range => RegistryError::RangeError,
            StoreOp::Grant => RegistryError::LeaseError,
            StoreOp::KeepAlive => RegistryError::LeaseError,
            StoreOp::Put => RegistryError::PutError,
            StoreOp::Watch => RegistryError::WatchError,
            StoreOp::Close => RegistryError::ShutdownError,
        },
    }
}

/// Maps the outcome of a store call to the library's result.
pub fn check_store_call<T>(op: StoreOp, res: Result<T, StoreFault>) -> (r: Result<T, RegistryError>)
    ensures
        match res {
            Ok(v) => r == Ok::<T, RegistryError>(v),
            Err(f) => r == Err::<T, RegistryError>(error_for(op, f)),
        },
{
    match res {
        Ok(v) => Ok(v),
        Err(f) => Err(classify(op, f)),
    }
}

} // verus!
