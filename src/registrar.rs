use vstd::prelude::*;
use crate::discovery::dispose_result;
use crate::error::{check_store_call, error_for, RegistryError, StoreFault, StoreOp};
use crate::status::LifecycleStatus;

verus! {

/// The registration side of the client: lifecycle status and, once the service
/// key is written, the lease it is bound to.
pub struct Registrar {
    status: LifecycleStatus,
    lease: Option<u64>,
}

impl View for Registrar {
    type V = (LifecycleStatus, Option<u64>);

    closed spec fn view(&self) -> (LifecycleStatus, Option<u64>) {
        (self.status, self.lease)
    }
}

impl Registrar {
    pub fn new() -> (r: Registrar)
        ensures
            r@ == (LifecycleStatus::Active, None::<u64>),
    {
        Registrar { status: LifecycleStatus::new(), lease: None }
    }

    pub fn status(&self) -> (r: LifecycleStatus)
        ensures
            r == self@.0,
    {
        self.status
    }

    /// The lease that keeps the service key alive, once registered.
    pub fn lease(&self) -> (r: Option<u64>)
        ensures
            r == self@.1,
    {
        self.lease
    }

    /// Checks the outcome of the lease grant: the lease to write the key under,
    /// or the error to report. A disposed registrar has no connection.
    pub fn lease_granted(&self, grant: Result<u64, StoreFault>) -> (r: Result<u64, RegistryError>)
        ensures
            self@.0 == LifecycleStatus::Stopped ==> r == Err::<u64, RegistryError>(
                RegistryError::ConnectionError,
            ),
            self@.0 == LifecycleStatus::Active ==> match grant {
                Ok(id) => r == Ok::<u64, RegistryError>(id),
                Err(f) => r == Err::<u64, RegistryError>(error_for(StoreOp::Grant, f)),
            },
    {
        if !self.status.is_active() {
            return Err(RegistryError::ConnectionError);
        }
        check_store_call(StoreOp::Grant, grant)
    }

    /// Checks the outcome of writing the service key under `lease`. On success
    /// the registrar holds the lease and the keep-alive loops may start; on
    /// failure nothing changes.
    pub fn key_written(&mut self, lease: u64, put: Result<(), StoreFault>) -> (r: Result<
        (),
        RegistryError,
    >)
        ensures
            old(self)@.0 == LifecycleStatus::Stopped ==> r == Err::<(), RegistryError>(
                RegistryError::ConnectionError,
            ) && final(self)@ == old(self)@,
            old(self)@.0 == LifecycleStatus::Active ==> match put {
                Ok(_) => r == Ok::<(), RegistryError>(()) && final(self)@ == (
                    LifecycleStatus::Active,
                    Some(lease),
                ),
                Err(f) => r == Err::<(), RegistryError>(error_for(StoreOp::Put, f)) && final(self)@
                    == old(self)@,
            },
    {
        if !self.status.is_active() {
            return Err(RegistryError::ConnectionError);
        }
        match check_store_call(StoreOp::Put, put) {
            Ok(()) => {
                self.lease = Some(lease);
                Ok(())
            },
            Err(e) => Err(e),
        }
    }

    /// Stops the registrar; the lease is left to expire in the store. Reports
    /// `ShutdownError` when it was already stopped; the caller closes the
    /// connection only on `Ok`.
    pub fn dispose(&mut self) -> (r: Result<(), RegistryError>)
        ensures
            final(self)@ == (LifecycleStatus::Stopped, old(self)@.1),
            r == dispose_result(old(self)@.0),
    {
        if self.status.stop() {
            Ok(())
        } else {
            Err(RegistryError::ShutdownError)
        }
    }
}

} // verus!
