//! The hardware bus that every chip on board shares.
//!
//! The device is owned by a [`HardwareBus`] and never handed out. A
//! transaction borrows it through [`HardwareBus::with_lock`], which holds the
//! lock for exactly as long as the transaction runs and never waits for it.

use crate::fatal::FatalError;
use std::sync::Arc;
use std::sync::Mutex;
use vstd::prelude::*;

verus! {

/// `std::sync::Mutex`, opaque to the verifier.
#[verifier::external_type_specification]
#[verifier::external_body]
#[verifier::reject_recursive_types(T)]
pub struct ExMutex<T: ?Sized>(Mutex<T>);

/// `Mutex::new` wraps a value in an unlocked mutex. Nothing is claimed of
/// the mutex: what it holds is not visible to the verifier.
pub assume_specification<T>[ Mutex::<T>::new ](value: T) -> (mutex: Mutex<T>);

/// `Arc::clone` on a shared mutex: one more pointer to the same allocation,
/// and so to the same mutex. No new mutex is made.
#[verifier::external_body]
fn another_handle<B>(shared: &Arc<Mutex<B>>) -> (handle: Arc<Mutex<B>>)
    ensures
        handle == *shared,
{
    Arc::clone(shared)
}

/// `Mutex::try_lock`, then `transaction` on the guarded value, then the
/// guard's release. `try_lock` never blocks: where the lock is held, by
/// another thread or by this one, it says so at once and the answer is
/// `None`, with the transaction not called. Otherwise the transaction is
/// called once, with the only reference to the value that exists while it
/// runs, and what it returns is handed back. A mutex that a panicking holder
/// left poisoned is free, and is used all the same.
#[verifier::external_body]
fn try_locked<B, T, F: FnOnce(&mut B) -> T>(shared: &Mutex<B>, transaction: F) -> (out: Option<T>)
    requires
        forall|device: &mut B| transaction.requires((device,)),
    ensures
        out matches Some(value) ==> exists|device: &mut B| transaction.ensures((device,), value),
{
    match shared.try_lock() {
        Ok(mut guard) => Some(transaction(&mut *guard)),
        Err(std::sync::TryLockError::Poisoned(poisoned)) => {
            let mut guard = poisoned.into_inner();
            Some(transaction(&mut *guard))
        },
        Err(std::sync::TryLockError::WouldBlock) => None,
    }
}

/// The bus: a device of type `B` behind a lock, shared by handles.
#[verifier::reject_recursive_types(B)]
pub struct HardwareBus<B> {
    shared: Arc<Mutex<B>>,
}

impl<B> HardwareBus<B> {
    /// A bus that owns `device`.
    pub fn new(device: B) -> (bus: HardwareBus<B>) {
        HardwareBus { shared: Arc::new(Mutex::new(device)) }
    }

    /// One more handle to the same bus, for another reader or actuator. The
    /// handle is this bus: it guards the same device with the same lock.
    pub fn share(&self) -> (handle: HardwareBus<B>)
        ensures
            handle == *self,
    {
        HardwareBus { shared: another_handle(&self.shared) }
    }

    /// Runs one transaction on the device while holding the lock, if the
    /// bus is free, and returns what the transaction returned. Where another
    /// transaction holds the bus, on another thread or on this one, nothing
    /// is run and the answer is `None`: this function never waits, and the
    /// caller decides when to try again. The transaction has to accept the
    /// device in whatever state the transactions before it left it.
    pub fn with_lock<T, F: FnOnce(&mut B) -> T>(&self, transaction: F) -> (out: Option<T>)
        requires
            forall|device: &mut B| transaction.requires((device,)),
        ensures
            out matches Some(value) ==> exists|device: &mut B|
                transaction.ensures((device,), value),
    {
        try_locked(&self.shared, transaction)
    }
}

/// Starts the bus, given what opening the device returned: a bus that owns
/// the device where it was opened, and a fatal error where it was not.
pub fn init_i2c<B>(opened: Option<B>) -> (bus: Result<HardwareBus<B>, FatalError>)
    ensures
        bus is Ok <==> opened is Some,
        bus is Err ==> bus == Err::<HardwareBus<B>, FatalError>(FatalError::BusUnavailable),
{
    match opened {
        Some(device) => Ok(HardwareBus::new(device)),
        None => Err(FatalError::BusUnavailable),
    }
}

} // verus!
