//! The shared console: a writer behind a spin lock.

use vstd::prelude::*;
use spin::Mutex;
use spin::MutexGuard;
use crate::writer::Writer;

verus! {

/// `spin::Mutex`: a spin lock around a value. The verifier sees nothing
/// inside it, and no contract speaks of the value it protects.
#[verifier::external_type_specification]
#[verifier::external_body]
#[verifier::reject_recursive_types(T)]
pub struct ExMutex<T: ?Sized>(Mutex<T>);

/// `spin::MutexGuard`: the right to use the protected value while the lock
/// is held. Dropping it gives the lock back.
#[verifier::external_type_specification]
#[verifier::external_body]
#[verifier::reject_recursive_types(T)]
pub struct ExMutexGuard<'a, T: ?Sized + 'a>(MutexGuard<'a, T>);

/// `Mutex::lock`: spins until the lock is free, takes it and returns the
/// guard, which gives the lock back when it goes out of scope. Nothing is
/// claimed of the writer behind the lock: any context may have written to
/// it since it was last seen. The call does not return while the lock is
/// held, so it never returns to a context that holds the guard itself.
#[verifier::external_body]
fn lock_console<'a>(console: &'a Mutex<Writer>) -> (guard: MutexGuard<'a, Writer>) {
    console.lock()
}

/// `DerefMut::deref_mut` of the guard: the writer that the lock protects,
/// for as long as the guard is borrowed.
#[verifier::external_body]
fn locked_writer<'a, 'b>(guard: &'a mut MutexGuard<'b, Writer>) -> (writer: &'a mut Writer) {
    core::ops::DerefMut::deref_mut(guard)
}

/// Writes a text to the shared console. The lock is taken for this one
/// write and given back when it is done, so texts from different contexts
/// never interleave; in which order they appear is decided by who takes the
/// lock first. What the text does to the screen is the contract of
/// [`Writer::write_string`].
pub fn _print(console: &Mutex<Writer>, text: &str) {
    let mut guard = lock_console(console);
    let writer = locked_writer(&mut guard);
    writer.write_string(text);
}

} // verus!
