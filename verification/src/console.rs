//! The shared console: one driver behind a spinning lock, written to by
//! whoever holds the lock.
//!
//! Nothing here waits for the lock. [`try_print`] tries it once; [`_print`]
//! tries it as often as the caller allows. Both hand the guard back with the
//! text written, so that the caller can read what the display shows, write
//! on with [`write_held`], and release the lock by dropping the guard. A
//! caller that wants to wait calls again.

use crate::screen::Screen;
use crate::vga::VGADriver;
use spin::mutex::{Mutex, MutexGuard};
use spin::relax::Spin;
use vstd::prelude::*;
use vstd::string::StringSliceAdditionalSpecFns;

verus! {

/// `spin::mutex::Mutex`, a value behind a spinning lock. Opaque to the
/// verifier.
#[verifier::external_type_specification]
#[verifier::external_body]
#[verifier::reject_recursive_types(T)]
#[verifier::reject_recursive_types(R)]
pub struct ExMutex<T: ?Sized, R>(Mutex<T, R>);

/// `spin::mutex::MutexGuard`, the proof of holding a lock. Opaque to the
/// verifier.
#[verifier::external_type_specification]
#[verifier::external_body]
#[verifier::reject_recursive_types(T)]
pub struct ExMutexGuard<'a, T: 'a + ?Sized>(MutexGuard<'a, T>);

/// `spin::relax::Spin`, the strategy of busy-waiting on a held lock.
#[verifier::external_type_specification]
#[verifier::external_body]
pub struct ExSpin(Spin);

/// What the driver behind a held lock shows. The guard is the only way to
/// that driver while it lives, so what it shows changes with the guard alone.
pub uninterp spec fn held(guard: MutexGuard<'_, VGADriver>) -> Screen;

/// Calls `spin::mutex::Mutex::try_lock`: one attempt to take the lock, which
/// never waits. Whether the attempt succeeds depends on who holds the lock,
/// so nothing is claimed of the result.
#[verifier::external_body]
fn try_lock<'a>(writer: &'a Mutex<VGADriver, Spin>) -> (guard: Option<MutexGuard<'a, VGADriver>>) {
    writer.try_lock()
}

/// Calls `DerefMut::deref_mut` of `spin::mutex::MutexGuard`: the driver that
/// the held lock protects. The claim is that the reference leads to the
/// guarded driver itself: it shows what the guard holds, and what is written
/// through it is what the guard holds afterwards.
#[verifier::external_body]
fn locked_driver<'a, 'b>(guard: &'a mut MutexGuard<'b, VGADriver>) -> (driver: &'a mut VGADriver)
    ensures
        driver@ == held(*old(guard)),
        final(driver)@ == held(*final(guard)),
{
    &mut **guard
}

/// Writes `s` to the driver behind a held lock, as
/// [`VGADriver::write_string`] writes it. The lock stays held.
pub fn write_held(guard: &mut MutexGuard<'_, VGADriver>, s: &str)
    ensures
        held(*final(guard)) == held(*old(guard)).write_bytes(s.spec_bytes()),
        held(*final(guard)).attr == held(*old(guard)).attr,
        held(*old(guard)).wf(),
        held(*final(guard)).wf(),
{
    let driver = locked_driver(guard);
    driver.write_string(s);
}

/// Writes `s` through a lock attempt that has been made: with the guard in
/// hand the text goes to the display and the guard is handed back; without
/// it nothing is written.
pub fn print_guarded<'a>(guard: Option<MutexGuard<'a, VGADriver>>, s: &str) -> (after: Option<
    MutexGuard<'a, VGADriver>,
>)
    ensures
        guard is None ==> after is None,
        guard matches Some(before) ==> {
            &&& after matches Some(now)
            &&& held(now) == held(before).write_bytes(s.spec_bytes())
            &&& held(now).attr == held(before).attr
            &&& held(before).wf()
            &&& held(now).wf()
        },
{
    match guard {
        Some(mut guard) => {
            write_held(&mut guard, s);
            Some(guard)
        },
        None => None,
    }
}

/// Whether `now` is what a well-formed display shows once `bytes` are
/// written to it.
pub open spec fn written_to(now: Screen, bytes: Seq<u8>) -> bool {
    exists|before: Screen|
        before.wf() && before.attr == now.attr && now == #[trigger] before.write_bytes(bytes)
}

/// Writes `s` to the shared display if one attempt gets the lock.
///
/// The lock is tried once and never waited for, so a fault handler that
/// prints while the faulting code holds the lock returns instead of spinning
/// forever. Without the lock nothing is written and `None` comes back. With
/// it, the guard comes back: the display behind it is a well-formed display
/// with `s` written to it.
pub fn try_print<'a>(writer: &'a Mutex<VGADriver, Spin>, s: &str) -> (after: Option<
    MutexGuard<'a, VGADriver>,
>)
    ensures
        after matches Some(now) ==> held(now).wf() && written_to(held(now), s.spec_bytes()),
{
    print_guarded(try_lock(writer), s)
}

/// Writes `s` to the shared display, trying the lock up to `attempts` times.
///
/// The first attempt that gets the lock writes `s` once and hands the guard
/// back: the display behind it is a well-formed display with `s` written to
/// it. When no attempt gets the lock, or none is allowed, nothing is written
/// and `None` comes back.
pub fn _print<'a>(writer: &'a Mutex<VGADriver, Spin>, s: &str, attempts: usize) -> (after: Option<
    MutexGuard<'a, VGADriver>,
>)
    ensures
        attempts == 0 ==> after is None,
        after matches Some(now) ==> held(now).wf() && written_to(held(now), s.spec_bytes()),
{
    let mut left: usize = attempts;
    while left > 0
        invariant
            left <= attempts,
        decreases left,
    {
        let after = try_print(writer, s);
        if after.is_some() {
            return after;
        }
        left -= 1;
    }
    None
}

} // verus!
