//! Resource measurement: point-in-time snapshots of the wall clock and of the
//! machine's memory use, and the pure arithmetic that turns two snapshots into
//! a delta. The memory figure is system-wide — total minus free, as the
//! platform reports them — not this process's resident set, which the platform
//! interface used here does not expose.

use vstd::prelude::*;
use crate::BenchError;

verus! {

#[verifier::external_type_specification]
#[verifier::external_body]
pub struct ExInstant(std::time::Instant);

#[verifier::external_type_specification]
#[verifier::external_body]
pub struct ExSysInfoError(sys_info::Error);

/// A point-in-time capture: nanoseconds of wall-clock time since some fixed
/// epoch, and the system's used memory in kilobytes at that moment.
#[derive(Clone, Copy)]
pub struct ResourceSnapshot {
    pub wall_nanos: u128,
    pub system_used_kb: u64,
}

/// What changed between two snapshots: elapsed wall-clock nanoseconds (never
/// negative; clamped to zero if the snapshots are given out of order) and the
/// exact change in used memory, in kilobytes (negative when memory was freed).
#[derive(Clone, Copy)]
pub struct ResourceDelta {
    pub elapsed_nanos: u128,
    pub system_memory_delta_kb: i128,
}

/// Used memory from a total/free pair, both in kilobytes: `total - free`,
/// clamped to zero should the platform ever report more free than total.
pub fn memory_used_kb(total_kb: u64, free_kb: u64) -> (used: u64)
    ensures
        used == if free_kb <= total_kb { total_kb - free_kb } else { 0 },
{
    if free_kb <= total_kb {
        total_kb - free_kb
    } else {
        0
    }
}

/// The pure diff of two snapshots: elapsed time is `end - start` on the wall
/// clock, clamped to zero; the memory delta is exactly `end - start`, which
/// always fits in an `i128`.
pub fn snapshot_diff(start: &ResourceSnapshot, end: &ResourceSnapshot) -> (d: ResourceDelta)
    ensures
        d.elapsed_nanos == if start.wall_nanos <= end.wall_nanos {
            end.wall_nanos - start.wall_nanos
        } else {
            0
        },
        d.system_memory_delta_kb == end.system_used_kb - start.system_used_kb,
{
    let elapsed_nanos: u128 = if start.wall_nanos <= end.wall_nanos {
        end.wall_nanos - start.wall_nanos
    } else {
        0
    };
    let system_memory_delta_kb: i128 = end.system_used_kb as i128 - start.system_used_kb as i128;
    ResourceDelta { elapsed_nanos, system_memory_delta_kb }
}

/// Relies on std::time::Instant::now: a fresh reading of the monotonic clock,
/// to serve as the epoch that later snapshots are measured against.
#[verifier::external_body]
pub(crate) fn clock_start() -> (t: std::time::Instant) {
    std::time::Instant::now()
}

/// Relies on std::time::Instant::elapsed (and Duration::as_nanos to convert
/// its result): the nanoseconds the monotonic clock has advanced since the
/// given instant.
#[verifier::external_body]
fn nanos_since(t: &std::time::Instant) -> (r: u128) {
    t.elapsed().as_nanos()
}

/// Relies on sys_info::mem_info: the system's total and free memory in
/// kilobytes, as the platform reports them at this moment; fails where the
/// platform cannot supply them.
#[verifier::external_body]
fn system_memory_kb() -> (r: Result<(u64, u64), sys_info::Error>) {
    sys_info::mem_info().map(|m| (m.total, m.free))
}

/// Relies on sys_info::Error's `Display` impl: one human-readable line
/// describing the sampling failure.
#[verifier::external_body]
fn resource_error_text(e: &sys_info::Error) -> (r: String) {
    e.to_string()
}

/// Captures a snapshot: the wall clock read against the given epoch, and the
/// system's used memory right now. Fails with `Resource` — and with no other
/// error — where the platform cannot report memory.
pub fn sample_snapshot(epoch: &std::time::Instant) -> (r: Result<ResourceSnapshot, BenchError>)
    ensures
        r matches Err(e) ==> e is Resource,
{
    let wall_nanos = nanos_since(epoch);
    match system_memory_kb() {
        Ok((total_kb, free_kb)) => Ok(
            ResourceSnapshot { wall_nanos, system_used_kb: memory_used_kb(total_kb, free_kb) },
        ),
        Err(e) => Err(BenchError::Resource(resource_error_text(&e))),
    }
}

} // verus!
