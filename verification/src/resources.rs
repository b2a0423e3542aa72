//! Supported guest sizes, shared by admission, placement and both host implementations.
//! Host overhead and aggregate capacity are separate from these per-guest bounds.
use vstd::prelude::*;

verus! {

pub const MIN_VCPU: i32 = 1;

pub const MAX_VCPU: i32 = 4;

pub const MIN_MEMORY_MIB: i64 = 128;

pub const MAX_MEMORY_MIB: i64 = 8192;

pub const MIN_DISK_MIB: i64 = 64;

pub const MAX_DISK_MIB: i64 = 65536;

/// A guest size within every per-guest bound.
pub open spec fn size_supported(vcpu: int, memory_mib: int, disk_mib: int) -> bool {
    &&& MIN_VCPU <= vcpu <= MAX_VCPU
    &&& MIN_MEMORY_MIB <= memory_mib <= MAX_MEMORY_MIB
    &&& MIN_DISK_MIB <= disk_mib <= MAX_DISK_MIB
}

/// i128 represents both signed database/API inputs and unsigned wire inputs
/// without wrapping negative values or truncating oversized requests.
#[must_use]
pub fn supported(vcpu: i128, memory_mib: i128, disk_mib: i128) -> (r: bool)
    ensures
        r == size_supported(vcpu as int, memory_mib as int, disk_mib as int),
{
    MIN_VCPU as i128 <= vcpu && vcpu <= MAX_VCPU as i128 && MIN_MEMORY_MIB as i128 <= memory_mib && memory_mib
        <= MAX_MEMORY_MIB as i128 && MIN_DISK_MIB as i128 <= disk_mib && disk_mib <= MAX_DISK_MIB as i128
}

} // verus!
