use vstd::prelude::*;

use crate::entities::types::{LimitsType, MemType, TableType};

verus! {

/// Limits are valid within the range `k` when the minimum, and the maximum if any,
/// are at most `k`, and the minimum is at most the maximum.
pub open spec fn limits_valid(limits: LimitsType, k: nat) -> bool {
    &&& limits.min.0 <= k
    &&& match limits.max {
        Some(max) => max.0 <= k && limits.min.0 <= max.0,
        None => true,
    }
}

/// The largest number of pages a memory may have.
pub open spec fn max_pages() -> nat {
    0x1_0000
}

pub fn is_limits_valid(limits: &LimitsType, k: u64) -> (r: bool)
    ensures
        r == limits_valid(*limits, k as nat),
{
    if limits.min.0 as u64 > k {
        return false;
    }
    match limits.max {
        Some(max) => max.0 as u64 <= k && limits.min.0 <= max.0,
        None => true,
    }
}

/// A table type is valid when its limits are valid within 2^32 - 1.
pub fn is_table_type_valid(table_type: &TableType) -> (r: bool)
    ensures
        r == limits_valid(table_type.limits, 0xFFFF_FFFF),
{
    is_limits_valid(&table_type.limits, 0xFFFF_FFFF)
}

/// A memory type is valid when its limits are valid within 2^16 pages.
pub fn is_memory_type_valid(mem_type: &MemType) -> (r: bool)
    ensures
        r == limits_valid(mem_type.limits, max_pages()),
{
    is_limits_valid(&mem_type.limits, 0x1_0000)
}

} // verus!
