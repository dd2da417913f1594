use vstd::prelude::*;

verus! {

/// Used physical memory in KB: total less what is available when the
/// available figure is known and smaller than the total, else total less
/// free when free is smaller, else 0.
pub fn mem_used_kb(total: u64, free: u64, available: u64) -> (r: u64)
    ensures
        r == (if 0 < available < total {
            total - available
        } else if free < total {
            total - free
        } else {
            0
        }),
        r <= total,
{
    if available > 0 && available < total {
        total - available
    } else if free < total {
        total - free
    } else {
        0
    }
}

/// Used swap in KB: total less free when free is smaller, else 0.
pub fn swap_used_kb(total: u64, free: u64) -> (r: u64)
    ensures
        r == (if free < total { total - free } else { 0 }),
        r <= total,
{
    if free < total {
        total - free
    } else {
        0
    }
}

} // verus!
