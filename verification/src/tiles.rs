//! Resource-budget tile planner.
//!
//! Before the native up-scaling engine is constructed, a tile size has to be
//! chosen: larger tiles amortise per-tile overhead, smaller tiles bound the
//! transient GPU memory a single tile needs.  The engine reports a heap
//! budget (in MB) per GPU device, and the planner classifies that budget
//! into one of a few discrete tile sizes through a per-scale step table.
//! The thresholds are engine-specific constants, not a tunable cost model.

use vstd::prelude::*;

verus! {

/// Device selector meaning "run on the CPU, not on any GPU".
pub const CPU_FALLBACK: i32 = -1;

/// Tile size used whenever the engine runs on the CPU fallback device:
/// a throughput/footprint compromise, not a memory-correctness bound.
pub const CPU_DEFAULT_TILE_SIZE: u32 = 400;

/// The tile size the step table assigns to `heap_budget` (in MB) for a
/// given upscale factor, in the threshold order the wrapped engine was
/// tuned against.
///
/// For scale 3 the thresholds are deliberately evaluated in a
/// non-monotone order (`> 330` is tested before `> 1900`), which the
/// engine-compatible planner preserves; see
/// [`lemma_scale3_table_collapses`] for the consequence that every budget
/// above 330 selects tile size 400.  [`tile_for_budget_monotone`] is the
/// descending-threshold alternative.
pub open spec fn tile_for_budget(scale: u32, heap_budget: u32) -> u32 {
    if scale == 2 {
        if heap_budget > 1300 {
            400
        } else if heap_budget > 800 {
            300
        } else if heap_budget > 200 {
            100
        } else {
            32
        }
    } else if scale == 3 {
        if heap_budget > 330 {
            400
        } else if heap_budget > 1900 {
            300
        } else if heap_budget > 950 {
            200
        } else if heap_budget > 320 {
            100
        } else {
            32
        }
    } else if scale == 4 {
        if heap_budget > 1690 {
            400
        } else if heap_budget > 980 {
            300
        } else if heap_budget > 530 {
            200
        } else if heap_budget > 240 {
            100
        } else {
            32
        }
    } else {
        32
    }
}

/// The tile size assigned to `heap_budget` when every scale uses strictly
/// descending thresholds.  Scales 2 and 4 agree with [`tile_for_budget`];
/// scale 3 differs for budgets above 330 that do not exceed 1900.
pub open spec fn tile_for_budget_monotone(scale: u32, heap_budget: u32) -> u32 {
    if scale == 3 {
        if heap_budget > 1900 {
            400
        } else if heap_budget > 950 {
            300
        } else if heap_budget > 330 {
            200
        } else if heap_budget > 320 {
            100
        } else {
            32
        }
    } else {
        tile_for_budget(scale, heap_budget)
    }
}

/// What `plan_tile_size` returns: the explicit request when there is one,
/// the CPU default on the CPU fallback device, and otherwise the step
/// table's classification of the device's heap budget.
pub open spec fn spec_plan_tile_size(
    device: i32,
    scale: u32,
    requested_tile_size: u32,
    heap_budget: u32,
) -> u32 {
    if requested_tile_size != 0 {
        requested_tile_size
    } else if device == CPU_FALLBACK {
        CPU_DEFAULT_TILE_SIZE
    } else {
        tile_for_budget(scale, heap_budget)
    }
}

/// Chooses the tile size the engine will be constructed with.
///
/// `heap_budget` is the engine's heap-budget report (in MB) for `device`;
/// it is only consulted when no explicit tile size was requested and
/// `device` is a GPU.  An explicit `requested_tile_size` always wins; the
/// CPU fallback device always plans the fixed CPU default.
pub fn plan_tile_size(device: i32, scale: u32, requested_tile_size: u32, heap_budget: u32) -> (r:
    u32)
    ensures
        r == spec_plan_tile_size(device, scale, requested_tile_size, heap_budget),
        requested_tile_size != 0 ==> r == requested_tile_size,
        requested_tile_size == 0 && device == CPU_FALLBACK ==> r == CPU_DEFAULT_TILE_SIZE,
        requested_tile_size == 0 && device != CPU_FALLBACK ==> r == tile_for_budget(
            scale,
            heap_budget,
        ),
{
    if requested_tile_size != 0 {
        requested_tile_size
    } else if device == CPU_FALLBACK {
        CPU_DEFAULT_TILE_SIZE
    } else if scale == 2 {
        if heap_budget > 1300 {
            400
        } else if heap_budget > 800 {
            300
        } else if heap_budget > 200 {
            100
        } else {
            32
        }
    } else if scale == 3 {
        if heap_budget > 330 {
            400
        } else if heap_budget > 1900 {
            300
        } else if heap_budget > 950 {
            200
        } else if heap_budget > 320 {
            100
        } else {
            32
        }
    } else if scale == 4 {
        if heap_budget > 1690 {
            400
        } else if heap_budget > 980 {
            300
        } else if heap_budget > 530 {
            200
        } else if heap_budget > 240 {
            100
        } else {
            32
        }
    } else {
        32
    }
}

/// As [`plan_tile_size`], but with the strictly descending scale-3
/// thresholds instead of the engine-compatible evaluation order.
pub fn plan_tile_size_monotone(
    device: i32,
    scale: u32,
    requested_tile_size: u32,
    heap_budget: u32,
) -> (r: u32)
    ensures
        requested_tile_size != 0 ==> r == requested_tile_size,
        requested_tile_size == 0 && device == CPU_FALLBACK ==> r == CPU_DEFAULT_TILE_SIZE,
        requested_tile_size == 0 && device != CPU_FALLBACK ==> r == tile_for_budget_monotone(
            scale,
            heap_budget,
        ),
{
    if requested_tile_size != 0 {
        requested_tile_size
    } else if device == CPU_FALLBACK {
        CPU_DEFAULT_TILE_SIZE
    } else if scale == 3 {
        if heap_budget > 1900 {
            400
        } else if heap_budget > 950 {
            300
        } else if heap_budget > 330 {
            200
        } else if heap_budget > 320 {
            100
        } else {
            32
        }
    } else {
        plan_tile_size(device, scale, requested_tile_size, heap_budget)
    }
}

/// Law: in the engine-compatible scale-3 table the 300 and 200 buckets are
/// unreachable — the `> 330` test shadows them — so the whole table
/// collapses to three buckets.
pub proof fn lemma_scale3_table_collapses(heap_budget: u32)
    ensures
        tile_for_budget(3, heap_budget) == if heap_budget > 330 {
            400u32
        } else if heap_budget > 320 {
            100u32
        } else {
            32u32
        },
{
}

/// Law: for every scale, a larger heap budget never plans a smaller tile
/// under the descending-threshold table.
pub proof fn lemma_monotone_table_is_monotone(scale: u32, budget_a: u32, budget_b: u32)
    requires
        budget_a <= budget_b,
    ensures
        tile_for_budget_monotone(scale, budget_a) <= tile_for_budget_monotone(scale, budget_b),
{
}

} // verus!
