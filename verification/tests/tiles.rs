use realcugan::tiles::{
    plan_tile_size, plan_tile_size_monotone, CPU_DEFAULT_TILE_SIZE, CPU_FALLBACK,
};

#[test]
fn cpu_fallback_plans_default_for_every_scale() {
    for scale in [2u32, 3, 4] {
        assert_eq!(plan_tile_size(CPU_FALLBACK, scale, 0, 0), 400);
        assert_eq!(plan_tile_size(CPU_FALLBACK, scale, 0, 99999), 400);
    }
    assert_eq!(CPU_DEFAULT_TILE_SIZE, 400);
}

#[test]
fn explicit_request_always_wins() {
    assert_eq!(plan_tile_size(CPU_FALLBACK, 2, 123, 0), 123);
    assert_eq!(plan_tile_size(0, 3, 64, 5000), 64);
    assert_eq!(plan_tile_size(7, 4, 1, 0), 1);
    assert_eq!(plan_tile_size_monotone(0, 3, 64, 5000), 64);
}

#[test]
fn scale2_budget_buckets() {
    assert_eq!(plan_tile_size(0, 2, 0, 1301), 400);
    assert_eq!(plan_tile_size(0, 2, 0, 801), 300);
    assert_eq!(plan_tile_size(0, 2, 0, 201), 100);
    assert_eq!(plan_tile_size(0, 2, 0, 50), 32);
}

#[test]
fn scale2_budget_boundaries() {
    assert_eq!(plan_tile_size(0, 2, 0, 1300), 300);
    assert_eq!(plan_tile_size(0, 2, 0, 800), 100);
    assert_eq!(plan_tile_size(0, 2, 0, 200), 32);
    assert_eq!(plan_tile_size(0, 2, 0, 0), 32);
}

#[test]
fn scale3_compatible_order_shadows_large_buckets() {
    // Any budget above 330 takes the first branch, even one that a
    // descending table would place in the 300 bucket.
    assert_eq!(plan_tile_size(0, 3, 0, 2000), 400);
    assert_eq!(plan_tile_size(0, 3, 0, 1000), 400);
    assert_eq!(plan_tile_size(0, 3, 0, 331), 400);
    assert_eq!(plan_tile_size(0, 3, 0, 330), 100);
    assert_eq!(plan_tile_size(0, 3, 0, 321), 100);
    assert_eq!(plan_tile_size(0, 3, 0, 320), 32);
}

#[test]
fn scale3_monotone_order_uses_all_buckets() {
    assert_eq!(plan_tile_size_monotone(0, 3, 0, 2000), 400);
    assert_eq!(plan_tile_size_monotone(0, 3, 0, 1000), 300);
    assert_eq!(plan_tile_size_monotone(0, 3, 0, 400), 200);
    assert_eq!(plan_tile_size_monotone(0, 3, 0, 325), 100);
    assert_eq!(plan_tile_size_monotone(0, 3, 0, 100), 32);
}

#[test]
fn scale4_budget_buckets() {
    assert_eq!(plan_tile_size(0, 4, 0, 1691), 400);
    assert_eq!(plan_tile_size(0, 4, 0, 1690), 300);
    assert_eq!(plan_tile_size(0, 4, 0, 981), 300);
    assert_eq!(plan_tile_size(0, 4, 0, 980), 200);
    assert_eq!(plan_tile_size(0, 4, 0, 531), 200);
    assert_eq!(plan_tile_size(0, 4, 0, 530), 100);
    assert_eq!(plan_tile_size(0, 4, 0, 241), 100);
    assert_eq!(plan_tile_size(0, 4, 0, 240), 32);
    // Scales 2 and 4 are identical under both threshold orders.
    for budget in [0u32, 240, 241, 530, 531, 980, 981, 1690, 1691, 4000] {
        assert_eq!(
            plan_tile_size(0, 4, 0, budget),
            plan_tile_size_monotone(0, 4, 0, budget)
        );
        assert_eq!(
            plan_tile_size(0, 2, 0, budget),
            plan_tile_size_monotone(0, 2, 0, budget)
        );
    }
}
