use rl::fixed::{
    HALF_PI_M, PI_M, SCALE, clamp, div_pos, fx_cos, fx_div, fx_mul, fx_sin, isqrt, rem_pos, sat,
};

#[test]
fn div_pos_rounds_towards_minus_infinity() {
    assert_eq!(div_pos(7, 2), 3);
    assert_eq!(div_pos(-7, 2), -4);
    assert_eq!(div_pos(-1, 1000), -1);
    assert_eq!(div_pos(999, 1000), 0);
}

#[test]
fn rem_pos_is_nonnegative() {
    assert_eq!(rem_pos(7, 5), 2);
    assert_eq!(rem_pos(-7, 5), 3);
    assert_eq!(rem_pos(-262, 6284), 6022);
}

#[test]
fn fx_mul_scales_products() {
    assert_eq!(fx_mul(2000, 3000), 6000);
    assert_eq!(fx_mul(1500, 1500), 2250);
    assert_eq!(fx_mul(-1500, 1500), -2250);
    assert_eq!(fx_mul(1, 1), 0);
}

#[test]
fn fx_div_scales_quotients() {
    assert_eq!(fx_div(6000, 2), 3000000);
    assert_eq!(fx_div(1, 3), 333);
}

#[test]
fn clamp_and_sat_bound_values() {
    assert_eq!(clamp(15, 0, 9), 9);
    assert_eq!(clamp(-3, 0, 9), 0);
    assert_eq!(clamp(5, 0, 9), 5);
    assert_eq!(sat(2_000_000_000), 1_000_000_000);
    assert_eq!(sat(-2_000_000_000), -1_000_000_000);
    assert_eq!(sat(42), 42);
}

#[test]
fn sine_is_exact_at_quarter_turns() {
    assert_eq!(fx_sin(0), 0);
    assert_eq!(fx_sin(HALF_PI_M), SCALE);
    assert_eq!(fx_sin(PI_M), 0);
    assert_eq!(fx_sin(PI_M + HALF_PI_M), -SCALE);
    assert_eq!(fx_cos(0), SCALE);
    assert_eq!(fx_cos(PI_M), -SCALE);
}

#[test]
fn sine_is_periodic_and_odd_on_the_circle() {
    assert_eq!(fx_sin(700), fx_sin(700 + 6284));
    assert_eq!(fx_sin(-700), -fx_sin(700));
}

#[test]
fn isqrt_exact_values() {
    assert_eq!(isqrt(0), 0);
    assert_eq!(isqrt(1), 1);
    assert_eq!(isqrt(3), 1);
    assert_eq!(isqrt(4), 2);
    assert_eq!(isqrt(1_000_000), 1000);
    assert_eq!(isqrt(999_999), 999);
}
