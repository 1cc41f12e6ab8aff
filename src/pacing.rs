use vstd::prelude::*;

verus! {

/// The snake's length held to `10..=20`.
pub open spec fn clamped_length(length: int) -> int {
    if length < 10 {
        10
    } else if length > 20 {
        20
    } else {
        length
    }
}

/// How long a tick waits for input, in milliseconds: `1000` divided by the
/// snake's length held to `10..=20`, so the game speeds up as the snake grows.
pub fn frame_millis(length: usize) -> (ms: u64)
    ensures
        ms == 1000int / clamped_length(length as int),
        length <= 10 ==> ms == 100,
        length >= 20 ==> ms == 50,
        10 < length < 20 ==> ms == 1000int / (length as int),
{
    let clamped: u64 = if length < 10 {
        10
    } else if length > 20 {
        20
    } else {
        length as u64
    };
    assert(1000int / 10 == 100 && 1000int / 20 == 50) by (nonlinear_arith);
    1000 / clamped
}

} // verus!
