use vstd::prelude::*;

verus! {

/// Largest pixel coordinate the game ever works with. Keeping every random
/// bound at or below this keeps the engine's float-scaled range draw inside
/// `[low, high)` (see `gen_range_i32`) and keeps all position arithmetic far
/// from `i32` overflow.
pub const MAX_DIM: i32 = 1000000;

/// Relies on `macroquad::rand::gen_range` (quad-rand): it scales one draw of
/// a 32-bit generator by `(high - low) / 2^32` and adds it to `low`, in
/// `f64`. For `0 <= low < high <= 1000000` the scaled offset is at least one
/// `f64` step short of `high - low`, so after truncation the result lies in
/// `[low, high)`. Nothing more is assumed of the draw: to the caller it is
/// an arbitrary value of that range.
#[verifier::external_body]
pub fn gen_range_i32(low: i32, high: i32) -> (r: i32)
    requires
        0 <= low < high <= MAX_DIM,
    ensures
        low <= r < high,
{
    macroquad::rand::gen_range(low, high)
}

} // verus!
