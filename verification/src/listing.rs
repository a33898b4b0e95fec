//! The arithmetic of the package and booking operations: the window of a
//! listing and the amount of a booking.

use vstd::prelude::*;

verus! {

/// How many packages a listing returns where the request names no limit.
pub const DEFAULT_PAGE_LIMIT: i32 = 20;

/// The most packages that a listing returns.
pub const MAX_PAGE_LIMIT: i32 = 100;

/// The limit of a listing: the requested one, or the default, and never
/// more than the maximum.
pub open spec fn clamped_limit(limit: Option<i32>) -> int {
    let asked = match limit {
        Some(n) => n,
        None => DEFAULT_PAGE_LIMIT,
    };
    if asked > MAX_PAGE_LIMIT {
        MAX_PAGE_LIMIT as int
    } else {
        asked as int
    }
}

/// The window of a listing as the store takes it: limit and offset. The
/// offset is the requested one, or zero.
pub fn page_window(limit: Option<i32>, offset: Option<i32>) -> (r: (i64, i64))
    ensures
        r.0 == clamped_limit(limit),
        r.0 <= MAX_PAGE_LIMIT,
        r.1 == (match offset {
            Some(n) => n as int,
            None => 0,
        }),
{
    let asked: i32 = match limit {
        Some(n) => n,
        None => DEFAULT_PAGE_LIMIT,
    };
    let limit: i32 = if asked > MAX_PAGE_LIMIT {
        MAX_PAGE_LIMIT
    } else {
        asked
    };
    let offset: i32 = match offset {
        Some(n) => n,
        None => 0,
    };
    (limit as i64, offset as i64)
}

/// The amount of a booking: the package's price for each person. `None`
/// where the product is not an `i32`.
pub fn booking_total(price: i32, number_of_people: i32) -> (r: Option<i32>)
    ensures
        match r {
            Some(total) => total == price * number_of_people,
            None => price * number_of_people < i32::MIN || price * number_of_people > i32::MAX,
        },
{
    assert(-0x4000_0000_0000_0000 <= price * number_of_people <= 0x4000_0000_0000_0000)
        by (nonlinear_arith)
        requires
            -0x8000_0000 <= price <= 0x8000_0000,
            -0x8000_0000 <= number_of_people <= 0x8000_0000,
    ;
    let wide: i64 = (price as i64) * (number_of_people as i64);
    if wide < i32::MIN as i64 || wide > i32::MAX as i64 {
        None
    } else {
        Some(wide as i32)
    }
}

} // verus!
