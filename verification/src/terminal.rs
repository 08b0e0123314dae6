//! The size of the inline popup.
use vstd::prelude::*;
use crate::settings::clamp;

verus! {

/// The popup's height for a terminal of `rows` rows: `percent` (clamped to 10..=90) of
/// the rows, at least 6 and leaving two rows free; a terminal of fewer than 8 rows is
/// used whole (at least one row).
pub open spec fn popup_height_spec(rows: u16, percent: u16) -> int {
    let p = clamp(percent as int, 10, 90);
    if rows < 8 {
        if rows == 0 {
            1
        } else {
            rows as int
        }
    } else {
        clamp(rows * p / 100, 6, rows - 2)
    }
}

/// The popup's height in rows.
pub fn popup_height(term_rows: u16, percent: u16) -> (h: u16)
    ensures
        h == popup_height_spec(term_rows, percent),
        1 <= h,
        term_rows >= 1 ==> h <= term_rows,
        term_rows >= 8 ==> 6 <= h <= term_rows - 2,
{
    let p: u32 = if percent < 10 {
        10
    } else if percent > 90 {
        90
    } else {
        percent as u32
    };
    if term_rows < 8 {
        return if term_rows == 0 { 1 } else { term_rows };
    }
    let rows32: u32 = term_rows as u32;
    assert(rows32 * p <= 65535 * 90) by (nonlinear_arith)
        requires
            rows32 <= 65535,
            p <= 90,
    ;
    let raw: u32 = rows32 * p / 100;
    assert(raw <= term_rows) by (nonlinear_arith)
        requires
            raw == rows32 * p / 100,
            rows32 == term_rows,
            p <= 90,
    ;
    let hi: u32 = term_rows as u32 - 2;
    let h: u32 = if raw < 6 {
        6
    } else if raw > hi {
        hi
    } else {
        raw
    };
    h as u16
}

} // verus!
