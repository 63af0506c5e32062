use vstd::prelude::*;

verus! {

/// Step-size magnitude of the adaptive quantizer at a given position in its
/// table. The table has 89 entries, at positions 0 through 88; any position
/// past the end is mapped to the largest entry.
pub open spec fn spec_step_size(i: int) -> int {
    if i == 0 { 7 }
    else if i == 1 { 8 }
    else if i == 2 { 9 }
    else if i == 3 { 10 }
    else if i == 4 { 11 }
    else if i == 5 { 12 }
    else if i == 6 { 13 }
    else if i == 7 { 14 }
    else if i == 8 { 16 }
    else if i == 9 { 17 }
    else if i == 10 { 19 }
    else if i == 11 { 21 }
    else if i == 12 { 23 }
    else if i == 13 { 25 }
    else if i == 14 { 28 }
    else if i == 15 { 31 }
    else if i == 16 { 34 }
    else if i == 17 { 37 }
    else if i == 18 { 41 }
    else if i == 19 { 45 }
    else if i == 20 { 50 }
    else if i == 21 { 55 }
    else if i == 22 { 60 }
    else if i == 23 { 66 }
    else if i == 24 { 73 }
    else if i == 25 { 80 }
    else if i == 26 { 88 }
    else if i == 27 { 97 }
    else if i == 28 { 107 }
    else if i == 29 { 118 }
    else if i == 30 { 130 }
    else if i == 31 { 143 }
    else if i == 32 { 157 }
    else if i == 33 { 173 }
    else if i == 34 { 190 }
    else if i == 35 { 209 }
    else if i == 36 { 230 }
    else if i == 37 { 253 }
    else if i == 38 { 279 }
    else if i == 39 { 307 }
    else if i == 40 { 337 }
    else if i == 41 { 371 }
    else if i == 42 { 408 }
    else if i == 43 { 449 }
    else if i == 44 { 494 }
    else if i == 45 { 544 }
    else if i == 46 { 598 }
    else if i == 47 { 658 }
    else if i == 48 { 724 }
    else if i == 49 { 796 }
    else if i == 50 { 876 }
    else if i == 51 { 963 }
    else if i == 52 { 1060 }
    else if i == 53 { 1166 }
    else if i == 54 { 1282 }
    else if i == 55 { 1411 }
    else if i == 56 { 1552 }
    else if i == 57 { 1707 }
    else if i == 58 { 1878 }
    else if i == 59 { 2066 }
    else if i == 60 { 2272 }
    else if i == 61 { 2499 }
    else if i == 62 { 2749 }
    else if i == 63 { 3024 }
    else if i == 64 { 3327 }
    else if i == 65 { 3660 }
    else if i == 66 { 4026 }
    else if i == 67 { 4428 }
    else if i == 68 { 4871 }
    else if i == 69 { 5358 }
    else if i == 70 { 5894 }
    else if i == 71 { 6484 }
    else if i == 72 { 7132 }
    else if i == 73 { 7845 }
    else if i == 74 { 8630 }
    else if i == 75 { 9493 }
    else if i == 76 { 10442 }
    else if i == 77 { 11487 }
    else if i == 78 { 12635 }
    else if i == 79 { 13899 }
    else if i == 80 { 15289 }
    else if i == 81 { 16818 }
    else if i == 82 { 18500 }
    else if i == 83 { 20350 }
    else if i == 84 { 22385 }
    else if i == 85 { 24623 }
    else if i == 86 { 27086 }
    else if i == 87 { 29794 }
    else { 32767 }
}

/// Looks up the step-size magnitude for a step index.
pub fn step_size(i: u8) -> (s: u16)
    requires
        i <= 88,
    ensures
        s as int == spec_step_size(i as int),
        7 <= s <= 32767,
{
    match i {
        0 => 7,
        1 => 8,
        2 => 9,
        3 => 10,
        4 => 11,
        5 => 12,
        6 => 13,
        7 => 14,
        8 => 16,
        9 => 17,
        10 => 19,
        11 => 21,
        12 => 23,
        13 => 25,
        14 => 28,
        15 => 31,
        16 => 34,
        17 => 37,
        18 => 41,
        19 => 45,
        20 => 50,
        21 => 55,
        22 => 60,
        23 => 66,
        24 => 73,
        25 => 80,
        26 => 88,
        27 => 97,
        28 => 107,
        29 => 118,
        30 => 130,
        31 => 143,
        32 => 157,
        33 => 173,
        34 => 190,
        35 => 209,
        36 => 230,
        37 => 253,
        38 => 279,
        39 => 307,
        40 => 337,
        41 => 371,
        42 => 408,
        43 => 449,
        44 => 494,
        45 => 544,
        46 => 598,
        47 => 658,
        48 => 724,
        49 => 796,
        50 => 876,
        51 => 963,
        52 => 1060,
        53 => 1166,
        54 => 1282,
        55 => 1411,
        56 => 1552,
        57 => 1707,
        58 => 1878,
        59 => 2066,
        60 => 2272,
        61 => 2499,
        62 => 2749,
        63 => 3024,
        64 => 3327,
        65 => 3660,
        66 => 4026,
        67 => 4428,
        68 => 4871,
        69 => 5358,
        70 => 5894,
        71 => 6484,
        72 => 7132,
        73 => 7845,
        74 => 8630,
        75 => 9493,
        76 => 10442,
        77 => 11487,
        78 => 12635,
        79 => 13899,
        80 => 15289,
        81 => 16818,
        82 => 18500,
        83 => 20350,
        84 => 22385,
        85 => 24623,
        86 => 27086,
        87 => 29794,
        _ => 32767,
    }
}

/// Signed step-index delta for a 4-bit code. The delta depends only on the
/// code's three magnitude bits, so the table repeats with period 8; any value
/// past 15 is mapped to the last entry.
pub open spec fn spec_index_adjust(c: int) -> int {
    if c == 0 { -1 }
    else if c == 1 { -1 }
    else if c == 2 { -1 }
    else if c == 3 { -1 }
    else if c == 4 { 2 }
    else if c == 5 { 4 }
    else if c == 6 { 6 }
    else if c == 7 { 8 }
    else if c == 8 { -1 }
    else if c == 9 { -1 }
    else if c == 10 { -1 }
    else if c == 11 { -1 }
    else if c == 12 { 2 }
    else if c == 13 { 4 }
    else if c == 14 { 6 }
    else { 8 }
}

/// Looks up the step-index delta for a code.
pub fn index_adjust(code: u8) -> (d: i8)
    requires
        code < 16,
    ensures
        d as int == spec_index_adjust(code as int),
        -1 <= d <= 8,
{
    match code {
        0 => -1,
        1 => -1,
        2 => -1,
        3 => -1,
        4 => 2,
        5 => 4,
        6 => 6,
        7 => 8,
        8 => -1,
        9 => -1,
        10 => -1,
        11 => -1,
        12 => 2,
        13 => 4,
        14 => 6,
        _ => 8,
    }
}

/// The quantizer step-size table is monotonic: its entries never decrease as
/// the step index grows.
pub proof fn lemma_step_table_monotonic()
    ensures
        forall|i: int| 0 <= i < 88 ==> #[trigger] spec_step_size(i) <= spec_step_size(i + 1),
{
}

} // verus!
