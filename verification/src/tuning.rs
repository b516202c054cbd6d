use vstd::prelude::*;

verus! {

/// The frequency, in centihertz (hundredths of a hertz), assigned to each
/// MIDI note number by twelve-tone equal temperament with A4 (note 69) at
/// 440 Hz: `100 * 440 * 2^((note - 69) / 12)`, rounded to the nearest
/// centihertz.  Note numbers outside the MIDI range (128 and above) map to 0.
pub open spec fn note_centihertz(note: u8) -> u32 {
    match note {
        0 => 818,
        1 => 866,
        2 => 918,
        3 => 972,
        4 => 1030,
        5 => 1091,
        6 => 1156,
        7 => 1225,
        8 => 1298,
        9 => 1375,
        10 => 1457,
        11 => 1543,
        12 => 1635,
        13 => 1732,
        14 => 1835,
        15 => 1945,
        16 => 2060,
        17 => 2183,
        18 => 2312,
        19 => 2450,
        20 => 2596,
        21 => 2750,
        22 => 2914,
        23 => 3087,
        24 => 3270,
        25 => 3465,
        26 => 3671,
        27 => 3889,
        28 => 4120,
        29 => 4365,
        30 => 4625,
        31 => 4900,
        32 => 5191,
        33 => 5500,
        34 => 5827,
        35 => 6174,
        36 => 6541,
        37 => 6930,
        38 => 7342,
        39 => 7778,
        40 => 8241,
        41 => 8731,
        42 => 9250,
        43 => 9800,
        44 => 10383,
        45 => 11000,
        46 => 11654,
        47 => 12347,
        48 => 13081,
        49 => 13859,
        50 => 14683,
        51 => 15556,
        52 => 16481,
        53 => 17461,
        54 => 18500,
        55 => 19600,
        56 => 20765,
        57 => 22000,
        58 => 23308,
        59 => 24694,
        60 => 26163,
        61 => 27718,
        62 => 29366,
        63 => 31113,
        64 => 32963,
        65 => 34923,
        66 => 36999,
        67 => 39200,
        68 => 41530,
        69 => 44000,
        70 => 46616,
        71 => 49388,
        72 => 52325,
        73 => 55437,
        74 => 58733,
        75 => 62225,
        76 => 65926,
        77 => 69846,
        78 => 73999,
        79 => 78399,
        80 => 83061,
        81 => 88000,
        82 => 93233,
        83 => 98777,
        84 => 104650,
        85 => 110873,
        86 => 117466,
        87 => 124451,
        88 => 131851,
        89 => 139691,
        90 => 147998,
        91 => 156798,
        92 => 166122,
        93 => 176000,
        94 => 186466,
        95 => 197553,
        96 => 209300,
        97 => 221746,
        98 => 234932,
        99 => 248902,
        100 => 263702,
        101 => 279383,
        102 => 295996,
        103 => 313596,
        104 => 332244,
        105 => 352000,
        106 => 372931,
        107 => 395107,
        108 => 418601,
        109 => 443492,
        110 => 469864,
        111 => 497803,
        112 => 527404,
        113 => 558765,
        114 => 591991,
        115 => 627193,
        116 => 664488,
        117 => 704000,
        118 => 745862,
        119 => 790213,
        120 => 837202,
        121 => 886984,
        122 => 939727,
        123 => 995606,
        124 => 1054808,
        125 => 1117530,
        126 => 1183982,
        127 => 1254385,
        _ => 0,
    }
}

/// The audible frequency of a MIDI note, in centihertz.
///
/// Every MIDI note maps to a positive frequency no higher than the highest
/// frequency the synthesizer accepts, so the result is always a valid setting
/// for the shared control cell and the oscillator.
pub fn play_note(note: u8) -> (r: u32)
    requires
        note < 128,
    ensures
        r == note_centihertz(note),
        818 <= r <= 1254385,
{
    match note {
        0 => 818,
        1 => 866,
        2 => 918,
        3 => 972,
        4 => 1030,
        5 => 1091,
        6 => 1156,
        7 => 1225,
        8 => 1298,
        9 => 1375,
        10 => 1457,
        11 => 1543,
        12 => 1635,
        13 => 1732,
        14 => 1835,
        15 => 1945,
        16 => 2060,
        17 => 2183,
        18 => 2312,
        19 => 2450,
        20 => 2596,
        21 => 2750,
        22 => 2914,
        23 => 3087,
        24 => 3270,
        25 => 3465,
        26 => 3671,
        27 => 3889,
        28 => 4120,
        29 => 4365,
        30 => 4625,
        31 => 4900,
        32 => 5191,
        33 => 5500,
        34 => 5827,
        35 => 6174,
        36 => 6541,
        37 => 6930,
        38 => 7342,
        39 => 7778,
        40 => 8241,
        41 => 8731,
        42 => 9250,
        43 => 9800,
        44 => 10383,
        45 => 11000,
        46 => 11654,
        47 => 12347,
        48 => 13081,
        49 => 13859,
        50 => 14683,
        51 => 15556,
        52 => 16481,
        53 => 17461,
        54 => 18500,
        55 => 19600,
        56 => 20765,
        57 => 22000,
        58 => 23308,
        59 => 24694,
        60 => 26163,
        61 => 27718,
        62 => 29366,
        63 => 31113,
        64 => 32963,
        65 => 34923,
        66 => 36999,
        67 => 39200,
        68 => 41530,
        69 => 44000,
        70 => 46616,
        71 => 49388,
        72 => 52325,
        73 => 55437,
        74 => 58733,
        75 => 62225,
        76 => 65926,
        77 => 69846,
        78 => 73999,
        79 => 78399,
        80 => 83061,
        81 => 88000,
        82 => 93233,
        83 => 98777,
        84 => 104650,
        85 => 110873,
        86 => 117466,
        87 => 124451,
        88 => 131851,
        89 => 139691,
        90 => 147998,
        91 => 156798,
        92 => 166122,
        93 => 176000,
        94 => 186466,
        95 => 197553,
        96 => 209300,
        97 => 221746,
        98 => 234932,
        99 => 248902,
        100 => 263702,
        101 => 279383,
        102 => 295996,
        103 => 313596,
        104 => 332244,
        105 => 352000,
        106 => 372931,
        107 => 395107,
        108 => 418601,
        109 => 443492,
        110 => 469864,
        111 => 497803,
        112 => 527404,
        113 => 558765,
        114 => 591991,
        115 => 627193,
        116 => 664488,
        117 => 704000,
        118 => 745862,
        119 => 790213,
        120 => 837202,
        121 => 886984,
        122 => 939727,
        123 => 995606,
        124 => 1054808,
        125 => 1117530,
        126 => 1183982,
        127 => 1254385,
        _ => 0,
    }
}

} // verus!
