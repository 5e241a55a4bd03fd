//! The MIDI-note-to-frequency table: frequency in Hz, one entry per
//! semitone step of the MIDI note range, truncated to whole Hertz.

use vstd::prelude::*;

verus! {

/// Number of entries in the note-to-frequency table.
pub const NOTE_TABLE_LEN: usize = 127;

/// Frequency in Hz of MIDI note `note`, truncated to a whole number;
/// note 69 is concert-pitch A at 440 Hz.
pub open spec fn spec_note_frequency(note: int) -> int {
    if note == 0 {
        8
    } else if note == 1 {
        8
    } else if note == 2 {
        9
    } else if note == 3 {
        9
    } else if note == 4 {
        10
    } else if note == 5 {
        10
    } else if note == 6 {
        11
    } else if note == 7 {
        12
    } else if note == 8 {
        12
    } else if note == 9 {
        13
    } else if note == 10 {
        14
    } else if note == 11 {
        15
    } else if note == 12 {
        16
    } else if note == 13 {
        17
    } else if note == 14 {
        18
    } else if note == 15 {
        19
    } else if note == 16 {
        20
    } else if note == 17 {
        21
    } else if note == 18 {
        23
    } else if note == 19 {
        24
    } else if note == 20 {
        25
    } else if note == 21 {
        27
    } else if note == 22 {
        29
    } else if note == 23 {
        30
    } else if note == 24 {
        32
    } else if note == 25 {
        34
    } else if note == 26 {
        36
    } else if note == 27 {
        38
    } else if note == 28 {
        41
    } else if note == 29 {
        43
    } else if note == 30 {
        46
    } else if note == 31 {
        48
    } else if note == 32 {
        51
    } else if note == 33 {
        55
    } else if note == 34 {
        58
    } else if note == 35 {
        61
    } else if note == 36 {
        65
    } else if note == 37 {
        69
    } else if note == 38 {
        73
    } else if note == 39 {
        77
    } else if note == 40 {
        82
    } else if note == 41 {
        87
    } else if note == 42 {
        92
    } else if note == 43 {
        97
    } else if note == 44 {
        103
    } else if note == 45 {
        110
    } else if note == 46 {
        116
    } else if note == 47 {
        123
    } else if note == 48 {
        130
    } else if note == 49 {
        138
    } else if note == 50 {
        146
    } else if note == 51 {
        155
    } else if note == 52 {
        164
    } else if note == 53 {
        174
    } else if note == 54 {
        184
    } else if note == 55 {
        195
    } else if note == 56 {
        207
    } else if note == 57 {
        220
    } else if note == 58 {
        233
    } else if note == 59 {
        246
    } else if note == 60 {
        261
    } else if note == 61 {
        277
    } else if note == 62 {
        293
    } else if note == 63 {
        311
    } else if note == 64 {
        329
    } else if note == 65 {
        349
    } else if note == 66 {
        369
    } else if note == 67 {
        391
    } else if note == 68 {
        415
    } else if note == 69 {
        440
    } else if note == 70 {
        466
    } else if note == 71 {
        493
    } else if note == 72 {
        523
    } else if note == 73 {
        554
    } else if note == 74 {
        587
    } else if note == 75 {
        622
    } else if note == 76 {
        659
    } else if note == 77 {
        698
    } else if note == 78 {
        739
    } else if note == 79 {
        783
    } else if note == 80 {
        830
    } else if note == 81 {
        880
    } else if note == 82 {
        932
    } else if note == 83 {
        987
    } else if note == 84 {
        1046
    } else if note == 85 {
        1108
    } else if note == 86 {
        1174
    } else if note == 87 {
        1244
    } else if note == 88 {
        1318
    } else if note == 89 {
        1396
    } else if note == 90 {
        1479
    } else if note == 91 {
        1567
    } else if note == 92 {
        1661
    } else if note == 93 {
        1760
    } else if note == 94 {
        1864
    } else if note == 95 {
        1975
    } else if note == 96 {
        2093
    } else if note == 97 {
        2217
    } else if note == 98 {
        2349
    } else if note == 99 {
        2489
    } else if note == 100 {
        2637
    } else if note == 101 {
        2793
    } else if note == 102 {
        2959
    } else if note == 103 {
        3135
    } else if note == 104 {
        3322
    } else if note == 105 {
        3520
    } else if note == 106 {
        3729
    } else if note == 107 {
        3951
    } else if note == 108 {
        4186
    } else if note == 109 {
        4434
    } else if note == 110 {
        4698
    } else if note == 111 {
        4978
    } else if note == 112 {
        5274
    } else if note == 113 {
        5587
    } else if note == 114 {
        5919
    } else if note == 115 {
        6271
    } else if note == 116 {
        6644
    } else if note == 117 {
        7040
    } else if note == 118 {
        7458
    } else if note == 119 {
        7902
    } else if note == 120 {
        8372
    } else if note == 121 {
        8869
    } else if note == 122 {
        9397
    } else if note == 123 {
        9956
    } else if note == 124 {
        10548
    } else if note == 125 {
        11175
    } else if note == 126 {
        11839
    } else {
        0
    }
}

/// Look up the frequency of a MIDI note.
pub fn note_frequency(note: usize) -> (r: u16)
    requires
        note < NOTE_TABLE_LEN,
    ensures
        r == spec_note_frequency(note as int),
        8 <= r <= 11839,
{
    match note {
        0 => 8,
        1 => 8,
        2 => 9,
        3 => 9,
        4 => 10,
        5 => 10,
        6 => 11,
        7 => 12,
        8 => 12,
        9 => 13,
        10 => 14,
        11 => 15,
        12 => 16,
        13 => 17,
        14 => 18,
        15 => 19,
        16 => 20,
        17 => 21,
        18 => 23,
        19 => 24,
        20 => 25,
        21 => 27,
        22 => 29,
        23 => 30,
        24 => 32,
        25 => 34,
        26 => 36,
        27 => 38,
        28 => 41,
        29 => 43,
        30 => 46,
        31 => 48,
        32 => 51,
        33 => 55,
        34 => 58,
        35 => 61,
        36 => 65,
        37 => 69,
        38 => 73,
        39 => 77,
        40 => 82,
        41 => 87,
        42 => 92,
        43 => 97,
        44 => 103,
        45 => 110,
        46 => 116,
        47 => 123,
        48 => 130,
        49 => 138,
        50 => 146,
        51 => 155,
        52 => 164,
        53 => 174,
        54 => 184,
        55 => 195,
        56 => 207,
        57 => 220,
        58 => 233,
        59 => 246,
        60 => 261,
        61 => 277,
        62 => 293,
        63 => 311,
        64 => 329,
        65 => 349,
        66 => 369,
        67 => 391,
        68 => 415,
        69 => 440,
        70 => 466,
        71 => 493,
        72 => 523,
        73 => 554,
        74 => 587,
        75 => 622,
        76 => 659,
        77 => 698,
        78 => 739,
        79 => 783,
        80 => 830,
        81 => 880,
        82 => 932,
        83 => 987,
        84 => 1046,
        85 => 1108,
        86 => 1174,
        87 => 1244,
        88 => 1318,
        89 => 1396,
        90 => 1479,
        91 => 1567,
        92 => 1661,
        93 => 1760,
        94 => 1864,
        95 => 1975,
        96 => 2093,
        97 => 2217,
        98 => 2349,
        99 => 2489,
        100 => 2637,
        101 => 2793,
        102 => 2959,
        103 => 3135,
        104 => 3322,
        105 => 3520,
        106 => 3729,
        107 => 3951,
        108 => 4186,
        109 => 4434,
        110 => 4698,
        111 => 4978,
        112 => 5274,
        113 => 5587,
        114 => 5919,
        115 => 6271,
        116 => 6644,
        117 => 7040,
        118 => 7458,
        119 => 7902,
        120 => 8372,
        121 => 8869,
        122 => 9397,
        123 => 9956,
        124 => 10548,
        125 => 11175,
        126 => 11839,
        _ => 0,
    }
}

} // verus!
