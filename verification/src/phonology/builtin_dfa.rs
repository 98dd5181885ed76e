//! The nucleus table in resolved form, and the proof that the built-in DFA
//! can be built from it and classifies every nucleus as the table does.
use vstd::prelude::*;
use vstd::string::*;

use crate::phonology::rules::nucleus;
use crate::phonology::vowel::BaseVowel;
use crate::phonology::vowel_dfa::{
    agrees_with_table, base_targets_complete, base_vowel_name_list, builtin_edges,
    builtin_state_count, builtin_valid, classifies_as_table, compounds_targeted, discovered,
    edge_target, find, fold_uo, has_edge, inputs_in_range, inputs_known, is_targeted,
    lemma_find_distinct, lemma_note_step, lemma_row_offset_bound, name_bytes, names_distinct,
    nucleus_rules, rules_valid, shape_name_list, state_complete, state_names, statuses_consistent,
    step, targets_consistent, walk, walk_status, Completion, IdEdge, VowelDfa,
};

verus! {

/// The compound state names of the nucleus table, in order of first mention.
pub open spec fn compound_name_list() -> Seq<&'static str> {
    seq![
        "AI", "AO", "AU", "AY", "ÂU", "ÂY", "IA", "IU", "IE", "IEU", "IÊ", "IÊU", "YE", "YEU",
        "YÊ", "YÊU", "EO", "EU", "ÊU", "OA", "OĂ", "OAI", "OAO", "OAU", "OAY", "OE", "OEO",
        "OI", "ÔI", "ƠI", "OO", "UY", "UYU", "UYA", "UYE", "UYÊ", "UA", "UAO", "UÂ", "UÂY",
        "ƯA", "UO", "UOI", "UOU", "UƠ", "ƯƠI", "ƯƠU", "UÔ", "UÔI", "ƯƠ", "UƠI", "UƠU", "UE",
        "UÊ", "UI", "ƯI", "ƯO", "ƯU", "UU",
    ]
}

/// The position of a state name in [`state_name_list`], read off its
/// characters; `-1` for any other name.
pub open spec fn state_position(s: Seq<char>) -> int {
    if s.len() == 1 {
        if s[0] == 'Y' {
            0
        } else if s[0] == 'U' {
            1
        } else if s[0] == 'I' {
            2
        } else if s[0] == 'E' {
            3
        } else if s[0] == 'O' {
            4
        } else if s[0] == 'A' {
            5
        } else if s[0] == 'Ư' {
            6
        } else if s[0] == 'Â' {
            7
        } else if s[0] == 'Ô' {
            8
        } else if s[0] == 'Ă' {
            9
        } else if s[0] == 'Ê' {
            10
        } else if s[0] == 'Ơ' {
            11
        } else {
            -1
        }
    } else if s.len() == 2 {
        if s[0] == 'A' && s[1] == 'I' {
            12
        } else if s[0] == 'A' && s[1] == 'O' {
            13
        } else if s[0] == 'A' && s[1] == 'U' {
            14
        } else if s[0] == 'A' && s[1] == 'Y' {
            15
        } else if s[0] == 'Â' && s[1] == 'U' {
            16
        } else if s[0] == 'Â' && s[1] == 'Y' {
            17
        } else if s[0] == 'I' && s[1] == 'A' {
            18
        } else if s[0] == 'I' && s[1] == 'U' {
            19
        } else if s[0] == 'I' && s[1] == 'E' {
            20
        } else if s[0] == 'I' && s[1] == 'Ê' {
            22
        } else if s[0] == 'Y' && s[1] == 'E' {
            24
        } else if s[0] == 'Y' && s[1] == 'Ê' {
            26
        } else if s[0] == 'E' && s[1] == 'O' {
            28
        } else if s[0] == 'E' && s[1] == 'U' {
            29
        } else if s[0] == 'Ê' && s[1] == 'U' {
            30
        } else if s[0] == 'O' && s[1] == 'A' {
            31
        } else if s[0] == 'O' && s[1] == 'Ă' {
            32
        } else if s[0] == 'O' && s[1] == 'E' {
            37
        } else if s[0] == 'O' && s[1] == 'I' {
            39
        } else if s[0] == 'Ô' && s[1] == 'I' {
            40
        } else if s[0] == 'Ơ' && s[1] == 'I' {
            41
        } else if s[0] == 'O' && s[1] == 'O' {
            42
        } else if s[0] == 'U' && s[1] == 'Y' {
            43
        } else if s[0] == 'U' && s[1] == 'A' {
            48
        } else if s[0] == 'U' && s[1] == 'Â' {
            50
        } else if s[0] == 'Ư' && s[1] == 'A' {
            52
        } else if s[0] == 'U' && s[1] == 'O' {
            53
        } else if s[0] == 'U' && s[1] == 'Ơ' {
            56
        } else if s[0] == 'U' && s[1] == 'Ô' {
            59
        } else if s[0] == 'Ư' && s[1] == 'Ơ' {
            61
        } else if s[0] == 'U' && s[1] == 'E' {
            64
        } else if s[0] == 'U' && s[1] == 'Ê' {
            65
        } else if s[0] == 'U' && s[1] == 'I' {
            66
        } else if s[0] == 'Ư' && s[1] == 'I' {
            67
        } else if s[0] == 'Ư' && s[1] == 'O' {
            68
        } else if s[0] == 'Ư' && s[1] == 'U' {
            69
        } else if s[0] == 'U' && s[1] == 'U' {
            70
        } else {
            -1
        }
    } else if s.len() == 3 {
        if s[0] == 'I' && s[1] == 'E' && s[2] == 'U' {
            21
        } else if s[0] == 'I' && s[1] == 'Ê' && s[2] == 'U' {
            23
        } else if s[0] == 'Y' && s[1] == 'E' && s[2] == 'U' {
            25
        } else if s[0] == 'Y' && s[1] == 'Ê' && s[2] == 'U' {
            27
        } else if s[0] == 'O' && s[1] == 'A' && s[2] == 'I' {
            33
        } else if s[0] == 'O' && s[1] == 'A' && s[2] == 'O' {
            34
        } else if s[0] == 'O' && s[1] == 'A' && s[2] == 'U' {
            35
        } else if s[0] == 'O' && s[1] == 'A' && s[2] == 'Y' {
            36
        } else if s[0] == 'O' && s[1] == 'E' && s[2] == 'O' {
            38
        } else if s[0] == 'U' && s[1] == 'Y' && s[2] == 'U' {
            44
        } else if s[0] == 'U' && s[1] == 'Y' && s[2] == 'A' {
            45
        } else if s[0] == 'U' && s[1] == 'Y' && s[2] == 'E' {
            46
        } else if s[0] == 'U' && s[1] == 'Y' && s[2] == 'Ê' {
            47
        } else if s[0] == 'U' && s[1] == 'A' && s[2] == 'O' {
            49
        } else if s[0] == 'U' && s[1] == 'Â' && s[2] == 'Y' {
            51
        } else if s[0] == 'U' && s[1] == 'O' && s[2] == 'I' {
            54
        } else if s[0] == 'U' && s[1] == 'O' && s[2] == 'U' {
            55
        } else if s[0] == 'Ư' && s[1] == 'Ơ' && s[2] == 'I' {
            57
        } else if s[0] == 'Ư' && s[1] == 'Ơ' && s[2] == 'U' {
            58
        } else if s[0] == 'U' && s[1] == 'Ô' && s[2] == 'I' {
            60
        } else if s[0] == 'U' && s[1] == 'Ơ' && s[2] == 'I' {
            62
        } else if s[0] == 'U' && s[1] == 'Ơ' && s[2] == 'U' {
            63
        } else {
            -1
        }
    } else {
        -1
    }
}

/// The position of an input name among the base vowels and then the
/// shapes, read off its characters; `-1` for any other name.
pub open spec fn input_position(s: Seq<char>) -> int {
    if s.len() == 1 {
        state_position(s)
    } else if s.len() == 10 && s[0] == 'C' {
        12
    } else if s.len() == 5 && s[0] == 'B' {
        13
    } else if s.len() == 4 && s[0] == 'H' {
        14
    } else {
        -1
    }
}

/// Rule `k` of the nucleus table with its names resolved to ids.
pub open spec fn builtin_edge(k: int) -> IdEdge {
    if k == 0 {
        IdEdge { src: 5, input: 12, tgt: 7, complete: true }  // A => Circumflex => Â => Complete
    } else if k == 1 {
        IdEdge { src: 5, input: 13, tgt: 9, complete: true }  // A => Breve => Ă => Complete
    } else if k == 2 {
        IdEdge { src: 7, input: 12, tgt: 5, complete: true }  // Â => Circumflex => A => Complete
    } else if k == 3 {
        IdEdge { src: 7, input: 13, tgt: 9, complete: true }  // Â => Breve => Ă => Complete
    } else if k == 4 {
        IdEdge { src: 9, input: 12, tgt: 7, complete: true }  // Ă => Circumflex => Â => Complete
    } else if k == 5 {
        IdEdge { src: 9, input: 13, tgt: 5, complete: true }  // Ă => Breve => A => Complete
    } else if k == 6 {
        IdEdge { src: 3, input: 12, tgt: 10, complete: true }  // E => Circumflex => Ê => Complete
    } else if k == 7 {
        IdEdge { src: 10, input: 12, tgt: 3, complete: true }  // Ê => Circumflex => E => Complete
    } else if k == 8 {
        IdEdge { src: 4, input: 12, tgt: 8, complete: true }  // O => Circumflex => Ô => Complete
    } else if k == 9 {
        IdEdge { src: 4, input: 14, tgt: 11, complete: true }  // O => Horn => Ơ => Complete
    } else if k == 10 {
        IdEdge { src: 8, input: 12, tgt: 4, complete: true }  // Ô => Circumflex => O => Complete
    } else if k == 11 {
        IdEdge { src: 8, input: 14, tgt: 11, complete: true }  // Ô => Horn => Ơ => Complete
    } else if k == 12 {
        IdEdge { src: 11, input: 12, tgt: 8, complete: true }  // Ơ => Circumflex => Ô => Complete
    } else if k == 13 {
        IdEdge { src: 11, input: 14, tgt: 4, complete: true }  // Ơ => Horn => O => Complete
    } else if k == 14 {
        IdEdge { src: 1, input: 14, tgt: 6, complete: true }  // U => Horn => Ư => Complete
    } else if k == 15 {
        IdEdge { src: 6, input: 14, tgt: 1, complete: true }  // Ư => Horn => U => Complete
    } else if k == 16 {
        IdEdge { src: 5, input: 2, tgt: 12, complete: true }  // A => I => AI => Complete
    } else if k == 17 {
        IdEdge { src: 5, input: 4, tgt: 13, complete: true }  // A => O => AO => Complete
    } else if k == 18 {
        IdEdge { src: 5, input: 1, tgt: 14, complete: true }  // A => U => AU => Complete
    } else if k == 19 {
        IdEdge { src: 5, input: 0, tgt: 15, complete: true }  // A => Y => AY => Complete
    } else if k == 20 {
        IdEdge { src: 7, input: 1, tgt: 16, complete: true }  // Â => U => ÂU => Complete
    } else if k == 21 {
        IdEdge { src: 7, input: 0, tgt: 17, complete: true }  // Â => Y => ÂY => Complete
    } else if k == 22 {
        IdEdge { src: 14, input: 12, tgt: 16, complete: true }  // AU => Circumflex => ÂU => Complete
    } else if k == 23 {
        IdEdge { src: 16, input: 12, tgt: 14, complete: true }  // ÂU => Circumflex => AU => Complete
    } else if k == 24 {
        IdEdge { src: 15, input: 12, tgt: 17, complete: true }  // AY => Circumflex => ÂY => Complete
    } else if k == 25 {
        IdEdge { src: 17, input: 12, tgt: 15, complete: true }  // ÂY => Circumflex => AY => Complete
    } else if k == 26 {
        IdEdge { src: 2, input: 5, tgt: 18, complete: true }  // I => A => IA => Complete
    } else if k == 27 {
        IdEdge { src: 2, input: 1, tgt: 19, complete: true }  // I => U => IU => Complete
    } else if k == 28 {
        IdEdge { src: 2, input: 3, tgt: 20, complete: false }  // I => E => IE => Incomplete
    } else if k == 29 {
        IdEdge { src: 20, input: 1, tgt: 21, complete: false }  // IE => U => IEU => Incomplete
    } else if k == 30 {
        IdEdge { src: 2, input: 10, tgt: 22, complete: true }  // I => Ê => IÊ => Complete
    } else if k == 31 {
        IdEdge { src: 22, input: 1, tgt: 23, complete: true }  // IÊ => U => IÊU => Complete
    } else if k == 32 {
        IdEdge { src: 20, input: 12, tgt: 22, complete: true }  // IE => Circumflex => IÊ => Complete
    } else if k == 33 {
        IdEdge { src: 22, input: 12, tgt: 20, complete: false }  // IÊ => Circumflex => IE => Incomplete
    } else if k == 34 {
        IdEdge { src: 21, input: 12, tgt: 23, complete: true }  // IEU => Circumflex => IÊU => Complete
    } else if k == 35 {
        IdEdge { src: 23, input: 12, tgt: 21, complete: false }  // IÊU => Circumflex => IEU => Incomplete
    } else if k == 36 {
        IdEdge { src: 0, input: 3, tgt: 24, complete: false }  // Y => E => YE => Incomplete
    } else if k == 37 {
        IdEdge { src: 24, input: 1, tgt: 25, complete: false }  // YE => U => YEU => Incomplete
    } else if k == 38 {
        IdEdge { src: 0, input: 10, tgt: 26, complete: true }  // Y => Ê => YÊ => Complete
    } else if k == 39 {
        IdEdge { src: 26, input: 1, tgt: 27, complete: true }  // YÊ => U => YÊU => Complete
    } else if k == 40 {
        IdEdge { src: 24, input: 12, tgt: 26, complete: true }  // YE => Circumflex => YÊ => Complete
    } else if k == 41 {
        IdEdge { src: 26, input: 12, tgt: 24, complete: false }  // YÊ => Circumflex => YE => Incomplete
    } else if k == 42 {
        IdEdge { src: 25, input: 12, tgt: 27, complete: true }  // YEU => Circumflex => YÊU => Complete
    } else if k == 43 {
        IdEdge { src: 27, input: 12, tgt: 25, complete: false }  // YÊU => Circumflex => YEU => Incomplete
    } else if k == 44 {
        IdEdge { src: 3, input: 4, tgt: 28, complete: true }  // E => O => EO => Complete
    } else if k == 45 {
        IdEdge { src: 3, input: 1, tgt: 29, complete: false }  // E => U => EU => Incomplete
    } else if k == 46 {
        IdEdge { src: 10, input: 1, tgt: 30, complete: true }  // Ê => U => ÊU => Complete
    } else if k == 47 {
        IdEdge { src: 29, input: 12, tgt: 30, complete: true }  // EU => Circumflex => ÊU => Complete
    } else if k == 48 {
        IdEdge { src: 30, input: 12, tgt: 29, complete: false }  // ÊU => Circumflex => EU => Incomplete
    } else if k == 49 {
        IdEdge { src: 4, input: 5, tgt: 31, complete: true }  // O => A => OA => Complete
    } else if k == 50 {
        IdEdge { src: 4, input: 9, tgt: 32, complete: true }  // O => Ă => OĂ => Complete
    } else if k == 51 {
        IdEdge { src: 31, input: 2, tgt: 33, complete: true }  // OA => I => OAI => Complete
    } else if k == 52 {
        IdEdge { src: 31, input: 4, tgt: 34, complete: true }  // OA => O => OAO => Complete
    } else if k == 53 {
        IdEdge { src: 31, input: 1, tgt: 35, complete: true }  // OA => U => OAU => Complete
    } else if k == 54 {
        IdEdge { src: 31, input: 0, tgt: 36, complete: true }  // OA => Y => OAY => Complete
    } else if k == 55 {
        IdEdge { src: 4, input: 3, tgt: 37, complete: true }  // O => E => OE => Complete
    } else if k == 56 {
        IdEdge { src: 37, input: 4, tgt: 38, complete: true }  // OE => O => OEO => Complete
    } else if k == 57 {
        IdEdge { src: 4, input: 2, tgt: 39, complete: true }  // O => I => OI => Complete
    } else if k == 58 {
        IdEdge { src: 8, input: 2, tgt: 40, complete: true }  // Ô => I => ÔI => Complete
    } else if k == 59 {
        IdEdge { src: 11, input: 2, tgt: 41, complete: true }  // Ơ => I => ƠI => Complete
    } else if k == 60 {
        IdEdge { src: 4, input: 4, tgt: 42, complete: false }  // O => O => OO => Incomplete
    } else if k == 61 {
        IdEdge { src: 39, input: 12, tgt: 40, complete: true }  // OI => Circumflex => ÔI => Complete
    } else if k == 62 {
        IdEdge { src: 40, input: 12, tgt: 39, complete: true }  // ÔI => Circumflex => OI => Complete
    } else if k == 63 {
        IdEdge { src: 41, input: 12, tgt: 40, complete: true }  // ƠI => Circumflex => ÔI => Complete
    } else if k == 64 {
        IdEdge { src: 39, input: 14, tgt: 41, complete: true }  // OI => Horn => ƠI => Complete
    } else if k == 65 {
        IdEdge { src: 40, input: 14, tgt: 41, complete: true }  // ÔI => Horn => ƠI => Complete
    } else if k == 66 {
        IdEdge { src: 41, input: 14, tgt: 39, complete: true }  // ƠI => Horn => OI => Complete
    } else if k == 67 {
        IdEdge { src: 31, input: 13, tgt: 32, complete: true }  // OA => Breve => OĂ => Complete
    } else if k == 68 {
        IdEdge { src: 32, input: 13, tgt: 31, complete: true }  // OĂ => Breve => OA => Complete
    } else if k == 69 {
        IdEdge { src: 1, input: 0, tgt: 43, complete: true }  // U => Y => UY => Complete
    } else if k == 70 {
        IdEdge { src: 43, input: 1, tgt: 44, complete: true }  // UY => U => UYU => Complete
    } else if k == 71 {
        IdEdge { src: 43, input: 5, tgt: 45, complete: true }  // UY => A => UYA => Complete
    } else if k == 72 {
        IdEdge { src: 43, input: 3, tgt: 46, complete: false }  // UY => E => UYE => Incomplete
    } else if k == 73 {
        IdEdge { src: 43, input: 10, tgt: 47, complete: true }  // UY => Ê => UYÊ => Complete
    } else if k == 74 {
        IdEdge { src: 46, input: 12, tgt: 47, complete: true }  // UYE => Circumflex => UYÊ => Complete
    } else if k == 75 {
        IdEdge { src: 47, input: 12, tgt: 46, complete: false }  // UYÊ => Circumflex => UYE => Incomplete
    } else if k == 76 {
        IdEdge { src: 1, input: 5, tgt: 48, complete: true }  // U => A => UA => Complete
    } else if k == 77 {
        IdEdge { src: 48, input: 4, tgt: 49, complete: true }  // UA => O => UAO => Complete
    } else if k == 78 {
        IdEdge { src: 1, input: 7, tgt: 50, complete: true }  // U => Â => UÂ => Complete
    } else if k == 79 {
        IdEdge { src: 50, input: 0, tgt: 51, complete: true }  // UÂ => Y => UÂY => Complete
    } else if k == 80 {
        IdEdge { src: 48, input: 12, tgt: 50, complete: true }  // UA => Circumflex => UÂ => Complete
    } else if k == 81 {
        IdEdge { src: 50, input: 12, tgt: 48, complete: true }  // UÂ => Circumflex => UA => Complete
    } else if k == 82 {
        IdEdge { src: 48, input: 14, tgt: 52, complete: true }  // UA => Horn => ƯA => Complete
    } else if k == 83 {
        IdEdge { src: 1, input: 4, tgt: 53, complete: false }  // U => O => UO => Incomplete
    } else if k == 84 {
        IdEdge { src: 53, input: 2, tgt: 54, complete: false }  // UO => I => UOI => Incomplete
    } else if k == 85 {
        IdEdge { src: 53, input: 1, tgt: 55, complete: false }  // UO => U => UOU => Incomplete
    } else if k == 86 {
        IdEdge { src: 1, input: 11, tgt: 56, complete: true }  // U => Ơ => UƠ => Complete
    } else if k == 87 {
        IdEdge { src: 56, input: 2, tgt: 57, complete: true }  // UƠ => I => ƯƠI => Complete
    } else if k == 88 {
        IdEdge { src: 56, input: 1, tgt: 58, complete: true }  // UƠ => U => ƯƠU => Complete
    } else if k == 89 {
        IdEdge { src: 1, input: 8, tgt: 59, complete: true }  // U => Ô => UÔ => Complete
    } else if k == 90 {
        IdEdge { src: 59, input: 2, tgt: 60, complete: true }  // UÔ => I => UÔI => Complete
    } else if k == 91 {
        IdEdge { src: 53, input: 12, tgt: 59, complete: true }  // UO => Circumflex => UÔ => Complete
    } else if k == 92 {
        IdEdge { src: 59, input: 12, tgt: 53, complete: false }  // UÔ => Circumflex => UO => Incomplete
    } else if k == 93 {
        IdEdge { src: 53, input: 14, tgt: 56, complete: true }  // UO => Horn => UƠ => Complete
    } else if k == 94 {
        IdEdge { src: 59, input: 14, tgt: 56, complete: true }  // UÔ => Horn => UƠ => Complete
    } else if k == 95 {
        IdEdge { src: 56, input: 12, tgt: 59, complete: true }  // UƠ => Circumflex => UÔ => Complete
    } else if k == 96 {
        IdEdge { src: 56, input: 14, tgt: 61, complete: true }  // UƠ => Horn => ƯƠ => Complete
    } else if k == 97 {
        IdEdge { src: 54, input: 12, tgt: 60, complete: true }  // UOI => Circumflex => UÔI => Complete
    } else if k == 98 {
        IdEdge { src: 60, input: 12, tgt: 54, complete: false }  // UÔI => Circumflex => UOI => Incomplete
    } else if k == 99 {
        IdEdge { src: 54, input: 14, tgt: 62, complete: false }  // UOI => Horn => UƠI => Incomplete
    } else if k == 100 {
        IdEdge { src: 60, input: 14, tgt: 62, complete: false }  // UÔI => Horn => UƠI => Incomplete
    } else if k == 101 {
        IdEdge { src: 62, input: 12, tgt: 60, complete: true }  // UƠI => Circumflex => UÔI => Complete
    } else if k == 102 {
        IdEdge { src: 62, input: 14, tgt: 57, complete: true }  // UƠI => Horn => ƯƠI => Complete
    } else if k == 103 {
        IdEdge { src: 55, input: 14, tgt: 63, complete: false }  // UOU => Horn => UƠU => Incomplete
    } else if k == 104 {
        IdEdge { src: 63, input: 14, tgt: 58, complete: true }  // UƠU => Horn => ƯƠU => Complete
    } else if k == 105 {
        IdEdge { src: 1, input: 3, tgt: 64, complete: false }  // U => E => UE => Incomplete
    } else if k == 106 {
        IdEdge { src: 1, input: 10, tgt: 65, complete: true }  // U => Ê => UÊ => Complete
    } else if k == 107 {
        IdEdge { src: 1, input: 2, tgt: 66, complete: true }  // U => I => UI => Complete
    } else if k == 108 {
        IdEdge { src: 64, input: 12, tgt: 65, complete: true }  // UE => Circumflex => UÊ => Complete
    } else if k == 109 {
        IdEdge { src: 65, input: 12, tgt: 64, complete: false }  // UÊ => Circumflex => UE => Incomplete
    } else if k == 110 {
        IdEdge { src: 66, input: 14, tgt: 67, complete: true }  // UI => Horn => ƯI => Complete
    } else if k == 111 {
        IdEdge { src: 6, input: 4, tgt: 68, complete: false }  // Ư => O => ƯO => Incomplete
    } else if k == 112 {
        IdEdge { src: 68, input: 2, tgt: 57, complete: true }  // ƯO => I => ƯƠI => Complete
    } else if k == 113 {
        IdEdge { src: 68, input: 1, tgt: 58, complete: true }  // ƯO => U => ƯƠU => Complete
    } else if k == 114 {
        IdEdge { src: 6, input: 11, tgt: 61, complete: true }  // Ư => Ơ => ƯƠ => Complete
    } else if k == 115 {
        IdEdge { src: 61, input: 2, tgt: 57, complete: true }  // ƯƠ => I => ƯƠI => Complete
    } else if k == 116 {
        IdEdge { src: 61, input: 1, tgt: 58, complete: true }  // ƯƠ => U => ƯƠU => Complete
    } else if k == 117 {
        IdEdge { src: 68, input: 12, tgt: 59, complete: true }  // ƯO => Circumflex => UÔ => Complete
    } else if k == 118 {
        IdEdge { src: 68, input: 14, tgt: 61, complete: true }  // ƯO => Horn => ƯƠ => Complete
    } else if k == 119 {
        IdEdge { src: 61, input: 12, tgt: 59, complete: true }  // ƯƠ => Circumflex => UÔ => Complete
    } else if k == 120 {
        IdEdge { src: 61, input: 14, tgt: 53, complete: false }  // ƯƠ => Horn => UO => Incomplete
    } else if k == 121 {
        IdEdge { src: 57, input: 12, tgt: 60, complete: true }  // ƯƠI => Circumflex => UÔI => Complete
    } else if k == 122 {
        IdEdge { src: 57, input: 14, tgt: 54, complete: false }  // ƯƠI => Horn => UOI => Incomplete
    } else if k == 123 {
        IdEdge { src: 58, input: 14, tgt: 55, complete: false }  // ƯƠU => Horn => UOU => Incomplete
    } else if k == 124 {
        IdEdge { src: 6, input: 5, tgt: 52, complete: true }  // Ư => A => ƯA => Complete
    } else if k == 125 {
        IdEdge { src: 6, input: 2, tgt: 67, complete: true }  // Ư => I => ƯI => Complete
    } else if k == 126 {
        IdEdge { src: 6, input: 1, tgt: 69, complete: true }  // Ư => U => ƯU => Complete
    } else if k == 127 {
        IdEdge { src: 1, input: 1, tgt: 70, complete: false }  // U => U => UU => Incomplete
    } else if k == 128 {
        IdEdge { src: 52, input: 14, tgt: 48, complete: true }  // ƯA => Horn => UA => Complete
    } else if k == 129 {
        IdEdge { src: 67, input: 14, tgt: 66, complete: true }  // ƯI => Horn => UI => Complete
    } else if k == 130 {
        IdEdge { src: 69, input: 14, tgt: 70, complete: false }  // ƯU => Horn => UU => Incomplete
    } else if k == 131 {
        IdEdge { src: 70, input: 14, tgt: 69, complete: true }  // UU => Horn => ƯU => Complete
    } else {
        IdEdge { src: 0, input: 0, tgt: 0, complete: true }
    }
}

/// The number of compound names the first `k` rules mention.
pub open spec fn compounds_before(k: int) -> int {
    if k <= 16 {
        0
    } else if k <= 17 {
        1
    } else if k <= 18 {
        2
    } else if k <= 19 {
        3
    } else if k <= 20 {
        4
    } else if k <= 21 {
        5
    } else if k <= 26 {
        6
    } else if k <= 27 {
        7
    } else if k <= 28 {
        8
    } else if k <= 29 {
        9
    } else if k <= 30 {
        10
    } else if k <= 31 {
        11
    } else if k <= 36 {
        12
    } else if k <= 37 {
        13
    } else if k <= 38 {
        14
    } else if k <= 39 {
        15
    } else if k <= 44 {
        16
    } else if k <= 45 {
        17
    } else if k <= 46 {
        18
    } else if k <= 49 {
        19
    } else if k <= 50 {
        20
    } else if k <= 51 {
        21
    } else if k <= 52 {
        22
    } else if k <= 53 {
        23
    } else if k <= 54 {
        24
    } else if k <= 55 {
        25
    } else if k <= 56 {
        26
    } else if k <= 57 {
        27
    } else if k <= 58 {
        28
    } else if k <= 59 {
        29
    } else if k <= 60 {
        30
    } else if k <= 69 {
        31
    } else if k <= 70 {
        32
    } else if k <= 71 {
        33
    } else if k <= 72 {
        34
    } else if k <= 73 {
        35
    } else if k <= 76 {
        36
    } else if k <= 77 {
        37
    } else if k <= 78 {
        38
    } else if k <= 79 {
        39
    } else if k <= 82 {
        40
    } else if k <= 83 {
        41
    } else if k <= 84 {
        42
    } else if k <= 85 {
        43
    } else if k <= 86 {
        44
    } else if k <= 87 {
        45
    } else if k <= 88 {
        46
    } else if k <= 89 {
        47
    } else if k <= 90 {
        48
    } else if k <= 96 {
        49
    } else if k <= 99 {
        50
    } else if k <= 103 {
        51
    } else if k <= 105 {
        52
    } else if k <= 106 {
        53
    } else if k <= 107 {
        54
    } else if k <= 110 {
        55
    } else if k <= 111 {
        56
    } else if k <= 126 {
        57
    } else if k <= 127 {
        58
    } else {
        59
    }
}

/// Whether a state of the nucleus table is complete: all but the listed
/// compounds are.
pub open spec fn builtin_complete(s: int) -> bool {
    !(s == 20 || s == 21 || s == 24 || s == 25 || s == 29 || s == 42 || s == 46 || s == 53 ||
        s == 54 || s == 55 || s == 62 || s == 63 || s == 64 || s == 68 || s == 70)
}

/// The index of the rule leaving state `s` on input `i`, or `-1`.
pub open spec fn edge_index(s: int, i: int) -> int {
    if s == 5 && i == 12 {
        0
    } else if s == 5 && i == 13 {
        1
    } else if s == 7 && i == 12 {
        2
    } else if s == 7 && i == 13 {
        3
    } else if s == 9 && i == 12 {
        4
    } else if s == 9 && i == 13 {
        5
    } else if s == 3 && i == 12 {
        6
    } else if s == 10 && i == 12 {
        7
    } else if s == 4 && i == 12 {
        8
    } else if s == 4 && i == 14 {
        9
    } else if s == 8 && i == 12 {
        10
    } else if s == 8 && i == 14 {
        11
    } else if s == 11 && i == 12 {
        12
    } else if s == 11 && i == 14 {
        13
    } else if s == 1 && i == 14 {
        14
    } else if s == 6 && i == 14 {
        15
    } else if s == 5 && i == 2 {
        16
    } else if s == 5 && i == 4 {
        17
    } else if s == 5 && i == 1 {
        18
    } else if s == 5 && i == 0 {
        19
    } else if s == 7 && i == 1 {
        20
    } else if s == 7 && i == 0 {
        21
    } else if s == 14 && i == 12 {
        22
    } else if s == 16 && i == 12 {
        23
    } else if s == 15 && i == 12 {
        24
    } else if s == 17 && i == 12 {
        25
    } else if s == 2 && i == 5 {
        26
    } else if s == 2 && i == 1 {
        27
    } else if s == 2 && i == 3 {
        28
    } else if s == 20 && i == 1 {
        29
    } else if s == 2 && i == 10 {
        30
    } else if s == 22 && i == 1 {
        31
    } else if s == 20 && i == 12 {
        32
    } else if s == 22 && i == 12 {
        33
    } else if s == 21 && i == 12 {
        34
    } else if s == 23 && i == 12 {
        35
    } else if s == 0 && i == 3 {
        36
    } else if s == 24 && i == 1 {
        37
    } else if s == 0 && i == 10 {
        38
    } else if s == 26 && i == 1 {
        39
    } else if s == 24 && i == 12 {
        40
    } else if s == 26 && i == 12 {
        41
    } else if s == 25 && i == 12 {
        42
    } else if s == 27 && i == 12 {
        43
    } else if s == 3 && i == 4 {
        44
    } else if s == 3 && i == 1 {
        45
    } else if s == 10 && i == 1 {
        46
    } else if s == 29 && i == 12 {
        47
    } else if s == 30 && i == 12 {
        48
    } else if s == 4 && i == 5 {
        49
    } else if s == 4 && i == 9 {
        50
    } else if s == 31 && i == 2 {
        51
    } else if s == 31 && i == 4 {
        52
    } else if s == 31 && i == 1 {
        53
    } else if s == 31 && i == 0 {
        54
    } else if s == 4 && i == 3 {
        55
    } else if s == 37 && i == 4 {
        56
    } else if s == 4 && i == 2 {
        57
    } else if s == 8 && i == 2 {
        58
    } else if s == 11 && i == 2 {
        59
    } else if s == 4 && i == 4 {
        60
    } else if s == 39 && i == 12 {
        61
    } else if s == 40 && i == 12 {
        62
    } else if s == 41 && i == 12 {
        63
    } else if s == 39 && i == 14 {
        64
    } else if s == 40 && i == 14 {
        65
    } else if s == 41 && i == 14 {
        66
    } else if s == 31 && i == 13 {
        67
    } else if s == 32 && i == 13 {
        68
    } else if s == 1 && i == 0 {
        69
    } else if s == 43 && i == 1 {
        70
    } else if s == 43 && i == 5 {
        71
    } else if s == 43 && i == 3 {
        72
    } else if s == 43 && i == 10 {
        73
    } else if s == 46 && i == 12 {
        74
    } else if s == 47 && i == 12 {
        75
    } else if s == 1 && i == 5 {
        76
    } else if s == 48 && i == 4 {
        77
    } else if s == 1 && i == 7 {
        78
    } else if s == 50 && i == 0 {
        79
    } else if s == 48 && i == 12 {
        80
    } else if s == 50 && i == 12 {
        81
    } else if s == 48 && i == 14 {
        82
    } else if s == 1 && i == 4 {
        83
    } else if s == 53 && i == 2 {
        84
    } else if s == 53 && i == 1 {
        85
    } else if s == 1 && i == 11 {
        86
    } else if s == 56 && i == 2 {
        87
    } else if s == 56 && i == 1 {
        88
    } else if s == 1 && i == 8 {
        89
    } else if s == 59 && i == 2 {
        90
    } else if s == 53 && i == 12 {
        91
    } else if s == 59 && i == 12 {
        92
    } else if s == 53 && i == 14 {
        93
    } else if s == 59 && i == 14 {
        94
    } else if s == 56 && i == 12 {
        95
    } else if s == 56 && i == 14 {
        96
    } else if s == 54 && i == 12 {
        97
    } else if s == 60 && i == 12 {
        98
    } else if s == 54 && i == 14 {
        99
    } else if s == 60 && i == 14 {
        100
    } else if s == 62 && i == 12 {
        101
    } else if s == 62 && i == 14 {
        102
    } else if s == 55 && i == 14 {
        103
    } else if s == 63 && i == 14 {
        104
    } else if s == 1 && i == 3 {
        105
    } else if s == 1 && i == 10 {
        106
    } else if s == 1 && i == 2 {
        107
    } else if s == 64 && i == 12 {
        108
    } else if s == 65 && i == 12 {
        109
    } else if s == 66 && i == 14 {
        110
    } else if s == 6 && i == 4 {
        111
    } else if s == 68 && i == 2 {
        112
    } else if s == 68 && i == 1 {
        113
    } else if s == 6 && i == 11 {
        114
    } else if s == 61 && i == 2 {
        115
    } else if s == 61 && i == 1 {
        116
    } else if s == 68 && i == 12 {
        117
    } else if s == 68 && i == 14 {
        118
    } else if s == 61 && i == 12 {
        119
    } else if s == 61 && i == 14 {
        120
    } else if s == 57 && i == 12 {
        121
    } else if s == 57 && i == 14 {
        122
    } else if s == 58 && i == 14 {
        123
    } else if s == 6 && i == 5 {
        124
    } else if s == 6 && i == 2 {
        125
    } else if s == 6 && i == 1 {
        126
    } else if s == 1 && i == 1 {
        127
    } else if s == 52 && i == 14 {
        128
    } else if s == 67 && i == 14 {
        129
    } else if s == 69 && i == 14 {
        130
    } else if s == 70 && i == 14 {
        131
    } else {
        -1
    }
}

/// A rule leading to compound state `s`.
pub open spec fn reached_by(s: int) -> int {
    if s == 12 {
        16
    } else if s == 13 {
        17
    } else if s == 14 {
        18
    } else if s == 15 {
        19
    } else if s == 16 {
        20
    } else if s == 17 {
        21
    } else if s == 18 {
        26
    } else if s == 19 {
        27
    } else if s == 20 {
        28
    } else if s == 21 {
        29
    } else if s == 22 {
        30
    } else if s == 23 {
        31
    } else if s == 24 {
        36
    } else if s == 25 {
        37
    } else if s == 26 {
        38
    } else if s == 27 {
        39
    } else if s == 28 {
        44
    } else if s == 29 {
        45
    } else if s == 30 {
        46
    } else if s == 31 {
        49
    } else if s == 32 {
        50
    } else if s == 33 {
        51
    } else if s == 34 {
        52
    } else if s == 35 {
        53
    } else if s == 36 {
        54
    } else if s == 37 {
        55
    } else if s == 38 {
        56
    } else if s == 39 {
        57
    } else if s == 40 {
        58
    } else if s == 41 {
        59
    } else if s == 42 {
        60
    } else if s == 43 {
        69
    } else if s == 44 {
        70
    } else if s == 45 {
        71
    } else if s == 46 {
        72
    } else if s == 47 {
        73
    } else if s == 48 {
        76
    } else if s == 49 {
        77
    } else if s == 50 {
        78
    } else if s == 51 {
        79
    } else if s == 52 {
        82
    } else if s == 53 {
        83
    } else if s == 54 {
        84
    } else if s == 55 {
        85
    } else if s == 56 {
        86
    } else if s == 57 {
        87
    } else if s == 58 {
        88
    } else if s == 59 {
        89
    } else if s == 60 {
        90
    } else if s == 61 {
        96
    } else if s == 62 {
        99
    } else if s == 63 {
        103
    } else if s == 64 {
        105
    } else if s == 65 {
        106
    } else if s == 66 {
        107
    } else if s == 67 {
        110
    } else if s == 68 {
        111
    } else if s == 69 {
        126
    } else if s == 70 {
        127
    } else {
        -1
    }
}

/// All state names of the nucleus table: the base vowels, then the
/// compounds.
pub open spec fn state_name_list() -> Seq<&'static str> {
    base_vowel_name_list() + compound_name_list()
}

/// The input names: the base vowels, then the shapes.
pub open spec fn input_name_list() -> Seq<&'static str> {
    base_vowel_name_list() + shape_name_list()
}

/// What rule `k` of the nucleus table resolves to, and how it extends the
/// compounds seen before it.
spec fn rule_resolves(k: int) -> bool {
    let r = nucleus_rules()[k];
    let e = builtin_edge(k);
    let c = compounds_before(k);
    let c1 = if e.src == 12 + c {
        c + 1
    } else {
        c
    };
    let c2 = if e.tgt == 12 + c1 {
        c1 + 1
    } else {
        c1
    };
    &&& 0 <= c
    &&& c2 <= 59
    &&& e.src <= 12 + c
    &&& e.tgt <= 12 + c1
    &&& compounds_before(k + 1) == c2
    &&& r.src == state_name_list()[e.src as int]
    &&& r.tgt == state_name_list()[e.tgt as int]
    &&& e.input < 15
    &&& r.input == input_name_list()[e.input as int]
    &&& e.complete == (r.status == Completion::Complete)
    &&& e.complete == builtin_complete(e.tgt as int)
    &&& edge_index(e.src as int, e.input as int) == k
}

/// Every rule of the nucleus table resolves as listed.
#[verifier::spinoff_prover]
proof fn lemma_rule_resolves(k: int)
    requires
        0 <= k < 132,
    ensures
        rule_resolves(k),
{
}

/// Each state name stands at its position: a proof by cases, revealing the
/// characters of each name.
#[verifier::spinoff_prover]
proof fn lemma_state_position(i: int)
    requires
        0 <= i < 71,
    ensures
        state_position(state_name_list()[i]@) == i,
{
    if i == 0 {
        reveal_strlit("Y");
    } else if i == 1 {
        reveal_strlit("U");
    } else if i == 2 {
        reveal_strlit("I");
    } else if i == 3 {
        reveal_strlit("E");
    } else if i == 4 {
        reveal_strlit("O");
    } else if i == 5 {
        reveal_strlit("A");
    } else if i == 6 {
        reveal_strlit("Ư");
    } else if i == 7 {
        reveal_strlit("Â");
    } else if i == 8 {
        reveal_strlit("Ô");
    } else if i == 9 {
        reveal_strlit("Ă");
    } else if i == 10 {
        reveal_strlit("Ê");
    } else if i == 11 {
        reveal_strlit("Ơ");
    } else if i == 12 {
        reveal_strlit("AI");
    } else if i == 13 {
        reveal_strlit("AO");
    } else if i == 14 {
        reveal_strlit("AU");
    } else if i == 15 {
        reveal_strlit("AY");
    } else if i == 16 {
        reveal_strlit("ÂU");
    } else if i == 17 {
        reveal_strlit("ÂY");
    } else if i == 18 {
        reveal_strlit("IA");
    } else if i == 19 {
        reveal_strlit("IU");
    } else if i == 20 {
        reveal_strlit("IE");
    } else if i == 21 {
        reveal_strlit("IEU");
    } else if i == 22 {
        reveal_strlit("IÊ");
    } else if i == 23 {
        reveal_strlit("IÊU");
    } else if i == 24 {
        reveal_strlit("YE");
    } else if i == 25 {
        reveal_strlit("YEU");
    } else if i == 26 {
        reveal_strlit("YÊ");
    } else if i == 27 {
        reveal_strlit("YÊU");
    } else if i == 28 {
        reveal_strlit("EO");
    } else if i == 29 {
        reveal_strlit("EU");
    } else if i == 30 {
        reveal_strlit("ÊU");
    } else if i == 31 {
        reveal_strlit("OA");
    } else if i == 32 {
        reveal_strlit("OĂ");
    } else if i == 33 {
        reveal_strlit("OAI");
    } else if i == 34 {
        reveal_strlit("OAO");
    } else if i == 35 {
        reveal_strlit("OAU");
    } else if i == 36 {
        reveal_strlit("OAY");
    } else if i == 37 {
        reveal_strlit("OE");
    } else if i == 38 {
        reveal_strlit("OEO");
    } else if i == 39 {
        reveal_strlit("OI");
    } else if i == 40 {
        reveal_strlit("ÔI");
    } else if i == 41 {
        reveal_strlit("ƠI");
    } else if i == 42 {
        reveal_strlit("OO");
    } else if i == 43 {
        reveal_strlit("UY");
    } else if i == 44 {
        reveal_strlit("UYU");
    } else if i == 45 {
        reveal_strlit("UYA");
    } else if i == 46 {
        reveal_strlit("UYE");
    } else if i == 47 {
        reveal_strlit("UYÊ");
    } else if i == 48 {
        reveal_strlit("UA");
    } else if i == 49 {
        reveal_strlit("UAO");
    } else if i == 50 {
        reveal_strlit("UÂ");
    } else if i == 51 {
        reveal_strlit("UÂY");
    } else if i == 52 {
        reveal_strlit("ƯA");
    } else if i == 53 {
        reveal_strlit("UO");
    } else if i == 54 {
        reveal_strlit("UOI");
    } else if i == 55 {
        reveal_strlit("UOU");
    } else if i == 56 {
        reveal_strlit("UƠ");
    } else if i == 57 {
        reveal_strlit("ƯƠI");
    } else if i == 58 {
        reveal_strlit("ƯƠU");
    } else if i == 59 {
        reveal_strlit("UÔ");
    } else if i == 60 {
        reveal_strlit("UÔI");
    } else if i == 61 {
        reveal_strlit("ƯƠ");
    } else if i == 62 {
        reveal_strlit("UƠI");
    } else if i == 63 {
        reveal_strlit("UƠU");
    } else if i == 64 {
        reveal_strlit("UE");
    } else if i == 65 {
        reveal_strlit("UÊ");
    } else if i == 66 {
        reveal_strlit("UI");
    } else if i == 67 {
        reveal_strlit("ƯI");
    } else if i == 68 {
        reveal_strlit("ƯO");
    } else if i == 69 {
        reveal_strlit("ƯU");
    } else if i == 70 {
        reveal_strlit("UU");
    }
}

/// Each input name stands at its position.
proof fn lemma_input_position(i: int)
    requires
        0 <= i < 15,
    ensures
        input_position(input_name_list()[i]@) == i,
{
    if i == 0 {
        reveal_strlit("Y");
    } else if i == 1 {
        reveal_strlit("U");
    } else if i == 2 {
        reveal_strlit("I");
    } else if i == 3 {
        reveal_strlit("E");
    } else if i == 4 {
        reveal_strlit("O");
    } else if i == 5 {
        reveal_strlit("A");
    } else if i == 6 {
        reveal_strlit("Ư");
    } else if i == 7 {
        reveal_strlit("Â");
    } else if i == 8 {
        reveal_strlit("Ô");
    } else if i == 9 {
        reveal_strlit("Ă");
    } else if i == 10 {
        reveal_strlit("Ê");
    } else if i == 11 {
        reveal_strlit("Ơ");
    } else if i == 12 {
        reveal_strlit("Circumflex");
    } else if i == 13 {
        reveal_strlit("Breve");
    } else if i == 14 {
        reveal_strlit("Horn");
    }
}

/// Each compound state is the target of the rule [`reached_by`] names.
#[verifier::spinoff_prover]
proof fn lemma_reached_by(s: int)
    requires
        12 <= s < 71,
    ensures
        0 <= reached_by(s) < 132,
        builtin_edge(reached_by(s)).tgt == s,
{
}

/// The bytes of the names of a concatenation are the concatenated bytes.
proof fn lemma_name_bytes_concat(a: Seq<&'static str>, b: Seq<&'static str>)
    ensures
        name_bytes(a + b) == name_bytes(a) + name_bytes(b),
{
    assert(name_bytes(a + b) =~= name_bytes(a) + name_bytes(b));
}

/// The state names of the nucleus table are distinct.
proof fn lemma_states_distinct()
    ensures
        names_distinct(name_bytes(state_name_list())),
{
    let l = state_name_list();
    let nb = name_bytes(l);
    assert forall|i: int, j: int| 0 <= i < nb.len() && 0 <= j < nb.len() && i != j implies nb[i]
        != nb[j] by {
        lemma_state_position(i);
        lemma_state_position(j);
        if nb[i] == nb[j] {
            vstd::utf8::encode_utf8_decode_utf8(l[i]@);
            vstd::utf8::encode_utf8_decode_utf8(l[j]@);
        }
    }
}

/// The input names of the nucleus table are distinct.
proof fn lemma_inputs_distinct()
    ensures
        names_distinct(name_bytes(input_name_list())),
{
    let l = input_name_list();
    let nb = name_bytes(l);
    assert forall|i: int, j: int| 0 <= i < nb.len() && 0 <= j < nb.len() && i != j implies nb[i]
        != nb[j] by {
        lemma_input_position(i);
        lemma_input_position(j);
        if nb[i] == nb[j] {
            vstd::utf8::encode_utf8_decode_utf8(l[i]@);
            vstd::utf8::encode_utf8_decode_utf8(l[j]@);
        }
    }
}

/// The compounds the first `k` rules mention are the first
/// [`compounds_before`] names of [`compound_name_list`].
proof fn lemma_builtin_discovered(k: nat)
    requires
        k <= 132,
    ensures
        discovered(name_bytes(base_vowel_name_list()), nucleus_rules(), k) == name_bytes(
            compound_name_list(),
        ).take(compounds_before(k as int)),
    decreases k,
{
    let b = name_bytes(base_vowel_name_list());
    let d = name_bytes(compound_name_list());
    if k == 0 {
        assert(d.take(0) =~= Seq::<Seq<u8>>::empty());
    } else {
        lemma_builtin_discovered((k - 1) as nat);
        lemma_rule_resolves(k - 1);
        lemma_states_distinct();
        lemma_name_bytes_concat(base_vowel_name_list(), compound_name_list());
        let r = nucleus_rules()[k - 1];
        let e = builtin_edge(k - 1);
        let c = compounds_before(k - 1);
        let c1 = if e.src == 12 + c {
            c + 1
        } else {
            c
        };
        assert((b + d)[e.src as int] == r.src.spec_bytes());
        lemma_note_step(b, d, c, e.src as int);
        assert((b + d)[e.tgt as int] == r.tgt.spec_bytes());
        lemma_note_step(b, d, c1, e.tgt as int);
    }
}

/// The nucleus table has 71 states, and its rules resolve to [`builtin_edge`].
pub proof fn lemma_builtin_resolved()
    ensures
        builtin_state_count() == 71,
        builtin_edges() == Seq::new(132, |k: int| builtin_edge(k)),
{
    let b = name_bytes(base_vowel_name_list());
    let sh = name_bytes(shape_name_list());
    let d = name_bytes(compound_name_list());
    lemma_builtin_discovered(132);
    assert(d.take(59) =~= d);
    lemma_name_bytes_concat(base_vowel_name_list(), compound_name_list());
    lemma_name_bytes_concat(base_vowel_name_list(), shape_name_list());
    let states = state_names(b, nucleus_rules());
    assert(states == name_bytes(state_name_list()));
    lemma_states_distinct();
    lemma_inputs_distinct();
    assert forall|k: int| 0 <= k < 132 implies builtin_edges()[k] == builtin_edge(k) by {
        lemma_rule_resolves(k);
        let e = builtin_edge(k);
        lemma_find_distinct(states, e.src as int);
        lemma_find_distinct(states, e.tgt as int);
        lemma_find_distinct(b + sh, e.input as int);
    }
    assert(builtin_edges() =~= Seq::new(132, |k: int| builtin_edge(k)));
}

/// The nucleus table passes every check of the DFA generator.
pub proof fn lemma_builtin_rules_valid()
    ensures
        rules_valid(
            name_bytes(base_vowel_name_list()),
            name_bytes(shape_name_list()),
            nucleus_rules(),
        ),
        builtin_valid(),
{
    let b = name_bytes(base_vowel_name_list());
    let sh = name_bytes(shape_name_list());
    let rules = nucleus_rules();
    lemma_builtin_resolved();
    lemma_builtin_discovered(132);
    lemma_name_bytes_concat(base_vowel_name_list(), shape_name_list());
    lemma_inputs_distinct();
    let es = builtin_edges();
    assert forall|k: int| 0 <= k < rules.len() implies find(b + sh, #[trigger] rules[k].input.spec_bytes())
        >= 0 by {
        lemma_rule_resolves(k);
        lemma_find_distinct(b + sh, builtin_edge(k).input as int);
    }
    assert(inputs_known(b, sh, rules));
    assert forall|k: int| 0 <= k < es.len() && #[trigger] es[k].tgt < 12 implies es[k].complete by {
        lemma_rule_resolves(k);
    }
    assert(base_targets_complete(es));
    assert forall|k1: int, k2: int|
        0 <= k1 < es.len() && 0 <= k2 < es.len() && #[trigger] es[k1].tgt == #[trigger] es[k2].tgt
        implies es[k1].complete == es[k2].complete by {
        lemma_rule_resolves(k1);
        lemma_rule_resolves(k2);
    }
    assert(statuses_consistent(es));
    assert forall|s: int| 12 <= s < 71 implies #[trigger] is_targeted(es, s) by {
        lemma_reached_by(s);
        assert(es[reached_by(s)].tgt == s);
    }
    assert(compounds_targeted(es, 71));
    assert forall|k1: int, k2: int|
        0 <= k1 < es.len() && 0 <= k2 < es.len() && #[trigger] es[k1].src == #[trigger] es[k2].src
            && es[k1].input == es[k2].input implies es[k1].tgt == es[k2].tgt by {
        lemma_rule_resolves(k1);
        lemma_rule_resolves(k2);
    }
    assert(targets_consistent(es));
    assert forall|k: int| 0 <= k < es.len() implies #[trigger] es[k].input < 15 by {
        lemma_rule_resolves(k);
    }
    lemma_row_offset_bound(es, 70);
}

/// The target of the rule of the nucleus table leaving `s` on `i`, or `-1`.
pub open spec fn table_step(s: int, i: int) -> int {
    if edge_index(s, i) >= 0 {
        builtin_edge(edge_index(s, i)).tgt as int
    } else {
        -1
    }
}

/// The rule [`edge_index`] names leaves `s` on `i`.
#[verifier::spinoff_prover]
proof fn lemma_edge_index(s: int, i: int)
    ensures
        edge_index(s, i) >= 0 ==> {
            &&& edge_index(s, i) < 132
            &&& builtin_edge(edge_index(s, i)).src == s
            &&& builtin_edge(edge_index(s, i)).input == i
        },
{
}

/// A transition of the built-in DFA is the rule lookup of the table, and
/// leads to one of its 71 states.
pub proof fn lemma_builtin_step(s: int, i: int)
    requires
        0 <= s < 71,
        0 <= i < 15,
    ensures
        step(builtin_edges(), 71, s, i) == if table_step(s, i) >= 0 {
            Some(table_step(s, i) as u8)
        } else {
            None::<u8>
        },
        table_step(s, i) < 71,
{
    let es = builtin_edges();
    lemma_builtin_resolved();
    lemma_edge_index(s, i);
    if edge_index(s, i) >= 0 {
        let k = edge_index(s, i);
        lemma_rule_resolves(k);
        assert(es[k].src == s && es[k].input == i);
        assert(has_edge(es, s, i));
        let q = choose|q: int| 0 <= q < es.len() && es[q].src == s && es[q].input == i;
        lemma_rule_resolves(q);
        assert(edge_target(es, s, i) == es[q].tgt);
    } else {
        if has_edge(es, s, i) {
            let q = choose|q: int| 0 <= q < es.len() && es[q].src == s && #[trigger] es[q].input == i;
            lemma_rule_resolves(q);
        }
    }
}

/// A state of the built-in DFA is complete as the table says.
pub proof fn lemma_builtin_state_complete(s: int)
    requires
        0 <= s < 71,
    ensures
        state_complete(builtin_edges(), s) == builtin_complete(s),
{
    let es = builtin_edges();
    lemma_builtin_resolved();
    if s >= 12 {
        lemma_reached_by(s);
        let k = reached_by(s);
        lemma_rule_resolves(k);
        assert(es[k].tgt == s);
        if state_complete(es, s) {
            let q = choose|q: int| 0 <= q < es.len() && #[trigger] es[q].tgt == s && es[q].complete;
            lemma_rule_resolves(q);
        }
    }
}

/// How the built-in DFA classifies the state a walk reached.
pub open spec fn table_status(s: int) -> nucleus::NucleusState {
    if s < 0 {
        nucleus::NucleusState::Dead
    } else if builtin_complete(s) {
        nucleus::NucleusState::Valid
    } else {
        nucleus::NucleusState::InComplete
    }
}

/// The built-in DFA classifies a nucleus of one vowel as the table does.
proof fn lemma_agrees_one(v1: BaseVowel)
    ensures
        classifies_as_table(builtin_edges(), 71, seq![v1]),
{
    lemma_builtin_state_complete(v1.spec_id() as int);
    assert(fold_uo(seq![v1]) == seq![v1]);
}

/// The built-in DFA classifies a nucleus of two vowels as the table does.
proof fn lemma_agrees_two(v1: BaseVowel, v2: BaseVowel)
    ensures
        classifies_as_table(builtin_edges(), 71, seq![v1, v2]),
{
    let es = builtin_edges();
    let v = seq![v1, v2];
    assert(v.drop_last() =~= seq![v1]);
    let s1 = v1.spec_id() as int;
    lemma_builtin_step(s1, v2.spec_id() as int);
    let s2 = table_step(s1, v2.spec_id() as int);
    if s2 >= 0 {
        lemma_builtin_state_complete(s2);
    }
    assert(walk(es, 71, seq![v1]) == Some(s1));
    assert(v.last() == v2);
    assert(walk(es, 71, v) == if s2 >= 0 {
        Some(s2)
    } else {
        None::<int>
    });
    assert(walk_status(es, 71, v) == table_status(s2));
    assert(fold_uo(v) == v);
    assert(table_status(table_step(v1.spec_id() as int, v2.spec_id() as int)) == nucleus::pair_state(v1, v2));
}

/// The state the table walks three vowels to, or `-1`.
pub open spec fn table_walk3(v1: BaseVowel, v2: BaseVowel, v3: BaseVowel) -> int {
    let s2 = table_step(v1.spec_id() as int, v2.spec_id() as int);
    if s2 >= 0 {
        table_step(s2, v3.spec_id() as int)
    } else {
        -1
    }
}

/// The table walk of three vowels classifies them as the nucleus table
/// does, after the u-o fold.
#[verifier::spinoff_prover]
proof fn lemma_table_three(v1: BaseVowel, v2: BaseVowel, v3: BaseVowel)
    ensures
        table_status(table_walk3(v1, v2, v3)) == nucleus::nucleus_state(fold_uo(seq![v1, v2, v3])),
{
}

/// The built-in DFA classifies a nucleus of three vowels as the table does,
/// after the u-o fold.
proof fn lemma_agrees_three(v1: BaseVowel, v2: BaseVowel, v3: BaseVowel)
    ensures
        classifies_as_table(builtin_edges(), 71, seq![v1, v2, v3]),
{
    let es = builtin_edges();
    let v = seq![v1, v2, v3];
    assert(v.drop_last() =~= seq![v1, v2]);
    assert(seq![v1, v2].drop_last() =~= seq![v1]);
    let s1 = v1.spec_id() as int;
    lemma_builtin_step(s1, v2.spec_id() as int);
    let s2 = table_step(s1, v2.spec_id() as int);
    let s3 = if s2 >= 0 {
        table_step(s2, v3.spec_id() as int)
    } else {
        -1
    };
    if s2 >= 0 {
        lemma_builtin_step(s2, v3.spec_id() as int);
        if s3 >= 0 {
            lemma_builtin_state_complete(s3);
        }
    }
    assert(walk(es, 71, seq![v1]) == Some(s1));
    assert(seq![v1, v2].last() == v2);
    assert(v.last() == v3);
    assert(walk(es, 71, seq![v1, v2]) == if s2 >= 0 {
        Some(s2)
    } else {
        None::<int>
    });
    assert(walk(es, 71, v) == if s3 >= 0 {
        Some(s3)
    } else {
        None::<int>
    });
    assert(walk_status(es, 71, v) == table_status(s3));
    lemma_table_three(v1, v2, v3);
}

/// The built-in DFA classifies every nucleus of up to three vowels as the
/// nucleus table does, after the u-o fold.
pub proof fn lemma_builtin_agrees()
    ensures
        agrees_with_table(builtin_edges(), builtin_state_count()),
{
    lemma_builtin_resolved();
    let es = builtin_edges();
    assert forall|v: Seq<BaseVowel>| v.len() <= 3 implies #[trigger] classifies_as_table(es, 71, v) by {
        if v.len() == 0 {
        } else if v.len() == 1 {
            lemma_agrees_one(v[0]);
            assert(v =~= seq![v[0]]);
        } else if v.len() == 2 {
            lemma_agrees_two(v[0], v[1]);
            assert(v =~= seq![v[0], v[1]]);
        } else {
            lemma_agrees_three(v[0], v[1], v[2]);
            assert(v =~= seq![v[0], v[1], v[2]]);
        }
    }
}

/// A DFA built from the nucleus table classifies every nucleus of up to
/// three vowels as the nucleus table does, after the u-o fold.
pub proof fn lemma_built_dfa_classifies(d: VowelDfa, vowels: Seq<BaseVowel>)
    requires
        d.spec_rules() == builtin_edges(),
        d.spec_state_count() == builtin_state_count(),
        vowels.len() <= 3,
    ensures
        walk_status(d.spec_rules(), d.spec_state_count(), vowels) == nucleus::nucleus_state(
            fold_uo(vowels),
        ),
{
    lemma_builtin_agrees();
    assert(classifies_as_table(d.spec_rules(), d.spec_state_count(), vowels));
}

} // verus!
