//! A sparse DFA over Vietnamese vowel nuclei, generated from a declarative
//! table of transitions.
//!
//! Every transition is one rule `CURRENT_STATE => INPUT => NEXT_STATE =>
//! STATUS`, written with names: a state is a base vowel or a compound (the
//! concatenation of its letters, e.g. `YE`, `YÊ`, `UÔ`), an input is a base
//! vowel or a diacritic shape, and the status (`Complete` / `Incomplete`)
//! belongs to the next state.
//!
//! # Inputs (symbol ids)
//! - `0..=11`: the 12 base vowels; the id equals [`BaseVowel::id`].
//! - `12..=14`: the shapes `Circumflex`, `Breve`, `Horn` (see [`shape_id`]).
//!
//! # States
//! - ids `0..=11` are the base-vowel states (same order as inputs);
//! - ids `12..` are compound states, discovered from the rules in order of
//!   first mention.
//!
//! # Completion
//! A nucleus is `Dead` when a step has no transition, `InComplete` when it
//! ends in a state whose COMPLETE bit (bit 15 of the mask) is clear, and
//! `Valid` when that bit is set.
//!
//! # Tables
//! Each state row is a `u16` mask (the outgoing-input bitmap plus the
//! COMPLETE bit) and an offset into the packed transition table, whose rows
//! list the targets of a state in ascending input order. The target of
//! `(state, input)` sits at the row offset plus the number of the state's
//! inputs below `input` (its rank).
//!
//! # Generation
//! [`generate`] resolves the names of a rule table to ids and checks it: at
//! most 63 compound states, every input a known name, base-vowel states only
//! ever called complete, one completion per state and a completion for every
//! compound, one target per `(state, input)` pair (identical duplicates are
//! tolerated), and every row offset below 256. It then packs the two tables.
//! [`VowelDfa::new`] generates the DFA of the Vietnamese nucleus table
//! ([`nucleus_rules`]). The table passes every check, and the DFA classifies
//! every nucleus of up to three vowels as the nucleus table does (after the
//! u-o fold); [`builtin_dfa`] holds the table in resolved form and the proofs.
use vstd::prelude::*;
use vstd::string::StringSliceAdditionalSpecFns;

use crate::phonology::builtin_dfa;
use crate::phonology::rules::nucleus;
use crate::phonology::vowel::{BaseVowel, Shape};

verus! {

/// Bit 15 of a state mask marks a complete (valid) nucleus.
pub const COMPLETE_BIT: u16 = 0x8000;
/// The 15 input-symbol bits (`0..=14`): the mask with the COMPLETE bit clear.
pub const INPUT_MASK: u16 = 0x7FFF;

/// A DFA state: an outgoing-transition bitmap plus an offset into the
/// transition table.
#[derive(Debug, Clone, Copy, PartialEq, Eq, Structural)]
pub struct NucleusState {
    /// Packs the per-input edge bitmap (bits `0..=14`) and the COMPLETE bit 15.
    pub mask: u16,
    /// Index into the transition table of this state's edge row.
    pub transition_offset: u8,
}

/// A rule with its names resolved to ids.
#[derive(Debug, Clone, Copy, PartialEq, Eq, Structural)]
pub struct IdEdge {
    /// The state the transition leaves.
    pub src: u8,
    /// The input symbol it reads.
    pub input: u8,
    /// The state it leads to.
    pub tgt: u8,
    /// Whether the rule calls the target complete.
    pub complete: bool,
}

// ─────────────────────────────────────────────────────────────────────────────
// Bits
// ─────────────────────────────────────────────────────────────────────────────

/// Whether bit `i` of `m` is set.
pub open spec fn bit_set(m: u16, i: u16) -> bool {
    (m >> i) & 1u16 == 1u16
}

/// The number of set bits of `m` below bit `i`.
pub open spec fn rank(m: u16, i: nat) -> nat
    decreases i,
{
    if i == 0 {
        0
    } else {
        rank(m, (i - 1) as nat) + if bit_set(m, (i - 1) as u16) {
            1nat
        } else {
            0nat
        }
    }
}

proof fn lemma_bits(m: u16, i: u16, j: u16)
    by (bit_vector)
    requires
        i < 15,
        j < 16,
    ensures
        bit_set(m | (1u16 << i), j) == (bit_set(m, j) || j == i),
        !bit_set(0u16, j),
        ((m & (1u16 << j)) != 0u16) == bit_set(m, j),
        j < 15 ==> bit_set(m | 0x8000u16, j) == bit_set(m, j),
        bit_set(m | 0x8000u16, 15u16),
        (m | 0u16) == m,
        !bit_set(m, 15u16) ==> ((m | 0x8000u16) & 0x8000u16 != 0u16),
        !bit_set(m, 15u16) ==> ((m | 0u16) & 0x8000u16 == 0u16),
        (1u16 << i) >= 1u16,
{
}

/// `(1 << i) - 1` keeps exactly the bits below `i`.
proof fn lemma_low_bits(m: u16, i: u16, j: u16, low: u16)
    by (bit_vector)
    requires
        i < 15,
        j < 16,
        low == (1u16 << i) - 1,
    ensures
        bit_set(m & 0x7FFFu16 & low, j) == (j < i && bit_set(m, j)),
{
}

/// Masks that agree on their bits below `i` have the same rank at `i`.
proof fn lemma_rank_agree(m1: u16, m2: u16, i: nat)
    requires
        i <= 16,
        forall|j: u16| j < i ==> bit_set(m1, j) == bit_set(m2, j),
    ensures
        rank(m1, i) == rank(m2, i),
    decreases i,
{
    if i > 0 {
        lemma_rank_agree(m1, m2, (i - 1) as nat);
        assert(bit_set(m1, (i - 1) as u16) == bit_set(m2, (i - 1) as u16));
    }
}

/// The rank of the bits of `m` kept below `i` by the mask `(1 << i) - 1`.
proof fn lemma_rank_below(m: u16, i: u16, low: u16, k: nat)
    requires
        i < 15,
        k <= 16,
        low == (1u16 << i) - 1,
    ensures
        rank(m & 0x7FFFu16 & low, k) == rank(m, if k < i { k } else { i as nat }),
    decreases k,
{
    if k > 0 {
        lemma_rank_below(m, i, low, (k - 1) as nat);
        lemma_low_bits(m, i, (k - 1) as u16, low);
    }
}

/// A set bit below `i` adds one to the rank: the rank at a set bit is
/// below the rank of every later position.
proof fn lemma_rank_grows(m: u16, i: nat, k: nat)
    requires
        i < k,
        bit_set(m, i as u16),
        k <= 16,
    ensures
        rank(m, i) < rank(m, k),
    decreases k,
{
    if k > i + 1 {
        lemma_rank_grows(m, i, (k - 1) as nat);
    }
}

/// The rank never decreases.
proof fn lemma_rank_mono(m: u16, i: nat, k: nat)
    requires
        i <= k,
    ensures
        rank(m, i) <= rank(m, k),
        rank(m, k) <= k,
    decreases k,
{
    if k > 0 {
        if i < k {
            lemma_rank_mono(m, i, (k - 1) as nat);
        }
        lemma_rank_mono(m, (k - 1) as nat, (k - 1) as nat);
    }
}

/// The number of ones in the binary representation of `x`.
fn count_ones(x: u16) -> (r: u32)
    ensures
        r == rank(x, 16),
{
    let mut count: u32 = 0;
    let mut i: u16 = 0;
    while i < 16
        invariant
            i <= 16,
            count == rank(x, i as nat),
            count <= i,
        decreases 16 - i,
    {
        proof {
            lemma_bits(x, 0, i);
        }
        if x & (1u16 << i) != 0 {
            count += 1;
        }
        i += 1;
    }
    count
}

// ─────────────────────────────────────────────────────────────────────────────
// The tables a list of resolved rules stands for
// ─────────────────────────────────────────────────────────────────────────────

/// Whether some rule leaves `state` on `input`.
pub open spec fn has_edge(rules: Seq<IdEdge>, state: int, input: int) -> bool {
    exists|k: int| 0 <= k < rules.len() && rules[k].src == state && #[trigger] rules[k].input == input
}

/// The target of a rule leaving `state` on `input`.
pub open spec fn edge_target(rules: Seq<IdEdge>, state: int, input: int) -> u8 {
    rules[choose|k: int| 0 <= k < rules.len() && rules[k].src == state && rules[k].input == input].tgt
}

/// Rules for the same `(state, input)` agree on the target.
pub open spec fn targets_consistent(rules: Seq<IdEdge>) -> bool {
    forall|k1: int, k2: int|
        0 <= k1 < rules.len() && 0 <= k2 < rules.len() && #[trigger] rules[k1].src == #[trigger] rules[k2].src
            && rules[k1].input == rules[k2].input ==> rules[k1].tgt == rules[k2].tgt
}

/// Whether `state` is complete: base-vowel states always are; a compound is
/// when a rule reaching it says so.
pub open spec fn state_complete(rules: Seq<IdEdge>, state: int) -> bool {
    state < 12 || exists|k: int| 0 <= k < rules.len() && #[trigger] rules[k].tgt == state && rules[k].complete
}

/// The outgoing-input bitmap of `state` built from the first `k` rules.
pub open spec fn edge_bits_upto(rules: Seq<IdEdge>, state: int, k: nat) -> u16
    decreases k,
{
    if k == 0 {
        0u16
    } else {
        let prev = edge_bits_upto(rules, state, (k - 1) as nat);
        if rules[k - 1].src == state {
            prev | (1u16 << rules[k - 1].input)
        } else {
            prev
        }
    }
}

/// The outgoing-input bitmap of `state`.
pub open spec fn edge_bits(rules: Seq<IdEdge>, state: int) -> u16 {
    edge_bits_upto(rules, state, rules.len())
}

/// Every rule reads one of the 15 input symbols.
pub open spec fn inputs_in_range(rules: Seq<IdEdge>) -> bool {
    forall|k: int| 0 <= k < rules.len() ==> #[trigger] rules[k].input < 15
}

/// The bitmap has a bit exactly for each input some rule reads in `state`.
proof fn lemma_edge_bits(rules: Seq<IdEdge>, state: int, k: nat)
    requires
        k <= rules.len(),
        inputs_in_range(rules),
    ensures
        forall|i: u16|
            i < 16 ==> #[trigger] bit_set(edge_bits_upto(rules, state, k), i) == (exists|q: int|
                0 <= q < k && rules[q].src == state && rules[q].input == i),
    decreases k,
{
    if k > 0 {
        lemma_edge_bits(rules, state, (k - 1) as nat);
        let prev = edge_bits_upto(rules, state, (k - 1) as nat);
        let e = rules[k - 1];
        assert(e.input < 15);
        assert forall|i: u16| i < 16 implies #[trigger] bit_set(edge_bits_upto(rules, state, k), i)
            == (exists|q: int| 0 <= q < k && rules[q].src == state && rules[q].input == i) by {
            lemma_bits(prev, e.input as u16, i);
            if exists|q: int| 0 <= q < k && rules[q].src == state && rules[q].input == i {
                let q = choose|q: int| 0 <= q < k && rules[q].src == state && rules[q].input == i;
                if q < k - 1 {
                    assert(exists|q: int|
                        0 <= q < k - 1 && rules[q].src == state && rules[q].input == i);
                }
            }
        }
    } else {
        assert forall|i: u16| i < 16 implies !#[trigger] bit_set(edge_bits_upto(rules, state, k), i) by {
            lemma_bits(0, 0, i);
        }
    }
}

/// The bitmap of `state` marks exactly the inputs it has rules for, and
/// never bit 15.
proof fn lemma_edge_bits_has_edge(rules: Seq<IdEdge>, state: int)
    requires
        inputs_in_range(rules),
    ensures
        forall|i: u16| i < 15 ==> #[trigger] bit_set(edge_bits(rules, state), i) == has_edge(rules, state, i as int),
        !bit_set(edge_bits(rules, state), 15),
{
    lemma_edge_bits(rules, state, rules.len());
    assert forall|i: u16| i < 15 implies #[trigger] bit_set(edge_bits(rules, state), i) == has_edge(
        rules,
        state,
        i as int,
    ) by {
        if has_edge(rules, state, i as int) {
            let q = choose|q: int| 0 <= q < rules.len() && rules[q].src == state && #[trigger] rules[q].input == i;
            assert(rules[q].input == i);
        }
    }
    if bit_set(edge_bits(rules, state), 15) {
        let q = choose|q: int| 0 <= q < rules.len() && rules[q].src == state && rules[q].input == 15u16;
        assert(rules[q].input < 15);
    }
}

/// The number of transitions of `state`.
pub open spec fn edge_count(rules: Seq<IdEdge>, state: int) -> nat {
    rank(edge_bits(rules, state), 15)
}

/// The offset of the row of `state`: the transitions of all earlier states.
pub open spec fn row_offset(rules: Seq<IdEdge>, state: nat) -> nat
    decreases state,
{
    if state == 0 {
        0
    } else {
        row_offset(rules, (state - 1) as nat) + edge_count(rules, state - 1)
    }
}

proof fn lemma_row_offset_mono(rules: Seq<IdEdge>, s1: nat, s2: nat)
    requires
        s1 <= s2,
    ensures
        row_offset(rules, s1) <= row_offset(rules, s2),
    decreases s2,
{
    if s1 < s2 {
        lemma_row_offset_mono(rules, s1, (s2 - 1) as nat);
    }
}

/// The state row that encodes `state` for `rules`: its edge bitmap with
/// the COMPLETE bit, and the offset of its transition row.
pub open spec fn row_of(rules: Seq<IdEdge>, state: int) -> NucleusState {
    NucleusState {
        mask: edge_bits(rules, state) | if state_complete(rules, state) {
            0x8000u16
        } else {
            0u16
        },
        transition_offset: row_offset(rules, state as nat) as u8,
    }
}

/// Whether the packed tables encode `rules`: one row per state (12 to 255
/// of them), consistent rules over those states, row offsets that fit a
/// byte, and each row of the transition table holding the targets of its
/// state in ascending input order.
pub open spec fn tables_encode(
    states: Seq<NucleusState>,
    transitions: Seq<u8>,
    rules: Seq<IdEdge>,
) -> bool {
    let n = states.len();
    &&& 12 <= n <= 255
    &&& inputs_in_range(rules)
    &&& targets_consistent(rules)
    &&& forall|k: int| 0 <= k < rules.len() ==> (#[trigger] rules[k]).src < n && rules[k].tgt < n
    &&& forall|s: int| 0 <= s < n ==> #[trigger] states[s] == row_of(rules, s)
    &&& row_offset(rules, (n - 1) as nat) < 256
    &&& transitions.len() == row_offset(rules, n)
    &&& forall|s: int| 0 <= s < n ==> #[trigger] row_filled(transitions, rules, s, 15)
}


// ─────────────────────────────────────────────────────────────────────────────
// Rules written with names, and what they resolve to
// ─────────────────────────────────────────────────────────────────────────────

/// The completion status a rule gives its next state.
#[derive(Debug, Clone, Copy, PartialEq, Eq, Structural)]
pub enum Completion {
    Complete,
    Incomplete,
}

/// One rule `CURRENT_STATE => INPUT => NEXT_STATE => STATUS`, with names.
#[derive(Debug, Clone, Copy)]
pub struct Rule {
    /// The name of the current state.
    pub src: &'static str,
    /// The name of the input: a base vowel or a shape.
    pub input: &'static str,
    /// The name of the next state.
    pub tgt: &'static str,
    /// The completion of the next state.
    pub status: Completion,
}

/// Why a table of rules does not make a DFA.
#[derive(Debug, Clone, Copy, PartialEq, Eq, Structural)]
pub enum DfaError {
    /// More than 63 compound states.
    TooManyStates,
    /// A rule reads a name that is neither a base vowel nor a shape.
    UnknownInput,
    /// A rule leads to a base-vowel state and calls it incomplete.
    IncompleteBaseState,
    /// Two rules leading to one state disagree on its completion.
    ConflictingStatus,
    /// A compound state is never the target of a rule.
    MissingStatus,
    /// Two rules for one `(state, input)` pair lead to different states.
    ConflictingTarget,
    /// A row of the transition table starts beyond offset 255.
    OffsetOverflow,
}

/// The bytes of each name.
pub open spec fn name_bytes(names: Seq<&str>) -> Seq<Seq<u8>> {
    names.map_values(|n: &str| n.spec_bytes())
}

/// The index of the first entry equal to `n` at or after `i`, or `-1`.
pub open spec fn find_from(names: Seq<Seq<u8>>, n: Seq<u8>, i: int) -> int
    decreases names.len() - i,
{
    if i < 0 || i >= names.len() {
        -1
    } else if names[i] == n {
        i
    } else {
        find_from(names, n, i + 1)
    }
}

/// The index of the first entry equal to `n`, or `-1`.
pub open spec fn find(names: Seq<Seq<u8>>, n: Seq<u8>) -> int {
    find_from(names, n, 0)
}

/// `seen` with the compound name `n` appended, unless `n` is a base name or
/// already seen.
pub open spec fn note_name(base: Seq<Seq<u8>>, seen: Seq<Seq<u8>>, n: Seq<u8>) -> Seq<Seq<u8>> {
    if find(base, n) >= 0 || find(seen, n) >= 0 {
        seen
    } else {
        seen.push(n)
    }
}

/// The compound names of the first `k` rules, in order of first mention
/// (the source of a rule before its target).
pub open spec fn discovered(base: Seq<Seq<u8>>, rules: Seq<Rule>, k: nat) -> Seq<Seq<u8>>
    decreases k,
{
    if k == 0 {
        Seq::empty()
    } else {
        let r = rules[k - 1];
        note_name(
            base,
            note_name(base, discovered(base, rules, (k - 1) as nat), r.src.spec_bytes()),
            r.tgt.spec_bytes(),
        )
    }
}

/// The state names: the base vowels, then the compounds.
pub open spec fn state_names(base: Seq<Seq<u8>>, rules: Seq<Rule>) -> Seq<Seq<u8>> {
    base + discovered(base, rules, rules.len())
}

/// A rule with its names replaced by their ids.
pub open spec fn resolve_rule(states: Seq<Seq<u8>>, inputs: Seq<Seq<u8>>, r: Rule) -> IdEdge {
    IdEdge {
        src: find(states, r.src.spec_bytes()) as u8,
        input: find(inputs, r.input.spec_bytes()) as u8,
        tgt: find(states, r.tgt.spec_bytes()) as u8,
        complete: r.status == Completion::Complete,
    }
}

/// The rules with their names replaced by ids: states are numbered in
/// [`state_names`] order, inputs as the base vowels and then the shapes.
pub open spec fn resolved(base: Seq<Seq<u8>>, shapes: Seq<Seq<u8>>, rules: Seq<Rule>) -> Seq<IdEdge> {
    rules.map_values(|r: Rule| resolve_rule(state_names(base, rules), base + shapes, r))
}

/// Every rule reads a base-vowel or shape name.
pub open spec fn inputs_known(base: Seq<Seq<u8>>, shapes: Seq<Seq<u8>>, rules: Seq<Rule>) -> bool {
    forall|k: int| 0 <= k < rules.len() ==> find(base + shapes, #[trigger] rules[k].input.spec_bytes()) >= 0
}

/// Every rule leading to a base-vowel state calls it complete.
pub open spec fn base_targets_complete(es: Seq<IdEdge>) -> bool {
    forall|k: int| 0 <= k < es.len() && #[trigger] es[k].tgt < 12 ==> es[k].complete
}

/// Rules leading to one state agree on its completion.
pub open spec fn statuses_consistent(es: Seq<IdEdge>) -> bool {
    forall|k1: int, k2: int|
        0 <= k1 < es.len() && 0 <= k2 < es.len() && #[trigger] es[k1].tgt == #[trigger] es[k2].tgt
            ==> es[k1].complete == es[k2].complete
}

/// Whether some rule leads to `state`.
pub open spec fn is_targeted(es: Seq<IdEdge>, state: int) -> bool {
    exists|k: int| 0 <= k < es.len() && #[trigger] es[k].tgt == state
}

/// Every compound state is the target of some rule.
pub open spec fn compounds_targeted(es: Seq<IdEdge>, n: nat) -> bool {
    forall|s: int| 12 <= s < n ==> #[trigger] is_targeted(es, s)
}

/// Whether the rules make a DFA: the conditions [`generate`] checks, in order.
pub open spec fn rules_valid(base: Seq<Seq<u8>>, shapes: Seq<Seq<u8>>, rules: Seq<Rule>) -> bool {
    let es = resolved(base, shapes, rules);
    let n = state_names(base, rules).len();
    &&& discovered(base, rules, rules.len()).len() < 64
    &&& inputs_known(base, shapes, rules)
    &&& base_targets_complete(es)
    &&& statuses_consistent(es)
    &&& compounds_targeted(es, n)
    &&& targets_consistent(es)
    &&& row_offset(es, (n - 1) as nat) < 256
}

// ─────────────────────────────────────────────────────────────────────────────
// Name lookup
// ─────────────────────────────────────────────────────────────────────────────

/// `find_from` finds the first matching entry, and `-1` means there is none.
proof fn lemma_find(names: Seq<Seq<u8>>, n: Seq<u8>, i: int)
    requires
        0 <= i,
    ensures
        find_from(names, n, i) == -1 <==> forall|j: int| i <= j < names.len() ==> names[j] != n,
        find_from(names, n, i) >= 0 ==> i <= find_from(names, n, i) < names.len()
            && names[find_from(names, n, i)] == n,
        find_from(names, n, i) >= -1,
    decreases names.len() - i,
{
    if i < names.len() {
        lemma_find(names, n, i + 1);
        if names[i] != n && find_from(names, n, i + 1) == -1 {
            assert forall|j: int| i <= j < names.len() implies names[j] != n by {
                if j > i {
                }
            }
        }
    }
}

/// A name that occurs at `j` has an index no later than `j`.
proof fn lemma_find_some(names: Seq<Seq<u8>>, n: Seq<u8>, i: int, j: int)
    requires
        0 <= i <= j < names.len(),
        names[j] == n,
    ensures
        i <= find_from(names, n, i) <= j,
        names[find_from(names, n, i)] == n,
    decreases j - i,
{
    if names[i] != n {
        lemma_find_some(names, n, i + 1, j);
    }
}

/// Byte-wise equality of two slices.
fn bytes_eq(a: &[u8], b: &[u8]) -> (r: bool)
    ensures
        r == (a@ == b@),
{
    if a.len() != b.len() {
        return false;
    }
    let mut i: usize = 0;
    while i < a.len()
        invariant
            a@.len() == b@.len(),
            i <= a.len(),
            forall|j: int| 0 <= j < i ==> a@[j] == b@[j],
        decreases a.len() - i,
    {
        if a[i] != b[i] {
            return false;
        }
        i += 1;
    }
    assert(a@ =~= b@);
    true
}

/// Whether two names are spelled with the same bytes.
fn name_eq(a: &str, b: &str) -> (r: bool)
    ensures
        r == (a.spec_bytes() == b.spec_bytes()),
{
    bytes_eq(a.as_bytes(), b.as_bytes())
}

/// The index of the first name in `names` spelled as `n`.
fn find_name(names: &Vec<&'static str>, n: &str) -> (r: Option<usize>)
    ensures
        match r {
            Some(i) => i == find(name_bytes(names@), n.spec_bytes()) && i < names.len(),
            None => find(name_bytes(names@), n.spec_bytes()) == -1,
        },
{
    let ghost nb = name_bytes(names@);
    let mut i: usize = 0;
    while i < names.len()
        invariant
            nb == name_bytes(names@),
            i <= names.len(),
            find(nb, n.spec_bytes()) == find_from(nb, n.spec_bytes(), i as int),
        decreases names.len() - i,
    {
        if name_eq(names[i], n) {
            return Some(i);
        }
        i += 1;
    }
    None
}

// ─────────────────────────────────────────────────────────────────────────────
// Discovering the compound states
// ─────────────────────────────────────────────────────────────────────────────

/// The compounds of fewer rules are a prefix of those of more rules.
proof fn lemma_discovered_prefix(base: Seq<Seq<u8>>, rules: Seq<Rule>, k1: nat, k2: nat)
    requires
        k1 <= k2 <= rules.len(),
    ensures
        discovered(base, rules, k1).len() <= discovered(base, rules, k2).len(),
        forall|j: int|
            0 <= j < discovered(base, rules, k1).len() ==> #[trigger] discovered(base, rules, k2)[j]
                == discovered(base, rules, k1)[j],
    decreases k2,
{
    if k1 < k2 {
        lemma_discovered_prefix(base, rules, k1, (k2 - 1) as nat);
    }
}

/// A name occurs in `base + d`, where it occurs in `base` or in `d`.
proof fn lemma_found_in_concat(base: Seq<Seq<u8>>, d: Seq<Seq<u8>>, x: Seq<u8>, j: int)
    requires
        find(base, x) >= 0 || (0 <= j < d.len() && d[j] == x),
    ensures
        0 <= find(base + d, x) < base.len() + d.len(),
        (base + d)[find(base + d, x)] == x,
{
    let all = base + d;
    if find(base, x) >= 0 {
        lemma_find(base, x, 0);
        let p = find(base, x);
        assert(all[p] == x);
        lemma_find_some(all, x, 0, p);
    } else {
        assert(all[base.len() + j] == x);
        lemma_find_some(all, x, 0, base.len() + j);
    }
}

/// After `note_name`, the name is a base name or occurs in the result, and
/// everything seen before stays in place.
proof fn lemma_note_name(base: Seq<Seq<u8>>, seen: Seq<Seq<u8>>, n: Seq<u8>)
    ensures
        find(base, n) >= 0 || exists|j: int|
            0 <= j < note_name(base, seen, n).len() && #[trigger] note_name(base, seen, n)[j] == n,
        seen.len() <= note_name(base, seen, n).len() <= seen.len() + 1,
        forall|j: int| 0 <= j < seen.len() ==> #[trigger] note_name(base, seen, n)[j] == seen[j],
{
    if find(base, n) < 0 && find(seen, n) >= 0 {
        lemma_find(seen, n, 0);
        let p = find(seen, n);
        assert(note_name(base, seen, n)[p] == n);
    }
    if find(base, n) < 0 && find(seen, n) < 0 {
        assert(note_name(base, seen, n)[seen.len() as int] == n);
    }
}

/// Each source and target name of a rule is a base name or a compound.
proof fn lemma_rule_names_found(base: Seq<Seq<u8>>, rules: Seq<Rule>, k: int)
    requires
        0 <= k < rules.len(),
    ensures
        0 <= find(state_names(base, rules), rules[k].src.spec_bytes()) < state_names(base, rules).len(),
        state_names(base, rules)[find(state_names(base, rules), rules[k].src.spec_bytes())]
            == rules[k].src.spec_bytes(),
        0 <= find(state_names(base, rules), rules[k].tgt.spec_bytes()) < state_names(base, rules).len(),
        state_names(base, rules)[find(state_names(base, rules), rules[k].tgt.spec_bytes())]
            == rules[k].tgt.spec_bytes(),
{
    let r = rules[k];
    let d0 = discovered(base, rules, k as nat);
    let d1 = note_name(base, d0, r.src.spec_bytes());
    let d2 = note_name(base, d1, r.tgt.spec_bytes());
    let all = discovered(base, rules, rules.len());
    assert(d2 == discovered(base, rules, (k + 1) as nat));
    lemma_discovered_prefix(base, rules, (k + 1) as nat, rules.len());
    lemma_note_name(base, d0, r.src.spec_bytes());
    lemma_note_name(base, d1, r.tgt.spec_bytes());
    if find(base, r.src.spec_bytes()) >= 0 {
        lemma_found_in_concat(base, all, r.src.spec_bytes(), 0);
    } else {
        let j = choose|j: int| 0 <= j < d1.len() && #[trigger] d1[j] == r.src.spec_bytes();
        assert(d2[j] == d1[j]);
        assert(all[j] == d2[j]);
        lemma_found_in_concat(base, all, r.src.spec_bytes(), j);
    }
    if find(base, r.tgt.spec_bytes()) >= 0 {
        lemma_found_in_concat(base, all, r.tgt.spec_bytes(), 0);
    } else {
        let j = choose|j: int| 0 <= j < d2.len() && #[trigger] d2[j] == r.tgt.spec_bytes();
        assert(all[j] == d2[j]);
        lemma_found_in_concat(base, all, r.tgt.spec_bytes(), j);
    }
}

/// No name occurs twice.
pub open spec fn names_distinct(names: Seq<Seq<u8>>) -> bool {
    forall|i: int, j: int|
        0 <= i < names.len() && 0 <= j < names.len() && i != j ==> #[trigger] names[i]
            != #[trigger] names[j]
}

/// In a list of distinct names, a name is found where it stands.
pub(crate) proof fn lemma_find_distinct(names: Seq<Seq<u8>>, i: int)
    requires
        names_distinct(names),
        0 <= i < names.len(),
    ensures
        find(names, names[i]) == i,
{
    lemma_find_some(names, names[i], 0, i);
}

/// Noting the name at position `a` of the distinct list `base + d`, after
/// the first `c` compounds of `d` were seen: a base name or a name seen
/// before changes nothing, the next compound of `d` is appended.
pub(crate) proof fn lemma_note_step(base: Seq<Seq<u8>>, d: Seq<Seq<u8>>, c: int, a: int)
    requires
        names_distinct(base + d),
        0 <= c <= d.len(),
        0 <= a <= base.len() + c,
        a < base.len() + d.len(),
    ensures
        note_name(base, d.take(c), (base + d)[a]) == d.take(
            if a == base.len() + c {
                c + 1
            } else {
                c
            },
        ),
{
    let all = base + d;
    let n = all[a];
    let seen = d.take(c);
    if a < base.len() {
        assert(base[a] == n);
        lemma_find_some(base, n, 0, a);
    } else if a < base.len() + c {
        assert(seen[a - base.len()] == n);
        lemma_find_some(seen, n, 0, a - base.len());
        lemma_find(base, n, 0);
    } else {
        assert forall|j: int| 0 <= j < base.len() implies base[j] != n by {
            assert(all[j] == base[j]);
        }
        assert forall|j: int| 0 <= j < seen.len() implies seen[j] != n by {
            assert(all[base.len() + j] == seen[j]);
        }
        lemma_find(base, n, 0);
        lemma_find(seen, n, 0);
        assert(seen.push(n) =~= d.take(c + 1));
    }
}

/// The number of the first `k` rules that leave `state`.
pub open spec fn src_count(rules: Seq<IdEdge>, state: int, k: nat) -> nat
    decreases k,
{
    if k == 0 {
        0
    } else {
        src_count(rules, state, (k - 1) as nat) + if rules[k - 1].src == state {
            1nat
        } else {
            0nat
        }
    }
}

/// The number of the first `k` rules that leave a state below `m`.
pub open spec fn src_count_below(rules: Seq<IdEdge>, m: nat, k: nat) -> nat
    decreases m,
{
    if m == 0 {
        0
    } else {
        src_count_below(rules, (m - 1) as nat, k) + src_count(rules, m - 1, k)
    }
}

/// Setting one bit adds at most one to the rank.
proof fn lemma_rank_set_bit(m: u16, i: u16, n: nat)
    requires
        i < 15,
        n <= 16,
    ensures
        rank(m | (1u16 << i), n) <= rank(m, n) + 1,
        i as nat >= n ==> rank(m | (1u16 << i), n) == rank(m, n),
    decreases n,
{
    if n > 0 {
        lemma_rank_set_bit(m, i, (n - 1) as nat);
        lemma_bits(m, i, (n - 1) as u16);
    }
}

/// The empty mask has no set bits.
proof fn lemma_rank_zero(n: nat)
    requires
        n <= 16,
    ensures
        rank(0u16, n) == 0,
    decreases n,
{
    if n > 0 {
        lemma_rank_zero((n - 1) as nat);
        lemma_bits(0u16, 0, (n - 1) as u16);
    }
}

/// A state has no more transitions than rules leaving it.
proof fn lemma_edge_bits_count(rules: Seq<IdEdge>, state: int, k: nat)
    requires
        inputs_in_range(rules),
        k <= rules.len(),
    ensures
        rank(edge_bits_upto(rules, state, k), 15) <= src_count(rules, state, k),
    decreases k,
{
    if k == 0 {
        lemma_rank_zero(15);
    } else {
        lemma_edge_bits_count(rules, state, (k - 1) as nat);
        if rules[k - 1].src == state {
            let x = rules[k - 1].input;
            assert(x < 15);
            assert((1u16 << x) == (1u16 << (x as u16))) by (bit_vector);
            let prev = edge_bits_upto(rules, state, (k - 1) as nat);
            lemma_rank_set_bit(prev, x as u16, 15);

        }
    }
}

/// Adding a rule adds one to the count of the states below `m` it leaves.
proof fn lemma_src_count_below_step(rules: Seq<IdEdge>, m: nat, k: nat)
    requires
        0 < k,
    ensures
        src_count_below(rules, m, k) == src_count_below(rules, m, (k - 1) as nat) + if rules[k
            - 1].src < m {
            1nat
        } else {
            0nat
        },
    decreases m,
{
    if m > 0 {
        lemma_src_count_below_step(rules, (m - 1) as nat, k);
    }
}

/// The first `k` rules leave states below `m` at most `k` times.
proof fn lemma_src_count_below(rules: Seq<IdEdge>, m: nat, k: nat)
    ensures
        src_count_below(rules, m, k) <= k,
    decreases k,
{
    if k > 0 {
        lemma_src_count_below(rules, m, (k - 1) as nat);
        lemma_src_count_below_step(rules, m, k);
    } else {
        lemma_src_count_zero(rules, m);
    }
}

/// No rule leaves a state among none.
proof fn lemma_src_count_zero(rules: Seq<IdEdge>, m: nat)
    ensures
        src_count_below(rules, m, 0) == 0,
    decreases m,
{
    if m > 0 {
        lemma_src_count_zero(rules, (m - 1) as nat);
    }
}

/// The transition table is no longer than the list of rules.
pub(crate) proof fn lemma_row_offset_bound(rules: Seq<IdEdge>, m: nat)
    requires
        inputs_in_range(rules),
    ensures
        row_offset(rules, m) <= src_count_below(rules, m, rules.len()),
        row_offset(rules, m) <= rules.len(),
    decreases m,
{
    if m > 0 {
        lemma_row_offset_bound(rules, (m - 1) as nat);
        lemma_edge_bits_count(rules, m - 1, rules.len());
    }
    lemma_src_count_below(rules, m, rules.len());
}

/// Appends the compound name `n` to `seen` unless it is a base name or
/// already seen.
fn note(seen: &mut Vec<&'static str>, base: &Vec<&'static str>, n: &'static str)
    ensures
        name_bytes(final(seen)@) == note_name(name_bytes(base@), name_bytes(old(seen)@), n.spec_bytes()),
{
    if find_name(base, n).is_none() && find_name(seen, n).is_none() {
        let ghost before = seen@;
        seen.push(n);
        assert(name_bytes(seen@) =~= name_bytes(before).push(n.spec_bytes()));
    }
}

/// The compound state names of `rules`, in order of first mention.
fn discover(rules: &[Rule], base: &Vec<&'static str>) -> (r: Vec<&'static str>)
    ensures
        name_bytes(r@) == discovered(name_bytes(base@), rules@, rules@.len()),
{
    let mut seen: Vec<&'static str> = Vec::new();
    assert(name_bytes(seen@) =~= Seq::<Seq<u8>>::empty());
    let mut k: usize = 0;
    while k < rules.len()
        invariant
            k <= rules.len(),
            name_bytes(seen@) == discovered(name_bytes(base@), rules@, k as nat),
        decreases rules.len() - k,
    {
        let r = rules[k];
        note(&mut seen, base, r.src);
        note(&mut seen, base, r.tgt);
        k += 1;
    }
    seen
}

// ─────────────────────────────────────────────────────────────────────────────
// Resolving names to ids
// ─────────────────────────────────────────────────────────────────────────────

/// `a` followed by `b`.
fn concat_names(a: &Vec<&'static str>, b: &Vec<&'static str>) -> (r: Vec<&'static str>)
    ensures
        r@ == a@ + b@,
        name_bytes(r@) == name_bytes(a@) + name_bytes(b@),
{
    let mut r: Vec<&'static str> = Vec::new();
    let mut i: usize = 0;
    while i < a.len()
        invariant
            i <= a.len(),
            r@ == a@.subrange(0, i as int),
        decreases a.len() - i,
    {
        r.push(a[i]);
        i += 1;
        assert(r@ =~= a@.subrange(0, i as int));
    }
    let mut j: usize = 0;
    while j < b.len()
        invariant
            j <= b.len(),
            r@ == a@ + b@.subrange(0, j as int),
        decreases b.len() - j,
    {
        r.push(b[j]);
        j += 1;
        assert(r@ =~= a@ + b@.subrange(0, j as int));
    }
    assert(r@ =~= a@ + b@);
    assert(name_bytes(r@) =~= name_bytes(a@) + name_bytes(b@));
    r
}

/// The rules with their names replaced by ids, or `UnknownInput` when a
/// rule reads a name that is not an input.
fn resolve_rules(
    rules: &[Rule],
    states: &Vec<&'static str>,
    inputs: &Vec<&'static str>,
    Ghost(base): Ghost<Seq<Seq<u8>>>,
    Ghost(shapes): Ghost<Seq<Seq<u8>>>,
) -> (r: Result<Vec<IdEdge>, DfaError>)
    requires
        name_bytes(states@) == state_names(base, rules@),
        name_bytes(inputs@) == base + shapes,
        states.len() <= 255,
        inputs.len() <= 255,
    ensures
        match r {
            Ok(es) => {
                &&& inputs_known(base, shapes, rules@)
                &&& es@ == resolved(base, shapes, rules@)
                &&& forall|k: int|
                    0 <= k < es.len() ==> (#[trigger] es@[k]).src < states.len() && es@[k].tgt < states.len()
                        && es@[k].input < inputs.len()
            },
            Err(e) => e == DfaError::UnknownInput && !inputs_known(base, shapes, rules@),
        },
{
    let ghost names = state_names(base, rules@);
    let mut es: Vec<IdEdge> = Vec::new();
    let mut k: usize = 0;
    while k < rules.len()
        invariant
            k <= rules.len(),
            names == state_names(base, rules@),
            name_bytes(states@) == names,
            name_bytes(inputs@) == base + shapes,
            states.len() <= 255,
            inputs.len() <= 255,
            es.len() == k,
            forall|q: int| 0 <= q < k ==> find(base + shapes, #[trigger] rules@[q].input.spec_bytes()) >= 0,
            forall|q: int| 0 <= q < k ==> #[trigger] es@[q] == resolve_rule(names, base + shapes, rules@[q]),
            forall|q: int|
                0 <= q < k ==> (#[trigger] es@[q]).src < states.len() && es@[q].tgt < states.len()
                    && es@[q].input < inputs.len(),
        decreases rules.len() - k,
    {
        let r = rules[k];
        proof {
            lemma_rule_names_found(base, rules@, k as int);
        }
        let input = match find_name(inputs, r.input) {
            Some(i) => i,
            None => {
                assert(!inputs_known(base, shapes, rules@));
                return Err(DfaError::UnknownInput);
            },
        };
        let src = find_name(states, r.src).unwrap();
        let tgt = find_name(states, r.tgt).unwrap();
        let complete = match r.status {
            Completion::Complete => true,
            Completion::Incomplete => false,
        };
        es.push(IdEdge { src: src as u8, input: input as u8, tgt: tgt as u8, complete });
        k += 1;
    }
    assert(es@ =~= resolved(base, shapes, rules@));
    Ok(es)
}

// ─────────────────────────────────────────────────────────────────────────────
// Checking and packing the resolved rules
// ─────────────────────────────────────────────────────────────────────────────

/// The completion of every state, after checking that base-vowel states are
/// only called complete, that rules agree on each state, and that every
/// compound has a status.
fn check_statuses(es: &Vec<IdEdge>, n: usize) -> (r: Result<Vec<bool>, DfaError>)
    requires
        12 <= n <= 255,
        forall|k: int| 0 <= k < es.len() ==> (#[trigger] es@[k]).tgt < n,
    ensures
        match r {
            Ok(c) => {
                &&& base_targets_complete(es@)
                &&& statuses_consistent(es@)
                &&& compounds_targeted(es@, n as nat)
                &&& c.len() == n
                &&& forall|s: int| 0 <= s < n ==> #[trigger] c@[s] == state_complete(es@, s)
            },
            Err(e) => {
                ||| e == DfaError::IncompleteBaseState && !base_targets_complete(es@)
                ||| e == DfaError::ConflictingStatus && !statuses_consistent(es@)
                ||| e == DfaError::MissingStatus && base_targets_complete(es@) && statuses_consistent(es@)
                    && !compounds_targeted(es@, n as nat)
            },
        },
{
    // 0: no status yet; 1: incomplete; 2: complete.
    let mut status: Vec<u8> = Vec::new();
    let mut s: usize = 0;
    while s < n
        invariant
            s <= n,
            status.len() == s,
            forall|t: int| 0 <= t < s ==> #[trigger] status@[t] == if t < 12 { 2u8 } else { 0u8 },
        decreases n - s,
    {
        status.push(if s < 12 { 2u8 } else { 0u8 });
        s += 1;
    }
    let mut k: usize = 0;
    while k < es.len()
        invariant
            12 <= n <= 255,
            forall|q: int| 0 <= q < es.len() ==> (#[trigger] es@[q]).tgt < n,
            k <= es.len(),
            status.len() == n,
            forall|t: int| 0 <= t < 12 ==> #[trigger] status@[t] == 2u8,
            forall|t: int|
                12 <= t < n ==> (#[trigger] status@[t] == 0u8 <==> !exists|q: int|
                    0 <= q < k && #[trigger] es@[q].tgt == t),
            forall|q: int|
                0 <= q < k && (#[trigger] es@[q]).tgt >= 12 ==> status@[es@[q].tgt as int] == if es@[q].complete {
                    2u8
                } else {
                    1u8
                },
            forall|q: int| 0 <= q < k && (#[trigger] es@[q]).tgt < 12 ==> es@[q].complete,
        decreases es.len() - k,
    {
        let e = es[k];
        let t = e.tgt as usize;
        let code: u8 = if e.complete { 2 } else { 1 };
        if t < 12 {
            if !e.complete {
                assert(!base_targets_complete(es@)) by {
                    assert(es@[k as int].tgt < 12);
                }
                return Err(DfaError::IncompleteBaseState);
            }
        } else if status[t] == 0 {
            status.set(t, code);
        } else if status[t] != code {
            let ghost q = choose|q: int| 0 <= q < k && #[trigger] es@[q].tgt == t;
            assert(!statuses_consistent(es@)) by {
                assert(es@[q].tgt == es@[k as int].tgt);
            }
            return Err(DfaError::ConflictingStatus);
        }
        k += 1;
        assert forall|t2: int|
            12 <= t2 < n implies (#[trigger] status@[t2] == 0u8 <==> !exists|q: int|
                0 <= q < k && #[trigger] es@[q].tgt == t2) by {
            if t2 != t {
                if exists|q: int| 0 <= q < k && #[trigger] es@[q].tgt == t2 {
                    let q = choose|q: int| 0 <= q < k && #[trigger] es@[q].tgt == t2;
                    assert(q < k - 1);
                }
            } else {
                assert(es@[k - 1].tgt == t2);
            }
        }
    }
    assert(statuses_consistent(es@)) by {
        assert forall|k1: int, k2: int|
            0 <= k1 < es.len() && 0 <= k2 < es.len() && #[trigger] es@[k1].tgt == #[trigger] es@[k2].tgt
                implies es@[k1].complete == es@[k2].complete by {
            if es@[k1].tgt >= 12 {
                assert(status@[es@[k1].tgt as int] == status@[es@[k2].tgt as int]);
            }
        }
    }
    assert(base_targets_complete(es@));
    let mut c: Vec<bool> = Vec::new();
    let mut s: usize = 0;
    while s < n
        invariant
            12 <= n <= 255,
            base_targets_complete(es@),
            statuses_consistent(es@),
            s <= n,
            status.len() == n,
            c.len() == s,
            forall|t: int| 0 <= t < 12 ==> #[trigger] status@[t] == 2u8,
            forall|t: int|
                12 <= t < n ==> (#[trigger] status@[t] == 0u8 <==> !exists|q: int|
                    0 <= q < es.len() && #[trigger] es@[q].tgt == t),
            forall|q: int|
                0 <= q < es.len() && (#[trigger] es@[q]).tgt >= 12 ==> status@[es@[q].tgt as int]
                    == if es@[q].complete {
                    2u8
                } else {
                    1u8
                },
            forall|t: int| 12 <= t < s ==> #[trigger] is_targeted(es@, t),
            forall|t: int| 0 <= t < s ==> #[trigger] c@[t] == state_complete(es@, t),
        decreases n - s,
    {
        if status[s] == 0 {
            assert(!is_targeted(es@, s as int));
            return Err(DfaError::MissingStatus);
        }
        proof {
            if s >= 12 {
                let q = choose|q: int| 0 <= q < es.len() && #[trigger] es@[q].tgt == s;
                assert(is_targeted(es@, s as int));
                if status@[s as int] == 2u8 {
                    assert(es@[q].complete);
                } else {
                    assert forall|q2: int| 0 <= q2 < es.len() && #[trigger] es@[q2].tgt == s implies !es@[q2].complete by {
                        assert(status@[es@[q2].tgt as int] == status@[s as int]);
                    }
                }
            }
        }
        c.push(status[s] == 2);
        s += 1;
    }
    Ok(c)
}

/// Whether a rule among the first `k` leaves `state` on `input`.
pub open spec fn has_edge_upto(rules: Seq<IdEdge>, state: int, input: int, k: int) -> bool {
    exists|q: int| 0 <= q < k && rules[q].src == state && #[trigger] rules[q].input == input
}

/// The outgoing-input bitmap of every state.
fn edge_masks(es: &Vec<IdEdge>, n: usize) -> (r: Vec<u16>)
    requires
        n <= 255,
        inputs_in_range(es@),
        forall|k: int| 0 <= k < es.len() ==> (#[trigger] es@[k]).src < n,
    ensures
        r.len() == n,
        forall|s: int| 0 <= s < n ==> #[trigger] r@[s] == edge_bits(es@, s),
{
    let mut masks: Vec<u16> = Vec::new();
    let mut s: usize = 0;
    while s < n
        invariant
            s <= n,
            masks.len() == s,
            forall|t: int| 0 <= t < s ==> #[trigger] masks@[t] == 0u16,
        decreases n - s,
    {
        masks.push(0u16);
        s += 1;
    }
    let mut k: usize = 0;
    while k < es.len()
        invariant
            n <= 255,
            inputs_in_range(es@),
            forall|q: int| 0 <= q < es.len() ==> (#[trigger] es@[q]).src < n,
            k <= es.len(),
            masks.len() == n,
            forall|t: int| 0 <= t < n ==> #[trigger] masks@[t] == edge_bits_upto(es@, t, k as nat),
        decreases es.len() - k,
    {
        let e = es[k];
        assert(e.input < 15);
        let src = e.src as usize;
        let m = masks[src];
        masks.set(src, m | (1u16 << e.input));
        k += 1;
    }
    masks
}

/// The target of every `(state, input)` pair (`255` where there is none),
/// after checking that rules for one pair agree.
fn edge_table(es: &Vec<IdEdge>, n: usize) -> (r: Result<Vec<[u8; 15]>, DfaError>)
    requires
        n <= 255,
        inputs_in_range(es@),
        forall|k: int| 0 <= k < es.len() ==> (#[trigger] es@[k]).src < n && es@[k].tgt < n,
    ensures
        match r {
            Ok(t) => {
                &&& targets_consistent(es@)
                &&& t.len() == n
                &&& forall|s: int, i: int|
                    0 <= s < n && 0 <= i < 15 ==> (#[trigger] t@[s][i] != 255u8 <==> has_edge(es@, s, i))
                &&& forall|s: int, i: int|
                    0 <= s < n && 0 <= i < 15 && has_edge(es@, s, i) ==> #[trigger] t@[s][i] == edge_target(
                        es@,
                        s,
                        i,
                    )
            },
            Err(e) => e == DfaError::ConflictingTarget && !targets_consistent(es@),
        },
{
    let mut table: Vec<[u8; 15]> = Vec::new();
    let mut s: usize = 0;
    while s < n
        invariant
            s <= n,
            table.len() == s,
            forall|t: int, i: int| 0 <= t < s && 0 <= i < 15 ==> #[trigger] table@[t][i] == 255u8,
        decreases n - s,
    {
        table.push([255u8; 15]);
        s += 1;
    }
    let mut k: usize = 0;
    while k < es.len()
        invariant
            n <= 255,
            inputs_in_range(es@),
            forall|q: int| 0 <= q < es.len() ==> (#[trigger] es@[q]).src < n && es@[q].tgt < n,
            k <= es.len(),
            table.len() == n,
            forall|t: int, i: int|
                0 <= t < n && 0 <= i < 15 ==> (#[trigger] table@[t][i] == 255u8 <==> !has_edge_upto(
                    es@,
                    t,
                    i,
                    k as int,
                )),
            forall|q: int|
                0 <= q < k ==> #[trigger] table@[es@[q].src as int][es@[q].input as int] == es@[q].tgt,
        decreases es.len() - k,
    {
        let e = es[k];
        assert(e.input < 15);
        let src = e.src as usize;
        let input = e.input as usize;
        let mut row = table[src];
        if row[input] != 255 && row[input] != e.tgt {
            assert(has_edge_upto(es@, src as int, input as int, k as int));
            let ghost q = choose|q: int| 0 <= q < k && es@[q].src == src && #[trigger] es@[q].input == input;
            assert(!targets_consistent(es@)) by {
                assert(es@[q].src == es@[k as int].src);
            }
            return Err(DfaError::ConflictingTarget);
        }
        row.set(input, e.tgt);
        table.set(src, row);
        k += 1;
        assert forall|t: int, i: int|
            0 <= t < n && 0 <= i < 15 implies (#[trigger] table@[t][i] == 255u8 <==> !has_edge_upto(
                es@,
                t,
                i,
                k as int,
            )) by {
            if t == src && i == input {
                assert(es@[k - 1].src == t && es@[k - 1].input == i);
            } else if has_edge_upto(es@, t, i, k as int) {
                let q = choose|q: int| 0 <= q < k && es@[q].src == t && #[trigger] es@[q].input == i;
                assert(q < k - 1);
                assert(has_edge_upto(es@, t, i, k - 1));
            }
        }
        assert forall|q: int| 0 <= q < k implies #[trigger] table@[es@[q].src as int][es@[q].input as int]
            == es@[q].tgt by {
            if q < k - 1 && es@[q].src == src && es@[q].input == input {
                assert(has_edge_upto(es@, src as int, input as int, k - 1));
            }
        }
    }
    assert(targets_consistent(es@)) by {
        assert forall|k1: int, k2: int|
            0 <= k1 < es.len() && 0 <= k2 < es.len() && #[trigger] es@[k1].src == #[trigger] es@[k2].src
                && es@[k1].input == es@[k2].input implies es@[k1].tgt == es@[k2].tgt by {
            assert(table@[es@[k1].src as int][es@[k1].input as int] == es@[k1].tgt);
            assert(table@[es@[k2].src as int][es@[k2].input as int] == es@[k2].tgt);
        }
    }
    assert forall|s: int, i: int|
        0 <= s < n && 0 <= i < 15 implies (#[trigger] table@[s][i] != 255u8 <==> has_edge(es@, s, i)) by {
        if has_edge(es@, s, i) {
            let q = choose|q: int| 0 <= q < es.len() && es@[q].src == s && #[trigger] es@[q].input == i;
            assert(has_edge_upto(es@, s, i, es.len() as int));
        }
        if has_edge_upto(es@, s, i, es.len() as int) {
            let q = choose|q: int| 0 <= q < es.len() && es@[q].src == s && #[trigger] es@[q].input == i;
            assert(has_edge(es@, s, i));
        }
    }
    assert forall|s: int, i: int|
        0 <= s < n && 0 <= i < 15 && has_edge(es@, s, i) implies #[trigger] table@[s][i] == edge_target(
            es@,
            s,
            i,
        ) by {
        let q = choose|q: int| 0 <= q < es.len() && es@[q].src == s && es@[q].input == i;
        assert(table@[es@[q].src as int][es@[q].input as int] == es@[q].tgt);
    }
    Ok(table)
}

/// The rank over all 16 bits of a mask without bit 15 is its rank over
/// the input bits.
proof fn lemma_rank_16(m: u16)
    requires
        !bit_set(m, 15),
    ensures
        rank(m, 16) == rank(m, 15),
{
}

/// The offset of every state row, after checking that each fits a byte.
fn row_offsets(es: &Vec<IdEdge>, masks: &Vec<u16>, n: usize) -> (r: Result<Vec<u8>, DfaError>)
    requires
        1 <= n <= 255,
        inputs_in_range(es@),
        masks.len() == n,
        forall|s: int| 0 <= s < n ==> #[trigger] masks@[s] == edge_bits(es@, s),
    ensures
        match r {
            Ok(offs) => {
                &&& row_offset(es@, (n - 1) as nat) < 256
                &&& offs.len() == n
                &&& forall|s: int| 0 <= s < n ==> #[trigger] offs@[s] == row_offset(es@, s as nat)
            },
            Err(e) => e == DfaError::OffsetOverflow && row_offset(es@, (n - 1) as nat) >= 256,
        },
{
    let mut offs: Vec<u8> = Vec::new();
    let mut row: usize = 0;
    let mut s: usize = 0;
    while s < n
        invariant
            1 <= n <= 255,
            inputs_in_range(es@),
            masks.len() == n,
            forall|t: int| 0 <= t < n ==> #[trigger] masks@[t] == edge_bits(es@, t),
            s <= n,
            offs.len() == s,
            row == row_offset(es@, s as nat),
            row < 256 + 16,
            s > 0 ==> row_offset(es@, (s - 1) as nat) < 256,
            forall|t: int| 0 <= t < s ==> #[trigger] offs@[t] == row_offset(es@, t as nat),
        decreases n - s,
    {
        if row >= 256 {
            proof {
                lemma_row_offset_mono(es@, s as nat, (n - 1) as nat);
            }
            return Err(DfaError::OffsetOverflow);
        }
        offs.push(row as u8);
        let m = masks[s];
        proof {
            lemma_edge_bits_has_edge(es@, s as int);
            lemma_rank_16(m);
            lemma_rank_mono(m, 15, 15);
        }
        let c = count_ones(m);
        row = row + c as usize;
        s += 1;
    }
    Ok(offs)
}

/// Where the target of `(state, input)` sits in the transition table.
pub open spec fn slot(rules: Seq<IdEdge>, state: int, input: u16) -> int {
    (row_offset(rules, state as nat) + rank(edge_bits(rules, state), input as nat)) as int
}

/// The row of `state` holds the targets of its inputs below `limit`.
pub open spec fn row_filled(out: Seq<u8>, rules: Seq<IdEdge>, state: int, limit: u16) -> bool {
    forall|i: u16|
        i < limit && #[trigger] bit_set(edge_bits(rules, state), i) ==> slot(rules, state, i) < out.len() && out[slot(
            rules,
            state,
            i,
        )] == edge_target(rules, state, i as int)
}

/// Appending keeps the rows already filled.
proof fn lemma_push_keeps_row(out: Seq<u8>, x: u8, rules: Seq<IdEdge>, state: int, limit: u16)
    requires
        row_filled(out, rules, state, limit),
    ensures
        row_filled(out.push(x), rules, state, limit),
{
    assert forall|i: u16| i < limit && #[trigger] bit_set(edge_bits(rules, state), i) implies slot(rules, state, i) < out.push(
        x,
    ).len() && out.push(x)[slot(rules, state, i)] == edge_target(rules, state, i as int) by {
        assert(out.push(x)[slot(rules, state, i)] == out[slot(rules, state, i)]);
    }
}

/// The transition table: the targets of each state in ascending input order,
/// state after state.
#[verifier::spinoff_prover]
#[verifier::rlimit(30)]
fn pack_transitions(es: &Vec<IdEdge>, masks: &Vec<u16>, table: &Vec<[u8; 15]>, n: usize) -> (r: Vec<u8>)
    requires
        1 <= n <= 255,
        inputs_in_range(es@),
        masks.len() == n,
        table.len() == n,
        forall|s: int| 0 <= s < n ==> #[trigger] masks@[s] == edge_bits(es@, s),
        forall|s: int, i: int|
            0 <= s < n && 0 <= i < 15 && has_edge(es@, s, i) ==> #[trigger] table@[s][i] == edge_target(
                es@,
                s,
                i,
            ),
    ensures
        r.len() == row_offset(es@, n as nat),
        forall|s: int| 0 <= s < n ==> #[trigger] row_filled(r@, es@, s, 15),
{
    let mut out: Vec<u8> = Vec::new();
    let mut s: usize = 0;
    while s < n
        invariant
            1 <= n <= 255,
            inputs_in_range(es@),
            masks.len() == n,
            table.len() == n,
            forall|t: int| 0 <= t < n ==> #[trigger] masks@[t] == edge_bits(es@, t),
            forall|t: int, i: int|
                0 <= t < n && 0 <= i < 15 && has_edge(es@, t, i) ==> #[trigger] table@[t][i] == edge_target(
                    es@,
                    t,
                    i,
                ),
            s <= n,
            out.len() == row_offset(es@, s as nat),
            forall|t: int| 0 <= t < s ==> #[trigger] row_filled(out@, es@, t, 15),
        decreases n - s,
    {
        let m = masks[s];
        proof {
            lemma_edge_bits_has_edge(es@, s as int);
        }
        let mut i: u16 = 0;
        while i < 15
            invariant
                1 <= n <= 255,
                s < n,
                m == edge_bits(es@, s as int),
                table.len() == n,
                forall|i2: u16| i2 < 15 ==> #[trigger] bit_set(m, i2) == has_edge(es@, s as int, i2 as int),
                forall|t: int, i2: int|
                    0 <= t < n && 0 <= i2 < 15 && has_edge(es@, t, i2) ==> #[trigger] table@[t][i2]
                        == edge_target(es@, t, i2),
                i <= 15,
                out.len() == row_offset(es@, s as nat) + rank(m, i as nat),
                forall|t: int| 0 <= t < s ==> #[trigger] row_filled(out@, es@, t, 15),
                row_filled(out@, es@, s as int, i),
            decreases 15 - i,
        {
            proof {
                lemma_bits(m, 0, i);
            }
            if m & (1u16 << i) != 0 {
                let target = table[s][i as usize];
                let ghost before = out@;
                out.push(target);
                proof {
                    assert forall|t: int| 0 <= t < s implies #[trigger] row_filled(out@, es@, t, 15) by {
                        lemma_push_keeps_row(before, target, es@, t, 15);
                    }
                    lemma_push_keeps_row(before, target, es@, s as int, i);
                    assert forall|i2: u16| i2 < i + 1 && #[trigger] bit_set(edge_bits(es@, s as int), i2) implies slot(
                        es@,
                        s as int,
                        i2,
                    ) < out@.len() && out@[slot(es@, s as int, i2)] == edge_target(
                        es@,
                        s as int,
                        i2 as int,
                    ) by {
                        if i2 < i {
                            assert(row_filled(out@, es@, s as int, i));
                        }
                    }
                }
            } else {
                proof {
                    assert forall|i2: u16| i2 < i + 1 && #[trigger] bit_set(edge_bits(es@, s as int), i2) implies slot(
                        es@,
                        s as int,
                        i2,
                    ) < out@.len() && out@[slot(es@, s as int, i2)] == edge_target(
                        es@,
                        s as int,
                        i2 as int,
                    ) by {
                        assert(i2 < i);
                    }
                }
            }
            i += 1;
        }
        s += 1;
    }
    out
}

// ─────────────────────────────────────────────────────────────────────────────
// The generated DFA
// ─────────────────────────────────────────────────────────────────────────────

/// The state reached from `state` on `input`, if the rules have a transition.
pub open spec fn step(rules: Seq<IdEdge>, n: nat, state: int, input: int) -> Option<u8> {
    if 0 <= input < 15 && 0 <= state < n && has_edge(rules, state, input) {
        Some(edge_target(rules, state, input))
    } else {
        None
    }
}

/// The state a sequence of base vowels walks to: the first vowel's state,
/// then one transition per later vowel.
pub open spec fn walk(rules: Seq<IdEdge>, n: nat, vowels: Seq<BaseVowel>) -> Option<int>
    decreases vowels.len(),
{
    if vowels.len() == 0 {
        None
    } else if vowels.len() == 1 {
        Some(vowels[0].spec_id() as int)
    } else {
        match walk(rules, n, vowels.drop_last()) {
            Some(state) => match step(rules, n, state, vowels.last().spec_id() as int) {
                Some(next) => Some(next as int),
                None => None,
            },
            None => None,
        }
    }
}

/// How a sequence of base vowels classifies: `Dead` when the walk fails,
/// else `Valid` or `InComplete` by the completion of the state reached.
pub open spec fn walk_status(rules: Seq<IdEdge>, n: nat, vowels: Seq<BaseVowel>) -> nucleus::NucleusState {
    match walk(rules, n, vowels) {
        None => nucleus::NucleusState::Dead,
        Some(state) => if state_complete(rules, state) {
            nucleus::NucleusState::Valid
        } else {
            nucleus::NucleusState::InComplete
        },
    }
}

/// Whether the nucleus table ([`nucleus_rules`]) passes the checks of
/// [`generate`].
pub open spec fn builtin_valid() -> bool {
    rules_valid(name_bytes(base_vowel_name_list()), name_bytes(shape_name_list()), nucleus_rules())
}

/// The nucleus table with its names resolved to ids.
pub open spec fn builtin_edges() -> Seq<IdEdge> {
    resolved(name_bytes(base_vowel_name_list()), name_bytes(shape_name_list()), nucleus_rules())
}

/// The number of states of the nucleus table.
pub open spec fn builtin_state_count() -> nat {
    state_names(name_bytes(base_vowel_name_list()), nucleus_rules()).len()
}

/// A DFA over vowel nuclei: a state table and a packed transition table
/// that encode a list of resolved rules.
pub struct VowelDfa {
    states: Vec<NucleusState>,
    transitions: Vec<u8>,
    rules: Ghost<Seq<IdEdge>>,
}

impl VowelDfa {
    #[verifier::type_invariant]
    spec fn encodes(self) -> bool {
        tables_encode(self.states@, self.transitions@, self.rules@)
    }

    /// The resolved rules the tables encode.
    pub closed spec fn spec_rules(self) -> Seq<IdEdge> {
        self.rules@
    }

    /// The state table.
    pub closed spec fn spec_states(self) -> Seq<NucleusState> {
        self.states@
    }

    /// The packed transition table.
    pub closed spec fn spec_transitions(self) -> Seq<u8> {
        self.transitions@
    }

    /// The number of states.
    pub closed spec fn spec_state_count(self) -> nat {
        self.states@.len()
    }

    /// The DFA of the Vietnamese nucleus table ([`nucleus_rules`]). The table
    /// passes every check of [`generate`], so the DFA is always built, and it
    /// classifies every nucleus of up to three vowels as the nucleus table in
    /// [`nucleus`] does, after the u-o fold.
    pub fn new() -> (r: Result<VowelDfa, DfaError>)
        ensures
            r is Ok,
            match r {
                Ok(dfa) => {
                    &&& dfa.spec_rules() == builtin_edges()
                    &&& dfa.spec_state_count() == builtin_state_count()
                    &&& agrees_with_table(dfa.spec_rules(), dfa.spec_state_count())
                },
                Err(_) => false,
            },
    {
        let rules = vowel_rules();
        let base = base_vowel_names();
        let shapes = shape_names();
        proof {
            builtin_dfa::lemma_builtin_rules_valid();
            builtin_dfa::lemma_builtin_agrees();
        }
        generate(rules.as_slice(), &base, &shapes)
    }

    /// The state table; it and the transition table encode the rules.
    pub fn states(&self) -> (r: &[NucleusState])
        ensures
            r@ == self.spec_states(),
            r@.len() == self.spec_state_count(),
            tables_encode(self.spec_states(), self.spec_transitions(), self.spec_rules()),
    {
        proof {
            use_type_invariant(self);
        }
        self.states.as_slice()
    }

    /// The packed transition table.
    pub fn transitions(&self) -> (r: &[u8])
        ensures
            r@ == self.spec_transitions(),
            tables_encode(self.spec_states(), self.spec_transitions(), self.spec_rules()),
    {
        proof {
            use_type_invariant(self);
        }
        self.transitions.as_slice()
    }

    /// The number of states.
    pub fn state_count(&self) -> (r: usize)
        ensures
            r == self.spec_state_count(),
            12 <= r <= 255,
    {
        proof {
            use_type_invariant(self);
        }
        self.states.len()
    }

    /// The number of transitions: the sum of the edge counts of all states.
    pub fn transition_count(&self) -> (r: usize)
        ensures
            r == row_offset(self.spec_rules(), self.spec_state_count()),
            r == self.spec_transitions().len(),
    {
        proof {
            use_type_invariant(self);
        }
        self.transitions.len()
    }

    /// Follows one transition: the next state, or `None` when `state_id` has
    /// no transition on `input_id` (or either is out of range).
    pub fn transition(&self, state_id: u8, input_id: u8) -> (r: Option<u8>)
        ensures
            r == step(self.spec_rules(), self.spec_state_count(), state_id as int, input_id as int),
            r is Some <==> (input_id < 15 && state_id < self.spec_state_count() && (self.spec_states()[state_id as int].mask
                & (1u16 << input_id)) != 0u16),
            r matches Some(t) ==> t < self.spec_state_count(),
    {
        proof {
            use_type_invariant(self);
        }
        if input_id >= 15 {
            return None;
        }
        if state_id as usize >= self.states.len() {
            return None;
        }
        let ghost rules = self.rules@;
        let ghost s = state_id as int;
        let ghost bits = edge_bits(rules, s);
        let state = self.states[state_id as usize];
        let bit: u16 = 1u16 << input_id;
        proof {
            lemma_edge_bits_has_edge(rules, s);
            lemma_bits(bits, 0, input_id as u16);
            lemma_bits(state.mask, input_id as u16, input_id as u16);
            if state_complete(rules, s) {
                lemma_bits(bits, 0, input_id as u16);
            }
            assert(bit_set(state.mask, input_id as u16) == bit_set(bits, input_id as u16));
        }
        if state.mask & bit == 0 {
            return None;
        }
        let low: u16 = bit - 1;
        let below = state.mask & INPUT_MASK & low;
        proof {
            lemma_rank_below(state.mask, input_id as u16, low, 16);
            assert forall|j: u16| j < input_id implies bit_set(state.mask, j) == bit_set(bits, j) by {
                lemma_bits(bits, 0, j);
            }
            lemma_rank_agree(state.mask, bits, input_id as nat);
            lemma_rank_grows(bits, input_id as nat, 15);
            lemma_row_offset_mono(rules, s as nat, (self.states@.len() - 1) as nat);
            assert(row_filled(self.transitions@, rules, s, 15));
            lemma_rank_mono(below, 16, 16);
            lemma_edge_target_in_range(rules, self.states@.len(), s, input_id as int);
        }
        let rank = count_ones(below) as usize;
        Some(self.transitions[state.transition_offset as usize + rank])
    }

    /// Whether the state with the given id is complete (`false` for an id
    /// beyond the table).
    pub fn is_state_complete(&self, state_id: u8) -> (r: bool)
        ensures
            r == (state_id < self.spec_state_count() && state_complete(self.spec_rules(), state_id as int)),
    {
        proof {
            use_type_invariant(self);
        }
        if state_id as usize >= self.states.len() {
            return false;
        }
        let state = self.states[state_id as usize];
        proof {
            let bits = edge_bits(self.rules@, state_id as int);
            lemma_edge_bits_has_edge(self.rules@, state_id as int);
            lemma_bits(bits, 0, 0);
        }
        is_complete(state)
    }

    /// Classifies a vowel nucleus by walking the DFA: `Dead` when some step
    /// has no transition (or the nucleus is empty), else `Valid` or
    /// `InComplete` by the completion of the state reached.
    pub fn check_nucleus_validity(&self, vowels: &[BaseVowel]) -> (r: nucleus::NucleusState)
        ensures
            r == walk_status(self.spec_rules(), self.spec_state_count(), vowels@),
    {
        proof {
            use_type_invariant(self);
        }
        if vowels.len() == 0 {
            return nucleus::NucleusState::Dead;
        }
        let ghost rules = self.rules@;
        let ghost n = self.states@.len();
        let mut state: u8 = vowels[0].id() as u8;
        assert(vowels@.subrange(0, 1).len() == 1);
        let mut i: usize = 1;
        while i < vowels.len()
            invariant
                rules == self.spec_rules(),
                n == self.spec_state_count(),
                1 <= i <= vowels.len(),
                walk(rules, n, vowels@.subrange(0, i as int)) == Some(state as int),
            decreases vowels.len() - i,
        {
            let next = self.transition(state, vowels[i].id() as u8);
            assert(vowels@.subrange(0, i + 1).drop_last() =~= vowels@.subrange(0, i as int));
            match next {
                Some(t) => state = t,
                None => {
                    proof {
                        lemma_walk_dead(rules, n, vowels@, (i + 1) as int);
                    }
                    return nucleus::NucleusState::Dead;
                },
            }
            i += 1;
        }
        assert(vowels@.subrange(0, vowels.len() as int) =~= vowels@);
        proof {
            assert(state < 12 || state < n) by {
                if vowels.len() > 1 {
                    assert(vowels@.subrange(0, vowels.len() as int).drop_last() =~= vowels@.subrange(
                        0,
                        vowels.len() - 1,
                    ));
                }
            }
        }
        if self.is_state_complete(state) {
            nucleus::NucleusState::Valid
        } else {
            nucleus::NucleusState::InComplete
        }
    }
}

/// The target of a transition is one of the states.
proof fn lemma_edge_target_in_range(rules: Seq<IdEdge>, n: nat, state: int, input: int)
    requires
        has_edge(rules, state, input),
        forall|k: int| 0 <= k < rules.len() ==> (#[trigger] rules[k]).src < n && rules[k].tgt < n,
    ensures
        edge_target(rules, state, input) < n,
{
    let k = choose|k: int| 0 <= k < rules.len() && rules[k].src == state && rules[k].input == input;
    assert(rules[k].tgt < n);
}

/// The u-o fold: an unmarked "uơ" / "ưo" pair followed by a third vowel
/// reads as "ươ" (uơi → ươi, ưou → ươu, ...).
pub open spec fn fold_uo(vowels: Seq<BaseVowel>) -> Seq<BaseVowel> {
    if vowels.len() == 3 && ((vowels[0] == BaseVowel::U && vowels[1] == BaseVowel::OHorn) || (vowels[0]
        == BaseVowel::UHorn && vowels[1] == BaseVowel::O)) {
        seq![BaseVowel::UHorn, BaseVowel::OHorn, vowels[2]]
    } else {
        vowels
    }
}

/// Whether the DFA of `rules` over `n` states classifies `vowels` as the
/// nucleus table does (after the u-o fold).
pub open spec fn classifies_as_table(rules: Seq<IdEdge>, n: nat, vowels: Seq<BaseVowel>) -> bool {
    walk_status(rules, n, vowels) == nucleus::nucleus_state(fold_uo(vowels))
}

/// Whether the DFA of `rules` over `n` states classifies every nucleus of up
/// to three vowels as the nucleus table does (after the u-o fold).
pub open spec fn agrees_with_table(rules: Seq<IdEdge>, n: nat) -> bool {
    forall|vowels: Seq<BaseVowel>| vowels.len() <= 3 ==> #[trigger] classifies_as_table(rules, n, vowels)
}

/// A DFA that agrees with the nucleus table classifies each nucleus of up to
/// three vowels as the table does, after the u-o fold.
pub proof fn lemma_agreeing_dfa_classifies_as_table(rules: Seq<IdEdge>, n: nat, vowels: Seq<BaseVowel>)
    requires
        agrees_with_table(rules, n),
        vowels.len() <= 3,
    ensures
        walk_status(rules, n, vowels) == nucleus::nucleus_state(fold_uo(vowels)),
{
    assert(classifies_as_table(rules, n, vowels));
}

/// The one-vowel nucleus `v1` classifies as in the table.
spec fn ok1(rules: Seq<IdEdge>, n: nat, v1: BaseVowel) -> bool {
    classifies_as_table(rules, n, seq![v1])
}

/// The two-vowel nucleus `v1 v2` classifies as in the table.
spec fn ok2(rules: Seq<IdEdge>, n: nat, v1: BaseVowel, v2: BaseVowel) -> bool {
    classifies_as_table(rules, n, seq![v1, v2])
}

/// The three-vowel nucleus `v1 v2 v3` classifies as in the table.
spec fn ok3(rules: Seq<IdEdge>, n: nat, v1: BaseVowel, v2: BaseVowel, v3: BaseVowel) -> bool {
    classifies_as_table(rules, n, seq![v1, v2, v3])
}

/// Two base vowels with the same priority id are the same vowel.
proof fn lemma_id_determines_vowel(a: BaseVowel, b: BaseVowel)
    requires
        a.spec_id() == b.spec_id(),
    ensures
        a == b,
{
}

/// Whether `d` classifies the nucleus `vowels` (one to three vowels) as the
/// nucleus table does.
fn classifies_as_table_at(d: &VowelDfa, vowels: &[BaseVowel]) -> (r: bool)
    requires
        1 <= vowels@.len() <= 3,
    ensures
        r == classifies_as_table(d.spec_rules(), d.spec_state_count(), vowels@),
{
    let got = d.check_nucleus_validity(vowels);
    let want = if vowels.len() == 3 && ((vowels[0] == BaseVowel::U && vowels[1] == BaseVowel::OHorn) || (
    vowels[0] == BaseVowel::UHorn && vowels[1] == BaseVowel::O)) {
        let folded = [BaseVowel::UHorn, BaseVowel::OHorn, vowels[2]];
        assert(folded@ =~= fold_uo(vowels@));
        nucleus::NucleusState::check(&folded)
    } else {
        assert(vowels@ =~= fold_uo(vowels@));
        nucleus::NucleusState::check(vowels)
    };
    got == want
}

/// Whether `d` classifies every nucleus of up to three vowels as the nucleus
/// table does, checked on each of them.
pub fn matches_nucleus_table(d: &VowelDfa) -> (r: bool)
    ensures
        r == agrees_with_table(d.spec_rules(), d.spec_state_count()),
{
    let ghost rules = d.spec_rules();
    let ghost n = d.spec_state_count();
    // The empty nucleus is dead in both.
    assert(classifies_as_table(rules, n, Seq::<BaseVowel>::empty()));
    let mut i: usize = 0;
    while i < 12
        invariant
            rules == d.spec_rules(),
            n == d.spec_state_count(),
            i <= 12,
            forall|v1: BaseVowel| v1.spec_id() < i ==> #[trigger] ok1(rules, n, v1),
            forall|v1: BaseVowel, v2: BaseVowel|
                v1.spec_id() < i ==> #[trigger] ok2(rules, n, v1, v2),
            forall|v1: BaseVowel, v2: BaseVowel, v3: BaseVowel|
                v1.spec_id() < i ==> #[trigger] ok3(rules, n, v1, v2, v3),
        decreases 12 - i,
    {
        let a = BaseVowel::from_id_unchecked(i);
        let one = [a];
        assert(one@ =~= seq![a]);
        if !classifies_as_table_at(d, &one) {
            assert(!ok1(rules, n, a));
            return false;
        }
        let mut j: usize = 0;
        while j < 12
            invariant
                rules == d.spec_rules(),
                n == d.spec_state_count(),
                i < 12,
                a.spec_id() == i,
                j <= 12,
                forall|v2: BaseVowel| v2.spec_id() < j ==> #[trigger] ok2(rules, n, a, v2),
                forall|v2: BaseVowel, v3: BaseVowel|
                    v2.spec_id() < j ==> #[trigger] ok3(rules, n, a, v2, v3),
            decreases 12 - j,
        {
            let b = BaseVowel::from_id_unchecked(j);
            let two = [a, b];
            assert(two@ =~= seq![a, b]);
            if !classifies_as_table_at(d, &two) {
                assert(!ok2(rules, n, a, b));
                return false;
            }
            let mut k: usize = 0;
            while k < 12
                invariant
                    rules == d.spec_rules(),
                    n == d.spec_state_count(),
                    i < 12,
                    j < 12,
                    a.spec_id() == i,
                    b.spec_id() == j,
                    k <= 12,
                    forall|v3: BaseVowel| v3.spec_id() < k ==> #[trigger] ok3(rules, n, a, b, v3),
                decreases 12 - k,
            {
                let c = BaseVowel::from_id_unchecked(k);
                let three = [a, b, c];
                assert(three@ =~= seq![a, b, c]);
                if !classifies_as_table_at(d, &three) {
                    assert(!ok3(rules, n, a, b, c));
                    return false;
                }
                proof {
                    assert forall|v3: BaseVowel| v3.spec_id() < k + 1 implies #[trigger] ok3(rules, n, a, b, v3) by {
                        if v3.spec_id() == k {
                            lemma_id_determines_vowel(v3, c);
                        }
                    }
                }
                k += 1;
            }
            proof {
                assert forall|v2: BaseVowel| v2.spec_id() < j + 1 implies #[trigger] ok2(rules, n, a, v2) by {
                    if v2.spec_id() == j {
                        lemma_id_determines_vowel(v2, b);
                    }
                }
                assert forall|v2: BaseVowel, v3: BaseVowel| v2.spec_id() < j + 1 implies #[trigger] ok3(rules, n, a, v2, v3) by {
                    if v2.spec_id() == j {
                        lemma_id_determines_vowel(v2, b);
                        assert(v3.spec_id() < 12);
                    }
                }
            }
            j += 1;
        }
        proof {
            assert forall|v1: BaseVowel| v1.spec_id() < i + 1 implies #[trigger] ok1(rules, n, v1) by {
                if v1.spec_id() == i {
                    lemma_id_determines_vowel(v1, a);
                }
            }
            assert forall|v1: BaseVowel, v2: BaseVowel| v1.spec_id() < i + 1 implies #[trigger] ok2(rules, n, v1, v2) by {
                if v1.spec_id() == i {
                    lemma_id_determines_vowel(v1, a);
                    assert(v2.spec_id() < 12);
                }
            }
            assert forall|v1: BaseVowel, v2: BaseVowel, v3: BaseVowel| v1.spec_id() < i + 1 implies #[trigger] ok3(rules, n, v1, v2, v3) by {
                if v1.spec_id() == i {
                    lemma_id_determines_vowel(v1, a);
                    assert(v2.spec_id() < 12);
                }
            }
        }
        i += 1;
    }
    proof {
        assert forall|vowels: Seq<BaseVowel>| vowels.len() <= 3 implies #[trigger] classifies_as_table(
            rules,
            n,
            vowels,
        ) by {
            if vowels.len() == 0 {
                assert(vowels =~= Seq::<BaseVowel>::empty());
            } else if vowels.len() == 1 {
                assert(vowels =~= seq![vowels[0]]);
                assert(vowels[0].spec_id() < 12);
                assert(ok1(rules, n, vowels[0]));
            } else if vowels.len() == 2 {
                assert(vowels =~= seq![vowels[0], vowels[1]]);
                assert(vowels[0].spec_id() < 12);
                assert(ok2(rules, n, vowels[0], vowels[1]));
            } else {
                assert(vowels =~= seq![vowels[0], vowels[1], vowels[2]]);
                assert(vowels[0].spec_id() < 12);
                assert(ok3(rules, n, vowels[0], vowels[1], vowels[2]));
            }
        }
    }
    true
}

/// Once a walk fails on a prefix, it fails on the whole sequence.
proof fn lemma_walk_dead(rules: Seq<IdEdge>, n: nat, vowels: Seq<BaseVowel>, k: int)
    requires
        1 <= k <= vowels.len(),
        walk(rules, n, vowels.subrange(0, k)) is None,
    ensures
        walk(rules, n, vowels) is None,
    decreases vowels.len() - k,
{
    if k < vowels.len() {
        assert(vowels.subrange(0, k + 1).drop_last() =~= vowels.subrange(0, k));
        lemma_walk_dead(rules, n, vowels, k + 1);
    } else {
        assert(vowels.subrange(0, k) =~= vowels);
    }
}

/// Whether a state row marks its nucleus complete.
pub fn is_complete(state: NucleusState) -> (r: bool)
    ensures
        r == ((state.mask & COMPLETE_BIT) != 0u16),
{
    (state.mask & COMPLETE_BIT) != 0
}

/// The input id of a diacritic shape: `Circumflex = 12`, `Breve = 13`,
/// `Horn = 14` (and `11` for `Plain`, which is not an input).
pub fn shape_id(shape: Shape) -> (r: u8)
    ensures
        r == 11 + shape.code(),
{
    (11 + shape.field()) as u8
}

/// Builds the DFA of a table of rules over the given base-vowel and shape
/// names, or says which check the table fails.
pub fn generate(rules: &[Rule], base: &Vec<&'static str>, shapes: &Vec<&'static str>) -> (r: Result<
    VowelDfa,
    DfaError,
>)
    requires
        base.len() == 12,
        shapes.len() == 3,
    ensures
        r is Ok <==> rules_valid(name_bytes(base@), name_bytes(shapes@), rules@),
        match r {
            Ok(dfa) => {
                &&& dfa.spec_rules() == resolved(name_bytes(base@), name_bytes(shapes@), rules@)
                &&& dfa.spec_state_count() == state_names(name_bytes(base@), rules@).len()
            },
            Err(e) => generate_error(name_bytes(base@), name_bytes(shapes@), rules@, e),
        },
{
    let ghost b = name_bytes(base@);
    let ghost sh = name_bytes(shapes@);
    let compounds = discover(rules, base);
    if compounds.len() >= 64 {
        return Err(DfaError::TooManyStates);
    }
    let states = concat_names(base, &compounds);
    let inputs = concat_names(base, shapes);
    let n = states.len();
    assert(n == state_names(b, rules@).len());
    let es = match resolve_rules(rules, &states, &inputs, Ghost(b), Ghost(sh)) {
        Ok(es) => es,
        Err(e) => {
            return Err(e);
        },
    };
    assert(inputs_in_range(es@));
    let complete = match check_statuses(&es, n) {
        Ok(c) => c,
        Err(e) => {
            return Err(e);
        },
    };
    let masks = edge_masks(&es, n);
    let table = match edge_table(&es, n) {
        Ok(t) => t,
        Err(e) => {
            return Err(e);
        },
    };
    let offs = match row_offsets(&es, &masks, n) {
        Ok(o) => o,
        Err(e) => {
            return Err(e);
        },
    };
    let transitions = pack_transitions(&es, &masks, &table, n);
    let mut rows: Vec<NucleusState> = Vec::new();
    let mut s: usize = 0;
    while s < n
        invariant
            s <= n,
            n <= 255,
            rows.len() == s,
            masks.len() == n,
            complete.len() == n,
            offs.len() == n,
            row_offset(es@, (n - 1) as nat) < 256,
            forall|t: int| 0 <= t < n ==> #[trigger] masks@[t] == edge_bits(es@, t),
            forall|t: int| 0 <= t < n ==> #[trigger] complete@[t] == state_complete(es@, t),
            forall|t: int| 0 <= t < n ==> #[trigger] offs@[t] == row_offset(es@, t as nat),
            forall|t: int| 0 <= t < s ==> #[trigger] rows@[t] == row_of(es@, t),
        decreases n - s,
    {
        let flag: u16 = if complete[s] {
            COMPLETE_BIT
        } else {
            0
        };
        rows.push(NucleusState { mask: masks[s] | flag, transition_offset: offs[s] });
        s += 1;
    }
    let ghost rs = es@;
    let dfa = VowelDfa { states: rows, transitions, rules: Ghost(rs) };
    Ok(dfa)
}

/// What an error of [`generate`] says of the rules: the checks before it
/// passed and its own check failed.
pub open spec fn generate_error(base: Seq<Seq<u8>>, shapes: Seq<Seq<u8>>, rules: Seq<Rule>, e: DfaError) -> bool {
    let es = resolved(base, shapes, rules);
    let n = state_names(base, rules).len();
    let few = discovered(base, rules, rules.len()).len() < 64;
    let known = few && inputs_known(base, shapes, rules);
    let statuses = known && base_targets_complete(es) && statuses_consistent(es) && compounds_targeted(es, n);
    let targets = statuses && targets_consistent(es);
    match e {
        DfaError::TooManyStates => !few,
        DfaError::UnknownInput => few && !inputs_known(base, shapes, rules),
        DfaError::IncompleteBaseState => known && !base_targets_complete(es),
        DfaError::ConflictingStatus => known && !statuses_consistent(es),
        DfaError::MissingStatus => known && base_targets_complete(es) && statuses_consistent(es)
            && !compounds_targeted(es, n),
        DfaError::ConflictingTarget => statuses && !targets_consistent(es),
        DfaError::OffsetOverflow => targets && row_offset(es, (n - 1) as nat) >= 256,
    }
}

// ─────────────────────────────────────────────────────────────────────────────
// The Vietnamese nucleus table
// ─────────────────────────────────────────────────────────────────────────────

/// The base-vowel state and input names, in [`BaseVowel::id`] order.
pub open spec fn base_vowel_name_list() -> Seq<&'static str> {
    seq!["Y", "U", "I", "E", "O", "A", "Ư", "Â", "Ô", "Ă", "Ê", "Ơ"]
}

/// The diacritic-shape input names (input id `12 + index`).
pub open spec fn shape_name_list() -> Seq<&'static str> {
    seq!["Circumflex", "Breve", "Horn"]
}

/// The base-vowel state and input names, in [`BaseVowel::id`] order.
pub fn base_vowel_names() -> (r: Vec<&'static str>)
    ensures
        r@ == base_vowel_name_list(),
{
    vec!["Y", "U", "I", "E", "O", "A", "Ư", "Â", "Ô", "Ă", "Ê", "Ơ"]
}

/// The diacritic-shape input names (input id `12 + index`).
pub fn shape_names() -> (r: Vec<&'static str>)
    ensures
        r@ == shape_name_list(),
{
    vec!["Circumflex", "Breve", "Horn"]
}

/// The nucleus rules. The completion status of a state is declared by the
/// rules that lead to it; the base-vowel spelling edges (`a + ^ = â`,
/// `â + ^ = a`, `â + ˘ = ă`, ...) and the compound spelling toggles
/// (`ye + ^ = yê`, ...) are ordinary rules.
pub open spec fn nucleus_rules() -> Seq<Rule> {
    seq![
        // ── base-vowel <-> shape spelling ──
        Rule { src: "A", input: "Circumflex", tgt: "Â", status: Completion::Complete },
        Rule { src: "A", input: "Breve", tgt: "Ă", status: Completion::Complete },
        Rule { src: "Â", input: "Circumflex", tgt: "A", status: Completion::Complete },
        Rule { src: "Â", input: "Breve", tgt: "Ă", status: Completion::Complete },
        Rule { src: "Ă", input: "Circumflex", tgt: "Â", status: Completion::Complete },
        Rule { src: "Ă", input: "Breve", tgt: "A", status: Completion::Complete },
        Rule { src: "E", input: "Circumflex", tgt: "Ê", status: Completion::Complete },
        Rule { src: "Ê", input: "Circumflex", tgt: "E", status: Completion::Complete },
        Rule { src: "O", input: "Circumflex", tgt: "Ô", status: Completion::Complete },
        Rule { src: "O", input: "Horn", tgt: "Ơ", status: Completion::Complete },
        Rule { src: "Ô", input: "Circumflex", tgt: "O", status: Completion::Complete },
        Rule { src: "Ô", input: "Horn", tgt: "Ơ", status: Completion::Complete },
        Rule { src: "Ơ", input: "Circumflex", tgt: "Ô", status: Completion::Complete },
        Rule { src: "Ơ", input: "Horn", tgt: "O", status: Completion::Complete },
        Rule { src: "U", input: "Horn", tgt: "Ư", status: Completion::Complete },
        Rule { src: "Ư", input: "Horn", tgt: "U", status: Completion::Complete },

        // ── a family ──
        Rule { src: "A", input: "I", tgt: "AI", status: Completion::Complete },
        Rule { src: "A", input: "O", tgt: "AO", status: Completion::Complete },
        Rule { src: "A", input: "U", tgt: "AU", status: Completion::Complete },
        Rule { src: "A", input: "Y", tgt: "AY", status: Completion::Complete },
        Rule { src: "Â", input: "U", tgt: "ÂU", status: Completion::Complete },
        Rule { src: "Â", input: "Y", tgt: "ÂY", status: Completion::Complete },
        Rule { src: "AU", input: "Circumflex", tgt: "ÂU", status: Completion::Complete },
        Rule { src: "ÂU", input: "Circumflex", tgt: "AU", status: Completion::Complete },
        Rule { src: "AY", input: "Circumflex", tgt: "ÂY", status: Completion::Complete },
        Rule { src: "ÂY", input: "Circumflex", tgt: "AY", status: Completion::Complete },

        // ── i family ──
        Rule { src: "I", input: "A", tgt: "IA", status: Completion::Complete },
        Rule { src: "I", input: "U", tgt: "IU", status: Completion::Complete },
        Rule { src: "I", input: "E", tgt: "IE", status: Completion::Incomplete },
        Rule { src: "IE", input: "U", tgt: "IEU", status: Completion::Incomplete },
        Rule { src: "I", input: "Ê", tgt: "IÊ", status: Completion::Complete },
        Rule { src: "IÊ", input: "U", tgt: "IÊU", status: Completion::Complete },
        Rule { src: "IE", input: "Circumflex", tgt: "IÊ", status: Completion::Complete },
        Rule { src: "IÊ", input: "Circumflex", tgt: "IE", status: Completion::Incomplete },
        Rule { src: "IEU", input: "Circumflex", tgt: "IÊU", status: Completion::Complete },
        Rule { src: "IÊU", input: "Circumflex", tgt: "IEU", status: Completion::Incomplete },

        // ── y family ──
        Rule { src: "Y", input: "E", tgt: "YE", status: Completion::Incomplete },
        Rule { src: "YE", input: "U", tgt: "YEU", status: Completion::Incomplete },
        Rule { src: "Y", input: "Ê", tgt: "YÊ", status: Completion::Complete },
        Rule { src: "YÊ", input: "U", tgt: "YÊU", status: Completion::Complete },
        Rule { src: "YE", input: "Circumflex", tgt: "YÊ", status: Completion::Complete },
        Rule { src: "YÊ", input: "Circumflex", tgt: "YE", status: Completion::Incomplete },
        Rule { src: "YEU", input: "Circumflex", tgt: "YÊU", status: Completion::Complete },
        Rule { src: "YÊU", input: "Circumflex", tgt: "YEU", status: Completion::Incomplete },

        // ── e family ──
        Rule { src: "E", input: "O", tgt: "EO", status: Completion::Complete },
        Rule { src: "E", input: "U", tgt: "EU", status: Completion::Incomplete },
        Rule { src: "Ê", input: "U", tgt: "ÊU", status: Completion::Complete },
        Rule { src: "EU", input: "Circumflex", tgt: "ÊU", status: Completion::Complete },
        Rule { src: "ÊU", input: "Circumflex", tgt: "EU", status: Completion::Incomplete },

        // ── o family ──
        Rule { src: "O", input: "A", tgt: "OA", status: Completion::Complete },
        Rule { src: "O", input: "Ă", tgt: "OĂ", status: Completion::Complete },
        Rule { src: "OA", input: "I", tgt: "OAI", status: Completion::Complete },
        Rule { src: "OA", input: "O", tgt: "OAO", status: Completion::Complete },
        Rule { src: "OA", input: "U", tgt: "OAU", status: Completion::Complete },
        Rule { src: "OA", input: "Y", tgt: "OAY", status: Completion::Complete },
        Rule { src: "O", input: "E", tgt: "OE", status: Completion::Complete },
        Rule { src: "OE", input: "O", tgt: "OEO", status: Completion::Complete },
        Rule { src: "O", input: "I", tgt: "OI", status: Completion::Complete },
        Rule { src: "Ô", input: "I", tgt: "ÔI", status: Completion::Complete },
        Rule { src: "Ơ", input: "I", tgt: "ƠI", status: Completion::Complete },
        Rule { src: "O", input: "O", tgt: "OO", status: Completion::Incomplete },
        Rule { src: "OI", input: "Circumflex", tgt: "ÔI", status: Completion::Complete },
        Rule { src: "ÔI", input: "Circumflex", tgt: "OI", status: Completion::Complete },
        Rule { src: "ƠI", input: "Circumflex", tgt: "ÔI", status: Completion::Complete },
        Rule { src: "OI", input: "Horn", tgt: "ƠI", status: Completion::Complete },
        Rule { src: "ÔI", input: "Horn", tgt: "ƠI", status: Completion::Complete },
        Rule { src: "ƠI", input: "Horn", tgt: "OI", status: Completion::Complete },
        Rule { src: "OA", input: "Breve", tgt: "OĂ", status: Completion::Complete },
        Rule { src: "OĂ", input: "Breve", tgt: "OA", status: Completion::Complete },

        // ── u + y family ──
        Rule { src: "U", input: "Y", tgt: "UY", status: Completion::Complete },
        Rule { src: "UY", input: "U", tgt: "UYU", status: Completion::Complete },
        Rule { src: "UY", input: "A", tgt: "UYA", status: Completion::Complete },
        Rule { src: "UY", input: "E", tgt: "UYE", status: Completion::Incomplete },
        Rule { src: "UY", input: "Ê", tgt: "UYÊ", status: Completion::Complete },
        Rule { src: "UYE", input: "Circumflex", tgt: "UYÊ", status: Completion::Complete },
        Rule { src: "UYÊ", input: "Circumflex", tgt: "UYE", status: Completion::Incomplete },

        // ── u + a family ──
        Rule { src: "U", input: "A", tgt: "UA", status: Completion::Complete },
        Rule { src: "UA", input: "O", tgt: "UAO", status: Completion::Complete },
        Rule { src: "U", input: "Â", tgt: "UÂ", status: Completion::Complete },
        Rule { src: "UÂ", input: "Y", tgt: "UÂY", status: Completion::Complete },
        Rule { src: "UA", input: "Circumflex", tgt: "UÂ", status: Completion::Complete },
        Rule { src: "UÂ", input: "Circumflex", tgt: "UA", status: Completion::Complete },
        Rule { src: "UA", input: "Horn", tgt: "ƯA", status: Completion::Complete },

        // ── u + o family ──
        Rule { src: "U", input: "O", tgt: "UO", status: Completion::Incomplete },
        Rule { src: "UO", input: "I", tgt: "UOI", status: Completion::Incomplete },
        Rule { src: "UO", input: "U", tgt: "UOU", status: Completion::Incomplete },
        Rule { src: "U", input: "Ơ", tgt: "UƠ", status: Completion::Complete },
        // finalize_uo_prefix: "uơ" + third vowel folds to "ươ".
        Rule { src: "UƠ", input: "I", tgt: "ƯƠI", status: Completion::Complete },
        Rule { src: "UƠ", input: "U", tgt: "ƯƠU", status: Completion::Complete },
        Rule { src: "U", input: "Ô", tgt: "UÔ", status: Completion::Complete },
        Rule { src: "UÔ", input: "I", tgt: "UÔI", status: Completion::Complete },
        Rule { src: "UO", input: "Circumflex", tgt: "UÔ", status: Completion::Complete },
        Rule { src: "UÔ", input: "Circumflex", tgt: "UO", status: Completion::Incomplete },
        Rule { src: "UO", input: "Horn", tgt: "UƠ", status: Completion::Complete },
        Rule { src: "UÔ", input: "Horn", tgt: "UƠ", status: Completion::Complete },
        Rule { src: "UƠ", input: "Circumflex", tgt: "UÔ", status: Completion::Complete },
        Rule { src: "UƠ", input: "Horn", tgt: "ƯƠ", status: Completion::Complete },
        Rule { src: "UOI", input: "Circumflex", tgt: "UÔI", status: Completion::Complete },
        Rule { src: "UÔI", input: "Circumflex", tgt: "UOI", status: Completion::Incomplete },
        Rule { src: "UOI", input: "Horn", tgt: "UƠI", status: Completion::Incomplete },
        Rule { src: "UÔI", input: "Horn", tgt: "UƠI", status: Completion::Incomplete },
        Rule { src: "UƠI", input: "Circumflex", tgt: "UÔI", status: Completion::Complete },
        Rule { src: "UƠI", input: "Horn", tgt: "ƯƠI", status: Completion::Complete },
        Rule { src: "UOU", input: "Horn", tgt: "UƠU", status: Completion::Incomplete },
        Rule { src: "UƠU", input: "Horn", tgt: "ƯƠU", status: Completion::Complete },

        // ── u + e family ──
        Rule { src: "U", input: "E", tgt: "UE", status: Completion::Incomplete },
        Rule { src: "U", input: "Ê", tgt: "UÊ", status: Completion::Complete },
        Rule { src: "U", input: "I", tgt: "UI", status: Completion::Complete },
        Rule { src: "UE", input: "Circumflex", tgt: "UÊ", status: Completion::Complete },
        Rule { src: "UÊ", input: "Circumflex", tgt: "UE", status: Completion::Incomplete },
        Rule { src: "UI", input: "Horn", tgt: "ƯI", status: Completion::Complete },

        // ── ư + o family ──
        Rule { src: "Ư", input: "O", tgt: "ƯO", status: Completion::Incomplete },
        // finalize_uo_prefix: "ưo" + third vowel folds to "ươ".
        Rule { src: "ƯO", input: "I", tgt: "ƯƠI", status: Completion::Complete },
        Rule { src: "ƯO", input: "U", tgt: "ƯƠU", status: Completion::Complete },
        Rule { src: "Ư", input: "Ơ", tgt: "ƯƠ", status: Completion::Complete },
        Rule { src: "ƯƠ", input: "I", tgt: "ƯƠI", status: Completion::Complete },
        Rule { src: "ƯƠ", input: "U", tgt: "ƯƠU", status: Completion::Complete },
        Rule { src: "ƯO", input: "Circumflex", tgt: "UÔ", status: Completion::Complete },
        Rule { src: "ƯO", input: "Horn", tgt: "ƯƠ", status: Completion::Complete },
        Rule { src: "ƯƠ", input: "Circumflex", tgt: "UÔ", status: Completion::Complete },
        Rule { src: "ƯƠ", input: "Horn", tgt: "UO", status: Completion::Incomplete },
        Rule { src: "ƯƠI", input: "Circumflex", tgt: "UÔI", status: Completion::Complete },
        Rule { src: "ƯƠI", input: "Horn", tgt: "UOI", status: Completion::Incomplete },
        Rule { src: "ƯƠU", input: "Horn", tgt: "UOU", status: Completion::Incomplete },

        // ── ư family ──
        Rule { src: "Ư", input: "A", tgt: "ƯA", status: Completion::Complete },
        Rule { src: "Ư", input: "I", tgt: "ƯI", status: Completion::Complete },
        Rule { src: "Ư", input: "U", tgt: "ƯU", status: Completion::Complete },
        Rule { src: "U", input: "U", tgt: "UU", status: Completion::Incomplete },
        Rule { src: "ƯA", input: "Horn", tgt: "UA", status: Completion::Complete },
        Rule { src: "ƯI", input: "Horn", tgt: "UI", status: Completion::Complete },
        Rule { src: "ƯU", input: "Horn", tgt: "UU", status: Completion::Incomplete },
        Rule { src: "UU", input: "Horn", tgt: "ƯU", status: Completion::Complete },
    ]
}

/// The nucleus rules ([`nucleus_rules`]).
pub fn vowel_rules() -> (r: Vec<Rule>)
    ensures
        r@ == nucleus_rules(),
{
    let r = vec![
        // ── base-vowel <-> shape spelling ──
        Rule { src: "A", input: "Circumflex", tgt: "Â", status: Completion::Complete },
        Rule { src: "A", input: "Breve", tgt: "Ă", status: Completion::Complete },
        Rule { src: "Â", input: "Circumflex", tgt: "A", status: Completion::Complete },
        Rule { src: "Â", input: "Breve", tgt: "Ă", status: Completion::Complete },
        Rule { src: "Ă", input: "Circumflex", tgt: "Â", status: Completion::Complete },
        Rule { src: "Ă", input: "Breve", tgt: "A", status: Completion::Complete },
        Rule { src: "E", input: "Circumflex", tgt: "Ê", status: Completion::Complete },
        Rule { src: "Ê", input: "Circumflex", tgt: "E", status: Completion::Complete },
        Rule { src: "O", input: "Circumflex", tgt: "Ô", status: Completion::Complete },
        Rule { src: "O", input: "Horn", tgt: "Ơ", status: Completion::Complete },
        Rule { src: "Ô", input: "Circumflex", tgt: "O", status: Completion::Complete },
        Rule { src: "Ô", input: "Horn", tgt: "Ơ", status: Completion::Complete },
        Rule { src: "Ơ", input: "Circumflex", tgt: "Ô", status: Completion::Complete },
        Rule { src: "Ơ", input: "Horn", tgt: "O", status: Completion::Complete },
        Rule { src: "U", input: "Horn", tgt: "Ư", status: Completion::Complete },
        Rule { src: "Ư", input: "Horn", tgt: "U", status: Completion::Complete },

        // ── a family ──
        Rule { src: "A", input: "I", tgt: "AI", status: Completion::Complete },
        Rule { src: "A", input: "O", tgt: "AO", status: Completion::Complete },
        Rule { src: "A", input: "U", tgt: "AU", status: Completion::Complete },
        Rule { src: "A", input: "Y", tgt: "AY", status: Completion::Complete },
        Rule { src: "Â", input: "U", tgt: "ÂU", status: Completion::Complete },
        Rule { src: "Â", input: "Y", tgt: "ÂY", status: Completion::Complete },
        Rule { src: "AU", input: "Circumflex", tgt: "ÂU", status: Completion::Complete },
        Rule { src: "ÂU", input: "Circumflex", tgt: "AU", status: Completion::Complete },
        Rule { src: "AY", input: "Circumflex", tgt: "ÂY", status: Completion::Complete },
        Rule { src: "ÂY", input: "Circumflex", tgt: "AY", status: Completion::Complete },

        // ── i family ──
        Rule { src: "I", input: "A", tgt: "IA", status: Completion::Complete },
        Rule { src: "I", input: "U", tgt: "IU", status: Completion::Complete },
        Rule { src: "I", input: "E", tgt: "IE", status: Completion::Incomplete },
        Rule { src: "IE", input: "U", tgt: "IEU", status: Completion::Incomplete },
        Rule { src: "I", input: "Ê", tgt: "IÊ", status: Completion::Complete },
        Rule { src: "IÊ", input: "U", tgt: "IÊU", status: Completion::Complete },
        Rule { src: "IE", input: "Circumflex", tgt: "IÊ", status: Completion::Complete },
        Rule { src: "IÊ", input: "Circumflex", tgt: "IE", status: Completion::Incomplete },
        Rule { src: "IEU", input: "Circumflex", tgt: "IÊU", status: Completion::Complete },
        Rule { src: "IÊU", input: "Circumflex", tgt: "IEU", status: Completion::Incomplete },

        // ── y family ──
        Rule { src: "Y", input: "E", tgt: "YE", status: Completion::Incomplete },
        Rule { src: "YE", input: "U", tgt: "YEU", status: Completion::Incomplete },
        Rule { src: "Y", input: "Ê", tgt: "YÊ", status: Completion::Complete },
        Rule { src: "YÊ", input: "U", tgt: "YÊU", status: Completion::Complete },
        Rule { src: "YE", input: "Circumflex", tgt: "YÊ", status: Completion::Complete },
        Rule { src: "YÊ", input: "Circumflex", tgt: "YE", status: Completion::Incomplete },
        Rule { src: "YEU", input: "Circumflex", tgt: "YÊU", status: Completion::Complete },
        Rule { src: "YÊU", input: "Circumflex", tgt: "YEU", status: Completion::Incomplete },

        // ── e family ──
        Rule { src: "E", input: "O", tgt: "EO", status: Completion::Complete },
        Rule { src: "E", input: "U", tgt: "EU", status: Completion::Incomplete },
        Rule { src: "Ê", input: "U", tgt: "ÊU", status: Completion::Complete },
        Rule { src: "EU", input: "Circumflex", tgt: "ÊU", status: Completion::Complete },
        Rule { src: "ÊU", input: "Circumflex", tgt: "EU", status: Completion::Incomplete },

        // ── o family ──
        Rule { src: "O", input: "A", tgt: "OA", status: Completion::Complete },
        Rule { src: "O", input: "Ă", tgt: "OĂ", status: Completion::Complete },
        Rule { src: "OA", input: "I", tgt: "OAI", status: Completion::Complete },
        Rule { src: "OA", input: "O", tgt: "OAO", status: Completion::Complete },
        Rule { src: "OA", input: "U", tgt: "OAU", status: Completion::Complete },
        Rule { src: "OA", input: "Y", tgt: "OAY", status: Completion::Complete },
        Rule { src: "O", input: "E", tgt: "OE", status: Completion::Complete },
        Rule { src: "OE", input: "O", tgt: "OEO", status: Completion::Complete },
        Rule { src: "O", input: "I", tgt: "OI", status: Completion::Complete },
        Rule { src: "Ô", input: "I", tgt: "ÔI", status: Completion::Complete },
        Rule { src: "Ơ", input: "I", tgt: "ƠI", status: Completion::Complete },
        Rule { src: "O", input: "O", tgt: "OO", status: Completion::Incomplete },
        Rule { src: "OI", input: "Circumflex", tgt: "ÔI", status: Completion::Complete },
        Rule { src: "ÔI", input: "Circumflex", tgt: "OI", status: Completion::Complete },
        Rule { src: "ƠI", input: "Circumflex", tgt: "ÔI", status: Completion::Complete },
        Rule { src: "OI", input: "Horn", tgt: "ƠI", status: Completion::Complete },
        Rule { src: "ÔI", input: "Horn", tgt: "ƠI", status: Completion::Complete },
        Rule { src: "ƠI", input: "Horn", tgt: "OI", status: Completion::Complete },
        Rule { src: "OA", input: "Breve", tgt: "OĂ", status: Completion::Complete },
        Rule { src: "OĂ", input: "Breve", tgt: "OA", status: Completion::Complete },

        // ── u + y family ──
        Rule { src: "U", input: "Y", tgt: "UY", status: Completion::Complete },
        Rule { src: "UY", input: "U", tgt: "UYU", status: Completion::Complete },
        Rule { src: "UY", input: "A", tgt: "UYA", status: Completion::Complete },
        Rule { src: "UY", input: "E", tgt: "UYE", status: Completion::Incomplete },
        Rule { src: "UY", input: "Ê", tgt: "UYÊ", status: Completion::Complete },
        Rule { src: "UYE", input: "Circumflex", tgt: "UYÊ", status: Completion::Complete },
        Rule { src: "UYÊ", input: "Circumflex", tgt: "UYE", status: Completion::Incomplete },

        // ── u + a family ──
        Rule { src: "U", input: "A", tgt: "UA", status: Completion::Complete },
        Rule { src: "UA", input: "O", tgt: "UAO", status: Completion::Complete },
        Rule { src: "U", input: "Â", tgt: "UÂ", status: Completion::Complete },
        Rule { src: "UÂ", input: "Y", tgt: "UÂY", status: Completion::Complete },
        Rule { src: "UA", input: "Circumflex", tgt: "UÂ", status: Completion::Complete },
        Rule { src: "UÂ", input: "Circumflex", tgt: "UA", status: Completion::Complete },
        Rule { src: "UA", input: "Horn", tgt: "ƯA", status: Completion::Complete },

        // ── u + o family ──
        Rule { src: "U", input: "O", tgt: "UO", status: Completion::Incomplete },
        Rule { src: "UO", input: "I", tgt: "UOI", status: Completion::Incomplete },
        Rule { src: "UO", input: "U", tgt: "UOU", status: Completion::Incomplete },
        Rule { src: "U", input: "Ơ", tgt: "UƠ", status: Completion::Complete },
        // finalize_uo_prefix: "uơ" + third vowel folds to "ươ".
        Rule { src: "UƠ", input: "I", tgt: "ƯƠI", status: Completion::Complete },
        Rule { src: "UƠ", input: "U", tgt: "ƯƠU", status: Completion::Complete },
        Rule { src: "U", input: "Ô", tgt: "UÔ", status: Completion::Complete },
        Rule { src: "UÔ", input: "I", tgt: "UÔI", status: Completion::Complete },
        Rule { src: "UO", input: "Circumflex", tgt: "UÔ", status: Completion::Complete },
        Rule { src: "UÔ", input: "Circumflex", tgt: "UO", status: Completion::Incomplete },
        Rule { src: "UO", input: "Horn", tgt: "UƠ", status: Completion::Complete },
        Rule { src: "UÔ", input: "Horn", tgt: "UƠ", status: Completion::Complete },
        Rule { src: "UƠ", input: "Circumflex", tgt: "UÔ", status: Completion::Complete },
        Rule { src: "UƠ", input: "Horn", tgt: "ƯƠ", status: Completion::Complete },
        Rule { src: "UOI", input: "Circumflex", tgt: "UÔI", status: Completion::Complete },
        Rule { src: "UÔI", input: "Circumflex", tgt: "UOI", status: Completion::Incomplete },
        Rule { src: "UOI", input: "Horn", tgt: "UƠI", status: Completion::Incomplete },
        Rule { src: "UÔI", input: "Horn", tgt: "UƠI", status: Completion::Incomplete },
        Rule { src: "UƠI", input: "Circumflex", tgt: "UÔI", status: Completion::Complete },
        Rule { src: "UƠI", input: "Horn", tgt: "ƯƠI", status: Completion::Complete },
        Rule { src: "UOU", input: "Horn", tgt: "UƠU", status: Completion::Incomplete },
        Rule { src: "UƠU", input: "Horn", tgt: "ƯƠU", status: Completion::Complete },

        // ── u + e family ──
        Rule { src: "U", input: "E", tgt: "UE", status: Completion::Incomplete },
        Rule { src: "U", input: "Ê", tgt: "UÊ", status: Completion::Complete },
        Rule { src: "U", input: "I", tgt: "UI", status: Completion::Complete },
        Rule { src: "UE", input: "Circumflex", tgt: "UÊ", status: Completion::Complete },
        Rule { src: "UÊ", input: "Circumflex", tgt: "UE", status: Completion::Incomplete },
        Rule { src: "UI", input: "Horn", tgt: "ƯI", status: Completion::Complete },

        // ── ư + o family ──
        Rule { src: "Ư", input: "O", tgt: "ƯO", status: Completion::Incomplete },
        // finalize_uo_prefix: "ưo" + third vowel folds to "ươ".
        Rule { src: "ƯO", input: "I", tgt: "ƯƠI", status: Completion::Complete },
        Rule { src: "ƯO", input: "U", tgt: "ƯƠU", status: Completion::Complete },
        Rule { src: "Ư", input: "Ơ", tgt: "ƯƠ", status: Completion::Complete },
        Rule { src: "ƯƠ", input: "I", tgt: "ƯƠI", status: Completion::Complete },
        Rule { src: "ƯƠ", input: "U", tgt: "ƯƠU", status: Completion::Complete },
        Rule { src: "ƯO", input: "Circumflex", tgt: "UÔ", status: Completion::Complete },
        Rule { src: "ƯO", input: "Horn", tgt: "ƯƠ", status: Completion::Complete },
        Rule { src: "ƯƠ", input: "Circumflex", tgt: "UÔ", status: Completion::Complete },
        Rule { src: "ƯƠ", input: "Horn", tgt: "UO", status: Completion::Incomplete },
        Rule { src: "ƯƠI", input: "Circumflex", tgt: "UÔI", status: Completion::Complete },
        Rule { src: "ƯƠI", input: "Horn", tgt: "UOI", status: Completion::Incomplete },
        Rule { src: "ƯƠU", input: "Horn", tgt: "UOU", status: Completion::Incomplete },

        // ── ư family ──
        Rule { src: "Ư", input: "A", tgt: "ƯA", status: Completion::Complete },
        Rule { src: "Ư", input: "I", tgt: "ƯI", status: Completion::Complete },
        Rule { src: "Ư", input: "U", tgt: "ƯU", status: Completion::Complete },
        Rule { src: "U", input: "U", tgt: "UU", status: Completion::Incomplete },
        Rule { src: "ƯA", input: "Horn", tgt: "UA", status: Completion::Complete },
        Rule { src: "ƯI", input: "Horn", tgt: "UI", status: Completion::Complete },
        Rule { src: "ƯU", input: "Horn", tgt: "UU", status: Completion::Incomplete },
        Rule { src: "UU", input: "Horn", tgt: "ƯU", status: Completion::Complete },
    ];
    assert(r@ == nucleus_rules());
    r
}

} // verus!
