use vstd::prelude::*;

pub mod open_simplex_noise_2d;

verus! {

/// Length of the permutation table: the table is a bijection on `[0, PSIZE)`.
pub const PSIZE: i32 = 2048;

/// The seed used when the caller gives none.
pub const DEFAULT_SEED: u32 = 0;

/// A seeded pseudo-random permutation of the integers `[0, PSIZE)`, used as a
/// hash table when selecting gradients.
pub type PermTable = Vec<i32>;

/// The wide working seed derived from the caller's seed by one linear
/// congruential transform; it is reused unchanged by every shuffle step.
pub open spec fn lcg_state(seed: u32) -> int {
    seed * 6364136223846793005 + 1442695040888963407
}

/// The source index drawn by the shuffle when filling table slot `i`:
/// the working seed reduced modulo `i + 1`, normalized into `[0, i]`.
pub open spec fn shuffle_r(seed: u32, i: int) -> int {
    (lcg_state(seed) + 31) % (i + 1)
}

/// The identity table: entry `j` holds `j`.
pub open spec fn identity_table() -> Seq<i32> {
    Seq::new(PSIZE as nat, |j: int| j as i32)
}

/// State of the shuffle after `k` steps: the working source array and the
/// partially filled permutation table. Step `k` fills slot `i = PSIZE - k`
/// (the slots are filled from the top down): the entry drawn from the source
/// at `shuffle_r(seed, i)` goes into the table, and the source slot it came
/// from is overwritten with the source entry at `i`.
pub open spec fn shuffle_state(seed: u32, k: nat) -> (Seq<i32>, Seq<i32>)
    recommends
        k <= PSIZE,
    decreases k,
{
    if k == 0 {
        (identity_table(), Seq::new(PSIZE as nat, |j: int| 0i32))
    } else {
        let prev = shuffle_state(seed, (k - 1) as nat);
        let i = PSIZE - k;
        let r = shuffle_r(seed, i);
        (prev.0.update(r, prev.0[i]), prev.1.update(i, prev.0[r]))
    }
}

/// The permutation table that the given seed produces.
pub open spec fn perm_table_of(seed: u32) -> Seq<i32> {
    shuffle_state(seed, PSIZE as nat).1
}

/// Whether value `v` occurs somewhere in `p`.
pub open spec fn appears_in(p: Seq<i32>, v: i32) -> bool {
    exists|j: int| 0 <= j < p.len() && p[j] == v
}

/// A true permutation table: length `PSIZE`, every entry in `[0, PSIZE)`, no
/// entry repeated, and every value of `[0, PSIZE)` present.
pub open spec fn is_perm_table(p: Seq<i32>) -> bool {
    &&& p.len() == PSIZE
    &&& forall|j: int| 0 <= j < p.len() ==> 0 <= #[trigger] p[j] < PSIZE
    &&& forall|j1: int, j2: int| 0 <= j1 < j2 < p.len() ==> p[j1] != p[j2]
    &&& forall|v: i32| 0 <= v < PSIZE ==> #[trigger] appears_in(p, v)
}

/// The values still reachable midway through the shuffle: the source entries
/// at the slots not yet filled (`j <= i`) together with the table entries
/// already placed (`j > i`).
pub open spec fn combined(s: Seq<i32>, p: Seq<i32>, i: int) -> Seq<i32> {
    Seq::new(p.len(), |j: int| if j <= i { s[j] } else { p[j] })
}

proof fn lemma_identity_is_perm_table()
    ensures
        is_perm_table(identity_table()),
{
    let c = identity_table();
    assert forall|v: i32| 0 <= v < PSIZE implies #[trigger] appears_in(c, v) by {
        assert(c[v as int] == v);
    }
}

/// Exchanging two entries of a permutation table leaves a permutation table.
proof fn lemma_swap_preserves_perm_table(c: Seq<i32>, a: int, b: int)
    requires
        is_perm_table(c),
        0 <= a < c.len(),
        0 <= b < c.len(),
    ensures
        is_perm_table(c.update(a, c[b]).update(b, c[a])),
{
    let d = c.update(a, c[b]).update(b, c[a]);
    assert forall|j1: int, j2: int| 0 <= j1 < j2 < d.len() implies d[j1] != d[j2] by {
        let m1 = if j1 == b { a } else if j1 == a { b } else { j1 };
        let m2 = if j2 == b { a } else if j2 == a { b } else { j2 };
        assert(d[j1] == c[m1]);
        assert(d[j2] == c[m2]);
        assert(m1 != m2);
        if m1 < m2 {
            assert(c[m1] != c[m2]);
        } else {
            assert(c[m2] != c[m1]);
        }
    }
    assert forall|v: i32| 0 <= v < PSIZE implies #[trigger] appears_in(d, v) by {
        assert(appears_in(c, v));
        let j = choose|j: int| 0 <= j < c.len() && c[j] == v;
        let m = if j == a { b } else if j == b { a } else { j };
        assert(d[m] == v);
    }
}

/// Invariant of the shuffle: at every step the values reachable through the
/// source and the filled part of the table still form a permutation.
proof fn lemma_shuffle_state_permutes(seed: u32, k: nat)
    requires
        k <= PSIZE,
    ensures
        shuffle_state(seed, k).0.len() == PSIZE,
        shuffle_state(seed, k).1.len() == PSIZE,
        is_perm_table(combined(shuffle_state(seed, k).0, shuffle_state(seed, k).1, PSIZE - 1 - k)),
    decreases k,
{
    if k == 0 {
        lemma_identity_is_perm_table();
        assert(combined(shuffle_state(seed, 0).0, shuffle_state(seed, 0).1, PSIZE - 1)
            =~= identity_table());
    } else {
        lemma_shuffle_state_permutes(seed, (k - 1) as nat);
        let prev = shuffle_state(seed, (k - 1) as nat);
        let i = PSIZE - k;
        let r = shuffle_r(seed, i);
        let c = combined(prev.0, prev.1, i);
        let st = shuffle_state(seed, k);
        lemma_swap_preserves_perm_table(c, r, i);
        assert(combined(st.0, st.1, i - 1) =~= c.update(r, c[i]).update(i, c[r]));
    }
}

/// Every seed yields a true permutation of `[0, PSIZE)`: each value appears
/// exactly once in the generated table.
pub proof fn lemma_perm_table_bijective(seed: u32)
    ensures
        is_perm_table(perm_table_of(seed)),
{
    lemma_shuffle_state_permutes(seed, PSIZE as nat);
    let st = shuffle_state(seed, PSIZE as nat);
    assert(combined(st.0, st.1, -1) =~= st.1);
}

/// Builds the permutation table for a seed: a Fisher-Yates-style shuffle of
/// `0..PSIZE`, drawing each index from a working seed that one linear
/// congruential transform derives from the caller's seed and that is reused
/// unchanged by every step. The table is an exact function of the seed, and a
/// bijection on `[0, PSIZE)`.
pub fn generate_perm_array(seed: u32) -> (perm: PermTable)
    ensures
        perm@ == perm_table_of(seed),
        is_perm_table(perm@),
{
    let mut perm: Vec<i32> = Vec::new();
    let mut j: i32 = 0;
    while j < PSIZE
        invariant
            0 <= j <= PSIZE,
            perm@.len() == j,
            forall|t: int| 0 <= t < j ==> perm@[t] == 0i32,
        decreases PSIZE - j,
    {
        perm.push(0);
        j += 1;
    }

    let mut source: Vec<i32> = Vec::new();
    let mut j: i32 = 0;
    while j < PSIZE
        invariant
            0 <= j <= PSIZE,
            source@.len() == j,
            forall|t: int| 0 <= t < j ==> source@[t] == t as i32,
        decreases PSIZE - j,
    {
        source.push(j);
        j += 1;
    }

    proof {
        assert(perm@ =~= shuffle_state(seed, 0).1);
        assert(source@ =~= shuffle_state(seed, 0).0);
    }

    let working: i128 = (seed as i128) * 6_364_136_223_846_793_005 + 1_442_695_040_888_963_407;
    let mut i: i32 = PSIZE - 1;
    while i >= 0
        invariant
            -1 <= i <= PSIZE - 1,
            working == lcg_state(seed),
            source@ == shuffle_state(seed, (PSIZE - 1 - i) as nat).0,
            perm@ == shuffle_state(seed, (PSIZE - 1 - i) as nat).1,
            source@.len() == PSIZE,
            perm@.len() == PSIZE,
        decreases i + 1,
    {
        let ghost k: nat = (PSIZE - 1 - i) as nat;
        let mut r: i32 = ((working + 31) % (i as i128 + 1)) as i32;
        if r < 0 {
            r += i + 1;
        }
        proof {
            assert(r == shuffle_r(seed, i as int));
        }
        perm.set(i as usize, source[r as usize]);
        let source_i = source[i as usize];
        source.set(r as usize, source_i);
        proof {
            assert(shuffle_state(seed, k + 1).0 =~= source@);
            assert(shuffle_state(seed, k + 1).1 =~= perm@);
        }
        i -= 1;
    }

    proof {
        lemma_perm_table_bijective(seed);
    }
    perm
}

/// A handle holding one immutable permutation table; its view is the table.
pub struct OpenSimplexNoise {
    perm: PermTable,
}

impl View for OpenSimplexNoise {
    type V = Seq<i32>;

    closed spec fn view(&self) -> Seq<i32> {
        self.perm@
    }
}

/// The seed a handle is built from: the caller's, or `DEFAULT_SEED`.
pub open spec fn seed_of(custom_seed: Option<u32>) -> u32 {
    match custom_seed {
        Some(value) => value,
        None => DEFAULT_SEED,
    }
}

impl OpenSimplexNoise {
    /// Builds a handle for the given seed (default seed 0): its table is the
    /// exact table of that seed, and a bijection on `[0, PSIZE)`.
    pub fn new(custom_seed: Option<u32>) -> (noise: Self)
        ensures
            noise@ == perm_table_of(seed_of(custom_seed)),
            is_perm_table(noise@),
    {
        let seed = match custom_seed {
            Some(value) => value,
            None => DEFAULT_SEED,
        };
        Self { perm: generate_perm_array(seed) }
    }

    /// The handle's permutation table, read-only.
    pub fn perm_table(&self) -> (table: &PermTable)
        ensures
            table@ == self@,
    {
        &self.perm
    }
}

} // verus!
