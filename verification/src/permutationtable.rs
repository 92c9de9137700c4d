//! Seeded permutation table used to hash integer lattice coordinates.
use vstd::prelude::*;

verus! {

/// State that stands in for a seed whose generator state would be zero.
pub const ZERO_SEED_STATE: u32 = 0x9E37_79B9;

/// One step of the 32-bit xorshift generator.
pub open spec fn next_state(state: u32) -> u32 {
    let a = state ^ (state << 13);
    let b = a ^ (a >> 17);
    b ^ (b << 5)
}

/// Generator state a seed starts from.
pub open spec fn initial_state(seed: u32) -> u32 {
    if seed == 0 {
        ZERO_SEED_STATE
    } else {
        seed
    }
}

/// The sequence `0, 1, .., 255`.
pub open spec fn identity_table() -> Seq<u8> {
    Seq::new(256, |i: int| i as u8)
}

/// `s` with the entries at `i` and `j` exchanged.
pub open spec fn swapped(s: Seq<u8>, i: int, j: int) -> Seq<u8> {
    s.update(i, s[j]).update(j, s[i])
}

/// Generator state after the shuffle has settled the positions above `i`.
pub open spec fn state_before(seed: u32, i: int) -> u32
    decreases 256 - i,
{
    if i >= 255 {
        initial_state(seed)
    } else {
        next_state(state_before(seed, i + 1))
    }
}

/// Table after the shuffle has settled the positions above `i`: a
/// Fisher-Yates shuffle of the identity, walking from position 255 down,
/// each exchange partner drawn from the generator.
pub open spec fn table_before(seed: u32, i: int) -> Seq<u8>
    decreases 256 - i,
{
    if i >= 255 {
        identity_table()
    } else {
        let prev = table_before(seed, i + 1);
        let drawn = next_state(state_before(seed, i + 1));
        swapped(prev, i + 1, (drawn as int) % (i + 2))
    }
}

/// The permutation of `0..256` that belongs to `seed`.
pub open spec fn permutation_of(seed: u32) -> Seq<u8> {
    table_before(seed, 0)
}

/// `s` has 256 entries, no two of them equal: it holds every value of
/// `0..256` exactly once.
pub open spec fn is_permutation(s: Seq<u8>) -> bool {
    &&& s.len() == 256
    &&& forall|i: int, j: int| 0 <= i < j < 256 ==> s[i] != s[j]
}

/// Residue of a lattice coordinate in `0..256`.
pub open spec fn low_byte(x: int) -> int {
    x % 256
}

/// Hash of one lattice coordinate.
pub open spec fn hash1(p: Seq<u8>, x: int) -> int {
    p[low_byte(x)] as int
}

/// Hash of two lattice coordinates, folded through the table in turn.
pub open spec fn hash2(p: Seq<u8>, x: int, y: int) -> int {
    p[(hash1(p, x) + low_byte(y)) % 256] as int
}

/// Hash of three lattice coordinates.
pub open spec fn hash3(p: Seq<u8>, x: int, y: int, z: int) -> int {
    p[(hash2(p, x, y) + low_byte(z)) % 256] as int
}

/// Hash of four lattice coordinates.
pub open spec fn hash4(p: Seq<u8>, x: int, y: int, z: int, w: int) -> int {
    p[(hash3(p, x, y, z) + low_byte(w)) % 256] as int
}

/// An exchange of two positions keeps a permutation a permutation.
pub proof fn lemma_swap_keeps_permutation(s: Seq<u8>, i: int, j: int)
    requires
        is_permutation(s),
        0 <= i < 256,
        0 <= j < 256,
    ensures
        is_permutation(swapped(s, i, j)),
{
    let t = swapped(s, i, j);
    assert forall|a: int, b: int| 0 <= a < b < 256 implies t[a] != t[b] by {
        let sa = if a == j { i } else if a == i { j } else { a };
        let sb = if b == j { i } else if b == i { j } else { b };
        assert(t[a] == s[sa]);
        assert(t[b] == s[sb]);
        assert(sa != sb);
        if sa < sb {
            assert(s[sa] != s[sb]);
        } else {
            assert(s[sb] != s[sa]);
        }
    }
}

/// Every stage of the shuffle is a permutation.
pub proof fn lemma_table_before_is_permutation(seed: u32, i: int)
    requires
        0 <= i <= 255,
    ensures
        is_permutation(table_before(seed, i)),
    decreases 256 - i,
{
    if i >= 255 {
        assert(is_permutation(identity_table()));
    } else {
        lemma_table_before_is_permutation(seed, i + 1);
        let drawn = next_state(state_before(seed, i + 1));
        lemma_swap_keeps_permutation(table_before(seed, i + 1), i + 1, (drawn as int) % (i + 2));
    }
}

/// The table of every seed holds each value of `0..256` exactly once.
pub proof fn lemma_permutation_of_is_permutation(seed: u32)
    ensures
        is_permutation(permutation_of(seed)),
{
    lemma_table_before_is_permutation(seed, 0);
}

/// Values of `s` at positions below `n`, as a set.
pub open spec fn prefix_values(s: Seq<u8>, n: int) -> Set<u8>
    decreases n,
{
    if n <= 0 {
        Set::empty()
    } else {
        prefix_values(s, n - 1).insert(s[n - 1])
    }
}

proof fn lemma_prefix_values(s: Seq<u8>, n: int)
    requires
        is_permutation(s),
        0 <= n <= 256,
    ensures
        prefix_values(s, n).finite(),
        prefix_values(s, n).len() == n,
        forall|v: u8| prefix_values(s, n).contains(v) <==> exists|i: int| 0 <= i < n && s[i] == v,
    decreases n,
{
    if n > 0 {
        lemma_prefix_values(s, n - 1);
        let prev = prefix_values(s, n - 1);
        let last = s[n - 1];
        assert(!prev.contains(last)) by {
            if prev.contains(last) {
                let i = choose|i: int| 0 <= i < n - 1 && s[i] == last;
                assert(s[i] != s[n - 1]);
            }
        }
        assert forall|v: u8| prefix_values(s, n).contains(v) <==> exists|i: int|
            0 <= i < n && s[i] == v by {
            if prefix_values(s, n).contains(v) {
                if v == s[n - 1] {
                    assert(0 <= n - 1 < n && s[n - 1] == v);
                } else {
                    assert(prev.contains(v));
                    let i = choose|i: int| 0 <= i < n - 1 && s[i] == v;
                    assert(0 <= i < n && s[i] == v);
                }
            }
            if exists|i: int| 0 <= i < n && s[i] == v {
                let i = choose|i: int| 0 <= i < n && s[i] == v;
                if i == n - 1 {
                } else {
                    assert(0 <= i < n - 1 && s[i] == v);
                    assert(prev.contains(v));
                }
            }
        }
    }
}

/// Byte values other than `v`, as a set of 255 elements.
proof fn lemma_bytes_without(v: u8) -> (r: Set<u8>)
    ensures
        r.finite(),
        r.len() == 255,
        forall|b: u8| r.contains(b) <==> b != v,
{
    let all = Set::new(|b: u8| true);
    lemma_byte_range(256);
    assert(all =~= byte_range(256));
    let r = all.remove(v);
    r
}

/// Byte values below `n`.
pub open spec fn byte_range(n: int) -> Set<u8>
    decreases n,
{
    if n <= 0 {
        Set::empty()
    } else {
        byte_range(n - 1).insert((n - 1) as u8)
    }
}

proof fn lemma_byte_range(n: int)
    requires
        0 <= n <= 256,
    ensures
        byte_range(n).finite(),
        byte_range(n).len() == n,
        forall|b: u8| byte_range(n).contains(b) <==> (b as int) < n,
    decreases n,
{
    if n > 0 {
        lemma_byte_range(n - 1);
    }
}

/// A table of 256 distinct bytes takes every byte value: each value has a
/// position.
pub proof fn lemma_permutation_is_onto(s: Seq<u8>, v: u8)
    requires
        is_permutation(s),
    ensures
        exists|i: int| 0 <= i < 256 && s[i] == v,
{
    if !(exists|i: int| 0 <= i < 256 && s[i] == v) {
        lemma_prefix_values(s, 256);
        let image = prefix_values(s, 256);
        let rest = lemma_bytes_without(v);
        assert(image.subset_of(rest)) by {
            assert forall|b: u8| image.contains(b) implies rest.contains(b) by {
                if b == v {
                    let i = choose|i: int| 0 <= i < 256 && s[i] == b;
                    assert(0 <= i < 256 && s[i] == v);
                }
            }
        }
        vstd::set_lib::lemma_len_subset(image, rest);
    }
}

/// A seeded permutation of `0..256`, stored twice over so that one hash
/// added to one coordinate byte always lands inside the table.
#[derive(Debug)]
pub struct PermutationTable {
    values: [u8; 512],
}

impl Clone for PermutationTable {
    fn clone(&self) -> (r: Self)
        ensures
            r == *self,
    {
        *self
    }
}

impl Copy for PermutationTable {

}

impl View for PermutationTable {
    type V = Seq<u8>;

    closed spec fn view(&self) -> Seq<u8> {
        self.values@.subrange(0, 256)
    }
}

fn advance(state: u32) -> (r: u32)
    ensures
        r == next_state(state),
{
    let a: u32 = state ^ (state << 13);
    let b: u32 = a ^ (a >> 17);
    b ^ (b << 5)
}

fn coordinate_byte(x: isize) -> (r: usize)
    ensures
        r == low_byte(x as int),
        r < 256,
{
    let m: isize = x & 0xff;
    assert(0 <= m < 256 && m == x % 256) by (bit_vector)
        requires
            m == x & 0xff,
    ;
    m as usize
}

fn shifted_byte(x: isize, d: i8) -> (r: usize)
    ensures
        r == low_byte(x + d),
        r < 256,
{
    let b: usize = coordinate_byte(x);
    let s: i32 = b as i32 + 256 + d as i32;
    (s % 256) as usize
}

impl PermutationTable {
    #[verifier::type_invariant]
    spec fn well_formed(self) -> bool {
        forall|i: int| 256 <= i < 512 ==> #[trigger] self.values@[i] == self.values@[i - 256]
    }

    /// Builds the table that belongs to `seed`.
    pub fn new(seed: u32) -> (r: Self)
        ensures
            r@ == permutation_of(seed),
            is_permutation(r@),
    {
        let mut values: [u8; 512] = [0u8; 512];
        let mut k: usize = 0;
        while k < 256
            invariant
                k <= 256,
                forall|a: int| 0 <= a < k ==> values@[a] == a as u8,
            decreases 256 - k,
        {
            values[k] = k as u8;
            k += 1;
        }
        assert(values@.subrange(0, 256) =~= identity_table());
        let mut state: u32 = if seed == 0 {
            ZERO_SEED_STATE
        } else {
            seed
        };
        proof {
            lemma_permutation_of_is_permutation(seed);
        }
        let mut i: usize = 255;
        while i > 0
            invariant
                i <= 255,
                state == state_before(seed, i as int),
                values@.subrange(0, 256) == table_before(seed, i as int),
            decreases i,
        {
            state = advance(state);
            let j: usize = (state % (i as u32 + 1)) as usize;
            let ghost before = values@;
            let at_i: u8 = values[i];
            let at_j: u8 = values[j];
            values[i] = at_j;
            values[j] = at_i;
            assert(values@.subrange(0, 256) =~= swapped(
                before.subrange(0, 256),
                i as int,
                j as int,
            ));
            i -= 1;
        }
        let mut k: usize = 0;
        while k < 256
            invariant
                k <= 256,
                values@.subrange(0, 256) == permutation_of(seed),
                forall|a: int| 256 <= a < k + 256 ==> #[trigger] values@[a] == values@[a - 256],
            decreases 256 - k,
        {
            let ghost before = values@;
            let v: u8 = values[k];
            values[k + 256] = v;
            assert(values@.subrange(0, 256) =~= before.subrange(0, 256));
            k += 1;
        }
        PermutationTable { values }
    }

    /// Hash of a one-dimensional lattice coordinate, in `0..256`.
    pub fn get1(&self, x: isize) -> (r: usize)
        ensures
            r == hash1(self@, x as int),
            r < 256,
    {
        let b: usize = coordinate_byte(x);
        self.values[b] as usize
    }

    /// Hash of a two-dimensional lattice corner, in `0..256`.
    pub fn get2(&self, pos: [isize; 2]) -> (r: usize)
        ensures
            r == hash2(self@, pos[0] as int, pos[1] as int),
            r < 256,
    {
        let h: usize = self.get1(pos[0]);
        self.step(h, coordinate_byte(pos[1]))
    }

    /// Hash of a three-dimensional lattice corner, in `0..256`.
    pub fn get3(&self, pos: [isize; 3]) -> (r: usize)
        ensures
            r == hash3(self@, pos[0] as int, pos[1] as int, pos[2] as int),
            r < 256,
    {
        let h: usize = self.get1(pos[0]);
        let h: usize = self.step(h, coordinate_byte(pos[1]));
        self.step(h, coordinate_byte(pos[2]))
    }

    /// Hash of a four-dimensional lattice corner, in `0..256`.
    pub fn get4(&self, pos: [isize; 4]) -> (r: usize)
        ensures
            r == hash4(self@, pos[0] as int, pos[1] as int, pos[2] as int, pos[3] as int),
            r < 256,
    {
        let h: usize = self.get1(pos[0]);
        let h: usize = self.step(h, coordinate_byte(pos[1]));
        let h: usize = self.step(h, coordinate_byte(pos[2]));
        self.step(h, coordinate_byte(pos[3]))
    }

    /// Hash of the lattice corner that lies `offset` away from `cell`.
    pub fn at2(&self, cell: [isize; 2], offset: [i8; 2]) -> (r: usize)
        ensures
            r == hash2(self@, cell[0] + offset[0], cell[1] + offset[1]),
            r < 256,
    {
        proof {
            use_type_invariant(self);
        }
        let h: usize = self.values[shifted_byte(cell[0], offset[0])] as usize;
        self.step(h, shifted_byte(cell[1], offset[1]))
    }

    /// Hash of the lattice corner that lies `offset` away from `cell`.
    pub fn at3(&self, cell: [isize; 3], offset: [i8; 3]) -> (r: usize)
        ensures
            r == hash3(self@, cell[0] + offset[0], cell[1] + offset[1], cell[2] + offset[2]),
            r < 256,
    {
        proof {
            use_type_invariant(self);
        }
        let h: usize = self.values[shifted_byte(cell[0], offset[0])] as usize;
        let h: usize = self.step(h, shifted_byte(cell[1], offset[1]));
        self.step(h, shifted_byte(cell[2], offset[2]))
    }

    /// Hash of the lattice corner that lies `offset` away from `cell`.
    pub fn at4(&self, cell: [isize; 4], offset: [i8; 4]) -> (r: usize)
        ensures
            r == hash4(
                self@,
                cell[0] + offset[0],
                cell[1] + offset[1],
                cell[2] + offset[2],
                cell[3] + offset[3],
            ),
            r < 256,
    {
        proof {
            use_type_invariant(self);
        }
        let h: usize = self.values[shifted_byte(cell[0], offset[0])] as usize;
        let h: usize = self.step(h, shifted_byte(cell[1], offset[1]));
        let h: usize = self.step(h, shifted_byte(cell[2], offset[2]));
        self.step(h, shifted_byte(cell[3], offset[3]))
    }

    /// Folds one more coordinate byte into a hash: the doubled table makes
    /// the sum an index without a reduction.
    fn step(&self, h: usize, b: usize) -> (r: usize)
        requires
            h < 256,
            b < 256,
        ensures
            r == self@[(h + b) % 256] as int,
            r < 256,
    {
        proof {
            use_type_invariant(self);
        }
        let at: usize = h + b;
        assert(self.values@[at as int] == self.values@[(at as int) % 256]) by {
            if at >= 256 {
                assert(self.values@[at as int] == self.values@[at - 256]);
            }
        }
        self.values[at] as usize
    }
}

/// The residue that decides the last entry of the table of `seed`: the
/// first number drawn, reduced to `0..256`.
pub open spec fn first_draw(seed: u32) -> int {
    (next_state(initial_state(seed)) as int) % 256
}

/// The shuffle settles the last position first and never comes back to it:
/// at every later stage the last entry is the first draw.
pub proof fn lemma_last_entry(seed: u32, i: int)
    requires
        0 <= i <= 254,
    ensures
        table_before(seed, i).len() == 256,
        table_before(seed, i)[255] == first_draw(seed),
    decreases 254 - i,
{
    lemma_table_before_is_permutation(seed, i + 1);
    let prev = table_before(seed, i + 1);
    let drawn = next_state(state_before(seed, i + 1));
    let j = (drawn as int) % (i + 2);
    assert(table_before(seed, i) == swapped(prev, i + 1, j));
    if i == 254 {
        assert(prev == identity_table());
        assert(state_before(seed, 255) == initial_state(seed));
        assert(j == first_draw(seed));
        assert(identity_table()[j] == j);
    } else {
        lemma_last_entry(seed, i + 1);
        assert(0 <= j < i + 2);
    }
}

/// Seeds tell: two seeds whose first draws differ have different tables,
/// and the hash of the lattice coordinate 255 tells them apart.
pub proof fn lemma_seeds_differ(a: u32, b: u32)
    requires
        first_draw(a) != first_draw(b),
    ensures
        permutation_of(a) != permutation_of(b),
        hash1(permutation_of(a), 255) != hash1(permutation_of(b), 255),
{
    lemma_last_entry(a, 0);
    lemma_last_entry(b, 0);
}

/// The seeds one and two have different tables.
pub proof fn lemma_seeds_one_and_two_differ()
    ensures
        permutation_of(1) != permutation_of(2),
        hash1(permutation_of(1), 255) == 33,
        hash1(permutation_of(2), 255) == 66,
{
    assert(next_state(1u32) == 270369u32) by (bit_vector);
    assert(next_state(2u32) == 540738u32) by (bit_vector);
    lemma_last_entry(1, 0);
    lemma_last_entry(2, 0);
}

/// Two tables built from one seed hold the same permutation.
pub proof fn lemma_same_seed_same_table(a: PermutationTable, b: PermutationTable, seed: u32)
    requires
        a@ == permutation_of(seed),
        b@ == permutation_of(seed),
    ensures
        a@ == b@,
        forall|x: int, y: int| hash2(a@, x, y) == hash2(b@, x, y),
{
}

} // verus!
