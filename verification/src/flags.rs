//! Conversion of flag sets between Linux and Darwin through tables of corresponding flags.

use vstd::prelude::*;

verus! {

/// The Darwin bits of the Linux flag set `linux`: each table entry `(l, a)` whose Linux bits
/// `l` are all set contributes its Darwin bits `a`.
pub open spec fn flags_to_apple(table: Seq<(u64, u64)>, linux: u64) -> u64
    decreases table.len(),
{
    if table.len() == 0 {
        0
    } else {
        let rest = flags_to_apple(table.drop_last(), linux);
        let (l, a) = table.last();
        if linux & l == l {
            rest | a
        } else {
            rest
        }
    }
}

/// The Linux bits of the Darwin flag set `apple`: each table entry `(l, a)` with any of its
/// Darwin bits `a` set contributes its Linux bits `l`.
pub open spec fn flags_from_apple(table: Seq<(u64, u64)>, apple: u64) -> u64
    decreases table.len(),
{
    if table.len() == 0 {
        0
    } else {
        let rest = flags_from_apple(table.drop_last(), apple);
        let (l, a) = table.last();
        if apple & a != 0 {
            rest | l
        } else {
            rest
        }
    }
}

/// Converts a Linux flag set to Darwin bits through `table`.
pub fn convert_to_apple(table: &[(u64, u64)], linux: u64) -> (r: u64)
    ensures
        r == flags_to_apple(table@, linux),
{
    let mut r: u64 = 0;
    let mut i: usize = 0;
    while i < table.len()
        invariant
            i <= table@.len(),
            r == flags_to_apple(table@.take(i as int), linux),
        decreases table@.len() - i,
    {
        let (l, a) = table[i];
        assert(table@.take(i + 1).drop_last() =~= table@.take(i as int));
        if linux & l == l {
            r = r | a;
        }
        i = i + 1;
    }
    assert(table@.take(table@.len() as int) =~= table@);
    r
}

/// Converts a Darwin flag set to Linux bits through `table`.
pub fn convert_from_apple(table: &[(u64, u64)], apple: u64) -> (r: u64)
    ensures
        r == flags_from_apple(table@, apple),
{
    let mut r: u64 = 0;
    let mut i: usize = 0;
    while i < table.len()
        invariant
            i <= table@.len(),
            r == flags_from_apple(table@.take(i as int), apple),
        decreases table@.len() - i,
    {
        let (l, a) = table[i];
        assert(table@.take(i + 1).drop_last() =~= table@.take(i as int));
        if apple & a != 0 {
            r = r | l;
        }
        i = i + 1;
    }
    assert(table@.take(table@.len() as int) =~= table@);
    r
}

/// The Linux bits of `linux` that `table` knows: the Linux bits of each entry whose Linux bits
/// are all set in `linux`.
pub open spec fn flags_known(table: Seq<(u64, u64)>, linux: u64) -> u64
    decreases table.len(),
{
    if table.len() == 0 {
        0
    } else {
        let rest = flags_known(table.drop_last(), linux);
        let (l, a) = table.last();
        if linux & l == l {
            rest | l
        } else {
            rest
        }
    }
}

/// Whether the Darwin bits of the entries of `table` are pairwise disjoint, and only an entry
/// without Linux bits has no Darwin bits.
pub open spec fn apple_disjoint(table: Seq<(u64, u64)>) -> bool {
    &&& forall|i: int, j: int|
        0 <= i < j < table.len() ==> #[trigger] table[i].1 & #[trigger] table[j].1 == 0
    &&& forall|i: int| 0 <= i < table.len() && #[trigger] table[i].1 == 0 ==> table[i].0 == 0
}

proof fn lemma_to_apple_misses(table: Seq<(u64, u64)>, linux: u64, a: u64)
    requires
        forall|j: int| 0 <= j < table.len() ==> #[trigger] table[j].1 & a == 0,
    ensures
        flags_to_apple(table, linux) & a == 0,
    decreases table.len(),
{
    if table.len() == 0 {
        assert(0u64 & a == 0) by (bit_vector);
    } else {
        let t = table.drop_last();
        assert forall|j: int| 0 <= j < t.len() implies #[trigger] t[j].1 & a == 0 by {
            assert(t[j] == table[j]);
        }
        lemma_to_apple_misses(t, linux, a);
        let rest = flags_to_apple(t, linux);
        let aj = table.last().1;
        assert(table.last() == table[table.len() - 1]);
        assert((rest | aj) & a == 0) by (bit_vector)
            requires
                rest & a == 0,
                aj & a == 0,
        ;
    }
}

proof fn lemma_from_apple_ignores(table: Seq<(u64, u64)>, z: u64, a: u64)
    requires
        forall|j: int| 0 <= j < table.len() ==> #[trigger] table[j].1 & a == 0,
    ensures
        flags_from_apple(table, z | a) == flags_from_apple(table, z),
    decreases table.len(),
{
    if table.len() > 0 {
        let t = table.drop_last();
        assert forall|j: int| 0 <= j < t.len() implies #[trigger] t[j].1 & a == 0 by {
            assert(t[j] == table[j]);
        }
        lemma_from_apple_ignores(t, z, a);
        let aj = table.last().1;
        assert(table.last() == table[table.len() - 1]);
        assert(((z | a) & aj != 0) == (z & aj != 0)) by (bit_vector)
            requires
                aj & a == 0,
        ;
    }
}

/// A flag set that goes to Darwin and back keeps exactly the Linux flags that the table knows,
/// where the table gives each flag Darwin bits of its own.
pub proof fn lemma_flags_round_trip(table: Seq<(u64, u64)>, linux: u64)
    requires
        apple_disjoint(table),
    ensures
        flags_from_apple(table, flags_to_apple(table, linux)) == flags_known(table, linux),
    decreases table.len(),
{
    if table.len() > 0 {
        let t = table.drop_last();
        let n = table.len() - 1;
        let (l, a) = table.last();
        assert(table.last() == table[n]);
        assert forall|i: int, j: int| 0 <= i < j < t.len() implies #[trigger] t[i].1 & #[trigger] t[j].1
            == 0 by {
            assert(t[i] == table[i] && t[j] == table[j]);
        }
        assert forall|i: int| 0 <= i < t.len() && #[trigger] t[i].1 == 0 implies t[i].0 == 0 by {
            assert(t[i] == table[i]);
        }
        lemma_flags_round_trip(t, linux);
        assert forall|j: int| 0 <= j < t.len() implies #[trigger] t[j].1 & a == 0 by {
            assert(t[j] == table[j]);
            assert(table[j].1 & table[n].1 == 0);
        }
        let y0 = flags_to_apple(t, linux);
        let k = flags_known(t, linux);
        lemma_to_apple_misses(t, linux, a);
        if linux & l == l {
            lemma_from_apple_ignores(t, y0, a);
            if a == 0 {
                assert(table[n].1 == 0);
                assert(l == 0);
                assert((k | l) == k && (y0 | a) & a == 0) by (bit_vector)
                    requires
                        l == 0,
                        a == 0,
                ;
            } else {
                assert((y0 | a) & a != 0) by (bit_vector)
                    requires
                        a != 0,
                ;
            }
        }
    }
}

/// Darwin bits below bit 31 stay the same through an `i32`.
pub proof fn lemma_to_apple_fits_i32(table: Seq<(u64, u64)>, linux: u64)
    requires
        forall|j: int| 0 <= j < table.len() ==> #[trigger] table[j].1 & 0xffff_ffff_8000_0000u64 == 0,
    ensures
        (flags_to_apple(table, linux) as i32) as u64 == flags_to_apple(table, linux),
{
    lemma_to_apple_misses(table, linux, 0xffff_ffff_8000_0000u64);
    let y = flags_to_apple(table, linux);
    assert((y as i32) as u64 == y) by (bit_vector)
        requires
            y & 0xffff_ffff_8000_0000u64 == 0,
    ;
}

/// Darwin bits below bit 15 stay the same through an `i16`.
pub proof fn lemma_to_apple_fits_i16(table: Seq<(u64, u64)>, linux: u64)
    requires
        forall|j: int| 0 <= j < table.len() ==> #[trigger] table[j].1 & 0xffff_ffff_ffff_8000u64 == 0,
    ensures
        (flags_to_apple(table, linux) as i16) as u64 == flags_to_apple(table, linux),
{
    lemma_to_apple_misses(table, linux, 0xffff_ffff_ffff_8000u64);
    let y = flags_to_apple(table, linux);
    assert((y as i16) as u64 == y) by (bit_vector)
        requires
            y & 0xffff_ffff_ffff_8000u64 == 0,
    ;
}

/// A Linux flag set that matches only entries without Darwin bits has no Darwin bits.
pub proof fn lemma_to_apple_nothing(table: Seq<(u64, u64)>, linux: u64)
    requires
        forall|j: int|
            0 <= j < table.len() && linux & (#[trigger] table[j]).0 == table[j].0 ==> table[j].1 == 0,
    ensures
        flags_to_apple(table, linux) == 0,
    decreases table.len(),
{
    if table.len() > 0 {
        let t = table.drop_last();
        assert forall|j: int|
            0 <= j < t.len() && linux & (#[trigger] t[j]).0 == t[j].0 implies t[j].1 == 0 by {
            assert(t[j] == table[j]);
        }
        lemma_to_apple_nothing(t, linux);
        assert(table.last() == table[table.len() - 1]);
        assert(0u64 | 0u64 == 0) by (bit_vector);
    }
}

/// The Darwin bits of a Linux flag set that only one entry of the table matches (besides
/// entries without Darwin bits) are that entry's Darwin bits.
pub proof fn lemma_to_apple_entry(table: Seq<(u64, u64)>, linux: u64, i: int)
    requires
        0 <= i < table.len(),
        linux & table[i].0 == table[i].0,
        forall|j: int|
            0 <= j < table.len() && j != i && linux & (#[trigger] table[j]).0 == table[j].0
                ==> table[j].1 == 0,
    ensures
        flags_to_apple(table, linux) == table[i].1,
    decreases table.len(),
{
    let t = table.drop_last();
    let n = table.len() - 1;
    assert(table.last() == table[n]);
    let a = table[n].1;
    if i == n {
        assert forall|j: int|
            0 <= j < t.len() && linux & (#[trigger] t[j]).0 == t[j].0 implies t[j].1 == 0 by {
            assert(t[j] == table[j]);
        }
        lemma_to_apple_nothing(t, linux);
        assert(0u64 | a == a) by (bit_vector);
    } else {
        assert(t[i] == table[i]);
        assert forall|j: int|
            0 <= j < t.len() && j != i && linux & (#[trigger] t[j]).0 == t[j].0 implies t[j].1
                == 0 by {
            assert(t[j] == table[j]);
        }
        lemma_to_apple_entry(t, linux, i);
        let r = flags_to_apple(t, linux);
        if linux & table[n].0 == table[n].0 {
            assert(a == 0);
            assert(r | 0u64 == r) by (bit_vector);
        }
    }
}

/// Darwin bits that no entry of the table has are read as no Linux bits.
pub proof fn lemma_from_apple_nothing(table: Seq<(u64, u64)>, apple: u64)
    requires
        forall|j: int| 0 <= j < table.len() ==> apple & (#[trigger] table[j]).1 == 0,
    ensures
        flags_from_apple(table, apple) == 0,
    decreases table.len(),
{
    if table.len() > 0 {
        let t = table.drop_last();
        assert forall|j: int| 0 <= j < t.len() implies apple & (#[trigger] t[j]).1 == 0 by {
            assert(t[j] == table[j]);
        }
        lemma_from_apple_nothing(t, apple);
        assert(table.last() == table[table.len() - 1]);
    }
}

/// Where the table gives each flag Darwin bits of its own, the Darwin bits of an entry are read
/// as that entry's Linux bits.
pub proof fn lemma_from_apple_entry(table: Seq<(u64, u64)>, i: int)
    requires
        apple_disjoint(table),
        0 <= i < table.len(),
        table[i].1 != 0,
    ensures
        flags_from_apple(table, table[i].1) == table[i].0,
    decreases table.len(),
{
    let y = table[i].1;
    let t = table.drop_last();
    let n = table.len() - 1;
    assert(table.last() == table[n]);
    assert forall|j: int| 0 <= j < t.len() && j != i implies y & (#[trigger] t[j]).1 == 0 by {
        assert(t[j] == table[j]);
        let aj = table[j].1;
        if j < i {
            assert(aj & y == 0);
        } else {
            assert(y & aj == 0);
        }
        assert(aj & y == 0 ==> y & aj == 0) by (bit_vector);
    }
    assert(y & y != 0) by (bit_vector)
        requires
            y != 0,
    ;
    if i == n {
        lemma_from_apple_nothing(t, y);
        let l = table[n].0;
        assert(0u64 | l == l) by (bit_vector);
    } else {
        assert(t[i] == table[i]);
        assert forall|a: int, b: int| 0 <= a < b < t.len() implies #[trigger] t[a].1 & #[trigger] t[b].1
            == 0 by {
            assert(t[a] == table[a] && t[b] == table[b]);
        }
        assert forall|a: int| 0 <= a < t.len() && #[trigger] t[a].1 == 0 implies t[a].0 == 0 by {
            assert(t[a] == table[a]);
        }
        lemma_from_apple_entry(t, i);
        assert(y & table[n].1 == 0) by {
            assert(table[i].1 & table[n].1 == 0);
        }
    }
}

} // verus!
