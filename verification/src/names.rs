//! Name collisions: a name that is taken gets a numbered suffix before its extension.
//!
//! The server sees names only in encrypted form, so it cannot keep them apart; the client that
//! lists the folder does. The last dot splits off the extension, and a leading dot does not.

use vstd::prelude::*;

use crate::text::{
    chars_of, decimal, decimal_reads_back, is_listed, join6, last_of, listed,
    the_last_position_is_the_last, to_decimal,
};

verus! {

/// Where the extension of a name starts: at its last dot, unless that is the first or the last
/// character; the name's end where it has no extension.
pub open spec fn extension_start(name: Seq<char>) -> int {
    let dot = last_of(name, '.');
    if 0 < dot < name.len() - 1 {
        dot
    } else {
        name.len() as int
    }
}

/// Split a name into its stem and its extension, which keeps its dot.
pub fn split_extension(name: &str) -> (r: (&str, &str))
    ensures
        r.0@ == name@.take(extension_start(name@)),
        r.1@ == name@.skip(extension_start(name@)),
{
    let chars = chars_of(name);
    let n: usize = chars.len();
    let mut i: usize = n;
    assert(name@.take(n as int) =~= name@);
    while i > 0 && chars[i - 1] != '.'
        invariant
            i <= n,
            n == chars@.len(),
            chars@ == name@,
            last_of(name@, '.') == last_of(name@.take(i as int), '.'),
        decreases i,
    {
        assert(name@.take(i as int).drop_last() =~= name@.take(i - 1));
        i = i - 1;
    }
    let at: usize = if i > 1 && i < n {
        i - 1
    } else {
        n
    };
    proof {
        if i > 0 {
            assert(name@.take(i as int).last() == '.');
        }
        assert(at == extension_start(name@));
        assert(name@.subrange(0, at as int) =~= name@.take(at as int));
        assert(name@.subrange(at as int, n as int) =~= name@.skip(at as int));
    }
    (name.substring_char(0, at), name.substring_char(at, n))
}

/// The `n`th name to try in the place of a taken one.
pub open spec fn candidate(name: Seq<char>, n: nat) -> Seq<char> {
    let at = extension_start(name);
    name.take(at) + " ("@ + decimal(n) + ")"@ + name.skip(at)
}

/// Whether `r` is the name to use for `desired`: itself where it is free, else the first
/// numbered name that is.
pub open spec fn resolved(desired: Seq<char>, taken: Seq<String>, r: Seq<char>) -> bool {
    if !listed(taken, desired) {
        r == desired
    } else {
        exists|n: nat|
            n >= 1 && r == #[trigger] candidate(desired, n) && !listed(taken, r) && forall|k: nat|
                1 <= k < n ==> listed(taken, #[trigger] candidate(desired, k))
    }
}

proof fn candidates_differ(name: Seq<char>, i: nat, j: nat)
    requires
        candidate(name, i) == candidate(name, j),
    ensures
        i == j,
{
    let at = extension_start(name);
    let a = name.take(at) + " ("@;
    let b = ")"@ + name.skip(at);
    let ci = candidate(name, i);
    let cj = candidate(name, j);
    assert(ci =~= a + decimal(i) + b);
    assert(cj =~= a + decimal(j) + b);
    assert(decimal(i) =~= ci.subrange(a.len() as int, ci.len() - b.len()));
    assert(decimal(j) =~= cj.subrange(a.len() as int, cj.len() - b.len()));
    decimal_reads_back(i);
    decimal_reads_back(j);
}

proof fn taken_bounds_tries(desired: Seq<char>, taken: Seq<String>, n: nat)
    requires
        forall|k: nat| 1 <= k <= n ==> listed(taken, #[trigger] candidate(desired, k)),
    ensures
        n <= taken.len(),
{
    broadcast use vstd::seq_lib::seq_to_set_is_finite;

    let tries = Seq::new(n, |i: int| candidate(desired, (i + 1) as nat));
    let names = taken.map_values(|s: String| s@);
    assert forall|i: int, j: int| 0 <= i < tries.len() && 0 <= j < tries.len() && i != j implies
        tries[i] != tries[j] by {
        if tries[i] == tries[j] {
            candidates_differ(desired, (i + 1) as nat, (j + 1) as nat);
        }
    }
    tries.unique_seq_to_set();
    names.lemma_cardinality_of_set();
    assert forall|s: Seq<char>| tries.to_set().contains(s) implies names.to_set().contains(s) by {
        let i = choose|i: int| 0 <= i < tries.len() && tries[i] == s;
        let k = (i + 1) as nat;
        assert(listed(taken, candidate(desired, k)));
        let at = choose|at: int| 0 <= at < taken.len() && (#[trigger] taken[at])@ == s;
        assert(names[at] == s);
    }
    vstd::set_lib::lemma_len_subset(tries.to_set(), names.to_set());
}

/// Resolve a name against those taken: unchanged where it is free, else with the first free
/// number.
pub fn dedupe_name(desired: &str, taken: &Vec<String>) -> (r: String)
    requires
        taken@.len() < u32::MAX,
    ensures
        resolved(desired@, taken@, r@),
{
    if !is_listed(taken, desired) {
        return desired.to_owned();
    }
    let (stem, ext) = split_extension(desired);
    let mut n: u32 = 1;
    loop
        invariant
            n >= 1,
            taken@.len() < u32::MAX,
            listed(taken@, desired@),
            stem@ == desired@.take(extension_start(desired@)),
            ext@ == desired@.skip(extension_start(desired@)),
            forall|k: nat| 1 <= k < n ==> listed(taken@, #[trigger] candidate(desired@, k)),
        decreases u32::MAX - n,
    {
        let tried = join6(stem, " (", &to_decimal(n as u64), ")", ext, "");
        proof {
            reveal_strlit("");
            assert(tried@ =~= candidate(desired@, n as nat));
        }
        if !is_listed(taken, &tried) {
            return tried;
        }
        proof {
            taken_bounds_tries(desired@, taken@, n as nat);
        }
        n = n + 1;
    }
}

/// The name that a collision resolves to is free, and keeps the extension.
pub proof fn a_resolved_name_is_free(desired: Seq<char>, taken: Seq<String>, r: Seq<char>)
    requires
        resolved(desired, taken, r),
    ensures
        !listed(taken, r),
        desired.skip(extension_start(desired)).is_suffix_of(r),
{
    let ext = desired.skip(extension_start(desired));
    if listed(taken, desired) {
        let n = choose|n: nat|
            n >= 1 && r == #[trigger] candidate(desired, n) && !listed(taken, r) && forall|k: nat|
                1 <= k < n ==> listed(taken, #[trigger] candidate(desired, k));
        assert(r.skip(r.len() - ext.len()) =~= ext);
    } else {
        dots_are_inside(desired, '.');
        assert(r.skip(r.len() - ext.len()) =~= ext);
    }
}

proof fn dots_are_inside(s: Seq<char>, c: char)
    ensures
        -1 <= last_of(s, c) < s.len(),
    decreases s.len(),
{
    if s.len() > 0 {
        dots_are_inside(s.drop_last(), c);
    }
}

/// A name is its stem and its extension. The extension is empty, or a dot and what stands behind
/// the last one, which is something without a dot; the stem before it is never empty.
pub proof fn a_name_is_its_stem_and_its_extension(name: Seq<char>)
    ensures
        ({
            let at = extension_start(name);
            let stem = name.take(at);
            let extension = name.skip(at);
            &&& 0 <= at <= name.len()
            &&& stem + extension == name
            &&& extension.len() > 0 ==> {
                &&& stem.len() > 0
                &&& extension.len() > 1
                &&& extension[0] == '.'
                &&& forall|i: int| 1 <= i < extension.len() ==> #[trigger] extension[i] != '.'
            }
            &&& extension.len() == 0 ==> forall|i: int|
                0 < i < name.len() - 1 ==> #[trigger] name[i] != '.' || name.last() == '.'
        }),
{
    the_last_position_is_the_last(name, '.');
    let at = extension_start(name);
    assert(name.take(at) + name.skip(at) =~= name);
    let extension = name.skip(at);
    assert forall|i: int| 1 <= i < extension.len() implies #[trigger] extension[i] != '.' by {
        assert(extension[i] == name[at + i]);
    }
}

/// A name that is free is kept. One that is taken gets the first number whose name is free, in
/// brackets behind its stem and before its extension.
pub proof fn a_taken_name_gets_the_first_free_number(
    desired: Seq<char>,
    taken: Seq<String>,
    r: Seq<char>,
)
    requires
        resolved(desired, taken, r),
    ensures
        !listed(taken, desired) ==> r == desired,
        listed(taken, desired) ==> exists|n: nat|
            {
                let stem = desired.take(extension_start(desired));
                let extension = desired.skip(extension_start(desired));
                &&& n >= 1
                &&& r == stem + " ("@ + #[trigger] decimal(n) + ")"@ + extension
                &&& !listed(taken, r)
                &&& forall|k: nat|
                    1 <= k < n ==> listed(
                        taken,
                        stem + " ("@ + #[trigger] decimal(k) + ")"@ + extension,
                    )
            },
{
    if listed(taken, desired) {
        let stem = desired.take(extension_start(desired));
        let extension = desired.skip(extension_start(desired));
        let n = choose|n: nat|
            n >= 1 && r == #[trigger] candidate(desired, n) && !listed(taken, r) && forall|k: nat|
                1 <= k < n ==> listed(taken, #[trigger] candidate(desired, k));
        assert(r == stem + " ("@ + decimal(n) + ")"@ + extension);
        assert forall|k: nat| 1 <= k < n implies listed(
            taken,
            stem + " ("@ + #[trigger] decimal(k) + ")"@ + extension,
        ) by {
            assert(listed(taken, candidate(desired, k)));
        }
    }
}

} // verus!
