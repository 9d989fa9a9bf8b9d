//! Turning a path, given as its components, into the server-relative byte
//! form that the catalog stores.

use vstd::prelude::*;

verus! {

/// The byte `/`, the path separator.
pub const SEPARATOR: u8 = 47;

/// What `PathBuf::push` does with one more component: an absolute component
/// replaces everything, otherwise it is appended, with a separator unless the
/// path is empty or already ends with one.
pub open spec fn push_component(acc: Seq<u8>, c: Seq<u8>) -> Seq<u8> {
    if c.len() > 0 && c[0] == SEPARATOR {
        c
    } else if acc.len() == 0 || acc.last() == SEPARATOR {
        acc + c
    } else {
        acc.push(SEPARATOR) + c
    }
}

/// The path made of the given components, in order.
pub open spec fn join_spec(cs: Seq<Seq<u8>>) -> Seq<u8>
    decreases cs.len(),
{
    if cs.len() == 0 {
        Seq::empty()
    } else {
        push_component(join_spec(cs.drop_last()), cs.last())
    }
}

/// The components left after dropping the first `count` of them.
pub open spec fn strip_spec(cs: Seq<Seq<u8>>, count: nat) -> Seq<Seq<u8>> {
    if count >= cs.len() {
        Seq::empty()
    } else {
        cs.subrange(count as int, cs.len() as int)
    }
}

/// The stored form of a path: its components without the first `count`,
/// joined again.
pub open spec fn normalize_spec(cs: Seq<Seq<u8>>, count: nat) -> Seq<u8> {
    join_spec(strip_spec(cs, count))
}

/// The byte views of a list of byte strings.
pub open spec fn bytes_views(v: Seq<Vec<u8>>) -> Seq<Seq<u8>> {
    v.map_values(|b: Vec<u8>| b@)
}

/// A fresh copy of a byte string.
pub fn copy_bytes(b: &Vec<u8>) -> (r: Vec<u8>)
    ensures
        r@ == b@,
{
    let mut r: Vec<u8> = Vec::with_capacity(b.len());
    let mut i: usize = 0;
    while i < b.len()
        invariant
            i <= b@.len(),
            r@ == b@.subrange(0, i as int),
        decreases b@.len() - i,
    {
        r.push(b[i]);
        i = i + 1;
    }
    assert(r@ =~= b@);
    r
}

/// Appends one component to a path being built, as `push_component` says.
fn push_onto(acc: &mut Vec<u8>, c: &Vec<u8>)
    ensures
        final(acc)@ == push_component(old(acc)@, c@),
{
    if c.len() > 0 && c[0] == SEPARATOR {
        acc.clear();
    } else if acc.len() > 0 && acc[acc.len() - 1] != SEPARATOR {
        acc.push(SEPARATOR);
    }
    let ghost start = acc@;
    let mut i: usize = 0;
    while i < c.len()
        invariant
            i <= c@.len(),
            acc@ == start + c@.subrange(0, i as int),
        decreases c@.len() - i,
    {
        acc.push(c[i]);
        i = i + 1;
    }
    assert(c@.subrange(0, c@.len() as int) =~= c@);
    assert(acc@ =~= push_component(old(acc)@, c@));
}

/// Drops the first `strip_count` components of a path and joins the rest
/// into raw bytes. Dropping more components than there are gives the empty
/// path.
pub fn normalize(components: &Vec<Vec<u8>>, strip_count: usize) -> (r: Vec<u8>)
    ensures
        r@ == normalize_spec(bytes_views(components@), strip_count as nat),
{
    let ghost cs = bytes_views(components@);
    let mut r: Vec<u8> = Vec::new();
    if strip_count >= components.len() {
        assert(strip_spec(cs, strip_count as nat) =~= Seq::<Seq<u8>>::empty());
        return r;
    }
    let mut i: usize = strip_count;
    while i < components.len()
        invariant
            strip_count <= i <= components@.len(),
            cs == bytes_views(components@),
            r@ == join_spec(cs.subrange(strip_count as int, i as int)),
        decreases components@.len() - i,
    {
        let ghost before = cs.subrange(strip_count as int, i as int);
        push_onto(&mut r, &components[i]);
        let ghost after = cs.subrange(strip_count as int, i + 1);
        assert(after.drop_last() =~= before);
        assert(after.last() == components@[i as int]@);
        i = i + 1;
    }
    r
}

} // verus!
