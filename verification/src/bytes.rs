//! Small helpers on byte strings, digests and lists of byte strings.
use vstd::prelude::*;

verus! {

/// Tells whether two byte strings are equal.
pub fn bytes_equal(a: &[u8], b: &[u8]) -> (same: bool)
    ensures
        same == (a@ == b@),
{
    if a.len() != b.len() {
        return false;
    }
    let mut i: usize = 0;
    while i < a.len()
        invariant
            i <= a.len(),
            a.len() == b.len(),
            forall|j: int| 0 <= j < i ==> a@[j] == b@[j],
        decreases a.len() - i,
    {
        if a[i] != b[i] {
            return false;
        }
        i = i + 1;
    }
    assert(a@ =~= b@);
    true
}

/// Tells whether two digests hold the same bytes.
pub fn same_digest(a: &[u8; 32], b: &[u8; 32]) -> (same: bool)
    ensures
        same == (a@ == b@),
{
    let mut i: usize = 0;
    while i < 32
        invariant
            i <= 32,
            forall|j: int| 0 <= j < i ==> a@[j] == b@[j],
        decreases 32 - i,
    {
        if a[i] != b[i] {
            return false;
        }
        i = i + 1;
    }
    assert(a@ =~= b@);
    true
}

/// Copies the bytes of a digest or an account identifier into a vector.
pub fn digest_bytes(digest: &[u8; 32]) -> (bytes: Vec<u8>)
    ensures
        bytes@ == digest@,
{
    let mut bytes: Vec<u8> = Vec::with_capacity(32);
    let mut i: usize = 0;
    while i < 32
        invariant
            i <= 32,
            bytes@ == digest@.subrange(0, i as int),
        decreases 32 - i,
    {
        bytes.push(digest[i]);
        assert(bytes@ =~= digest@.subrange(0, i + 1));
        i = i + 1;
    }
    assert(bytes@ =~= digest@);
    bytes
}

/// Copies a list of byte strings.
pub fn copy_byte_strings(list: &Vec<Vec<u8>>) -> (copy: Vec<Vec<u8>>)
    ensures
        copy.deep_view() == list.deep_view(),
{
    let mut copy: Vec<Vec<u8>> = Vec::with_capacity(list.len());
    let mut i: usize = 0;
    while i < list.len()
        invariant
            i <= list.len(),
            copy.len() == i,
            forall|j: int| 0 <= j < i ==> copy[j]@ == list[j]@,
        decreases list.len() - i,
    {
        let item = list[i].clone();
        copy.push(item);
        i = i + 1;
    }
    assert(copy.deep_view() =~= list.deep_view());
    copy
}

/// Pushing an item onto a list of byte strings pushes its bytes onto the
/// list's value.
pub proof fn lemma_deep_view_push(list: Vec<Vec<u8>>, longer: Vec<Vec<u8>>, item: Vec<u8>)
    requires
        longer@ == list@.push(item),
    ensures
        longer.deep_view() == list.deep_view().push(item@),
{
    assert(longer.deep_view().len() == list.deep_view().len() + 1);
    assert forall|i: int| 0 <= i < longer.deep_view().len() implies longer.deep_view()[i] == list.deep_view().push(
        item@,
    )[i] by {
        if i < list@.len() {
            assert(longer@[i] == list@[i]);
        } else {
            assert(longer@[i] == item);
            assert(item.deep_view() =~= item@);
        }
    }
    assert(longer.deep_view() =~= list.deep_view().push(item@));
}

/// Dropping the last item of a list of byte strings drops the last of the
/// list's value.
pub proof fn lemma_deep_view_drop_last(list: Vec<Vec<u8>>, shorter: Vec<Vec<u8>>)
    requires
        list@.len() > 0,
        shorter@ == list@.drop_last(),
    ensures
        shorter.deep_view() == list.deep_view().drop_last(),
        list.deep_view().last() == list@.last()@,
{
    assert forall|i: int| 0 <= i < shorter.deep_view().len() implies shorter.deep_view()[i]
        == list.deep_view().drop_last()[i] by {
        assert(shorter@[i] == list@[i]);
    }
    assert(shorter.deep_view() =~= list.deep_view().drop_last());
    assert(list@.last().deep_view() =~= list@.last()@);
}

} // verus!
