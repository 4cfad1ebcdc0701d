//! Small verified helpers over vectors of plain values.

use vstd::prelude::*;
use crate::enums::{ContentType, ExtensionType, HandshakeType, NamedGroup, ProtocolVersion, SignatureScheme};

verus! {

/// Concatenating the empty sequence on the right changes nothing.
pub broadcast proof fn lemma_seq_add_empty_right<T>(s: Seq<T>)
    ensures
        #[trigger] (s + Seq::<T>::empty()) == s,
{
    assert(s + Seq::<T>::empty() =~= s);
}

/// Concatenating the empty sequence on the left changes nothing.
pub broadcast proof fn lemma_seq_add_empty_left<T>(s: Seq<T>)
    ensures
        #[trigger] (Seq::<T>::empty() + s) == s,
{
    assert(Seq::<T>::empty() + s =~= s);
}

/// Appending a singleton is a push.
pub broadcast proof fn lemma_seq_add_singleton<T>(s: Seq<T>, x: T)
    ensures
        #[trigger] (s + seq![x]) == s.push(x),
{
    assert(s + seq![x] =~= s.push(x));
}

/// The views of a list of byte vectors.
pub open spec fn views_of(s: Seq<Vec<u8>>) -> Seq<Seq<u8>> {
    s.map_values(|v: Vec<u8>| v@)
}

/// Byte-vector equality.
pub fn bytes_eq(a: &Vec<u8>, b: &Vec<u8>) -> (r: bool)
    ensures
        r == (a@ == b@),
{
    if a.len() != b.len() {
        proof {
            assert(a@ != b@);
        }
        return false;
    }
    let mut i: usize = 0;
    while i < a.len()
        invariant
            i <= a@.len(),
            a@.len() == b@.len(),
            forall|j: int| 0 <= j < i ==> a@[j] == b@[j],
        decreases a@.len() - i,
    {
        if a[i] != b[i] {
            return false;
        }
        i = i + 1;
    }
    proof {
        assert(a@ =~= b@);
    }
    true
}

/// Does a list of byte vectors contain `x`?
pub fn bytes_list_contains(list: &Vec<Vec<u8>>, x: &Vec<u8>) -> (r: bool)
    ensures
        r == views_of(list@).contains(x@),
{
    let mut i: usize = 0;
    while i < list.len()
        invariant
            i <= list@.len(),
            forall|j: int| 0 <= j < i ==> views_of(list@)[j] != x@,
        decreases list@.len() - i,
    {
        if bytes_eq(&list[i], x) {
            proof {
                assert(views_of(list@)[i as int] == x@);
            }
            return true;
        }
        i = i + 1;
    }
    proof {
        assert(forall|j: int| 0 <= j < list@.len() ==> views_of(list@)[j] != x@);
        assert(!views_of(list@).contains(x@));
    }
    false
}

/// Does a scheme list contain `x`?
pub fn schemes_contain(list: &Vec<SignatureScheme>, x: SignatureScheme) -> (r: bool)
    ensures
        r == list@.contains(x),
{
    let mut i: usize = 0;
    while i < list.len()
        invariant
            i <= list@.len(),
            forall|j: int| 0 <= j < i ==> list@[j] != x,
        decreases list@.len() - i,
    {
        if list[i] == x {
            return true;
        }
        i = i + 1;
    }
    false
}

/// Does a group list contain `x`?
pub fn groups_contain(list: &Vec<NamedGroup>, x: NamedGroup) -> (r: bool)
    ensures
        r == list@.contains(x),
{
    let mut i: usize = 0;
    while i < list.len()
        invariant
            i <= list@.len(),
            forall|j: int| 0 <= j < i ==> list@[j] != x,
        decreases list@.len() - i,
    {
        if list[i] == x {
            return true;
        }
        i = i + 1;
    }
    false
}

/// Does a version list contain `x`?
pub fn versions_contain(list: &Vec<ProtocolVersion>, x: ProtocolVersion) -> (r: bool)
    ensures
        r == list@.contains(x),
{
    let mut i: usize = 0;
    while i < list.len()
        invariant
            i <= list@.len(),
            forall|j: int| 0 <= j < i ==> list@[j] != x,
        decreases list@.len() - i,
    {
        if list[i] == x {
            return true;
        }
        i = i + 1;
    }
    false
}

/// Does an extension-type list contain `x`?
pub fn ext_types_contain(list: &Vec<ExtensionType>, x: ExtensionType) -> (r: bool)
    ensures
        r == list@.contains(x),
{
    let mut i: usize = 0;
    while i < list.len()
        invariant
            i <= list@.len(),
            forall|j: int| 0 <= j < i ==> list@[j] != x,
        decreases list@.len() - i,
    {
        if list[i] == x {
            return true;
        }
        i = i + 1;
    }
    false
}

/// Does a content-type list contain `x`?
pub fn content_types_contain(list: &Vec<ContentType>, x: ContentType) -> (r: bool)
    ensures
        r == list@.contains(x),
{
    let mut i: usize = 0;
    while i < list.len()
        invariant
            i <= list@.len(),
            forall|j: int| 0 <= j < i ==> list@[j] != x,
        decreases list@.len() - i,
    {
        if list[i] == x {
            return true;
        }
        i = i + 1;
    }
    false
}

/// Does a handshake-type list contain `x`?
pub fn handshake_types_contain(list: &Vec<HandshakeType>, x: HandshakeType) -> (r: bool)
    ensures
        r == list@.contains(x),
{
    let mut i: usize = 0;
    while i < list.len()
        invariant
            i <= list@.len(),
            forall|j: int| 0 <= j < i ==> list@[j] != x,
        decreases list@.len() - i,
    {
        if list[i] == x {
            return true;
        }
        i = i + 1;
    }
    false
}

/// A copy of a content-type list.
pub fn copy_content_types(v: &Vec<ContentType>) -> (r: Vec<ContentType>)
    ensures
        r@ == v@,
{
    let mut out: Vec<ContentType> = Vec::new();
    let mut i: usize = 0;
    while i < v.len()
        invariant
            i <= v@.len(),
            out@ == v@.take(i as int),
        decreases v@.len() - i,
    {
        out.push(v[i]);
        proof {
            assert(v@.take(i + 1) =~= v@.take(i as int).push(v@[i as int]));
        }
        i = i + 1;
    }
    proof {
        assert(v@.take(v@.len() as int) =~= v@);
    }
    out
}

/// A copy of a handshake-type list.
pub fn copy_handshake_types(v: &Vec<HandshakeType>) -> (r: Vec<HandshakeType>)
    ensures
        r@ == v@,
{
    let mut out: Vec<HandshakeType> = Vec::new();
    let mut i: usize = 0;
    while i < v.len()
        invariant
            i <= v@.len(),
            out@ == v@.take(i as int),
        decreases v@.len() - i,
    {
        out.push(v[i]);
        proof {
            assert(v@.take(i + 1) =~= v@.take(i as int).push(v@[i as int]));
        }
        i = i + 1;
    }
    proof {
        assert(v@.take(v@.len() as int) =~= v@);
    }
    out
}

/// Some extension type occurs twice in the list.
pub open spec fn spec_has_duplicates(s: Seq<ExtensionType>) -> bool {
    exists|i: int, j: int| 0 <= i < j < s.len() && s[i] == s[j]
}

/// Does some extension type occur twice?
pub fn ext_types_have_duplicates(list: &Vec<ExtensionType>) -> (r: bool)
    ensures
        r == spec_has_duplicates(list@),
{
    let mut i: usize = 0;
    while i < list.len()
        invariant
            i <= list@.len(),
            forall|p: int, q: int| 0 <= p < q < list@.len() && q < i ==> list@[p] != list@[q],
        decreases list@.len() - i,
    {
        let mut j: usize = 0;
        while j < i
            invariant
                j <= i,
                i < list@.len(),
                forall|p: int| 0 <= p < j ==> list@[p] != list@[i as int],
            decreases i - j,
        {
            if list[j] == list[i] {
                return true;
            }
            j = j + 1;
        }
        i = i + 1;
    }
    false
}

/// An element-wise copy of a byte vector.
pub fn copy_bytes(v: &Vec<u8>) -> (r: Vec<u8>)
    ensures
        r@ == v@,
{
    let mut out: Vec<u8> = Vec::new();
    extend_bytes(&mut out, v);
    proof {
        assert(out@ =~= v@);
    }
    out
}

/// An element-wise copy of a list of byte vectors, equal view for view.
pub fn copy_bytes_list(v: &Vec<Vec<u8>>) -> (r: Vec<Vec<u8>>)
    ensures
        views_of(r@) == views_of(v@),
        r@.len() == v@.len(),
{
    let mut out: Vec<Vec<u8>> = Vec::new();
    let mut i: usize = 0;
    while i < v.len()
        invariant
            i <= v@.len(),
            out@.len() == i,
            forall|j: int| 0 <= j < i ==> out@[j]@ == v@[j]@,
        decreases v@.len() - i,
    {
        out.push(copy_bytes(&v[i]));
        i = i + 1;
    }
    proof {
        assert(views_of(out@) =~= views_of(v@));
    }
    out
}

/// A copy of a scheme list.
pub fn copy_schemes(v: &Vec<SignatureScheme>) -> (r: Vec<SignatureScheme>)
    ensures
        r@ == v@,
{
    let mut out: Vec<SignatureScheme> = Vec::new();
    let mut i: usize = 0;
    while i < v.len()
        invariant
            i <= v@.len(),
            out@ == v@.take(i as int),
        decreases v@.len() - i,
    {
        out.push(v[i]);
        proof {
            assert(v@.take(i + 1) =~= v@.take(i as int).push(v@[i as int]));
        }
        i = i + 1;
    }
    proof {
        assert(v@.take(v@.len() as int) =~= v@);
    }
    out
}

/// Append a byte vector's contents to `out`.
pub fn extend_bytes(out: &mut Vec<u8>, src: &Vec<u8>)
    ensures
        final(out)@ == old(out)@ + src@,
{
    let mut i: usize = 0;
    while i < src.len()
        invariant
            i <= src@.len(),
            out@ == old(out)@ + src@.take(i as int),
        decreases src@.len() - i,
    {
        out.push(src[i]);
        proof {
            assert(old(out)@ + src@.take(i + 1) =~= (old(out)@ + src@.take(i as int)).push(
                src@[i as int],
            ));
        }
        i = i + 1;
    }
    proof {
        assert(old(out)@ + src@.take(src@.len() as int) =~= old(out)@ + src@);
    }
}

} // verus!
