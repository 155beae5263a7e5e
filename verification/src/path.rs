//! Object paths as ASCII byte strings, and the derivation of a child's
//! path segment from its parent path and index: the segment is a fixed
//! four-letter prefix followed by the index as four lower-case hex
//! digits, as in `char0003`.

use vstd::prelude::*;

verus! {

/// The path separator `/`.
pub const SLASH: u8 = 47;

/// The ASCII bytes of `char`.
pub open spec fn char_prefix_spec() -> Seq<u8> {
    seq![99u8, 104u8, 97u8, 114u8]
}

/// The ASCII bytes of `desc`.
pub open spec fn desc_prefix_spec() -> Seq<u8> {
    seq![100u8, 101u8, 115u8, 99u8]
}

/// The ASCII bytes of `serv`, the fixed four-letter check of a
/// service segment in path matching.
pub open spec fn serv_prefix_spec() -> Seq<u8> {
    seq![115u8, 101u8, 114u8, 118u8]
}

/// The ASCII bytes of `service`, the segment prefix of a service.
pub open spec fn service_prefix_spec() -> Seq<u8> {
    seq![115u8, 101u8, 114u8, 118u8, 105u8, 99u8, 101u8]
}

/// The lower-case hex digit for `d`.
pub open spec fn hex_digit_spec(d: u8) -> u8
    recommends
        d < 16,
{
    if d < 10 {
        (48 + d) as u8
    } else {
        (87 + d) as u8
    }
}

/// The four hex digits of `x`, highest first.
pub open spec fn hex4_spec(x: u16) -> Seq<u8> {
    seq![
        hex_digit_spec((x / 4096 % 16) as u8),
        hex_digit_spec((x / 256 % 16) as u8),
        hex_digit_spec((x / 16 % 16) as u8),
        hex_digit_spec((x % 16) as u8),
    ]
}

/// A child segment: the prefix followed by the index in hex.
pub open spec fn segment_spec(prefix: Seq<u8>, idx: u16) -> Seq<u8> {
    prefix + hex4_spec(idx)
}

/// A child path: the parent path, a separator, and the child segment.
pub open spec fn child_path_spec(parent: Seq<u8>, prefix: Seq<u8>, idx: u16) -> Seq<u8> {
    parent + seq![SLASH] + segment_spec(prefix, idx)
}

fn hex_digit(d: u8) -> (r: u8)
    requires
        d < 16,
    ensures
        r == hex_digit_spec(d),
{
    if d < 10 {
        48 + d
    } else {
        87 + d
    }
}

/// The index as four lower-case hex digits.
pub fn hex4(x: u16) -> (r: Vec<u8>)
    ensures
        r@ == hex4_spec(x),
{
    let mut r: Vec<u8> = Vec::new();
    r.push(hex_digit((x / 4096 % 16) as u8));
    r.push(hex_digit((x / 256 % 16) as u8));
    r.push(hex_digit((x / 16 % 16) as u8));
    r.push(hex_digit((x % 16) as u8));
    proof {
        assert(r@ =~= hex4_spec(x));
    }
    r
}

/// The ASCII bytes of `char`.
pub fn char_prefix() -> (r: Vec<u8>)
    ensures
        r@ == char_prefix_spec(),
{
    let mut r: Vec<u8> = Vec::new();
    r.push(99);
    r.push(104);
    r.push(97);
    r.push(114);
    proof {
        assert(r@ =~= char_prefix_spec());
    }
    r
}

/// The ASCII bytes of `desc`.
pub fn desc_prefix() -> (r: Vec<u8>)
    ensures
        r@ == desc_prefix_spec(),
{
    let mut r: Vec<u8> = Vec::new();
    r.push(100);
    r.push(101);
    r.push(115);
    r.push(99);
    proof {
        assert(r@ =~= desc_prefix_spec());
    }
    r
}

/// The ASCII bytes of `serv`.
pub fn serv_prefix() -> (r: Vec<u8>)
    ensures
        r@ == serv_prefix_spec(),
{
    let mut r: Vec<u8> = Vec::new();
    r.push(115);
    r.push(101);
    r.push(114);
    r.push(118);
    proof {
        assert(r@ =~= serv_prefix_spec());
    }
    r
}

/// The ASCII bytes of `service`.
pub fn service_prefix() -> (r: Vec<u8>)
    ensures
        r@ == service_prefix_spec(),
{
    let mut r: Vec<u8> = Vec::new();
    r.push(115);
    r.push(101);
    r.push(114);
    r.push(118);
    r.push(105);
    r.push(99);
    r.push(101);
    proof {
        assert(r@ =~= service_prefix_spec());
    }
    r
}

/// Derives a child's path from its parent's path, its segment prefix,
/// and its index.
pub fn child_path(parent: &[u8], prefix: &Vec<u8>, idx: u16) -> (r: Vec<u8>)
    ensures
        r@ == child_path_spec(parent@, prefix@, idx),
{
    let mut r: Vec<u8> = Vec::new();
    r.extend_from_slice(parent);
    r.push(SLASH);
    let mut i: usize = 0;
    while i < prefix.len()
        invariant
            i <= prefix@.len(),
            r@ == parent@ + seq![SLASH] + prefix@.take(i as int),
        decreases prefix@.len() - i,
    {
        r.push(prefix[i]);
        proof {
            assert(r@ =~= parent@ + seq![SLASH] + prefix@.take(i as int + 1));
        }
        i = i + 1;
    }
    proof {
        assert(prefix@.take(prefix@.len() as int) =~= prefix@);
    }
    let h = hex4(idx);
    let mut j: usize = 0;
    while j < h.len()
        invariant
            j <= h@.len(),
            h@ == hex4_spec(idx),
            r@ == parent@ + seq![SLASH] + prefix@ + h@.take(j as int),
        decreases h@.len() - j,
    {
        r.push(h[j]);
        proof {
            assert(r@ =~= parent@ + seq![SLASH] + prefix@ + h@.take(j as int + 1));
        }
        j = j + 1;
    }
    proof {
        assert(h@.take(h@.len() as int) =~= h@);
        assert(r@ =~= child_path_spec(parent@, prefix@, idx));
    }
    r
}

/// The parent part of a path: everything before the last separator.
pub open spec fn parent_of_spec(p: Seq<u8>) -> Seq<u8>
    decreases p.len(),
{
    if p.len() == 0 {
        p
    } else if p.last() == SLASH {
        p.drop_last()
    } else {
        parent_of_spec(p.drop_last())
    }
}

/// Everything before the last separator, the empty path when there is
/// no separator.
pub fn parent_of(p: &[u8]) -> (r: Vec<u8>)
    ensures
        r@ == parent_of_spec(p@),
{
    let mut end: usize = p.len();
    proof {
        assert(p@.take(p@.len() as int) =~= p@);
    }
    while end > 0 && p[end - 1] != SLASH
        invariant
            end <= p@.len(),
            parent_of_spec(p@.take(end as int)) == parent_of_spec(p@),
        decreases end,
    {
        proof {
            assert(p@.take(end as int).drop_last() =~= p@.take(end as int - 1));
        }
        end = end - 1;
    }
    let mut r: Vec<u8> = Vec::new();
    if end == 0 {
        proof {
            assert(p@.take(0) =~= Seq::<u8>::empty());
            assert(r@ =~= parent_of_spec(p@));
        }
        return r;
    }
    let stop = end - 1;
    proof {
        assert(p@.take(end as int).drop_last() =~= p@.take(stop as int));
    }
    let mut i: usize = 0;
    while i < stop
        invariant
            i <= stop,
            stop < p@.len(),
            r@ == p@.take(i as int),
        decreases stop - i,
    {
        r.push(p[i]);
        proof {
            assert(r@ =~= p@.take(i as int + 1));
        }
        i = i + 1;
    }
    proof {
        assert(r@ == p@.take(stop as int));
        assert(parent_of_spec(p@) == p@.take(stop as int));
    }
    r
}


/// The last segment of a path: everything after the last separator.
pub open spec fn last_segment_spec(p: Seq<u8>) -> Seq<u8>
    decreases p.len(),
{
    if p.len() == 0 {
        p
    } else if p.last() == SLASH {
        Seq::empty()
    } else {
        last_segment_spec(p.drop_last()).push(p.last())
    }
}

/// Everything after the last separator, the whole path when there is
/// no separator.
pub fn last_segment(p: &[u8]) -> (r: Vec<u8>)
    ensures
        r@ == last_segment_spec(p@),
{
    let mut end: usize = p.len();
    proof {
        assert(p@.take(p@.len() as int) =~= p@);
        assert(p@.skip(p@.len() as int) =~= Seq::<u8>::empty());
    }
    while end > 0 && p[end - 1] != SLASH
        invariant
            end <= p@.len(),
            last_segment_spec(p@) == last_segment_spec(p@.take(end as int)) + p@.skip(end as int),
        decreases end,
    {
        proof {
            assert(p@.take(end as int).drop_last() =~= p@.take(end as int - 1));
            assert(seq![p@[end - 1]] + p@.skip(end as int) =~= p@.skip(end as int - 1));
            assert(last_segment_spec(p@.take(end as int - 1)).push(p@[end - 1])
                =~= last_segment_spec(p@.take(end as int - 1)) + seq![p@[end - 1]]);
        }
        end = end - 1;
    }
    proof {
        if end > 0 {
            assert(last_segment_spec(p@.take(end as int)) =~= Seq::<u8>::empty());
        }
        assert(last_segment_spec(p@) =~= p@.skip(end as int));
    }
    let mut r: Vec<u8> = Vec::new();
    let mut i: usize = end;
    proof {
        assert(r@ =~= p@.subrange(end as int, end as int));
    }
    while i < p.len()
        invariant
            end <= i <= p@.len(),
            r@ == p@.subrange(end as int, i as int),
        decreases p@.len() - i,
    {
        let b = p[i];
        r.push(b);
        proof {
            assert(r@ =~= p@.subrange(end as int, i as int + 1));
        }
        i = i + 1;
    }
    proof {
        assert(r@ =~= p@.skip(end as int));
    }
    r
}

/// The head segment of a relative path: the bytes before the first
/// separator.
pub open spec fn head_segment_spec(p: Seq<u8>) -> Seq<u8>
    decreases p.len(),
{
    if p.len() == 0 {
        p
    } else if p.first() == SLASH {
        Seq::empty()
    } else {
        seq![p.first()] + head_segment_spec(p.drop_first())
    }
}

/// What follows the first separator of a relative path, `None` when
/// there is no separator.
pub open spec fn tail_after_segment_spec(p: Seq<u8>) -> Option<Seq<u8>>
    decreases p.len(),
{
    if p.len() == 0 {
        None
    } else if p.first() == SLASH {
        Some(p.drop_first())
    } else {
        tail_after_segment_spec(p.drop_first())
    }
}

/// Splits a relative path at its first separator.
pub fn split_first_segment(p: &[u8]) -> (r: (Vec<u8>, Option<Vec<u8>>))
    ensures
        r.0@ == head_segment_spec(p@),
        match r.1 {
            Some(rest) => tail_after_segment_spec(p@) == Some(rest@),
            None => tail_after_segment_spec(p@) is None,
        },
{
    let n = p.len();
    let mut i: usize = 0;
    while i < n && p[i] != SLASH
        invariant
            i <= n,
            n == p@.len(),
            forall|j: int| 0 <= j < i ==> p@[j] != SLASH,
        decreases n - i,
    {
        i = i + 1;
    }
    proof {
        lemma_split_at(p@, i as int);
    }
    let mut seg: Vec<u8> = Vec::new();
    let mut k: usize = 0;
    proof {
        assert(seg@ =~= p@.subrange(0, 0));
    }
    while k < i
        invariant
            k <= i,
            i <= p@.len(),
            seg@ == p@.subrange(0, k as int),
        decreases i - k,
    {
        let b = p[k];
        seg.push(b);
        proof {
            assert(seg@ =~= p@.subrange(0, k as int + 1));
        }
        k = k + 1;
    }
    proof {
        assert(seg@ =~= p@.take(i as int));
    }
    if i == n {
        return (seg, None);
    }
    let mut rest: Vec<u8> = Vec::new();
    let mut m: usize = i + 1;
    proof {
        assert(rest@ =~= p@.subrange(i as int + 1, i as int + 1));
    }
    while m < n
        invariant
            i < m <= n || m == i + 1,
            i as int + 1 <= m <= n,
            n == p@.len(),
            rest@ == p@.subrange(i as int + 1, m as int),
        decreases n - m,
    {
        let b = p[m];
        rest.push(b);
        proof {
            assert(rest@ =~= p@.subrange(i as int + 1, m as int + 1));
        }
        m = m + 1;
    }
    proof {
        assert(rest@ =~= p@.skip(i as int + 1));
    }
    (seg, Some(rest))
}

/// At the first separator position `i` (or the end), the head segment
/// is the prefix and the tail is what follows the separator.
proof fn lemma_split_at(p: Seq<u8>, i: int)
    requires
        0 <= i <= p.len(),
        forall|j: int| 0 <= j < i ==> p[j] != SLASH,
        i < p.len() ==> p[i] == SLASH,
    ensures
        head_segment_spec(p) == p.take(i),
        tail_after_segment_spec(p) == if i < p.len() {
            Some(p.skip(i + 1))
        } else {
            Option::<Seq<u8>>::None
        },
    decreases i,
{
    if i == 0 {
        if p.len() == 0 {
            assert(head_segment_spec(p) =~= p.take(0));
        } else {
            assert(p.first() == SLASH);
            assert(head_segment_spec(p) =~= p.take(0));
            assert(p.drop_first() =~= p.skip(1));
        }
    } else {
        assert(p.first() != SLASH);
        assert forall|j: int| 0 <= j < i - 1 implies #[trigger] p.drop_first()[j] != SLASH by {
            assert(p.drop_first()[j] == p[j + 1]);
        }
        assert(i - 1 < p.drop_first().len() ==> p.drop_first()[i - 1] == SLASH);
        lemma_split_at(p.drop_first(), i - 1);
        assert(head_segment_spec(p) == seq![p.first()] + head_segment_spec(p.drop_first()));
        assert(seq![p.first()] + p.drop_first().take(i - 1) =~= p.take(i));
        if i < p.len() {
            assert(p.drop_first().skip(i) =~= p.skip(i + 1));
        }
    }
}

/// Compares two byte strings for equality.
pub fn bytes_eq(a: &[u8], b: &[u8]) -> (r: bool)
    ensures
        r == (a@ == b@),
{
    if a.len() != b.len() {
        return false;
    }
    let n = a.len();
    let mut i: usize = 0;
    while i < n
        invariant
            i <= n,
            n == a@.len() == b@.len(),
            forall|j: int| 0 <= j < i ==> a@[j] == b@[j],
        decreases n - i,
    {
        if a[i] != b[i] {
            return false;
        }
        i = i + 1;
    }
    proof {
        assert(a@ =~= b@);
    }
    true
}

/// Whether `p` begins with `prefix`.
pub open spec fn starts_with_spec(p: Seq<u8>, prefix: Seq<u8>) -> bool {
    p.len() >= prefix.len() && p.take(prefix.len() as int) == prefix
}

/// Checks whether `p` begins with `prefix`.
pub fn starts_with(p: &[u8], prefix: &Vec<u8>) -> (r: bool)
    ensures
        r == starts_with_spec(p@, prefix@),
{
    let m = prefix.len();
    if p.len() < m {
        return false;
    }
    let mut i: usize = 0;
    while i < m
        invariant
            i <= m,
            m == prefix@.len(),
            m <= p@.len(),
            forall|j: int| 0 <= j < i ==> p@[j] == prefix@[j],
        decreases m - i,
    {
        if p[i] != prefix[i] {
            proof {
                assert(p@.take(m as int)[i as int] != prefix@[i as int]);
            }
            return false;
        }
        i = i + 1;
    }
    proof {
        assert(p@.take(m as int) =~= prefix@);
    }
    true
}

} // verus!
