//! Orders for the lists the user scrolls: topics by lower-cased name,
//! partitions by id.
use crate::protocol_responses::metadata_response::PartitionMetadata;
use crate::protocol_responses::metadata_response::TopicMetadata;
use vstd::multiset::Multiset;
use vstd::prelude::*;
use vstd::utf8::encode_utf8;

verus! {

broadcast use vstd::seq_lib::group_to_multiset_ensures;

/// What `str::to_lowercase` makes of a string.
pub uninterp spec fn lower_of(s: Seq<char>) -> Seq<char>;

/// Relies on str::to_lowercase: its result depends on the characters alone.
#[verifier::external_body]
fn lowercase(s: &str) -> (r: String)
    ensures
        r@ == lower_of(s@),
{
    s.to_lowercase()
}

/// Byte sequences in dictionary order, a prefix first.
pub open spec fn lex_le(a: Seq<u8>, b: Seq<u8>) -> bool
    decreases a.len(),
{
    if a.len() == 0 {
        true
    } else if b.len() == 0 {
        false
    } else if a[0] != b[0] {
        a[0] < b[0]
    } else {
        lex_le(a.drop_first(), b.drop_first())
    }
}

/// Any two byte sequences are ordered one way or the other.
pub proof fn lemma_lex_total(a: Seq<u8>, b: Seq<u8>)
    ensures
        lex_le(a, b) || lex_le(b, a),
    decreases a.len(),
{
    if a.len() > 0 && b.len() > 0 && a[0] == b[0] {
        lemma_lex_total(a.drop_first(), b.drop_first());
    }
}

/// The dictionary order is transitive.
pub proof fn lemma_lex_transitive(a: Seq<u8>, b: Seq<u8>, c: Seq<u8>)
    requires
        lex_le(a, b),
        lex_le(b, c),
    ensures
        lex_le(a, c),
    decreases a.len(),
{
    if a.len() > 0 && b.len() > 0 && c.len() > 0 && a[0] == b[0] && b[0] == c[0] {
        lemma_lex_transitive(a.drop_first(), b.drop_first(), c.drop_first());
    }
}

/// Whether `a` comes no later than `b` in dictionary order.
pub fn bytes_le(a: &[u8], b: &[u8]) -> (r: bool)
    ensures
        r == lex_le(a@, b@),
{
    let mut i: usize = 0;
    assert(a@.skip(0) =~= a@ && b@.skip(0) =~= b@);
    while i < a.len() && i < b.len()
        invariant
            i <= a@.len(),
            i <= b@.len(),
            lex_le(a@, b@) == lex_le(a@.skip(i as int), b@.skip(i as int)),
        decreases a@.len() - i,
    {
        assert(a@.skip(i as int)[0] == a@[i as int] && b@.skip(i as int)[0] == b@[i as int]);
        if a[i] != b[i] {
            return a[i] < b[i];
        }
        assert(a@.skip(i as int).drop_first() =~= a@.skip(i + 1));
        assert(b@.skip(i as int).drop_first() =~= b@.skip(i + 1));
        i = i + 1;
    }
    i == a.len()
}

/// A value that sorts by a sequence of bytes, in dictionary order.
pub trait SortKey {
    spec fn sort_key(&self) -> Seq<u8>;

    fn sort_key_bytes(&self) -> (r: Vec<u8>)
        ensures
            r@ == self.sort_key(),
    ;
}

/// A value paired with the key it sorts by.
impl<T> SortKey for (Vec<u8>, T) {
    open spec fn sort_key(&self) -> Seq<u8> {
        self.0@
    }

    fn sort_key_bytes(&self) -> (r: Vec<u8>) {
        vstd::slice::slice_to_vec(self.0.as_slice())
    }
}

/// Topics sort by the UTF-8 bytes of the lower-cased name.
impl SortKey for TopicMetadata {
    open spec fn sort_key(&self) -> Seq<u8> {
        encode_utf8(lower_of(self.topic@))
    }

    fn sort_key_bytes(&self) -> (r: Vec<u8>) {
        let lower = lowercase(self.topic.as_str());
        vstd::slice::slice_to_vec(lower.as_str().as_bytes())
    }
}

pub open spec fn sorted_by_key<T: SortKey>(s: Seq<T>) -> bool {
    forall|i: int, j: int| 0 <= i < j < s.len() ==> lex_le((#[trigger] s[i]).sort_key(), (#[trigger] s[j]).sort_key())
}

/// Topics in order of lower-cased name.
pub open spec fn topics_sorted(s: Seq<TopicMetadata>) -> bool {
    sorted_by_key(s)
}

/// `r` is `a` reordered, `r[k]` being `a[p[k]]`, with values of equal key
/// in their order in `a`.
pub open spec fn stable_order<T: SortKey>(p: Seq<int>, a: Seq<T>, r: Seq<T>) -> bool {
    &&& p.len() == a.len() && r.len() == a.len()
    &&& forall|k: int| 0 <= k < p.len() ==> 0 <= #[trigger] p[k] < a.len() && r[k] == a[p[k]]
    &&& forall|i: int, j: int| 0 <= i < j < p.len() ==> #[trigger] p[i] != #[trigger] p[j]
    &&& forall|i: int, j: int|
        0 <= i < j < r.len() && (#[trigger] r[i]).sort_key() == (#[trigger] r[j]).sort_key() ==> p[i] < p[j]
}

/// Sorts by key, keeping every value; values of equal key keep their order.
pub fn sort_by_key<T: SortKey>(items: Vec<T>) -> (r: Vec<T>)
    ensures
        r@.to_multiset() == items@.to_multiset(),
        sorted_by_key(r@),
        exists|p: Seq<int>| stable_order(p, items@, r@),
{
    let ghost n = items@.len() as int;
    let ghost all = items@;
    let mut rest = items;
    let mut out: Vec<T> = Vec::new();
    let ghost mut pout: Seq<int> = seq![];
    let ghost mut prest: Seq<int> = Seq::new(n as nat, |i: int| i);
    assert(rest@ =~= all);
    while rest.len() > 0
        invariant
            all == items@,
            n == all.len(),
            pout.len() == out@.len(),
            prest.len() == rest@.len(),
            out@.len() + rest@.len() == n,
            forall|k: int| 0 <= k < pout.len() ==> 0 <= #[trigger] pout[k] < n && out@[k] == all[pout[k]],
            forall|k: int| 0 <= k < prest.len() ==> 0 <= #[trigger] prest[k] < n && rest@[k] == all[prest[k]],
            forall|a: int, b: int| 0 <= a < b < prest.len() ==> #[trigger] prest[a] < #[trigger] prest[b],
            forall|a: int, b: int| 0 <= a < b < pout.len() ==> #[trigger] pout[a] != #[trigger] pout[b],
            forall|a: int, b: int| 0 <= a < pout.len() && 0 <= b < prest.len() ==> #[trigger] pout[a] != #[trigger] prest[b],
            forall|a: int, b: int|
                0 <= a < b < out@.len() && (#[trigger] out@[a]).sort_key() == (#[trigger] out@[b]).sort_key()
                    ==> pout[a] < pout[b],
            forall|a: int, b: int|
                0 <= a < out@.len() && 0 <= b < rest@.len() && (#[trigger] out@[a]).sort_key() == (
                #[trigger] rest@[b]).sort_key() ==> pout[a] < prest[b],
            out@.to_multiset().add(rest@.to_multiset()) == items@.to_multiset(),
            sorted_by_key(out@),
            forall|i: int, j: int|
                0 <= i < out@.len() && 0 <= j < rest@.len() ==> lex_le(
                    (#[trigger] out@[i]).sort_key(),
                    (#[trigger] rest@[j]).sort_key(),
                ),
        decreases rest@.len(),
    {
        let mut min: usize = 0;
        let mut min_key = rest[0].sort_key_bytes();
        let mut k: usize = 1;
        proof {
            lemma_lex_total(min_key@, min_key@);
        }
        while k < rest.len()
            invariant
                0 <= min < k <= rest@.len(),
                min_key@ == rest@[min as int].sort_key(),
                forall|j: int| 0 <= j < k ==> lex_le(min_key@, (#[trigger] rest@[j]).sort_key()),
                forall|j: int| 0 <= j < min ==> (#[trigger] rest@[j]).sort_key() != min_key@,
            decreases rest@.len() - k,
        {
            let key = rest[k].sort_key_bytes();
            if !bytes_le(min_key.as_slice(), key.as_slice()) {
                proof {
                    lemma_lex_total(min_key@, key@);
                    assert forall|j: int| 0 <= j < k + 1 implies lex_le(
                        key@,
                        (#[trigger] rest@[j]).sort_key(),
                    ) by {
                        if j < k {
                            lemma_lex_transitive(key@, min_key@, rest@[j].sort_key());
                        } else {
                            lemma_lex_total(key@, key@);
                        }
                    }
                }
                min = k;
                min_key = key;
            } else {
                proof {
                    assert(lex_le(min_key@, rest@[k as int].sort_key()));
                }
            }
            k = k + 1;
        }
        let ghost old_rest = rest@;
        let ghost old_out = out@;
        let ghost old_pout = pout;
        let ghost old_prest = prest;
        let t = rest.remove(min);
        proof {
            pout = pout.push(prest[min as int]);
            prest = prest.remove(min as int);
        }
        proof {
            assert(t == old_rest[min as int]);
            assert(old_rest.remove(min as int) == rest@);
        }
        out.push(t);
        proof {
            assert(out@ == old_out.push(t));
            assert(out@.to_multiset() == old_out.to_multiset().insert(t));
            assert(rest@.to_multiset() == old_rest.to_multiset().remove(t));
            assert(old_rest.to_multiset().count(t) > 0) by {
                assert(old_rest.contains(t));
            }
            assert(out@.to_multiset().add(rest@.to_multiset()) =~= old_out.to_multiset().add(
                old_rest.to_multiset(),
            ));
            assert forall|i: int, j: int| 0 <= i < j < out@.len() implies lex_le(
                (#[trigger] out@[i]).sort_key(),
                (#[trigger] out@[j]).sort_key(),
            ) by {
                if j == out@.len() - 1 {
                    assert(out@[j] == old_rest[min as int]);
                }
            }
            assert forall|a: int, b: int|
                0 <= a < out@.len() && 0 <= b < rest@.len() && (#[trigger] out@[a]).sort_key() == (
                #[trigger] rest@[b]).sort_key() implies pout[a] < prest[b] by {
                let bb = if b < min { b } else { b + 1 };
                assert(rest@[b] == old_rest[bb]);
                assert(prest[b] == old_prest[bb]);
                if a < old_out.len() {
                    assert(out@[a] == old_out[a]);
                    assert(pout[a] == old_pout[a]);
                } else {
                    assert(out@[a] == old_rest[min as int]);
                    assert(pout[a] == old_prest[min as int]);
                    if bb < min {
                        assert(old_rest[bb].sort_key() != old_rest[min as int].sort_key());
                    }
                }
            }
            assert forall|a: int, b: int|
                0 <= a < b < out@.len() && (#[trigger] out@[a]).sort_key() == (#[trigger] out@[b]).sort_key()
                implies pout[a] < pout[b] by {
                if b == out@.len() - 1 {
                    assert(out@[a] == old_out[a]);
                    assert(out@[b] == old_rest[min as int]);
                    assert(pout[b] == old_prest[min as int]);
                }
            }
            assert forall|a: int, b: int| 0 <= a < pout.len() && 0 <= b < prest.len() implies #[trigger] pout[a]
                != #[trigger] prest[b] by {
                let bb = if b < min { b } else { b + 1 };
                assert(prest[b] == old_prest[bb]);
                if a == pout.len() - 1 {
                    assert(pout[a] == old_prest[min as int]);
                }
            }
            assert forall|a: int, b: int| 0 <= a < b < pout.len() implies #[trigger] pout[a] != #[trigger] pout[b] by {
                if b == pout.len() - 1 {
                    assert(pout[b] == old_prest[min as int]);
                    assert(pout[a] == old_pout[a]);
                }
            }
            assert forall|a: int, b: int| 0 <= a < b < prest.len() implies #[trigger] prest[a] < #[trigger] prest[b] by {
                let aa = if a < min { a } else { a + 1 };
                let bb = if b < min { b } else { b + 1 };
                assert(prest[a] == old_prest[aa]);
                assert(prest[b] == old_prest[bb]);
            }
            assert forall|i: int, j: int|
                0 <= i < out@.len() && 0 <= j < rest@.len() implies lex_le(
                (#[trigger] out@[i]).sort_key(),
                (#[trigger] rest@[j]).sort_key(),
            ) by {
                let jj = if j < min { j } else { j + 1 };
                assert(rest@[j] == old_rest[jj]);
                if i < old_out.len() {
                    assert(out@[i] == old_out[i]);
                } else {
                    assert(out@[i] == old_rest[min as int]);
                }
            }
        }
    }
    assert(rest@.to_multiset() =~= Multiset::empty());
    assert(out@.to_multiset().add(Multiset::empty()) =~= out@.to_multiset());
    assert(stable_order(pout, items@, out@));
    out
}

/// Sorts topics by lower-cased name, keeping every topic.
pub fn sort_topics(topics: Vec<TopicMetadata>) -> (r: Vec<TopicMetadata>)
    ensures
        r@.to_multiset() == topics@.to_multiset(),
        topics_sorted(r@),
        exists|p: Seq<int>| stable_order(p, topics@, r@),
{
    sort_by_key(topics)
}

pub open spec fn partitions_sorted(s: Seq<PartitionMetadata>) -> bool {
    forall|i: int, j: int| 0 <= i < j < s.len() ==> (#[trigger] s[i]).partition <= (#[trigger] s[j]).partition
}

/// Sorts partitions by id, keeping every partition.
pub fn sort_partitions(partitions: Vec<PartitionMetadata>) -> (r: Vec<PartitionMetadata>)
    ensures
        r@.to_multiset() == partitions@.to_multiset(),
        partitions_sorted(r@),
{
    let mut rest = partitions;
    let mut out: Vec<PartitionMetadata> = Vec::new();
    while rest.len() > 0
        invariant
            out@.to_multiset().add(rest@.to_multiset()) == partitions@.to_multiset(),
            partitions_sorted(out@),
            forall|i: int, j: int|
                0 <= i < out@.len() && 0 <= j < rest@.len() ==> (#[trigger] out@[i]).partition
                    <= (#[trigger] rest@[j]).partition,
        decreases rest@.len(),
    {
        let mut min: usize = 0;
        let mut k: usize = 1;
        while k < rest.len()
            invariant
                0 <= min < k <= rest@.len(),
                forall|j: int| 0 <= j < k ==> rest@[min as int].partition <= (#[trigger] rest@[j]).partition,
            decreases rest@.len() - k,
        {
            if rest[k].partition < rest[min].partition {
                min = k;
            }
            k = k + 1;
        }
        let ghost old_rest = rest@;
        let ghost old_out = out@;
        let p = rest.remove(min);
        proof {
            assert(p == old_rest[min as int]);
            assert(old_rest.remove(min as int) == rest@);
        }
        out.push(p);
        proof {
            assert(out@ == old_out.push(p));
            assert(out@.to_multiset() == old_out.to_multiset().insert(p));
            assert(rest@.to_multiset() == old_rest.to_multiset().remove(p));
            assert(old_rest.to_multiset().count(p) > 0) by {
                assert(old_rest.contains(p));
            }
            assert(out@.to_multiset().add(rest@.to_multiset()) =~= old_out.to_multiset().add(
                old_rest.to_multiset(),
            ));
            assert forall|i: int, j: int| 0 <= i < j < out@.len() implies (#[trigger] out@[i]).partition
                <= (#[trigger] out@[j]).partition by {
                if j == out@.len() - 1 {
                    assert(out@[j] == old_rest[min as int]);
                }
            }
            assert forall|i: int, j: int|
                0 <= i < out@.len() && 0 <= j < rest@.len() implies (#[trigger] out@[i]).partition
                <= (#[trigger] rest@[j]).partition by {
                let jj = if j < min { j } else { j + 1 };
                assert(rest@[j] == old_rest[jj]);
                if i < old_out.len() {
                    assert(out@[i] == old_out[i]);
                } else {
                    assert(out@[i] == old_rest[min as int]);
                }
            }
        }
    }
    assert(rest@.to_multiset() =~= Multiset::empty());
    assert(out@.to_multiset().add(Multiset::empty()) =~= out@.to_multiset());
    out
}

} // verus!
