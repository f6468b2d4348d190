//! Lists of records keyed by a Twitch user id: lookup and removal by id, and
//! the set of users who wrote in chat.
use vstd::prelude::*;
use crate::models::{ReportUser, VipUser};

verus! {

/// A record that belongs to one Twitch user.
pub trait UserRecord: Sized {
    /// The user id of the record.
    spec fn uid(&self) -> Seq<char>;

    /// The user id of the record.
    fn user_id_ref(&self) -> (r: &String)
        ensures
            r@ == self.uid(),
    ;
}

impl UserRecord for VipUser {
    open spec fn uid(&self) -> Seq<char> {
        self.user_id@
    }

    fn user_id_ref(&self) -> (r: &String) {
        &self.user_id
    }
}

impl UserRecord for ReportUser {
    open spec fn uid(&self) -> Seq<char> {
        self.user_id@
    }

    fn user_id_ref(&self) -> (r: &String) {
        &self.user_id
    }
}

/// The records of `s` that are not about the user `id`, in their order.
pub open spec fn without_user<T: UserRecord>(s: Seq<T>, id: Seq<char>) -> Seq<T> {
    s.filter(|x: T| x.uid() != id)
}

/// Some record of `s` is about the user `id`.
pub open spec fn has_user<T: UserRecord>(s: Seq<T>, id: Seq<char>) -> bool {
    exists|i: int| 0 <= i < s.len() && (#[trigger] s[i]).uid() == id
}

/// `i` is the position of the first record of `s` about the user `id`.
pub open spec fn first_of_user<T: UserRecord>(s: Seq<T>, id: Seq<char>, i: int) -> bool {
    &&& 0 <= i < s.len()
    &&& s[i].uid() == id
    &&& forall|j: int| 0 <= j < i ==> (#[trigger] s[j]).uid() != id
}

/// Position of the first record about the user `id`, if any.
pub fn position_of_user<T: UserRecord>(s: &Vec<T>, id: &String) -> (r: Option<usize>)
    ensures
        r matches Some(i) ==> first_of_user(s@, id@, i as int),
        r is None <==> !has_user(s@, id@),
{
    let mut i: usize = 0;
    while i < s.len()
        invariant
            i <= s@.len(),
            forall|j: int| 0 <= j < i ==> (#[trigger] s@[j]).uid() != id@,
        decreases s@.len() - i,
    {
        if *s[i].user_id_ref() == *id {
            return Some(i);
        }
        i = i + 1;
    }
    None
}

/// Drops every record about the user `id`, keeping the others in order.
pub fn retain_other_users<T: UserRecord>(s: &mut Vec<T>, id: &String)
    ensures
        final(s)@ == without_user(old(s)@, id@),
{
    let ghost orig = s@;
    let ghost pred = |x: T| x.uid() != id@;
    let mut i: usize = 0;
    let ghost mut k: int = 0;
    assert(orig.subrange(0, 0) =~= Seq::<T>::empty());
    assert(Seq::<T>::empty().filter(pred) =~= Seq::<T>::empty()) by {
        reveal(Seq::filter);
    }
    assert(s@.subrange(0, 0) =~= orig.subrange(0, 0).filter(pred));
    assert(s@.subrange(0, s@.len() as int) =~= orig.subrange(0, orig.len() as int));
    while i < s.len()
        invariant
            0 <= i <= s@.len(),
            0 <= k <= orig.len(),
            orig.len() - k == s@.len() - i,
            pred == (|x: T| x.uid() != id@),
            s@.subrange(0, i as int) == orig.subrange(0, k).filter(pred),
            s@.subrange(i as int, s@.len() as int) == orig.subrange(k, orig.len() as int),
        decreases s@.len() - i,
    {
        let ghost before = s@;
        assert(before[i as int] == orig[k]) by {
            assert(before.subrange(i as int, before.len() as int)[0] == before[i as int]);
        }
        assert(orig.subrange(0, k + 1) =~= orig.subrange(0, k).push(orig[k]));
        proof {
            orig.subrange(0, k).lemma_filter_push(orig[k], pred);
        }
        if *s[i].user_id_ref() == *id {
            s.remove(i);
            assert(s@.subrange(0, i as int) =~= before.subrange(0, i as int));
            assert forall|j: int| 0 <= j < s@.len() - i implies #[trigger] s@.subrange(i as int, s@.len() as int)[j] == orig.subrange(k + 1, orig.len() as int)[j] by {
                assert(before.subrange(i as int, before.len() as int)[j + 1] == orig.subrange(k, orig.len() as int)[j + 1]);
            }
            assert(s@.subrange(i as int, s@.len() as int) =~= orig.subrange(k + 1, orig.len() as int));
        } else {
            i = i + 1;
            assert(s@.subrange(0, i as int) =~= before.subrange(0, i - 1).push(before[i - 1]));
            assert forall|j: int| 0 <= j < s@.len() - i implies #[trigger] s@.subrange(i as int, s@.len() as int)[j] == orig.subrange(k + 1, orig.len() as int)[j] by {
                assert(before.subrange(i - 1, before.len() as int)[j + 1] == orig.subrange(k, orig.len() as int)[j + 1]);
            }
            assert(s@.subrange(i as int, s@.len() as int) =~= orig.subrange(k + 1, orig.len() as int));
        }
        proof {
            k = k + 1;
        }
    }
    assert(orig.subrange(0, k) =~= orig);
    assert(s@ =~= s@.subrange(0, i as int));
}

/// Some text of `s` equals `id`.
pub open spec fn has_text(s: Seq<String>, id: Seq<char>) -> bool {
    exists|i: int| 0 <= i < s.len() && (#[trigger] s[i])@ == id
}

/// No text occurs twice in `s`.
pub open spec fn texts_distinct(s: Seq<String>) -> bool {
    forall|i: int, j: int| 0 <= i < j < s.len() ==> (#[trigger] s[i])@ != (#[trigger] s[j])@
}

/// The set of texts in `s`.
pub open spec fn text_set(s: Seq<String>) -> Set<Seq<char>> {
    Set::new(|t: Seq<char>| has_text(s, t))
}

/// Whether `id` is one of the texts of `s`.
pub fn contains_text(s: &Vec<String>, id: &String) -> (r: bool)
    ensures
        r == has_text(s@, id@),
{
    let mut i: usize = 0;
    while i < s.len()
        invariant
            i <= s@.len(),
            forall|j: int| 0 <= j < i ==> (#[trigger] s@[j])@ != id@,
        decreases s@.len() - i,
    {
        if s[i] == *id {
            return true;
        }
        i = i + 1;
    }
    false
}

/// Adds `id` to the set of texts `s` unless it is already there.
pub fn insert_text(s: &mut Vec<String>, id: String)
    ensures
        texts_distinct(old(s)@) ==> texts_distinct(final(s)@),
        text_set(final(s)@) == text_set(old(s)@).insert(id@),
{
    if !contains_text(s, &id) {
        let ghost before = s@;
        let ghost v = id@;
        s.push(id);
        assert(text_set(s@) =~= text_set(before).insert(v)) by {
            assert forall|t: Seq<char>| text_set(s@).contains(t) implies text_set(before).insert(v).contains(t) by {
                let i = choose|i: int| 0 <= i < s@.len() && (#[trigger] s@[i])@ == t;
                if i < before.len() {
                    assert(before[i] == s@[i]);
                }
            }
            assert forall|t: Seq<char>| text_set(before).insert(v).contains(t) implies text_set(s@).contains(t) by {
                if t == v {
                    assert(s@[before.len() as int]@ == v);
                } else {
                    let i = choose|i: int| 0 <= i < before.len() && (#[trigger] before[i])@ == t;
                    assert(s@[i] == before[i]);
                }
            }
        }
    } else {
        assert(text_set(s@) =~= text_set(s@).insert(id@));
    }
}

/// No two records of `s` are about the same user.
pub open spec fn uids_distinct<T: UserRecord>(s: Seq<T>) -> bool {
    forall|i: int, j: int| 0 <= i < j < s.len() ==> (#[trigger] s[i]).uid() != (#[trigger] s[j]).uid()
}

/// Every user of `a` has a record in `b`.
pub open spec fn users_among<T: UserRecord, U: UserRecord>(a: Seq<T>, b: Seq<U>) -> bool {
    forall|i: int| 0 <= i < a.len() ==> has_user(b, (#[trigger] a[i]).uid())
}

/// Two lists with the same user at each position have the same users.
pub proof fn lemma_same_users<T: UserRecord>(a: Seq<T>, b: Seq<T>)
    requires
        a.len() == b.len(),
        forall|i: int| 0 <= i < a.len() ==> (#[trigger] a[i]).uid() == b[i].uid(),
    ensures
        uids_distinct(a) <==> uids_distinct(b),
        forall|x: Seq<char>| has_user(a, x) <==> has_user(b, x),
{
    assert forall|x: Seq<char>| has_user(a, x) implies has_user(b, x) by {
        let k = choose|k: int| 0 <= k < a.len() && (#[trigger] a[k]).uid() == x;
        assert(b[k].uid() == x);
    }
    assert forall|x: Seq<char>| has_user(b, x) implies has_user(a, x) by {
        let k = choose|k: int| 0 <= k < b.len() && (#[trigger] b[k]).uid() == x;
        assert(a[k].uid() == x);
    }
    if uids_distinct(a) {
        assert forall|i: int, j: int| 0 <= i < j < b.len() implies (#[trigger] b[i]).uid() != (#[trigger] b[j]).uid() by {
            assert(a[i].uid() == b[i].uid() && a[j].uid() == b[j].uid());
        }
    }
    if uids_distinct(b) {
        assert forall|i: int, j: int| 0 <= i < j < a.len() implies (#[trigger] a[i]).uid() != (#[trigger] a[j]).uid() by {
            assert(a[i].uid() == b[i].uid() && a[j].uid() == b[j].uid());
        }
    }
}

/// Dropping the records of one user keeps the others' records and leaves no
/// user twice where there was none.
pub proof fn lemma_without_user<T: UserRecord>(s: Seq<T>, id: Seq<char>)
    ensures
        uids_distinct(s) ==> uids_distinct(without_user(s, id)),
        forall|x: Seq<char>| has_user(without_user(s, id), x) <==> (has_user(s, x) && x != id),
    decreases s.len(),
{
    reveal(Seq::filter);
    let f = without_user(s, id);
    if s.len() == 0 {
        assert(f.len() == 0);
    } else {
        let d = s.drop_last();
        let l = s.last();
        lemma_without_user(d, id);
        let fd = without_user(d, id);
        assert(f == if l.uid() != id { fd.push(l) } else { fd });
        assert forall|x: Seq<char>| has_user(f, x) implies (has_user(s, x) && x != id) by {
            let k = choose|k: int| 0 <= k < f.len() && (#[trigger] f[k]).uid() == x;
            if k < fd.len() {
                assert(f[k] == fd[k]);
                assert(has_user(fd, x));
                assert(has_user(d, x) && x != id);
                let m = choose|m: int| 0 <= m < d.len() && (#[trigger] d[m]).uid() == x;
                assert(s[m] == d[m]);
            } else {
                assert(s[s.len() - 1] == l);
            }
        }
        assert forall|x: Seq<char>| (has_user(s, x) && x != id) implies has_user(f, x) by {
            let k = choose|k: int| 0 <= k < s.len() && (#[trigger] s[k]).uid() == x;
            if k < d.len() {
                assert(d[k] == s[k]);
                assert(has_user(d, x));
                assert(has_user(fd, x));
                let m = choose|m: int| 0 <= m < fd.len() && (#[trigger] fd[m]).uid() == x;
                if l.uid() != id {
                    assert(f[m] == fd[m]);
                }
            } else {
                assert(f[f.len() - 1] == l);
            }
        }
        if uids_distinct(s) {
            assert(uids_distinct(d)) by {
                assert forall|i: int, j: int| 0 <= i < j < d.len() implies (#[trigger] d[i]).uid() != (#[trigger] d[j]).uid() by {
                    assert(d[i] == s[i] && d[j] == s[j]);
                }
            }
            if l.uid() != id {
                assert forall|i: int, j: int| 0 <= i < j < f.len() implies (#[trigger] f[i]).uid() != (#[trigger] f[j]).uid() by {
                    if j < fd.len() {
                        assert(f[i] == fd[i] && f[j] == fd[j]);
                    } else {
                        assert(f[i] == fd[i]);
                        assert(has_user(fd, fd[i].uid()));
                        assert(has_user(d, fd[i].uid()));
                        let m = choose|m: int| 0 <= m < d.len() && (#[trigger] d[m]).uid() == fd[i].uid();
                        assert(s[m] == d[m]);
                        assert(s[s.len() - 1] == l);
                    }
                }
            }
        }
    }
}

/// Lists holding the same records, in any order, have the same users, and
/// one of them holds no user twice if the other does not.
pub proof fn lemma_permuted_users<T: UserRecord>(s: Seq<T>, r: Seq<T>)
    requires
        s.to_multiset() == r.to_multiset(),
    ensures
        forall|x: Seq<char>| has_user(r, x) <==> has_user(s, x),
        uids_distinct(s) ==> uids_distinct(r),
{
    broadcast use vstd::seq_lib::group_to_multiset_ensures, vstd::multiset::group_multiset_axioms;

    assert forall|x: Seq<char>| has_user(r, x) implies has_user(s, x) by {
        let k = choose|k: int| 0 <= k < r.len() && (#[trigger] r[k]).uid() == x;
        assert(r.contains(r[k]));
        assert(r.to_multiset().count(r[k]) > 0);
        assert(s.contains(r[k]));
        let p = choose|p: int| 0 <= p < s.len() && s[p] == r[k];
        assert(s[p].uid() == x);
    }
    assert forall|x: Seq<char>| has_user(s, x) implies has_user(r, x) by {
        let k = choose|k: int| 0 <= k < s.len() && (#[trigger] s[k]).uid() == x;
        assert(s.contains(s[k]));
        assert(s.to_multiset().count(s[k]) > 0);
        assert(r.contains(s[k]));
        let p = choose|p: int| 0 <= p < r.len() && r[p] == s[k];
        assert(r[p].uid() == x);
    }
    if uids_distinct(s) {
        assert forall|i: int, j: int| 0 <= i < j < r.len() implies (#[trigger] r[i]).uid() != (#[trigger] r[j]).uid() by {
            if r[i].uid() == r[j].uid() {
                assert(r.contains(r[i]));
                assert(r.to_multiset().count(r[i]) > 0);
                assert(s.contains(r[i]));
                let p = choose|p: int| 0 <= p < s.len() && s[p] == r[i];
                if r[i] == r[j] {
                    let rr = r.remove(i);
                    assert(rr[j - 1] == r[j]);
                    assert(rr.contains(r[i]));
                    assert(rr.to_multiset().count(r[i]) > 0);
                    assert(r.to_multiset().count(r[i]) >= 2);
                    let ss = s.remove(p);
                    assert(ss.to_multiset().count(r[i]) > 0);
                    assert(ss.contains(r[i]));
                    let q = choose|q: int| 0 <= q < ss.len() && ss[q] == r[i];
                    if q < p {
                        assert(ss[q] == s[q]);
                        assert(s[q].uid() != s[p].uid());
                    } else {
                        assert(ss[q] == s[q + 1]);
                        assert(s[p].uid() != s[q + 1].uid());
                    }
                } else {
                    assert(r.contains(r[j]));
                    assert(r.to_multiset().count(r[j]) > 0);
                    assert(s.contains(r[j]));
                    let q = choose|q: int| 0 <= q < s.len() && s[q] == r[j];
                    assert(p != q);
                    if p < q {
                        assert(s[p].uid() != s[q].uid());
                    } else {
                        assert(s[q].uid() != s[p].uid());
                    }
                }
            }
        }
    }
}

} // verus!
