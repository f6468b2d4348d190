//! The list of VIPs as Twitch gives it: converting Helix records and keeping
//! the list ordered by login, ignoring case.
use vstd::prelude::*;
use vstd::seq_lib::{to_multiset_build, to_multiset_insert};
use crate::models::{HelixVip, VipUser};
use crate::text::{chars_of, text_le, text_le_chars, lemma_text_le_reflexive, lemma_text_le_total, lemma_text_le_transitive};

verus! {

/// Names the text that `str::to_lowercase` returns for a text.
pub uninterp spec fn lowercase(s: Seq<char>) -> Seq<char>;

/// `str::to_lowercase` of the standard library: the Unicode lower-case form of
/// a text. What that form is, is not stated; it depends on the text alone.
#[verifier::external_body]
fn to_lowercase(s: &str) -> (r: String)
    ensures
        r@ == lowercase(s@),
{
    s.to_lowercase()
}

/// The key VIPs are ordered by: the login in lower case.
pub open spec fn login_key(v: VipUser) -> Seq<char> {
    lowercase(v.login@)
}

/// The VIPs of `s` whose key is `k`.
pub open spec fn key_is(k: Seq<char>) -> spec_fn(VipUser) -> bool {
    |v: VipUser| login_key(v) == k
}

/// `s` is ordered by lower-case login.
pub open spec fn sorted_by_login(s: Seq<VipUser>) -> bool {
    forall|i: int, j: int| 0 <= i < j < s.len() ==> text_le(login_key(#[trigger] s[i]), login_key(#[trigger] s[j]))
}

/// `r` is `s` ordered by lower-case login, VIPs with the same key keeping the
/// order they had in `s` (what a stable `sort_by_key` gives).
pub open spec fn stable_sort_of(r: Seq<VipUser>, s: Seq<VipUser>) -> bool {
    &&& sorted_by_login(r)
    &&& r.to_multiset() == s.to_multiset()
    &&& forall|k: Seq<char>| #[trigger] r.filter(key_is(k)) == s.filter(key_is(k))
}

proof fn lemma_insert_keeps_classes(s: Seq<VipUser>, p: int, e: VipUser, k: Seq<char>)
    requires
        0 <= p <= s.len(),
        forall|i: int| p <= i < s.len() ==> !text_le(login_key(#[trigger] s[i]), login_key(e)),
    ensures
        s.insert(p, e).filter(key_is(k)) == (if login_key(e) == k {
            s.filter(key_is(k)).push(e)
        } else {
            s.filter(key_is(k))
        }),
{
    let pred = key_is(k);
    let a = s.subrange(0, p);
    let b = s.subrange(p, s.len() as int);
    assert(s =~= a + b);
    assert(s.insert(p, e) =~= a.push(e) + b);
    Seq::filter_distributes_over_add(a.push(e), b, pred);
    Seq::filter_distributes_over_add(a, b, pred);
    a.lemma_filter_push(e, pred);
    if login_key(e) == k {
        assert forall|i: int| 0 <= i < b.len() implies !pred(#[trigger] b[i]) by {
            assert(b[i] == s[p + i]);
            lemma_text_le_reflexive(login_key(e));
        }
        assert(b.all(|x: VipUser| !pred(x)));
        b.lemma_all_neg_filter_empty(pred);
        assert(b.filter(pred) =~= Seq::<VipUser>::empty());
        assert(a.filter(pred).push(e) + b.filter(pred) =~= a.filter(pred).push(e));
        assert(a.filter(pred) + b.filter(pred) =~= a.filter(pred));
    } else {
    }
}

proof fn lemma_insert_keeps_order(s: Seq<VipUser>, p: int, e: VipUser)
    requires
        0 <= p <= s.len(),
        sorted_by_login(s),
        forall|i: int| 0 <= i < p ==> text_le(login_key(#[trigger] s[i]), login_key(e)),
        forall|i: int| p <= i < s.len() ==> !text_le(login_key(#[trigger] s[i]), login_key(e)),
    ensures
        sorted_by_login(s.insert(p, e)),
{
    let t = s.insert(p, e);
    assert forall|i: int, j: int| 0 <= i < j < t.len() implies text_le(login_key(#[trigger] t[i]), login_key(#[trigger] t[j])) by {
        if j < p {
            assert(t[i] == s[i] && t[j] == s[j]);
        } else if j == p {
            assert(t[i] == s[i]);
        } else if i < p {
            assert(t[i] == s[i] && t[j] == s[j - 1]);
        } else if i == p {
            assert(t[j] == s[j - 1]);
            lemma_text_le_total(login_key(s[j - 1]), login_key(e));
        } else {
            assert(t[i] == s[i - 1] && t[j] == s[j - 1]);
        }
    }
}

/// Orders VIPs by lower-case login; VIPs whose logins are equal in lower case
/// keep their relative order.
pub fn sort_vips_by_login(vips: Vec<VipUser>) -> (r: Vec<VipUser>)
    ensures
        stable_sort_of(r@, vips@),
{
    let ghost orig = vips@;
    let mut rest = vips;
    let mut out: Vec<VipUser> = Vec::new();
    let mut keys: Vec<Vec<char>> = Vec::new();
    let ghost mut m: int = 0;
    assert(orig.take(0) =~= Seq::<VipUser>::empty());
    assert(out@ =~= Seq::<VipUser>::empty());
    assert forall|k: Seq<char>| #[trigger] out@.filter(key_is(k)) == orig.take(0).filter(key_is(k)) by {
        reveal(Seq::filter);
    }
    assert(rest@ =~= orig.skip(0));
    while rest.len() > 0
        invariant
            0 <= m <= orig.len(),
            rest@ == orig.skip(m),
            keys@.len() == out@.len(),
            forall|i: int| 0 <= i < keys@.len() ==> (#[trigger] keys@[i])@ == login_key(out@[i]),
            stable_sort_of(out@, orig.take(m)),
        decreases rest@.len(),
    {
        let e = rest.remove(0);
        assert(e == orig[m]);
        let lower = to_lowercase(e.login.as_str());
        let ke = chars_of(lower.as_str());
        let mut p: usize = 0;
        while p < out.len() && text_le_chars(&keys[p], &ke)
            invariant
                p <= out@.len(),
                keys@.len() == out@.len(),
                forall|i: int| 0 <= i < keys@.len() ==> (#[trigger] keys@[i])@ == login_key(out@[i]),
                forall|i: int| 0 <= i < p ==> text_le(login_key(#[trigger] out@[i]), ke@),
            decreases out@.len() - p,
        {
            p = p + 1;
        }
        let ghost s = out@;
        assert forall|i: int| p <= i < s.len() implies !text_le(login_key(#[trigger] s[i]), ke@) by {
            assert(!text_le(login_key(s[p as int]), ke@));
            if i > p && text_le(login_key(s[i]), ke@) {
                lemma_text_le_transitive(login_key(s[p as int]), login_key(s[i]), ke@);
            }
        }
        proof {
            lemma_insert_keeps_order(s, p as int, e);
            to_multiset_insert(s, p as int, e);
            to_multiset_build(orig.take(m), orig[m]);
            assert(orig.take(m + 1) =~= orig.take(m).push(orig[m]));
            assert forall|k: Seq<char>| #[trigger] s.insert(p as int, e).filter(key_is(k)) == orig.take(m + 1).filter(key_is(k)) by {
                lemma_insert_keeps_classes(s, p as int, e, k);
                orig.take(m).lemma_filter_push(orig[m], key_is(k));
                assert(s.filter(key_is(k)) == orig.take(m).filter(key_is(k)));
            }
        }
        let ghost ks = keys@;
        out.insert(p, e);
        keys.insert(p, ke);
        assert(out@ == s.insert(p as int, e));
        proof {
            m = m + 1;
            assert(rest@ =~= orig.skip(m));
            assert forall|i: int| 0 <= i < keys@.len() implies (#[trigger] keys@[i])@ == login_key(out@[i]) by {
                if i > p {
                    assert(keys@[i] == ks[i - 1]);
                }
            }
        }
    }
    assert(orig.take(m) =~= orig);
    out
}

/// A VIP as the Helix API lists them, before anything is known of their chat.
pub open spec fn vip_of_helix(v: HelixVip) -> VipUser {
    VipUser {
        user_id: v.user_id,
        login: v.user_login,
        display_name: v.user_name,
        watch_streak: None,
        wrote_this_stream: false,
    }
}

/// Appends the VIPs of one Helix page to those already listed.
pub fn append_vip_page(listed: &mut Vec<VipUser>, page: Vec<HelixVip>)
    ensures
        final(listed)@ == old(listed)@ + page@.map_values(|v: HelixVip| vip_of_helix(v)),
{
    let ghost start = listed@;
    let ghost src = page@;
    let mut rest = page;
    let ghost mut m: int = 0;
    assert(src.take(0).map_values(|v: HelixVip| vip_of_helix(v)) =~= Seq::<VipUser>::empty());
    assert(listed@ =~= start + src.take(0).map_values(|v: HelixVip| vip_of_helix(v)));
    assert(rest@ =~= src.skip(0));
    while rest.len() > 0
        invariant
            0 <= m <= src.len(),
            rest@ == src.skip(m),
            listed@ == start + src.take(m).map_values(|v: HelixVip| vip_of_helix(v)),
        decreases rest@.len(),
    {
        let v = rest.remove(0);
        assert(v == src[m]);
        listed.push(VipUser {
            user_id: v.user_id,
            login: v.user_login,
            display_name: v.user_name,
            watch_streak: None,
            wrote_this_stream: false,
        });
        proof {
            assert(src.take(m + 1).map_values(|v: HelixVip| vip_of_helix(v)) =~= src.take(m).map_values(
                |v: HelixVip| vip_of_helix(v),
            ).push(vip_of_helix(src[m])));
            m = m + 1;
            assert(rest@ =~= src.skip(m));
        }
    }
    assert(src.take(m) =~= src);
}

} // verus!
