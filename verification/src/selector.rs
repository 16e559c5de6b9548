//! Label and selector logic: looking a key up in a label list, the subset
//! test that decides whether a selector matches a pod's labels, and the
//! `k1=v1,k2=v2` rendering used for server-side label selection.

use vstd::prelude::*;
use vstd::string::StringExecFns;

verus! {

/// The value bound to a key in a label list: the first pair carrying the
/// key, or `None` when no pair does.
pub open spec fn lookup_label(
    pairs: Seq<(Seq<char>, Seq<char>)>,
    key: Seq<char>,
) -> Option<Seq<char>>
    decreases pairs.len(),
{
    if pairs.len() == 0 {
        None
    } else if pairs[0].0 == key {
        Some(pairs[0].1)
    } else {
        lookup_label(pairs.drop_first(), key)
    }
}

/// Whether a selector matches a label list: the selector is non-empty and
/// every selector pair is bound, with the same value, among the labels.
/// An empty selector never matches; a key missing from the labels fails
/// the match.
pub open spec fn selector_matches(
    sel: Seq<(Seq<char>, Seq<char>)>,
    labels: Seq<(Seq<char>, Seq<char>)>,
) -> bool {
    sel.len() > 0 && forall|i: int|
        0 <= i < sel.len() ==> lookup_label(labels, (#[trigger] sel[i]).0) == Some(sel[i].1)
}

/// The rendered form of a selector: pairs as `key=value`, joined by commas.
pub open spec fn render_selector_spec(sel: Seq<(Seq<char>, Seq<char>)>) -> Seq<char>
    decreases sel.len(),
{
    if sel.len() == 0 {
        Seq::empty()
    } else if sel.len() == 1 {
        sel[0].0 + "="@ + sel[0].1
    } else {
        render_selector_spec(sel.drop_last()) + ","@ + sel.last().0 + "="@ + sel.last().1
    }
}

/// Looks a key up in a label list, returning the value of the first pair
/// that carries it.
pub fn lookup_label_exec(pairs: &Vec<(String, String)>, key: &String) -> (r: Option<String>)
    ensures
        r.deep_view() == lookup_label(pairs.deep_view(), key@),
{
    let ghost all = pairs.deep_view();
    assert(all.skip(0) =~= all);
    let mut i: usize = 0;
    while i < pairs.len()
        invariant
            i <= pairs.len(),
            all == pairs.deep_view(),
            lookup_label(all, key@) == lookup_label(all.skip(i as int), key@),
        decreases pairs.len() - i,
    {
        proof {
            assert(all.skip(i as int)[0] == all[i as int]);
            assert(all[i as int] == (pairs@[i as int].0@, pairs@[i as int].1@));
        }
        if pairs[i].0 == *key {
            return Some(pairs[i].1.clone());
        }
        assert(all.skip(i as int).drop_first() =~= all.skip(i + 1 as int));
        i = i + 1;
    }
    assert(all.skip(pairs@.len() as int).len() == 0);
    None
}

/// Decides whether a selector matches a label list, with the subset
/// semantics of `selector_matches`.
pub fn selector_matches_exec(
    sel: &Vec<(String, String)>,
    labels: &Vec<(String, String)>,
) -> (b: bool)
    ensures
        b == selector_matches(sel.deep_view(), labels.deep_view()),
{
    if sel.len() == 0 {
        return false;
    }
    let mut i: usize = 0;
    while i < sel.len()
        invariant
            i <= sel.len(),
            sel.deep_view().len() > 0,
            forall|j: int|
                0 <= j < i ==> lookup_label(labels.deep_view(), (#[trigger] sel.deep_view()[j]).0)
                    == Some(sel.deep_view()[j].1),
        decreases sel.len() - i,
    {
        proof {
            assert(sel.deep_view()[i as int] == (sel@[i as int].0@, sel@[i as int].1@));
        }
        let got = lookup_label_exec(labels, &sel[i].0);
        match got {
            Some(v) => {
                if !(v == sel[i].1) {
                    proof {
                        assert(lookup_label(labels.deep_view(), sel.deep_view()[i as int].0)
                            != Some(sel.deep_view()[i as int].1));
                    }
                    return false;
                }
            },
            None => {
                return false;
            },
        }
        i = i + 1;
    }
    true
}

/// Renders a selector as `key=value` pairs joined by commas, in the order
/// given.
pub fn render_selector(sel: &Vec<(String, String)>) -> (r: String)
    ensures
        r@ == render_selector_spec(sel.deep_view()),
{
    let ghost all = sel.deep_view();
    let mut r: String = String::new();
    let mut i: usize = 0;
    while i < sel.len()
        invariant
            i <= sel.len(),
            all == sel.deep_view(),
            r@ == render_selector_spec(all.take(i as int)),
        decreases sel.len() - i,
    {
        if i > 0 {
            r.append(",");
        }
        r.append(sel[i].0.as_str());
        r.append("=");
        r.append(sel[i].1.as_str());
        proof {
            let pre = all.take(i as int);
            let cur = all.take(i + 1 as int);
            assert(cur.drop_last() == pre);
            assert(cur.last() == all[i as int]);
            if i == 0 {
                assert(cur.len() == 1);
                assert(r@ == render_selector_spec(cur));
            } else {
                assert(r@ == render_selector_spec(cur));
            }
        }
        i = i + 1;
    }
    assert(all.take(sel@.len() as int) == all);
    r
}

} // verus!
