//! The branch snapshot: reducing the raw branch listing to the local branch
//! roll — every line trimmed and rid of its checkout marker, remote-tracking
//! entries and blanks dropped, the rest in strict lexicographic order so that
//! repeated runs visit branches identically.

use vstd::prelude::*;
use crate::bytes::{
    bytes_eq, has_prefix, lemma_lex_transitive, lemma_lex_trichotomy, lex_lt, lex_lt_spec,
    starts_with, subrange_copy, trim, trim_spec,
};
use crate::remote::{remotes_prefix, remotes_prefix_text};

verus! {

/// The listing split at line breaks, accumulator form: `cur` holds the bytes
/// of the line being read.
pub open spec fn split_lines_rec(s: Seq<u8>, cur: Seq<u8>) -> Seq<Seq<u8>>
    decreases s.len(),
{
    if s.len() == 0 {
        seq![cur]
    } else if s[0] == 10 {
        seq![cur] + split_lines_rec(s.drop_first(), Seq::empty())
    } else {
        split_lines_rec(s.drop_first(), cur.push(s[0]))
    }
}

/// The listing split at line breaks.
pub open spec fn split_lines_spec(s: Seq<u8>) -> Seq<Seq<u8>> {
    split_lines_rec(s, Seq::empty())
}

/// Leading "* " checkout markers removed, as many as stand there.
pub open spec fn strip_stars_spec(s: Seq<u8>) -> Seq<u8>
    decreases s.len(),
{
    if s.len() >= 2 && s[0] == 42 && s[1] == 32 {
        strip_stars_spec(s.skip(2))
    } else {
        s
    }
}

/// One raw listing line reduced to a name: trimmed, then rid of any leading
/// checkout markers.
pub open spec fn clean_line_spec(s: Seq<u8>) -> Seq<u8> {
    strip_stars_spec(trim_spec(s))
}

/// The views of a vector of byte strings.
pub open spec fn views_of(s: Seq<Vec<u8>>) -> Seq<Seq<u8>> {
    s.map_values(|v: Vec<u8>| v@)
}

/// `name` is a local branch of the raw listing: some line cleans to it, it is
/// non-empty, and it is not a remote-tracking entry.
pub open spec fn is_local_branch_entry(listing: Seq<u8>, name: Seq<u8>) -> bool {
    split_lines_spec(listing).map_values(|l: Seq<u8>| clean_line_spec(l)).contains(name)
        && name.len() > 0 && !has_prefix(name, remotes_prefix())
}

/// Strictly ascending lexicographic order: sorted, and free of duplicates.
pub open spec fn sorted_unique(s: Seq<Seq<u8>>) -> bool {
    forall|i: int, j: int| 0 <= i < j < s.len() ==> lex_lt_spec(s[i], s[j])
}

/// Splits the listing at line breaks.
pub fn split_lines(s: &Vec<u8>) -> (r: Vec<Vec<u8>>)
    ensures
        views_of(r@) == split_lines_spec(s@),
{
    let mut r: Vec<Vec<u8>> = Vec::new();
    let mut cur: Vec<u8> = Vec::new();
    let mut i: usize = 0;
    proof {
        assert(s@.skip(0) =~= s@);
        assert(views_of(r@) =~= Seq::<Seq<u8>>::empty());
        assert(Seq::<Seq<u8>>::empty() + split_lines_rec(s@, cur@) =~= split_lines_rec(s@, cur@));
    }
    while i < s.len()
        invariant
            i <= s@.len(),
            split_lines_spec(s@) == views_of(r@) + split_lines_rec(s@.skip(i as int), cur@),
        decreases s@.len() - i,
    {
        proof {
            assert(s@.skip(i as int).drop_first() =~= s@.skip(i as int + 1));
            assert(s@.skip(i as int)[0] == s@[i as int]);
        }
        if s[i] == 10 {
            let ghost old_r = r@;
            let ghost old_cur = cur@;
            r.push(cur);
            cur = Vec::new();
            proof {
                assert(views_of(r@) =~= views_of(old_r).push(old_cur));
                assert(cur@ =~= Seq::<u8>::empty());
                assert(views_of(old_r) + (seq![old_cur] + split_lines_rec(
                    s@.skip(i as int + 1),
                    Seq::empty(),
                )) =~= views_of(r@) + split_lines_rec(s@.skip(i as int + 1), cur@));
            }
        } else {
            cur.push(s[i]);
        }
        i = i + 1;
    }
    proof {
        assert(s@.skip(i as int) =~= Seq::<u8>::empty());
    }
    let ghost old_r = r@;
    let ghost old_cur = cur@;
    r.push(cur);
    proof {
        assert(views_of(r@) =~= views_of(old_r).push(old_cur));
        assert(views_of(old_r) + seq![old_cur] =~= views_of(old_r).push(old_cur));
    }
    r
}

/// Removes the leading checkout markers of a trimmed line.
pub fn strip_stars(s: Vec<u8>) -> (r: Vec<u8>)
    ensures
        r@ == strip_stars_spec(s@),
{
    let ghost orig = s@;
    let mut cur = s;
    while cur.len() >= 2 && cur[0] == 42 && cur[1] == 32
        invariant
            strip_stars_spec(orig) == strip_stars_spec(cur@),
        decreases cur@.len(),
    {
        proof {
            assert(cur@.skip(2) =~= cur@.subrange(2, cur@.len() as int));
        }
        let next = subrange_copy(&cur, 2, cur.len());
        cur = next;
    }
    cur
}

/// Reduces one raw listing line to a name.
pub fn clean_line(s: &Vec<u8>) -> (r: Vec<u8>)
    ensures
        r@ == clean_line_spec(s@),
{
    strip_stars(trim(s))
}

/// Puts `x` into a strictly sorted roll, keeping it strictly sorted: in
/// place if absent, unchanged if already present.
fn insert_sorted_unique(r: Vec<Vec<u8>>, x: Vec<u8>) -> (out: Vec<Vec<u8>>)
    requires
        sorted_unique(views_of(r@)),
    ensures
        sorted_unique(views_of(out@)),
        forall|name: Seq<u8>|
            views_of(out@).contains(name) <==> (views_of(r@).contains(name) || name == x@),
{
    let ghost s_old = views_of(r@);
    let mut out = r;
    let mut pos: usize = 0;
    while pos < out.len() && lex_lt(&out[pos], &x)
        invariant
            out@ == r@,
            pos <= out@.len(),
            forall|i: int| 0 <= i < pos ==> lex_lt_spec(views_of(out@)[i], x@),
        decreases out@.len() - pos,
    {
        pos = pos + 1;
    }
    if pos < out.len() {
        let same = bytes_eq(&out[pos], &x);
        if same {
            proof {
                assert(views_of(out@)[pos as int] == x@);
                assert(views_of(out@).contains(x@));
                assert forall|name: Seq<u8>|
                    views_of(out@).contains(name) <==> (views_of(r@).contains(name) || name
                        == x@) by {}
            }
            return out;
        }
    }
    proof {
        if pos < out@.len() {
            lemma_lex_trichotomy(views_of(out@)[pos as int], x@);
            assert(lex_lt_spec(x@, views_of(out@)[pos as int]));
        }
    }
    out.insert(pos, x);
    proof {
        let s_new = views_of(out@);
        assert(s_new =~= s_old.insert(pos as int, x@)) by {
            assert forall|k: int| 0 <= k < s_new.len() implies s_new[k] == s_old.insert(
                pos as int,
                x@,
            )[k] by {}
        }
        assert forall|i: int, j: int| 0 <= i < j < s_new.len() implies lex_lt_spec(
            s_new[i],
            s_new[j],
        ) by {
            if j < pos {
                assert(s_new[i] == s_old[i] && s_new[j] == s_old[j]);
            } else if i < pos && j == pos {
                assert(s_new[i] == s_old[i] && s_new[j] == x@);
            } else if i < pos && j > pos {
                assert(s_new[i] == s_old[i] && s_new[j] == s_old[j - 1]);
                if i == j - 1 {
                } else {
                    assert(lex_lt_spec(s_old[i], s_old[j - 1]));
                }
            } else if i == pos {
                assert(s_new[i] == x@ && s_new[j] == s_old[j - 1]);
                if j - 1 == pos {
                    assert(lex_lt_spec(x@, s_old[pos as int]));
                } else {
                    assert(lex_lt_spec(x@, s_old[pos as int]));
                    assert(lex_lt_spec(s_old[pos as int], s_old[j - 1]));
                    lemma_lex_transitive(x@, s_old[pos as int], s_old[j - 1]);
                }
            } else {
                assert(s_new[i] == s_old[i - 1] && s_new[j] == s_old[j - 1]);
            }
        }
        assert forall|name: Seq<u8>|
            s_new.contains(name) <==> (s_old.contains(name) || name == x@) by {
            if s_new.contains(name) {
                let k = choose|k: int| 0 <= k < s_new.len() && s_new[k] == name;
                if k < pos {
                    assert(s_old[k] == name);
                } else if k == pos {
                } else {
                    assert(s_old[k - 1] == name);
                }
            }
            if s_old.contains(name) {
                let k = choose|k: int| 0 <= k < s_old.len() && s_old[k] == name;
                if k < pos {
                    assert(s_new[k] == name);
                } else {
                    assert(s_new[k + 1] == name);
                }
            }
            if name == x@ {
                assert(s_new[pos as int] == name);
            }
        }
    }
    out
}

/// `name` is contributed by one of the first `k` lines.
pub open spec fn entry_upto(lines: Seq<Seq<u8>>, k: int, name: Seq<u8>) -> bool {
    exists|j: int|
        0 <= j < k && clean_line_spec(lines[j]) == name && name.len() > 0 && !has_prefix(
            name,
            remotes_prefix(),
        )
}

/// The local branch roll of a raw listing: every name some line cleans to,
/// blanks and remote-tracking entries dropped, in strict lexicographic order —
/// the deterministic order in which the reconciliation visits branches.
pub fn local_branch_list(listing: &Vec<u8>) -> (r: Vec<Vec<u8>>)
    ensures
        sorted_unique(views_of(r@)),
        forall|name: Seq<u8>|
            #![trigger views_of(r@).contains(name)]
            #![trigger is_local_branch_entry(listing@, name)]
            views_of(r@).contains(name) <==> is_local_branch_entry(listing@, name),
{
    let lines = split_lines(listing);
    let prefix = remotes_prefix_text();
    let ghost lv = views_of(lines@);
    let mut acc: Vec<Vec<u8>> = Vec::new();
    let mut k: usize = 0;
    proof {
        assert(views_of(acc@) =~= Seq::<Seq<u8>>::empty());
    }
    while k < lines.len()
        invariant
            k <= lines@.len(),
            prefix@ == remotes_prefix(),
            lv == views_of(lines@),
            lv == split_lines_spec(listing@),
            sorted_unique(views_of(acc@)),
            forall|name: Seq<u8>|
                #[trigger] views_of(acc@).contains(name) <==> entry_upto(lv, k as int, name),
        decreases lines@.len() - k,
    {
        let c = clean_line(&lines[k]);
        proof {
            assert(c@ == clean_line_spec(lv[k as int]));
        }
        let keep = c.len() > 0 && !starts_with(&c, &prefix);
        let ghost acc_before = views_of(acc@);
        if keep {
            acc = insert_sorted_unique(acc, c);
        }
        proof {
            assert forall|name: Seq<u8>|
                #[trigger] views_of(acc@).contains(name) <==> entry_upto(
                    lv,
                    k as int + 1,
                    name,
                ) by {
                if keep {
                    assert(views_of(acc@).contains(name) <==> (acc_before.contains(name) || name
                        == c@));
                    if name == c@ {
                        assert(clean_line_spec(lv[k as int]) == name && name.len() > 0
                            && !has_prefix(name, remotes_prefix()));
                        assert(entry_upto(lv, k as int + 1, name));
                    }
                    if entry_upto(lv, k as int + 1, name) {
                        let j = choose|j: int|
                            0 <= j < k as int + 1 && clean_line_spec(lv[j]) == name && name.len()
                                > 0 && !has_prefix(name, remotes_prefix());
                        if j < k as int {
                            assert(entry_upto(lv, k as int, name));
                        } else {
                            assert(name == c@);
                        }
                    }
                    if entry_upto(lv, k as int, name) {
                        let j = choose|j: int|
                            0 <= j < k as int && clean_line_spec(lv[j]) == name && name.len() > 0
                                && !has_prefix(name, remotes_prefix());
                        assert(entry_upto(lv, k as int + 1, name));
                    }
                } else {
                    assert(views_of(acc@) == acc_before);
                    if entry_upto(lv, k as int + 1, name) {
                        let j = choose|j: int|
                            0 <= j < k as int + 1 && clean_line_spec(lv[j]) == name && name.len()
                                > 0 && !has_prefix(name, remotes_prefix());
                        if j == k as int {
                            assert(name == c@);
                            assert(false);
                        }
                        assert(entry_upto(lv, k as int, name));
                    }
                    if entry_upto(lv, k as int, name) {
                        let j = choose|j: int|
                            0 <= j < k as int && clean_line_spec(lv[j]) == name && name.len() > 0
                                && !has_prefix(name, remotes_prefix());
                        assert(entry_upto(lv, k as int + 1, name));
                    }
                }
            }
        }
        k = k + 1;
    }
    proof {
        let mapped = lv.map_values(|l: Seq<u8>| clean_line_spec(l));
        assert forall|name: Seq<u8>|
            #![trigger views_of(acc@).contains(name)]
            #![trigger is_local_branch_entry(listing@, name)]
            views_of(acc@).contains(name) <==> is_local_branch_entry(listing@, name) by {
            if views_of(acc@).contains(name) {
                assert(entry_upto(lv, lv.len() as int, name));
                let j = choose|j: int|
                    0 <= j < lv.len() && clean_line_spec(lv[j]) == name && name.len() > 0
                        && !has_prefix(name, remotes_prefix());
                assert(mapped[j] == name);
                assert(mapped.contains(name));
            }
            if is_local_branch_entry(listing@, name) {
                let j = choose|j: int| 0 <= j < mapped.len() && mapped[j] == name;
                assert(clean_line_spec(lv[j]) == name);
                assert(entry_upto(lv, lv.len() as int, name));
            }
        }
    }
    acc
}

} // verus!
