//! Provisioning scripts: which directory entries are scripts, and the
//! lexicographic order in which they run. That order is the only way users
//! sequence their scripts.
use vstd::prelude::*;
use vstd::string::*;
use crate::text::{ends_with, spec_ends_with, views};

verus! {

broadcast use vstd::seq_lib::group_to_multiset_ensures;

/// Lexicographic order on character sequences, by code point. On UTF-8 text
/// it agrees with the byte order of file names.
pub open spec fn lex_le(a: Seq<char>, b: Seq<char>) -> bool
    decreases a.len(),
{
    if a.len() == 0 {
        true
    } else if b.len() == 0 {
        false
    } else if a[0] != b[0] {
        a[0] < b[0]
    } else {
        lex_le(a.drop_first(), b.drop_first())
    }
}

/// Strictly before in lexicographic order.
pub open spec fn lex_lt(a: Seq<char>, b: Seq<char>) -> bool {
    lex_le(a, b) && a != b
}

pub open spec fn sorted(s: Seq<Seq<char>>) -> bool {
    forall|i: int, j: int| 0 <= i < j < s.len() ==> lex_le(#[trigger] s[i], #[trigger] s[j])
}

/// A file name that has the `sh` extension: it ends in `.sh` and has a
/// stem before it.
pub open spec fn spec_is_script(name: Seq<char>) -> bool {
    name.len() > 3 && spec_ends_with(name, ".sh"@)
}

/// The script names among `names`, in their original order.
pub open spec fn script_names(names: Seq<Seq<char>>) -> Seq<Seq<char>>
    decreases names.len(),
{
    if names.len() == 0 {
        Seq::empty()
    } else if spec_is_script(names.last()) {
        script_names(names.drop_last()).push(names.last())
    } else {
        script_names(names.drop_last())
    }
}

/// `order` is the execution order of the scripts among `names`: exactly
/// those names, each as often as it occurs, in lexicographic order.
pub open spec fn is_script_order(names: Seq<Seq<char>>, order: Seq<Seq<char>>) -> bool {
    &&& sorted(order)
    &&& order.to_multiset() == script_names(names).to_multiset()
}

/// How many leading elements of the sorted `s` come no later than `x`: the
/// place where `x` goes so that equal names keep their arrival order.
pub open spec fn insert_pos(s: Seq<Seq<char>>, x: Seq<char>) -> nat
    decreases s.len(),
{
    if s.len() == 0 {
        0
    } else if lex_le(s[0], x) {
        1 + insert_pos(s.drop_first(), x)
    } else {
        0
    }
}

/// Insertion sort by lexicographic order.
pub open spec fn spec_sort(s: Seq<Seq<char>>) -> Seq<Seq<char>>
    decreases s.len(),
{
    if s.len() == 0 {
        Seq::empty()
    } else {
        let t = spec_sort(s.drop_last());
        t.insert(insert_pos(t, s.last()) as int, s.last())
    }
}

/// The order in which the scripts among `names` run.
pub open spec fn script_order(names: Seq<Seq<char>>) -> Seq<Seq<char>> {
    spec_sort(script_names(names))
}

pub proof fn lemma_lex_total(a: Seq<char>, b: Seq<char>)
    ensures
        lex_le(a, b) || lex_le(b, a),
    decreases a.len(),
{
    if a.len() > 0 && b.len() > 0 && a[0] == b[0] {
        lemma_lex_total(a.drop_first(), b.drop_first());
    }
}

pub proof fn lemma_lex_trans(a: Seq<char>, b: Seq<char>, c: Seq<char>)
    requires
        lex_le(a, b),
        lex_le(b, c),
    ensures
        lex_le(a, c),
    decreases a.len(),
{
    if a.len() > 0 && b.len() > 0 && c.len() > 0 && a[0] == b[0] && b[0] == c[0] {
        lemma_lex_trans(a.drop_first(), b.drop_first(), c.drop_first());
    }
}

proof fn lemma_insert_pos(s: Seq<Seq<char>>, x: Seq<char>)
    ensures
        insert_pos(s, x) <= s.len(),
        forall|k: int| 0 <= k < insert_pos(s, x) ==> lex_le(#[trigger] s[k], x),
        insert_pos(s, x) < s.len() ==> !lex_le(s[insert_pos(s, x) as int], x),
    decreases s.len(),
{
    if s.len() > 0 && lex_le(s[0], x) {
        lemma_insert_pos(s.drop_first(), x);
        assert forall|k: int| 0 <= k < insert_pos(s, x) implies lex_le(#[trigger] s[k], x) by {
            if k > 0 {
                assert(s[k] == s.drop_first()[k - 1]);
            }
        }
    }
}

/// The sort yields a lexicographically sorted permutation of its input.
pub proof fn lemma_sort(s: Seq<Seq<char>>)
    ensures
        sorted(spec_sort(s)),
        spec_sort(s).to_multiset() == s.to_multiset(),
        spec_sort(s).len() == s.len(),
    decreases s.len(),
{
    if s.len() > 0 {
        let t = spec_sort(s.drop_last());
        lemma_sort(s.drop_last());
        lemma_insert_pos(t, s.last());
        lemma_insert_sorted(t, insert_pos(t, s.last()) as int, s.last());
        assert(s =~= s.drop_last().push(s.last()));
        assert(spec_sort(s).to_multiset() == t.to_multiset().insert(s.last()));
    }
}

/// Whether `a` comes no later than `b` in lexicographic order.
pub fn lex_le_exec(a: &String, b: &String) -> (r: bool)
    ensures
        r == lex_le(a@, b@),
{
    let n = a.unicode_len();
    let m = b.unicode_len();
    let mut i: usize = 0;
    assert(a@.subrange(0, n as int) =~= a@);
    assert(b@.subrange(0, m as int) =~= b@);
    while i < n && i < m
        invariant
            n == a@.len(),
            m == b@.len(),
            i <= n,
            i <= m,
            lex_le(a@, b@) == lex_le(a@.subrange(i as int, n as int), b@.subrange(i as int, m as int)),
        decreases n - i,
    {
        let ca = a.get_char(i);
        let cb = b.get_char(i);
        proof {
            let sa = a@.subrange(i as int, n as int);
            let sb = b@.subrange(i as int, m as int);
            assert(sa[0] == ca);
            assert(sb[0] == cb);
            assert(sa.drop_first() =~= a@.subrange(i + 1, n as int));
            assert(sb.drop_first() =~= b@.subrange(i + 1, m as int));
        }
        if ca != cb {
            return ca < cb;
        }
        i = i + 1;
    }
    proof {
        let sa = a@.subrange(i as int, n as int);
        let sb = b@.subrange(i as int, m as int);
        assert(sa.len() == 0 || sb.len() == 0);
    }
    i == n
}

/// Whether a directory entry name is a script.
pub fn is_script(name: &String) -> (r: bool)
    ensures
        r == spec_is_script(name@),
{
    name.unicode_len() > 3 && ends_with(name.as_str(), ".sh")
}

proof fn lemma_insert_sorted(s: Seq<Seq<char>>, j: int, x: Seq<char>)
    requires
        sorted(s),
        0 <= j <= s.len(),
        forall|k: int| 0 <= k < j ==> lex_le(#[trigger] s[k], x),
        j < s.len() ==> !lex_le(s[j], x),
    ensures
        sorted(s.insert(j, x)),
{
    let t = s.insert(j, x);
    if j < s.len() {
        lemma_lex_total(s[j], x);
    }
    assert forall|a: int, b: int| 0 <= a < b < t.len() implies lex_le(#[trigger] t[a], #[trigger] t[b]) by {
        if a < j && b == j {
        } else if a < j && b > j {
            assert(t[b] == s[b - 1]);
            assert(lex_le(s[a], s[b - 1]));
        } else if a == j {
            assert(t[b] == s[b - 1]);
            if b - 1 > j {
                assert(lex_le(s[j], s[b - 1]));
                lemma_lex_trans(x, s[j], s[b - 1]);
            }
        } else if a > j {
            assert(t[a] == s[a - 1] && t[b] == s[b - 1]);
        } else {
            assert(t[a] == s[a] && t[b] == s[b]);
        }
    }
}

/// Picks the scripts out of the entry names of the scripts directory and
/// puts them in execution order: lexicographic by name, so `02-b.sh` runs
/// before `10-a.sh`, which runs before `z.sh`.
pub fn order_scripts(names: &Vec<String>) -> (r: Vec<String>)
    ensures
        views(r@) == script_order(views(names@)),
        is_script_order(views(names@), views(r@)),
{
    let n = names.len();
    let mut r: Vec<String> = Vec::new();
    let mut i: usize = 0;
    assert(views(r@) =~= spec_sort(script_names(views(names@.subrange(0, 0)))));
    while i < n
        invariant
            n == names@.len(),
            i <= n,
            sorted(views(r@)),
            views(r@).to_multiset() == script_names(views(names@.subrange(0, i as int))).to_multiset(),
            views(r@) == spec_sort(script_names(views(names@.subrange(0, i as int)))),
        decreases n - i,
    {
        let ghost pre = views(names@.subrange(0, i as int));
        proof {
            assert(views(names@.subrange(0, i + 1)).drop_last() =~= pre);
            assert(views(names@.subrange(0, i + 1)).last() == names@[i as int]@);
        }
        if is_script(&names[i]) {
            let x = names[i].clone();
            let len = r.len();
            let mut j: usize = 0;
            assert(views(r@).subrange(0, len as int) =~= views(r@));
            while j < len && lex_le_exec(&r[j], &x)
                invariant
                    len == r@.len(),
                    j <= len,
                    forall|k: int| 0 <= k < j ==> lex_le(#[trigger] views(r@)[k], x@),
                    insert_pos(views(r@), x@) == j + insert_pos(views(r@).subrange(j as int, len as int), x@),
                decreases len - j,
            {
                proof {
                    let sub = views(r@).subrange(j as int, len as int);
                    assert(sub.drop_first() =~= views(r@).subrange(j + 1, len as int));
                }
                j = j + 1;
            }
            proof {
                if j < len {
                    assert(views(r@).subrange(j as int, len as int)[0] == views(r@)[j as int]);
                }
            }
            let ghost old_r = views(r@);
            proof {
                lemma_insert_sorted(old_r, j as int, x@);
            }
            r.insert(j, x);
            assert(views(r@) =~= old_r.insert(j as int, x@));
            proof {
                let u = script_names(pre).push(x@);
                assert(u.drop_last() =~= script_names(pre));
                assert(script_names(views(names@.subrange(0, i + 1))) == u);
            }
        }
        i = i + 1;
    }
    assert(names@.subrange(0, n as int) =~= names@);
    r
}

} // verus!
