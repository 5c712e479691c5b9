//! The order of strings (by code point, as `str`'s `Ord` compares them) and
//! sets of names kept as strictly increasing vectors.
use vstd::prelude::*;

verus! {

/// `a` comes before `b` in lexicographic order of code points.
pub open spec fn seq_lt(a: Seq<char>, b: Seq<char>) -> bool
    decreases a.len(),
{
    if a.len() == 0 {
        b.len() > 0
    } else if b.len() == 0 {
        false
    } else if a[0] != b[0] {
        a[0] < b[0]
    } else {
        seq_lt(a.drop_first(), b.drop_first())
    }
}

/// The texts of a sequence of strings.
pub open spec fn texts(v: Seq<String>) -> Seq<Seq<char>> {
    v.map_values(|x: String| x@)
}

/// Each text comes before every later one.
pub open spec fn strictly_sorted(s: Seq<Seq<char>>) -> bool {
    forall|i: int, j: int| 0 <= i < j < s.len() ==> seq_lt(#[trigger] s[i], #[trigger] s[j])
}

/// `s` lists the set `set` in increasing order, each element once.
pub open spec fn lists_in_order(s: Seq<Seq<char>>, set: Set<Seq<char>>) -> bool {
    strictly_sorted(s) && s.to_set() == set
}

pub proof fn lemma_lt_transitive(a: Seq<char>, b: Seq<char>, c: Seq<char>)
    requires
        seq_lt(a, b),
        seq_lt(b, c),
    ensures
        seq_lt(a, c),
    decreases a.len(),
{
    if a.len() > 0 && a[0] == b[0] && b[0] == c[0] {
        lemma_lt_transitive(a.drop_first(), b.drop_first(), c.drop_first());
    }
}

pub proof fn lemma_lt_irreflexive(a: Seq<char>)
    ensures
        !seq_lt(a, a),
    decreases a.len(),
{
    if a.len() > 0 {
        lemma_lt_irreflexive(a.drop_first());
    }
}

pub proof fn lemma_lt_total(a: Seq<char>, b: Seq<char>)
    requires
        a != b,
    ensures
        seq_lt(a, b) || seq_lt(b, a),
    decreases a.len(),
{
    if a.len() > 0 && b.len() > 0 && a[0] == b[0] {
        if a.drop_first() == b.drop_first() {
            assert(a =~= seq![a[0]] + a.drop_first());
            assert(b =~= seq![b[0]] + b.drop_first());
        }
        lemma_lt_total(a.drop_first(), b.drop_first());
    } else if a.len() == 0 && b.len() == 0 {
        assert(a =~= b);
    }
}

pub proof fn lemma_empty_to_set(s: Seq<Seq<char>>)
    ensures
        (s.to_set() == Set::<Seq<char>>::empty()) == (s.len() == 0),
{
    if s.len() > 0 {
        assert(s.to_set().contains(s[0]));
    } else {
        assert(s.to_set() =~= Set::<Seq<char>>::empty());
    }
}

/// `a` comes before `b` in lexicographic order of code points.
pub fn str_lt(a: &str, b: &str) -> (r: bool)
    ensures
        r == seq_lt(a@, b@),
{
    let n = a.unicode_len();
    let m = b.unicode_len();
    let mut i: usize = 0;
    assert(a@.subrange(0, n as int) =~= a@);
    assert(b@.subrange(0, m as int) =~= b@);
    loop
        invariant
            n == a@.len(),
            m == b@.len(),
            i <= n,
            i <= m,
            seq_lt(a@, b@) == seq_lt(
                a@.subrange(i as int, n as int),
                b@.subrange(i as int, m as int),
            ),
        decreases n - i,
    {
        if i == n {
            return i < m;
        }
        if i == m {
            return false;
        }
        let x = a.get_char(i);
        let y = b.get_char(i);
        if x != y {
            return x < y;
        }
        assert(a@.subrange(i as int, n as int).drop_first() =~= a@.subrange(i + 1, n as int));
        assert(b@.subrange(i as int, m as int).drop_first() =~= b@.subrange(i + 1, m as int));
        i = i + 1;
    }
}

/// Whether `v` holds a string equal to `x`.
pub fn contains_text(v: &Vec<String>, x: &String) -> (r: bool)
    ensures
        r == texts(v@).contains(x@),
{
    let mut i: usize = 0;
    while i < v.len()
        invariant
            i <= v.len(),
            forall|k: int| 0 <= k < i ==> v@[k]@ != x@,
        decreases v.len() - i,
    {
        if v[i] == *x {
            assert(texts(v@)[i as int] == x@);
            return true;
        }
        i = i + 1;
    }
    false
}

/// Adds `x` to the increasing vector `v`, where it is not already.
pub fn insert_text(v: &mut Vec<String>, x: String)
    requires
        strictly_sorted(texts(old(v)@)),
    ensures
        strictly_sorted(texts(final(v)@)),
        texts(final(v)@).to_set() == texts(old(v)@).to_set().insert(x@),
{
    let ghost s = texts(v@);
    let mut i: usize = 0;
    while i < v.len() && str_lt(v[i].as_str(), x.as_str())
        invariant
            i <= v.len(),
            s == texts(v@),
            forall|k: int| 0 <= k < i ==> seq_lt(s[k], x@),
        decreases v.len() - i,
    {
        i = i + 1;
    }
    if i < v.len() && v[i] == x {
        assert(s[i as int] == x@);
        assert(s.to_set().contains(x@));
        assert(s.to_set().insert(x@) =~= s.to_set());
        return;
    }
    proof {
        if i < s.len() {
            lemma_lt_total(x@, s[i as int]);
        }
    }
    let ghost xv = x@;
    v.insert(i, x);
    let ghost t = texts(v@);
    assert(t =~= s.insert(i as int, xv));
    assert forall|a: int, b: int|
        0 <= a < b < t.len() implies seq_lt(#[trigger] t[a], #[trigger] t[b]) by {
        if a < i && b == i {
        } else if a == i && b > i {
            if b - 1 > i {
                lemma_lt_transitive(xv, s[i as int], s[b - 1]);
            }
        } else if a < i && b > i {
        } else if a > i {
        }
    }
    assert forall|y: Seq<char>| t.to_set().contains(y) == s.to_set().insert(xv).contains(y) by {
        if s.contains(y) {
            let k = choose|k: int| 0 <= k < s.len() && s[k] == y;
            if k < i {
                assert(t[k] == y);
            } else {
                assert(t[k + 1] == y);
            }
        }
        if t.contains(y) {
            let k = choose|k: int| 0 <= k < t.len() && t[k] == y;
            if k < i {
                assert(s[k] == y);
            } else if k > i {
                assert(s[k - 1] == y);
            }
        }
        assert(t[i as int] == xv);
    }
    assert(t.to_set() =~= s.to_set().insert(xv));
}

pub proof fn lemma_push_contains(s: Seq<Seq<char>>, x: Seq<char>, y: Seq<char>)
    ensures
        s.push(x).contains(y) == (s.contains(y) || y == x),
{
    if s.contains(y) {
        let k = choose|k: int| 0 <= k < s.len() && s[k] == y;
        assert(s.push(x)[k] == y);
    }
    if y == x {
        assert(s.push(x)[s.len() as int] == y);
    }
    if s.push(x).contains(y) {
        let k = choose|k: int| 0 <= k < s.push(x).len() && s.push(x)[k] == y;
        if k < s.len() {
            assert(s[k] == y);
        }
    }
}

/// The strings of the increasing vector `a` that `b` holds (`common`), or
/// that it does not hold (`!common`), in increasing order.
pub fn select_texts(a: &Vec<String>, b: &Vec<String>, common: bool) -> (r: Vec<String>)
    requires
        strictly_sorted(texts(a@)),
    ensures
        lists_in_order(
            texts(r@),
            if common {
                texts(a@).to_set().intersect(texts(b@).to_set())
            } else {
                texts(a@).to_set().difference(texts(b@).to_set())
            },
        ),
{
    let ghost sa = texts(a@);
    let ghost sb = texts(b@);
    let mut r: Vec<String> = Vec::new();
    let mut i: usize = 0;
    while i < a.len()
        invariant
            i <= a.len(),
            sa == texts(a@),
            sb == texts(b@),
            strictly_sorted(sa),
            strictly_sorted(texts(r@)),
            forall|k: int, j: int|
                0 <= k < r.len() && i <= j < sa.len() ==> seq_lt(
                    #[trigger] texts(r@)[k],
                    #[trigger] sa[j],
                ),
            forall|y: Seq<char>|
                #[trigger] texts(r@).contains(y) == (sa.subrange(0, i as int).contains(y)
                    && sb.contains(y) == common),
        decreases a.len() - i,
    {
        let found = contains_text(b, &a[i]);
        let ghost before = texts(r@);
        let ghost x = sa[i as int];
        assert(sa.subrange(0, i + 1) =~= sa.subrange(0, i as int).push(x));
        if found == common {
            r.push(a[i].clone());
            let ghost after = texts(r@);
            assert(after =~= before.push(x));
            assert forall|p: int, q: int| 0 <= p < q < after.len() implies seq_lt(
                #[trigger] after[p],
                #[trigger] after[q],
            ) by {
                if q == before.len() {
                    assert(seq_lt(before[p], x));
                } else {
                    assert(after[p] == before[p] && after[q] == before[q]);
                }
            }
            assert forall|k: int, j: int|
                0 <= k < after.len() && i + 1 <= j < sa.len() implies seq_lt(
                #[trigger] after[k],
                #[trigger] sa[j],
            ) by {
                if k == before.len() {
                    assert(after[k] == x);
                } else {
                    assert(after[k] == before[k]);
                }
            }
            assert forall|y: Seq<char>| #[trigger] after.contains(y) == (sa.subrange(
                0,
                i + 1,
            ).contains(y) && sb.contains(y) == common) by {
                lemma_push_contains(before, x, y);
                lemma_push_contains(sa.subrange(0, i as int), x, y);
            }
        } else {
            assert forall|y: Seq<char>| #[trigger] before.contains(y) == (sa.subrange(
                0,
                i + 1,
            ).contains(y) && sb.contains(y) == common) by {
                lemma_push_contains(sa.subrange(0, i as int), x, y);
            }
        }
        i = i + 1;
    }
    assert(sa.subrange(0, sa.len() as int) =~= sa);
    let ghost want = if common {
        sa.to_set().intersect(sb.to_set())
    } else {
        sa.to_set().difference(sb.to_set())
    };
    assert(texts(r@).to_set() =~= want);
    r
}

/// A value with a name, by which it is sorted.
pub trait Named: Sized {
    spec fn name_of(&self) -> Seq<char>;

    fn name_str(&self) -> (r: &str)
        ensures
            r@ == self.name_of(),
    ;
}

/// `x` added to `s` after every element whose name does not come after its
/// own, scanning from the end: the step of a stable insertion sort.
pub open spec fn insert_by_name<T: Named>(s: Seq<T>, x: T) -> Seq<T>
    decreases s.len(),
{
    if s.len() > 0 && seq_lt(x.name_of(), s.last().name_of()) {
        insert_by_name(s.drop_last(), x).push(s.last())
    } else {
        s.push(x)
    }
}

/// `s` sorted by name; elements of equal names keep their order.
pub open spec fn sort_by_name<T: Named>(s: Seq<T>) -> Seq<T>
    decreases s.len(),
{
    if s.len() == 0 {
        s
    } else {
        insert_by_name(sort_by_name(s.drop_last()), s.last())
    }
}

/// Inserts `x` into `v` after the last element whose name does not come
/// after its own.
pub fn insert_named<T: Named>(v: &mut Vec<T>, x: T)
    ensures
        final(v)@ == insert_by_name(old(v)@, x),
{
    let ghost s = v@;
    let mut i = v.len();
    assert(s.subrange(0, i as int) =~= s);
    assert(s.subrange(i as int, s.len() as int) =~= Seq::<T>::empty());
    while i > 0 && str_lt(x.name_str(), v[i - 1].name_str())
        invariant
            i <= v.len(),
            s == v@,
            insert_by_name(s, x) == insert_by_name(s.subrange(0, i as int), x) + s.subrange(
                i as int,
                s.len() as int,
            ),
        decreases i,
    {
        let ghost pre = s.subrange(0, i as int);
        assert(pre.drop_last() =~= s.subrange(0, i - 1));
        assert(pre.last() == s[i - 1]);
        assert(s.subrange(i - 1, s.len() as int) =~= seq![s[i - 1]] + s.subrange(
            i as int,
            s.len() as int,
        ));
        assert(insert_by_name(s.subrange(0, i - 1), x).push(s[i - 1]) + s.subrange(
            i as int,
            s.len() as int,
        ) =~= insert_by_name(s.subrange(0, i - 1), x) + s.subrange(i - 1, s.len() as int));
        i = i - 1;
    }
    v.insert(i, x);
    assert(v@ =~= insert_by_name(s.subrange(0, i as int), x) + s.subrange(i as int, s.len() as int));
}

/// `v` sorted by name; elements of equal names keep their order.
pub fn sort_named<T: Named>(v: Vec<T>) -> (r: Vec<T>)
    ensures
        r@ == sort_by_name(v@),
{
    let ghost orig = v@;
    let mut rest = v;
    let mut out: Vec<T> = Vec::new();
    assert(orig.subrange(0, 0) =~= Seq::<T>::empty());
    assert(orig.subrange(0, orig.len() as int) =~= orig);
    while rest.len() > 0
        invariant
            rest.len() <= orig.len(),
            rest@ == orig.subrange(orig.len() - rest.len(), orig.len() as int),
            out@ == sort_by_name(orig.subrange(0, orig.len() - rest.len())),
        decreases rest.len(),
    {
        let ghost k = orig.len() - rest.len();
        let x = rest.remove(0);
        assert(orig.subrange(0, k + 1).drop_last() =~= orig.subrange(0, k));
        assert(rest@ =~= orig.subrange(k + 1, orig.len() as int));
        insert_named(&mut out, x);
    }
    out
}

/// No name comes before an earlier one.
pub open spec fn sorted_by_name<T: Named>(s: Seq<T>) -> bool {
    forall|i: int, j: int|
        0 <= i < j < s.len() ==> !seq_lt(#[trigger] s[j].name_of(), #[trigger] s[i].name_of())
}

proof fn lemma_insert_bounded<T: Named>(s: Seq<T>, x: T, b: Seq<char>)
    requires
        forall|i: int| 0 <= i < s.len() ==> !seq_lt(b, #[trigger] s[i].name_of()),
        !seq_lt(b, x.name_of()),
    ensures
        insert_by_name(s, x).len() == s.len() + 1,
        forall|i: int|
            0 <= i < insert_by_name(s, x).len() ==> !seq_lt(
                b,
                #[trigger] insert_by_name(s, x)[i].name_of(),
            ),
    decreases s.len(),
{
    if s.len() > 0 && seq_lt(x.name_of(), s.last().name_of()) {
        lemma_insert_bounded(s.drop_last(), x, b);
        let t = insert_by_name(s.drop_last(), x);
        assert forall|i: int| 0 <= i < t.push(s.last()).len() implies !seq_lt(
            b,
            #[trigger] t.push(s.last())[i].name_of(),
        ) by {
            if i < t.len() {
                assert(t.push(s.last())[i] == t[i]);
            }
        }
    }
}

proof fn lemma_insert_sorted<T: Named>(s: Seq<T>, x: T)
    requires
        sorted_by_name(s),
    ensures
        sorted_by_name(insert_by_name(s, x)),
        insert_by_name(s, x).len() == s.len() + 1,
    decreases s.len(),
{
    if s.len() > 0 && seq_lt(x.name_of(), s.last().name_of()) {
        let l = s.last();
        let p = s.drop_last();
        assert(sorted_by_name(p));
        lemma_insert_sorted(p, x);
        assert forall|i: int|
            0 <= i < p.len() implies !seq_lt(l.name_of(), #[trigger] p[i].name_of()) by {
            assert(p[i] == s[i]);
        }
        if seq_lt(l.name_of(), x.name_of()) {
            lemma_lt_transitive(x.name_of(), l.name_of(), x.name_of());
            lemma_lt_irreflexive(x.name_of());
        }
        lemma_insert_bounded(p, x, l.name_of());
        let t = insert_by_name(p, x);
        let r = t.push(l);
        assert forall|i: int, j: int| 0 <= i < j < r.len() implies !seq_lt(
            #[trigger] r[j].name_of(),
            #[trigger] r[i].name_of(),
        ) by {
            if j == t.len() {
                assert(r[i] == t[i]);
            } else {
                assert(r[i] == t[i] && r[j] == t[j]);
            }
        }
    } else {
        let r = s.push(x);
        assert forall|i: int, j: int| 0 <= i < j < r.len() implies !seq_lt(
            #[trigger] r[j].name_of(),
            #[trigger] r[i].name_of(),
        ) by {
            if j == s.len() {
                assert(r[i] == s[i]);
                let last = s.last().name_of();
                if seq_lt(x.name_of(), s[i].name_of()) {
                    if i < s.len() - 1 {
                        assert(!seq_lt(last, s[i].name_of()));
                    } else {
                        assert(s[i] == s.last());
                    }
                    if x.name_of() != last {
                        lemma_lt_total(x.name_of(), last);
                        lemma_lt_transitive(last, x.name_of(), s[i].name_of());
                    }
                }
            } else {
                assert(r[i] == s[i] && r[j] == s[j]);
            }
        }
    }
}

/// Sorting by name keeps the length and leaves no name before an earlier
/// one.
pub proof fn lemma_sort_by_name_sorted<T: Named>(s: Seq<T>)
    ensures
        sorted_by_name(sort_by_name(s)),
        sort_by_name(s).len() == s.len(),
    decreases s.len(),
{
    if s.len() > 0 {
        lemma_sort_by_name_sorted(s.drop_last());
        lemma_insert_sorted(sort_by_name(s.drop_last()), s.last());
    }
}

} // verus!
