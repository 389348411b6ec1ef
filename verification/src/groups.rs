//! Reading a player's sync group from its status reply: the master and the comma-separated
//! list of the others, as one sorted list of ids without repeats or the player itself.
use vstd::prelude::*;
use vstd::string::*;
use crate::config::{spec_trim, trim_owned};
use crate::session::texts;
use crate::text::str_eq;

verus! {

/// Text order (`str`'s `Ord`: by characters, a prefix before its extensions).
pub open spec fn text_less(a: Seq<char>, b: Seq<char>) -> bool
    decreases a.len(),
{
    if b.len() == 0 {
        false
    } else if a.len() == 0 {
        true
    } else if a[0] != b[0] {
        a[0] < b[0]
    } else {
        text_less(a.drop_first(), b.drop_first())
    }
}

/// No text comes before itself, and two texts are in at most one order.
pub proof fn lemma_text_less_strict(a: Seq<char>, b: Seq<char>)
    ensures
        !text_less(a, a),
        text_less(a, b) ==> !text_less(b, a),
    decreases a.len(),
{
    if a.len() > 0 && b.len() > 0 {
        lemma_text_less_strict(a.drop_first(), b.drop_first());
    }
    if a.len() > 0 {
        lemma_text_less_strict(a.drop_first(), a.drop_first());
    }
}

/// Two different texts are in one order or the other.
pub proof fn lemma_text_less_total(a: Seq<char>, b: Seq<char>)
    requires
        a != b,
    ensures
        text_less(a, b) || text_less(b, a),
    decreases a.len(),
{
    if a.len() > 0 && b.len() > 0 && a[0] == b[0] {
        if a.drop_first() == b.drop_first() {
            assert(a =~= seq![a[0]] + a.drop_first());
            assert(b =~= seq![b[0]] + b.drop_first());
        }
        lemma_text_less_total(a.drop_first(), b.drop_first());
    } else if a.len() == 0 && b.len() == 0 {
        assert(a =~= b);
    }
}

/// Text order is transitive.
pub proof fn lemma_text_less_trans(a: Seq<char>, b: Seq<char>, c: Seq<char>)
    requires
        text_less(a, b),
        text_less(b, c),
    ensures
        text_less(a, c),
    decreases a.len(),
{
    if a.len() > 0 && b.len() > 0 && c.len() > 0 && a[0] == b[0] && b[0] == c[0] {
        lemma_text_less_trans(a.drop_first(), b.drop_first(), c.drop_first());
    }
}

/// Whether `a` comes before `b` in text order.
pub fn str_less(a: &str, b: &str) -> (r: bool)
    ensures
        r == text_less(a@, b@),
{
    let n = a.unicode_len();
    let m = b.unicode_len();
    let mut i: usize = 0;
    assert(a@.skip(0) =~= a@ && b@.skip(0) =~= b@);
    while i < n && i < m
        invariant
            n == a@.len(),
            m == b@.len(),
            i <= n && i <= m,
            text_less(a@, b@) == text_less(a@.skip(i as int), b@.skip(i as int)),
        decreases n - i,
    {
        let x = a.get_char(i);
        let y = b.get_char(i);
        assert(a@.skip(i as int)[0] == x && b@.skip(i as int)[0] == y);
        if x != y {
            return x < y;
        }
        assert(a@.skip(i as int).drop_first() =~= a@.skip(i + 1));
        assert(b@.skip(i as int).drop_first() =~= b@.skip(i + 1));
        i += 1;
    }
    i < m
}

/// Each id comes before the next: the list is sorted and has no repeats.
pub open spec fn strictly_sorted(s: Seq<Seq<char>>) -> bool {
    forall|i: int, j: int| 0 <= i < j < s.len() ==> text_less(#[trigger] s[i], #[trigger] s[j])
}

/// Adds `id` to a sorted list unless it is there already.
fn insert_sorted(v: &mut Vec<String>, id: String)
    requires
        strictly_sorted(texts(old(v)@)),
    ensures
        strictly_sorted(texts(final(v)@)),
        forall|x: Seq<char>| #[trigger] texts(final(v)@).contains(x) <==> (texts(old(v)@).contains(x) || x == id@),
{
    let ghost s0 = texts(v@);
    let mut i: usize = 0;
    while i < v.len() && str_less(v[i].as_str(), id.as_str())
        invariant
            i <= v@.len(),
            s0 == texts(v@),
            strictly_sorted(s0),
            forall|k: int| 0 <= k < i ==> text_less(#[trigger] s0[k], id@),
        decreases v@.len() - i,
    {
        assert(s0[i as int] == v@[i as int]@);
        i += 1;
    }
    if i < v.len() && str_eq(v[i].as_str(), id.as_str()) {
        assert(s0[i as int] == id@);
        return;
    }
    proof {
        if i < v@.len() {
            assert(s0[i as int] == v@[i as int]@);
            assert(!text_less(s0[i as int], id@));
            lemma_text_less_total(s0[i as int], id@);
            assert forall|k: int| i <= k < s0.len() implies text_less(id@, #[trigger] s0[k]) by {
                if k > i {
                    lemma_text_less_trans(id@, s0[i as int], s0[k]);
                }
            }
        }
    }
    v.insert(i, id);
    let ghost s1 = texts(v@);
    assert(s1 =~= s0.insert(i as int, id@));
    assert forall|a: int, b: int| 0 <= a < b < s1.len() implies text_less(#[trigger] s1[a], #[trigger] s1[b]) by {
        if b < i {
        } else if a < i && b == i {
        } else if a < i {
            assert(s1[b] == s0[b - 1]);
        } else if a == i {
            assert(s1[b] == s0[b - 1]);
        } else {
            assert(s1[a] == s0[a - 1] && s1[b] == s0[b - 1]);
        }
    }
    assert forall|x: Seq<char>| s1.contains(x) <==> (s0.contains(x) || x == id@) by {
        if s1.contains(x) {
            let k = choose|k: int| 0 <= k < s1.len() && s1[k] == x;
            if k < i {
                assert(s0[k] == x);
            } else if k > i {
                assert(s0[k - 1] == x);
            }
        }
        if s0.contains(x) {
            let k = choose|k: int| 0 <= k < s0.len() && s0[k] == x;
            if k < i {
                assert(s1[k] == x);
            } else {
                assert(s1[k + 1] == x);
            }
        }
        if x == id@ {
            assert(s1[i as int] == x);
        }
    }
}

/// `i` is the position of the first comma of `s`.
pub open spec fn first_comma_at(s: Seq<char>, i: int) -> bool {
    0 <= i < s.len() && s[i] == ',' && forall|k: int| 0 <= k < i ==> s[k] != ','
}

/// The comma-separated parts of `s` (`str::split(',')`): one more part than commas.
pub open spec fn split_commas(s: Seq<char>) -> Seq<Seq<char>>
    decreases s.len(),
{
    if exists|i: int| first_comma_at(s, i) {
        let i = choose|i: int| first_comma_at(s, i);
        seq![s.take(i)] + split_commas(s.skip(i + 1))
    } else {
        seq![s]
    }
}

/// The first comma of a text is where it is.
proof fn lemma_first_comma(s: Seq<char>, i: int)
    requires
        first_comma_at(s, i),
    ensures
        (choose|j: int| first_comma_at(s, j)) == i,
{
    let c = choose|j: int| first_comma_at(s, j);
    assert(first_comma_at(s, c));
    if c < i {
        assert(s[c] != ',');
    } else if c > i {
        assert(s[i] != ',');
    }
}

/// Some part of `parts` is `x` once trimmed.
pub open spec fn has_trimmed(parts: Seq<Seq<char>>, x: Seq<char>) -> bool {
    exists|k: int| 0 <= k < parts.len() && spec_trim(#[trigger] parts[k]) == x
}

/// `x` is an id of the player's group other than the player `pid` itself: the master (when
/// named) or one of the listed others, white space trimmed.
pub open spec fn in_group_of(master: Option<Seq<char>>, others: Option<Seq<char>>, pid: Seq<char>, x: Seq<char>) -> bool {
    &&& x.len() > 0 && x != pid
    &&& (master == Some(x) || (others matches Some(o) && has_trimmed(split_commas(o), x)))
}

/// Adding one part to a list of parts.
proof fn lemma_has_trimmed_push(d: Seq<Seq<char>>, p: Seq<char>)
    ensures
        forall|x: Seq<char>| #[trigger] has_trimmed(d.push(p), x) <==> (has_trimmed(d, x) || spec_trim(p) == x),
{
    assert forall|x: Seq<char>| #[trigger] has_trimmed(d.push(p), x) <==> (has_trimmed(d, x) || spec_trim(p) == x) by {
        let d1 = d.push(p);
        if has_trimmed(d1, x) {
            let k = choose|k: int| 0 <= k < d1.len() && spec_trim(#[trigger] d1[k]) == x;
            if k < d.len() {
                assert(d1[k] == d[k]);
            }
        }
        if has_trimmed(d, x) {
            let k = choose|k: int| 0 <= k < d.len() && spec_trim(#[trigger] d[k]) == x;
            assert(d1[k] == d[k]);
        }
        if spec_trim(p) == x {
            assert(d1[d.len() as int] == p);
        }
    }
}

/// The parts of `s` from position `start` on, each added to `out` when it is an id (see
/// `in_group_of`).
fn add_parts(out: &mut Vec<String>, s: &str, pid: &str)
    requires
        strictly_sorted(texts(old(out)@)),
    ensures
        strictly_sorted(texts(final(out)@)),
        forall|x: Seq<char>| #[trigger] texts(final(out)@).contains(x) <==> (texts(old(out)@).contains(x)
            || (x.len() > 0 && x != pid@ && has_trimmed(split_commas(s@), x))),
{
    let ghost o0 = texts(out@);
    let ghost parts = split_commas(s@);
    let n = s.unicode_len();
    let mut start: usize = 0;
    let mut i: usize = 0;
    let ghost mut done: Seq<Seq<char>> = Seq::empty();
    assert(s@.skip(0) =~= s@);
    while i < n
        invariant
            n == s@.len(),
            start <= i <= n,
            forall|k: int| start <= k < i ==> s@[k] != ',',
            parts == done + split_commas(s@.skip(start as int)),
            strictly_sorted(texts(out@)),
            forall|x: Seq<char>| #[trigger] texts(out@).contains(x) <==> (o0.contains(x)
                || (x.len() > 0 && x != pid@ && has_trimmed(done, x))),
        decreases n - i,
    {
        if s.get_char(i) == ',' {
            let ghost t = s@.skip(start as int);
            proof {
                assert(first_comma_at(t, i - start)) by {
                    assert forall|k: int| 0 <= k < i - start implies t[k] != ',' by {
                        assert(t[k] == s@[start + k]);
                    }
                    assert(t[i - start] == s@[i as int]);
                }
                lemma_first_comma(t, i - start);
                assert(t.take(i - start) =~= s@.subrange(start as int, i as int));
                assert(t.skip(i - start + 1) =~= s@.skip(i + 1));
            }
            let part = trim_owned(s.substring_char(start, i));
            let ghost d1 = done.push(s@.subrange(start as int, i as int));
            if part.unicode_len() > 0 && !str_eq(part.as_str(), pid) {
                insert_sorted(out, part);
            }
            proof {
                assert(parts == d1 + split_commas(s@.skip(i + 1))) by {
                    assert(done + split_commas(t) =~= d1 + split_commas(s@.skip(i + 1)));
                }
                lemma_has_trimmed_push(done, s@.subrange(start as int, i as int));
                done = d1;
            }
            start = i + 1;
        }
        i += 1;
    }
    let ghost t = s@.skip(start as int);
    proof {
        assert(!exists|j: int| first_comma_at(t, j)) by {
            if exists|j: int| first_comma_at(t, j) {
                let j = choose|j: int| first_comma_at(t, j);
                assert(t[j] == s@[start + j]);
            }
        }
        assert(split_commas(t) == seq![t]);
        assert(t =~= s@.subrange(start as int, n as int));
    }
    let part = trim_owned(s.substring_char(start, n));
    let ghost d1 = done.push(t);
    if part.unicode_len() > 0 && !str_eq(part.as_str(), pid) {
        insert_sorted(out, part);
    }
    proof {
        assert(parts =~= d1);
        lemma_has_trimmed_push(done, t);
    }
}

/// The ids of the players synchronised with player `pid`, from its status reply's
/// `sync_master` and comma-separated `sync_slaves`: sorted, without repeats, without `pid`
/// itself and without empty names (see `in_group_of`).
pub fn synced_ids(master: Option<&str>, others: Option<&str>, pid: &str) -> (r: Vec<String>)
    ensures
        strictly_sorted(texts(r@)),
        forall|x: Seq<char>| #[trigger] texts(r@).contains(x) <==> in_group_of(
            match master { Some(m) => Some(m@), None => None },
            match others { Some(o) => Some(o@), None => None },
            pid@,
            x,
        ),
{
    let mut out: Vec<String> = Vec::new();
    assert(texts(out@) =~= Seq::<Seq<char>>::empty());
    let ghost mv: Option<Seq<char>> = match master { Some(m) => Some(m@), None => None };
    let ghost ov: Option<Seq<char>> = match others { Some(o) => Some(o@), None => None };
    if let Some(m) = master {
        if m.unicode_len() > 0 && !str_eq(m, pid) {
            insert_sorted(&mut out, crate::text::to_owned_string(m));
        }
    }
    let ghost after_master = texts(out@);
    assert(forall|x: Seq<char>| #[trigger] after_master.contains(x) <==> (x.len() > 0 && x != pid@ && mv == Some(x)));
    if let Some(o) = others {
        add_parts(&mut out, o, pid);
    }
    out
}

} // verus!
