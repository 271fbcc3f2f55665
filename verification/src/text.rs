//! Character-level helpers on strings: equality, decimal rendering of
//! unsigned integers, and left-to-right substring replacement.

use vstd::prelude::*;
use vstd::string::*;

verus! {

/// The character that stands for the decimal digit `d` (for `d < 10`).
pub open spec fn digit_char(d: nat) -> char {
    if d == 0 { '0' }
    else if d == 1 { '1' }
    else if d == 2 { '2' }
    else if d == 3 { '3' }
    else if d == 4 { '4' }
    else if d == 5 { '5' }
    else if d == 6 { '6' }
    else if d == 7 { '7' }
    else if d == 8 { '8' }
    else { '9' }
}

/// The decimal rendering of `n`, most significant digit first, no leading zeros.
pub open spec fn decimal(n: nat) -> Seq<char>
    decreases n,
{
    if n < 10 {
        seq![digit_char(n)]
    } else {
        decimal(n / 10).push(digit_char(n % 10))
    }
}

/// `s` with every occurrence of `pat` replaced by `rep`, occurrences being
/// taken from left to right without overlap. An empty `pat` occurs before
/// every character and at the end.
pub open spec fn replaced(s: Seq<char>, pat: Seq<char>, rep: Seq<char>) -> Seq<char>
    decreases s.len(),
{
    if pat.len() == 0 {
        if s.len() == 0 {
            rep
        } else {
            rep + seq![s[0]] + replaced(s.subrange(1, s.len() as int), pat, rep)
        }
    } else if s.len() < pat.len() {
        s
    } else if s.subrange(0, pat.len() as int) == pat {
        rep + replaced(s.subrange(pat.len() as int, s.len() as int), pat, rep)
    } else {
        seq![s[0]] + replaced(s.subrange(1, s.len() as int), pat, rep)
    }
}

/// Owned copy of a string slice.
pub fn owned(s: &str) -> (r: String)
    ensures
        r@ == s@,
{
    s.to_owned()
}

/// Whether two strings hold the same characters.
pub fn same_text(a: &str, b: &str) -> (r: bool)
    ensures
        r == (a@ == b@),
{
    let x = a.to_owned();
    let y = b.to_owned();
    x == y
}

/// `a` followed by `b`.
pub fn join2(a: &str, b: &str) -> (r: String)
    ensures
        r@ == a@ + b@,
{
    let mut r = a.to_owned();
    r.append(b);
    r
}

/// `a`, `b` and `c` one after the other.
pub fn join3(a: &str, b: &str, c: &str) -> (r: String)
    ensures
        r@ == a@ + b@ + c@,
{
    let mut r = a.to_owned();
    r.append(b);
    r.append(c);
    r
}

fn digit_str(d: u64) -> (s: &'static str)
    requires
        d < 10,
    ensures
        s@ == seq![digit_char(d as nat)],
{
    proof {
        reveal_strlit("0");
        reveal_strlit("1");
        reveal_strlit("2");
        reveal_strlit("3");
        reveal_strlit("4");
        reveal_strlit("5");
        reveal_strlit("6");
        reveal_strlit("7");
        reveal_strlit("8");
        reveal_strlit("9");
    }
    if d == 0 { "0" }
    else if d == 1 { "1" }
    else if d == 2 { "2" }
    else if d == 3 { "3" }
    else if d == 4 { "4" }
    else if d == 5 { "5" }
    else if d == 6 { "6" }
    else if d == 7 { "7" }
    else if d == 8 { "8" }
    else { "9" }
}

/// Decimal rendering of an unsigned integer, as `{}` formats it.
pub fn u64_to_decimal(n: u64) -> (s: String)
    ensures
        s@ == decimal(n as nat),
    decreases n,
{
    if n < 10 {
        owned(digit_str(n))
    } else {
        let mut s = u64_to_decimal(n / 10);
        s.append(digit_str(n % 10));
        s
    }
}

/// Whether the `m` characters of `s` from position `i` on spell `pat`.
fn matches_at(s: &str, pat: &str, i: usize, m: usize) -> (r: bool)
    requires
        m == pat@.len(),
        i + m <= s@.len(),
        s@.len() <= usize::MAX,
    ensures
        r == (s@.subrange(i as int, i + m) == pat@),
{
    let mut j: usize = 0;
    while j < m
        invariant
            m == pat@.len(),
            i + m <= s@.len(),
            s@.len() <= usize::MAX,
            j <= m,
            forall|k: int| 0 <= k < j ==> s@[i + k] == pat@[k],
        decreases m - j,
    {
        if s.get_char(i + j) != pat.get_char(j) {
            assert(s@.subrange(i as int, i + m)[j as int] != pat@[j as int]);
            return false;
        }
        j = j + 1;
    }
    assert(s@.subrange(i as int, i + m) =~= pat@);
    true
}

/// `s` with each occurrence of `pat` replaced by `rep`, as `str::replace` does.
pub fn replace_all(s: &str, pat: &str, rep: &str) -> (r: String)
    ensures
        r@ == replaced(s@, pat@, rep@),
{
    let n = s.unicode_len();
    let m = pat.unicode_len();
    let mut out = String::new();
    let mut i: usize = 0;
    assert(s@.subrange(0, n as int) =~= s@);
    while i < n
        invariant
            n == s@.len(),
            m == pat@.len(),
            i <= n,
            out@ + replaced(s@.subrange(i as int, n as int), pat@, rep@) == replaced(s@, pat@, rep@),
        decreases n - i,
    {
        let ghost t = s@.subrange(i as int, n as int);
        if m == 0 {
            let piece = s.substring_char(i, i + 1);
            assert(piece@ =~= seq![t[0]]);
            assert(t.subrange(1, t.len() as int) =~= s@.subrange(i + 1, n as int));
            assert(out@ + rep@ + piece@ + replaced(s@.subrange(i + 1, n as int), pat@, rep@)
                =~= out@ + (rep@ + seq![t[0]] + replaced(t.subrange(1, t.len() as int), pat@, rep@)));
            out.append(rep);
            out.append(piece);
            i = i + 1;
        } else if m <= n - i && matches_at(s, pat, i, m) {
            assert(t.subrange(0, m as int) =~= s@.subrange(i as int, i + m));
            assert(t.subrange(m as int, t.len() as int) =~= s@.subrange(i + m, n as int));
            assert(out@ + rep@ + replaced(s@.subrange(i + m, n as int), pat@, rep@)
                =~= out@ + (rep@ + replaced(t.subrange(m as int, t.len() as int), pat@, rep@)));
            out.append(rep);
            i = i + m;
        } else {
            let piece = s.substring_char(i, i + 1);
            assert(piece@ =~= seq![t[0]]);
            assert(t.subrange(1, t.len() as int) =~= s@.subrange(i + 1, n as int));
            if m <= n - i {
                assert(t.subrange(0, m as int) =~= s@.subrange(i as int, i + m));
            }
            assert(out@ + piece@ + replaced(s@.subrange(i + 1, n as int), pat@, rep@)
                =~= out@ + (seq![t[0]] + replaced(t.subrange(1, t.len() as int), pat@, rep@)));
            out.append(piece);
            i = i + 1;
        }
    }
    if m == 0 {
        assert(out@ + replaced(s@.subrange(n as int, n as int), pat@, rep@) =~= out@ + rep@);
        out.append(rep);
    } else {
        assert(out@ + replaced(s@.subrange(n as int, n as int), pat@, rep@) =~= out@);
    }
    out
}

/// `pat` occurs in `s`.
pub open spec fn occurs_in(pat: Seq<char>, s: Seq<char>) -> bool {
    exists|i: int| 0 <= i && i + pat.len() <= s.len() && #[trigger] s.subrange(i, i + pat.len()) == pat
}

/// Where every replacement starts with `.`, a prefix of the result that has
/// no `.` is already a prefix of the input.
proof fn lemma_dot_free_prefix(t: Seq<char>, q: Seq<char>, pat: Seq<char>, rep: Seq<char>)
    requires
        pat.len() > 0,
        rep.len() > 0,
        rep[0] == '.',
        forall|k: int| 0 <= k < q.len() ==> q[k] != '.',
        q.len() <= replaced(t, pat, rep).len(),
        replaced(t, pat, rep).subrange(0, q.len() as int) == q,
    ensures
        q.len() <= t.len(),
        t.subrange(0, q.len() as int) == q,
    decreases t.len(),
{
    if q.len() == 0 {
        assert(t.subrange(0, 0) =~= q);
    } else if t.len() < pat.len() {
    } else if t.subrange(0, pat.len() as int) == pat {
        assert(replaced(t, pat, rep)[0] == rep[0]);
        assert(q[0] == replaced(t, pat, rep).subrange(0, q.len() as int)[0]);
    } else {
        let t1 = t.subrange(1, t.len() as int);
        let out1 = replaced(t1, pat, rep);
        let q1 = q.subrange(1, q.len() as int);
        assert(replaced(t, pat, rep) == seq![t[0]] + out1);
        assert(out1.subrange(0, q1.len() as int) =~= replaced(t, pat, rep).subrange(0, q.len() as int).subrange(1, q.len() as int));
        lemma_dot_free_prefix(t1, q1, pat, rep);
        assert(q[0] == replaced(t, pat, rep).subrange(0, q.len() as int)[0]);
        assert forall|k: int| 0 <= k < q.len() implies #[trigger] t.subrange(0, q.len() as int)[k] == q[k] by {
            if k > 0 {
                assert(t1.subrange(0, q1.len() as int)[k - 1] == q1[k - 1]);
            }
        }
        assert(t.subrange(0, q.len() as int) =~= q);
    }
}

/// Replacing `pat` by `rep` leaves no occurrence of `pat`, where both start
/// with `.`, neither has another `.`, and they differ in their second character.
pub proof fn lemma_replaced_leaves_no_occurrence(s: Seq<char>, pat: Seq<char>, rep: Seq<char>)
    requires
        pat.len() >= 2,
        rep.len() >= 2,
        pat[0] == '.',
        rep[0] == '.',
        pat[1] != rep[1],
        forall|k: int| 1 <= k < pat.len() ==> pat[k] != '.',
        forall|k: int| 1 <= k < rep.len() ==> rep[k] != '.',
    ensures
        !occurs_in(pat, replaced(s, pat, rep)),
    decreases s.len(),
{
    let out = replaced(s, pat, rep);
    let m = pat.len() as int;
    if s.len() < pat.len() {
        assert forall|i: int| 0 <= i && i + m <= out.len() implies #[trigger] out.subrange(i, i + m) != pat by {
        }
    } else if s.subrange(0, m) == pat {
        let rest = s.subrange(m, s.len() as int);
        let out1 = replaced(rest, pat, rep);
        lemma_replaced_leaves_no_occurrence(rest, pat, rep);
        assert(out == rep + out1);
        assert forall|i: int| 0 <= i && i + m <= out.len() implies #[trigger] out.subrange(i, i + m) != pat by {
            if i == 0 {
                assert(out.subrange(i, i + m)[1] == rep[1]);
            } else if i < rep.len() {
                assert(out.subrange(i, i + m)[0] == rep[i]);
            } else {
                let j = i - rep.len();
                assert(out.subrange(i, i + m) =~= out1.subrange(j, j + m));
                if out1.subrange(j, j + m) == pat {
                    assert(occurs_in(pat, out1));
                }
            }
        }
    } else {
        let rest = s.subrange(1, s.len() as int);
        let out1 = replaced(rest, pat, rep);
        lemma_replaced_leaves_no_occurrence(rest, pat, rep);
        assert(out == seq![s[0]] + out1);
        assert forall|i: int| 0 <= i && i + m <= out.len() implies #[trigger] out.subrange(i, i + m) != pat by {
            if i == 0 {
                if out.subrange(0, m) == pat {
                    let q = pat.subrange(1, m);
                    assert(out1.subrange(0, q.len() as int) =~= out.subrange(0, m).subrange(1, m));
                    lemma_dot_free_prefix(rest, q, pat, rep);
                    assert(s[0] == out.subrange(0, m)[0]);
                    assert forall|k: int| 0 <= k < m implies #[trigger] s.subrange(0, m)[k] == pat[k] by {
                        if k > 0 {
                            assert(rest.subrange(0, q.len() as int)[k - 1] == q[k - 1]);
                        }
                    }
                    assert(s.subrange(0, m) =~= pat);
                }
            } else {
                let j = i - 1;
                assert(out.subrange(i, i + m) =~= out1.subrange(j, j + m));
                if out1.subrange(j, j + m) == pat {
                    assert(occurs_in(pat, out1));
                }
            }
        }
    }
}

/// Replacing a pattern that does not occur changes nothing.
pub proof fn lemma_replaced_without_occurrence(s: Seq<char>, pat: Seq<char>, rep: Seq<char>)
    requires
        pat.len() > 0,
        !occurs_in(pat, s),
    ensures
        replaced(s, pat, rep) == s,
    decreases s.len(),
{
    let m = pat.len() as int;
    if s.len() < pat.len() {
    } else if s.subrange(0, m) == pat {
        assert(s.subrange(0, 0 + m) == pat);
        assert(occurs_in(pat, s));
    } else {
        let rest = s.subrange(1, s.len() as int);
        if occurs_in(pat, rest) {
            let i = choose|i: int| 0 <= i && i + pat.len() <= rest.len() && #[trigger] rest.subrange(i, i + pat.len()) == pat;
            assert(s.subrange(i + 1, i + 1 + m) =~= rest.subrange(i, i + m));
            assert(occurs_in(pat, s));
        }
        lemma_replaced_without_occurrence(rest, pat, rep);
        assert(seq![s[0]] + rest =~= s);
    }
}

} // verus!
