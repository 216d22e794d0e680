//! Text helpers on `String`: decimal rendering of integers, removal of a
//! pattern, equality with a literal.

use vstd::prelude::*;

verus! {

/// The ten decimal digits, in order.
pub open spec fn digits() -> Seq<char> {
    seq!['0', '1', '2', '3', '4', '5', '6', '7', '8', '9']
}

/// Decimal rendering of a natural number, most significant digit first,
/// without leading zeros.
pub open spec fn decimal(n: nat) -> Seq<char>
    decreases n,
{
    if n < 10 {
        seq![digits()[n as int]]
    } else {
        decimal(n / 10).push(digits()[(n % 10) as int])
    }
}

/// Decimal rendering of an integer, with a leading `-` for negative values.
pub open spec fn signed_decimal(n: int) -> Seq<char> {
    if n < 0 {
        seq!['-'] + decimal((-n) as nat)
    } else {
        decimal(n as nat)
    }
}

fn push_digit(out: &mut String, d: u64)
    requires
        d < 10,
    ensures
        final(out)@ == old(out)@.push(digits()[d as int]),
{
    let table = "0123456789";
    proof {
        reveal_strlit("0123456789");
        assert(table@ =~= digits());
    }
    let one = table.substring_char(d as usize, (d + 1) as usize);
    assert(one@ =~= seq![digits()[d as int]]);
    out.append(one);
}

fn append_decimal(out: &mut String, n: u64)
    ensures
        final(out)@ == old(out)@ + decimal(n as nat),
    decreases n,
{
    if n >= 10 {
        append_decimal(out, n / 10);
    }
    push_digit(out, n % 10);
    assert(out@ =~= old(out)@ + decimal(n as nat));
}

/// Renders `n` in decimal.
pub fn u64_to_decimal(n: u64) -> (s: String)
    ensures
        s@ == decimal(n as nat),
{
    let mut s = String::new();
    append_decimal(&mut s, n);
    assert(s@ =~= decimal(n as nat));
    s
}

/// Renders `n` in decimal, with a leading `-` when it is negative.
pub fn i64_to_decimal(n: i64) -> (s: String)
    ensures
        s@ == signed_decimal(n as int),
{
    if n < 0 {
        let mut s = String::from_str("-");
        proof {
            reveal_strlit("-");
        }
        let magnitude: u64 = if n == i64::MIN {
            9223372036854775808u64
        } else {
            (-n) as u64
        };
        append_decimal(&mut s, magnitude);
        assert(s@ =~= signed_decimal(n as int));
        s
    } else {
        u64_to_decimal(n as u64)
    }
}


/// Whether `p` occurs in `s` at position `i`.
pub open spec fn occurs_at(s: Seq<char>, p: Seq<char>, i: int) -> bool {
    0 <= i && i + p.len() <= s.len() && s.subrange(i, i + p.len()) == p
}

/// `s` with every occurrence of `p` taken out, scanning from the left and
/// resuming after each occurrence (an empty `p` takes nothing out).
pub open spec fn remove_all(s: Seq<char>, p: Seq<char>) -> Seq<char>
    decreases s.len(),
{
    if s.len() == 0 {
        s
    } else if p.len() > 0 && occurs_at(s, p, 0) {
        remove_all(s.skip(p.len() as int), p)
    } else {
        seq![s[0]] + remove_all(s.drop_first(), p)
    }
}

/// The characters of `s`.
pub fn chars_of(s: &str) -> (v: Vec<char>)
    ensures
        v@ == s@,
{
    let n = s.unicode_len();
    let mut v: Vec<char> = Vec::new();
    let mut i: usize = 0;
    while i < n
        invariant
            n == s@.len(),
            i <= n,
            v@ == s@.subrange(0, i as int),
        decreases n - i,
    {
        v.push(s.get_char(i));
        i = i + 1;
        assert(v@ =~= s@.subrange(0, i as int));
    }
    assert(v@ =~= s@);
    v
}

fn occurs_at_exec(s: &Vec<char>, p: &Vec<char>, i: usize) -> (b: bool)
    requires
        i <= s.len(),
    ensures
        b == occurs_at(s@, p@, i as int),
{
    if p.len() > s.len() - i {
        return false;
    }
    let mut k: usize = 0;
    while k < p.len()
        invariant
            i + p.len() <= s.len(),
            k <= p.len(),
            forall|j: int| 0 <= j < k ==> s@[i + j] == p@[j],
        decreases p.len() - k,
    {
        if s[i + k] != p[k] {
            assert(s@.subrange(i as int, i + p.len())[k as int] != p@[k as int]);
            return false;
        }
        k = k + 1;
    }
    assert(s@.subrange(i as int, i + p.len()) =~= p@);
    true
}

proof fn remove_all_step(s: Seq<char>, p: Seq<char>, i: int)
    requires
        0 <= i < s.len(),
    ensures
        p.len() > 0 && occurs_at(s, p, i) ==> remove_all(s.skip(i), p) == remove_all(
            s.skip(i + p.len()),
            p,
        ),
        !(p.len() > 0 && occurs_at(s, p, i)) ==> remove_all(s.skip(i), p) == seq![s[i]]
            + remove_all(s.skip(i + 1), p),
{
    let t = s.skip(i);
    assert(occurs_at(s, p, i) == occurs_at(t, p, 0)) by {
        if i + p.len() <= s.len() {
            assert(s.subrange(i, i + p.len()) =~= t.subrange(0, p.len() as int));
        }
    }
    if p.len() > 0 && occurs_at(s, p, i) {
        assert(t.skip(p.len() as int) =~= s.skip(i + p.len()));
    } else {
        assert(t.drop_first() =~= s.skip(i + 1));
    }
}

/// `s` with every occurrence of `pattern` taken out, as [`remove_all`] says.
pub fn remove_all_exec(s: &str, pattern: &str) -> (r: String)
    ensures
        r@ == remove_all(s@, pattern@),
{
    let cs = chars_of(s);
    let ps = chars_of(pattern);
    let n = cs.len();
    let m = ps.len();
    let mut out = String::new();
    let mut run_start: usize = 0;
    let mut i: usize = 0;
    assert(s@.skip(0) =~= s@);
    assert(out@ + s@.subrange(0, 0) =~= Seq::<char>::empty());
    while i < n
        invariant
            cs@ == s@,
            ps@ == pattern@,
            n == s@.len(),
            m == pattern@.len(),
            run_start <= i <= n,
            remove_all(s@, pattern@) == out@ + s@.subrange(run_start as int, i as int)
                + remove_all(s@.skip(i as int), pattern@),
        decreases n - i,
    {
        proof {
            remove_all_step(s@, pattern@, i as int);
        }
        if m > 0 && occurs_at_exec(&cs, &ps, i) {
            let run = s.substring_char(run_start, i);
            out.append(run);
            i = i + m;
            run_start = i;
            assert(s@.subrange(i as int, i as int) =~= Seq::<char>::empty());
        } else {
            let ghost old_i = i;
            i = i + 1;
            assert(s@.subrange(run_start as int, old_i as int) + seq![s@[old_i as int]]
                =~= s@.subrange(run_start as int, i as int));
        }
    }
    let run = s.substring_char(run_start, n);
    out.append(run);
    assert(remove_all(s@.skip(n as int), pattern@) =~= Seq::<char>::empty()) by {
        assert(s@.skip(n as int) =~= Seq::<char>::empty());
    }
    assert(out@ =~= remove_all(s@, pattern@));
    out
}


/// Taking out every occurrence of `p` from `p + s` gives what it gives on `s`.
pub proof fn lemma_remove_all_prefix(p: Seq<char>, s: Seq<char>)
    requires
        p.len() > 0,
    ensures
        remove_all(p + s, p) == remove_all(s, p),
{
    let t = p + s;
    assert(t.subrange(0, p.len() as int) =~= p);
    assert(t.skip(p.len() as int) =~= s);
}

/// A text in which `p` never occurs is left as it is.
pub proof fn lemma_remove_all_absent(s: Seq<char>, p: Seq<char>)
    requires
        forall|i: int| !occurs_at(s, p, i),
    ensures
        remove_all(s, p) == s,
    decreases s.len(),
{
    if s.len() > 0 {
        let t = s.drop_first();
        assert forall|i: int| !occurs_at(t, p, i) by {
            if occurs_at(t, p, i) {
                assert(s.subrange(i + 1, i + 1 + p.len()) =~= t.subrange(i, i + p.len()));
                assert(occurs_at(s, p, i + 1));
            }
        }
        lemma_remove_all_absent(t, p);
        assert(!occurs_at(s, p, 0));
        assert(seq![s[0]] + t =~= s);
    }
}

} // verus!
