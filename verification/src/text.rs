//! Character-level text operations the renderer needs: substitution of every
//! occurrence of a placeholder token, and trimming of trailing characters.
//! Both are specified over character sequences and proved exact.

use vstd::prelude::*;
use vstd::string::*;

verus! {

/// `s` with every occurrence of `pat` replaced by `to`: occurrences are found
/// left to right and do not overlap. An empty `pat` matches nowhere.
pub open spec fn replaced(s: Seq<char>, pat: Seq<char>, to: Seq<char>) -> Seq<char>
    decreases s.len(),
{
    if pat.len() == 0 || s.len() < pat.len() {
        s
    } else if s.subrange(0, pat.len() as int) == pat {
        to + replaced(s.skip(pat.len() as int), pat, to)
    } else {
        seq![s[0]] + replaced(s.skip(1), pat, to)
    }
}

/// `s` without its trailing run of `c` characters.
pub open spec fn trimmed_end(s: Seq<char>, c: char) -> Seq<char>
    decreases s.len(),
{
    if s.len() > 0 && s.last() == c {
        trimmed_end(s.drop_last(), c)
    } else {
        s
    }
}

/// Whether `pat` occurs in `s` starting at character position `i`.
fn occurs_at(s: &str, pat: &str, i: usize) -> (r: bool)
    requires
        i + pat@.len() <= s@.len(),
        s@.len() <= usize::MAX,
    ensures
        r == (s@.subrange(i as int, i as int + pat@.len() as int) == pat@),
{
    let m = pat.unicode_len();
    let mut j: usize = 0;
    while j < m
        invariant
            j <= m,
            m == pat@.len(),
            i + m <= s@.len() <= usize::MAX,
            forall|k: int| 0 <= k < j ==> s@[i + k] == pat@[k],
        decreases m - j,
    {
        if s.get_char(i + j) != pat.get_char(j) {
            proof {
                assert(s@.subrange(i as int, i as int + m as int)[j as int] == s@[i + j]);
            }
            return false;
        }
        j = j + 1;
    }
    proof {
        assert(s@.subrange(i as int, i as int + m as int) =~= pat@);
    }
    true
}

/// `s` with every occurrence of `pat` replaced by `to`, scanning left to
/// right over non-overlapping occurrences.
pub fn replace_all(s: &str, pat: &str, to: &str) -> (r: String)
    requires
        pat@.len() > 0,
    ensures
        r@ == replaced(s@, pat@, to@),
{
    let n = s.unicode_len();
    let m = pat.unicode_len();
    let mut out = String::new();
    let mut i: usize = 0;
    proof {
        assert(s@.skip(0) =~= s@);
    }
    while i < n
        invariant
            i <= n,
            n == s@.len(),
            m == pat@.len(),
            pat@.len() > 0,
            replaced(s@, pat@, to@) == out@ + replaced(s@.skip(i as int), pat@, to@),
        decreases n - i,
    {
        if m <= n - i && occurs_at(s, pat, i) {
            out.append(to);
            proof {
                let rest = s@.skip(i as int);
                assert(rest.subrange(0, m as int) =~= s@.subrange(
                    i as int,
                    i as int + m as int,
                ));
                assert(rest.skip(m as int) =~= s@.skip(i as int + m as int));
                assert(replaced(rest, pat@, to@) == to@ + replaced(
                    s@.skip(i as int + m as int),
                    pat@,
                    to@,
                ));
            }
            i = i + m;
        } else {
            let ch = s.substring_char(i, i + 1);
            out.append(ch);
            proof {
                let rest = s@.skip(i as int);
                assert(rest.len() > 0);
                if m <= n - i {
                    assert(rest.subrange(0, m as int) =~= s@.subrange(
                        i as int,
                        i as int + m as int,
                    ));
                    assert(rest.subrange(0, m as int) != pat@);
                }
                assert(rest.skip(1) =~= s@.skip(i as int + 1));
                assert(seq![rest[0]] =~= ch@);
                if rest.len() < m {
                    assert(replaced(rest, pat@, to@) == rest);
                    assert(replaced(s@.skip(i as int + 1), pat@, to@) == s@.skip(i as int + 1));
                    assert(rest =~= ch@ + s@.skip(i as int + 1));
                } else {
                    assert(replaced(rest, pat@, to@) == seq![rest[0]] + replaced(
                        rest.skip(1),
                        pat@,
                        to@,
                    ));
                }
            }
            i = i + 1;
        }
    }
    proof {
        assert(s@.skip(n as int) =~= Seq::<char>::empty());
        assert(replaced(s@.skip(n as int), pat@, to@) =~= Seq::<char>::empty());
        assert(out@ =~= out@ + Seq::<char>::empty());
    }
    out
}

/// The longest prefix of `s` without the trailing run of `c` characters.
pub fn trim_end_matching<'a>(s: &'a str, c: char) -> (r: &'a str)
    ensures
        r@ == trimmed_end(s@, c),
{
    let mut end = s.unicode_len();
    proof {
        assert(s@.subrange(0, end as int) =~= s@);
    }
    while end > 0 && s.get_char(end - 1) == c
        invariant
            end <= s@.len(),
            trimmed_end(s@, c) == trimmed_end(s@.subrange(0, end as int), c),
        decreases end,
    {
        proof {
            let cur = s@.subrange(0, end as int);
            assert(cur.last() == c);
            assert(cur.drop_last() =~= s@.subrange(0, end - 1));
        }
        end = end - 1;
    }
    proof {
        let cur = s@.subrange(0, end as int);
        if end > 0 {
            assert(cur.last() == s@[end - 1]);
        }
        assert(trimmed_end(cur, c) == cur);
    }
    s.substring_char(0, end)
}

} // verus!
