//! Small verified text utilities: splitting rendered output into lines
//! and rebuilding strings from character vectors.

use vstd::prelude::*;
use vstd::string::StrSliceExecFns;

verus! {

/// Relies on `String`'s `FromIterator` impl: collecting characters yields
/// exactly the string of those characters, in order.
#[verifier::external_body]
pub(crate) fn chars_to_string(v: &Vec<char>) -> (r: String)
    ensures
        r@ == v@,
{
    v.iter().collect()
}

/// The segments of `s` between newline characters, in order. A string
/// without newlines is one segment; each newline ends a segment. The
/// rendered grids this is applied to never carry a trailing newline, so
/// the result agrees with Rust's `lines` on them.
pub open spec fn split_lines_spec(s: Seq<char>) -> Seq<Seq<char>>
    decreases s.len(),
{
    if s.len() == 0 {
        seq![Seq::<char>::empty()]
    } else if s[0] == '\n' {
        seq![Seq::<char>::empty()] + split_lines_spec(s.drop_first())
    } else {
        let rest = split_lines_spec(s.drop_first());
        seq![seq![s[0]] + rest[0]] + rest.drop_first()
    }
}

/// A split always yields at least one segment.
pub proof fn lemma_split_lines_nonempty(s: Seq<char>)
    ensures
        split_lines_spec(s).len() >= 1,
    decreases s.len(),
{
    if s.len() > 0 {
        lemma_split_lines_nonempty(s.drop_first());
    }
}

/// Splits a string at newline characters.
pub fn split_lines(s: &str) -> (r: Vec<Vec<char>>)
    ensures
        r.deep_view() == split_lines_spec(s@),
{
    let n = s.unicode_len();
    let mut done: Vec<Vec<char>> = Vec::new();
    let mut cur: Vec<char> = Vec::new();
    let mut i: usize = 0;
    proof {
        lemma_split_lines_nonempty(s@);
        assert(s@.skip(0) =~= s@);
        assert(done.deep_view() + seq![cur@ + split_lines_spec(s@.skip(0))[0]]
            + split_lines_spec(s@.skip(0)).drop_first() =~= split_lines_spec(s@));
    }
    while i < n
        invariant
            n == s@.len(),
            i <= n,
            split_lines_spec(s@) == done.deep_view() + seq![
                cur@ + split_lines_spec(s@.skip(i as int))[0],
            ] + split_lines_spec(s@.skip(i as int)).drop_first(),
        decreases n - i,
    {
        let ghost t = s@.skip(i as int);
        let ghost t2 = s@.skip(i as int + 1);
        let c = s.get_char(i);
        proof {
            assert(t.len() > 0 && t[0] == s@[i as int]);
            assert(t.drop_first() =~= t2);
            lemma_split_lines_nonempty(t2);
        }
        if c == '\n' {
            proof {
                assert(split_lines_spec(t) =~= seq![Seq::<char>::empty()] + split_lines_spec(t2));
                assert(split_lines_spec(t)[0] =~= Seq::<char>::empty());
                assert(split_lines_spec(t).drop_first() =~= split_lines_spec(t2));
                assert(cur@ + Seq::<char>::empty() =~= cur@);
                assert(split_lines_spec(t2) =~= seq![split_lines_spec(t2)[0]] + split_lines_spec(
                    t2,
                ).drop_first());
            }
            let ghost old_done = done.deep_view();
            let ghost cur_v = cur@;
            proof {
                assert(cur.deep_view() =~= cur_v);
            }
            done.push(cur);
            proof {
                assert(done.deep_view() =~= old_done.push(cur_v));
                assert(old_done.push(cur_v) =~= old_done + seq![cur_v]);
            }
            cur = Vec::new();
            proof {
                assert(split_lines_spec(s@) =~= done.deep_view() + seq![
                    cur@ + split_lines_spec(t2)[0],
                ] + split_lines_spec(t2).drop_first());
            }
        } else {
            proof {
                let rest = split_lines_spec(t2);
                assert(split_lines_spec(t) =~= seq![seq![t[0]] + rest[0]] + rest.drop_first());
                assert(cur@ + (seq![t[0]] + rest[0]) =~= cur@.push(t[0]) + rest[0]);
            }
            cur.push(c);
            proof {
                assert(split_lines_spec(s@) =~= done.deep_view() + seq![
                    cur@ + split_lines_spec(t2)[0],
                ] + split_lines_spec(t2).drop_first());
            }
        }
        i = i + 1;
    }
    proof {
        assert(s@.skip(n as int) =~= Seq::<char>::empty());
        assert(split_lines_spec(Seq::<char>::empty()) =~= seq![Seq::<char>::empty()]);
        assert(cur@ + Seq::<char>::empty() =~= cur@);
        assert(split_lines_spec(s@) =~= done.deep_view() + seq![cur@]);
    }
    let ghost old_done = done.deep_view();
    let ghost cur_v = cur@;
    proof {
        assert(cur.deep_view() =~= cur_v);
    }
    done.push(cur);
    proof {
        assert(done.deep_view() =~= old_done.push(cur_v));
        assert(old_done + seq![cur_v] =~= old_done.push(cur_v));
        assert(done.deep_view() =~= split_lines_spec(s@));
    }
    done
}

} // verus!
