use vstd::prelude::*;

verus! {

/// Index of the first `'\n'` in `s`, or `s.len()` if there is none.
pub open spec fn first_newline(s: Seq<char>) -> int
    decreases s.len(),
{
    if s.len() == 0 {
        0
    } else if s[0] == '\n' {
        0
    } else {
        1 + first_newline(s.subrange(1, s.len() as int))
    }
}

/// The newline-separated lines of `s`, in order: each `'\n'` ends a line,
/// and a final segment without a terminating `'\n'` is still a line.  The
/// empty body has no lines at all, so a body consisting of a lone `'\n'`
/// yields one empty line while `""` yields none.
pub open spec fn split_lines_spec(s: Seq<char>) -> Seq<Seq<char>>
    decreases s.len(),
{
    if s.len() == 0 {
        Seq::empty()
    } else {
        let k = first_newline(s);
        if 0 <= k < s.len() && s[k] == '\n' {
            seq![s.subrange(0, k)] + split_lines_spec(s.subrange(k + 1, s.len() as int))
        } else {
            seq![s]
        }
    }
}

/// The concatenation of a list of lines, with nothing between them.
pub open spec fn join_lines(lines: Seq<Seq<char>>) -> Seq<char>
    decreases lines.len(),
{
    if lines.len() == 0 {
        Seq::empty()
    } else {
        lines[0] + join_lines(lines.subrange(1, lines.len() as int))
    }
}

/// `first_newline` is pinned by its characterisation: no newline before `k`,
/// and either `k` is past the end or a newline stands at `k`.
pub proof fn lemma_first_newline_is(s: Seq<char>, k: int)
    requires
        0 <= k <= s.len(),
        forall|j: int| 0 <= j < k ==> s[j] != '\n',
        k < s.len() ==> s[k] == '\n',
    ensures
        first_newline(s) == k,
    decreases k,
{
    if k == 0 {
    } else {
        let t = s.subrange(1, s.len() as int);
        assert forall|j: int| 0 <= j < k - 1 implies t[j] != '\n' by {
            assert(t[j] == s[j + 1]);
        }
        if k - 1 < t.len() {
            assert(t[k - 1] == s[k]);
        }
        lemma_first_newline_is(t, k - 1);
    }
}

/// Splitting off the first line: if the first newline of `s` stands at `k`,
/// the lines of `s` are `s[..k]` followed by the lines of `s[k+1..]`.
pub proof fn lemma_split_lines_step(s: Seq<char>, k: int)
    requires
        0 <= k < s.len(),
        s[k] == '\n',
        forall|j: int| 0 <= j < k ==> s[j] != '\n',
    ensures
        split_lines_spec(s) == seq![s.subrange(0, k)] + split_lines_spec(
            s.subrange(k + 1, s.len() as int),
        ),
{
    lemma_first_newline_is(s, k);
}

/// A non-empty body without any newline is a single line.
pub proof fn lemma_split_lines_whole(s: Seq<char>)
    requires
        s.len() > 0,
        forall|j: int| 0 <= j < s.len() ==> s[j] != '\n',
    ensures
        split_lines_spec(s) == seq![s],
{
    lemma_first_newline_is(s, s.len() as int);
}

pub proof fn lemma_join_lines_push(lines: Seq<Seq<char>>, x: Seq<char>)
    ensures
        join_lines(lines.push(x)) == join_lines(lines) + x,
    decreases lines.len(),
{
    if lines.len() == 0 {
        assert(lines.push(x) =~= seq![x]);
        assert(seq![x].subrange(1, 1) =~= Seq::<Seq<char>>::empty());
        assert(join_lines(Seq::<Seq<char>>::empty()) == Seq::<char>::empty());
        assert(join_lines(seq![x]) == seq![x][0] + join_lines(seq![x].subrange(1, 1)));
        assert(seq![x][0] == x);
        assert(x + Seq::<char>::empty() =~= x);
        assert(Seq::<char>::empty() + x =~= x);
    } else {
        let rest = lines.subrange(1, lines.len() as int);
        assert(lines.push(x).subrange(1, lines.push(x).len() as int) =~= rest.push(x));
        lemma_join_lines_push(rest, x);
        assert(lines.push(x)[0] == lines[0]);
        assert(join_lines(lines.push(x)) == lines[0] + (join_lines(rest) + x));
        assert(lines[0] + (join_lines(rest) + x) =~= (lines[0] + join_lines(rest)) + x);
    }
}

/// Splits `s` on newlines, one entry per line, order preserved, no
/// trimming and no dedup.
pub fn split_lines(s: &str) -> (r: Vec<String>)
    ensures
        r.deep_view() == split_lines_spec(s@),
{
    let len = s.unicode_len();
    let mut r: Vec<String> = Vec::new();
    let mut start: usize = 0;
    let mut i: usize = 0;
    proof {
        assert(s@.subrange(0, len as int) =~= s@);
        assert(r.deep_view() =~= Seq::<Seq<char>>::empty());
        assert(r.deep_view() + split_lines_spec(s@) =~= split_lines_spec(s@));
    }
    while i < len
        invariant
            start <= i <= len,
            len == s@.len(),
            forall|j: int| start <= j < i ==> s@[j] != '\n',
            r.deep_view() + split_lines_spec(s@.subrange(start as int, len as int))
                == split_lines_spec(s@),
        decreases len - i,
    {
        let c = s.get_char(i);
        if c == '\n' {
            let line = s.substring_char(start, i);
            let ghost old_r = r.deep_view();
            r.push(String::from_str(line));
            proof {
                let rest = s@.subrange(start as int, len as int);
                assert forall|j: int| 0 <= j < i - start implies rest[j] != '\n' by {
                    assert(rest[j] == s@[start + j]);
                }
                assert(rest[i - start] == s@[i as int]);
                lemma_split_lines_step(rest, i - start);
                assert(rest.subrange(0, i - start) =~= s@.subrange(start as int, i as int));
                assert(rest.subrange(i - start + 1, rest.len() as int) =~= s@.subrange(
                    i + 1,
                    len as int,
                ));
                assert(r.deep_view() =~= old_r.push(line@));
                assert(old_r.push(line@) + split_lines_spec(s@.subrange(i + 1, len as int))
                    =~= old_r + (seq![line@] + split_lines_spec(s@.subrange(i + 1, len as int))));
            }
            start = i + 1;
        }
        i = i + 1;
    }
    if start < len {
        let line = s.substring_char(start, len);
        let ghost old_r = r.deep_view();
        r.push(String::from_str(line));
        proof {
            let rest = s@.subrange(start as int, len as int);
            assert forall|j: int| 0 <= j < rest.len() implies rest[j] != '\n' by {
                assert(rest[j] == s@[start + j]);
            }
            lemma_split_lines_whole(rest);
            assert(r.deep_view() =~= old_r.push(line@));
            assert(old_r.push(line@) =~= old_r + seq![line@]);
        }
    } else {
        proof {
            assert(s@.subrange(start as int, len as int) =~= Seq::<char>::empty());
            assert(r.deep_view() + split_lines_spec(Seq::<char>::empty()) =~= r.deep_view());
        }
    }
    r
}

/// Concatenates a list of lines back into one string, with nothing between
/// them.
pub fn concat_lines(lines: &Vec<String>) -> (r: String)
    ensures
        r@ == join_lines(lines.deep_view()),
{
    let mut r = String::new();
    let mut i: usize = 0;
    while i < lines.len()
        invariant
            i <= lines.len(),
            r@ == join_lines(lines.deep_view().take(i as int)),
        decreases lines.len() - i,
    {
        r.append(lines[i].as_str());
        proof {
            let dv = lines.deep_view();
            assert(dv.take(i + 1) =~= dv.take(i as int).push(dv[i as int]));
            lemma_join_lines_push(dv.take(i as int), dv[i as int]);
        }
        i = i + 1;
    }
    proof {
        assert(lines.deep_view().take(lines.len() as int) =~= lines.deep_view());
    }
    r
}

} // verus!
