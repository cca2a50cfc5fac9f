//! Character-level text utilities.
//!
//! The commands in this crate read line-oriented output of developer tools
//! (`cargo`, `git`, `find`). Everything they need from that text — trimming,
//! splitting into lines and tokens, joining argument lists — is defined here,
//! each executable function against a spec function over `Seq<char>`.
//!
//! Whitespace here means the ASCII whitespace characters (space, tab,
//! carriage return, line feed, vertical tab and form feed): the tool output
//! these functions are applied to is ASCII.

use vstd::prelude::*;
use vstd::string::StrSliceExecFns;
use vstd::string::StringExecFns;

verus! {

/// The ASCII whitespace characters.
pub open spec fn is_ascii_space(c: char) -> bool {
    c == ' ' || c == '\t' || c == '\n' || c == '\r' || c == '\u{b}' || c == '\u{c}'
}

/// Executable check for [`is_ascii_space`].
pub fn is_space(c: char) -> (r: bool)
    ensures
        r == is_ascii_space(c),
{
    c == ' ' || c == '\t' || c == '\n' || c == '\r' || c == '\u{b}' || c == '\u{c}'
}

/// The string without its leading ASCII whitespace.
pub open spec fn trim_start_spec(s: Seq<char>) -> Seq<char>
    decreases s.len(),
{
    if s.len() == 0 {
        s
    } else if is_ascii_space(s.first()) {
        trim_start_spec(s.drop_first())
    } else {
        s
    }
}

/// The string without its trailing ASCII whitespace.
pub open spec fn trim_end_spec(s: Seq<char>) -> Seq<char>
    decreases s.len(),
{
    if s.len() == 0 {
        s
    } else if is_ascii_space(s.last()) {
        trim_end_spec(s.drop_last())
    } else {
        s
    }
}

/// The string without leading and trailing ASCII whitespace.
pub open spec fn trim_spec(s: Seq<char>) -> Seq<char> {
    trim_end_spec(trim_start_spec(s))
}

proof fn lemma_trim_start_skip_step(s: Seq<char>, i: int)
    requires
        0 <= i < s.len(),
        is_ascii_space(s[i]),
    ensures
        trim_start_spec(s.subrange(i, s.len() as int)) == trim_start_spec(
            s.subrange(i + 1, s.len() as int),
        ),
{
    let t = s.subrange(i, s.len() as int);
    assert(t.len() > 0);
    assert(t.first() == s[i]);
    assert(t.drop_first() =~= s.subrange(i + 1, s.len() as int));
}

proof fn lemma_trim_end_subrange_step(s: Seq<char>, i: int, j: int)
    requires
        0 <= i < j <= s.len(),
        is_ascii_space(s[j - 1]),
    ensures
        trim_end_spec(s.subrange(i, j)) == trim_end_spec(s.subrange(i, j - 1)),
{
    let t = s.subrange(i, j);
    assert(t.len() > 0);
    assert(t.last() == s[j - 1]);
    assert(t.drop_last() =~= s.subrange(i, j - 1));
}

/// The string with leading and trailing ASCII whitespace removed.
pub fn trim(s: &str) -> (r: String)
    ensures
        r@ == trim_spec(s@),
{
    let len = s.unicode_len();
    assert(s@.subrange(0, len as int) =~= s@);
    let mut start: usize = 0;
    while start < len && is_space(s.get_char(start))
        invariant
            len == s@.len(),
            0 <= start <= len,
            trim_start_spec(s@) == trim_start_spec(s@.subrange(start as int, len as int)),
        decreases len - start,
    {
        proof {
            lemma_trim_start_skip_step(s@, start as int);
        }
        start = start + 1;
    }
    assert(trim_start_spec(s@) == s@.subrange(start as int, len as int));
    let mut end: usize = len;
    while end > start && is_space(s.get_char(end - 1))
        invariant
            len == s@.len(),
            0 <= start <= end <= len,
            trim_end_spec(s@.subrange(start as int, len as int)) == trim_end_spec(
                s@.subrange(start as int, end as int),
            ),
        decreases end,
    {
        proof {
            lemma_trim_end_subrange_step(s@, start as int, end as int);
        }
        end = end - 1;
    }
    let sub = s.substring_char(start, end);
    String::from_str(sub)
}

/// `split_spec` unrolled with an accumulator: the pieces of `s` between
/// occurrences of `sep`, the first piece continuing `cur`.
pub open spec fn split_rec(s: Seq<char>, sep: char, cur: Seq<char>) -> Seq<Seq<char>>
    decreases s.len(),
{
    if s.len() == 0 {
        seq![cur]
    } else if s.first() == sep {
        seq![cur] + split_rec(s.drop_first(), sep, Seq::empty())
    } else {
        split_rec(s.drop_first(), sep, cur.push(s.first()))
    }
}

/// The pieces of `s` between occurrences of `sep`. Always at least one piece;
/// a separator at either end or two adjacent separators yield empty pieces.
pub open spec fn split_spec(s: Seq<char>, sep: char) -> Seq<Seq<char>> {
    split_rec(s, sep, Seq::empty())
}

proof fn lemma_split_rec_len(s: Seq<char>, sep: char, cur: Seq<char>)
    ensures
        split_rec(s, sep, cur).len() >= 1,
    decreases s.len(),
{
    if s.len() != 0 {
        if s.first() == sep {
            lemma_split_rec_len(s.drop_first(), sep, Seq::empty());
        } else {
            lemma_split_rec_len(s.drop_first(), sep, cur.push(s.first()));
        }
    }
}

proof fn lemma_join_split_rec(s: Seq<char>, sep: char, cur: Seq<char>)
    ensures
        join_spec(split_rec(s, sep, cur), seq![sep]) == cur + s,
    decreases s.len(),
{
    if s.len() == 0 {
        assert(join_spec(seq![cur], seq![sep]) == cur);
        assert(cur + s =~= cur);
    } else if s.first() == sep {
        lemma_join_split_rec(s.drop_first(), sep, Seq::empty());
        lemma_split_rec_len(s.drop_first(), sep, Seq::empty());
        let parts = seq![cur] + split_rec(s.drop_first(), sep, Seq::empty());
        assert(parts.len() >= 2);
        assert(parts.first() == cur);
        assert(parts.drop_first() =~= split_rec(s.drop_first(), sep, Seq::empty()));
        assert(Seq::<char>::empty() + s.drop_first() =~= s.drop_first());
        assert(cur + seq![sep] + s.drop_first() =~= cur + s);
    } else {
        lemma_join_split_rec(s.drop_first(), sep, cur.push(s.first()));
        assert(cur.push(s.first()) + s.drop_first() =~= cur + s);
    }
}

/// Splitting on a separator loses nothing: joining the pieces with that same
/// separator gives the string back, for every string and every separator.
pub proof fn lemma_join_split_round_trip(s: Seq<char>, sep: char)
    ensures
        join_spec(split_spec(s, sep), seq![sep]) == s,
{
    lemma_join_split_rec(s, sep, Seq::empty());
    assert(Seq::<char>::empty() + s =~= s);
}

proof fn lemma_trim_start_shape(s: Seq<char>)
    ensures
        trim_start_spec(s).len() == 0 || !is_ascii_space(trim_start_spec(s).first()),
        trim_start_spec(s).len() <= s.len(),
        trim_start_spec(s).len() > 0 ==> trim_start_spec(s).last() == s.last(),
    decreases s.len(),
{
    if s.len() > 0 && is_ascii_space(s.first()) {
        lemma_trim_start_shape(s.drop_first());
        if trim_start_spec(s).len() > 0 {
            assert(s.drop_first().last() == s.last());
        }
    }
}

proof fn lemma_trim_end_shape(s: Seq<char>)
    ensures
        trim_end_spec(s).len() == 0 || !is_ascii_space(trim_end_spec(s).last()),
        trim_end_spec(s).len() <= s.len(),
        trim_end_spec(s).len() > 0 ==> trim_end_spec(s).first() == s.first(),
    decreases s.len(),
{
    if s.len() > 0 && is_ascii_space(s.last()) {
        lemma_trim_end_shape(s.drop_last());
        if trim_end_spec(s).len() > 0 {
            assert(s.drop_last().first() == s.first());
        }
    }
}

proof fn lemma_trim_fixed_point(s: Seq<char>)
    requires
        s.len() == 0 || !is_ascii_space(s.first()),
        s.len() == 0 || !is_ascii_space(s.last()),
    ensures
        trim_spec(s) == s,
{
    if s.len() == 0 {
        assert(trim_start_spec(s) == s);
        assert(trim_end_spec(s) == s);
    } else {
        assert(trim_start_spec(s) == s);
        assert(trim_end_spec(s) == s);
    }
}

/// Trimming is idempotent: a trimmed string is not changed by trimming it
/// again, for every string.
pub proof fn lemma_trim_idempotent(s: Seq<char>)
    ensures
        trim_spec(trim_spec(s)) == trim_spec(s),
{
    let t = trim_start_spec(s);
    lemma_trim_start_shape(s);
    lemma_trim_end_shape(t);
    if trim_spec(s).len() > 0 {
        assert(trim_spec(s).first() == t.first());
        assert(!is_ascii_space(trim_spec(s).first()));
    }
    lemma_trim_fixed_point(trim_spec(s));
}

/// The views of a sequence of owned strings.
pub open spec fn views_of(v: Seq<String>) -> Seq<Seq<char>> {
    v.map_values(|t: String| t@)
}

proof fn lemma_views_of_push(v: Seq<String>, x: String)
    ensures
        views_of(v.push(x)) == views_of(v).push(x@),
{
    assert(views_of(v.push(x)) =~= views_of(v).push(x@));
}

/// The pieces of `s` between occurrences of the character `sep`, in order.
pub fn split_char(s: &str, sep: char) -> (r: Vec<String>)
    ensures
        r.deep_view() == split_spec(s@, sep),
        r.len() >= 1,
{
    let len = s.unicode_len();
    assert(s@.subrange(0, len as int) =~= s@);
    let mut done: Vec<String> = Vec::new();
    let mut cur: String = String::new();
    let mut i: usize = 0;
    while i < len
        invariant
            len == s@.len(),
            0 <= i <= len,
            split_spec(s@, sep) == views_of(done@) + split_rec(
                s@.subrange(i as int, len as int),
                sep,
                cur@,
            ),
        decreases len - i,
    {
        let ghost rest = s@.subrange(i as int, len as int);
        let ghost old_done = done@;
        let ghost old_cur = cur@;
        proof {
            assert(rest.first() == s@[i as int]);
            assert(rest.drop_first() =~= s@.subrange(i + 1, len as int));
        }
        let c = s.get_char(i);
        if c == sep {
            done.push(cur);
            cur = String::new();
            proof {
                lemma_views_of_push(old_done, done@[done@.len() - 1]);
                assert(views_of(old_done) + (seq![old_cur] + split_rec(
                    rest.drop_first(),
                    sep,
                    Seq::empty(),
                )) =~= views_of(old_done).push(old_cur) + split_rec(
                    rest.drop_first(),
                    sep,
                    Seq::empty(),
                ));
            }
        } else {
            let piece = s.substring_char(i, i + 1);
            proof {
                assert(piece@ =~= seq![s@[i as int]]);
            }
            cur.append(piece);
            proof {
                assert(cur@ =~= old_cur.push(s@[i as int]));
            }
        }
        i = i + 1;
    }
    assert(s@.subrange(len as int, len as int) =~= Seq::<char>::empty());
    let ghost old_done = done@;
    let ghost old_cur = cur@;
    done.push(cur);
    proof {
        lemma_views_of_push(old_done, done@[done@.len() - 1]);
        assert(views_of(old_done) + seq![old_cur] =~= views_of(old_done).push(old_cur));
        assert(done.deep_view() =~= views_of(done@));
    }
    done
}

/// A line with one trailing carriage return removed, as the `lines` splitting
/// does to a line that ended in `\r\n`.
pub open spec fn strip_cr(line: Seq<char>) -> Seq<char> {
    if line.len() > 0 && line.last() == '\r' {
        line.drop_last()
    } else {
        line
    }
}

/// The lines of `s`: pieces between `\n` characters, each stripped of one
/// trailing `\r`; a final piece after the last `\n` only when it is nonempty
/// (so a terminating newline adds no empty line). The empty string has no
/// lines.
pub open spec fn lines_spec(s: Seq<char>) -> Seq<Seq<char>> {
    if s.len() == 0 {
        Seq::empty()
    } else {
        let parts = split_spec(s, '\n');
        let init = parts.drop_last().map_values(|l: Seq<char>| strip_cr(l));
        if parts.last().len() == 0 {
            init
        } else {
            init.push(parts.last())
        }
    }
}

/// Executable form of [`strip_cr`].
pub fn strip_cr_line(line: &str) -> (r: String)
    ensures
        r@ == strip_cr(line@),
{
    let len = line.unicode_len();
    if len > 0 && line.get_char(len - 1) == '\r' {
        let sub = line.substring_char(0, len - 1);
        proof {
            assert(sub@ =~= line@.drop_last());
        }
        String::from_str(sub)
    } else {
        String::from_str(line)
    }
}

/// The lines of `s`, as [`lines_spec`] describes them.
pub fn lines(s: &str) -> (r: Vec<String>)
    ensures
        r.deep_view() == lines_spec(s@),
{
    let mut r: Vec<String> = Vec::new();
    if s.unicode_len() == 0 {
        assert(r.deep_view() =~= lines_spec(s@));
        return r;
    }
    let parts = split_char(s, '\n');
    let ghost dv = parts.deep_view();
    let n = parts.len();
    proof {
        assert(dv.len() == n);
    }
    let mut i: usize = 0;
    while i < n - 1
        invariant
            n == parts.len(),
            n >= 1,
            parts.deep_view() == dv,
            dv == split_spec(s@, '\n'),
            0 <= i <= n - 1,
            views_of(r@) == dv.subrange(0, i as int).map_values(|l: Seq<char>| strip_cr(l)),
        decreases n - 1 - i,
    {
        let ghost old_r = r@;
        let piece = strip_cr_line(parts[i].as_str());
        r.push(piece);
        proof {
            lemma_views_of_push(old_r, r@[r@.len() - 1]);
            assert(dv.subrange(0, i + 1) =~= dv.subrange(0, i as int).push(dv[i as int]));
            assert(dv.subrange(0, i + 1).map_values(|l: Seq<char>| strip_cr(l)) =~= dv.subrange(
                0,
                i as int,
            ).map_values(|l: Seq<char>| strip_cr(l)).push(strip_cr(dv[i as int])));
        }
        i = i + 1;
    }
    proof {
        assert(dv.subrange(0, n - 1) =~= dv.drop_last());
    }
    let last = &parts[n - 1];
    if last.as_str().unicode_len() > 0 {
        let ghost old_r = r@;
        r.push(last.clone());
        proof {
            lemma_views_of_push(old_r, r@[r@.len() - 1]);
        }
    }
    proof {
        assert(r.deep_view() =~= views_of(r@));
    }
    r
}

/// `split_whitespace_spec` unrolled with an accumulator: the maximal runs of
/// non-whitespace characters, the first run continuing `cur`.
pub open spec fn split_ws_rec(s: Seq<char>, cur: Seq<char>) -> Seq<Seq<char>>
    decreases s.len(),
{
    if s.len() == 0 {
        if cur.len() == 0 {
            Seq::empty()
        } else {
            seq![cur]
        }
    } else if is_ascii_space(s.first()) {
        if cur.len() == 0 {
            split_ws_rec(s.drop_first(), Seq::empty())
        } else {
            seq![cur] + split_ws_rec(s.drop_first(), Seq::empty())
        }
    } else {
        split_ws_rec(s.drop_first(), cur.push(s.first()))
    }
}

/// The whitespace-separated tokens of `s`: maximal nonempty runs of
/// non-whitespace characters, in order.
pub open spec fn split_whitespace_spec(s: Seq<char>) -> Seq<Seq<char>> {
    split_ws_rec(s, Seq::empty())
}

/// The whitespace-separated tokens of `s`, as [`split_whitespace_spec`]
/// describes them.
pub fn split_whitespace(s: &str) -> (r: Vec<String>)
    ensures
        r.deep_view() == split_whitespace_spec(s@),
{
    let len = s.unicode_len();
    assert(s@.subrange(0, len as int) =~= s@);
    let mut done: Vec<String> = Vec::new();
    let mut cur: String = String::new();
    let mut i: usize = 0;
    while i < len
        invariant
            len == s@.len(),
            0 <= i <= len,
            split_whitespace_spec(s@) == views_of(done@) + split_ws_rec(
                s@.subrange(i as int, len as int),
                cur@,
            ),
        decreases len - i,
    {
        let ghost rest = s@.subrange(i as int, len as int);
        let ghost old_done = done@;
        let ghost old_cur = cur@;
        proof {
            assert(rest.first() == s@[i as int]);
            assert(rest.drop_first() =~= s@.subrange(i + 1, len as int));
        }
        let c = s.get_char(i);
        if is_space(c) {
            if cur.as_str().unicode_len() > 0 {
                done.push(cur);
                cur = String::new();
                proof {
                    lemma_views_of_push(old_done, done@[done@.len() - 1]);
                    assert(views_of(old_done) + (seq![old_cur] + split_ws_rec(
                        rest.drop_first(),
                        Seq::empty(),
                    )) =~= views_of(old_done).push(old_cur) + split_ws_rec(
                        rest.drop_first(),
                        Seq::empty(),
                    ));
                }
            } else {
                proof {
                    assert(old_cur =~= Seq::<char>::empty());
                }
            }
        } else {
            let piece = s.substring_char(i, i + 1);
            proof {
                assert(piece@ =~= seq![s@[i as int]]);
            }
            cur.append(piece);
            proof {
                assert(cur@ =~= old_cur.push(s@[i as int]));
            }
        }
        i = i + 1;
    }
    assert(s@.subrange(len as int, len as int) =~= Seq::<char>::empty());
    if cur.as_str().unicode_len() > 0 {
        let ghost old_done = done@;
        let ghost old_cur = cur@;
        done.push(cur);
        proof {
            lemma_views_of_push(old_done, done@[done@.len() - 1]);
            assert(views_of(old_done) + seq![old_cur] =~= views_of(old_done).push(old_cur));
        }
    } else {
        assert(views_of(done@) + Seq::<Seq<char>>::empty() =~= views_of(done@));
    }
    proof {
        assert(done.deep_view() =~= views_of(done@));
    }
    done
}

/// The pieces concatenated, with `sep` between each adjacent pair.
pub open spec fn join_spec(parts: Seq<Seq<char>>, sep: Seq<char>) -> Seq<char>
    decreases parts.len(),
{
    if parts.len() == 0 {
        Seq::empty()
    } else if parts.len() == 1 {
        parts.first()
    } else {
        parts.first() + sep + join_spec(parts.drop_first(), sep)
    }
}

pub proof fn lemma_join_push(t: Seq<Seq<char>>, x: Seq<char>, sep: Seq<char>)
    ensures
        join_spec(t.push(x), sep) == if t.len() == 0 {
            x
        } else {
            join_spec(t, sep) + sep + x
        },
    decreases t.len(),
{
    if t.len() == 0 {
        assert(t.push(x).len() == 1);
        assert(t.push(x).first() == x);
    } else if t.len() == 1 {
        assert(t.push(x).drop_first() =~= seq![x]);
        assert(join_spec(seq![x], sep) == x);
        assert(t.push(x).first() == t.first());
    } else {
        lemma_join_push(t.drop_first(), x, sep);
        assert(t.push(x).drop_first() =~= t.drop_first().push(x));
        assert(t.push(x).first() == t.first());
        assert(t.first() + sep + (join_spec(t.drop_first(), sep) + sep + x) =~= (t.first() + sep
            + join_spec(t.drop_first(), sep)) + sep + x);
    }
}

/// The strings joined with `sep` between each adjacent pair.
pub fn join(parts: &Vec<String>, sep: &str) -> (r: String)
    ensures
        r@ == join_spec(parts.deep_view(), sep@),
{
    let ghost dv = parts.deep_view();
    let mut r = String::new();
    let n = parts.len();
    proof {
        assert(dv.len() == n);
    }
    let mut i: usize = 0;
    while i < n
        invariant
            n == parts.len(),
            parts.deep_view() == dv,
            0 <= i <= n,
            r@ == join_spec(dv.subrange(0, i as int), sep@),
        decreases n - i,
    {
        if i > 0 {
            r.append(sep);
        }
        r.append(parts[i].as_str());
        proof {
            assert(dv.subrange(0, i + 1) =~= dv.subrange(0, i as int).push(dv[i as int]));
            lemma_join_push(dv.subrange(0, i as int), dv[i as int], sep@);
        }
        i = i + 1;
    }
    proof {
        assert(dv.subrange(0, n as int) =~= dv);
    }
    r
}

/// The string without leading occurrences of the character `p`.
pub open spec fn trim_start_matches_spec(s: Seq<char>, p: char) -> Seq<char>
    decreases s.len(),
{
    if s.len() > 0 && s.first() == p {
        trim_start_matches_spec(s.drop_first(), p)
    } else {
        s
    }
}

/// The string without trailing occurrences of the character `p`.
pub open spec fn trim_end_matches_spec(s: Seq<char>, p: char) -> Seq<char>
    decreases s.len(),
{
    if s.len() > 0 && s.last() == p {
        trim_end_matches_spec(s.drop_last(), p)
    } else {
        s
    }
}

/// The string with all leading occurrences of `p` removed.
pub fn trim_start_matches(s: &str, p: char) -> (r: String)
    ensures
        r@ == trim_start_matches_spec(s@, p),
{
    let len = s.unicode_len();
    assert(s@.subrange(0, len as int) =~= s@);
    let mut start: usize = 0;
    while start < len && s.get_char(start) == p
        invariant
            len == s@.len(),
            0 <= start <= len,
            trim_start_matches_spec(s@, p) == trim_start_matches_spec(
                s@.subrange(start as int, len as int),
                p,
            ),
        decreases len - start,
    {
        proof {
            let t = s@.subrange(start as int, len as int);
            assert(t.first() == s@[start as int]);
            assert(t.drop_first() =~= s@.subrange(start + 1, len as int));
        }
        start = start + 1;
    }
    let sub = s.substring_char(start, len);
    String::from_str(sub)
}

/// The string with all trailing occurrences of `p` removed.
pub fn trim_end_matches(s: &str, p: char) -> (r: String)
    ensures
        r@ == trim_end_matches_spec(s@, p),
{
    let len = s.unicode_len();
    assert(s@.subrange(0, len as int) =~= s@);
    let mut end: usize = len;
    while end > 0 && s.get_char(end - 1) == p
        invariant
            len == s@.len(),
            0 <= end <= len,
            trim_end_matches_spec(s@, p) == trim_end_matches_spec(s@.subrange(0, end as int), p),
        decreases end,
    {
        proof {
            let t = s@.subrange(0, end as int);
            assert(t.last() == s@[end - 1]);
            assert(t.drop_last() =~= s@.subrange(0, end - 1));
        }
        end = end - 1;
    }
    let sub = s.substring_char(0, end);
    String::from_str(sub)
}

/// `n` space characters.
pub open spec fn spaces(n: nat) -> Seq<char> {
    Seq::new(n, |i: int| ' ')
}

/// A string of `n` spaces.
pub fn repeat_spaces(n: usize) -> (r: String)
    ensures
        r@ == spaces(n as nat),
{
    proof {
        reveal_strlit(" ");
    }
    let mut r = String::new();
    let mut i: usize = 0;
    assert(r@ =~= spaces(0));
    while i < n
        invariant
            0 <= i <= n,
            r@ == spaces(i as nat),
        decreases n - i,
    {
        r.append(" ");
        proof {
            reveal_strlit(" ");
            assert(r@ =~= spaces((i + 1) as nat));
        }
        i = i + 1;
    }
    r
}

/// The last line of the given lines that is nonblank once trimmed, itself
/// trimmed; `None` when every line is blank.
pub open spec fn last_nonblank_line_rec(ls: Seq<Seq<char>>) -> Option<Seq<char>>
    decreases ls.len(),
{
    if ls.len() == 0 {
        None
    } else if trim_spec(ls.last()).len() > 0 {
        Some(trim_spec(ls.last()))
    } else {
        last_nonblank_line_rec(ls.drop_last())
    }
}

/// The last nonblank line of `s`, trimmed; `None` when `s` has none.
pub open spec fn last_nonblank_trimmed_line_spec(s: Seq<char>) -> Option<Seq<char>> {
    last_nonblank_line_rec(lines_spec(s))
}

/// The last nonblank line of `s`, trimmed, as
/// [`last_nonblank_trimmed_line_spec`] describes.
pub fn last_nonblank_trimmed_line(s: &str) -> (r: Option<String>)
    ensures
        r.deep_view() == last_nonblank_trimmed_line_spec(s@),
{
    let ls = lines(s);
    let ghost dv = ls.deep_view();
    let n = ls.len();
    proof {
        assert(dv.len() == n);
        assert(dv.subrange(0, n as int) =~= dv);
    }
    let mut j: usize = n;
    while j > 0
        invariant
            n == ls.len(),
            ls.deep_view() == dv,
            dv == lines_spec(s@),
            0 <= j <= n,
            last_nonblank_line_rec(dv) == last_nonblank_line_rec(dv.subrange(0, j as int)),
        decreases j,
    {
        proof {
            assert(dv.subrange(0, j as int).last() == dv[j - 1]);
            assert(dv.subrange(0, j as int).drop_last() =~= dv.subrange(0, j - 1));
        }
        let t = trim(ls[j - 1].as_str());
        if t.as_str().unicode_len() > 0 {
            return Some(t);
        }
        j = j - 1;
    }
    proof {
        assert(dv.subrange(0, n as int) =~= dv);
        assert(dv.subrange(0, 0) =~= Seq::<Seq<char>>::empty());
    }
    None
}

/// The final segment of a path string: what follows the last `/`, or the
/// whole string when there is no `/`; `None` when that segment is empty (an
/// empty path, or a path ending in `/`).
pub open spec fn path_file_name_spec(s: Seq<char>) -> Option<Seq<char>> {
    let parts = split_spec(s, '/');
    if parts.last().len() == 0 {
        None
    } else {
        Some(parts.last())
    }
}

/// The final segment of a path string, as [`path_file_name_spec`] describes.
pub fn path_file_name(s: &str) -> (r: Option<String>)
    ensures
        r.deep_view() == path_file_name_spec(s@),
{
    let mut parts = split_char(s, '/');
    let ghost dv = parts.deep_view();
    proof {
        assert(dv[dv.len() - 1] == dv.last());
    }
    match parts.pop() {
        Some(last) => {
            if last.as_str().unicode_len() == 0 {
                None
            } else {
                Some(last)
            }
        },
        None => {
            proof {
                assert(dv.len() >= 1);
                assert(false);
            }
            None
        },
    }
}

/// The stem of a file name: the part before the last `.`, except that a name
/// with no `.`, or whose only `.` is its first character (a hidden file), is
/// its own stem.
pub open spec fn file_stem_spec(name: Seq<char>) -> Seq<char> {
    let parts = split_spec(name, '.');
    if parts.len() == 1 {
        name
    } else if parts.len() == 2 && parts.first().len() == 0 {
        name
    } else {
        join_spec(parts.drop_last(), seq!['.'])
    }
}

/// The stem of a file name, as [`file_stem_spec`] describes.
pub fn file_stem(name: &str) -> (r: String)
    ensures
        r@ == file_stem_spec(name@),
{
    let mut parts = split_char(name, '.');
    let n = parts.len();
    if n == 1 || (n == 2 && parts[0].as_str().unicode_len() == 0) {
        proof {
            assert(parts.deep_view()[0] == parts.deep_view().first());
        }
        String::from_str(name)
    } else {
        let ghost dv = parts.deep_view();
        let _ = parts.pop();
        proof {
            assert(parts.deep_view() =~= dv.drop_last());
            reveal_strlit(".");
            assert("."@ =~= seq!['.']);
        }
        join(&parts, ".")
    }
}

/// Whether two strings hold the same characters.
pub fn str_eq(a: &str, b: &str) -> (r: bool)
    ensures
        r == (a@ == b@),
{
    let la = a.unicode_len();
    let lb = b.unicode_len();
    if la != lb {
        return false;
    }
    let mut i: usize = 0;
    while i < la
        invariant
            la == a@.len(),
            la == b@.len(),
            0 <= i <= la,
            forall|j: int| 0 <= j < i ==> a@[j] == b@[j],
        decreases la - i,
    {
        if a.get_char(i) != b.get_char(i) {
            return false;
        }
        i = i + 1;
    }
    proof {
        assert(a@ =~= b@);
    }
    true
}

/// The ASCII letters.
pub open spec fn is_ascii_letter(c: char) -> bool {
    ('a' <= c && c <= 'z') || ('A' <= c && c <= 'Z')
}

/// Whether the string is nonempty and begins with an ASCII letter.
pub open spec fn starts_with_ascii_letter(s: Seq<char>) -> bool {
    s.len() > 0 && is_ascii_letter(s.first())
}

/// Executable check for [`starts_with_ascii_letter`].
pub fn starts_with_letter(s: &str) -> (r: bool)
    ensures
        r == starts_with_ascii_letter(s@),
{
    if s.unicode_len() == 0 {
        return false;
    }
    let c = s.get_char(0);
    ('a' <= c && c <= 'z') || ('A' <= c && c <= 'Z')
}

} // verus!
