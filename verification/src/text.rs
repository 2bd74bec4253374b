use vstd::prelude::*;

verus! {

/// The pieces of `s` between its newline characters: one more piece than
/// `s` has newlines.
pub open spec fn segments(s: Seq<char>) -> Seq<Seq<char>>
    decreases s.len(),
{
    if s.len() == 0 {
        seq![Seq::<char>::empty()]
    } else {
        let prev = segments(s.drop_last());
        if s.last() == '\n' {
            prev.push(Seq::<char>::empty())
        } else {
            prev.update(prev.len() - 1, prev.last().push(s.last()))
        }
    }
}

/// A line that a newline ended loses one carriage return before it.
pub open spec fn strip_cr(l: Seq<char>) -> Seq<char> {
    if l.len() > 0 && l.last() == '\r' {
        l.drop_last()
    } else {
        l
    }
}

/// Each line with `strip_cr` applied.
pub open spec fn strip_all(ls: Seq<Seq<char>>) -> Seq<Seq<char>> {
    ls.map_values(|l: Seq<char>| strip_cr(l))
}

/// The characters of each string.
pub open spec fn str_views(v: Seq<&str>) -> Seq<Seq<char>> {
    v.map_values(|l: &str| l@)
}

/// The lines of a text: split at `\n` or `\r\n`; the line ending of the last
/// line is optional, and an empty text has no lines.
pub open spec fn text_lines(s: Seq<char>) -> Seq<Seq<char>> {
    let segs = segments(s);
    let ended = strip_all(segs.drop_last());
    if segs.last().len() == 0 {
        ended
    } else {
        ended.push(segs.last())
    }
}

pub proof fn lemma_segments_nonempty(s: Seq<char>)
    ensures
        segments(s).len() >= 1,
    decreases s.len(),
{
    if s.len() > 0 {
        lemma_segments_nonempty(s.drop_last());
    }
}

/// Splits `s` into its lines (see `text_lines`).
pub fn lines<'a>(s: &'a str) -> (r: Vec<&'a str>)
    ensures
        str_views(r@) == text_lines(s@),
{
    let n = s.unicode_len();
    let mut res: Vec<&'a str> = Vec::new();
    let mut start: usize = 0;
    let mut i: usize = 0;
    proof {
        assert(s@.take(0) =~= Seq::<char>::empty());
    }
    while i < n
        invariant
            n == s@.len(),
            start <= i <= n,
            segments(s@.take(i as int)).len() >= 1,
            segments(s@.take(i as int)).last() == s@.subrange(start as int, i as int),
            str_views(res@) == strip_all(segments(s@.take(i as int)).drop_last()),
        decreases n - i,
    {
        let ghost prev = segments(s@.take(i as int));
        let c = s.get_char(i);
        proof {
            assert(s@.take(i + 1).drop_last() =~= s@.take(i as int));
            assert(s@.take(i + 1).last() == c);
        }
        if c == '\n' {
            let end = if i > start && s.get_char(i - 1) == '\r' {
                i - 1
            } else {
                i
            };
            let line = s.substring_char(start, end);
            let ghost old_res = res@;
            res.push(line);
            proof {
                let cur = s@.subrange(start as int, i as int);
                assert(line@ =~= strip_cr(cur));
                assert(res@ == old_res.push(line));
                assert(segments(s@.take(i + 1)) == prev.push(Seq::<char>::empty()));
                assert(segments(s@.take(i + 1)).drop_last() =~= prev);
                assert(prev =~= prev.drop_last().push(cur));
                let lhs = str_views(res@);
                let rhs = strip_all(prev);
                assert(str_views(old_res).len() == old_res.len());
                assert(strip_all(prev.drop_last()).len() == prev.len() - 1);
                assert(lhs.len() == rhs.len());
                assert forall|k: int| 0 <= k < lhs.len() implies lhs[k] == rhs[k] by {
                    if k < old_res.len() {
                        assert(str_views(old_res)[k] == lhs[k]);
                        assert(strip_all(prev.drop_last())[k] == rhs[k]);
                    }
                }
                assert(str_views(res@) =~= strip_all(segments(s@.take(i + 1)).drop_last()));
            }
            start = i + 1;
            proof {
                assert(segments(s@.take(i + 1)).last() =~= s@.subrange(start as int, i + 1));
            }
        } else {
            proof {
                let next = segments(s@.take(i + 1));
                assert(next == prev.update(prev.len() - 1, prev.last().push(c)));
                assert(next.drop_last() =~= prev.drop_last());
                assert(next.last() =~= s@.subrange(start as int, i + 1));
            }
        }
        i = i + 1;
    }
    proof {
        assert(s@.take(n as int) =~= s@);
    }
    if start < n {
        let line = s.substring_char(start, n);
        res.push(line);
        proof {
            let segs = segments(s@);
            assert(str_views(res@) =~= strip_all(segs.drop_last()).push(segs.last()));
        }
    }
    res
}

/// The text that Rust's `Debug` formatting gives for a string: the string in
/// double quotes, with quotes, backslashes and characters that are not
/// printable escaped.
pub uninterp spec fn debug_quoted(s: Seq<char>) -> Seq<char>;

/// A printable ASCII character that `Debug` formatting of a string keeps as
/// it is.
pub open spec fn is_plain_char(c: char) -> bool {
    ' ' <= c <= '~' && c != '"' && c != '\\' && c != '\''
}

/// Formats `s` with `{:?}` (std's `Debug` for `str`). The result is named
/// `debug_quoted(s@)`; of it, only this is stated: a string of plain
/// printable ASCII characters comes out between two double quotes,
/// unchanged. How other characters are escaped is left unsaid.
#[verifier::external_body]
pub(crate) fn debug_str(s: &str) -> (r: String)
    ensures
        r@ == debug_quoted(s@),
        (forall|i: int| 0 <= i < s@.len() ==> is_plain_char(#[trigger] s@[i])) ==> r@ == seq!['"']
            + s@ + seq!['"'],
{
    format!("{:?}", s)
}

} // verus!
