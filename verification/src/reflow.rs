//! Fixed-width text reflow.
//!
//! `wrap_string` re-inserts line breaks into a string so that no displayed
//! line exceeds a given width. Candidate break positions sit one full line
//! past the last break; from a candidate the wrapper looks back up to a
//! fifth of the width for a space to turn into the break, and otherwise
//! splits the word with a hyphen.

use vstd::prelude::*;

verus! {

broadcast use vstd::string::group_string_axioms;

/// How far back from a candidate break position the wrapper searches for a
/// space: one fifth of the line width.
pub open spec fn lookback_limit(width: int) -> int {
    width / 5
}

/// Smallest lookback distance `j` at or above `j0` and below
/// `lookback_limit(width)` such that the character `j` places before
/// position `width` of `s` is a space; `-1` when there is none.
pub open spec fn find_break(s: Seq<char>, width: int, j0: int) -> int
    decreases lookback_limit(width) - j0,
{
    if j0 < 0 || j0 >= lookback_limit(width) {
        -1
    } else if s[width - j0] == ' ' {
        j0
    } else {
        find_break(s, width, j0 + 1)
    }
}

/// The wrapped form of `s` at line width `width`.
///
/// Text no longer than the width is left as it is. Otherwise the first
/// line ends at the nearest space within the lookback window (that space
/// becomes the break), or, when no space is in reach, the word is split
/// before the width boundary and a hyphen marks the split. A width of one
/// leaves no room for a hyphen beside a character, so each character then
/// stands on a line of its own.
pub open spec fn wrap_chars(s: Seq<char>, width: int) -> Seq<char>
    decreases s.len(),
    via wrap_chars_decreases
{
    if width < 1 || s.len() <= width {
        s
    } else {
        let j = find_break(s, width, 0);
        if 0 <= j {
            s.subrange(0, width - j).push('\n') + wrap_chars(
                s.subrange(width - j + 1, s.len() as int),
                width,
            )
        } else if 2 <= width {
            s.subrange(0, width - 1).push('-').push('\n') + wrap_chars(
                s.subrange(width - 1, s.len() as int),
                width,
            )
        } else {
            s.subrange(0, 1).push('\n') + wrap_chars(s.subrange(1, s.len() as int), width)
        }
    }
}

#[via_fn]
proof fn wrap_chars_decreases(s: Seq<char>, width: int) {
    if !(width < 1 || s.len() <= width) {
        lemma_find_break_bounds(s, width, 0);
    }
}

/// Some position in `[i, j)` of `s` holds a line break.
pub open spec fn has_line_break(s: Seq<char>, i: int, j: int) -> bool {
    exists|k: int| i <= k < j && s[k] == '\n'
}

/// Every stretch of more than `width` consecutive characters of `s`
/// contains a line break, so no displayed line exceeds `width` characters.
pub open spec fn lines_within(s: Seq<char>, width: int) -> bool {
    forall|i: int, j: int|
        0 <= i && i + width < j && j <= s.len() ==> #[trigger] has_line_break(s, i, j)
}

/// A found lookback distance lies inside the lookback window.
proof fn lemma_find_break_bounds(s: Seq<char>, width: int, j0: int)
    requires
        0 <= j0,
    ensures
        find_break(s, width, j0) == -1 || (j0 <= find_break(s, width, j0) < lookback_limit(
            width,
        )),
    decreases lookback_limit(width) - j0,
{
    if j0 < lookback_limit(width) && s[width - j0] != ' ' {
        lemma_find_break_bounds(s, width, j0 + 1);
    }
}

/// Putting a line of at most `width` characters and a break in front of
/// text whose lines are within `width` keeps every line within `width`.
proof fn lemma_lines_prepend(line: Seq<char>, rest: Seq<char>, width: int)
    requires
        line.len() <= width,
        lines_within(rest, width),
    ensures
        lines_within(line.push('\n') + rest, width),
{
    let s = line.push('\n') + rest;
    let m = line.len() as int;
    assert forall|i: int, j: int|
        0 <= i && i + width < j && j <= s.len() implies #[trigger] has_line_break(s, i, j) by {
        if j <= m {
            // a window inside `line` is at most `width` long, against the bound on `j - i`
            assert(false);
        } else if i <= m {
            assert(s[m] == '\n');
            assert(has_line_break(s, i, j));
        } else {
            let i2 = i - m - 1;
            let j2 = j - m - 1;
            assert(has_line_break(rest, i2, j2));
            let k2 = choose|k: int| i2 <= k < j2 && rest[k] == '\n';
            assert(s[k2 + m + 1] == '\n');
            assert(has_line_break(s, i, j));
        }
    }
}

/// No line of the wrapped text is longer than the width: between any two
/// consecutive line breaks of `wrap_chars(s, width)` stand at most `width`
/// characters.
pub proof fn lemma_wrap_lines(s: Seq<char>, width: int)
    requires
        1 <= width,
    ensures
        lines_within(wrap_chars(s, width), width),
    decreases s.len(),
{
    if s.len() <= width {
        assert forall|i: int, j: int|
            0 <= i && i + width < j && j <= wrap_chars(s, width).len() implies #[trigger] has_line_break(
            wrap_chars(s, width),
            i,
            j,
        ) by {
            assert(false);
        }
    } else {
        let j = find_break(s, width, 0);
        lemma_find_break_bounds(s, width, 0);
        if 0 <= j {
            let line = s.subrange(0, width - j);
            let rest = s.subrange(width - j + 1, s.len() as int);
            lemma_wrap_lines(rest, width);
            lemma_lines_prepend(line, wrap_chars(rest, width), width);
        } else if 2 <= width {
            let line = s.subrange(0, width - 1).push('-');
            let rest = s.subrange(width - 1, s.len() as int);
            lemma_wrap_lines(rest, width);
            lemma_lines_prepend(line, wrap_chars(rest, width), width);
        } else {
            let line = s.subrange(0, 1);
            let rest = s.subrange(1, s.len() as int);
            lemma_wrap_lines(rest, width);
            lemma_lines_prepend(line, wrap_chars(rest, width), width);
        }
    }
}

/// Appends `chars[from..to]` to `out`.
#[verifier::loop_isolation(false)]
pub(crate) fn push_range(out: &mut Vec<char>, chars: &Vec<char>, from: usize, to: usize)
    requires
        from <= to <= chars@.len(),
    ensures
        final(out)@ == old(out)@ + chars@.subrange(from as int, to as int),
{
    let mut k: usize = from;
    proof {
        assert(out@ =~= old(out)@ + chars@.subrange(from as int, from as int));
    }
    while k < to
        invariant
            from <= k <= to <= chars@.len(),
            out@ == old(out)@ + chars@.subrange(from as int, k as int),
        decreases to - k,
    {
        out.push(chars[k]);
        k = k + 1;
        proof {
            assert(chars@.subrange(from as int, (k - 1) as int).push(chars@[k - 1]) =~= chars@
                .subrange(from as int, k as int));
            assert(out@ =~= old(out)@ + chars@.subrange(from as int, k as int));
        }
    }
}

/// Wraps the characters of `chars` at line width `width`.
#[verifier::loop_isolation(false)]
#[verifier::rlimit(50)]
fn wrap_in_chars(chars: &Vec<char>, width: usize) -> (out: Vec<char>)
    requires
        1 <= width,
    ensures
        out@ == wrap_chars(chars@, width as int),
{
    let mut out: Vec<char> = Vec::new();
    let mut start: usize = 0;
    let n: usize = chars.len();
    proof {
        assert(chars@.len() <= usize::MAX);
        assert(chars@.subrange(0, chars@.len() as int) =~= chars@);
        assert(out@ + wrap_chars(chars@, width as int) =~= wrap_chars(chars@, width as int));
    }
    while n - start > width
        invariant
            1 <= width,
            n == chars@.len(),
            start <= chars@.len(),
            wrap_chars(chars@, width as int) == out@ + wrap_chars(
                chars@.subrange(start as int, chars@.len() as int),
                width as int,
            ),
        decreases chars@.len() - start,
    {
        let ghost rem = chars@.subrange(start as int, chars@.len() as int);
        let ghost w = width as int;
        let limit: usize = width / 5;
        let mut j: usize = 0;
        while j < limit && chars[start + width - j] != ' '
            invariant
                j <= limit,
                limit == lookback_limit(width as int),
                1 <= width,
                n == chars@.len(),
                start + width < chars@.len(),
                rem == chars@.subrange(start as int, chars@.len() as int),
                find_break(rem, width as int, 0) == find_break(rem, width as int, j as int),
            decreases limit - j,
        {
            proof {
                assert(rem[w - j] == chars@[start + width - j]);
            }
            j = j + 1;
        }
        let ghost out_pre = out@;
        if j < limit {
            // the space `j` places back from the candidate becomes the break
            proof {
                assert(rem[w - j] == chars@[start + width - j]);
                assert(find_break(rem, w, j as int) == j);
            }
            push_range(&mut out, chars, start, start + width - j);
            out.push('\n');
            start = start + width - j + 1;
            proof {
                assert(rem.subrange(0, w - j) =~= chars@.subrange(
                    (start - (width - j) - 1) as int,
                    (start - 1) as int,
                ));
                assert(chars@.subrange(start as int, chars@.len() as int) =~= rem.subrange(
                    w - j + 1,
                    rem.len() as int,
                ));
                assert(out@ =~= out_pre + rem.subrange(0, w - j).push('\n'));
                assert(wrap_chars(rem, w) == rem.subrange(0, w - j).push('\n') + wrap_chars(
                    rem.subrange(w - j + 1, rem.len() as int),
                    w,
                ));
                assert(wrap_chars(chars@, w) =~= out@ + wrap_chars(
                    chars@.subrange(start as int, chars@.len() as int),
                    w,
                ));
            }
        } else if width >= 2 {
            // no space in reach: split the word and mark it with a hyphen
            proof {
                assert(find_break(rem, w, j as int) == -1);
            }
            push_range(&mut out, chars, start, start + width - 1);
            out.push('-');
            out.push('\n');
            start = start + width - 1;
            proof {
                assert(rem.subrange(0, w - 1) =~= chars@.subrange(
                    (start - (width - 1)) as int,
                    start as int,
                ));
                assert(chars@.subrange(start as int, chars@.len() as int) =~= rem.subrange(
                    w - 1,
                    rem.len() as int,
                ));
                assert(out@ =~= out_pre + rem.subrange(0, w - 1).push('-').push('\n'));
                assert(wrap_chars(rem, w) == rem.subrange(0, w - 1).push('-').push('\n')
                    + wrap_chars(rem.subrange(w - 1, rem.len() as int), w));
                assert(wrap_chars(chars@, w) =~= out@ + wrap_chars(
                    chars@.subrange(start as int, chars@.len() as int),
                    w,
                ));
            }
        } else {
            // width one: no room for a hyphen, each character stands alone
            proof {
                assert(find_break(rem, w, j as int) == -1);
            }
            out.push(chars[start]);
            out.push('\n');
            start = start + 1;
            proof {
                assert(rem.subrange(0, 1) =~= chars@.subrange((start - 1) as int, start as int));
                assert(rem.subrange(0, 1).push('\n') =~= seq![chars@[start - 1], '\n']);
                assert(chars@.subrange(start as int, chars@.len() as int) =~= rem.subrange(
                    1,
                    rem.len() as int,
                ));
                assert(out@ =~= out_pre + rem.subrange(0, 1).push('\n'));
                assert(wrap_chars(rem, w) == rem.subrange(0, 1).push('\n') + wrap_chars(
                    rem.subrange(1, rem.len() as int),
                    w,
                ));
                assert(wrap_chars(chars@, w) =~= out@ + wrap_chars(
                    chars@.subrange(start as int, chars@.len() as int),
                    w,
                ));
            }
        }
    }
    proof {
        let rem = chars@.subrange(start as int, chars@.len() as int);
        assert(wrap_chars(rem, width as int) == rem);
    }
    push_range(&mut out, chars, start, chars.len());
    out
}

/// Collects the characters of `s` into a vector.
#[verifier::loop_isolation(false)]
pub(crate) fn chars_vec(s: &str) -> (r: Vec<char>)
    ensures
        r@ == s@,
{
    let mut r: Vec<char> = Vec::new();
    for c in it: s.chars()
        invariant
            it.seq() == s@,
            r@ == it.seq().take(it.index() as int),
    {
        r.push(c);
    }
    proof {
        assert(r@ =~= s@);
    }
    r
}

/// Relies on String::from_iter over characters: the resulting string holds
/// exactly the characters of `v`, in order.
#[verifier::external_body]
pub(crate) fn string_from_chars(v: Vec<char>) -> (r: String)
    ensures
        r@ == v@,
{
    v.into_iter().collect()
}

/// Wraps `string` so that no line exceeds `split_len` characters.
///
/// The result is exactly the wrapped form given by `wrap_chars`: no
/// stretch of more than `split_len` characters is without a break, and
/// text no longer than `split_len` comes back unmodified. A width of zero
/// is a caller error and is excluded outright.
pub fn wrap_string(string: String, split_len: usize) -> (result: String)
    requires
        1 <= split_len,
    ensures
        result@ == wrap_chars(string@, split_len as int),
        lines_within(result@, split_len as int),
        string@.len() <= split_len ==> result@ == string@,
{
    proof {
        lemma_wrap_lines(string@, split_len as int);
    }
    let chars = chars_vec(string.as_str());
    let wrapped = wrap_in_chars(&chars, split_len);
    string_from_chars(wrapped)
}

} // verus!
