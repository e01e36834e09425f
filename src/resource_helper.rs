//! Text handling for mesh files: splitting into lines and triangulating faces.

use vstd::prelude::*;

verus! {

/// Index of the first `'\n'` in `s` at or after `i`, or `s.len()` if there is none.
pub open spec fn line_end(s: Seq<char>, i: int) -> int
    decreases s.len() - i,
{
    if i >= s.len() {
        s.len() as int
    } else if s[i] == '\n' {
        i
    } else {
        line_end(s, i + 1)
    }
}

/// The lines of `s` from position `start` on: the text is cut at each `'\n'`; a
/// `'\r'` just before a `'\n'` belongs to the line ending, and a final line ending
/// opens no further line.
pub open spec fn lines_from(s: Seq<char>, start: int) -> Seq<Seq<char>>
    decreases s.len() - start,
    via lines_from_decreases
{
    if start < 0 || start >= s.len() {
        Seq::empty()
    } else {
        let e = line_end(s, start);
        let seg = s.subrange(start, e);
        let line = if e < s.len() && seg.len() > 0 && seg.last() == '\r' {
            seg.drop_last()
        } else {
            seg
        };
        if e < s.len() {
            seq![line] + lines_from(s, e + 1)
        } else {
            seq![line]
        }
    }
}

proof fn lemma_line_end_bounds(s: Seq<char>, i: int)
    requires
        0 <= i,
    ensures
        i <= s.len() ==> i <= line_end(s, i) <= s.len(),
        i > s.len() ==> line_end(s, i) == s.len(),
    decreases s.len() - i,
{
    if i < s.len() && s[i] != '\n' {
        lemma_line_end_bounds(s, i + 1);
    }
}

#[via_fn]
proof fn lines_from_decreases(s: Seq<char>, start: int) {
    if 0 <= start {
        lemma_line_end_bounds(s, start);
    }
}

pub open spec fn lines_of(s: Seq<char>) -> Seq<Seq<char>> {
    lines_from(s, 0)
}

/// Holds of the lines that are not empty.
pub open spec fn is_nonempty() -> spec_fn(Seq<char>) -> bool {
    |l: Seq<char>| l.len() > 0
}

/// The lines of `text`, without the empty ones when `remove_empty` is set.
pub open spec fn split_lines(text: Seq<char>, remove_empty: bool) -> Seq<Seq<char>> {
    if remove_empty {
        lines_of(text).filter(is_nonempty())
    } else {
        lines_of(text)
    }
}

/// Relies on `str::lines`: the text cut at each `"\n"` or `"\r\n"`, with no line
/// after a final line ending.
#[verifier::external_body]
fn text_lines<'a>(text: &'a str) -> (r: Vec<&'a str>)
    ensures
        r@.map_values(|l: &str| l@) == lines_of(text@),
{
    text.lines().collect()
}

/// The lines of `text`, leaving out the empty ones when `remove_empty` is set.
pub fn split_by_line<'a>(text: &'a str, remove_empty: bool) -> (r: Vec<&'a str>)
    ensures
        r@.map_values(|l: &str| l@) == split_lines(text@, remove_empty),
{
    let lines = text_lines(text);
    let ghost all = lines@.map_values(|l: &str| l@);
    let mut r: Vec<&'a str> = Vec::new();
    let mut i: usize = 0;
    while i < lines.len()
        invariant
            i <= lines@.len(),
            all == lines@.map_values(|l: &str| l@),
            all == lines_of(text@),
            remove_empty ==> r@.map_values(|l: &str| l@) == all.subrange(0, i as int).filter(is_nonempty()),
            !remove_empty ==> r@.map_values(|l: &str| l@) == all.subrange(0, i as int),
        decreases lines@.len() - i,
    {
        let line = lines[i];
        let ghost before = r@.map_values(|l: &str| l@);
        proof {
            reveal(Seq::filter);
            assert(all.subrange(0, i + 1).drop_last() =~= all.subrange(0, i as int));
            assert(all.subrange(0, i + 1).last() == line@);
            assert(all.subrange(0, i + 1) =~= all.subrange(0, i as int).push(line@));
            let s1 = all.subrange(0, i + 1);
            assert(s1.filter(is_nonempty()) == if is_nonempty()(line@) {
                all.subrange(0, i as int).filter(is_nonempty()).push(line@)
            } else {
                all.subrange(0, i as int).filter(is_nonempty())
            });
        }
        if !remove_empty || !line.is_empty() {
            r.push(line);
            proof {
                assert(r@.map_values(|l: &str| l@) =~= before.push(line@));
            }
        }
        proof {
            if remove_empty {
                assert(is_nonempty()(line@) == (line@.len() > 0));
                assert(r@.map_values(|l: &str| l@) =~= all.subrange(0, i + 1).filter(is_nonempty()));
            } else {
                assert(r@.map_values(|l: &str| l@) =~= all.subrange(0, i + 1));
            }
        }
        i = i + 1;
    }
    proof {
        assert(all.subrange(0, lines@.len() as int) =~= all);
    }
    r
}

/// Vertex indices of the triangles that fan out from the first corner of a face
/// with corners `face`: `(face[0], face[t - 1], face[t])` for `t` from 2 to the
/// last corner.
pub open spec fn fan_indices(face: Seq<u32>) -> Seq<u32> {
    let n: int = if face.len() >= 2 { 3 * (face.len() - 2) } else { 0 };
    Seq::new(
        n as nat,
        |j: int|
            if j % 3 == 0 {
                face[0]
            } else if j % 3 == 1 {
                face[j / 3 + 1]
            } else {
                face[j / 3 + 2]
            },
    )
}

/// Appends to `indices` the triangles of the face whose corners are `face`, fanned
/// out from its first corner.
pub fn fan_triangulate(face: &Vec<u32>, indices: &mut Vec<u32>)
    ensures
        final(indices)@ == old(indices)@ + fan_indices(face@),
{
    let mut t: usize = 2;
    while t < face.len()
        invariant
            2 <= t,
            face@.len() >= 2 ==> t <= face@.len(),
            indices@ == old(indices)@ + fan_indices(face@.subrange(0, if t <= face@.len() {
                t as int
            } else {
                face@.len() as int
            })),
        decreases face@.len() - t,
    {
        indices.push(face[0]);
        indices.push(face[t - 1]);
        indices.push(face[t]);
        proof {
            assert(fan_indices(face@.subrange(0, t + 1)) =~= fan_indices(face@.subrange(0, t as int))
                + seq![face@[0], face@[t - 1], face@[t as int]]);
        }
        t = t + 1;
    }
    proof {
        if face@.len() >= 2 {
            assert(face@.subrange(0, face@.len() as int) =~= face@);
        } else {
            assert(fan_indices(face@.subrange(0, face@.len() as int)) =~= fan_indices(face@));
        }
    }
}

} // verus!
