use vstd::prelude::*;
use crate::text::push_char;

verus! {

/// Joins the tail of a segment list onto a path: every non-empty segment is
/// preceded by one separator, empty segments contribute nothing.
pub open spec fn join_rest(segs: Seq<Seq<char>>) -> Seq<char>
    decreases segs.len(),
{
    if segs.len() == 0 {
        Seq::empty()
    } else if segs[0].len() == 0 {
        join_rest(segs.drop_first())
    } else {
        seq!['/'] + segs[0] + join_rest(segs.drop_first())
    }
}

/// The path denoted by a segment list: the first segment taken verbatim,
/// the rest separated by `/`, empty segments skipped.
pub open spec fn join_path(segs: Seq<Seq<char>>) -> Seq<char> {
    if segs.len() == 0 {
        Seq::empty()
    } else {
        segs[0] + join_rest(segs.drop_first())
    }
}

pub open spec fn views_of(v: Seq<String>) -> Seq<Seq<char>> {
    v.map_values(|s: String| s@)
}

proof fn lemma_join_rest_push(segs: Seq<Seq<char>>, x: Seq<char>)
    ensures
        join_rest(segs.push(x)) == join_rest(segs) + (if x.len() == 0 {
            Seq::<char>::empty()
        } else {
            seq!['/'] + x
        }),
    decreases segs.len(),
{
    reveal_with_fuel(join_rest, 3);
    assert(segs.push(x)[0] == if segs.len() == 0 {
        x
    } else {
        segs[0]
    });
    if segs.len() == 0 {
        assert(segs.push(x).drop_first() =~= Seq::<Seq<char>>::empty());
        if x.len() == 0 {
            assert(join_rest(segs.push(x)) =~= join_rest(segs) + Seq::<char>::empty());
        } else {
            assert(join_rest(segs.push(x)) =~= join_rest(segs) + (seq!['/'] + x));
        }
    } else {
        assert(segs.push(x).drop_first() =~= segs.drop_first().push(x));
        lemma_join_rest_push(segs.drop_first(), x);
        if x.len() == 0 {
            assert(join_rest(segs.push(x)) =~= join_rest(segs) + Seq::<char>::empty());
        } else {
            assert(join_rest(segs.push(x)) =~= join_rest(segs) + (seq!['/'] + x));
        }
    }
}

proof fn lemma_join_path_push(segs: Seq<Seq<char>>, x: Seq<char>)
    requires
        segs.len() > 0,
    ensures
        join_path(segs.push(x)) == join_path(segs) + (if x.len() == 0 {
            Seq::<char>::empty()
        } else {
            seq!['/'] + x
        }),
{
    assert(segs.push(x).drop_first() =~= segs.drop_first().push(x));
    lemma_join_rest_push(segs.drop_first(), x);
    if x.len() == 0 {
        assert(join_path(segs.push(x)) =~= join_path(segs) + Seq::<char>::empty());
    } else {
        assert(join_path(segs.push(x)) =~= join_path(segs) + (seq!['/'] + x));
    }
}

pub proof fn lemma_views_index(s: Seq<String>, i: int)
    requires
        0 <= i < s.len(),
    ensures
        views_of(s)[i] == s[i]@,
{
    assert(views_of(s)[i] == s[i]@);
}

pub proof fn lemma_views_push(s: Seq<String>, x: String)
    ensures
        views_of(s.push(x)) == views_of(s).push(x@),
{
    assert forall|j: int| 0 <= j < s.len() + 1 implies views_of(s.push(x))[j] == views_of(s).push(
        x@,
    )[j] by {
        assert(views_of(s.push(x))[j] == s.push(x)[j]@);
        if j < s.len() {
            assert(views_of(s)[j] == s[j]@);
        }
    }
    assert(views_of(s.push(x)) =~= views_of(s).push(x@));
}

/// Appends one path segment to an already-joined path string.
fn append_segment(out: &mut String, seg: &str, first: bool)
    ensures
        first ==> final(out)@ == old(out)@ + seg@,
        !first ==> final(out)@ == old(out)@ + (if seg@.len() == 0 {
            Seq::<char>::empty()
        } else {
            seq!['/'] + seg@
        }),
{
    if first {
        out.append(seg);
    } else if seg.unicode_len() > 0 {
        push_char(out, '/');
        out.append(seg);
        proof {
            assert(final(out)@ =~= old(out)@ + (seq!['/'] + seg@));
        }
    } else {
        proof {
            assert(final(out)@ =~= old(out)@ + Seq::<char>::empty());
        }
    }
}

/// Renders a segment list as one path string.
pub fn join_segments(v: &Vec<String>) -> (r: String)
    ensures
        r@ == join_path(views_of(v@)),
{
    let mut out = String::new();
    let mut i: usize = 0;
    while i < v.len()
        invariant
            i <= v@.len(),
            out@ == join_path(views_of(v@.subrange(0, i as int))),
        decreases v@.len() - i,
    {
        let ghost pre = views_of(v@.subrange(0, i as int));
        append_segment(&mut out, v[i].as_str(), i == 0);
        proof {
            assert(views_of(v@.subrange(0, i + 1)) =~= pre.push(v@[i as int]@));
            if i > 0 {
                lemma_join_path_push(pre, v@[i as int]@);
            }
        }
        i += 1;
    }
    proof {
        assert(v@.subrange(0, v@.len() as int) =~= v@);
    }
    out
}

/// The position of the last occurrence of `c` in `s`, or -1 if it does not occur.
pub open spec fn find_last(s: Seq<char>, c: char) -> int
    decreases s.len(),
{
    if s.len() == 0 {
        -1
    } else if s[s.len() - 1] == c {
        s.len() - 1
    } else {
        find_last(s.drop_last(), c)
    }
}

pub proof fn lemma_find_last_range(s: Seq<char>, c: char)
    ensures
        -1 <= find_last(s, c) < s.len(),
        find_last(s, c) >= 0 ==> s[find_last(s, c)] == c,
        forall|j: int| find_last(s, c) < j < s.len() ==> s[j] != c,
    decreases s.len(),
{
    if s.len() > 0 && s[s.len() - 1] != c {
        lemma_find_last_range(s.drop_last(), c);
        assert(forall|j: int| 0 <= j < s.len() - 1 ==> s.drop_last()[j] == s[j]);
    }
}

/// Finds the last occurrence of `c` in `s`, returning one past its position,
/// so that 0 means "not found".
fn find_last_exec(s: &str, c: char) -> (r: usize)
    ensures
        r == find_last(s@, c) + 1,
{
    let len = s.unicode_len();
    let mut i: usize = len;
    while i > 0
        invariant
            len == s@.len(),
            i <= len,
            forall|j: int| i <= j < len ==> s@[j] != c,
        decreases i,
    {
        if s.get_char(i - 1) == c {
            proof {
                lemma_find_last_range(s@, c);
            }
            return i;
        }
        i -= 1;
    }
    proof {
        lemma_find_last_range(s@, c);
    }
    0
}

/// The filename component of a path: everything after the last separator.
pub open spec fn file_name_of(path: Seq<char>) -> Seq<char> {
    path.subrange(find_last(path, '/') + 1, path.len() as int)
}

/// Extracts the filename component of a path string.
pub fn file_name(path: &str) -> (r: String)
    ensures
        r@ == file_name_of(path@),
{
    let len = path.unicode_len();
    let start = find_last_exec(path, '/');
    proof {
        lemma_find_last_range(path@, '/');
    }
    let mut out = String::new();
    let mut i: usize = start;
    while i < len
        invariant
            len == path@.len(),
            start <= i <= len,
            out@ == path@.subrange(start as int, i as int),
        decreases len - i,
    {
        push_char(&mut out, path.get_char(i));
        proof {
            assert(out@ =~= path@.subrange(start as int, i + 1));
        }
        i += 1;
    }
    out
}

/// The extension of a filename: the part after the last dot, unless the dot
/// is missing or is the leading character.
pub open spec fn extension_of(name: Seq<char>) -> Option<Seq<char>> {
    let d = find_last(name, '.');
    if d <= 0 {
        Option::None
    } else {
        Option::Some(name.subrange(d + 1, name.len() as int))
    }
}

/// Extracts the extension of a filename.
pub fn extension(name: &str) -> (r: Option<String>)
    ensures
        r matches Some(e) ==> extension_of(name@) matches Some(v) && e@ == v,
        (r is Some) == (extension_of(name@) is Some),
{
    let len = name.unicode_len();
    let after = find_last_exec(name, '.');
    proof {
        lemma_find_last_range(name@, '.');
    }
    if after <= 1 {
        return Option::None;
    }
    let mut out = String::new();
    let mut i: usize = after;
    while i < len
        invariant
            len == name@.len(),
            after <= i <= len,
            out@ == name@.subrange(after as int, i as int),
        decreases len - i,
    {
        push_char(&mut out, name.get_char(i));
        proof {
            assert(out@ =~= name@.subrange(after as int, i + 1));
        }
        i += 1;
    }
    Option::Some(out)
}

} // verus!
