//! Unix path text as the tool writes it into configuration files.
//!
//! A path is modelled by its characters. The functions here follow what
//! `std::path` does on Unix for the operations the tool needs: joining,
//! testing for an absolute path and counting components.

use vstd::prelude::*;
use crate::text::{contains_seq, lemma_replaced_absent, chars_of, push_all, string_of, replaced, replace_chars};

verus! {

/// A Unix path is absolute when it starts at the root.
pub open spec fn is_absolute(p: Seq<char>) -> bool {
    p.len() > 0 && p[0] == '/'
}

/// `buf` after `PathBuf::push(p)` on Unix: an absolute `p` replaces it,
/// otherwise `p` is appended after one separator, unless `buf` is empty or
/// already ends with a separator.
pub open spec fn pushed(buf: Seq<char>, p: Seq<char>) -> Seq<char> {
    if is_absolute(p) {
        p
    } else if buf.len() == 0 || buf.last() == '/' {
        buf + p
    } else {
        buf + seq!['/'] + p
    }
}

/// Whether a segment between separators is a component of its own: it is
/// neither empty nor the current-directory marker `.`.
pub open spec fn is_counted_segment(seg: Seq<char>) -> bool {
    seg.len() > 0 && seg != seq!['.']
}

/// Number of counted segments in `p`, given that `cur` holds the characters
/// of the segment read so far.
pub open spec fn segment_count(p: Seq<char>, cur: Seq<char>) -> nat
    decreases p.len(),
{
    if p.len() == 0 {
        if is_counted_segment(cur) { 1 } else { 0 }
    } else if p[0] == '/' {
        (if is_counted_segment(cur) { 1nat } else { 0nat }) + segment_count(p.skip(1), Seq::empty())
    } else {
        segment_count(p.skip(1), cur.push(p[0]))
    }
}

/// Whether the path begins with a current-directory component (`.` or `./...`).
pub open spec fn leading_cur_dir(p: Seq<char>) -> bool {
    p.len() > 0 && p[0] == '.' && (p.len() == 1 || p[1] == '/')
}

/// Number of items `Path::components` yields on Unix: the root, a leading
/// `.`, and every non-empty segment other than `.`.
pub open spec fn component_count(p: Seq<char>) -> nat {
    (if is_absolute(p) { 1nat } else { 0nat }) + (if leading_cur_dir(p) { 1nat } else { 0nat })
        + segment_count(p, Seq::empty())
}

proof fn lemma_segment_count_step(p: Seq<char>, i: int, cur: Seq<char>)
    requires
        0 <= i < p.len(),
    ensures
        p[i] == '/' ==> segment_count(p.skip(i), cur) == (if is_counted_segment(cur) { 1nat } else { 0nat })
            + segment_count(p.skip(i + 1), Seq::empty()),
        p[i] != '/' ==> segment_count(p.skip(i), cur) == segment_count(p.skip(i + 1), cur.push(p[i])),
{
    assert(p.skip(i).skip(1) =~= p.skip(i + 1));
    assert(p.skip(i)[0] == p[i]);
}

proof fn lemma_counted_segment(seg: Seq<char>)
    ensures
        is_counted_segment(seg) == (seg.len() > 0 && !(seg.len() == 1 && seg[0] == '.')),
{
    if seg.len() == 1 && seg[0] == '.' {
        assert(seg =~= seq!['.']);
    }
    if seg.len() == 1 && seg[0] != '.' {
        assert(seg[0] != seq!['.'][0]);
    }
}

/// Appends `p` to the path held in `buf` as `PathBuf::push` does on Unix.
pub fn push_path(buf: &mut Vec<char>, p: &[char])
    ensures
        final(buf)@ == pushed(old(buf)@, p@),
{
    if p.len() > 0 && p[0] == '/' {
        buf.clear();
        push_all(buf, p);
    } else {
        if buf.len() > 0 && buf[buf.len() - 1] != '/' {
            buf.push('/');
        }
        push_all(buf, p);
    }
}

/// Counts the components of a Unix path as `Path::components` yields them.
pub fn count_components(p: &[char]) -> (n: usize)
    ensures
        n == component_count(p@),
{
    let len = p.len();
    let mut count: usize = 0;
    let mut seg_start: usize = 0;
    let mut i: usize = 0;
    assert(p@.skip(0) =~= p@);
    assert(p@.subrange(0, 0) =~= Seq::<char>::empty());
    while i < len
        invariant
            len == p@.len(),
            seg_start <= i <= len,
            2 * count <= seg_start,
            segment_count(p@, Seq::empty()) == count + segment_count(p@.skip(i as int), p@.subrange(seg_start as int, i as int)),
        decreases len - i,
    {
        proof {
            lemma_segment_count_step(p@, i as int, p@.subrange(seg_start as int, i as int));
        }
        if p[i] == '/' {
            let seg_len = i - seg_start;
            let counted = seg_len > 0 && !(seg_len == 1 && p[seg_start] == '.');
            proof {
                lemma_counted_segment(p@.subrange(seg_start as int, i as int));
            }
            if counted {
                count += 1;
            }
            i += 1;
            seg_start = i;
            assert(p@.subrange(seg_start as int, i as int) =~= Seq::<char>::empty());
        } else {
            assert(p@.subrange(seg_start as int, i as int).push(p@[i as int]) =~= p@.subrange(seg_start as int, i + 1));
            i += 1;
        }
    }
    let seg_len = len - seg_start;
    let counted = seg_len > 0 && !(seg_len == 1 && p[seg_start] == '.');
    proof {
        lemma_counted_segment(p@.subrange(seg_start as int, len as int));
    }
    assert(p@.skip(len as int) =~= Seq::<char>::empty());
    if counted {
        count += 1;
    }
    if len > 0 && p[0] == '/' {
        count += 1;
    }
    if len > 0 && p[0] == '.' && (len == 1 || p[1] == '/') {
        count += 1;
    }
    count
}

/// Path text for a configuration file: every backslash becomes a slash.
pub open spec fn config_path(p: Seq<char>) -> Seq<char> {
    replaced(p, seq!['\\'], seq!['/'])
}

/// Writes a path with forward slashes only, as configuration files expect.
pub fn normalize_path_for_config(path: &str) -> (r: String)
    ensures
        r@ == config_path(path@),
{
    let pv = chars_of(path);
    let from = vec!['\\'];
    let to = vec!['/'];
    assert(from@ =~= seq!['\\']);
    assert(to@ =~= seq!['/']);
    let out = replace_chars(&pv, &from, &to);
    string_of(&out)
}


/// No two separators stand side by side in the path.
pub open spec fn no_double_slash(s: Seq<char>) -> bool {
    forall|i: int| 0 <= i < s.len() - 1 ==> !(#[trigger] s[i] == '/' && s[i + 1] == '/')
}

/// Pushing a relative path without doubled separators onto a path without
/// doubled separators gives a path without doubled separators; neither adds
/// a character other than `/`.
pub proof fn lemma_pushed_clean(buf: Seq<char>, p: Seq<char>)
    requires
        no_double_slash(buf),
        no_double_slash(p),
        !is_absolute(p),
    ensures
        no_double_slash(pushed(buf, p)),
        forall|c: char| c != '/' && !buf.contains(c) && !p.contains(c) ==> !pushed(buf, p).contains(c),
{
    let r = pushed(buf, p);
    if buf.len() == 0 {
        assert(r =~= p);
    } else if buf.last() == '/' {
        assert(r =~= buf + p);
        assert forall|i: int| 0 <= i < r.len() - 1 implies !(#[trigger] r[i] == '/' && r[i + 1] == '/') by {
            if i + 1 < buf.len() {
                assert(r[i] == buf[i] && r[i + 1] == buf[i + 1]);
            } else if i == buf.len() - 1 {
                assert(r[i + 1] == p[0]);
            } else {
                assert(r[i] == p[i - buf.len()] && r[i + 1] == p[i + 1 - buf.len()]);
            }
        }
        assert forall|c: char| c != '/' && !buf.contains(c) && !p.contains(c) implies !r.contains(c) by {
            if r.contains(c) {
                let i = choose|i: int| 0 <= i < r.len() && r[i] == c;
                if i < buf.len() {
                    assert(buf[i] == c);
                } else {
                    assert(p[i - buf.len()] == c);
                }
            }
        }
    } else {
        assert(r =~= buf + seq!['/'] + p);
        assert forall|i: int| 0 <= i < r.len() - 1 implies !(#[trigger] r[i] == '/' && r[i + 1] == '/') by {
            if i + 1 < buf.len() {
                assert(r[i] == buf[i] && r[i + 1] == buf[i + 1]);
            } else if i == buf.len() - 1 {
                assert(r[i] == buf.last());
            } else if i == buf.len() {
                assert(r[i + 1] == p[0]);
            } else {
                assert(r[i] == p[i - buf.len() - 1] && r[i + 1] == p[i - buf.len()]);
            }
        }
        assert forall|c: char| c != '/' && !buf.contains(c) && !p.contains(c) implies !r.contains(c) by {
            if r.contains(c) {
                let i = choose|i: int| 0 <= i < r.len() && r[i] == c;
                if i < buf.len() {
                    assert(buf[i] == c);
                } else if i == buf.len() {
                } else {
                    assert(p[i - buf.len() - 1] == c);
                }
            }
        }
    }
}

/// A path without backslashes is written into configuration files as it is.
pub proof fn lemma_config_path_plain(p: Seq<char>)
    requires
        !p.contains('\\'),
    ensures
        config_path(p) == p,
{
    if contains_seq(p, seq!['\\']) {
        let i = choose|i: int| 0 <= i && i + seq!['\\'].len() <= p.len() && #[trigger] p.subrange(i, i + seq!['\\'].len()) == seq!['\\'];
        assert(p.subrange(i, i + 1)[0] == p[i]);
        assert(p.contains('\\'));
    }
    lemma_replaced_absent(p, seq!['\\'], seq!['/']);
}

} // verus!
