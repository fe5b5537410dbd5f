//! The configuration copy plan.
//!
//! A manifest lists one relative path per line.  Each entry is copied
//! from the running bank's root to the same path under the update
//! target's root — except an entry whose resolved source and
//! destination are the same path, which is skipped: such a self-copy
//! would be a configuration error.  The library computes the plan; the
//! caller performs the copies and stops at the first failure.

use vstd::prelude::*;

verus! {

/// The position of the first line break at or after `i`, or the end of
/// the text.
pub open spec fn line_end(s: Seq<char>, i: int) -> int
    decreases s.len() - i,
{
    if i < 0 || i >= s.len() {
        s.len() as int
    } else if s[i] == '\n' {
        i
    } else {
        line_end(s, i + 1)
    }
}

/// The first line break lies between `i` and the end of the text.
proof fn lemma_line_end_bounds(s: Seq<char>, i: int)
    requires
        0 <= i <= s.len(),
    ensures
        i <= line_end(s, i) <= s.len(),
    decreases s.len() - i,
{
    if i < s.len() && s[i] != '\n' {
        lemma_line_end_bounds(s, i + 1);
    }
}

/// A line without its carriage return, when one ends it.
pub open spec fn strip_cr(l: Seq<char>) -> Seq<char> {
    if l.len() > 0 && l[l.len() - 1] == '\r' {
        l.drop_last()
    } else {
        l
    }
}

/// The manifest's entries from position `pos` on: one entry per line,
/// line breaks dropped.
pub open spec fn manifest_lines_from(s: Seq<char>, pos: int) -> Seq<Seq<char>>
    decreases s.len() - pos,
    via manifest_lines_from_decreases
{
    if pos < 0 || pos >= s.len() {
        Seq::empty()
    } else {
        let e = line_end(s, pos);
        let line = strip_cr(s.subrange(pos, e));
        if e >= s.len() {
            seq![line]
        } else {
            seq![line] + manifest_lines_from(s, e + 1)
        }
    }
}

#[via_fn]
proof fn manifest_lines_from_decreases(s: Seq<char>, pos: int) {
    if 0 <= pos < s.len() {
        lemma_line_end_bounds(s, pos);
    }
}

/// The manifest's entries: one per line.
pub open spec fn manifest_lines(s: Seq<char>) -> Seq<Seq<char>> {
    manifest_lines_from(s, 0)
}

/// A path under `base`: `rel` itself when it is absolute, otherwise
/// `base` and `rel` joined with a separator.  Paths are compared as
/// text throughout the plan.
pub open spec fn spec_path_join(base: Seq<char>, rel: Seq<char>) -> Seq<char> {
    if rel.len() > 0 && rel[0] == '/' {
        rel
    } else if base.len() > 0 && base[base.len() - 1] == '/' {
        base + rel
    } else {
        base + "/"@ + rel
    }
}

/// Returns `rel` joined under `base`.
pub fn path_join(base: &str, rel: &str) -> (r: String)
    ensures
        r@ == spec_path_join(base@, rel@),
{
    if rel.unicode_len() > 0 && rel.get_char(0) == '/' {
        String::from_str(rel)
    } else if base.unicode_len() > 0 && base.get_char(base.unicode_len() - 1) == '/' {
        String::from_str(base).concat(rel)
    } else {
        String::from_str(base).concat("/").concat(rel)
    }
}

/// One manifest entry, resolved: where it is read, where it is
/// written, and whether it is skipped as a self-copy.
pub struct CopyEntry {
    pub from: String,
    pub to: String,
    pub skip: bool,
}

/// Returns the position of the first line break at or after `i`.
fn line_end_exec(s: &str, i: usize) -> (e: usize)
    requires
        i <= s@.len(),
    ensures
        e as int == line_end(s@, i as int),
        i <= e <= s@.len(),
{
    let n = s.unicode_len();
    let mut e = i;
    while e < n
        invariant
            i <= e <= n,
            n == s@.len(),
            line_end(s@, i as int) == line_end(s@, e as int),
        decreases n - e,
    {
        if s.get_char(e) == '\n' {
            return e;
        }
        e += 1;
    }
    e
}

/// Returns one manifest line as an owned string, without a trailing
/// carriage return.
fn take_line(s: &str, start: usize, end: usize) -> (r: String)
    requires
        start <= end <= s@.len(),
    ensures
        r@ == strip_cr(s@.subrange(start as int, end as int)),
{
    let line = s.substring_char(start, end);
    let m = line.unicode_len();
    if m > 0 && line.get_char(m - 1) == '\r' {
        proof {
            assert(line@.subrange(0, m - 1) =~= line@.drop_last());
        }
        String::from_str(line.substring_char(0, m - 1))
    } else {
        String::from_str(line)
    }
}

/// Resolves the manifest into the copy plan for `target_root`: each
/// line is copied from the running bank's root to the same path under
/// `target_root`, and an entry whose source and destination are the
/// same path is marked skipped.
pub fn copy_plan(target_root: &str, manifest: &str) -> (r: Vec<CopyEntry>)
    ensures
        r@.len() == manifest_lines(manifest@).len(),
        forall|k: int|
            0 <= k < r@.len() ==> {
                let name = manifest_lines(manifest@)[k];
                &&& (#[trigger] r@[k]).from@ == spec_path_join("/"@, name)
                &&& r@[k].to@ == spec_path_join(target_root@, name)
                &&& (r@[k].skip <==> spec_path_join("/"@, name) == spec_path_join(
                    target_root@,
                    name,
                ))
            },
{
    let n = manifest.unicode_len();
    let mut entries: Vec<CopyEntry> = Vec::new();
    let mut pos: usize = 0;
    let mut done: bool = n == 0;
    proof {
        assert(manifest_lines(manifest@).skip(0) =~= manifest_lines(manifest@));
    }
    while !done
        invariant
            pos <= n,
            n == manifest@.len(),
            done ==> entries@.len() == manifest_lines(manifest@).len(),
            !done ==> entries@.len() + manifest_lines_from(manifest@, pos as int).len()
                == manifest_lines(manifest@).len(),
            !done ==> manifest_lines_from(manifest@, pos as int) == manifest_lines(
                manifest@,
            ).skip(entries@.len() as int),
            forall|k: int|
                0 <= k < entries@.len() ==> {
                    let name = manifest_lines(manifest@)[k];
                    &&& (#[trigger] entries@[k]).from@ == spec_path_join("/"@, name)
                    &&& entries@[k].to@ == spec_path_join(target_root@, name)
                    &&& (entries@[k].skip <==> spec_path_join("/"@, name) == spec_path_join(
                        target_root@,
                        name,
                    ))
                },
            !done ==> pos < n,
        decreases n - pos + (if done { 0int } else { 1int }),
    {
        let ghost lines = manifest_lines(manifest@);
        let ghost rest = manifest_lines_from(manifest@, pos as int);
        let e = line_end_exec(manifest, pos);
        let name = take_line(manifest, pos, e);
        let from = path_join("/", name.as_str());
        let to = path_join(target_root, name.as_str());
        let skip = from.eq(&to);
        proof {
            assert(rest[0] == strip_cr(manifest@.subrange(pos as int, e as int)));
            assert(lines[entries@.len() as int] == rest[0]);
        }
        entries.push(CopyEntry { from, to, skip });
        if e >= n {
            done = true;
            proof {
                assert(rest =~= seq![strip_cr(manifest@.subrange(pos as int, e as int))]);
                assert(lines.skip(entries@.len() - 1) =~= rest);
                assert(entries@.len() == lines.len());
            }
        } else {
            pos = e + 1;
            proof {
                assert(rest.drop_first() =~= manifest_lines_from(manifest@, pos as int));
                assert(lines.skip(entries@.len() as int) =~= rest.drop_first());
            }
            if pos >= n {
                done = true;
                proof {
                    assert(manifest_lines_from(manifest@, pos as int) =~= Seq::<Seq<
                        char,
                    >>::empty());
                    assert(entries@.len() == lines.len());
                }
            }
        }
    }
    entries
}

} // verus!
