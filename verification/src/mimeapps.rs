//! The user's list of default applications, as text.

use vstd::prelude::*;
use vstd::string::StringExecFns;
use crate::text::{
    contains, find_char, find_from, includes, lines, push_chars, same, slice_to_vec, split_lines,
    str_views, to_chars, trim, trimmed, views,
};

verus! {

/// The heading of the section of default applications.
pub open spec fn heading() -> Seq<char> {
    "[Default Applications]"@
}

/// The line that makes this program the default for the file type `mime`.
pub open spec fn default_line(mime: Seq<char>) -> Seq<char> {
    mime + "=pkgbridge.desktop;"@
}

/// The first index at or after `i` whose line, trimmed, is the heading of
/// the section, or the length.
pub open spec fn heading_from(ls: Seq<Seq<char>>, i: int) -> int
    decreases ls.len() - i,
{
    if 0 <= i < ls.len() && trim(ls[i]) != heading() {
        heading_from(ls, i + 1)
    } else {
        i
    }
}

/// The first index at or after `i` whose line opens a section, or the
/// length.
pub open spec fn section_end(ls: Seq<Seq<char>>, i: int) -> int
    decreases ls.len() - i,
{
    if 0 <= i < ls.len() && !(ls[i].len() > 0 && ls[i][0] == '[') {
        section_end(ls, i + 1)
    } else {
        i
    }
}

/// The file type that a line sets a default for: what stands before its
/// first equals sign, trimmed.
pub open spec fn line_key(l: Seq<char>) -> Option<Seq<char>> {
    let e = find_from(l, '=', 0);
    if e < l.len() {
        Some(trim(l.take(e)))
    } else {
        None
    }
}

/// The last index in `lo..hi` whose line sets a default for `key`, or -1.
pub open spec fn last_for(ls: Seq<Seq<char>>, lo: int, hi: int, key: Seq<char>) -> int
    decreases hi - lo,
{
    if hi <= lo || hi > ls.len() || lo < 0 {
        -1
    } else if line_key(ls[hi - 1]) == Some(key) {
        hi - 1
    } else {
        last_for(ls, lo, hi - 1, key)
    }
}

/// The lines of a list of default applications with a section for them: a
/// list without one gets the heading and an empty line at its end.
pub open spec fn with_section(ls: Seq<Seq<char>>) -> Seq<Seq<char>> {
    if heading_from(ls, 0) >= ls.len() {
        ls.push(heading()).push(Seq::empty())
    } else {
        ls
    }
}

/// The lines `base` after this program was made the default for each of
/// `mimes`, where the section's lines are `base[lo..hi]`: the last line
/// that set a default for a file type is replaced, and a file type without
/// one gets a new line at the end of the section.
pub open spec fn with_defaults(base: Seq<Seq<char>>, lo: int, hi: int, mimes: Seq<Seq<char>>) -> (
    Seq<Seq<char>>,
    int,
)
    decreases mimes.len(),
{
    if mimes.len() == 0 {
        (base, hi)
    } else {
        let (cur, end) = with_defaults(base, lo, hi, mimes.drop_last());
        let j = last_for(base, lo, hi, mimes.last());
        if j >= 0 {
            (cur.update(j, default_line(mimes.last())), end)
        } else {
            (cur.insert(end, default_line(mimes.last())), end + 1)
        }
    }
}

/// The text made of the lines `ls`, each ended by a line feed.
pub open spec fn rendered(ls: Seq<Seq<char>>) -> Seq<char>
    decreases ls.len(),
{
    if ls.len() == 0 {
        Seq::empty()
    } else {
        rendered(ls.drop_last()) + ls.last() + seq!['\n']
    }
}

/// The list of default applications `data` after this program was made the
/// default for each of `mimes`.
pub open spec fn ensured(data: Seq<char>, mimes: Seq<Seq<char>>) -> Seq<char> {
    let ls = with_section(lines(data));
    let lo = heading_from(ls, 0) + 1;
    rendered(with_defaults(ls, lo, section_end(ls, lo), mimes).0)
}

/// The lines `ls[lo..hi]` without those that make this program a default.
pub open spec fn without_ours(ls: Seq<Seq<char>>, lo: int, hi: int) -> Seq<Seq<char>>
    decreases hi - lo,
{
    if hi <= lo || hi > ls.len() || lo < 0 {
        Seq::empty()
    } else if contains(ls[hi - 1], "=pkgbridge.desktop;"@) {
        without_ours(ls, lo, hi - 1)
    } else {
        without_ours(ls, lo, hi - 1).push(ls[hi - 1])
    }
}

/// The list of default applications `data` without the lines of its section
/// that make this program a default; `None` where it has no such section.
pub open spec fn removed(data: Seq<char>) -> Option<Seq<char>> {
    let ls = lines(data);
    let h = heading_from(ls, 0);
    if h >= ls.len() {
        None
    } else {
        let end = section_end(ls, h + 1);
        Some(
            rendered(
                ls.take(h + 1) + without_ours(ls, h + 1, end) + ls.subrange(end, ls.len() as int),
            ),
        )
    }
}

pub proof fn lemma_heading_bounds(ls: Seq<Seq<char>>, i: int)
    requires
        0 <= i <= ls.len(),
    ensures
        i <= heading_from(ls, i) <= ls.len(),
    decreases ls.len() - i,
{
    if i < ls.len() && trim(ls[i]) != heading() {
        lemma_heading_bounds(ls, i + 1);
    }
}

pub proof fn lemma_heading_is_trimmed()
    ensures
        trim(heading()) == heading(),
{
    reveal_strlit("[Default Applications]");
    let s = heading();
    assert(s.len() == 22);
    assert(s[0] == '[');
    assert(s[21] == ']');
    assert(trim(s) =~= s);
}

pub proof fn lemma_heading_reaches(old_lines: Seq<Seq<char>>, base: Seq<Seq<char>>, i: int)
    requires
        base == old_lines.push(heading()).push(Seq::empty()),
        0 <= i <= old_lines.len(),
        heading_from(old_lines, i) >= old_lines.len(),
    ensures
        heading_from(base, i) == old_lines.len(),
    decreases old_lines.len() - i,
{
    if i < old_lines.len() {
        assert(base[i] == old_lines[i]);
        lemma_heading_bounds(old_lines, i + 1);
        lemma_heading_reaches(old_lines, base, i + 1);
    } else {
        lemma_heading_is_trimmed();
        assert(base[i] == heading());
    }
}

fn find_heading(ls: &Vec<Vec<char>>) -> (h: usize)
    ensures
        h == heading_from(views(ls@), 0),
        h <= ls.len(),
{
    let head = to_chars("[Default Applications]");
    let mut h: usize = 0;
    while h < ls.len()
        invariant
            h <= ls.len(),
            head@ == heading(),
            heading_from(views(ls@), h as int) == heading_from(views(ls@), 0),
        decreases ls.len() - h,
    {
        assert(views(ls@)[h as int] == ls@[h as int]@);
        if same(trimmed(ls[h].as_slice()).as_slice(), head.as_slice()) {
            return h;
        }
        h += 1;
    }
    h
}

fn find_section_end(ls: &Vec<Vec<char>>, i: usize) -> (e: usize)
    requires
        i <= ls.len(),
    ensures
        e == section_end(views(ls@), i as int),
        i <= e <= ls.len(),
{
    let mut e: usize = i;
    while e < ls.len()
        invariant
            i <= e <= ls.len(),
            section_end(views(ls@), e as int) == section_end(views(ls@), i as int),
        decreases ls.len() - e,
    {
        assert(views(ls@)[e as int] == ls@[e as int]@);
        if ls[e].len() > 0 && ls[e][0] == '[' {
            return e;
        }
        e += 1;
    }
    e
}

fn key_is(l: &Vec<char>, key: &Vec<char>) -> (b: bool)
    ensures
        b == (line_key(l@) == Some(key@)),
{
    let e = find_char(l.as_slice(), '=', 0);
    if e < l.len() {
        let before = slice_to_vec(l.as_slice(), 0, e);
        assert(before@ =~= l@.take(e as int));
        same(trimmed(before.as_slice()).as_slice(), key.as_slice())
    } else {
        false
    }
}

fn find_last_for(ls: &Vec<Vec<char>>, lo: usize, hi: usize, key: &Vec<char>) -> (r: Option<usize>)
    requires
        lo <= hi <= ls.len(),
    ensures
        match r {
            Some(j) => last_for(views(ls@), lo as int, hi as int, key@) == j && lo <= j < hi,
            None => last_for(views(ls@), lo as int, hi as int, key@) == -1,
        },
{
    let mut j: usize = hi;
    while j > lo
        invariant
            lo <= j <= hi <= ls.len(),
            last_for(views(ls@), lo as int, j as int, key@) == last_for(
                views(ls@),
                lo as int,
                hi as int,
                key@,
            ),
        decreases j,
    {
        assert(views(ls@)[j - 1] == ls@[j - 1]@);
        if key_is(&ls[j - 1], key) {
            return Some(j - 1);
        }
        j -= 1;
    }
    None
}

fn render(ls: &Vec<Vec<char>>) -> (r: String)
    ensures
        r@ == rendered(views(ls@)),
{
    let ghost all = views(ls@);
    let mut out = String::new();
    let mut i: usize = 0;
    assert(all.take(0) =~= Seq::<Seq<char>>::empty());
    while i < ls.len()
        invariant
            i <= ls.len(),
            all == views(ls@),
            out@ == rendered(all.take(i as int)),
        decreases ls.len() - i,
    {
        assert(all.take(i + 1).drop_last() =~= all.take(i as int));
        assert(all.take(i + 1).last() == ls@[i as int]@);
        push_chars(&mut out, ls[i].as_slice());
        out.push('\n');
        assert(out@ =~= rendered(all.take(i as int)) + ls@[i as int]@ + seq!['\n']);
        i += 1;
    }
    assert(all.take(ls.len() as int) =~= all);
    out
}

fn copy_lines(ls: &Vec<Vec<char>>) -> (r: Vec<Vec<char>>)
    ensures
        views(r@) == views(ls@),
{
    let mut r: Vec<Vec<char>> = Vec::new();
    let mut i: usize = 0;
    while i < ls.len()
        invariant
            i <= ls.len(),
            r@.len() == i,
            forall|j: int| 0 <= j < i ==> r@[j]@ == ls@[j]@,
        decreases ls.len() - i,
    {
        let l = slice_to_vec(ls[i].as_slice(), 0, ls[i].len());
        assert(l@ =~= ls@[i as int]@);
        r.push(l);
        i += 1;
    }
    assert(views(r@) =~= views(ls@));
    r
}

/// Makes this program the default application for each of the file types
/// `mimes` in the list of default applications `data`, which is empty where
/// there is no list yet, and gives the new text of the list.
pub fn ensure_mimeapps_defaults(data: &str, mimes: &Vec<String>) -> (r: String)
    ensures
        r@ == ensured(data@, str_views(mimes@)),
{
    let mut ls = split_lines(to_chars(data).as_slice());
    let ghost old_lines = views(ls@);
    let h0 = find_heading(&ls);
    if h0 >= ls.len() {
        ls.push(to_chars("[Default Applications]"));
        ls.push(Vec::new());
        assert(views(ls@) =~= old_lines.push(heading()).push(Seq::empty()));
    }
    let ghost base = views(ls@);
    assert(base == with_section(lines(data@)));
    let h = find_heading(&ls);
    proof {
        lemma_heading_bounds(base, 0);
        if h0 >= old_lines.len() {
            lemma_heading_reaches(old_lines, base, 0);
        }
    }
    assert(h < ls.len());
    let lo: usize = h + 1;
    let hi = find_section_end(&ls, lo);
    let initial = copy_lines(&ls);
    let ghost want = str_views(mimes@);
    let mut end: usize = hi;
    let mut k: usize = 0;
    assert(want.take(0) =~= Seq::<Seq<char>>::empty());
    while k < mimes.len()
        invariant
            k <= mimes.len(),
            want == str_views(mimes@),
            views(initial@) == base,
            lo <= hi <= base.len(),
            views(ls@) == with_defaults(base, lo as int, hi as int, want.take(k as int)).0,
            end == with_defaults(base, lo as int, hi as int, want.take(k as int)).1,
            hi <= end <= ls.len(),
            ls.len() - end == base.len() - hi,
        decreases mimes.len() - k,
    {
        let ghost before = views(ls@);
        assert(want.take(k + 1).drop_last() =~= want.take(k as int));
        assert(want.take(k + 1).last() == mimes@[k as int]@);
        let key = to_chars(mimes[k].as_str());
        let mut entry = mimes[k].clone();
        entry.append("=pkgbridge.desktop;");
        let line = to_chars(entry.as_str());
        match find_last_for(&initial, lo, hi, &key) {
            Some(j) => {
                ls.set(j, line);
                assert(views(ls@) =~= before.update(j as int, default_line(mimes@[k as int]@)));
            },
            None => {
                ls.insert(end, line);
                assert(views(ls@) =~= before.insert(end as int, default_line(mimes@[k as int]@)));
                assert(end < ls.len());
                end += 1;
            },
        }
        k += 1;
    }
    assert(want.take(mimes.len() as int) =~= want);
    render(&ls)
}

/// Takes the lines that make this program a default application out of the
/// section of defaults in the list `data`, and gives the new text of the
/// list; `None` where the list has no such section, and stays as it is.
pub fn remove_mimeapps_defaults(data: &str) -> (r: Option<String>)
    ensures
        match r {
            Some(t) => removed(data@) == Some(t@),
            None => removed(data@) is None,
        },
{
    let ls = split_lines(to_chars(data).as_slice());
    let ghost all = views(ls@);
    let h = find_heading(&ls);
    if h >= ls.len() {
        return None;
    }
    let end = find_section_end(&ls, h + 1);
    let ours = to_chars("=pkgbridge.desktop;");
    let mut kept: Vec<Vec<char>> = Vec::new();
    let mut i: usize = 0;
    while i < h + 1
        invariant
            i <= h + 1 <= ls.len(),
            all == views(ls@),
            views(kept@) == all.take(i as int),
        decreases h + 1 - i,
    {
        let ghost before = views(kept@);
        let l = slice_to_vec(ls[i].as_slice(), 0, ls[i].len());
        assert(l@ =~= ls@[i as int]@);
        kept.push(l);
        assert(views(kept@) =~= before.push(ls@[i as int]@));
        assert(all.take(i + 1) =~= all.take(i as int).push(all[i as int]));
        i += 1;
    }
    let ghost head = views(kept@);
    assert(head + without_ours(all, h + 1, h + 1) =~= head);
    while i < end
        invariant
            h + 1 <= i <= end <= ls.len(),
            all == views(ls@),
            ours@ == "=pkgbridge.desktop;"@,
            views(kept@) == head + without_ours(all, h + 1, i as int),
        decreases end - i,
    {
        let ghost before = views(kept@);
        assert(all[i as int] == ls@[i as int]@);
        if !includes(ls[i].as_slice(), ours.as_slice()) {
            let l = slice_to_vec(ls[i].as_slice(), 0, ls[i].len());
            assert(l@ =~= ls@[i as int]@);
            kept.push(l);
            assert(views(kept@) =~= before.push(ls@[i as int]@));
            assert(views(kept@) =~= head + without_ours(all, h + 1, i + 1));
        } else {
            assert(views(kept@) =~= head + without_ours(all, h + 1, i + 1));
        }
        i += 1;
    }
    let ghost middle = views(kept@);
    assert(all.subrange(end as int, end as int) =~= Seq::<Seq<char>>::empty());
    assert(middle + all.subrange(end as int, end as int) =~= middle);
    while i < ls.len()
        invariant
            end <= i <= ls.len(),
            all == views(ls@),
            views(kept@) == middle + all.subrange(end as int, i as int),
        decreases ls.len() - i,
    {
        let ghost before = views(kept@);
        let l = slice_to_vec(ls[i].as_slice(), 0, ls[i].len());
        assert(l@ =~= ls@[i as int]@);
        kept.push(l);
        assert(views(kept@) =~= before.push(ls@[i as int]@));
        assert(all.subrange(end as int, i + 1) =~= all.subrange(end as int, i as int).push(
            all[i as int],
        ));
        assert(views(kept@) =~= middle + all.subrange(end as int, i + 1));
        i += 1;
    }
    Some(render(&kept))
}

} // verus!
