//! What the first run with a human at the terminal offers to set up.

use vstd::prelude::*;
use crate::distro::Family;
use crate::select::{classified_views, ClassifiedBox, ClassifiedBoxView};
use crate::text::{parse_u64, parsed_u64, to_chars, trim, trimmed};

verus! {

/// Whether `s` has an entry for the family `f`.
pub open spec fn has_entry(s: Seq<(Family, Seq<char>)>, f: Family) -> bool {
    exists|i: int| 0 <= i < s.len() && (#[trigger] s[i]).0 == f
}

/// For each family that occurs among `c`, the first container of that
/// family, the families in the order in which they first occur.
pub open spec fn first_per_family(c: Seq<ClassifiedBoxView>) -> Seq<(Family, Seq<char>)>
    decreases c.len(),
{
    if c.len() == 0 {
        Seq::empty()
    } else {
        let prev = first_per_family(c.drop_last());
        match c.last().family {
            Some(f) => if has_entry(prev, f) {
                prev
            } else {
                prev.push((f, c.last().name))
            },
            None => prev,
        }
    }
}

/// What a vector of family defaults holds.
pub open spec fn default_views(v: Seq<(Family, String)>) -> Seq<(Family, Seq<char>)> {
    Seq::new(v.len(), |i: int| (v[i].0, v[i].1@))
}

/// The defaults that the first run proposes: for each family the first
/// container that has it.
pub fn first_box_per_family(classified: &Vec<ClassifiedBox>) -> (r: Vec<(Family, String)>)
    ensures
        default_views(r@) == first_per_family(classified_views(classified@)),
{
    let ghost c = classified_views(classified@);
    let mut r: Vec<(Family, String)> = Vec::new();
    let mut i: usize = 0;
    assert(default_views(r@) =~= first_per_family(c.take(0)));
    while i < classified.len()
        invariant
            i <= classified.len(),
            c == classified_views(classified@),
            default_views(r@) == first_per_family(c.take(i as int)),
        decreases classified.len() - i,
    {
        let ghost before = default_views(r@);
        assert(c.take(i + 1).drop_last() =~= c.take(i as int));
        assert(c.take(i + 1).last() == classified@[i as int]@);
        if let Some(f) = classified[i].family {
            let mut known = false;
            let mut k: usize = 0;
            while k < r.len()
                invariant_except_break
                    !known,
                    forall|j: int| 0 <= j < k ==> (#[trigger] before[j]).0 != f,
                invariant
                    k <= r.len(),
                    before == default_views(r@),
                ensures
                    known == has_entry(before, f),
                decreases r.len() - k,
            {
                assert(before[k as int].0 == r@[k as int].0);
                if r[k].0 == f {
                    known = true;
                    break ;
                }
                k += 1;
            }
            if !known {
                r.push((f, classified[i].name.clone()));
                assert(default_views(r@) =~= before.push((f, classified@[i as int]@.name)));
            }
        }
        i += 1;
    }
    assert(c.take(classified.len() as int) =~= c);
    r
}

/// The number that a count printed by a command writes; 0 where it writes
/// none.
pub open spec fn counted(text: Seq<char>) -> u64 {
    match parsed_u64(trim(text)) {
        Some(n) => n,
        None => 0,
    }
}

/// Reads a count that a command printed.
pub fn app_count(text: &str) -> (n: u64)
    ensures
        n == counted(text@),
{
    match parse_u64(trimmed(to_chars(text).as_slice()).as_slice()) {
        Some(n) => n,
        None => 0,
    }
}

/// What the first run does.
#[derive(Clone, Copy, Debug, PartialEq, Eq, Structural)]
pub enum FirstRun {
    /// Nothing now: it was done before, or nobody is there to answer.
    Skip,
    /// Nothing to offer: remember that the first run is over.
    Finish,
    /// Tell what was found and offer to set it up.
    Offer,
}

/// What the first run does, given whether it was done before, whether a
/// human sits at the terminal, and how many containers, families and
/// desktop entries were found.
pub open spec fn first_run(
    done: bool,
    interactive: bool,
    boxes: usize,
    families: usize,
    total_apps: u64,
) -> FirstRun {
    if done || !interactive {
        FirstRun::Skip
    } else if boxes == 0 || (families == 0 && total_apps == 0) {
        FirstRun::Finish
    } else {
        FirstRun::Offer
    }
}

/// Decides what the first run does.
pub fn first_run_step(done: bool, interactive: bool, boxes: usize, families: usize, total_apps: u64) -> (r:
    FirstRun)
    ensures
        r == first_run(done, interactive, boxes, families, total_apps),
{
    if done || !interactive {
        FirstRun::Skip
    } else if boxes == 0 || (families == 0 && total_apps == 0) {
        FirstRun::Finish
    } else {
        FirstRun::Offer
    }
}

} // verus!
