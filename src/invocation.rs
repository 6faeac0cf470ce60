//! A program to run, with its arguments, working directory and environment.
use vstd::prelude::*;
use crate::text::views;

verus! {

/// One run of an outside program, described as plain values.
pub struct Invocation {
    /// The program to start.
    pub program: String,
    /// Its arguments, in order.
    pub args: Vec<String>,
    /// The directory to start it in; the caller's own when `None`.
    pub dir: Option<String>,
    /// Environment variables to set for it, as name and value.
    pub env: Vec<(String, String)>,
}

/// The views of a list of string slices.
pub open spec fn str_views(v: Seq<&str>) -> Seq<Seq<char>> {
    v.map_values(|x: &str| x@)
}

/// The views of a list of name and value pairs.
pub open spec fn pair_views(v: Seq<(String, String)>) -> Seq<(Seq<char>, Seq<char>)> {
    v.map_values(|p: (String, String)| (p.0@, p.1@))
}

/// The view of an optional string.
pub open spec fn opt_view(o: Option<String>) -> Option<Seq<char>> {
    match o {
        Some(s) => Some(s@),
        None => None,
    }
}

/// The view of an optional string slice.
pub open spec fn opt_str_view(o: Option<&str>) -> Option<Seq<char>> {
    match o {
        Some(s) => Some(s@),
        None => None,
    }
}

/// Appends a copy of each string of `items` to `args`.
pub fn push_all(args: &mut Vec<String>, items: &Vec<String>)
    ensures
        views(final(args)@) == views(old(args)@) + views(items@),
{
    let ghost start = views(args@);
    let mut i: usize = 0;
    while i < items.len()
        invariant
            i <= items@.len(),
            views(args@) == start + views(items@.subrange(0, i as int)),
        decreases items@.len() - i,
    {
        let ghost before = args@;
        args.push(items[i].clone());
        proof {
            assert(views(args@) =~= views(before).push(items@[i as int]@));
            assert(views(items@.subrange(0, i + 1)) =~= views(items@.subrange(0, i as int)).push(items@[i as int]@));
        }
        i = i + 1;
    }
    assert(items@.subrange(0, i as int) =~= items@);
}

/// Appends an owned copy of each string of `items` to `args`.
pub fn push_strs(args: &mut Vec<String>, items: &[&str])
    ensures
        views(final(args)@) == views(old(args)@) + str_views(items@),
{
    let ghost start = views(args@);
    let mut i: usize = 0;
    while i < items.len()
        invariant
            i <= items@.len(),
            views(args@) == start + str_views(items@.subrange(0, i as int)),
        decreases items@.len() - i,
    {
        let ghost before = args@;
        let s = items[i].to_owned();
        args.push(s);
        proof {
            assert(views(args@) =~= views(before).push(items@[i as int]@));
            assert(str_views(items@.subrange(0, i + 1)) =~= str_views(items@.subrange(0, i as int)).push(items@[i as int]@));
        }
        i = i + 1;
    }
    assert(items@.subrange(0, i as int) =~= items@);
}

} // verus!
