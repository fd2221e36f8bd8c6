//! Named command-line options of the form `--name value`.
use vstd::prelude::*;
use crate::keyboard::views;
use crate::strings::{i32_parse, parse_i32, same_text};

verus! {

/// The index of the first argument equal to `name`, if any.
pub open spec fn first_index(args: Seq<Seq<char>>, name: Seq<char>) -> Option<int> {
    if exists|i: int| 0 <= i < args.len() && args[i] == name {
        let i = choose|i: int|
            0 <= i < args.len() && args[i] == name && forall|j: int| 0 <= j < i ==> args[j] != name;
        Some(i)
    } else {
        None
    }
}

/// The argument after the first occurrence of `name`, if both exist.
pub open spec fn value_after(args: Seq<Seq<char>>, name: Seq<char>) -> Option<Seq<char>> {
    match first_index(args, name) {
        Some(i) => if i + 1 < args.len() {
            Some(args[i + 1])
        } else {
            None
        },
        None => None,
    }
}

proof fn lemma_first_index(args: Seq<Seq<char>>, name: Seq<char>, i: int)
    requires
        0 <= i < args.len(),
        args[i] == name,
        forall|j: int| 0 <= j < i ==> args[j] != name,
    ensures
        first_index(args, name) == Some(i),
{
    let k = choose|k: int|
        0 <= k < args.len() && args[k] == name && forall|j: int| 0 <= j < k ==> args[j] != name;
    if k < i {
        assert(args[k] != name);
    } else if k > i {
        assert(args[i] != name);
    }
}

fn find(args: &Vec<String>, name: &str) -> (r: Option<usize>)
    ensures
        match r {
            Some(i) => i < args@.len() && first_index(views(args@), name@) == Some(i as int),
            None => first_index(views(args@), name@) is None,
        },
{
    let ghost a = views(args@);
    let mut i: usize = 0;
    while i < args.len()
        invariant
            i <= args@.len(),
            a == views(args@),
            forall|j: int| 0 <= j < i ==> a[j] != name@,
        decreases args@.len() - i,
    {
        if same_text(args[i].as_str(), name) {
            proof {
                lemma_first_index(a, name@, i as int);
            }
            return Some(i);
        }
        i = i + 1;
    }
    None
}

/// The `i32` after the first `name`, or `default` when it is missing or
/// does not parse.
pub fn parse_arg(args: &Vec<String>, name: &str, default: i32) -> (r: i32)
    ensures
        r == match value_after(views(args@), name@) {
            Some(v) => match i32_parse(v) {
                Some(x) => x,
                None => default as int,
            },
            None => default as int,
        },
{
    let found = find(args, name);
    match found {
        Some(i) => if i < args.len() - 1 {
            assert(views(args@)[i + 1] == args@[i + 1]@);
            assert(value_after(views(args@), name@) == Some(args@[i + 1]@));
            match parse_i32(args[i + 1].as_str()) {
                Some(v) => v,
                None => default,
            }
        } else {
            default
        },
        None => default,
    }
}

/// The argument after the first `name`, or `default` when it is missing.
pub fn parse_arg_string(args: &Vec<String>, name: &str, default: &str) -> (r: String)
    ensures
        r@ == match value_after(views(args@), name@) {
            Some(v) => v,
            None => default@,
        },
{
    let found = find(args, name);
    match found {
        Some(i) => if i < args.len() - 1 {
            assert(views(args@)[i + 1] == args@[i + 1]@);
            assert(value_after(views(args@), name@) == Some(args@[i + 1]@));
            args[i + 1].clone()
        } else {
            default.to_owned()
        },
        None => default.to_owned(),
    }
}

} // verus!
