//! Which programs are watched.

use vstd::prelude::*;
use vstd::string::*;

verus! {

/// The names that each of a sequence of strings holds.
pub open spec fn names(list: Seq<String>) -> Seq<Seq<char>> {
    list.map_values(|name: String| name@)
}

/// The names that an optional list holds.
pub open spec fn names_of(list: Option<Vec<String>>) -> Option<Seq<Seq<char>>> {
    match list {
        Some(v) => Some(names(v@)),
        None => None,
    }
}

/// The programs watched where none is named.
pub open spec fn default_names() -> Seq<Seq<char>> {
    seq!["cp"@, "mv"@, "dd"@, "cat"@]
}

/// The programs to watch: those named in place of the usual ones, or the
/// usual ones, and after them those named in addition.
pub open spec fn watched_names(
    command: Option<Seq<Seq<char>>>,
    additional: Option<Seq<Seq<char>>>,
) -> Seq<Seq<char>> {
    (match command {
        Some(named) => named,
        None => default_names(),
    }) + (match additional {
        Some(more) => more,
        None => Seq::empty(),
    })
}

/// The programs watched where none is named: `cp`, `mv`, `dd` and `cat`.
pub fn default_programs() -> (list: Vec<String>)
    ensures
        names(list@) == default_names(),
{
    let mut list: Vec<String> = Vec::new();
    list.push(String::from_str("cp"));
    list.push(String::from_str("mv"));
    list.push(String::from_str("dd"));
    list.push(String::from_str("cat"));
    list
}

/// The programs to watch, from the lists that the command line gave.
pub fn watch_list(command: Option<Vec<String>>, additional: Option<Vec<String>>) -> (list: Vec<
    String,
>)
    ensures
        names(list@) == watched_names(names_of(command), names_of(additional)),
{
    let mut list = match command {
        Some(named) => named,
        None => default_programs(),
    };
    if let Some(mut more) = additional {
        list.append(&mut more);
    }
    list
}

/// Whether the program `name` is one of those to watch.
pub fn is_watched(list: &Vec<String>, name: &String) -> (b: bool)
    ensures
        b == names(list@).contains(name@),
{
    let mut i: usize = 0;
    while i < list.len()
        invariant
            i <= list.len(),
            forall|j: int| 0 <= j < i ==> names(list@)[j] != name@,
        decreases list.len() - i,
    {
        assert(names(list@)[i as int] == list@[i as int]@);
        if list[i] == *name {
            return true;
        }
        i = i + 1;
    }
    false
}

} // verus!
