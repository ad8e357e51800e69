//! Choosing a MIDI port by name.

use vstd::prelude::*;

use crate::text::{contains, occurs, occurs_at};

verus! {

/// A text in lower case, as Unicode defines it.
pub uninterp spec fn lowercased(text: Seq<char>) -> Seq<char>;

/// Calls `str::to_lowercase` of the standard library. The result is the lower
/// case form of the text, a function of the text alone; which characters change
/// and how is left to the standard library's Unicode tables.
#[verifier::external_body]
fn lowercase(text: &str) -> (lower: String)
    ensures
        lower@ == lowercased(text@),
{
    text.to_lowercase()
}

/// Whether a port of this (lower case) name is a match for the wanted name; a
/// port whose name cannot be read never is.
pub open spec fn port_matches(name: Option<Seq<char>>, wanted: Seq<char>) -> bool {
    name matches Some(n) && occurs(n, wanted)
}

/// The view of a list of port names.
pub open spec fn names_view(names: Seq<Option<String>>) -> Seq<Option<Seq<char>>> {
    names.map_values(
        |name: Option<String>|
            match name {
                Some(n) => Some(n@),
                None => None,
            },
    )
}

/// Port names in lower case.
pub open spec fn names_lowercased(names: Seq<Option<Seq<char>>>) -> Seq<Option<Seq<char>>> {
    names.map_values(
        |name: Option<Seq<char>>|
            match name {
                Some(n) => Some(lowercased(n)),
                None => None,
            },
    )
}

/// `choice` is the first port that matches, or `None` where there is none.
pub open spec fn is_first_match(
    names: Seq<Option<Seq<char>>>,
    wanted: Seq<char>,
    choice: Option<usize>,
) -> bool {
    match choice {
        Some(i) => {
            &&& i < names.len()
            &&& port_matches(names[i as int], wanted)
            &&& forall|j: int| 0 <= j < i ==> !port_matches(#[trigger] names[j], wanted)
        },
        None => forall|j: int| 0 <= j < names.len() ==> !port_matches(#[trigger] names[j], wanted),
    }
}

/// The first port whose name contains the wanted name, letter case included.
pub fn first_match(names: &Vec<Option<String>>, wanted: &str) -> (choice: Option<usize>)
    ensures
        is_first_match(names_view(names@), wanted@, choice),
{
    let mut i: usize = 0;
    while i < names.len()
        invariant
            i <= names@.len(),
            forall|j: int|
                0 <= j < i ==> !port_matches(#[trigger] names_view(names@)[j], wanted@),
        decreases names@.len() - i,
    {
        if let Some(name) = &names[i] {
            if contains(name.as_str(), wanted) {
                return Some(i);
            }
        }
        i = i + 1;
    }
    None
}

/// The first port whose name contains the device name, letter case aside.
/// `None` stands for a port whose name cannot be read.
pub fn find_port(names: &Vec<Option<String>>, device_name: &str) -> (choice: Option<usize>)
    ensures
        is_first_match(
            names_lowercased(names_view(names@)),
            lowercased(device_name@),
            choice,
        ),
{
    let wanted = lowercase(device_name);
    let mut lower: Vec<Option<String>> = Vec::new();
    let mut i: usize = 0;
    while i < names.len()
        invariant
            i <= names@.len(),
            lower@.len() == i,
            forall|j: int|
                0 <= j < i ==> names_view(lower@)[j] == #[trigger] names_lowercased(
                    names_view(names@),
                )[j],
        decreases names@.len() - i,
    {
        let entry: Option<String> = match &names[i] {
            Some(name) => Some(lowercase(name.as_str())),
            None => None,
        };
        lower.push(entry);
        i = i + 1;
    }
    assert(names_view(lower@) =~= names_lowercased(names_view(names@)));
    first_match(&lower, wanted.as_str())
}

/// The port that is chosen has the wanted name in its own, letter case aside, and no
/// port before it has. Where none is chosen, no port has.
pub proof fn law_choice(names: Seq<Option<Seq<char>>>, wanted: Seq<char>, choice: Option<usize>)
    requires
        is_first_match(names_lowercased(names), lowercased(wanted), choice),
    ensures
        choice matches Some(i) ==> {
            &&& i < names.len()
            &&& names[i as int] matches Some(name) && exists|at: int|
                0 <= at && at + lowercased(wanted).len() <= lowercased(name).len()
                    && #[trigger] lowercased(name).subrange(at, at + lowercased(wanted).len())
                    == lowercased(wanted)
        },
        forall|j: int, at: int|
            #![trigger lowercased(names[j]->0).subrange(at, at + lowercased(wanted).len())]
            0 <= j < names.len() && (choice matches Some(i) ==> j < i) && names[j] is Some && 0 <= at
                && at + lowercased(wanted).len() <= lowercased(names[j]->0).len() ==> lowercased(
                names[j]->0,
            ).subrange(at, at + lowercased(wanted).len()) != lowercased(wanted),
{
    let w = lowercased(wanted);
    if let Some(i) = choice {
        let name = names_lowercased(names)[i as int]->0;
        let at = choose|at: int| #[trigger] occurs_at(name, at, w);
        assert(names[i as int] is Some);
        assert(name == lowercased(names[i as int]->0));
        assert(name.subrange(at, at + w.len()) == w);
    }
    assert forall|j: int, at: int|
        #![trigger lowercased(names[j]->0).subrange(at, at + w.len())]
        0 <= j < names.len() && (choice matches Some(i) ==> j < i) && names[j] is Some && 0 <= at
            && at + w.len() <= lowercased(names[j]->0).len() implies lowercased(
        names[j]->0,
    ).subrange(at, at + w.len()) != w by {
        assert(!port_matches(names_lowercased(names)[j], w));
        assert(names_lowercased(names)[j] == Some(lowercased(names[j]->0)));
        assert(!occurs_at(lowercased(names[j]->0), at, w));
    }
}

/// A name that can be read is taken as it is.
pub proof fn law_names(names: Seq<Option<String>>, i: int)
    requires
        0 <= i < names.len(),
    ensures
        names_view(names).len() == names.len(),
        names[i] matches Some(name) ==> names_view(names)[i] == Some(name@),
        names[i] is None ==> names_view(names)[i] is None,
{
}

} // verus!
