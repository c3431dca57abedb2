//! Building the list of tracked spaces from the configured names and the
//! directory of status endpoints.

use vstd::prelude::*;
use crate::normalize::safe_entity_name;
use crate::space::{entity_label, Space, SpaceView};
use crate::status::FetchError;

verus! {

/// Why no registry could be built.
#[derive(Clone, Copy, Debug, PartialEq, Eq, Structural)]
pub enum RegistryError {
    /// The directory response is not a JSON object of names to URLs.
    DirectoryParse,
    /// None of the configured spaces is in the directory and reachable.
    NoEligibleSpace,
}

/// The pieces of `s` between semicolons, in order; an empty text gives one
/// empty piece.
pub open spec fn split_list(s: Seq<char>) -> Seq<Seq<char>>
    decreases s.len(),
{
    if s.len() == 0 {
        seq![Seq::<char>::empty()]
    } else {
        let init = split_list(s.drop_last());
        if s.last() == ';' {
            init.push(Seq::<char>::empty())
        } else {
            init.update(init.len() - 1, init.last().push(s.last()))
        }
    }
}

proof fn lemma_split_list_nonempty(s: Seq<char>)
    ensures
        split_list(s).len() >= 1,
    decreases s.len(),
{
    if s.len() > 0 {
        lemma_split_list_nonempty(s.drop_last());
    }
}

/// Splits a semicolon-separated list of names.
pub fn split_space_list(list: &str) -> (r: Vec<String>)
    ensures
        r.deep_view() == split_list(list@),
{
    let n = list.unicode_len();
    let mut done: Vec<String> = Vec::new();
    let mut start: usize = 0;
    let mut i: usize = 0;
    assert(done.deep_view() =~= Seq::<Seq<char>>::empty());
    assert(list@.subrange(0, 0) =~= Seq::<char>::empty());
    assert(done.deep_view().push(list@.subrange(0, 0)) =~= split_list(list@.subrange(0, 0)));
    while i < n
        invariant
            n == list@.len(),
            start <= i <= n,
            split_list(list@.subrange(0, i as int)) == done.deep_view().push(
                list@.subrange(start as int, i as int),
            ),
        decreases n - i,
    {
        let c = list.get_char(i);
        let ghost prefix = list@.subrange(0, i + 1);
        assert(prefix.drop_last() =~= list@.subrange(0, i as int));
        proof {
            lemma_split_list_nonempty(list@.subrange(0, i as int));
        }
        if c == ';' {
            done.push(String::from_str(list.substring_char(start, i)));
            start = i + 1;
            assert(list@.subrange(start as int, i + 1) =~= Seq::<char>::empty());
            assert(split_list(prefix) =~= done.deep_view().push(
                list@.subrange(start as int, i + 1),
            ));
        } else {
            assert(list@.subrange(start as int, i as int).push(c) =~= list@.subrange(
                start as int,
                i + 1,
            ));
            assert(split_list(prefix) =~= done.deep_view().push(
                list@.subrange(start as int, i + 1),
            ));
        }
        i = i + 1;
    }
    assert(list@.subrange(0, n as int) =~= list@);
    done.push(String::from_str(list.substring_char(start, n)));
    assert(done.deep_view() =~= split_list(list@));
    done
}

/// The URL of the first directory entry named `name`.
pub open spec fn dir_lookup(entries: Seq<(Seq<char>, Seq<char>)>, name: Seq<char>) -> Option<
    Seq<char>,
>
    decreases entries.len(),
{
    if entries.len() == 0 {
        None
    } else if entries[0].0 == name {
        Some(entries[0].1)
    } else {
        dir_lookup(entries.drop_first(), name)
    }
}

/// Looks `name` up in the directory.
pub fn find_endpoint(directory: &Vec<(String, String)>, name: &String) -> (r: Option<String>)
    ensures
        r.deep_view() == dir_lookup(directory.deep_view(), name@),
{
    let ghost d = directory.deep_view();
    let mut i: usize = 0;
    assert(d.subrange(0, d.len() as int) =~= d);
    while i < directory.len()
        invariant
            d == directory.deep_view(),
            i <= directory.len(),
            dir_lookup(d, name@) == dir_lookup(d.subrange(i as int, d.len() as int), name@),
        decreases directory.len() - i,
    {
        let ghost rest = d.subrange(i as int, d.len() as int);
        assert(rest.drop_first() =~= d.subrange(i + 1, d.len() as int));
        assert(rest[0] == d[i as int]);
        if directory[i].0.eq(name) {
            return Some(directory[i].1.clone());
        }
        i = i + 1;
    }
    None
}

/// The directory held by a directory response body: `None` where `body` is
/// no JSON object of strings to strings.
pub uninterp spec fn directory_entries(body: Seq<char>) -> Option<Seq<(Seq<char>, Seq<char>)>>;

/// Relies on serde_json::from_str into a BTreeMap of strings: whether the text
/// parses, and the entries in key order, depend on the text alone.
#[verifier::external_body]
fn parse_directory_document(body: &str) -> (r: Result<Vec<(String, String)>, serde_json::Error>)
    ensures
        r is Ok <==> directory_entries(body@) is Some,
        r is Ok ==> directory_entries(body@) == Some(r->Ok_0.deep_view()),
{
    serde_json::from_str::<std::collections::BTreeMap<String, String>>(body).map(
        |m| m.into_iter().collect(),
    )
}

/// Reads the directory, name to endpoint URL, from its response body.
pub fn parse_directory(body: &str) -> (r: Result<Vec<(String, String)>, RegistryError>)
    ensures
        match directory_entries(body@) {
            Some(entries) => r is Ok && r->Ok_0.deep_view() == entries,
            None => r == Err::<Vec<(String, String)>, RegistryError>(
                RegistryError::DirectoryParse,
            ),
        },
{
    match parse_directory_document(body) {
        Ok(entries) => Ok(entries),
        Err(_) => Err(RegistryError::DirectoryParse),
    }
}

/// The configured names, in order, each with its endpoint in the directory.
pub open spec fn plan_of(list: Seq<char>, directory: Seq<(Seq<char>, Seq<char>)>) -> Seq<
    (Seq<char>, Option<Seq<char>>),
> {
    split_list(list).map_values(|n: Seq<char>| (n, dir_lookup(directory, n)))
}

/// Resolves the configured semicolon-separated names against the directory,
/// keeping their order; a name absent from it has no endpoint.
pub fn plan_registry(list: &str, directory: &Vec<(String, String)>) -> (r: Vec<
    (String, Option<String>),
>)
    ensures
        r.deep_view() == plan_of(list@, directory.deep_view()),
{
    let names = split_space_list(list);
    let ghost target = plan_of(list@, directory.deep_view());
    let mut plan: Vec<(String, Option<String>)> = Vec::new();
    let mut i: usize = 0;
    while i < names.len()
        invariant
            names.deep_view() == split_list(list@),
            target == plan_of(list@, directory.deep_view()),
            i <= names.len(),
            plan.deep_view() == target.subrange(0, i as int),
        decreases names.len() - i,
    {
        let endpoint = find_endpoint(directory, &names[i]);
        let name = names[i].clone();
        let ghost entry = (name@, endpoint.deep_view());
        let ghost before = plan.deep_view();
        assert(entry == target[i as int]);
        plan.push((name, endpoint));
        assert(plan.deep_view() =~= before.push(entry));
        assert(plan.deep_view() =~= target.subrange(0, i + 1));
        i = i + 1;
    }
    assert(target.subrange(0, i as int) =~= target);
    plan
}

/// The space admitted for a name, endpoint and first fetch.
pub open spec fn admitted_space(name: Seq<char>, endpoint: Seq<char>, state: bool) -> SpaceView {
    SpaceView {
        name,
        entity_name: safe_entity_name(entity_label(name)),
        endpoint,
        state,
    }
}

/// The spaces admitted from the first `n` entries of a plan: those with an
/// endpoint whose fetch succeeded, seeded with the state it observed.
pub open spec fn admitted(
    plan: Seq<(Seq<char>, Option<Seq<char>>)>,
    probes: Seq<Option<Result<bool, FetchError>>>,
    n: nat,
) -> Seq<SpaceView>
    decreases n,
{
    if n == 0 {
        Seq::empty()
    } else {
        let prev = admitted(plan, probes, (n - 1) as nat);
        let i = n - 1;
        match (plan[i].1, probes[i]) {
            (Some(endpoint), Some(Ok(state))) => prev.push(
                admitted_space(plan[i].0, endpoint, state),
            ),
            _ => prev,
        }
    }
}

/// Builds the registry from a plan and the first fetch of each planned space
/// (`probes[i]` for `plan[i]`, `None` where nothing was fetched). Fails with
/// `NoEligibleSpace` when no space is admitted.
pub fn build_registry(
    plan: &Vec<(String, Option<String>)>,
    probes: &Vec<Option<Result<bool, FetchError>>>,
) -> (r: Result<Vec<Space>, RegistryError>)
    requires
        plan.len() == probes.len(),
    ensures
        match r {
            Ok(spaces) => spaces@.map_values(|s: Space| s@) == admitted(
                plan.deep_view(),
                probes@,
                plan.len() as nat,
            ) && spaces@.len() > 0,
            Err(e) => e == RegistryError::NoEligibleSpace && admitted(
                plan.deep_view(),
                probes@,
                plan.len() as nat,
            ).len() == 0,
        },
{
    let ghost pv = plan.deep_view();
    let mut spaces: Vec<Space> = Vec::new();
    let mut i: usize = 0;
    while i < plan.len()
        invariant
            pv == plan.deep_view(),
            plan.len() == probes.len(),
            i <= plan.len(),
            spaces@.map_values(|s: Space| s@) == admitted(pv, probes@, i as nat),
        decreases plan.len() - i,
    {
        let ghost before = spaces@.map_values(|s: Space| s@);
        match (&plan[i].1, &probes[i]) {
            (Some(endpoint), Some(Ok(state))) => {
                let space = Space::new(plan[i].0.as_str(), endpoint.as_str(), *state);
                spaces.push(space);
                assert(spaces@.map_values(|s: Space| s@) =~= before.push(space@));
            },
            _ => {},
        }
        i = i + 1;
    }
    if spaces.len() == 0 {
        Err(RegistryError::NoEligibleSpace)
    } else {
        Ok(spaces)
    }
}

} // verus!
