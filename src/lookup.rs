//! Choosing the profile file of a build among the files found in the
//! profiles directory. Finding the files is the caller's part.
use vstd::prelude::*;
use vstd::string::*;
use crate::text::{ends_with, join_path, spec_ends_with, spec_join_path, views};

verus! {

/// Why no profile file could be chosen.
#[derive(PartialEq, Eq, Structural, Clone, Copy, Debug)]
pub enum LookupError {
    /// The profiles directory holds no profile file.
    NoProfiles,
    /// The named profile is not among the files found.
    NotFound,
    /// No name was given and more than one profile file exists.
    Ambiguous,
}

/// A path whose file name has the `toml` extension: it ends in `.toml`
/// and the file name has a stem before it.
pub open spec fn spec_is_profile_path(p: Seq<char>) -> bool {
    p.len() > 5 && spec_ends_with(p, ".toml"@) && p[p.len() - 6] != '/'
}

/// The profile paths among `found`, in their original order.
pub open spec fn profile_paths(found: Seq<Seq<char>>) -> Seq<Seq<char>>
    decreases found.len(),
{
    if found.len() == 0 {
        Seq::empty()
    } else if spec_is_profile_path(found.last()) {
        profile_paths(found.drop_last()).push(found.last())
    } else {
        profile_paths(found.drop_last())
    }
}

/// The path that profile `name` has in `dir`; `.toml` is added when the
/// name lacks it.
pub open spec fn spec_profile_target(dir: Seq<char>, name: Seq<char>) -> Seq<char> {
    if spec_ends_with(name, ".toml"@) {
        spec_join_path(dir, name)
    } else {
        spec_join_path(dir, name + ".toml"@)
    }
}

/// The profile chosen among the paths `found` under `dir`: the named one,
/// or the only one when no name is given.
pub open spec fn spec_select_profile(found: Seq<Seq<char>>, dir: Seq<char>, name: Option<Seq<char>>) -> Result<Seq<char>, LookupError> {
    let profiles = profile_paths(found);
    if profiles.len() == 0 {
        Err(LookupError::NoProfiles)
    } else {
        match name {
            Some(n) => if profiles.contains(spec_profile_target(dir, n)) {
                Ok(spec_profile_target(dir, n))
            } else {
                Err(LookupError::NotFound)
            },
            None => if profiles.len() == 1 {
                Ok(profiles[0])
            } else {
                Err(LookupError::Ambiguous)
            },
        }
    }
}

pub open spec fn opt_view(name: Option<&String>) -> Option<Seq<char>> {
    match name {
        Some(n) => Some(n@),
        None => None,
    }
}

/// Whether `p` names a profile file.
pub fn is_profile_path(p: &String) -> (r: bool)
    ensures
        r == spec_is_profile_path(p@),
{
    let n = p.unicode_len();
    n > 5 && ends_with(p.as_str(), ".toml") && p.get_char(n - 6) != '/'
}

/// The path that profile `name` has in `dir`.
pub fn profile_target(dir: &String, name: &String) -> (r: String)
    ensures
        r@ == spec_profile_target(dir@, name@),
{
    if ends_with(name.as_str(), ".toml") {
        join_path(dir.as_str(), name.as_str())
    } else {
        let file = name.clone().concat(".toml");
        join_path(dir.as_str(), file.as_str())
    }
}

/// Chooses the profile file of a build among the paths found under `dir`.
pub fn select_profile(found: &Vec<String>, dir: &String, name: Option<&String>) -> (r: Result<String, LookupError>)
    ensures
        match r {
            Ok(path) => spec_select_profile(views(found@), dir@, opt_view(name)) == Ok::<Seq<char>, LookupError>(path@),
            Err(e) => spec_select_profile(views(found@), dir@, opt_view(name)) == Err::<Seq<char>, LookupError>(e),
        },
{
    let n = found.len();
    let mut profiles: Vec<String> = Vec::new();
    let mut i: usize = 0;
    while i < n
        invariant
            n == found@.len(),
            i <= n,
            views(profiles@) == profile_paths(views(found@.subrange(0, i as int))),
        decreases n - i,
    {
        proof {
            let next = views(found@.subrange(0, i + 1));
            assert(next.drop_last() =~= views(found@.subrange(0, i as int)));
            assert(next.last() == found@[i as int]@);
        }
        if is_profile_path(&found[i]) {
            profiles.push(found[i].clone());
            assert(views(profiles@) =~= profile_paths(views(found@.subrange(0, i + 1))));
        }
        i = i + 1;
    }
    assert(found@.subrange(0, n as int) =~= found@);
    let m = profiles.len();
    if m == 0 {
        return Err(LookupError::NoProfiles);
    }
    match name {
        Some(nm) => {
            let target = profile_target(dir, nm);
            let mut k: usize = 0;
            while k < m
                invariant
                    m == profiles@.len(),
                    k <= m,
                    views(profiles@) == profile_paths(views(found@)),
                    name == Some(nm),
                    target@ == spec_profile_target(dir@, nm@),
                    forall|j: int| 0 <= j < k ==> views(profiles@)[j] != target@,
                decreases m - k,
            {
                if profiles[k] == target {
                    assert(views(profiles@)[k as int] == target@);
                    assert(views(profiles@).contains(target@));
                    return Ok(target);
                }
                k = k + 1;
            }
            assert(!views(profiles@).contains(target@));
            Err(LookupError::NotFound)
        },
        None => {
            if m == 1 {
                Ok(profiles[0].clone())
            } else {
                Err(LookupError::Ambiguous)
            }
        },
    }
}

} // verus!
