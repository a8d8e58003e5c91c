//! The roster: one profile for each connected user, derived from the names
//! that the server announces.

use crate::text::{same_text, texts};
use vstd::prelude::*;
use vstd::string::*;

verus! {

/// The address of the avatar image of the user called `name`.
pub open spec fn avatar_url(name: Seq<char>) -> Seq<char> {
    "https://avatars.dicebear.com/api/adventurer-neutral/"@ + name + ".svg"@
}

/// A connected user, as the panel shows them.
#[derive(Clone, Debug, PartialEq, Eq)]
pub struct UserProfile {
    pub name: String,
    pub avatar: String,
}

/// What a profile holds, as a mathematical value.
pub struct ProfileView {
    pub name: Seq<char>,
    pub avatar: Seq<char>,
}

impl View for UserProfile {
    type V = ProfileView;

    open spec fn view(&self) -> ProfileView {
        ProfileView { name: self.name@, avatar: self.avatar@ }
    }
}

/// The profile of the user called `name`.
pub open spec fn profile_of(name: Seq<char>) -> ProfileView {
    ProfileView { name, avatar: avatar_url(name) }
}

/// The profile shown for a sender whom the roster does not know.
pub open spec fn placeholder() -> ProfileView {
    profile_of("unknown"@)
}

/// What the profiles of a roster hold, in its order.
pub open spec fn profiles(roster: Seq<UserProfile>) -> Seq<ProfileView> {
    roster.map_values(|profile: UserProfile| profile@)
}

/// The roster for a list of names: the profile of each name, in the order of
/// the names. A name that stands twice in the list gets two profiles.
pub open spec fn rebuilt(names: Seq<Seq<char>>) -> Seq<ProfileView> {
    names.map_values(|name: Seq<char>| profile_of(name))
}

/// Whether the profile at `at` is the first of a roster that is called `name`.
pub open spec fn first_called(roster: Seq<ProfileView>, name: Seq<char>, at: int) -> bool {
    &&& 0 <= at < roster.len()
    &&& roster[at].name == name
    &&& forall|before: int| 0 <= before < at ==> (#[trigger] roster[before]).name != name
}

/// The first profile of a roster that is called `name`, if there is one.
pub open spec fn resolved(roster: Seq<ProfileView>, name: Seq<char>) -> Option<ProfileView> {
    if exists|at: int| first_called(roster, name, at) {
        Some(roster[choose|at: int| first_called(roster, name, at)])
    } else {
        None
    }
}

impl UserProfile {
    /// The profile of the user called `name`.
    pub fn new(name: &str) -> (profile: UserProfile)
        ensures
            profile@ == profile_of(name@),
    {
        let mut avatar = String::from_str("https://avatars.dicebear.com/api/adventurer-neutral/");
        avatar.append(name);
        avatar.append(".svg");
        UserProfile { name: String::from_str(name), avatar }
    }

    /// The profile shown for a sender whom the roster does not know.
    pub fn placeholder() -> (profile: UserProfile)
        ensures
            profile@ == placeholder(),
    {
        UserProfile::new("unknown")
    }

    /// A second profile that holds the same as this one.
    pub fn duplicate(&self) -> (profile: UserProfile)
        ensures
            profile@ == self@,
    {
        UserProfile { name: self.name.clone(), avatar: self.avatar.clone() }
    }
}

/// Builds the roster for a list of names: as many profiles as there are
/// names, in the same order, each with the avatar address of its name.
pub fn rebuild(names: &Vec<String>) -> (roster: Vec<UserProfile>)
    ensures
        profiles(roster@) == rebuilt(texts(names@)),
        roster.len() == names.len(),
        forall|i: int|
            0 <= i < names.len() ==> {
                &&& (#[trigger] roster@[i]).name@ == names@[i]@
                &&& roster@[i].avatar@ == avatar_url(names@[i]@)
            },
{
    let mut roster: Vec<UserProfile> = Vec::new();
    let mut at: usize = 0;
    while at < names.len()
        invariant
            at <= names.len(),
            roster.len() == at,
            forall|k: int| 0 <= k < at ==> (#[trigger] roster@[k])@ == profile_of(names@[k]@),
        decreases names.len() - at,
    {
        roster.push(UserProfile::new(names[at].as_str()));
        at += 1;
    }
    roster
}

/// Looks up the first profile of a roster whose name is exactly `name`.
pub fn resolve<'a>(roster: &'a Vec<UserProfile>, name: &str) -> (found: Option<&'a UserProfile>)
    ensures
        match found {
            Some(profile) => resolved(profiles(roster@), name@) == Some(profile@),
            None => resolved(profiles(roster@), name@) is None,
        },
        found is Some <==> exists|i: int|
            0 <= i < roster.len() && (#[trigger] roster@[i]).name@ == name@,
{
    let mut at: usize = 0;
    while at < roster.len()
        invariant
            at <= roster.len(),
            forall|before: int| 0 <= before < at ==> (#[trigger] roster@[before]).name@ != name@,
        decreases roster.len() - at,
    {
        if same_text(roster[at].name.as_str(), name) {
            proof {
                // No profile before this one has the name, so this is the first.
                assert(first_called(profiles(roster@), name@, at as int));
            }
            return Some(&roster[at]);
        }
        at += 1;
    }
    assert(forall|i: int| !first_called(profiles(roster@), name@, i));
    None
}

/// In a roster built from names, a name is found exactly when it is among
/// them, and what is found is the profile of that name.
pub proof fn lemma_resolved_in_rebuilt(names: Seq<Seq<char>>, name: Seq<char>)
    ensures
        resolved(rebuilt(names), name) == if names.contains(name) {
            Some(profile_of(name))
        } else {
            None
        },
{
    if names.contains(name) {
        let some = choose|i: int| 0 <= i < names.len() && names[i] == name;
        lemma_first_called_exists(rebuilt(names), name, some);
    }
}

/// Where a roster holds a profile called `name` at `some`, one of its
/// profiles is the first that is called so.
proof fn lemma_first_called_exists(roster: Seq<ProfileView>, name: Seq<char>, some: int)
    requires
        0 <= some < roster.len(),
        roster[some].name == name,
    ensures
        exists|at: int| first_called(roster, name, at),
    decreases some,
{
    if exists|before: int| 0 <= before < some && (#[trigger] roster[before]).name == name {
        let before = choose|before: int|
            0 <= before < some && (#[trigger] roster[before]).name == name;
        lemma_first_called_exists(roster, name, before);
    } else {
        assert(first_called(roster, name, some));
    }
}

} // verus!
