use yewchat::roster::{rebuild, resolve, UserProfile};

fn names(list: &[&str]) -> Vec<String> {
    list.iter().map(|name| name.to_string()).collect()
}

#[test]
fn profile_has_the_avatar_address_of_its_name() {
    let profile = UserProfile::new("alice");
    assert_eq!(profile.name, "alice");
    assert_eq!(profile.avatar, "https://avatars.dicebear.com/api/adventurer-neutral/alice.svg");
}

#[test]
fn profile_of_the_empty_name() {
    let profile = UserProfile::new("");
    assert_eq!(profile.name, "");
    assert_eq!(profile.avatar, "https://avatars.dicebear.com/api/adventurer-neutral/.svg");
}

#[test]
fn placeholder_is_a_profile_of_its_own() {
    let profile = UserProfile::placeholder();
    assert_eq!(profile.name, "unknown");
    assert_eq!(profile.avatar, "https://avatars.dicebear.com/api/adventurer-neutral/unknown.svg");
    assert_eq!(profile, UserProfile::new("unknown"));
}

#[test]
fn duplicate_holds_the_same() {
    let profile = UserProfile::new("bob");
    assert_eq!(profile.duplicate(), profile);
}

#[test]
fn rebuild_keeps_length_order_and_template() {
    let list = names(&["carol", "alice", "bob"]);
    let roster = rebuild(&list);
    assert_eq!(roster.len(), 3);
    for (profile, name) in roster.iter().zip(list.iter()) {
        assert_eq!(&profile.name, name);
        assert_eq!(
            profile.avatar,
            format!("https://avatars.dicebear.com/api/adventurer-neutral/{}.svg", name)
        );
    }
    assert_eq!(
        roster,
        vec![UserProfile::new("carol"), UserProfile::new("alice"), UserProfile::new("bob")]
    );
}

#[test]
fn rebuild_of_no_names_is_empty() {
    assert_eq!(rebuild(&names(&[])), Vec::<UserProfile>::new());
}

#[test]
fn rebuild_keeps_duplicates() {
    let roster = rebuild(&names(&["a", "b", "a"]));
    assert_eq!(roster, vec![UserProfile::new("a"), UserProfile::new("b"), UserProfile::new("a")]);
}

#[test]
fn resolve_finds_by_exact_name() {
    let roster = rebuild(&names(&["alice", "bob"]));
    assert_eq!(resolve(&roster, "bob"), Some(&UserProfile::new("bob")));
    assert_eq!(resolve(&roster, "alice"), Some(&UserProfile::new("alice")));
    assert_eq!(resolve(&roster, "Bob"), None);
    assert_eq!(resolve(&roster, "bo"), None);
    assert_eq!(resolve(&roster, "bobby"), None);
    assert_eq!(resolve(&roster, ""), None);
}

#[test]
fn resolve_in_an_empty_roster_finds_nothing() {
    let roster = rebuild(&names(&[]));
    assert_eq!(resolve(&roster, "alice"), None);
}

#[test]
fn resolve_takes_the_first_of_two_with_one_name() {
    let first = UserProfile { name: "a".to_string(), avatar: "first".to_string() };
    let second = UserProfile { name: "a".to_string(), avatar: "second".to_string() };
    let roster = vec![UserProfile::new("b"), first.clone(), second];
    assert_eq!(resolve(&roster, "a"), Some(&first));
}

#[test]
fn resolve_compares_names_beyond_ascii() {
    let roster = rebuild(&names(&["zoë", "zoe"]));
    assert_eq!(resolve(&roster, "zoe"), Some(&UserProfile::new("zoe")));
    assert_eq!(resolve(&roster, "zoë"), Some(&UserProfile::new("zoë")));
    assert_eq!(resolve(&roster, "zoé"), None);
}
