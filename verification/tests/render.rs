use yewchat::protocol::MessageData;
use yewchat::render::{is_image, project, Body, MessageCard, Page};
use yewchat::roster::{rebuild, UserProfile};
use yewchat::text::same_text;

fn names(list: &[&str]) -> Vec<String> {
    list.iter().map(|name| name.to_string()).collect()
}

fn entry(from: &str, message: &str) -> MessageData {
    MessageData { from: from.to_string(), message: message.to_string() }
}

#[test]
fn gif_suffix_names_an_image() {
    assert!(is_image("party.gif"));
    assert!(is_image(".gif"));
    assert!(is_image("https://example.org/a/b.gif"));
    assert!(is_image("ünï.gif"));
}

#[test]
fn anything_else_is_words() {
    assert!(!is_image("hello"));
    assert!(!is_image("party.GIF"));
    assert!(!is_image("party.Gif"));
    assert!(!is_image("party.gif "));
    assert!(!is_image("party.gif?x=1"));
    assert!(!is_image("partygif"));
    assert!(!is_image("gif"));
    assert!(!is_image(""));
    assert!(!is_image("a.png"));
    assert!(!is_image("ü"));
}

#[test]
fn body_is_an_image_or_words() {
    assert_eq!(Body::of("party.gif"), Body::Image("party.gif".to_string()));
    assert_eq!(Body::of("hello"), Body::Text("hello".to_string()));
    assert_eq!(Body::of("party.GIF"), Body::Text("party.GIF".to_string()));
    assert_eq!(Body::of(""), Body::Text("".to_string()));
}

#[test]
fn card_carries_the_sender_s_profile() {
    let roster = rebuild(&names(&["a", "b"]));
    let card = MessageCard::of(&roster, &entry("b", "hi"));
    let wanted = MessageCard {
        profile: UserProfile::new("b"),
        from: "b".to_string(),
        body: Body::Text("hi".to_string()),
    };
    assert_eq!(card, wanted);
}

#[test]
fn card_of_an_unknown_sender_carries_the_placeholder() {
    let roster = rebuild(&names(&["a", "b"]));
    let card = MessageCard::of(&roster, &entry("mallory", "boo.gif"));
    let wanted = MessageCard {
        profile: UserProfile::placeholder(),
        from: "mallory".to_string(),
        body: Body::Image("boo.gif".to_string()),
    };
    assert_eq!(card, wanted);
}

#[test]
fn page_has_a_card_for_each_user_and_each_message() {
    let roster = rebuild(&names(&["a", "b"]));
    let feed = vec![entry("a", "hi"), entry("c", "x.gif"), entry("b", "yo")];
    let page = project(&roster, &feed);
    let wanted = Page {
        users: vec![UserProfile::new("a"), UserProfile::new("b")],
        messages: vec![
            MessageCard {
                profile: UserProfile::new("a"),
                from: "a".to_string(),
                body: Body::Text("hi".to_string()),
            },
            MessageCard {
                profile: UserProfile::placeholder(),
                from: "c".to_string(),
                body: Body::Image("x.gif".to_string()),
            },
            MessageCard {
                profile: UserProfile::new("b"),
                from: "b".to_string(),
                body: Body::Text("yo".to_string()),
            },
        ],
    };
    assert_eq!(page, wanted);
}

#[test]
fn page_of_nothing_is_empty() {
    let page = project(&Vec::new(), &Vec::new());
    assert_eq!(page, Page { users: vec![], messages: vec![] });
}

#[test]
fn projecting_twice_gives_the_same_page() {
    let roster = rebuild(&names(&["a"]));
    let feed = vec![entry("a", "hi"), entry("z", "z.gif")];
    let first = project(&roster, &feed);
    let second = project(&roster, &feed);
    assert_eq!(first, second);
    assert_eq!(roster, rebuild(&names(&["a"])));
    assert_eq!(feed, vec![entry("a", "hi"), entry("z", "z.gif")]);
}

#[test]
fn same_text_compares_characters() {
    assert!(same_text("", ""));
    assert!(same_text("abc", "abc"));
    assert!(same_text("zoë", "zoë"));
    assert!(!same_text("abc", "abd"));
    assert!(!same_text("abc", "ab"));
    assert!(!same_text("ab", "abc"));
    assert!(!same_text("", "a"));
    assert!(!same_text("zoë", "zoe"));
}
