//! What the panel shows: a card for each user of the roster and a card for
//! each message of the feed.

use crate::protocol::{MessageData, EntryView};
use crate::roster::{
    ProfileView, UserProfile, lemma_resolved_in_rebuilt, placeholder, profile_of, profiles, rebuilt,
    resolve, resolved,
};
use crate::text::ends_with;
use vstd::prelude::*;
use vstd::string::*;

verus! {

/// How the body of a message is shown.
#[derive(Clone, Debug, PartialEq, Eq)]
pub enum Body {
    /// As the image at this address.
    Image(String),
    /// As these words.
    Text(String),
}

/// What a body holds, as a mathematical value.
pub enum BodyView {
    Image(Seq<char>),
    Text(Seq<char>),
}

impl View for Body {
    type V = BodyView;

    open spec fn view(&self) -> BodyView {
        match self {
            Body::Image(address) => BodyView::Image(address@),
            Body::Text(words) => BodyView::Text(words@),
        }
    }
}

/// The card of one message of the feed.
#[derive(Clone, Debug, PartialEq, Eq)]
pub struct MessageCard {
    /// The sender's profile, or the placeholder for a sender whom the roster
    /// does not know.
    pub profile: UserProfile,
    /// The sender's name, as the message gives it.
    pub from: String,
    pub body: Body,
}

/// What a message card holds, as a mathematical value.
pub struct CardView {
    pub profile: ProfileView,
    pub from: Seq<char>,
    pub body: BodyView,
}

impl View for MessageCard {
    type V = CardView;

    open spec fn view(&self) -> CardView {
        CardView { profile: self.profile@, from: self.from@, body: self.body@ }
    }
}

/// All that the panel shows.
#[derive(Clone, Debug, PartialEq, Eq)]
pub struct Page {
    /// One card for each user of the roster, in its order.
    pub users: Vec<UserProfile>,
    /// One card for each message of the feed, in its order.
    pub messages: Vec<MessageCard>,
}

/// What a page holds, as a mathematical value.
pub struct PageView {
    pub users: Seq<ProfileView>,
    pub messages: Seq<CardView>,
}

impl View for Page {
    type V = PageView;

    open spec fn view(&self) -> PageView {
        PageView {
            users: profiles(self.users@),
            messages: self.messages@.map_values(|card: MessageCard| card@),
        }
    }
}

/// What the entries of a feed hold, in its order.
pub open spec fn entries(feed: Seq<MessageData>) -> Seq<EntryView> {
    feed.map_values(|entry: MessageData| entry@)
}

/// Whether a message body names an image: whether it ends with `.gif`, in
/// exactly these letters.
pub open spec fn names_image(body: Seq<char>) -> bool {
    ends_with(body, seq!['.', 'g', 'i', 'f'])
}

/// How a message body is shown: as an image where it names one, else as
/// words.
pub open spec fn shown(body: Seq<char>) -> BodyView {
    if names_image(body) {
        BodyView::Image(body)
    } else {
        BodyView::Text(body)
    }
}

/// The card of a message: the profile is the first of the roster with the
/// sender's name, or the placeholder where the roster has none.
pub open spec fn card_of(roster: Seq<ProfileView>, entry: EntryView) -> CardView {
    CardView {
        profile: match resolved(roster, entry.from) {
            Some(profile) => profile,
            None => placeholder(),
        },
        from: entry.from,
        body: shown(entry.message),
    }
}

/// The page for a roster and a feed.
pub open spec fn projected(roster: Seq<ProfileView>, feed: Seq<EntryView>) -> PageView {
    PageView { users: roster, messages: feed.map_values(|entry: EntryView| card_of(roster, entry)) }
}

/// Whether a message body names an image.
pub fn is_image(body: &str) -> (image: bool)
    ensures
        image == names_image(body@),
{
    let length = body.unicode_len();
    if length < 4 {
        return false;
    }
    let image = body.get_char(length - 4) == '.' && body.get_char(length - 3) == 'g'
        && body.get_char(length - 2) == 'i' && body.get_char(length - 1) == 'f';
    proof {
        let tail = body@.subrange(body@.len() - 4, body@.len() as int);
        let wanted = seq!['.', 'g', 'i', 'f'];
        if image {
            assert(tail =~= wanted);
        } else {
            assert(tail[0] != wanted[0] || tail[1] != wanted[1] || tail[2] != wanted[2] || tail[3]
                != wanted[3]);
        }
    }
    image
}

impl Body {
    /// How the message body `body` is shown.
    pub fn of(body: &str) -> (shown_as: Body)
        ensures
            shown_as@ == shown(body@),
    {
        if is_image(body) {
            Body::Image(String::from_str(body))
        } else {
            Body::Text(String::from_str(body))
        }
    }
}

impl MessageCard {
    /// The card of `entry` before the roster `roster`.
    pub fn of(roster: &Vec<UserProfile>, entry: &MessageData) -> (card: MessageCard)
        ensures
            card@ == card_of(profiles(roster@), entry@),
    {
        let profile = match resolve(roster, entry.from.as_str()) {
            Some(profile) => profile.duplicate(),
            None => UserProfile::placeholder(),
        };
        MessageCard { profile, from: entry.from.clone(), body: Body::of(entry.message.as_str()) }
    }
}

/// Lays out the page for a roster and a feed. Neither is changed, and the
/// same roster and feed give the same page every time.
pub fn project(roster: &Vec<UserProfile>, feed: &Vec<MessageData>) -> (page: Page)
    ensures
        page@ == projected(profiles(roster@), entries(feed@)),
{
    let mut users: Vec<UserProfile> = Vec::new();
    let mut at: usize = 0;
    while at < roster.len()
        invariant
            at <= roster.len(),
            users.len() == at,
            forall|k: int| 0 <= k < at ==> (#[trigger] users@[k])@ == roster@[k]@,
        decreases roster.len() - at,
    {
        users.push(roster[at].duplicate());
        at += 1;
    }
    let mut messages: Vec<MessageCard> = Vec::new();
    let mut at: usize = 0;
    while at < feed.len()
        invariant
            at <= feed.len(),
            messages.len() == at,
            forall|k: int|
                0 <= k < at ==> (#[trigger] messages@[k])@ == card_of(profiles(roster@), feed@[k]@),
        decreases feed.len() - at,
    {
        messages.push(MessageCard::of(roster, &feed[at]));
        at += 1;
    }
    let page = Page { users, messages };
    proof {
        let wanted = projected(profiles(roster@), entries(feed@));
        assert(page@.users =~= wanted.users);
        assert(page@.messages =~= wanted.messages);
    }
    page
}

/// Before a roster built from names, the card of a message carries the
/// profile of its sender where the sender is among the names, and the
/// placeholder where not.
pub proof fn lemma_card_in_rebuilt(names: Seq<Seq<char>>, entry: EntryView)
    ensures
        card_of(rebuilt(names), entry).profile == if names.contains(entry.from) {
            profile_of(entry.from)
        } else {
            placeholder()
        },
{
    lemma_resolved_in_rebuilt(names, entry.from);
}

} // verus!
