//! The panel: its state, and how frames from the channel and the user's
//! actions change it.

use crate::json::json_text;
use crate::protocol::{
    DecodeError, EntryView, FrameView, MessageData, MsgTypes, WebSocketMessage, decode,
    decode_chat_entry, decoded, encode, encode_chat_entry, entry_decoded, entry_doc, frame_doc,
};
use crate::render::{Page, entries, project, projected};
use crate::roster::{ProfileView, UserProfile, profile_of, profiles, rebuild, rebuilt};
use crate::text::texts;
use vstd::prelude::*;
use vstd::string::*;

verus! {

/// What can happen to the panel.
#[derive(Clone, Debug, PartialEq, Eq)]
pub enum Msg {
    /// The channel delivered this text.
    HandleMsg(String),
    /// The user submitted this text from the input box.
    SubmitMessage(String),
}

/// What a `Msg` holds, as a mathematical value.
pub enum MsgView {
    HandleMsg(Seq<char>),
    SubmitMessage(Seq<char>),
}

impl View for Msg {
    type V = MsgView;

    open spec fn view(&self) -> MsgView {
        match self {
            Msg::HandleMsg(text) => MsgView::HandleMsg(text@),
            Msg::SubmitMessage(input) => MsgView::SubmitMessage(input@),
        }
    }
}

/// What the host is to do after an update.
#[derive(Clone, Debug, PartialEq, Eq)]
pub struct Step {
    /// Whether the panel is to be drawn again.
    pub redraw: bool,
    /// The text to send over the channel, if there is one. After sending it
    /// the host empties the input box.
    pub outbound: Option<String>,
}

/// What a step holds, as a mathematical value.
pub struct StepView {
    pub redraw: bool,
    pub outbound: Option<Seq<char>>,
}

impl View for Step {
    type V = StepView;

    open spec fn view(&self) -> StepView {
        StepView {
            redraw: self.redraw,
            outbound: match self.outbound {
                Some(text) => Some(text@),
                None => None,
            },
        }
    }
}

/// The panel of one chat room.
pub struct Chat {
    users: Vec<UserProfile>,
    messages: Vec<MessageData>,
    username: String,
}

/// The state of a panel, as a mathematical value.
pub struct ChatView {
    /// The roster: the connected users, as the server last announced them.
    pub users: Seq<ProfileView>,
    /// The feed: the messages, in the order in which they came.
    pub messages: Seq<EntryView>,
    /// The name of the user at this panel.
    pub username: Seq<char>,
}

impl Chat {
    /// The state of this panel.
    pub closed spec fn state(&self) -> ChatView {
        ChatView {
            users: profiles(self.users@),
            messages: entries(self.messages@),
            username: self.username@,
        }
    }
}

/// The frame by which the user called `username` registers with the server.
pub open spec fn register_frame(username: Seq<char>) -> FrameView {
    FrameView { message_type: MsgTypes::Register, data_array: None, data: Some(username) }
}

/// The frame that carries the chat entry `entry`.
pub open spec fn message_frame(entry: EntryView) -> FrameView {
    FrameView {
        message_type: MsgTypes::Message,
        data_array: None,
        data: Some(json_text(entry_doc(entry))),
    }
}

/// The state of a panel that was just made for `username`.
pub open spec fn created(username: Seq<char>) -> ChatView {
    ChatView { users: Seq::empty(), messages: Seq::empty(), username }
}

/// The names that a users frame announces: none where it carries no list.
pub open spec fn announced(frame: FrameView) -> Seq<Seq<char>> {
    match frame.data_array {
        Some(names) => names,
        None => Seq::empty(),
    }
}

/// The state after a frame, and whether the panel is to be drawn again.
///
/// A users frame puts the roster of its names in the place of the old one (an
/// empty roster where it carries no names). A message frame adds the chat
/// entry that its payload stands for at the end of the feed; it is an error
/// where it has no payload or the payload stands for no chat entry. A
/// register frame changes nothing.
pub open spec fn received(state: ChatView, frame: FrameView) -> Result<
    (ChatView, bool),
    DecodeError,
> {
    match frame.message_type {
        MsgTypes::Users => Ok((ChatView { users: rebuilt(announced(frame)), ..state }, true)),
        MsgTypes::Message => match frame.data {
            Some(payload) => match entry_decoded(payload) {
                Ok(entry) => Ok((ChatView { messages: state.messages.push(entry), ..state }, true)),
                Err(e) => Err(e),
            },
            None => Err(DecodeError::NoPayload),
        },
        MsgTypes::Register => Ok((state, false)),
    }
}

/// The state after a text from the channel, and whether the panel is to be
/// drawn again: the text is read as a frame, and the frame is received.
pub open spec fn handled(state: ChatView, text: Seq<char>) -> Result<
    (ChatView, bool),
    DecodeError,
> {
    match decoded(text) {
        Ok(frame) => received(state, frame),
        Err(e) => Err(e),
    }
}

/// The text to send when the user called `username` submits `input`: none
/// for an empty input, else the text of the message frame that carries the
/// chat entry from `username` with the body `input`.
pub open spec fn outgoing(username: Seq<char>, input: Seq<char>) -> Option<Seq<char>> {
    if input.len() == 0 {
        None
    } else {
        Some(json_text(frame_doc(message_frame(EntryView { from: username, message: input }))))
    }
}

/// The state after `msg` and what the host is to do then. A submitted input
/// changes no state and asks for no drawing; a text from the channel asks for
/// nothing to be sent.
pub open spec fn updated(state: ChatView, msg: MsgView) -> Result<
    (ChatView, StepView),
    DecodeError,
> {
    match msg {
        MsgView::HandleMsg(text) => match handled(state, text) {
            Ok((next, redraw)) => Ok((next, StepView { redraw, outbound: None })),
            Err(e) => Err(e),
        },
        MsgView::SubmitMessage(input) => Ok(
            (state, StepView { redraw: false, outbound: outgoing(state.username, input) }),
        ),
    }
}

/// The state in which `msg` leaves a panel: the next state, or the same state
/// where `msg` is dropped with an error.
pub open spec fn settled(state: ChatView, msg: MsgView) -> ChatView {
    match updated(state, msg) {
        Ok((next, _)) => next,
        Err(_) => state,
    }
}

impl Chat {
    /// Makes the panel of the user called `username`, with nobody on the
    /// roster and nothing in the feed, and the text of the register frame that
    /// the host is to send at once.
    pub fn create(username: &str) -> (made: (Chat, String))
        ensures
            made.0.state() == created(username@),
            made.1@ == json_text(frame_doc(register_frame(username@))),
    {
        let frame = WebSocketMessage {
            message_type: MsgTypes::Register,
            data_array: None,
            data: Some(String::from_str(username)),
        };
        let chat = Chat {
            users: Vec::new(),
            messages: Vec::new(),
            username: String::from_str(username),
        };
        assert(chat.state().users =~= Seq::empty() && chat.state().messages =~= Seq::empty());
        (chat, encode(&frame))
    }

    /// The roster.
    pub fn users(&self) -> (users: &Vec<UserProfile>)
        ensures
            profiles(users@) == self.state().users,
    {
        &self.users
    }

    /// The feed.
    pub fn messages(&self) -> (messages: &Vec<MessageData>)
        ensures
            entries(messages@) == self.state().messages,
    {
        &self.messages
    }

    /// The name of the user at this panel.
    pub fn username(&self) -> (username: &str)
        ensures
            username@ == self.state().username,
    {
        self.username.as_str()
    }

    /// Puts the roster for `names` in the place of the old one.
    pub fn set_users(&mut self, names: &Vec<String>)
        ensures
            final(self).state() == (ChatView {
                users: rebuilt(texts(names@)),
                ..old(self).state()
            }),
    {
        self.users = rebuild(names);
    }

    /// Adds `entry` at the end of the feed.
    pub fn append(&mut self, entry: MessageData)
        ensures
            final(self).state() == (ChatView {
                messages: old(self).state().messages.push(entry@),
                ..old(self).state()
            }),
    {
        self.messages.push(entry);
        assert(entries(self.messages@) =~= entries(old(self).messages@).push(entry@));
    }

    /// Takes a frame from the channel. On an error nothing has changed.
    pub fn receive(&mut self, frame: &WebSocketMessage) -> (r: Result<bool, DecodeError>)
        ensures
            match r {
                Ok(redraw) => received(old(self).state(), frame@) == Ok::<
                    (ChatView, bool),
                    DecodeError,
                >((final(self).state(), redraw)),
                Err(e) => received(old(self).state(), frame@) == Err::<
                    (ChatView, bool),
                    DecodeError,
                >(e) && final(self).state() == old(self).state(),
            },
    {
        match frame.message_type {
            MsgTypes::Users => {
                match &frame.data_array {
                    Some(names) => {
                        self.set_users(names);
                    },
                    None => {
                        self.users = Vec::new();
                        assert(profiles(self.users@) =~= rebuilt(Seq::empty()));
                    },
                }
                Ok(true)
            },
            MsgTypes::Message => match &frame.data {
                Some(payload) => match decode_chat_entry(payload.as_str()) {
                    Ok(entry) => {
                        self.append(entry);
                        Ok(true)
                    },
                    Err(e) => Err(e),
                },
                None => Err(DecodeError::NoPayload),
            },
            MsgTypes::Register => Ok(false),
        }
    }

    /// Takes a text from the channel. On an error nothing has changed.
    pub fn handle(&mut self, text: &str) -> (r: Result<bool, DecodeError>)
        ensures
            match r {
                Ok(redraw) => handled(old(self).state(), text@) == Ok::<
                    (ChatView, bool),
                    DecodeError,
                >((final(self).state(), redraw)),
                Err(e) => handled(old(self).state(), text@) == Err::<(ChatView, bool), DecodeError>(
                    e,
                ) && final(self).state() == old(self).state(),
            },
    {
        match decode(text) {
            Ok(frame) => self.receive(&frame),
            Err(e) => Err(e),
        }
    }

    /// The text to send when the user submits `input`: none for an empty
    /// input.
    pub fn submit(&self, input: &str) -> (outbound: Option<String>)
        ensures
            match outbound {
                Some(text) => outgoing(self.state().username, input@) == Some(text@),
                None => outgoing(self.state().username, input@) is None,
            },
            input@.len() == 0 ==> outbound is None,
    {
        if input.is_empty() {
            return None;
        }
        let entry = MessageData {
            from: self.username.clone(),
            message: String::from_str(input),
        };
        let frame = WebSocketMessage {
            message_type: MsgTypes::Message,
            data_array: None,
            data: Some(encode_chat_entry(&entry)),
        };
        Some(encode(&frame))
    }

    /// Takes what happened, changes the state and says what the host is to do.
    /// On an error nothing has changed: the text from the channel is dropped.
    pub fn update(&mut self, msg: Msg) -> (r: Result<Step, DecodeError>)
        ensures
            match r {
                Ok(step) => updated(old(self).state(), msg@) == Ok::<
                    (ChatView, StepView),
                    DecodeError,
                >((final(self).state(), step@)),
                Err(e) => updated(old(self).state(), msg@) == Err::<
                    (ChatView, StepView),
                    DecodeError,
                >(e),
            },
            final(self).state() == settled(old(self).state(), msg@),
    {
        match msg {
            Msg::HandleMsg(text) => match self.handle(text.as_str()) {
                Ok(redraw) => Ok(Step { redraw, outbound: None }),
                Err(e) => Err(e),
            },
            Msg::SubmitMessage(input) => Ok(
                Step { redraw: false, outbound: self.submit(input.as_str()) },
            ),
        }
    }

    /// Lays out what the panel shows. The state is not changed.
    pub fn view(&self) -> (page: Page)
        ensures
            page@ == projected(self.state().users, self.state().messages),
    {
        project(&self.users, &self.messages)
    }
}

/// The state of a panel that was made for `username` and has since taken the
/// events `msgs`, in their order.
pub open spec fn after_all(username: Seq<char>, msgs: Seq<MsgView>) -> ChatView
    decreases msgs.len(),
{
    if msgs.len() == 0 {
        created(username)
    } else {
        settled(after_all(username, msgs.drop_last()), msgs.last())
    }
}

/// Whether every profile of a roster is the profile of its own name.
pub open spec fn derived(roster: Seq<ProfileView>) -> bool {
    forall|i: int| 0 <= i < roster.len() ==> #[trigger] roster[i] == profile_of(roster[i].name)
}

/// Users frames replace the roster, they do not add to it: after two of them
/// in a row the roster is that of the second frame's names alone, whatever
/// the first announced, and the feed is as it was.
pub proof fn lemma_users_replace(state: ChatView, first: FrameView, second: FrameView)
    requires
        first.message_type == MsgTypes::Users,
        second.message_type == MsgTypes::Users,
    ensures
        received(state, first) matches Ok((between, _)) && received(between, second) == Ok::<
            (ChatView, bool),
            DecodeError,
        >((ChatView { users: rebuilt(announced(second)), ..state }, true)),
{
}

/// A message frame whose payload stands for no chat entry is dropped: it is
/// an error, the state stays as it was, and whatever comes next is taken as if
/// the frame had never come.
pub proof fn lemma_bad_payload_dropped(state: ChatView, text: Seq<char>, next: MsgView)
    requires
        decoded(text) matches Ok(frame) && frame.message_type == MsgTypes::Message && (frame.data
            matches Some(payload) ==> entry_decoded(payload) is Err),
    ensures
        updated(state, MsgView::HandleMsg(text)) is Err,
        settled(state, MsgView::HandleMsg(text)) == state,
        updated(settled(state, MsgView::HandleMsg(text)), next) == updated(state, next),
{
}

/// Submitting an empty input sends nothing and changes nothing.
pub proof fn lemma_empty_submit(state: ChatView)
    ensures
        updated(state, MsgView::SubmitMessage(Seq::empty())) == Ok::<
            (ChatView, StepView),
            DecodeError,
        >((state, StepView { redraw: false, outbound: None })),
{
}

/// One event adds at most one message to the feed, at its end, and leaves
/// the messages that were there where they were.
pub proof fn lemma_feed_grows(state: ChatView, msg: MsgView)
    ensures
        state.messages.is_prefix_of(settled(state, msg).messages),
        settled(state, msg).messages.len() <= state.messages.len() + 1,
{
}

/// Whatever happens to a panel: it stays the panel of the user it was made
/// for, every profile of its roster is the profile of its own name, and the
/// feed it had after the first `earlier` events is the beginning of the feed
/// it has after all of them.
pub proof fn lemma_always(username: Seq<char>, msgs: Seq<MsgView>, earlier: int)
    requires
        0 <= earlier <= msgs.len(),
    ensures
        after_all(username, msgs).username == username,
        derived(after_all(username, msgs).users),
        after_all(username, msgs.take(earlier)).messages.is_prefix_of(
            after_all(username, msgs).messages,
        ),
    decreases msgs.len(),
{
    if msgs.len() == 0 {
    } else if earlier == msgs.len() {
        assert(msgs.take(earlier) =~= msgs);
        lemma_always(username, msgs.drop_last(), 0);
    } else {
        let before = msgs.drop_last();
        assert(msgs.take(earlier) =~= before.take(earlier));
        lemma_always(username, before, earlier);
        lemma_feed_grows(after_all(username, before), msgs.last());
    }
}

} // verus!
