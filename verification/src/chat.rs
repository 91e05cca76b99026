//! The chat controller.
//!
//! A [`Chat`] owns the state of one session. Its caller runs the transport
//! and the display: it hands in what arrives and what the user submits, and
//! gets back what is to be sent and whether the display is to be refreshed.

use vstd::prelude::*;
use crate::message::{
    encode_payload, encode_payload_spec, is_image_spec, ChatMessage, MessageView,
};
use crate::state::{
    avatar_url_spec, feed, receive_error, receive_spec, roster_names, roster_wf, ChatState,
    ProfileView, Roster, StateView,
};
use crate::wire::{encode, encode_spec, DecodeError, EnvelopeView, WireEnvelope};

verus! {

/// What can happen to a chat: a text arrives from the server, or the user
/// submits what the input holds.
#[derive(Debug, Clone, PartialEq, Eq)]
pub enum Msg {
    HandleMsg(String),
    SubmitMessage,
}

/// The model of a [`Msg`].
pub enum MsgView {
    HandleMsg(Seq<char>),
    SubmitMessage,
}

impl View for Msg {
    type V = MsgView;

    open spec fn view(&self) -> MsgView {
        match *self {
            Msg::HandleMsg(text) => MsgView::HandleMsg(text@),
            Msg::SubmitMessage => MsgView::SubmitMessage,
        }
    }
}

/// What the caller is to do after an update.
#[derive(Debug, Clone, PartialEq, Eq)]
pub struct Outcome {
    /// Whether the display is to be refreshed.
    pub refresh: bool,
    /// The text to send to the server, if any.
    pub outbound: Option<String>,
    /// Why the inbound text was dropped, if it was.
    pub dropped: Option<DecodeError>,
}

/// The model of an [`Outcome`].
pub struct OutcomeView {
    pub refresh: bool,
    pub outbound: Option<Seq<char>>,
    pub dropped: Option<DecodeError>,
}

impl View for Outcome {
    type V = OutcomeView;

    open spec fn view(&self) -> OutcomeView {
        OutcomeView {
            refresh: self.refresh,
            outbound: match self.outbound {
                Some(text) => Some(text@),
                None => None,
            },
            dropped: self.dropped,
        }
    }
}

/// One row of the feed as it is to be shown.
#[derive(Debug, Clone, PartialEq, Eq)]
pub struct FeedRow {
    /// The sender.
    pub from: String,
    /// The sender's avatar, or `None` where the roster does not know the
    /// sender and a placeholder is to be shown.
    pub avatar: Option<String>,
    /// What the message says.
    pub body: String,
    /// Whether the body is to be shown as an image.
    pub image: bool,
}

/// The model of a [`FeedRow`].
pub struct RowView {
    pub from: Seq<char>,
    pub avatar: Option<Seq<char>>,
    pub body: Seq<char>,
    pub image: bool,
}

impl View for FeedRow {
    type V = RowView;

    open spec fn view(&self) -> RowView {
        RowView {
            from: self.from@,
            avatar: match self.avatar {
                Some(url) => Some(url@),
                None => None,
            },
            body: self.body@,
            image: self.image,
        }
    }
}

/// The model of a [`Chat`].
pub struct ChatView {
    pub username: Seq<char>,
    pub state: StateView,
    pub input: Seq<char>,
}

/// The text that announces `username` to the server.
pub open spec fn registration(username: Seq<char>) -> Seq<char> {
    encode_spec(EnvelopeView::Register { username })
}

/// The text that carries a submitted message: a `message` envelope whose
/// payload holds the text and a blank sender.
pub open spec fn message_text(text: Seq<char>) -> Seq<char> {
    encode_spec(
        EnvelopeView::Message {
            payload: encode_payload_spec(MessageView { from: Seq::empty(), body: text }),
        },
    )
}

/// What submitting a text sends: nothing for the empty text, and the
/// message for any other.
pub open spec fn submission(text: Seq<char>) -> Option<Seq<char>> {
    if text.len() == 0 {
        None
    } else {
        Some(message_text(text))
    }
}

/// What an update does to a chat, and what the caller is to do after it.
pub open spec fn update_spec(chat: ChatView, msg: MsgView) -> (ChatView, OutcomeView) {
    match msg {
        MsgView::HandleMsg(text) => {
            let (state, refresh) = receive_spec(chat.state, text);
            (
                ChatView { username: chat.username, state, input: chat.input },
                OutcomeView { refresh, outbound: None, dropped: receive_error(text) },
            )
        },
        MsgView::SubmitMessage => (
            ChatView { username: chat.username, state: chat.state, input: Seq::empty() },
            OutcomeView { refresh: false, outbound: submission(chat.input), dropped: None },
        ),
    }
}

/// The row that shows a message, given the roster of the moment.
pub open spec fn row_of(roster: Seq<ProfileView>, message: MessageView) -> RowView {
    RowView {
        from: message.from,
        avatar: if roster_names(roster).contains(message.from) {
            Some(avatar_url_spec(message.from))
        } else {
            None
        },
        body: message.body,
        image: is_image_spec(message.body),
    }
}

/// The rows that show a feed, in order.
pub open spec fn rows_of(state: StateView) -> Seq<RowView> {
    state.messages.map_values(|message: MessageView| row_of(state.roster, message))
}

/// The models of a sequence of rows, in order.
pub open spec fn rows(list: Seq<FeedRow>) -> Seq<RowView> {
    list.map_values(|row: FeedRow| row@)
}

/// The controller of one chat session.
#[derive(Debug, PartialEq, Eq)]
pub struct Chat {
    username: String,
    state: ChatState,
    chat_input: String,
}

impl Chat {
    /// The model of the chat.
    pub closed spec fn model(&self) -> ChatView {
        ChatView { username: self.username@, state: self.state@, input: self.chat_input@ }
    }

    /// Opens a session for `username`: the state is empty, the input is
    /// empty, and the text that comes back announces the user to the server
    /// and is to be sent at once.
    pub fn create(username: &str) -> (opened: (Chat, String))
        ensures
            opened.0.model() == (ChatView {
                username: username@,
                state: StateView { roster: Seq::empty(), messages: Seq::empty() },
                input: Seq::empty(),
            }),
            opened.1@ == registration(username@),
    {
        let register = WireEnvelope::Register { username: username.to_owned() };
        let text = encode(&register);
        let chat = Chat {
            username: username.to_owned(),
            state: ChatState::new(),
            chat_input: String::new(),
        };
        (chat, text)
    }

    /// The name under which the session was opened.
    pub fn username(&self) -> (name: &String)
        ensures
            name@ == self.model().username,
    {
        &self.username
    }

    /// The state of the session.
    pub fn state(&self) -> (state: &ChatState)
        ensures
            state@ == self.model().state,
    {
        &self.state
    }

    /// The roster of the moment. It is well formed at all times.
    pub fn roster(&self) -> (roster: &Roster)
        ensures
            roster@ == self.model().state.roster,
            roster_wf(self.model().state.roster),
    {
        self.state.roster()
    }

    /// The feed, in the order of arrival.
    pub fn messages(&self) -> (messages: &Vec<ChatMessage>)
        ensures
            feed(messages@) == self.model().state.messages,
    {
        self.state.messages()
    }

    /// What the input holds.
    pub fn input(&self) -> (text: &String)
        ensures
            text@ == self.model().input,
    {
        &self.chat_input
    }

    /// Puts `text` into the input, in place of what it held.
    pub fn set_input(&mut self, text: String)
        ensures
            final(self).model() == (ChatView { input: text@, ..old(self).model() }),
    {
        self.chat_input = text;
    }

    /// Takes one inbound text. `Ok` says whether the display is to be
    /// refreshed; `Err` says why the text was dropped, and then nothing has
    /// changed.
    pub fn handle(&mut self, text: &str) -> (r: Result<bool, DecodeError>)
        ensures
            final(self).model().username == old(self).model().username,
            final(self).model().input == old(self).model().input,
            r matches Ok(refresh) ==> receive_error(text@).is_none() && (
                final(self).model().state,
                refresh,
            ) == receive_spec(old(self).model().state, text@),
            r matches Err(e) ==> receive_error(text@) == Some(e) && final(self).model().state
                == old(self).model().state,
    {
        self.state.try_receive(text)
    }

    /// Submits `text` and empties the input. The text that comes back is to
    /// be sent to the server; the empty text sends nothing.
    pub fn submit(&mut self, text: &str) -> (outbound: Option<String>)
        ensures
            final(self).model() == (ChatView { input: Seq::empty(), ..old(self).model() }),
            outbound matches Some(sent) ==> submission(text@) == Some(sent@),
            outbound is None ==> submission(text@).is_none(),
    {
        self.chat_input = String::new();
        if text.is_empty() {
            None
        } else {
            let message = ChatMessage { from: String::new(), body: text.to_owned() };
            let payload = encode_payload(&message);
            Some(encode(&WireEnvelope::Message { payload }))
        }
    }

    /// Takes one event and says what the caller is to do.
    pub fn update(&mut self, msg: Msg) -> (outcome: Outcome)
        ensures
            (final(self).model(), outcome@) == update_spec(old(self).model(), msg@),
    {
        match msg {
            Msg::HandleMsg(text) => {
                match self.handle(text.as_str()) {
                    Ok(refresh) => Outcome { refresh, outbound: None, dropped: None },
                    Err(e) => Outcome { refresh: false, outbound: None, dropped: Some(e) },
                }
            },
            Msg::SubmitMessage => {
                let text = self.chat_input.clone();
                let outbound = self.submit(text.as_str());
                Outcome { refresh: false, outbound, dropped: None }
            },
        }
    }

    /// The feed as it is to be shown: one row for each message, in order,
    /// each with the avatar that the roster of the moment has for its
    /// sender.
    pub fn view(&self) -> (list: Vec<FeedRow>)
        ensures
            rows(list@) == rows_of(self.model().state),
    {
        let roster = self.state.roster();
        let messages = self.state.messages();
        let mut list: Vec<FeedRow> = Vec::new();
        let mut i: usize = 0;
        while i < messages.len()
            invariant
                i <= messages.len(),
                roster@ == self.model().state.roster,
                feed(messages@) == self.model().state.messages,
                list@.len() == i,
                forall|k: int|
                    0 <= k < i ==> (#[trigger] list@[k])@ == row_of(
                        self.model().state.roster,
                        messages@[k]@,
                    ),
            decreases messages.len() - i,
        {
            let message = &messages[i];
            list.push(
                FeedRow {
                    from: message.from.clone(),
                    avatar: roster.avatar_of(message.from.as_str()),
                    body: message.body.clone(),
                    image: message.is_image(),
                },
            );
            i += 1;
        }
        assert(rows(list@) =~= rows_of(self.model().state));
        list
    }
}

} // verus!
