//! The chat state and the reducer that inbound envelopes drive.
//!
//! The state is a roster of connected users and a feed of messages. A
//! `users` envelope replaces the roster wholesale, a `message` envelope
//! appends to the feed, and nothing else changes anything.

use vstd::prelude::*;
use crate::message::{decode_payload, decode_payload_spec, ChatMessage, MessageView};
use crate::wire::{decode, decode_spec, texts, DecodeError, EnvelopeView, WireEnvelope};

verus! {

/// One connected user: a name and the address of the avatar drawn for it.
#[derive(Debug, Clone, PartialEq, Eq)]
pub struct UserProfile {
    pub name: String,
    pub avatar_url: String,
}

/// The model of a [`UserProfile`].
pub struct ProfileView {
    pub name: Seq<char>,
    pub avatar_url: Seq<char>,
}

impl View for UserProfile {
    type V = ProfileView;

    open spec fn view(&self) -> ProfileView {
        ProfileView { name: self.name@, avatar_url: self.avatar_url@ }
    }
}

/// The address of the avatar of a name: a fixed address with the name as its
/// seed, character for character.
pub open spec fn avatar_url_spec(name: Seq<char>) -> Seq<char> {
    "https://api.dicebear.com/8.x/identicon/svg"@ + "?seed="@ + name
}

/// The profile that belongs to a name.
pub open spec fn profile_of(name: Seq<char>) -> ProfileView {
    ProfileView { name, avatar_url: avatar_url_spec(name) }
}

/// The address of the avatar of `name`.
pub fn avatar_url(name: &str) -> (url: String)
    ensures
        url@ == avatar_url_spec(name@),
{
    String::from_str("https://api.dicebear.com/8.x/identicon/svg").concat("?seed=").concat(name)
}

impl UserProfile {
    /// The profile of the user called `name`.
    pub fn new(name: &str) -> (profile: UserProfile)
        ensures
            profile@ == profile_of(name@),
    {
        UserProfile { name: name.to_owned(), avatar_url: avatar_url(name) }
    }
}

/// A list of names without its repeats: of each name the first occurrence
/// stays, in the order of the list.
pub open spec fn distinct(names: Seq<Seq<char>>) -> Seq<Seq<char>>
    decreases names.len(),
{
    if names.len() == 0 {
        Seq::empty()
    } else {
        let front = distinct(names.drop_last());
        if front.contains(names.last()) {
            front
        } else {
            front.push(names.last())
        }
    }
}

/// The roster that a list of names gives: one profile for each distinct
/// name, in the order in which the names first occur.
pub open spec fn roster_of(names: Seq<Seq<char>>) -> Seq<ProfileView> {
    distinct(names).map_values(|name: Seq<char>| profile_of(name))
}

/// The names of a roster, in order.
pub open spec fn roster_names(roster: Seq<ProfileView>) -> Seq<Seq<char>> {
    roster.map_values(|p: ProfileView| p.name)
}

/// Whether a roster is well formed: no name occurs twice, and every profile
/// is the one that belongs to its name.
pub open spec fn roster_wf(roster: Seq<ProfileView>) -> bool {
    &&& roster_names(roster).no_duplicates()
    &&& forall|i: int| 0 <= i < roster.len() ==> #[trigger] roster[i] == profile_of(roster[i].name)
}

/// The models of a sequence of profiles, in order.
pub open spec fn profiles(roster: Seq<UserProfile>) -> Seq<ProfileView> {
    roster.map_values(|p: UserProfile| p@)
}

/// The models of a sequence of messages, in order.
pub open spec fn feed(messages: Seq<ChatMessage>) -> Seq<MessageView> {
    messages.map_values(|m: ChatMessage| m@)
}

/// `distinct` holds exactly the names of the list.
pub proof fn lemma_distinct_same_names(names: Seq<Seq<char>>, name: Seq<char>)
    ensures
        distinct(names).contains(name) <==> names.contains(name),
    decreases names.len(),
{
    if names.len() > 0 {
        let front = names.drop_last();
        lemma_distinct_same_names(front, name);
        lemma_distinct_same_names(front, names.last());
        if names.contains(name) {
            let i = choose|i: int| 0 <= i < names.len() && names[i] == name;
            if i < names.len() - 1 {
                assert(front[i] == name);
            }
        }
        if front.contains(name) {
            let i = choose|i: int| 0 <= i < front.len() && front[i] == name;
            assert(names[i] == name);
        }
        let kept = distinct(front);
        if !kept.contains(names.last()) {
            assert(forall|i: int| 0 <= i < kept.len() ==> kept.push(names.last())[i] == kept[i]);
            assert(kept.push(names.last())[kept.len() as int] == names.last());
        } else {
            assert(names[names.len() - 1] == names.last());
        }
    }
}

/// `distinct` holds no name twice.
pub proof fn lemma_distinct_no_duplicates(names: Seq<Seq<char>>)
    ensures
        distinct(names).no_duplicates(),
    decreases names.len(),
{
    if names.len() > 0 {
        lemma_distinct_no_duplicates(names.drop_last());
    }
}

/// A list that holds no name twice is left as it is.
pub proof fn lemma_distinct_of_distinct(names: Seq<Seq<char>>)
    requires
        names.no_duplicates(),
    ensures
        distinct(names) == names,
    decreases names.len(),
{
    if names.len() > 0 {
        let front = names.drop_last();
        lemma_distinct_of_distinct(front);
        lemma_distinct_same_names(front, names.last());
        if front.contains(names.last()) {
            let i = choose|i: int| 0 <= i < front.len() && front[i] == names.last();
            assert(names[i] == names[names.len() - 1]);
        }
        assert(front.push(names.last()) =~= names);
    } else {
        assert(names =~= Seq::empty());
    }
}

/// The roster of a list of names is well formed.
pub proof fn lemma_roster_of_wf(names: Seq<Seq<char>>)
    ensures
        roster_wf(roster_of(names)),
        roster_names(roster_of(names)) == distinct(names),
{
    lemma_distinct_no_duplicates(names);
    assert(roster_names(roster_of(names)) =~= distinct(names));
}

/// The model of a [`ChatState`].
pub struct StateView {
    pub roster: Seq<ProfileView>,
    pub messages: Seq<MessageView>,
}

/// What one inbound envelope does to a state, and whether the display is
/// to be refreshed.
///
/// `Users` replaces the roster. `Message` appends the decoded payload to the
/// feed; a payload that does not decode changes nothing. `Register` is meant
/// for the server and changes nothing.
pub open spec fn step(state: StateView, envelope: EnvelopeView) -> (StateView, bool) {
    match envelope {
        EnvelopeView::Users { names } => (
            StateView { roster: roster_of(names), messages: state.messages },
            true,
        ),
        EnvelopeView::Message { payload } => match decode_payload_spec(payload) {
            Ok(message) => (
                StateView { roster: state.roster, messages: state.messages.push(message) },
                true,
            ),
            Err(_) => (state, false),
        },
        EnvelopeView::Register { .. } => (state, false),
    }
}

/// What one inbound text does to a state: the step of the envelope that it
/// decodes to, and nothing where it decodes to none.
pub open spec fn receive_spec(state: StateView, text: Seq<char>) -> (StateView, bool) {
    match decode_spec(text) {
        Ok(envelope) => step(state, envelope),
        Err(_) => (state, false),
    }
}

/// Why an inbound envelope is dropped, if it is: a `message` envelope is
/// where its payload does not decode, and no other envelope ever is.
pub open spec fn step_error(envelope: EnvelopeView) -> Option<DecodeError> {
    match envelope {
        EnvelopeView::Message { payload } => match decode_payload_spec(payload) {
            Ok(_) => None,
            Err(e) => Some(e),
        },
        _ => None,
    }
}

/// Why an inbound text is dropped, if it is: it does not decode, or the
/// envelope that it decodes to is dropped.
pub open spec fn receive_error(text: Seq<char>) -> Option<DecodeError> {
    match decode_spec(text) {
        Ok(envelope) => step_error(envelope),
        Err(e) => Some(e),
    }
}

/// The users that are connected, as the server last listed them.
///
/// A roster holds no name twice, and the profile of each name is the one
/// that belongs to it.
#[derive(Debug, PartialEq, Eq)]
pub struct Roster {
    profiles: Vec<UserProfile>,
}

impl View for Roster {
    type V = Seq<ProfileView>;

    closed spec fn view(&self) -> Seq<ProfileView> {
        profiles(self.profiles@)
    }
}

/// Tells whether a profile of the list bears `name`.
fn has_name(roster: &Vec<UserProfile>, name: &str) -> (found: bool)
    ensures
        found == roster_names(profiles(roster@)).contains(name@),
{
    let ghost names = roster_names(profiles(roster@));
    let wanted = name.to_owned();
    let mut i: usize = 0;
    while i < roster.len()
        invariant
            i <= roster.len(),
            wanted@ == name@,
            names == roster_names(profiles(roster@)),
            forall|k: int| 0 <= k < i ==> names[k] != name@,
        decreases roster.len() - i,
    {
        if roster[i].name == wanted {
            assert(0 <= i < names.len() && names[i as int] == name@);
            return true;
        }
        i += 1;
    }
    false
}

impl Roster {
    #[verifier::type_invariant]
    spec fn well_formed(self) -> bool {
        roster_wf(profiles(self.profiles@))
    }

    /// The roster in which nobody is known.
    pub fn new() -> (roster: Roster)
        ensures
            roster@ == Seq::<ProfileView>::empty(),
    {
        let roster = Roster { profiles: Vec::new() };
        assert(roster@ =~= Seq::empty());
        roster
    }

    /// The roster of the users called `names`. A name that occurs more than
    /// once is taken once, where it occurs first.
    pub fn from_names(names: &Vec<String>) -> (roster: Roster)
        ensures
            roster@ == roster_of(texts(names@)),
    {
        let mut found: Vec<UserProfile> = Vec::new();
        let mut i: usize = 0;
        assert(texts(names@).take(0) =~= Seq::empty());
        while i < names.len()
            invariant
                i <= names.len(),
                profiles(found@) == roster_of(texts(names@).take(i as int)),
            decreases names.len() - i,
        {
            let ghost seen = texts(names@).take(i as int);
            let ghost next = texts(names@).take(i + 1);
            proof {
                assert(next.drop_last() =~= seen);
                assert(next.last() == names@[i as int]@);
                assert(roster_names(roster_of(seen)) =~= distinct(seen));
            }
            if !has_name(&found, names[i].as_str()) {
                found.push(UserProfile::new(names[i].as_str()));
                assert(profiles(found@) =~= roster_of(next));
            }
            i += 1;
        }
        proof {
            assert(texts(names@).take(i as int) =~= texts(names@));
            lemma_roster_of_wf(texts(names@));
        }
        Roster { profiles: found }
    }

    /// The profiles, in the order in which the server listed the names.
    pub fn profiles(&self) -> (list: &Vec<UserProfile>)
        ensures
            profiles(list@) == self@,
            roster_wf(self@),
    {
        proof {
            use_type_invariant(self);
        }
        &self.profiles
    }

    /// The address of the avatar of the user called `name`, if the roster
    /// knows that user.
    pub fn avatar_of(&self, name: &str) -> (found: Option<String>)
        ensures
            found is Some <==> roster_names(self@).contains(name@),
            found matches Some(url) ==> url@ == avatar_url_spec(name@),
    {
        proof {
            use_type_invariant(self);
        }
        let ghost names = roster_names(self@);
        let wanted = name.to_owned();
        let mut i: usize = 0;
        while i < self.profiles.len()
            invariant
                i <= self.profiles.len(),
                wanted@ == name@,
                names == roster_names(profiles(self.profiles@)),
                roster_wf(profiles(self.profiles@)),
                forall|k: int| 0 <= k < i ==> names[k] != name@,
            decreases self.profiles.len() - i,
        {
            if self.profiles[i].name == wanted {
                assert(0 <= i < names.len() && names[i as int] == name@);
                assert(profiles(self.profiles@)[i as int] == profile_of(name@));
                return Some(self.profiles[i].avatar_url.clone());
            }
            i += 1;
        }
        None
    }
}

/// The roster and the feed of one chat session.
#[derive(Debug, PartialEq, Eq)]
pub struct ChatState {
    roster: Roster,
    messages: Vec<ChatMessage>,
}

impl View for ChatState {
    type V = StateView;

    closed spec fn view(&self) -> StateView {
        StateView { roster: self.roster@, messages: feed(self.messages@) }
    }
}

impl ChatState {
    /// The state at the start of a session: nobody is known and nothing has
    /// been said.
    pub fn new() -> (state: ChatState)
        ensures
            state@ == (StateView { roster: Seq::empty(), messages: Seq::empty() }),
    {
        let state = ChatState { roster: Roster::new(), messages: Vec::new() };
        assert(state@.messages =~= Seq::empty());
        state
    }

    /// The roster. It is well formed at all times.
    pub fn roster(&self) -> (roster: &Roster)
        ensures
            roster@ == self@.roster,
            roster_wf(self@.roster),
    {
        proof {
            use_type_invariant(&self.roster);
        }
        &self.roster
    }

    /// The feed, in the order of arrival.
    pub fn messages(&self) -> (messages: &Vec<ChatMessage>)
        ensures
            feed(messages@) == self@.messages,
    {
        &self.messages
    }

    /// Replaces the roster by the one of `names`; the feed stays.
    pub fn replace_roster(&mut self, names: &Vec<String>)
        ensures
            final(self)@.roster == roster_of(texts(names@)),
            final(self)@.messages == old(self)@.messages,
    {
        self.roster = Roster::from_names(names);
    }

    /// Appends one message to the feed; the roster stays.
    pub fn append(&mut self, message: ChatMessage)
        ensures
            final(self)@.roster == old(self)@.roster,
            final(self)@.messages == old(self)@.messages.push(message@),
    {
        self.messages.push(message);
        assert(feed(self.messages@) =~= feed(old(self).messages@).push(message@));
    }

    /// Takes one inbound envelope. `Ok` says whether the display is to be
    /// refreshed; `Err` says why the envelope was dropped, and then nothing
    /// has changed.
    pub fn try_apply(&mut self, envelope: &WireEnvelope) -> (r: Result<bool, DecodeError>)
        ensures
            r matches Ok(refresh) ==> step_error(envelope@).is_none() && (final(self)@, refresh)
                == step(old(self)@, envelope@),
            r matches Err(e) ==> step_error(envelope@) == Some(e) && final(self)@ == old(self)@,
    {
        match envelope {
            WireEnvelope::Users { names } => {
                self.replace_roster(names);
                Ok(true)
            },
            WireEnvelope::Message { payload } => match decode_payload(payload.as_str()) {
                Ok(message) => {
                    self.append(message);
                    Ok(true)
                },
                Err(e) => Err(e),
            },
            WireEnvelope::Register { .. } => Ok(false),
        }
    }

    /// Takes one inbound envelope and says whether the display is to be
    /// refreshed. An envelope that is dropped changes nothing.
    pub fn apply(&mut self, envelope: &WireEnvelope) -> (refresh: bool)
        ensures
            (final(self)@, refresh) == step(old(self)@, envelope@),
    {
        match self.try_apply(envelope) {
            Ok(refresh) => refresh,
            Err(_) => false,
        }
    }

    /// Takes one inbound text. `Ok` says whether the display is to be
    /// refreshed; `Err` says why the text was dropped, and then nothing has
    /// changed.
    pub fn try_receive(&mut self, text: &str) -> (r: Result<bool, DecodeError>)
        ensures
            r matches Ok(refresh) ==> receive_error(text@).is_none() && (final(self)@, refresh)
                == receive_spec(old(self)@, text@),
            r matches Err(e) ==> receive_error(text@) == Some(e) && final(self)@ == old(self)@,
    {
        match decode(text) {
            Ok(envelope) => self.try_apply(&envelope),
            Err(e) => Err(e),
        }
    }

    /// Takes one inbound text and says whether the display is to be
    /// refreshed. A text that is dropped changes nothing.
    pub fn receive(&mut self, text: &str) -> (refresh: bool)
        ensures
            (final(self)@, refresh) == receive_spec(old(self)@, text@),
    {
        match self.try_receive(text) {
            Ok(refresh) => refresh,
            Err(_) => false,
        }
    }
}

/// A text that is dropped changes nothing and asks for no refresh.
pub proof fn lemma_dropped_changes_nothing(state: StateView, text: Seq<char>)
    ensures
        receive_error(text).is_some() ==> receive_spec(state, text) == (state, false),
{
}

/// The state after a sequence of inbound envelopes, taken in order.
pub open spec fn run(state: StateView, envelopes: Seq<EnvelopeView>) -> StateView
    decreases envelopes.len(),
{
    if envelopes.len() == 0 {
        state
    } else {
        step(run(state, envelopes.drop_last()), envelopes.last()).0
    }
}

/// The `message` envelopes that carry the given payloads, in order.
pub open spec fn message_envelopes(payloads: Seq<Seq<char>>) -> Seq<EnvelopeView> {
    payloads.map_values(|payload: Seq<char>| EnvelopeView::Message { payload })
}

/// Whether every payload of a sequence decodes.
pub open spec fn all_decode(payloads: Seq<Seq<char>>) -> bool {
    forall|i: int| 0 <= i < payloads.len() ==> (#[trigger] decode_payload_spec(payloads[i])) is Ok
}

/// The messages that a sequence of payloads decodes to, in order.
pub open spec fn decoded(payloads: Seq<Seq<char>>) -> Seq<MessageView> {
    payloads.map_values(|payload: Seq<char>| decode_payload_spec(payload)->Ok_0)
}

/// Replacing the roster is idempotent: the same `users` envelope applied a
/// second time leaves the state as the first application made it. The new
/// roster is the one of the names alone, whatever the roster was before, and
/// it holds no name twice.
pub proof fn lemma_roster_replace_idempotent(
    state: StateView,
    other: StateView,
    names: Seq<Seq<char>>,
)
    ensures
        ({
            let users = EnvelopeView::Users { names };
            let once = step(state, users).0;
            &&& step(once, users) == (once, true)
            &&& once.roster == roster_of(names)
            &&& once.roster == step(other, users).0.roster
            &&& once.messages == state.messages
            &&& roster_wf(once.roster)
        }),
{
    lemma_roster_of_wf(names);
}

/// A roster built from names that are all different lists them as they are:
/// one profile for each name, in order.
pub proof fn lemma_roster_of_distinct(names: Seq<Seq<char>>)
    requires
        names.no_duplicates(),
    ensures
        roster_of(names) == names.map_values(|name: Seq<char>| profile_of(name)),
{
    lemma_distinct_of_distinct(names);
}

/// A `register` envelope that arrives changes nothing and asks for no
/// refresh.
pub proof fn lemma_register_ignored(state: StateView, username: Seq<char>)
    ensures
        step(state, EnvelopeView::Register { username }) == (state, false),
{
}

/// One step keeps a well-formed roster well formed, and removes or reorders
/// nothing of the feed.
pub proof fn lemma_step_preserves(state: StateView, envelope: EnvelopeView)
    requires
        roster_wf(state.roster),
    ensures
        roster_wf(step(state, envelope).0.roster),
        state.messages.is_prefix_of(step(state, envelope).0.messages),
        !step(state, envelope).1 ==> step(state, envelope).0 == state,
{
    match envelope {
        EnvelopeView::Users { names } => {
            lemma_roster_of_wf(names);
        },
        _ => {},
    }
}

/// The feed only grows: after any sequence of envelopes the feed starts with
/// the feed as it was.
pub proof fn lemma_feed_grows(state: StateView, envelopes: Seq<EnvelopeView>)
    ensures
        state.messages.is_prefix_of(run(state, envelopes).messages),
    decreases envelopes.len(),
{
    if envelopes.len() > 0 {
        lemma_feed_grows(state, envelopes.drop_last());
        let before = run(state, envelopes.drop_last());
        let after = step(before, envelopes.last()).0;
        assert(before.messages.is_prefix_of(after.messages));
    }
}

/// Append only: after a sequence of `message` envelopes whose payloads all
/// decode, the feed is the feed as it was, followed by one message for each
/// envelope, in the order of arrival; the roster is as it was.
pub proof fn lemma_messages_append(state: StateView, payloads: Seq<Seq<char>>)
    ensures
        all_decode(payloads) ==> ({
            let after = run(state, message_envelopes(payloads));
            &&& after.messages == state.messages + decoded(payloads)
            &&& after.messages.len() == state.messages.len() + payloads.len()
            &&& after.roster == state.roster
        }),
    decreases payloads.len(),
{
    if all_decode(payloads) {
        if payloads.len() == 0 {
            assert(state.messages + decoded(payloads) =~= state.messages);
        } else {
            let front = payloads.drop_last();
            assert forall|i: int| 0 <= i < front.len() implies (#[trigger] decode_payload_spec(
                front[i],
            )) is Ok by {
                assert(front[i] == payloads[i]);
            }
            lemma_messages_append(state, front);
            assert(message_envelopes(payloads).drop_last() =~= message_envelopes(front));
            assert(message_envelopes(payloads).last() == EnvelopeView::Message {
                payload: payloads.last(),
            });
            assert(decode_payload_spec(payloads[payloads.len() - 1]) is Ok);
            assert(decoded(payloads) =~= decoded(front).push(
                decode_payload_spec(payloads.last())->Ok_0,
            ));
            let before = run(state, message_envelopes(front));
            assert((state.messages + decoded(front)).push(
                decode_payload_spec(payloads.last())->Ok_0,
            ) =~= state.messages + decoded(payloads));
        }
    }
}

} // verus!
