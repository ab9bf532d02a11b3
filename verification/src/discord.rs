//! The platform's objects as a scan sees them.

use vstd::prelude::*;
use vstd::string::StringExecFns;

verus! {

/// An account.
#[derive(Debug, PartialEq, Eq)]
pub struct User {
    pub id: String,
    pub username: String,
    pub discriminator: String,
}

/// What a [`User`] holds.
pub struct UserView {
    pub id: Seq<char>,
    pub username: Seq<char>,
    pub discriminator: Seq<char>,
}

impl UserView {
    /// The account as shown to the operator: `name#discriminator (id)`.
    pub open spec fn label(self) -> Seq<char> {
        self.username + "#"@ + self.discriminator + " ("@ + self.id + ")"@
    }

    /// The account that stands for "none chosen": every field empty.
    pub open spec fn blank() -> UserView {
        UserView { id: Seq::empty(), username: Seq::empty(), discriminator: Seq::empty() }
    }
}

impl View for User {
    type V = UserView;

    open spec fn view(&self) -> UserView {
        UserView { id: self.id@, username: self.username@, discriminator: self.discriminator@ }
    }
}

impl Default for User {
    fn default() -> (user: User)
        ensures
            user@ == UserView::blank(),
    {
        User { id: String::new(), username: String::new(), discriminator: String::new() }
    }
}

impl User {
    /// Whether no account stands here: the id is empty.
    pub fn is_empty(&self) -> (empty: bool)
        ensures
            empty == (self@.id.len() == 0),
    {
        self.id.as_str().is_empty()
    }

    /// The account as shown to the operator.
    pub fn to_string(&self) -> (label: String)
        ensures
            label@ == self@.label(),
    {
        let mut label = self.username.clone();
        label.append("#");
        label.append(self.discriminator.as_str());
        label.append(" (");
        label.append(self.id.as_str());
        label.append(")");
        label
    }
}

/// A channel of a guild.
#[derive(Debug, PartialEq, Eq)]
pub struct Channel {
    pub id: String,
    pub name: String,
    pub guild_id: String,
}

/// What a [`Channel`] holds.
pub struct ChannelView {
    pub id: Seq<char>,
    pub name: Seq<char>,
    pub guild_id: Seq<char>,
}

impl ChannelView {
    /// The channel as shown to the operator: `name (id)`.
    pub open spec fn label(self) -> Seq<char> {
        self.name + " ("@ + self.id + ")"@
    }

    /// The channel that stands for "none chosen": every field empty.
    pub open spec fn blank() -> ChannelView {
        ChannelView { id: Seq::empty(), name: Seq::empty(), guild_id: Seq::empty() }
    }
}

impl View for Channel {
    type V = ChannelView;

    open spec fn view(&self) -> ChannelView {
        ChannelView { id: self.id@, name: self.name@, guild_id: self.guild_id@ }
    }
}

impl Default for Channel {
    fn default() -> (channel: Channel)
        ensures
            channel@ == ChannelView::blank(),
    {
        Channel { id: String::new(), name: String::new(), guild_id: String::new() }
    }
}

impl Channel {
    /// Whether no channel stands here: the id is empty.
    pub fn is_empty(&self) -> (empty: bool)
        ensures
            empty == (self@.id.len() == 0),
    {
        self.id.as_str().is_empty()
    }

    /// The channel as shown to the operator.
    pub fn to_string(&self) -> (label: String)
        ensures
            label@ == self@.label(),
    {
        let mut label = self.name.clone();
        label.append(" (");
        label.append(self.id.as_str());
        label.append(")");
        label
    }
}

/// A guild.
#[derive(Debug, PartialEq, Eq)]
pub struct Guild {
    pub id: String,
    pub name: String,
}

/// What a [`Guild`] holds.
pub struct GuildView {
    pub id: Seq<char>,
    pub name: Seq<char>,
}

impl GuildView {
    /// The guild as shown to the operator: `name (id)`.
    pub open spec fn label(self) -> Seq<char> {
        self.name + " ("@ + self.id + ")"@
    }

    /// The guild that stands for "none chosen": every field empty.
    pub open spec fn blank() -> GuildView {
        GuildView { id: Seq::empty(), name: Seq::empty() }
    }
}

impl View for Guild {
    type V = GuildView;

    open spec fn view(&self) -> GuildView {
        GuildView { id: self.id@, name: self.name@ }
    }
}

impl Default for Guild {
    fn default() -> (guild: Guild)
        ensures
            guild@ == GuildView::blank(),
    {
        Guild { id: String::new(), name: String::new() }
    }
}

impl Guild {
    /// Whether no guild stands here: the id is empty.
    pub fn is_empty(&self) -> (empty: bool)
        ensures
            empty == (self@.id.len() == 0),
    {
        self.id.as_str().is_empty()
    }

    /// The guild as shown to the operator.
    pub fn to_string(&self) -> (label: String)
        ensures
            label@ == self@.label(),
    {
        let mut label = self.name.clone();
        label.append(" (");
        label.append(self.id.as_str());
        label.append(")");
        label
    }
}

/// One message, as the search returns it.
#[derive(Debug, PartialEq, Eq)]
pub struct Message {
    pub id: String,
    pub author: User,
    /// When it was sent, as RFC 3339 text.
    pub timestamp: String,
    pub edited_timestamp: Option<String>,
    pub content: String,
}

/// What a [`Message`] holds.
pub struct MessageView {
    pub id: Seq<char>,
    pub author: UserView,
    pub timestamp: Seq<char>,
    pub edited_timestamp: Option<Seq<char>>,
    pub content: Seq<char>,
}

impl MessageView {
    /// The message as one line of the list: `name#discriminator: content`.
    pub open spec fn line(self) -> Seq<char> {
        self.author.username + "#"@ + self.author.discriminator + ": "@ + self.content
    }
}

impl View for Message {
    type V = MessageView;

    open spec fn view(&self) -> MessageView {
        MessageView {
            id: self.id@,
            author: self.author@,
            timestamp: self.timestamp@,
            edited_timestamp: match self.edited_timestamp {
                Some(at) => Some(at@),
                None => None,
            },
            content: self.content@,
        }
    }
}

impl Message {
    /// The message as one line of the list.
    pub fn to_string(&self) -> (line: String)
        ensures
            line@ == self@.line(),
    {
        let mut line = self.author.username.clone();
        line.append("#");
        line.append(self.author.discriminator.as_str());
        line.append(": ");
        line.append(self.content.as_str());
        line
    }
}

/// The views of a run of messages, in order.
pub open spec fn message_views(messages: Seq<Message>) -> Seq<MessageView> {
    messages.map_values(|m: Message| m@)
}

/// The views of a run of groups, in order.
pub open spec fn group_views(groups: Seq<Vec<Message>>) -> Seq<Seq<MessageView>> {
    groups.map_values(|g: Vec<Message>| message_views(g@))
}

} // verus!
