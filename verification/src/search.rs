//! The search request and what comes back: one page of an author's messages.

use crate::discord::{group_views, message_views, Message, MessageView};
use crate::text::{decimal, push_decimal, text_view};
use vstd::prelude::*;
use vstd::seq_lib::lemma_flatten_concat;
use vstd::string::StringExecFns;

verus! {

/// The user agent that every request names.
pub const AGENT: &'static str =
    "Mozilla/5.0 (Windows NT 10.0; Win64; x64) AppleWebKit/537.36 (KHTML, like Gecko) discord/0.0.21 Chrome/94.0.4606.81 Electron/15.5.7 Safari/537.36";

/// Why a page could not be had.
#[derive(Clone, Copy, Debug, PartialEq, Eq, Structural)]
pub enum FetchError {
    /// The server does not accept the token.
    Auth,
    /// The server answered with this status, which is neither a success nor
    /// the refusal of the token.
    Http(u16),
    /// There was no answer, or it was a success whose body is no search
    /// result.
    Decode,
}

impl FetchError {
    /// The reason in words, for the operator.
    pub open spec fn text(self) -> Seq<char> {
        match self {
            FetchError::Auth => "invalid auth token"@,
            FetchError::Http(status) => "HTTP status "@ + decimal(status as nat),
            FetchError::Decode => "unreadable response"@,
        }
    }

    /// The reason in words, for the operator.
    pub fn to_string(&self) -> (text: String)
        ensures
            text@ == self.text(),
    {
        match self {
            FetchError::Auth => String::from_str("invalid auth token"),
            FetchError::Http(status) => {
                let mut text = String::from_str("HTTP status ");
                push_decimal(&mut text, *status as u64);
                text
            },
            FetchError::Decode => String::from_str("unreadable response"),
        }
    }
}

/// What the operator gave names nothing that can be searched.
#[derive(Clone, Copy, Debug, PartialEq, Eq, Structural)]
pub enum InputValidationError {
    /// No account: the author is not known.
    User,
    /// Neither a channel nor a guild: the place is not known.
    Channel,
}

/// Where the search looks.
#[derive(Debug, PartialEq, Eq)]
pub enum Scope {
    /// One channel of a guild.
    Channel { guild_id: String, channel_id: String },
    /// A whole guild.
    Guild { guild_id: String },
}

/// What a [`Scope`] holds.
pub enum ScopeView {
    Channel { guild_id: Seq<char>, channel_id: Seq<char> },
    Guild { guild_id: Seq<char> },
}

impl ScopeView {
    /// The guild that is searched, whichever the scope.
    pub open spec fn guild_id(self) -> Seq<char> {
        match self {
            ScopeView::Channel { guild_id, .. } => guild_id,
            ScopeView::Guild { guild_id } => guild_id,
        }
    }
}

impl View for Scope {
    type V = ScopeView;

    open spec fn view(&self) -> ScopeView {
        match self {
            Scope::Channel { guild_id, channel_id } => ScopeView::Channel {
                guild_id: guild_id@,
                channel_id: channel_id@,
            },
            Scope::Guild { guild_id } => ScopeView::Guild { guild_id: guild_id@ },
        }
    }
}

impl Clone for Scope {
    fn clone(&self) -> (copy: Scope)
        ensures
            copy@ == self@,
    {
        match self {
            Scope::Channel { guild_id, channel_id } => Scope::Channel {
                guild_id: guild_id.clone(),
                channel_id: channel_id.clone(),
            },
            Scope::Guild { guild_id } => Scope::Guild { guild_id: guild_id.clone() },
        }
    }
}

/// Whose messages are sought, and where.
#[derive(Debug, PartialEq, Eq)]
pub struct ScanTarget {
    pub author_id: String,
    pub scope: Scope,
}

/// What a [`ScanTarget`] holds.
pub struct ScanTargetView {
    pub author_id: Seq<char>,
    pub scope: ScopeView,
}

impl ScanTargetView {
    /// What is missing for a search, if anything: the author if the id of the
    /// author is empty, else the place if the id of the guild is empty.
    pub open spec fn missing(self) -> Option<InputValidationError> {
        if self.author_id.len() == 0 {
            Some(InputValidationError::User)
        } else if self.scope.guild_id().len() == 0 {
            Some(InputValidationError::Channel)
        } else {
            None
        }
    }

    /// A search can be asked for: the author and the guild are named.
    pub open spec fn ready(self) -> bool {
        self.missing() is None
    }

    /// The address of the page that starts after `offset` messages.
    ///
    /// The guild and the author are always named, the channel only when the
    /// scope is one channel, the offset only when it is not zero.
    pub open spec fn url(self, offset: nat) -> Seq<char> {
        "https://discord.com/api/v9/guilds/"@ + self.scope.guild_id()
            + "/messages/search?author_id="@ + self.author_id + (match self.scope {
            ScopeView::Channel { channel_id, .. } => "&channel_id="@ + channel_id,
            ScopeView::Guild { .. } => Seq::empty(),
        }) + (if offset != 0 {
            "&offset="@ + decimal(offset)
        } else {
            Seq::empty()
        })
    }
}

impl View for ScanTarget {
    type V = ScanTargetView;

    open spec fn view(&self) -> ScanTargetView {
        ScanTargetView { author_id: self.author_id@, scope: self.scope@ }
    }
}

impl Clone for ScanTarget {
    fn clone(&self) -> (copy: ScanTarget)
        ensures
            copy@ == self@,
    {
        ScanTarget { author_id: self.author_id.clone(), scope: self.scope.clone() }
    }
}

impl ScanTarget {
    /// What is missing for a search, if anything.
    pub fn missing(&self) -> (missing: Option<InputValidationError>)
        ensures
            missing == self@.missing(),
    {
        let guild_named = match &self.scope {
            Scope::Channel { guild_id, .. } => !guild_id.as_str().is_empty(),
            Scope::Guild { guild_id } => !guild_id.as_str().is_empty(),
        };
        if self.author_id.as_str().is_empty() {
            Some(InputValidationError::User)
        } else if !guild_named {
            Some(InputValidationError::Channel)
        } else {
            None
        }
    }

    /// Whether a search can be asked for.
    pub fn is_ready(&self) -> (ready: bool)
        ensures
            ready == self@.ready(),
    {
        self.missing().is_none()
    }

    /// The address of the page that starts after `offset` messages.
    pub fn url(&self, offset: usize) -> (url: String)
        ensures
            url@ == self@.url(offset as nat),
    {
        let mut url = String::from_str("https://discord.com/api/v9/guilds/");
        match &self.scope {
            Scope::Channel { guild_id, .. } => url.append(guild_id.as_str()),
            Scope::Guild { guild_id } => url.append(guild_id.as_str()),
        }
        url.append("/messages/search?author_id=");
        url.append(self.author_id.as_str());
        match &self.scope {
            Scope::Channel { channel_id, .. } => {
                url.append("&channel_id=");
                url.append(channel_id.as_str());
            },
            Scope::Guild { .. } => {},
        }
        if offset != 0 {
            url.append("&offset=");
            push_decimal(&mut url, offset as u64);
        }
        url
    }
}

/// A search result as the server sends it: each match comes in a group with
/// the messages around it.
#[derive(Debug, PartialEq, Eq)]
pub struct SearchResponse {
    pub total_results: u32,
    pub messages: Vec<Vec<Message>>,
}

/// What a [`SearchResponse`] holds.
pub struct SearchResponseView {
    pub total_results: nat,
    pub groups: Seq<Seq<MessageView>>,
}

impl View for SearchResponse {
    type V = SearchResponseView;

    open spec fn view(&self) -> SearchResponseView {
        SearchResponseView {
            total_results: self.total_results as nat,
            groups: group_views(self.messages@),
        }
    }
}

/// One page of a scan: the messages of all its groups in the order they came,
/// and the number of matches that the server reported with them.
#[derive(Debug, PartialEq, Eq)]
pub struct SearchPage {
    pub messages: Vec<Message>,
    pub total_results: u32,
}

/// What a [`SearchPage`] holds.
pub struct SearchPageView {
    pub messages: Seq<MessageView>,
    pub total_results: nat,
}

impl View for SearchPage {
    type V = SearchPageView;

    open spec fn view(&self) -> SearchPageView {
        SearchPageView {
            messages: message_views(self.messages@),
            total_results: self.total_results as nat,
        }
    }
}

/// Whether an HTTP status reports success.
pub open spec fn is_success(status: u16) -> bool {
    200 <= status <= 299
}

/// What a status says went wrong, if anything: 401 that the token is not
/// accepted, any other status that is no success that the request failed.
pub open spec fn error_of(status: u16) -> Option<FetchError> {
    if status == 401 {
        Some(FetchError::Auth)
    } else if !is_success(status) {
        Some(FetchError::Http(status))
    } else {
        None
    }
}

/// How an answer of the server reads. `status` is `None` where the request
/// got no answer, and `body` is `None` where there is none or it could not be
/// taken apart. The status decides first: without an answer there is nothing
/// to read, which counts as a body that cannot be read.
///
/// Every message of every group is kept, in order: those around a match too,
/// whoever wrote them, and one that comes in two groups comes twice.
pub open spec fn page_of(status: Option<u16>, body: Option<SearchResponseView>) -> Result<
    SearchPageView,
    FetchError,
> {
    match status {
        None => Err(FetchError::Decode),
        Some(status) => match error_of(status) {
            Some(error) => Err(error),
            None => match body {
                None => Err(FetchError::Decode),
                Some(response) => Ok(
                    SearchPageView {
                        messages: response.groups.flatten(),
                        total_results: response.total_results,
                    },
                ),
            },
        },
    }
}

/// What a status says went wrong, if anything.
pub fn status_error(status: u16) -> (error: Option<FetchError>)
    ensures
        error == error_of(status),
{
    if status == 401 {
        Some(FetchError::Auth)
    } else if status < 200 || status > 299 {
        Some(FetchError::Http(status))
    } else {
        None
    }
}

/// All messages of all groups, in order.
pub fn flatten(groups: Vec<Vec<Message>>) -> (messages: Vec<Message>)
    ensures
        message_views(messages@) == group_views(groups@).flatten(),
{
    let mut messages: Vec<Message> = Vec::new();
    let ghost all = group_views(groups@);
    for group in it: groups
        invariant
            all == group_views(groups@),
            it.seq() == groups@,
            message_views(messages@) == all.take(it.index() as int).flatten(),
    {
        let mut group = group;
        let ghost i = it.index() as int;
        messages.append(&mut group);
        proof {
            let added = message_views(groups@[i]@);
            assert(all.take(i + 1) =~= all.take(i) + seq![added]);
            lemma_flatten_concat(all.take(i), seq![added]);
            seq![added].lemma_flatten_one_element();
        }
    }
    proof {
        assert(all.take(groups@.len() as int) =~= all);
    }
    messages
}

/// The view of a body that may be missing.
pub open spec fn body_view(body: Option<SearchResponse>) -> Option<SearchResponseView> {
    match body {
        Some(response) => Some(response@),
        None => None,
    }
}

/// The view of what a request came to.
pub open spec fn outcome_view(outcome: Result<SearchPage, FetchError>) -> Result<
    SearchPageView,
    FetchError,
> {
    match outcome {
        Ok(page) => Ok(page@),
        Err(error) => Err(error),
    }
}

/// Reads an answer of the server as a page, or says why there is none.
pub fn read_response(status: Option<u16>, body: Option<SearchResponse>) -> (outcome: Result<
    SearchPage,
    FetchError,
>)
    ensures
        outcome_view(outcome) == page_of(status, body_view(body)),
{
    let status = match status {
        Some(status) => status,
        None => {
            return Err(FetchError::Decode);
        },
    };
    match status_error(status) {
        Some(error) => Err(error),
        None => match body {
            None => Err(FetchError::Decode),
            Some(response) => {
                let total_results = response.total_results;
                let messages = flatten(response.messages);
                Ok(SearchPage { messages, total_results })
            },
        },
    }
}

/// The target that a search names by an author, a guild and perhaps a channel.
/// An empty channel id names no channel.
pub open spec fn target_of(user: Seq<char>, guild: Seq<char>, channel: Option<Seq<char>>)
    -> ScanTargetView {
    ScanTargetView {
        author_id: user,
        scope: match channel {
            Some(id) if id.len() > 0 => ScopeView::Channel { guild_id: guild, channel_id: id },
            _ => ScopeView::Guild { guild_id: guild },
        },
    }
}

/// One search, page by page: whom it asks for, with which token, and how far
/// it has come.
#[derive(Debug, PartialEq, Eq)]
pub struct Messenger {
    pub token: String,
    pub target: ScanTarget,
    /// How many messages came so far.
    pub offset: usize,
    /// How many matches the server reported last.
    pub total_results: u32,
}

/// What a [`Messenger`] holds.
pub struct MessengerView {
    pub token: Seq<char>,
    pub target: ScanTargetView,
    pub offset: nat,
    pub total_results: nat,
}

impl View for Messenger {
    type V = MessengerView;

    open spec fn view(&self) -> MessengerView {
        MessengerView {
            token: self.token@,
            target: self.target@,
            offset: self.offset as nat,
            total_results: self.total_results as nat,
        }
    }
}

impl Messenger {
    /// A search that has not asked for anything yet.
    pub fn new(token: String, user: String, guild: String, channel: Option<String>) -> (messenger:
        Messenger)
        ensures
            messenger@ == (MessengerView {
                token: token@,
                target: target_of(user@, guild@, text_view(channel)),
                offset: 0,
                total_results: 0,
            }),
    {
        let scope = match channel {
            Some(id) => {
                if id.as_str().is_empty() {
                    Scope::Guild { guild_id: guild }
                } else {
                    Scope::Channel { guild_id: guild, channel_id: id }
                }
            },
            None => Scope::Guild { guild_id: guild },
        };
        Messenger {
            token,
            target: ScanTarget { author_id: user, scope },
            offset: 0,
            total_results: 0,
        }
    }

    /// The address of the next page.
    pub fn url(&self) -> (url: String)
        ensures
            url@ == self@.target.url(self@.offset),
    {
        self.target.url(self.offset)
    }
}

} // verus!
