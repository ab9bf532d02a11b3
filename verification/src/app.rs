//! The session: whom the operator has chosen, what they type, and the scan.

use crate::discord::{Channel, ChannelView, Guild, GuildView, User, UserView};
use crate::scan::{ScanAction, ScanEvent, ScanState, ScanStatus, ScanView};
use crate::search::{target_of, InputValidationError, Messenger, ScanTargetView};
use crate::text::text_view;
use unicode_width::UnicodeWidthStr;
use vstd::prelude::*;
use vstd::string::StringExecFns;

verus! {

/// The number of columns that `text` takes on a terminal.
pub uninterp spec fn str_width(text: Seq<char>) -> usize;

/// `unicode_width::UnicodeWidthStr::width` of a `str`.
///
/// Not proved: that the width depends on the text alone, which [`str_width`]
/// names.
#[verifier::external_body]
fn display_width(text: &str) -> (width: usize)
    ensures
        width == str_width(text@),
{
    UnicodeWidthStr::width(text)
}

/// What the keys mean at the moment.
#[derive(Clone, Copy, Debug, PartialEq, Eq, Structural)]
pub enum Mode {
    /// Keys are commands.
    Normal,
    /// Keys edit the id of the author.
    User,
    /// Keys edit the id of the channel or guild.
    Channel,
}

/// Whether the search looks in a channel or in a whole guild.
#[derive(Clone, Copy, Debug, PartialEq, Eq, Structural)]
pub enum Location {
    Channel,
    Guild,
}

/// A key that the operator pressed.
#[derive(Clone, Copy, Debug, PartialEq, Eq, Structural)]
pub enum Key {
    Char(char),
    Enter,
    Esc,
    Backspace,
    /// Any other key.
    Other,
}

/// What the session asks for after a key.
#[derive(Debug, PartialEq, Eq)]
pub enum Command {
    /// Nothing but to draw the session again.
    Redraw,
    /// Leave the program.
    Quit,
    /// Start a scan.
    Start,
    /// Look up the account with this id.
    FindUser(String),
    /// Look up the channel with this id.
    FindChannel(String),
}

/// What a [`Command`] holds.
pub enum CommandView {
    Redraw,
    Quit,
    Start,
    FindUser(Seq<char>),
    FindChannel(Seq<char>),
}

impl View for Command {
    type V = CommandView;

    open spec fn view(&self) -> CommandView {
        match self {
            Command::Redraw => CommandView::Redraw,
            Command::Quit => CommandView::Quit,
            Command::Start => CommandView::Start,
            Command::FindUser(id) => CommandView::FindUser(id@),
            Command::FindChannel(id) => CommandView::FindChannel(id@),
        }
    }
}

/// The token to use: the argument of the program if there is one, else the
/// environment's; none if that one is empty or there is neither.
pub open spec fn token_of(argument: Option<Seq<char>>, variable: Option<Seq<char>>) -> Option<
    Seq<char>,
> {
    let given = if argument is Some {
        argument
    } else {
        variable
    };
    match given {
        Some(token) if token.len() > 0 => Some(token),
        _ => None,
    }
}

/// The token to use, from the argument of the program and the environment's
/// variable; `None` if the program was given none.
pub fn pick_token(argument: Option<String>, variable: Option<String>) -> (token: Option<String>)
    ensures
        text_view(token) == token_of(text_view(argument), text_view(variable)),
{
    let given = match argument {
        Some(a) => Some(a),
        None => variable,
    };
    match given {
        Some(token) => if token.as_str().is_empty() {
            None
        } else {
            Some(token)
        },
        None => None,
    }
}

/// Whether a key seen while a scan waits is the signal to cancel it: `q` is.
pub fn cancels(key: Option<Key>) -> (cancel: bool)
    ensures
        cancel == (key == Some(Key::Char('q'))),
{
    match key {
        Some(Key::Char(c)) => c == 'q',
        _ => false,
    }
}

/// The column of the cursor behind a text of `width` columns in a box whose
/// border is at column `left`, if there is such a column.
pub open spec fn column_behind(left: u16, width: usize) -> Option<u16> {
    if left + width + 1 <= u16::MAX {
        Some((left + width + 1) as u16)
    } else {
        None
    }
}

/// The column of the cursor behind a text of `width` columns in a box whose
/// border is at column `left`; `None` if the screen has no such column.
pub fn column_after(left: u16, width: usize) -> (column: Option<u16>)
    ensures
        column == column_behind(left, width),
{
    if width < 0xffff && left as usize + width + 1 <= 0xffff {
        Some((left as usize + width + 1) as u16)
    } else {
        None
    }
}

/// The session as a value: what an [`App`] holds.
pub struct AppView {
    pub token: Seq<char>,
    /// Whose token it is.
    pub user: UserView,
    pub target_user: UserView,
    pub target_chan: ChannelView,
    pub target_guil: GuildView,
    pub target_loc: Location,
    pub input_mode: Mode,
    pub input_user: Seq<char>,
    pub input_chan: Seq<char>,
    pub scan: ScanView,
}

/// The scan of a session in which none has started.
pub open spec fn no_scan(token: Seq<char>, target: ScanTargetView) -> ScanView {
    ScanView {
        token,
        target,
        collected: Seq::empty(),
        offset: 0,
        total_results: 0,
        status: ScanStatus::Idle,
        polling: false,
    }
}

impl AppView {
    /// What always holds of a session: its scan is in order.
    pub open spec fn wf(self) -> bool {
        self.scan.wf()
    }

    /// Whose messages a scan would seek now, and where.
    pub open spec fn target(self) -> ScanTargetView {
        match self.target_loc {
            Location::Channel => target_of(
                self.target_user.id,
                self.target_chan.guild_id,
                Some(self.target_chan.id),
            ),
            Location::Guild => target_of(self.target_user.id, self.target_guil.id, None),
        }
    }

    /// The session after a key, and what it asks for.
    ///
    /// In normal mode `u` and `i` turn to the author's id, `c` and `a` to the
    /// channel's, `s` asks for a scan and `q` to leave. In the two other modes
    /// a character is added to the id, backspace takes the last one off, escape
    /// turns back to normal mode, and enter, if the id is not empty, hands the
    /// id out to be looked up, empties the field, drops what the last scan
    /// collected and turns back to normal mode.
    pub open spec fn on_key(self, key: Key) -> (AppView, CommandView) {
        match self.input_mode {
            Mode::Normal => match key {
                Key::Char(c) => if c == 'u' || c == 'i' {
                    (AppView { input_mode: Mode::User, ..self }, CommandView::Redraw)
                } else if c == 'c' || c == 'a' {
                    (AppView { input_mode: Mode::Channel, ..self }, CommandView::Redraw)
                } else if c == 's' {
                    (self, CommandView::Start)
                } else if c == 'q' {
                    (self, CommandView::Quit)
                } else {
                    (self, CommandView::Redraw)
                },
                _ => (self, CommandView::Redraw),
            },
            Mode::User => match key {
                Key::Enter => if self.input_user.len() > 0 {
                    (
                        AppView {
                            input_user: Seq::empty(),
                            input_mode: Mode::Normal,
                            scan: self.scan.cleared(),
                            ..self
                        },
                        CommandView::FindUser(self.input_user),
                    )
                } else {
                    (self, CommandView::Redraw)
                },
                Key::Esc => (AppView { input_mode: Mode::Normal, ..self }, CommandView::Redraw),
                Key::Backspace => (
                    AppView {
                        input_user: if self.input_user.len() > 0 {
                            self.input_user.drop_last()
                        } else {
                            self.input_user
                        },
                        ..self
                    },
                    CommandView::Redraw,
                ),
                Key::Char(c) => (
                    AppView { input_user: self.input_user.push(c), ..self },
                    CommandView::Redraw,
                ),
                Key::Other => (self, CommandView::Redraw),
            },
            Mode::Channel => match key {
                Key::Enter => if self.input_chan.len() > 0 {
                    (
                        AppView {
                            input_chan: Seq::empty(),
                            input_mode: Mode::Normal,
                            scan: self.scan.cleared(),
                            ..self
                        },
                        CommandView::FindChannel(self.input_chan),
                    )
                } else {
                    (self, CommandView::Redraw)
                },
                Key::Esc => (AppView { input_mode: Mode::Normal, ..self }, CommandView::Redraw),
                Key::Backspace => (
                    AppView {
                        input_chan: if self.input_chan.len() > 0 {
                            self.input_chan.drop_last()
                        } else {
                            self.input_chan
                        },
                        ..self
                    },
                    CommandView::Redraw,
                ),
                Key::Char(c) => (
                    AppView { input_chan: self.input_chan.push(c), ..self },
                    CommandView::Redraw,
                ),
                Key::Other => (self, CommandView::Redraw),
            },
        }
    }

    /// The session telling of `error` in the field that the error is about.
    pub open spec fn told(self, error: InputValidationError) -> AppView {
        match error {
            InputValidationError::User => AppView { input_user: "Invalid user id."@, ..self },
            InputValidationError::Channel => AppView {
                input_chan: "Invalid channel id."@,
                ..self
            },
        }
    }

    /// The session after the account that the operator named was looked up:
    /// found, it is the author to scan for; not found, the field says so.
    pub open spec fn with_user(self, found: Option<UserView>) -> AppView {
        match found {
            Some(user) => AppView { target_user: user, ..self },
            None => self.told(InputValidationError::User),
        }
    }

    /// The session after the channel that the operator named was looked up:
    /// found, the search looks in it; not found, no channel is chosen.
    pub open spec fn with_channel(self, found: Option<ChannelView>) -> AppView {
        match found {
            Some(channel) => AppView {
                target_chan: channel,
                target_loc: Location::Channel,
                ..self
            },
            None => AppView { target_chan: ChannelView::blank(), ..self },
        }
    }

    /// The session after the guild that the operator named was looked up:
    /// found, the search looks in all of it; not found, no guild is chosen and
    /// the field says so.
    pub open spec fn with_guild(self, found: Option<GuildView>) -> AppView {
        match found {
            Some(guild) => AppView { target_guil: guild, target_loc: Location::Guild, ..self },
            None => (AppView { target_guil: GuildView::blank(), ..self }).told(
                InputValidationError::Channel,
            ),
        }
    }

    /// The session after a scan was asked for. With an author and a guild it
    /// has a new scan under way, for them and with its token; else it is told
    /// what is missing.
    pub open spec fn with_scan(self) -> AppView {
        match self.target().missing() {
            None => AppView { scan: no_scan(self.token, self.target()).started(), ..self },
            Some(error) => self.told(error),
        }
    }

    /// The session with the field emptied that told of `error`.
    pub open spec fn dismissed(self, error: InputValidationError) -> AppView {
        match error {
            InputValidationError::User => AppView { input_user: Seq::empty(), ..self },
            InputValidationError::Channel => AppView { input_chan: Seq::empty(), ..self },
        }
    }

    /// The author to scan for as shown to the operator, if one is chosen.
    pub open spec fn target_user_label(self) -> Option<Seq<char>> {
        if self.target_user.id.len() == 0 {
            None
        } else {
            Some(self.target_user.label())
        }
    }

    /// The place to scan as shown to the operator, if one is chosen: the
    /// channel or the guild, whichever the search looks in.
    pub open spec fn target_label(self) -> Option<Seq<char>> {
        match self.target_loc {
            Location::Channel => if self.target_chan.id.len() == 0 {
                None
            } else {
                Some(self.target_chan.label())
            },
            Location::Guild => if self.target_guil.id.len() == 0 {
                None
            } else {
                Some(self.target_guil.label())
            },
        }
    }

    /// Where the cursor stands: in normal mode nowhere, else behind the id
    /// that is being edited, in the box whose border is at `user_left` or
    /// `chan_left`.
    pub open spec fn cursor(self, user_left: u16, chan_left: u16) -> Option<u16> {
        match self.input_mode {
            Mode::Normal => None,
            Mode::User => column_behind(user_left, str_width(self.input_user)),
            Mode::Channel => column_behind(chan_left, str_width(self.input_chan)),
        }
    }
}

/// One session of the program.
#[derive(Debug, PartialEq, Eq)]
pub struct App {
    pub token: String,
    user: User,
    target_user: User,
    target_chan: Channel,
    target_guil: Guild,
    target_loc: Location,
    input_mode: Mode,
    input_user: String,
    input_chan: String,
    scan: ScanState,
}

impl View for App {
    type V = AppView;

    closed spec fn view(&self) -> AppView {
        AppView {
            token: self.token@,
            user: self.user@,
            target_user: self.target_user@,
            target_chan: self.target_chan@,
            target_guil: self.target_guil@,
            target_loc: self.target_loc,
            input_mode: self.input_mode,
            input_user: self.input_user@,
            input_chan: self.input_chan@,
            scan: self.scan@,
        }
    }
}

impl App {
    /// Every session is in order.
    pub proof fn lemma_wf(&self)
        ensures
            self@.wf(),
    {
        self.scan.lemma_wf();
    }

    /// A session for the account `user`, whose token is `token`: nobody is
    /// chosen, nothing typed, no scan started.
    pub fn new(token: String, user: User) -> (app: App)
        ensures
            app@ == (AppView {
                token: token@,
                user: user@,
                target_user: UserView::blank(),
                target_chan: ChannelView::blank(),
                target_guil: GuildView::blank(),
                target_loc: Location::Channel,
                input_mode: Mode::Normal,
                input_user: Seq::empty(),
                input_chan: Seq::empty(),
                scan: no_scan(token@, target_of(Seq::empty(), Seq::empty(), None)),
            }),
    {
        let messenger = Messenger::new(token.clone(), String::new(), String::new(), None);
        App {
            token,
            user,
            target_user: User::default(),
            target_chan: Channel::default(),
            target_guil: Guild::default(),
            target_loc: Location::Channel,
            input_mode: Mode::Normal,
            input_user: String::new(),
            input_chan: String::new(),
            scan: ScanState::new(messenger),
        }
    }

    /// Takes in a key and says what the session asks for.
    pub fn on_key(&mut self, key: Key) -> (command: Command)
        ensures
            (final(self)@, command@) == old(self)@.on_key(key),
    {
        match self.input_mode {
            Mode::Normal => match key {
                Key::Char(c) => {
                    if c == 'u' || c == 'i' {
                        self.input_mode = Mode::User;
                        Command::Redraw
                    } else if c == 'c' || c == 'a' {
                        self.input_mode = Mode::Channel;
                        Command::Redraw
                    } else if c == 's' {
                        Command::Start
                    } else if c == 'q' {
                        Command::Quit
                    } else {
                        Command::Redraw
                    }
                },
                _ => Command::Redraw,
            },
            Mode::User => match key {
                Key::Enter => {
                    if self.input_user.as_str().is_empty() {
                        Command::Redraw
                    } else {
                        let mut id = String::new();
                        core::mem::swap(&mut self.input_user, &mut id);
                        self.input_mode = Mode::Normal;
                        self.scan.clear();
                        Command::FindUser(id)
                    }
                },
                Key::Esc => {
                    self.input_mode = Mode::Normal;
                    Command::Redraw
                },
                Key::Backspace => {
                    let _ = self.input_user.pop();
                    Command::Redraw
                },
                Key::Char(c) => {
                    self.input_user.push(c);
                    Command::Redraw
                },
                Key::Other => Command::Redraw,
            },
            Mode::Channel => match key {
                Key::Enter => {
                    if self.input_chan.as_str().is_empty() {
                        Command::Redraw
                    } else {
                        let mut id = String::new();
                        core::mem::swap(&mut self.input_chan, &mut id);
                        self.input_mode = Mode::Normal;
                        self.scan.clear();
                        Command::FindChannel(id)
                    }
                },
                Key::Esc => {
                    self.input_mode = Mode::Normal;
                    Command::Redraw
                },
                Key::Backspace => {
                    let _ = self.input_chan.pop();
                    Command::Redraw
                },
                Key::Char(c) => {
                    self.input_chan.push(c);
                    Command::Redraw
                },
                Key::Other => Command::Redraw,
            },
        }
    }

    /// Takes in what the lookup of an account came to: `None` if there is no
    /// such account.
    pub fn set_target_user(&mut self, found: Option<User>) -> (result: Result<
        (),
        InputValidationError,
    >)
        ensures
            final(self)@ == old(self)@.with_user(
                match found {
                    Some(user) => Some(user@),
                    None => None,
                },
            ),
            result == (if found is Some {
                Ok::<(), InputValidationError>(())
            } else {
                Err::<(), InputValidationError>(InputValidationError::User)
            }),
    {
        match found {
            Some(user) => {
                self.target_user = user;
                Ok(())
            },
            None => {
                self.tell(InputValidationError::User);
                Err(InputValidationError::User)
            },
        }
    }

    /// Takes in what the lookup of a channel came to: `None` if there is no
    /// such channel. Returns whether the id is to be looked up as a guild's
    /// next, which it is when it names no channel.
    pub fn set_target_chan(&mut self, found: Option<Channel>) -> (as_guild: bool)
        ensures
            final(self)@ == old(self)@.with_channel(
                match found {
                    Some(channel) => Some(channel@),
                    None => None,
                },
            ),
            as_guild == (found is None),
    {
        match found {
            Some(channel) => {
                self.target_chan = channel;
                self.target_loc = Location::Channel;
                false
            },
            None => {
                self.target_chan = Channel::default();
                true
            },
        }
    }

    /// Takes in what the lookup of a guild came to: `None` if there is no such
    /// guild.
    pub fn set_target_guil(&mut self, found: Option<Guild>) -> (result: Result<
        (),
        InputValidationError,
    >)
        ensures
            final(self)@ == old(self)@.with_guild(
                match found {
                    Some(guild) => Some(guild@),
                    None => None,
                },
            ),
            result == (if found is Some {
                Ok::<(), InputValidationError>(())
            } else {
                Err::<(), InputValidationError>(InputValidationError::Channel)
            }),
    {
        match found {
            Some(guild) => {
                self.target_guil = guild;
                self.target_loc = Location::Guild;
                Ok(())
            },
            None => {
                self.target_guil = Guild::default();
                self.tell(InputValidationError::Channel);
                Err(InputValidationError::Channel)
            },
        }
    }

    /// Empties the field that told of `error`.
    pub fn dismiss(&mut self, error: InputValidationError)
        ensures
            final(self)@ == old(self)@.dismissed(error),
    {
        match error {
            InputValidationError::User => {
                self.input_user = String::new();
            },
            InputValidationError::Channel => {
                self.input_chan = String::new();
            },
        }
    }

    /// Whether a scan can start: an author is chosen, and a guild is known.
    pub fn can_start(&self) -> (ready: bool)
        ensures
            ready == self@.target().ready(),
    {
        let guild_known = match self.target_loc {
            Location::Channel => !self.target_chan.guild_id.as_str().is_empty(),
            Location::Guild => !self.target_guil.id.as_str().is_empty(),
        };
        !self.target_user.id.as_str().is_empty() && guild_known
    }

    /// Starts a scan for the author and the place that are chosen, and drops
    /// what an earlier scan collected. Where the author or the guild is not
    /// known, no scan starts and the field says so.
    pub fn start(&mut self) -> (result: Result<ScanAction, InputValidationError>)
        ensures
            final(self)@ == old(self)@.with_scan(),
            result == (match old(self)@.target().missing() {
                None => Ok::<ScanAction, InputValidationError>(ScanAction::Fetch),
                Some(error) => Err::<ScanAction, InputValidationError>(error),
            }),
    {
        let messenger = match self.target_loc {
            Location::Channel => Messenger::new(
                self.token.clone(),
                self.target_user.id.clone(),
                self.target_chan.guild_id.clone(),
                Some(self.target_chan.id.clone()),
            ),
            Location::Guild => Messenger::new(
                self.token.clone(),
                self.target_user.id.clone(),
                self.target_guil.id.clone(),
                None,
            ),
        };
        let mut scan = ScanState::new(messenger);
        match scan.start() {
            Ok(action) => {
                self.scan = scan;
                Ok(action)
            },
            Err(error) => {
                self.tell(error);
                Err(error)
            },
        }
    }

    /// Tells of `error` in the field that the error is about.
    fn tell(&mut self, error: InputValidationError)
        ensures
            final(self)@ == old(self)@.told(error),
    {
        match error {
            InputValidationError::User => {
                self.input_user = String::from_str("Invalid user id.");
            },
            InputValidationError::Channel => {
                self.input_chan = String::from_str("Invalid channel id.");
            },
        }
    }

    /// Hands `event` to the scan and says what to do next.
    pub fn scan_step(&mut self, event: ScanEvent) -> (action: ScanAction)
        ensures
            final(self)@ == (AppView { scan: old(self)@.scan.step(event@), ..old(self)@ }),
            action == final(self)@.scan.pending(),
    {
        self.scan.step(event)
    }

    /// The author to scan for as shown to the operator; `None` if none is
    /// chosen.
    pub fn target_user_label(&self) -> (label: Option<String>)
        ensures
            text_view(label) == self@.target_user_label(),
    {
        if self.target_user.is_empty() {
            None
        } else {
            Some(self.target_user.to_string())
        }
    }

    /// The place to scan as shown to the operator; `None` if none is chosen.
    pub fn target_label(&self) -> (label: Option<String>)
        ensures
            text_view(label) == self@.target_label(),
    {
        match self.target_loc {
            Location::Channel => if self.target_chan.is_empty() {
                None
            } else {
                Some(self.target_chan.to_string())
            },
            Location::Guild => if self.target_guil.is_empty() {
                None
            } else {
                Some(self.target_guil.to_string())
            },
        }
    }

    /// Where the cursor stands, if anywhere.
    pub fn cursor(&self, user_left: u16, chan_left: u16) -> (column: Option<u16>)
        ensures
            column == self@.cursor(user_left, chan_left),
    {
        match self.input_mode {
            Mode::Normal => None,
            Mode::User => column_after(user_left, display_width(self.input_user.as_str())),
            Mode::Channel => column_after(chan_left, display_width(self.input_chan.as_str())),
        }
    }

    /// The account whose token the session uses.
    pub fn user(&self) -> (user: &User)
        ensures
            user@ == self@.user,
    {
        &self.user
    }

    /// The author to scan for.
    pub fn target_user(&self) -> (user: &User)
        ensures
            user@ == self@.target_user,
    {
        &self.target_user
    }

    /// The channel to scan, blank if none is chosen.
    pub fn target_chan(&self) -> (channel: &Channel)
        ensures
            channel@ == self@.target_chan,
    {
        &self.target_chan
    }

    /// The guild to scan, blank if none is chosen.
    pub fn target_guil(&self) -> (guild: &Guild)
        ensures
            guild@ == self@.target_guil,
    {
        &self.target_guil
    }

    /// Whether a scan would look in the channel or in the guild.
    pub fn target_loc(&self) -> (location: Location)
        ensures
            location == self@.target_loc,
    {
        self.target_loc
    }

    /// What the keys mean at the moment.
    pub fn input_mode(&self) -> (mode: Mode)
        ensures
            mode == self@.input_mode,
    {
        self.input_mode
    }

    /// The id of the author as typed so far.
    pub fn input_user(&self) -> (text: &str)
        ensures
            text@ == self@.input_user,
    {
        self.input_user.as_str()
    }

    /// The id of the channel or guild as typed so far.
    pub fn input_chan(&self) -> (text: &str)
        ensures
            text@ == self@.input_chan,
    {
        self.input_chan.as_str()
    }

    /// The scan.
    pub fn scan(&self) -> (scan: &ScanState)
        ensures
            scan@ == self@.scan,
    {
        &self.scan
    }
}

} // verus!
