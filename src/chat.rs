//! The chat window's state and its decisions: what a submitted line does, what
//! each command does, and how events from the session manager show up.
//!
//! Work that leaves the process (sending to the manager, reading the
//! environment, touching the token file) is returned as [`Effect`]s; where its
//! result matters, it comes back through a method of [`App`].
use crate::config::{self, StoredToken};
use crate::crypto::aes256;
use crate::events::DiscordCommEvent;
use crate::guard;
use vstd::prelude::*;
use vstd::string::StrSliceExecFns;
use vstd::utf8::encode_utf8;

verus! {

/// The channel that chat lines are sent to.
pub const CHAT_CHANNEL_ID: u64 = 1459160075649286318;

/// Text of a command line split at runs of white space.
pub uninterp spec fn whitespace_words(s: Seq<char>) -> Seq<Seq<char>>;

/// Text with leading and trailing white space removed.
pub uninterp spec fn trimmed_of(s: Seq<char>) -> Seq<char>;

/// Text with every occurrence of `from` replaced by `to`.
pub uninterp spec fn replaced_of(s: Seq<char>, from: Seq<char>, to: Seq<char>) -> Seq<char>;

/// Relies on std's `str::split_whitespace`: the words of the text, in order.
#[verifier::external_body]
fn split_words(s: &str) -> (r: Vec<String>)
    ensures
        r@.map_values(|w: String| w@) == whitespace_words(s@),
{
    s.split_whitespace().map(|w| w.to_string()).collect()
}

/// Relies on std's `str::trim`: the text without leading and trailing white space.
#[verifier::external_body]
fn trim_text(s: &str) -> (r: &str)
    ensures
        r@ == trimmed_of(s@),
        s@.len() == 0 ==> r@.len() == 0,
{
    s.trim()
}

/// Relies on std's `str::replace`: every occurrence of `from` replaced by `to`.
#[verifier::external_body]
fn replace_text(s: &str, from: &str, to: &str) -> (r: String)
    ensures
        r@ == replaced_of(s@, from@, to@),
{
    s.replace(from, to)
}

pub enum GuiMessage {
    /// A chat line: author and text.
    User(String, String),
    Error(String),
    Generic(String),
}

/// A line of the chat log, as plain values.
pub enum MessageView {
    User(Seq<char>, Seq<char>),
    Error(Seq<char>),
    Generic(Seq<char>),
}

impl View for GuiMessage {
    type V = MessageView;

    open spec fn view(&self) -> MessageView {
        match self {
            GuiMessage::User(a, t) => MessageView::User(a@, t@),
            GuiMessage::Error(t) => MessageView::Error(t@),
            GuiMessage::Generic(t) => MessageView::Generic(t@),
        }
    }
}

/// What a command does.
#[derive(Clone, Copy)]
pub enum CommandKind {
    Help,
    Login,
    Logout,
    Clear,
    Exit,
}

pub struct CommandContext {
    pub args: Vec<String>,
}

pub struct ChatCommand {
    pub aliases: Vec<String>,
    pub description: String,
    handler: Option<CommandKind>,
}

/// Work for the caller to carry out.
pub enum Effect {
    /// Send the event to the session manager.
    Transmit(DiscordCommEvent),
    /// Read the token from the environment and hand it to [`App::login_from_env`].
    ReadEnvToken,
    /// Delete the token file, if there is one, and report to [`App::on_token_forgotten`].
    ForgetToken,
    /// Seal and store the token, and report to [`App::on_token_saved`].
    SaveToken(String),
    /// End the program with status 0.
    Exit,
}

/// The chat window's state, as plain values.
pub struct AppView {
    pub messages: Seq<MessageView>,
    pub text_to_send: Seq<char>,
    pub token_to_save: Option<Seq<char>>,
    pub commands: Seq<(Seq<Seq<char>>, Seq<char>, Option<CommandKind>)>,
}

pub struct App {
    messages: Vec<GuiMessage>,
    text_to_send: String,
    token_to_save: Option<String>,
    commands: Vec<ChatCommand>,
}

pub open spec fn views(ws: Seq<String>) -> Seq<Seq<char>> {
    ws.map_values(|w: String| w@)
}

pub open spec fn opt_string_view(o: Option<String>) -> Option<Seq<char>> {
    match o {
        Some(s) => Some(s@),
        None => None,
    }
}

impl View for ChatCommand {
    type V = (Seq<Seq<char>>, Seq<char>, Option<CommandKind>);

    closed spec fn view(&self) -> (Seq<Seq<char>>, Seq<char>, Option<CommandKind>) {
        (views(self.aliases@), self.description@, self.handler)
    }
}

impl View for App {
    type V = AppView;

    closed spec fn view(&self) -> AppView {
        AppView {
            messages: self.messages@.map_values(|m: GuiMessage| m@),
            text_to_send: self.text_to_send@,
            token_to_save: opt_string_view(self.token_to_save),
            commands: self.commands@.map_values(|c: ChatCommand| c@),
        }
    }
}

/// The same view, with only the log grown by `m`.
pub open spec fn logged(s: AppView, m: MessageView) -> AppView {
    AppView { messages: s.messages.push(m), ..s }
}

/// Aliases joined by commas.
pub open spec fn joined(ws: Seq<Seq<char>>) -> Seq<char>
    decreases ws.len(),
{
    if ws.len() == 0 {
        Seq::empty()
    } else if ws.len() == 1 {
        ws[0]
    } else {
        joined(ws.drop_last()) + seq![','] + ws.last()
    }
}

/// The help line of a command.
pub open spec fn help_line(c: (Seq<Seq<char>>, Seq<char>, Option<CommandKind>)) -> MessageView {
    MessageView::Generic(seq![' '] + joined(c.0) + seq![':', ' '] + c.1)
}

/// The first command with `alias` among its aliases.
pub open spec fn command_index(
    cmds: Seq<(Seq<Seq<char>>, Seq<char>, Option<CommandKind>)>,
    alias: Seq<char>,
    i: int,
) -> bool {
    &&& 0 <= i < cmds.len()
    &&& cmds[i].0.contains(alias)
    &&& forall|j: int| 0 <= j < i ==> !(#[trigger] cmds[j].0.contains(alias))
}

fn copy_strings(v: &Vec<String>) -> (r: Vec<String>)
    ensures
        r@ == v@,
{
    let mut out: Vec<String> = Vec::new();
    let mut i: usize = 0;
    while i < v.len()
        invariant
            i <= v@.len(),
            out@ == v@.subrange(0, i as int),
        decreases v@.len() - i,
    {
        out.push(v[i].clone());
        assert(out@ =~= v@.subrange(0, i + 1));
        i = i + 1;
    }
    assert(out@ =~= v@);
    out
}

fn text(s: &str) -> (r: String)
    ensures
        r@ == s@,
{
    String::from_str(s)
}

impl ChatCommand {
    /// A command with one alias, no description and no handler yet.
    pub fn one_alias(alias: String) -> (r: Self)
        ensures
            r@ == (seq![alias@], Seq::<char>::empty(), Option::<CommandKind>::None),
    {
        let mut aliases: Vec<String> = Vec::new();
        aliases.push(alias);
        let r = ChatCommand { aliases, description: String::new(), handler: None };
        assert(views(r.aliases@) =~= seq![alias@]);
        r
    }

    pub fn with_handler(&mut self, handler: CommandKind) -> (r: Self)
        ensures
            final(self)@ == (old(self)@.0, old(self)@.1, Some(
                handler,
            )),
            r@ == final(self)@,
    {
        self.handler = Some(handler);
        ChatCommand {
            aliases: copy_strings(&self.aliases),
            description: self.description.clone(),
            handler: Some(handler),
        }
    }

    pub fn with_description(&mut self, description: String) -> (r: Self)
        ensures
            final(self)@ == (old(self)@.0, description@, old(
                self,
            )@.2),
            r@ == final(self)@,
    {
        self.description = description;
        ChatCommand {
            aliases: copy_strings(&self.aliases),
            description: self.description.clone(),
            handler: self.handler,
        }
    }

    fn has_alias(&self, alias: &String) -> (r: bool)
        ensures
            r == views(self.aliases@).contains(alias@),
    {
        let mut i: usize = 0;
        while i < self.aliases.len()
            invariant
                i <= self.aliases@.len(),
                forall|j: int| 0 <= j < i ==> self.aliases@[j]@ != alias@,
            decreases self.aliases@.len() - i,
        {
            if self.aliases[i] == *alias {
                assert(views(self.aliases@)[i as int] == alias@);
                return true;
            }
            i = i + 1;
        }
        assert forall|j: int| 0 <= j < views(self.aliases@).len() implies views(
            self.aliases@,
        )[j] != alias@ by {
            assert(self.aliases@[j]@ != alias@);
        }
        false
    }

    /// Runs the command's handler on `app`.
    pub fn execute(&self, app: &mut App, ctx: CommandContext) -> (r: Vec<Effect>)
        requires
            self@.2 is Some,
        ensures
            command_result(self@.2->Some_0, old(app)@, views(ctx.args@), final(app)@, r@),
    {
        match self.handler {
            Some(CommandKind::Help) => {
                app.cmd_help();
                Vec::new()
            },
            Some(CommandKind::Login) => app.cmd_login(ctx),
            Some(CommandKind::Logout) => app.cmd_logout(),
            Some(CommandKind::Clear) => {
                app.cmd_clear();
                Vec::new()
            },
            Some(CommandKind::Exit) => {
                let mut v: Vec<Effect> = Vec::new();
                v.push(Effect::Exit);
                assert(v@ =~= seq![Effect::Exit]);
                v
            },
            None => Vec::new(),
        }
    }
}

/// The state after `/help` in state `s`.
pub open spec fn help_shown(s: AppView) -> AppView {
    AppView {
        messages: s.messages + seq![MessageView::Generic("Available commands:"@)]
            + s.commands.map_values(
            |c: (Seq<Seq<char>>, Seq<char>, Option<CommandKind>)| help_line(c),
        ),
        ..s
    }
}

/// The outcome of the command `k` with arguments `args` in state `s`: `t` and
/// `acts` are the state and effects after it.
pub open spec fn command_result(
    k: CommandKind,
    s: AppView,
    args: Seq<Seq<char>>,
    t: AppView,
    acts: Seq<Effect>,
) -> bool {
    match k {
        CommandKind::Help => t == help_shown(s) && acts.len() == 0,
        CommandKind::Login => app_login_result(s, args, t, acts),
        CommandKind::Logout => t == s && acts == seq![Effect::ForgetToken],
        CommandKind::Clear => t == (AppView { messages: Seq::empty(), ..s }) && acts.len() == 0,
        CommandKind::Exit => t == s && acts == seq![Effect::Exit],
    }
}

/// The outcome of the command line `input` (without its prefix) in state `s`.
pub open spec fn command_line_result(s: AppView, input: Seq<char>, t: AppView, acts: Seq<Effect>) -> bool {
    let words = whitespace_words(input);
    if words.len() == 0 {
        t == s && acts.len() == 0
    } else if exists|i: int| command_index(s.commands, words[0], i) {
        let i = choose|i: int| command_index(s.commands, words[0], i);
        match s.commands[i].2 {
            Some(k) => command_result(k, s, words.drop_first(), t, acts),
            None => t == s && acts.len() == 0,
        }
    } else {
        t == logged(s, MessageView::Error("Unknown command '"@ + words[0] + "'"@)) && acts.len() == 0
    }
}

/// Only one position is the first that holds an alias.
proof fn lemma_command_index_unique(
    cmds: Seq<(Seq<Seq<char>>, Seq<char>, Option<CommandKind>)>,
    alias: Seq<char>,
    i: int,
    j: int,
)
    requires
        command_index(cmds, alias, i),
        command_index(cmds, alias, j),
    ensures
        i == j,
{
    if i < j {
        assert(!cmds[i].0.contains(alias));
    } else if j < i {
        assert(!cmds[j].0.contains(alias));
    }
}

/// The outcome of `/login` with arguments `args` in state `s`: `t` and `acts`
/// are the state and effects after it.
pub open spec fn app_login_result(
    s: AppView,
    args: Seq<Seq<char>>,
    t: AppView,
    acts: Seq<Effect>,
) -> bool {
    if args.len() == 0 {
        t == logged(s, MessageView::Error("Token not specified"@)) && acts.len() == 0
    } else if args[0] == "env"@ {
        t == s && acts == seq![Effect::ReadEnvToken]
    } else {
        &&& t == logged(
            AppView { token_to_save: Some(args[0]), ..s },
            MessageView::Generic("Logging in..."@),
        )
        &&& acts.len() == 1
        &&& match acts[0] {
            Effect::Transmit(DiscordCommEvent::Login(tok)) => tok@ == args[0],
            _ => false,
        }
    }
}

impl App {
    /// A chat window with its welcome lines and its commands.
    pub fn new() -> (r: Self)
        ensures
            r@.messages == seq![
                MessageView::Generic("Welcome to Dove"@),
                MessageView::Generic("Contact Wolfyxon if you need help or find bugs"@),
                MessageView::Generic(
                    "Please note that this is an early test version and things may change soon.\n"@,
                ),
                MessageView::Generic("Use /help to see a list of commands"@),
                MessageView::Generic("Use /login <token> to log into the chat"@),
                MessageView::Generic("Do not show your token to anyone!\n"@),
            ],
            r@.text_to_send.len() == 0,
            r@.token_to_save is None,
            r@.commands.len() == 5,
            r@.commands[0] == (seq!["help"@], "Shows a list of commands"@, Some(CommandKind::Help)),
            r@.commands[1] == (
                seq!["login"@],
                "Logs into Discord with the specified token"@,
                Some(CommandKind::Login),
            ),
            r@.commands[2] == (
                seq!["logout"@],
                "Logs out of Discord and forgets your token"@,
                Some(CommandKind::Logout),
            ),
            r@.commands[3] == (seq!["clear"@], "Clears the chat"@, Some(CommandKind::Clear)),
            r@.commands[4] == (seq!["exit"@], "Closes the program"@, Some(CommandKind::Exit)),
    {
        let mut messages: Vec<GuiMessage> = Vec::new();
        messages.push(GuiMessage::Generic(text("Welcome to Dove")));
        messages.push(GuiMessage::Generic(text("Contact Wolfyxon if you need help or find bugs")));
        messages.push(
            GuiMessage::Generic(
                text(
                    "Please note that this is an early test version and things may change soon.\n",
                ),
            ),
        );
        messages.push(GuiMessage::Generic(text("Use /help to see a list of commands")));
        messages.push(GuiMessage::Generic(text("Use /login <token> to log into the chat")));
        messages.push(GuiMessage::Generic(text("Do not show your token to anyone!\n")));
        let mut commands: Vec<ChatCommand> = Vec::new();
        commands.push(
            ChatCommand::one_alias(text("help")).with_description(
                text("Shows a list of commands"),
            ).with_handler(CommandKind::Help),
        );
        commands.push(
            ChatCommand::one_alias(text("login")).with_description(
                text("Logs into Discord with the specified token"),
            ).with_handler(CommandKind::Login),
        );
        commands.push(
            ChatCommand::one_alias(text("logout")).with_description(
                text("Logs out of Discord and forgets your token"),
            ).with_handler(CommandKind::Logout),
        );
        commands.push(
            ChatCommand::one_alias(text("clear")).with_description(
                text("Clears the chat"),
            ).with_handler(CommandKind::Clear),
        );
        commands.push(
            ChatCommand::one_alias(text("exit")).with_description(
                text("Closes the program"),
            ).with_handler(CommandKind::Exit),
        );
        let r = App { messages, text_to_send: String::new(), token_to_save: None, commands };
        assert(r@.messages =~= seq![
            MessageView::Generic("Welcome to Dove"@),
            MessageView::Generic("Contact Wolfyxon if you need help or find bugs"@),
            MessageView::Generic(
                "Please note that this is an early test version and things may change soon.\n"@,
            ),
            MessageView::Generic("Use /help to see a list of commands"@),
            MessageView::Generic("Use /login <token> to log into the chat"@),
            MessageView::Generic("Do not show your token to anyone!\n"@),
        ]);
        r
    }

    pub fn messages(&self) -> (r: &Vec<GuiMessage>)
        ensures
            r@.map_values(|m: GuiMessage| m@) == self@.messages,
    {
        &self.messages
    }

    pub fn text_to_send(&self) -> (r: &String)
        ensures
            r@ == self@.text_to_send,
    {
        &self.text_to_send
    }

    /// Replaces the line being typed.
    pub fn set_text_to_send(&mut self, s: String)
        ensures
            final(self)@ == (AppView { text_to_send: s@, ..old(self)@ }),
    {
        self.text_to_send = s;
    }

    fn add_message(&mut self, msg: GuiMessage)
        ensures
            final(self)@ == logged(old(self)@, msg@),
    {
        self.messages.push(msg);
        assert(self@.messages =~= old(self)@.messages.push(msg@));
    }

    fn clear_message(&mut self)
        ensures
            final(self)@ == (AppView { text_to_send: Seq::empty(), ..old(self)@ }),
    {
        self.text_to_send = String::new();
    }

    /// Announces the login and asks the manager to log in with `token`.
    fn login(&mut self, token: String) -> (r: Vec<Effect>)
        ensures
            final(self)@ == logged(old(self)@, MessageView::Generic("Logging in..."@)),
            r@ == seq![Effect::Transmit(DiscordCommEvent::Login(token))],
    {
        self.add_message(GuiMessage::Generic(text("Logging in...")));
        let mut v: Vec<Effect> = Vec::new();
        v.push(Effect::Transmit(DiscordCommEvent::Login(token)));
        assert(v@ =~= seq![Effect::Transmit(DiscordCommEvent::Login(token))]);
        v
    }

    /// `/login <token>`: logs in with the token and keeps it to be saved once
    /// the login succeeds; `/login env` takes the token from the environment.
    pub fn cmd_login(&mut self, ctx: CommandContext) -> (r: Vec<Effect>)
        ensures
            app_login_result(old(self)@, views(ctx.args@), final(self)@, r@),
    {
        if ctx.args.len() == 0 {
            self.add_message(GuiMessage::Error(text("Token not specified")));
            return Vec::new();
        }
        let token = ctx.args[0].clone();
        proof {
            assert(views(ctx.args@)[0] == token@);
        }
        if token == text("env") {
            let mut v: Vec<Effect> = Vec::new();
            v.push(Effect::ReadEnvToken);
            assert(v@ =~= seq![Effect::ReadEnvToken]);
            return v;
        }
        self.token_to_save = Some(token.clone());
        let r = self.login(token);
        r
    }

    /// The environment's token for `/login env`, if it is set. That token is
    /// never saved.
    pub fn login_from_env(&mut self, env_token: Option<String>) -> (r: Vec<Effect>)
        ensures
            env_token is None ==> final(self)@ == logged(
                old(self)@,
                MessageView::Error("DISCORD_TOKEN env variable missing"@),
            ) && r@.len() == 0,
            env_token is Some ==> final(self)@ == logged(
                logged(
                    old(self)@,
                    MessageView::Generic("Using token from env variables. It won't be saved."@),
                ),
                MessageView::Generic("Logging in..."@),
            ) && r@ == seq![Effect::Transmit(DiscordCommEvent::Login(env_token->Some_0))],
    {
        match env_token {
            Some(tok) => {
                self.add_message(
                    GuiMessage::Generic(text("Using token from env variables. It won't be saved.")),
                );
                self.login(tok)
            },
            None => {
                self.add_message(GuiMessage::Error(text("DISCORD_TOKEN env variable missing")));
                Vec::new()
            },
        }
    }

    /// `/logout`: first the token file is to be removed.
    pub fn cmd_logout(&mut self) -> (r: Vec<Effect>)
        ensures
            final(self)@ == old(self)@,
            r@ == seq![Effect::ForgetToken],
    {
        let mut v: Vec<Effect> = Vec::new();
        v.push(Effect::ForgetToken);
        assert(v@ =~= seq![Effect::ForgetToken]);
        v
    }

    /// The token file has been removed, or could not be: logs out.
    pub fn on_token_forgotten(&mut self, result: Result<(), String>) -> (r: Vec<Effect>)
        ensures
            result is Ok ==> final(self)@ == logged(old(self)@, MessageView::Generic("Logged out"@)),
            result is Err ==> final(self)@ == logged(
                logged(
                    old(self)@,
                    MessageView::Error("Unable to forget your token: "@ + result->Err_0@),
                ),
                MessageView::Generic("Logged out"@),
            ),
            r@ == seq![Effect::Transmit(DiscordCommEvent::Logout)],
    {
        if let Err(e) = result {
            self.add_message(
                GuiMessage::Error(text("Unable to forget your token: ").concat(e.as_str())),
            );
        }
        let mut v: Vec<Effect> = Vec::new();
        v.push(Effect::Transmit(DiscordCommEvent::Logout));
        self.add_message(GuiMessage::Generic(text("Logged out")));
        assert(v@ =~= seq![Effect::Transmit(DiscordCommEvent::Logout)]);
        v
    }

    /// `/help`: one line per command.
    pub fn cmd_help(&mut self)
        ensures
            final(self)@ == help_shown(old(self)@),
    {
        self.add_message(GuiMessage::Generic(text("Available commands:")));
        let ghost start = self@;
        let mut i: usize = 0;
        while i < self.commands.len()
            invariant
                i <= self.commands@.len(),
                self@ == (AppView {
                    messages: start.messages + start.commands.subrange(0, i as int).map_values(
                        |c: (Seq<Seq<char>>, Seq<char>, Option<CommandKind>)| help_line(c),
                    ),
                    ..start
                }),
            decreases self.commands@.len() - i,
        {
            let line = help_text(&self.commands[i]);
            self.add_message(GuiMessage::Generic(line));
            proof {
                assert(start.commands[i as int] == self.commands@[i as int]@);
                assert(start.commands.subrange(0, i + 1).map_values(
                    |c: (Seq<Seq<char>>, Seq<char>, Option<CommandKind>)| help_line(c),
                ) =~= start.commands.subrange(0, i as int).map_values(
                    |c: (Seq<Seq<char>>, Seq<char>, Option<CommandKind>)| help_line(c),
                ).push(help_line(start.commands[i as int])));
                assert(self@.messages =~= start.messages + start.commands.subrange(
                    0,
                    i + 1,
                ).map_values(
                    |c: (Seq<Seq<char>>, Seq<char>, Option<CommandKind>)| help_line(c),
                ));
            }
            i = i + 1;
        }
        assert(start.commands.subrange(0, i as int) =~= start.commands);
        assert(self@.messages =~= old(self)@.messages + seq![MessageView::Generic("Available commands:"@)]
            + old(self)@.commands.map_values(
            |c: (Seq<Seq<char>>, Seq<char>, Option<CommandKind>)| help_line(c),
        ));
    }

    /// `/clear`: empties the log.
    pub fn cmd_clear(&mut self)
        ensures
            final(self)@ == (AppView { messages: Seq::empty(), ..old(self)@ }),
    {
        self.messages = Vec::new();
        assert(self@.messages =~= Seq::<MessageView>::empty());
    }

    /// Position of the first command with `alias`.
    fn get_command(&self, alias: &String) -> (r: Option<usize>)
        ensures
            r is Some ==> command_index(self@.commands, alias@, r->Some_0 as int),
            r is None ==> forall|j: int|
                0 <= j < self@.commands.len() ==> !(#[trigger] self@.commands[j].0.contains(
                    alias@,
                )),
    {
        let mut i: usize = 0;
        while i < self.commands.len()
            invariant
                i <= self.commands@.len(),
                forall|j: int| 0 <= j < i ==> !(#[trigger] self@.commands[j].0.contains(alias@)),
            decreases self.commands@.len() - i,
        {
            assert(self@.commands[i as int] == self.commands@[i as int]@);
            if self.commands[i].has_alias(alias) {
                return Some(i);
            }
            i = i + 1;
        }
        None
    }

    /// A command line without its prefix: the first word names the command,
    /// the rest are its arguments.
    pub fn process_command(&mut self, input: &str) -> (r: Vec<Effect>)
        ensures
            command_line_result(old(self)@, input@, final(self)@, r@),
    {
        let split = split_words(input);
        proof {
            assert(views(split@) == whitespace_words(input@));
        }
        if split.len() == 0 {
            return Vec::new();
        }
        let alias = split[0].clone();
        let mut args: Vec<String> = Vec::new();
        let mut k: usize = 1;
        while k < split.len()
            invariant
                1 <= k <= split@.len(),
                args@ == split@.subrange(1, k as int),
            decreases split@.len() - k,
        {
            args.push(split[k].clone());
            assert(args@ =~= split@.subrange(1, k + 1));
            k = k + 1;
        }
        proof {
            assert(views(args@) =~= whitespace_words(input@).drop_first());
            assert(alias@ == whitespace_words(input@)[0]);
        }
        match self.get_command(&alias) {
            Some(i) => {
                if self.commands[i].handler.is_none() {
                    return Vec::new();
                }
                let cmd = ChatCommand {
                    aliases: copy_strings(&self.commands[i].aliases),
                    description: self.commands[i].description.clone(),
                    handler: self.commands[i].handler,
                };
                proof {
                    assert(old(self)@.commands[i as int] == self.commands@[i as int]@);
                    let w = whitespace_words(input@);
                    let c = choose|c: int| command_index(old(self)@.commands, w[0], c);
                    lemma_command_index_unique(old(self)@.commands, w[0], i as int, c);
                }
                cmd.execute(self, CommandContext { args })
            },
            None => {
                let msg = text("Unknown command '").concat(alias.as_str()).concat("'");
                self.add_message(GuiMessage::Error(msg));
                Vec::new()
            },
        }
    }

    /// Submits the line being typed: a command line runs the command; a line
    /// shaped like a token is held back with a warning; any other non-blank
    /// line is sent to the chat channel.
    pub fn submit_message(&mut self) -> (r: Vec<Effect>)
        ensures
            trimmed_of(old(self)@.text_to_send).len() == 0 ==> final(self)@ == old(self)@
                && r@.len() == 0,
            trimmed_of(old(self)@.text_to_send).len() > 0 && old(self)@.text_to_send[0] != '/'
                && guard::secret_like(old(self)@.text_to_send) ==> final(self)@ == logged(
                old(self)@,
                MessageView::Error(
                    "Your message was not sent, because it possibly contained Discord token."@,
                ),
            ) && r@.len() == 0,
            trimmed_of(old(self)@.text_to_send).len() > 0 && old(self)@.text_to_send[0] != '/'
                && !guard::secret_like(old(self)@.text_to_send) ==> final(self)@ == (AppView {
                text_to_send: Seq::empty(),
                ..old(self)@
            }) && r@.len() == 1 && match r@[0] {
                Effect::Transmit(DiscordCommEvent::MessageSend(ch, t)) => ch == CHAT_CHANNEL_ID
                    && t@ == old(self)@.text_to_send,
                _ => false,
            },
            trimmed_of(old(self)@.text_to_send).len() > 0 && old(self)@.text_to_send[0] == '/'
                ==> command_line_result(
                AppView { text_to_send: Seq::empty(), ..old(self)@ },
                old(self)@.text_to_send.drop_first(),
                final(self)@,
                r@,
            ),
    {
        let line = self.text_to_send.clone();
        if trim_text(line.as_str()).unicode_len() == 0 {
            return Vec::new();
        }
        let n = line.as_str().unicode_len();
        assert(n > 0) by {
            if n == 0 {
                assert(line@ =~= Seq::<char>::empty());
            }
        }
        if line.as_str().get_char(0) == '/' {
            let rest = line.as_str().substring_char(1, n);
            assert(rest@ =~= line@.drop_first());
            self.clear_message();
            let r = self.process_command(rest);
            return r;
        }
        if guard::contains_secret_like(line.as_str()) {
            self.add_message(
                GuiMessage::Error(
                    text("Your message was not sent, because it possibly contained Discord token."),
                ),
            );
            return Vec::new();
        }
        let mut v: Vec<Effect> = Vec::new();
        v.push(Effect::Transmit(DiscordCommEvent::MessageSend(CHAT_CHANNEL_ID, line)));
        self.clear_message();
        v
    }

    /// Logs in with the saved token, if there is one. A missing token file is
    /// not an error; a token that cannot be read is reported.
    pub fn auto_login(&mut self, key: &[u8; 32], stored: StoredToken) -> (r: Vec<Effect>)
        ensures
            stored is Missing ==> final(self)@ == old(self)@ && r@.len() == 0,
            !(stored is Missing) ==> final(self)@.messages.len() == old(self)@.messages.len() + 1,
            !(stored is Missing) && r@.len() == 0 ==> (match final(self)@.messages.last() {
                MessageView::Error(m) => "Unable to get token for automatic login: "@.is_prefix_of(m),
                _ => false,
            }),
            !(stored is Missing) && r@.len() != 0 ==> final(self)@ == logged(
                old(self)@,
                MessageView::Generic("Logging in..."@),
            ) && r@.len() == 1 && r@[0] is Transmit && r@[0]->Transmit_0 is Login,
            stored is Unreadable ==> r@.len() == 0,
            forall|t: Seq<char>|
                stored is Bytes && #[trigger] aes256::seals(key@, encode_utf8(t), stored->Bytes_0@)
                    ==> r@.len() == 1 && match r@[0] {
                    Effect::Transmit(DiscordCommEvent::Login(tok)) => tok@ == t,
                    _ => false,
                },
    {
        if let StoredToken::Missing = stored {
            return Vec::new();
        }
        match config::get_token(key, stored) {
            Ok(token) => self.login(token),
            Err(e) => {
                let msg = text("Unable to get token for automatic login: ").concat(
                    e.message().as_str(),
                ).concat(". \nPlease re-enter your token in /login");
                assert("Unable to get token for automatic login: "@.is_prefix_of(msg@)) by {
                    assert(msg@.subrange(0, "Unable to get token for automatic login: "@.len() as int)
                        =~= "Unable to get token for automatic login: "@);
                }
                self.add_message(GuiMessage::Error(msg));
                Vec::new()
            },
        }
    }

    /// Shows what the session manager reports. After a successful login the
    /// token typed in `/login` is to be saved.
    pub fn on_discord_event(&mut self, event: DiscordCommEvent) -> (r: Vec<Effect>)
        ensures
            event is Ready ==> final(self)@ == logged(
                old(self)@,
                MessageView::Generic("Logged in successfully"@),
            ),
            event is Ready && old(self)@.token_to_save is None ==> r@.len() == 0,
            event is Ready && old(self)@.token_to_save is Some ==> r@.len() == 1 && match r@[0] {
                Effect::SaveToken(t) => Some(t@) == old(self)@.token_to_save,
                _ => false,
            },
            event is Error ==> final(self)@ == logged(
                old(self)@,
                MessageView::Error(event->Error_0@),
            ) && r@.len() == 0,
            event is MessageReceived ==> final(self)@ == logged(
                old(self)@,
                MessageView::User(
                    trimmed_of(replaced_of(event->MessageReceived_0.author@, "[dove]"@, ""@)),
                    event->MessageReceived_0.content@,
                ),
            ) && r@.len() == 0,
            !(event is Ready || event is Error || event is MessageReceived) ==> final(self)@ == old(
                self,
            )@ && r@.len() == 0,
    {
        match event {
            DiscordCommEvent::Ready => {
                self.add_message(GuiMessage::Generic(text("Logged in successfully")));
                let mut v: Vec<Effect> = Vec::new();
                match &self.token_to_save {
                    Some(t) => {
                        v.push(Effect::SaveToken(t.clone()));
                    },
                    None => {},
                }
                v
            },
            DiscordCommEvent::Error(t) => {
                self.add_message(GuiMessage::Error(t));
                Vec::new()
            },
            DiscordCommEvent::MessageReceived(msg) => {
                let stripped = replace_text(msg.author.as_str(), "[dove]", "");
                let name = String::from_str(trim_text(stripped.as_str()));
                self.add_message(GuiMessage::User(name, msg.content));
                Vec::new()
            },
            _ => Vec::new(),
        }
    }

    /// The token has been stored, or could not be.
    pub fn on_token_saved(&mut self, result: Result<(), String>)
        ensures
            result is Ok ==> final(self)@ == logged(
                old(self)@,
                MessageView::Generic("Your token was encrypted and saved"@),
            ),
            result is Err ==> final(self)@ == logged(
                old(self)@,
                MessageView::Error("Unable to save your token: "@ + result->Err_0@),
            ),
    {
        match result {
            Ok(()) => self.add_message(GuiMessage::Generic(text("Your token was encrypted and saved"))),
            Err(e) => self.add_message(
                GuiMessage::Error(text("Unable to save your token: ").concat(e.as_str())),
            ),
        }
    }
}

/// The help line of `cmd`.
fn help_text(cmd: &ChatCommand) -> (r: String)
    ensures
        MessageView::Generic(r@) == help_line(cmd@),
{
    let mut out = text(" ");
    proof {
        reveal_strlit(" ");
        reveal_strlit(",");
        reveal_strlit(": ");
    }
    let mut i: usize = 0;
    let ghost ws = views(cmd.aliases@);
    while i < cmd.aliases.len()
        invariant
            i <= cmd.aliases@.len(),
            ws == views(cmd.aliases@),
            out@ == seq![' '] + joined(ws.subrange(0, i as int)),
        decreases cmd.aliases@.len() - i,
    {
        let ghost before = out@;
        proof {
            reveal_strlit(",");
        }
        if i > 0 {
            out.append(",");
        }
        out.append(cmd.aliases[i].as_str());
        proof {
            let pre = ws.subrange(0, i as int);
            let next = ws.subrange(0, i + 1);
            assert(next.drop_last() =~= pre);
            assert(next.last() == cmd.aliases@[i as int]@);
            if i == 0 {
                assert(next =~= seq![cmd.aliases@[0]@]);
                assert(joined(next) == cmd.aliases@[0]@);
                assert(out@ =~= seq![' '] + joined(next));
            } else {
                assert(joined(next) == joined(pre) + seq![','] + next.last());
                assert(out@ =~= seq![' '] + joined(next));
            }
        }
        i = i + 1;
    }
    assert(ws.subrange(0, i as int) =~= ws);
    out.append(": ");
    out.append(cmd.description.as_str());
    assert(out@ =~= seq![' '] + joined(ws) + seq![':', ' '] + cmd.description@);
    out
}

} // verus!
