//! The session manager's decisions.
//!
//! The manager owns the one backend session. Each outbound request, and each
//! answer of the backend, goes through a method here that updates the
//! session's state and says which [`Action`]s are to be performed, in order.
//! Every session is numbered by a generation, so that a handle, a task or a
//! completion of a torn-down session is never taken for the current one.
use crate::events::{ChannelSummary, DiscordCommEvent, GuildSummary};
use vstd::prelude::*;

verus! {

/// What the manager asks to be done.
pub enum Action {
    /// Hand an event to the interface.
    SendToGui(DiscordCommEvent),
    /// Abort the background task of a generation.
    AbortTask(u64),
    /// Ask the transport of a generation to shut all its shards down.
    ShutdownShards(u64),
    /// Build a client for the token, publish its network handle under the
    /// generation, and start its connection in a background task.
    StartClient(u64, String),
    /// Send text to a channel through the handle of a generation.
    SayInChannel(u64, u64, String),
    /// List the account's servers through the handle of a generation.
    ListGuilds(u64),
    /// List the channels of a server through the handle of a generation.
    ListGuildChannels(u64, u64),
}

/// How a background connection task ended.
pub enum ClientOutcome {
    /// The connection closed without an error.
    Stopped,
    /// The backend rejected the token.
    InvalidAuthentication,
    /// Any other failure, with its description.
    Failed(String),
}

/// What listing a server's channels found.
pub enum ChannelListing {
    /// The server could not be fetched; the reason.
    GuildUnavailable(String),
    /// Its channels could not be fetched; the reason.
    ChannelsUnavailable(String),
    /// All its channels.
    Channels(Vec<ChannelSummary>),
}

/// The state of the session, as plain values.
pub struct SessionView {
    /// Generation whose network handle is published, if any.
    pub http: Option<u64>,
    /// Generation whose background task is active, if any.
    pub client_thread: Option<u64>,
    /// Generation whose transport can be shut down, if any.
    pub shard_manager: Option<u64>,
    /// Generation that the next login gets.
    pub next_generation: u64,
}

pub struct DiscordManager {
    http: Option<u64>,
    client_thread: Option<u64>,
    shard_manager: Option<u64>,
    next_generation: u64,
}

impl View for DiscordManager {
    type V = SessionView;

    closed spec fn view(&self) -> SessionView {
        SessionView {
            http: self.http,
            client_thread: self.client_thread,
            shard_manager: self.shard_manager,
            next_generation: self.next_generation,
        }
    }
}

pub open spec fn following(g: u64) -> u64 {
    if g == u64::MAX {
        0
    } else {
        (g + 1) as u64
    }
}

/// The actions that tear the session down: abort its task, then shut its
/// transport down.
pub open spec fn teardown_actions(s: SessionView) -> Seq<Action> {
    (match s.client_thread {
        Some(g) => seq![Action::AbortTask(g)],
        None => Seq::empty(),
    }) + (match s.shard_manager {
        Some(g) => seq![Action::ShutdownShards(g)],
        None => Seq::empty(),
    })
}

/// The session with no handle, no task and no transport.
pub open spec fn torn_down(s: SessionView) -> SessionView {
    SessionView { http: None, client_thread: None, shard_manager: None, ..s }
}

/// The session right after a login: everything belongs to a new generation.
pub open spec fn started(s: SessionView) -> SessionView {
    SessionView {
        http: Some(s.next_generation),
        client_thread: Some(s.next_generation),
        shard_manager: Some(s.next_generation),
        next_generation: following(s.next_generation),
    }
}

/// The state after the manager has processed `e` in state `s`.
pub open spec fn next_state(s: SessionView, e: DiscordCommEvent) -> SessionView {
    match e {
        DiscordCommEvent::Logout => torn_down(s),
        DiscordCommEvent::Login(_) => started(s),
        _ => s,
    }
}

/// `a` hands the interface an error with the text `msg`.
pub open spec fn is_error_to_gui(a: Action, msg: Seq<char>) -> bool {
    match a {
        Action::SendToGui(DiscordCommEvent::Error(m)) => m@ == msg,
        _ => false,
    }
}

/// `acts` is the single error event `msg` for the interface.
pub open spec fn only_error(acts: Seq<Action>, msg: Seq<char>) -> bool {
    acts.len() == 1 && is_error_to_gui(acts[0], msg)
}

/// A request that needs a live handle: `act` with the handle's generation, or
/// "Not logged in" where there is none.
pub open spec fn with_handle(s: SessionView, acts: Seq<Action>, act: spec_fn(u64) -> Action) -> bool {
    match s.http {
        Some(g) => acts == seq![act(g)],
        None => only_error(acts, "Not logged in"@),
    }
}

/// `acts` are the actions for processing `e` in state `s`.
pub open spec fn actions_for(s: SessionView, e: DiscordCommEvent, acts: Seq<Action>) -> bool {
    match e {
        DiscordCommEvent::Logout => acts == teardown_actions(s),
        DiscordCommEvent::Login(t) => acts == teardown_actions(s).push(
            Action::StartClient(s.next_generation, t),
        ),
        DiscordCommEvent::MessageSend(ch, text) => with_handle(
            s,
            acts,
            |g: u64| Action::SayInChannel(g, ch, text),
        ),
        DiscordCommEvent::GetGuilds => with_handle(s, acts, |g: u64| Action::ListGuilds(g)),
        DiscordCommEvent::GetAvailableTextChannels(id) => with_handle(
            s,
            acts,
            |g: u64| Action::ListGuildChannels(g, id),
        ),
        _ => acts.len() == 0,
    }
}

/// The channels of `cs` that carry text, in their order.
pub open spec fn text_only(cs: Seq<ChannelSummary>) -> Seq<ChannelSummary> {
    cs.filter(|c: ChannelSummary| c.is_text)
}

fn error_to_gui(msg: String) -> (r: Vec<Action>)
    ensures
        only_error(r@, msg@),
{
    let mut v: Vec<Action> = Vec::new();
    v.push(Action::SendToGui(DiscordCommEvent::Error(msg)));
    v
}

fn one_action(a: Action) -> (r: Vec<Action>)
    ensures
        r@ == seq![a],
{
    let mut v: Vec<Action> = Vec::new();
    v.push(a);
    assert(v@ =~= seq![a]);
    v
}

/// `prefix` followed by `detail`.
fn prefixed(prefix: &str, detail: &str) -> (r: String)
    ensures
        r@ == prefix@ + detail@,
{
    String::from_str(prefix).concat(detail)
}

fn copy_channel(c: &ChannelSummary) -> (r: ChannelSummary)
    ensures
        r == *c,
{
    ChannelSummary { id: c.id, name: c.name.clone(), is_text: c.is_text }
}

/// The channels of `channels` that carry text, in their order.
pub fn text_channels(channels: &Vec<ChannelSummary>) -> (r: Vec<ChannelSummary>)
    ensures
        r@ == text_only(channels@),
{
    let mut out: Vec<ChannelSummary> = Vec::new();
    let mut i: usize = 0;
    while i < channels.len()
        invariant
            i <= channels@.len(),
            out@ == text_only(channels@.subrange(0, i as int)),
        decreases channels@.len() - i,
    {
        proof {
            reveal(Seq::filter);
            assert(channels@.subrange(0, i + 1).drop_last() =~= channels@.subrange(0, i as int));
        }
        if channels[i].is_text {
            out.push(copy_channel(&channels[i]));
        }
        i = i + 1;
    }
    assert(channels@.subrange(0, i as int) =~= channels@);
    out
}

/// The session's parts belong together: at most one task is active, and a
/// published handle and a transport belong to that task's generation.
pub open spec fn consistent(s: SessionView) -> bool {
    &&& s.shard_manager == s.client_thread
    &&& (s.http is Some ==> s.http == s.client_thread)
}

/// Every request keeps the session's parts together, and so does the end of
/// the current task, which tears the session down (the end of any other task
/// changes nothing).
pub proof fn lemma_consistent_preserved(s: SessionView, e: DiscordCommEvent)
    requires
        consistent(s),
    ensures
        consistent(next_state(s, e)),
        consistent(torn_down(s)),
{
}

/// A login issued while an earlier one is still connecting replaces it: the
/// earlier task is aborted and its transport shut down, and afterwards exactly
/// one task is active, and the published handle is the second session's.
pub proof fn lemma_login_replaces(
    s: SessionView,
    first: String,
    second: String,
    acts_first: Seq<Action>,
    acts_second: Seq<Action>,
)
    requires
        actions_for(s, DiscordCommEvent::Login(first), acts_first),
        actions_for(next_state(s, DiscordCommEvent::Login(first)), DiscordCommEvent::Login(second), acts_second),
    ensures
        ({
            let g1 = s.next_generation;
            let g2 = following(g1);
            let after = next_state(next_state(s, DiscordCommEvent::Login(first)), DiscordCommEvent::Login(second));
            &&& g1 != g2
            &&& after.client_thread == Some(g2)
            &&& after.shard_manager == Some(g2)
            &&& after.http == Some(g2)
            &&& acts_first.last() == Action::StartClient(g1, first)
            &&& acts_second == seq![Action::AbortTask(g1), Action::ShutdownShards(g1), Action::StartClient(g2, second)]
        }),
{
    let mid = next_state(s, DiscordCommEvent::Login(first));
    assert(teardown_actions(mid) =~= seq![Action::AbortTask(s.next_generation), Action::ShutdownShards(s.next_generation)]);
    assert(acts_second =~= seq![Action::AbortTask(s.next_generation), Action::ShutdownShards(s.next_generation), Action::StartClient(following(s.next_generation), second)]);
}

/// A message sent with no live handle gives exactly one error event, "Not
/// logged in", makes no network call and leaves the session as it was.
pub proof fn lemma_send_while_disconnected(s: SessionView, channel: u64, text: String, acts: Seq<Action>)
    requires
        s.http is None,
        actions_for(s, DiscordCommEvent::MessageSend(channel, text), acts),
    ensures
        acts.len() == 1,
        is_error_to_gui(acts[0], "Not logged in"@),
        forall|i: int| 0 <= i < acts.len() ==> !(#[trigger] acts[i] is SayInChannel),
        next_state(s, DiscordCommEvent::MessageSend(channel, text)) == s,
{
}

impl DiscordManager {
    pub fn new() -> (r: Self)
        ensures
            r@ == (SessionView {
                http: None,
                client_thread: None,
                shard_manager: None,
                next_generation: 0,
            }),
    {
        DiscordManager { http: None, client_thread: None, shard_manager: None, next_generation: 0 }
    }

    pub fn is_logged_in(&self) -> (r: bool)
        ensures
            r == self@.http is Some,
    {
        self.http.is_some()
    }

    /// Withdraws the network handle first, then aborts the task and shuts the
    /// transport down.
    fn abort(&mut self) -> (r: Vec<Action>)
        ensures
            final(self)@ == torn_down(old(self)@),
            r@ == teardown_actions(old(self)@),
    {
        self.http = None;
        let mut acts: Vec<Action> = Vec::new();
        if let Some(g) = self.client_thread {
            acts.push(Action::AbortTask(g));
        }
        if let Some(g) = self.shard_manager {
            acts.push(Action::ShutdownShards(g));
        }
        self.client_thread = None;
        self.shard_manager = None;
        assert(acts@ =~= teardown_actions(old(self)@));
        acts
    }

    /// Tears any session down, then starts one for `token` under a new generation.
    fn start_client(&mut self, token: String) -> (r: Vec<Action>)
        ensures
            final(self)@ == started(old(self)@),
            r@ == teardown_actions(old(self)@).push(
                Action::StartClient(old(self)@.next_generation, token),
            ),
    {
        let mut acts = self.abort();
        let g = self.next_generation;
        acts.push(Action::StartClient(g, token));
        self.http = Some(g);
        self.client_thread = Some(g);
        self.shard_manager = Some(g);
        self.next_generation = if g == u64::MAX {
            0
        } else {
            g + 1
        };
        acts
    }

    /// The generation whose network handle is published, if any.
    fn check_get_http(&self) -> (r: Option<u64>)
        ensures
            r == self@.http,
    {
        self.http
    }

    /// Processes one outbound request.
    pub fn process_event(&mut self, event: DiscordCommEvent) -> (r: Vec<Action>)
        ensures
            final(self)@ == next_state(old(self)@, event),
            actions_for(old(self)@, event, r@),
    {
        match event {
            DiscordCommEvent::Logout => self.abort(),
            DiscordCommEvent::Login(token) => self.start_client(token),
            DiscordCommEvent::MessageSend(id, content) => match self.check_get_http() {
                Some(g) => one_action(Action::SayInChannel(g, id, content)),
                None => self.not_logged_in(),
            },
            DiscordCommEvent::GetGuilds => match self.check_get_http() {
                Some(g) => one_action(Action::ListGuilds(g)),
                None => self.not_logged_in(),
            },
            DiscordCommEvent::GetAvailableTextChannels(guild_id) => match self.check_get_http() {
                Some(g) => one_action(Action::ListGuildChannels(g, guild_id)),
                None => self.not_logged_in(),
            },
            _ => Vec::new(),
        }
    }

    fn not_logged_in(&self) -> (r: Vec<Action>)
        ensures
            only_error(r@, "Not logged in"@),
    {
        error_to_gui(String::from_str("Not logged in"))
    }

    /// The background task of `generation` has ended. Where it is the current
    /// session, the session is cleared and a failure is reported; a task of a
    /// torn-down session changes nothing and reports nothing.
    pub fn on_client_finished(&mut self, generation: u64, outcome: ClientOutcome) -> (r: Vec<
        Action,
    >)
        ensures
            old(self)@.client_thread == Some(generation) ==> {
                &&& final(self)@ == torn_down(old(self)@)
                &&& outcome is Stopped ==> r@.len() == 0
                &&& outcome is InvalidAuthentication ==> only_error(r@, "Invalid token"@)
                &&& outcome is Failed ==> only_error(r@, outcome->Failed_0@)
            },
            old(self)@.client_thread != Some(generation) ==> final(self)@ == old(self)@ && r@.len()
                == 0,
    {
        if self.client_thread != Some(generation) {
            return Vec::new();
        }
        self.http = None;
        self.client_thread = None;
        self.shard_manager = None;
        match outcome {
            ClientOutcome::Stopped => Vec::new(),
            ClientOutcome::InvalidAuthentication => error_to_gui(String::from_str("Invalid token")),
            ClientOutcome::Failed(description) => error_to_gui(description),
        }
    }

    /// The answer to a `SayInChannel`.
    pub fn on_message_sent(&self, result: Result<(), String>) -> (r: Vec<Action>)
        ensures
            result is Ok ==> r@.len() == 0,
            result is Err ==> only_error(r@, "Unable to send message: "@ + result->Err_0@),
    {
        match result {
            Ok(()) => Vec::new(),
            Err(e) => error_to_gui(prefixed("Unable to send message: ", e.as_str())),
        }
    }

    /// The answer to a `ListGuilds`.
    pub fn on_guilds_listed(&self, result: Result<Vec<GuildSummary>, String>) -> (r: Vec<Action>)
        ensures
            result is Ok ==> r@ == seq![
                Action::SendToGui(DiscordCommEvent::GuildsListed(result->Ok_0)),
            ],
            result is Err ==> only_error(r@, "Unable to get servers: "@ + result->Err_0@),
    {
        match result {
            Ok(guilds) => one_action(Action::SendToGui(DiscordCommEvent::GuildsListed(guilds))),
            Err(e) => error_to_gui(prefixed("Unable to get servers: ", e.as_str())),
        }
    }

    /// The answer to a `ListGuildChannels`: the text channels only.
    pub fn on_channels_listed(&self, listing: ChannelListing) -> (r: Vec<Action>)
        ensures
            listing is GuildUnavailable ==> only_error(
                r@,
                "Unable to get server: "@ + listing->GuildUnavailable_0@,
            ),
            listing is ChannelsUnavailable ==> only_error(
                r@,
                "Unable to get channels: "@ + listing->ChannelsUnavailable_0@,
            ),
            listing is Channels ==> r@.len() == 1 && match r@[0] {
                Action::SendToGui(DiscordCommEvent::AvailableTextChannelsListed(cs)) => cs@
                    == text_only(listing->Channels_0@),
                _ => false,
            },
    {
        match listing {
            ChannelListing::GuildUnavailable(e) => error_to_gui(
                prefixed("Unable to get server: ", e.as_str()),
            ),
            ChannelListing::ChannelsUnavailable(e) => error_to_gui(
                prefixed("Unable to get channels: ", e.as_str()),
            ),
            ChannelListing::Channels(cs) => {
                let text = text_channels(&cs);
                one_action(Action::SendToGui(DiscordCommEvent::AvailableTextChannelsListed(text)))
            },
        }
    }
}

} // verus!
