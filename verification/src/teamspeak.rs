//! The TeamSpeak side of the bot: the commands it receives from the chat side,
//! and what it does on the server for each of them. The query connection
//! itself is driven by the application; this module decides which queries to
//! send, given the list of online clients the server reported.
use vstd::prelude::*;
use std::sync::mpsc::Sender;

verus! {

#[verifier::external_type_specification]
#[verifier::external_body]
#[verifier::reject_recursive_types(T)]
pub struct ExSender<T>(std::sync::mpsc::Sender<T>);

/// The nickname the query client goes by between commands.
pub const BOT_NAME: &'static str = "BrioschenBot";

/// How many seconds without traffic before the connection is kept alive with a ping
/// (the server drops query clients that stay silent for five minutes).
pub const KEEPALIVE_SECS: u64 = 240;

/// A request from the chat side to the TeamSpeak handler.
pub enum TSCommand {
    /// Send `message` to the whole server under the nickname `username`.
    ServerMessageSend(String, String),
    /// Poke every client with `message`, under the nickname `username`.
    ServerPokeAll(String, String),
    /// Answer on the channel with the list of online users.
    ServerUsersOnline(Sender<String>),
    /// Kick the clients named `target` from the server: `(target, username, message)`.
    UserKick(String, String, String),
    /// Kick the clients named `target` from their channel: `(target, username, message)`.
    UserChannelKick(String, String, String),
    /// Poke the clients named `target`: `(target, username, message)`.
    UserPoke(String, String, String),
    /// Kick the surprise target from the server, answering on the channel.
    Surprise(Sender<String>),
}

/// The part of a client listed by the server that the handler reads.
pub struct OnlineClient {
    pub clid: u16,
    pub client_nickname: String,
    /// 0 for a normal client, 1 for a query client.
    pub client_type: i8,
}

/// One step the handler performs against the server or the chat side.
#[derive(Debug)]
pub enum TsAction {
    /// Change the query client's nickname.
    Rename(String),
    /// Send a text message to the whole server.
    SendServerMessage(String),
    /// Poke a client with a message.
    Poke { clid: u16, message: String },
    /// Kick a client, from the server or only from its channel, with a reason.
    Kick { clid: u16, from_server: bool, reason: String },
    /// Send a text back on the command's answer channel.
    Answer(String),
}

/// [`TsAction`] with its strings as character sequences.
pub enum TsActionView {
    Rename(Seq<char>),
    SendServerMessage(Seq<char>),
    Poke { clid: u16, message: Seq<char> },
    Kick { clid: u16, from_server: bool, reason: Seq<char> },
    Answer(Seq<char>),
}

impl View for TsAction {
    type V = TsActionView;

    open spec fn view(&self) -> TsActionView {
        match self {
            TsAction::Rename(n) => TsActionView::Rename(n@),
            TsAction::SendServerMessage(m) => TsActionView::SendServerMessage(m@),
            TsAction::Poke { clid, message } => TsActionView::Poke { clid: *clid, message: message@ },
            TsAction::Kick { clid, from_server, reason } => TsActionView::Kick {
                clid: *clid,
                from_server: *from_server,
                reason: reason@,
            },
            TsAction::Answer(t) => TsActionView::Answer(t@),
        }
    }
}

/// The views of a sequence of actions.
pub open spec fn actions_view(actions: Seq<TsAction>) -> Seq<TsActionView> {
    actions.map_values(|a: TsAction| a@)
}

/// Whether the handler, idle for `elapsed_secs` seconds, pings the server.
pub open spec fn keepalive_due(elapsed_secs: u64) -> bool {
    elapsed_secs > KEEPALIVE_SECS
}

/// Pokes with `message` for the clients of `clients` whose nickname is `name`,
/// or for all of them when `name` is `None`, in list order.
pub open spec fn pokes(clients: Seq<OnlineClient>, name: Option<Seq<char>>, message: Seq<char>) -> Seq<TsActionView>
    decreases clients.len(),
{
    if clients.len() == 0 {
        seq![]
    } else {
        let c = clients.last();
        let rest = pokes(clients.drop_last(), name, message);
        if name is None || name == Some(c.client_nickname@) {
            rest.push(TsActionView::Poke { clid: c.clid, message })
        } else {
            rest
        }
    }
}

/// Kicks with `reason` for the clients of `clients` whose nickname is `name`, in list order.
pub open spec fn kicks(clients: Seq<OnlineClient>, name: Seq<char>, from_server: bool, reason: Seq<char>) -> Seq<TsActionView>
    decreases clients.len(),
{
    if clients.len() == 0 {
        seq![]
    } else {
        let c = clients.last();
        let rest = kicks(clients.drop_last(), name, from_server, reason);
        if c.client_nickname@ == name {
            rest.push(TsActionView::Kick { clid: c.clid, from_server, reason })
        } else {
            rest
        }
    }
}

/// For each client named `name`: a kick from the server with reason
/// "Surprise!", then the answer "Surprisingly silent!".
pub open spec fn surprises(clients: Seq<OnlineClient>, name: Seq<char>) -> Seq<TsActionView>
    decreases clients.len(),
{
    if clients.len() == 0 {
        seq![]
    } else {
        let c = clients.last();
        let rest = surprises(clients.drop_last(), name);
        if c.client_nickname@ == name {
            rest.push(TsActionView::Kick { clid: c.clid, from_server: true, reason: "Surprise!"@ }).push(
                TsActionView::Answer("Surprisingly silent!"@),
            )
        } else {
            rest
        }
    }
}

/// The nicknames of the normal (non-query) clients, each followed by a line break.
pub open spec fn listing(clients: Seq<OnlineClient>) -> Seq<char>
    decreases clients.len(),
{
    if clients.len() == 0 {
        seq![]
    } else {
        let c = clients.last();
        let rest = listing(clients.drop_last());
        if c.client_type != 1 {
            rest + c.client_nickname@ + "\n"@
        } else {
            rest
        }
    }
}

/// The answer to `/whothere`.
pub open spec fn users_online_text(clients: Seq<OnlineClient>) -> Seq<char> {
    "Currently online:\n\n"@ + listing(clients)
}

/// Whether the handler needs the list of online clients for `cmd`.
pub open spec fn needs_client_list(cmd: TSCommand) -> bool {
    !(cmd is ServerMessageSend)
}

/// What the handler does for `cmd` before it asks for the client list.
pub open spec fn opening_plan(cmd: TSCommand) -> Seq<TsActionView> {
    match cmd {
        TSCommand::ServerMessageSend(username, message) => seq![
            TsActionView::Rename(username@),
            TsActionView::SendServerMessage(message@),
            TsActionView::Rename(BOT_NAME@),
        ],
        TSCommand::ServerPokeAll(username, _) => seq![TsActionView::Rename(username@)],
        TSCommand::UserKick(_, username, _) => seq![TsActionView::Rename(username@)],
        TSCommand::UserChannelKick(_, username, _) => seq![TsActionView::Rename(username@)],
        TSCommand::UserPoke(_, username, _) => seq![TsActionView::Rename(username@)],
        TSCommand::ServerUsersOnline(_) => seq![],
        TSCommand::Surprise(_) => seq![],
    }
}

/// What the handler does for `cmd` once the server answered the client list
/// request with `clients` (`None`: the request failed). `surprise_name` is the
/// TeamSpeak nickname stored for the surprise target.
pub open spec fn client_plan(cmd: TSCommand, clients: Option<Seq<OnlineClient>>, surprise_name: Seq<char>) -> Seq<TsActionView> {
    let cs = match clients {
        Some(cs) => cs,
        None => seq![],
    };
    match cmd {
        TSCommand::ServerMessageSend(_, _) => seq![],
        TSCommand::ServerPokeAll(_, message) => pokes(cs, None, message@).push(TsActionView::Rename(BOT_NAME@)),
        TSCommand::UserPoke(target, _, message) => pokes(cs, Some(target@), message@).push(
            TsActionView::Rename(BOT_NAME@),
        ),
        TSCommand::UserKick(target, _, message) => kicks(cs, target@, true, message@).push(
            TsActionView::Rename(BOT_NAME@),
        ),
        TSCommand::UserChannelKick(target, _, message) => kicks(cs, target@, false, message@).push(
            TsActionView::Rename(BOT_NAME@),
        ),
        TSCommand::ServerUsersOnline(_) => seq![TsActionView::Answer(users_online_text(cs))],
        TSCommand::Surprise(_) => surprises(cs, surprise_name),
    }
}

/// The client list as the handler saw it, when it saw one.
pub open spec fn listed(clients: Option<Vec<OnlineClient>>) -> Option<Seq<OnlineClient>> {
    match clients {
        Some(cs) => Some(cs@),
        None => None,
    }
}

proof fn lemma_push_view(v: Seq<TsAction>, a: TsAction)
    ensures
        actions_view(v.push(a)) == actions_view(v).push(a@),
{
    assert(actions_view(v.push(a)) =~= actions_view(v).push(a@));
}

/// Whether the handler, idle for `elapsed_secs` seconds, pings the server.
pub fn keepalive_due_after(elapsed_secs: u64) -> (b: bool)
    ensures
        b == keepalive_due(elapsed_secs),
{
    elapsed_secs > KEEPALIVE_SECS
}

fn push_action(out: &mut Vec<TsAction>, a: TsAction)
    ensures
        actions_view(final(out)@) == actions_view(old(out)@).push(a@),
{
    proof {
        lemma_push_view(old(out)@, a);
    }
    out.push(a);
}

fn bot_name() -> (s: String)
    ensures
        s@ == BOT_NAME@,
{
    BOT_NAME.to_owned()
}

/// Appends the pokes of [`pokes`] to `out`.
fn push_pokes(out: &mut Vec<TsAction>, clients: &Vec<OnlineClient>, name: Option<&String>, message: &String)
    ensures
        actions_view(final(out)@) == actions_view(old(out)@) + pokes(
            clients@,
            match name {
                Some(n) => Some(n@),
                None => None,
            },
            message@,
        ),
{
    let ghost start = actions_view(out@);
    let ghost wanted = match name {
        Some(n) => Some(n@),
        None => None::<Seq<char>>,
    };
    let mut i: usize = 0;
    assert(clients@.take(0) =~= Seq::<OnlineClient>::empty());
    while i < clients.len()
        invariant
            i <= clients.len(),
            wanted == match name {
                Some(n) => Some(n@),
                None => None::<Seq<char>>,
            },
            actions_view(out@) == start + pokes(clients@.take(i as int), wanted, message@),
        decreases clients.len() - i,
    {
        let c = &clients[i];
        assert(clients@.take(i + 1).drop_last() =~= clients@.take(i as int));
        assert(clients@.take(i + 1).last() == clients@[i as int]);
        let hit = match name {
            None => true,
            Some(n) => c.client_nickname == *n,
        };
        if hit {
            push_action(out, TsAction::Poke { clid: c.clid, message: message.clone() });
        }
        i = i + 1;
    }
    assert(clients@.take(i as int) =~= clients@);
}

/// Appends the kicks of [`kicks`] to `out`.
fn push_kicks(out: &mut Vec<TsAction>, clients: &Vec<OnlineClient>, name: &String, from_server: bool, reason: &String)
    ensures
        actions_view(final(out)@) == actions_view(old(out)@) + kicks(clients@, name@, from_server, reason@),
{
    let ghost start = actions_view(out@);
    let mut i: usize = 0;
    assert(clients@.take(0) =~= Seq::<OnlineClient>::empty());
    while i < clients.len()
        invariant
            i <= clients.len(),
            actions_view(out@) == start + kicks(clients@.take(i as int), name@, from_server, reason@),
        decreases clients.len() - i,
    {
        let c = &clients[i];
        assert(clients@.take(i + 1).drop_last() =~= clients@.take(i as int));
        assert(clients@.take(i + 1).last() == clients@[i as int]);
        if c.client_nickname == *name {
            push_action(out, TsAction::Kick { clid: c.clid, from_server, reason: reason.clone() });
        }
        i = i + 1;
    }
    assert(clients@.take(i as int) =~= clients@);
}

/// Appends the actions of [`surprises`] to `out`.
fn push_surprises(out: &mut Vec<TsAction>, clients: &Vec<OnlineClient>, name: &str)
    ensures
        actions_view(final(out)@) == actions_view(old(out)@) + surprises(clients@, name@),
{
    let ghost start = actions_view(out@);
    let target = name.to_owned();
    let mut i: usize = 0;
    assert(clients@.take(0) =~= Seq::<OnlineClient>::empty());
    while i < clients.len()
        invariant
            i <= clients.len(),
            target@ == name@,
            actions_view(out@) == start + surprises(clients@.take(i as int), name@),
        decreases clients.len() - i,
    {
        let c = &clients[i];
        assert(clients@.take(i + 1).drop_last() =~= clients@.take(i as int));
        assert(clients@.take(i + 1).last() == clients@[i as int]);
        if c.client_nickname == target {
            proof {
                reveal_strlit("Surprise!");
                reveal_strlit("Surprisingly silent!");
            }
            push_action(out, TsAction::Kick { clid: c.clid, from_server: true, reason: "Surprise!".to_owned() });
            push_action(out, TsAction::Answer("Surprisingly silent!".to_owned()));
        }
        i = i + 1;
    }
    assert(clients@.take(i as int) =~= clients@);
}

/// The answer to `/whothere` for the listed `clients`.
pub fn users_online_answer(clients: &Vec<OnlineClient>) -> (s: String)
    ensures
        s@ == users_online_text(clients@),
{
    let mut s = "Currently online:\n\n".to_owned();
    let mut i: usize = 0;
    assert(clients@.take(0) =~= Seq::<OnlineClient>::empty());
    while i < clients.len()
        invariant
            i <= clients.len(),
            s@ == "Currently online:\n\n"@ + listing(clients@.take(i as int)),
        decreases clients.len() - i,
    {
        let c = &clients[i];
        assert(clients@.take(i + 1).drop_last() =~= clients@.take(i as int));
        assert(clients@.take(i + 1).last() == clients@[i as int]);
        let ghost before = s@;
        if c.client_type != 1 {
            s.append(c.client_nickname.as_str());
            s.append("\n");
        }
        assert(s@ =~= "Currently online:\n\n"@ + listing(clients@.take(i + 1)));
        i = i + 1;
    }
    assert(clients@.take(i as int) =~= clients@);
    s
}

impl TSCommand {
    /// Whether the handler needs the list of online clients for this command.
    pub fn needs_client_list(&self) -> (b: bool)
        ensures
            b == needs_client_list(*self),
    {
        match self {
            TSCommand::ServerMessageSend(_, _) => false,
            _ => true,
        }
    }

    /// What the handler does for this command before it asks for the client list.
    pub fn opening_actions(&self) -> (out: Vec<TsAction>)
        ensures
            actions_view(out@) == opening_plan(*self),
    {
        let mut out: Vec<TsAction> = Vec::new();
        assert(actions_view(out@) =~= Seq::<TsActionView>::empty());
        match self {
            TSCommand::ServerMessageSend(username, message) => {
                push_action(&mut out, TsAction::Rename(username.clone()));
                push_action(&mut out, TsAction::SendServerMessage(message.clone()));
                push_action(&mut out, TsAction::Rename(bot_name()));
            },
            TSCommand::ServerPokeAll(username, _) => {
                push_action(&mut out, TsAction::Rename(username.clone()));
            },
            TSCommand::UserKick(_, username, _) => {
                push_action(&mut out, TsAction::Rename(username.clone()));
            },
            TSCommand::UserChannelKick(_, username, _) => {
                push_action(&mut out, TsAction::Rename(username.clone()));
            },
            TSCommand::UserPoke(_, username, _) => {
                push_action(&mut out, TsAction::Rename(username.clone()));
            },
            TSCommand::ServerUsersOnline(_) => {},
            TSCommand::Surprise(_) => {},
        }
        assert(actions_view(out@) =~= opening_plan(*self));
        out
    }

    /// What the handler does for this command once the server answered the
    /// client list request with `clients` (`None`: the request failed), given
    /// the TeamSpeak nickname `surprise_name` stored for the surprise target.
    /// Only `/surprise` carries on when the request failed; the handler gives
    /// up on the others.
    pub fn client_actions(&self, clients: &Option<Vec<OnlineClient>>, surprise_name: &str) -> (out: Vec<TsAction>)
        requires
            clients is None ==> (*self is Surprise || *self is ServerMessageSend),
        ensures
            actions_view(out@) == client_plan(*self, listed(*clients), surprise_name@),
    {
        let mut out: Vec<TsAction> = Vec::new();
        let ghost empty = actions_view(out@);
        assert(empty =~= Seq::<TsActionView>::empty());
        match self {
            TSCommand::ServerMessageSend(_, _) => {},
            TSCommand::ServerPokeAll(_, message) => {
                let cs = clients.as_ref().unwrap();
                push_pokes(&mut out, cs, None, message);
                push_action(&mut out, TsAction::Rename(bot_name()));
            },
            TSCommand::UserPoke(target, _, message) => {
                let cs = clients.as_ref().unwrap();
                push_pokes(&mut out, cs, Some(target), message);
                push_action(&mut out, TsAction::Rename(bot_name()));
            },
            TSCommand::UserKick(target, _, message) => {
                let cs = clients.as_ref().unwrap();
                push_kicks(&mut out, cs, target, true, message);
                push_action(&mut out, TsAction::Rename(bot_name()));
            },
            TSCommand::UserChannelKick(target, _, message) => {
                let cs = clients.as_ref().unwrap();
                push_kicks(&mut out, cs, target, false, message);
                push_action(&mut out, TsAction::Rename(bot_name()));
            },
            TSCommand::ServerUsersOnline(_) => {
                let cs = clients.as_ref().unwrap();
                push_action(&mut out, TsAction::Answer(users_online_answer(cs)));
            },
            TSCommand::Surprise(_) => {
                match clients {
                    Some(cs) => push_surprises(&mut out, cs, surprise_name),
                    None => {},
                }
            },
        }
        assert(actions_view(out@) =~= client_plan(*self, listed(*clients), surprise_name@));
        out
    }
}

proof fn lemma_surprises_no_rename(clients: Seq<OnlineClient>, name: Seq<char>)
    ensures
        forall|k: int| 0 <= k < surprises(clients, name).len() ==> !(#[trigger] surprises(clients, name)[k] is Rename),
    decreases clients.len(),
{
    if clients.len() > 0 {
        lemma_surprises_no_rename(clients.drop_last(), name);
    }
}

/// Law: whenever the handler changes its nickname while carrying out a
/// command, the last thing it does for that command is to take back the
/// nickname `BrioschenBot`.
pub proof fn lemma_nickname_restored(cmd: TSCommand, clients: Option<Seq<OnlineClient>>, surprise_name: Seq<char>)
    ensures
        ({
            let plan = opening_plan(cmd) + client_plan(cmd, clients, surprise_name);
            (exists|k: int| 0 <= k < plan.len() && #[trigger] plan[k] is Rename) ==> plan.last()
                == TsActionView::Rename(BOT_NAME@)
        }),
{
    let plan = opening_plan(cmd) + client_plan(cmd, clients, surprise_name);
    let cs = match clients {
        Some(cs) => cs,
        None => seq![],
    };
    match cmd {
        TSCommand::Surprise(_) => {
            lemma_surprises_no_rename(cs, surprise_name);
            assert(plan =~= surprises(cs, surprise_name));
        },
        TSCommand::ServerUsersOnline(_) => {
            assert(plan.len() == 1);
        },
        _ => {},
    }
}

/// Law: a kick for the clients named `name` only ever reaches clients of
/// that name, and each kick carries the requested kind and reason.
pub proof fn lemma_kicks_reach_named_clients_only(clients: Seq<OnlineClient>, name: Seq<char>, from_server: bool, reason: Seq<char>)
    ensures
        forall|k: int| 0 <= k < kicks(clients, name, from_server, reason).len() ==> {
            let a = #[trigger] kicks(clients, name, from_server, reason)[k];
            &&& a is Kick
            &&& a->Kick_from_server == from_server && a->Kick_reason == reason
            &&& exists|j: int| 0 <= j < clients.len() && clients[j].clid == a->Kick_clid && clients[j].client_nickname@ == name
        },
    decreases clients.len(),
{
    if clients.len() > 0 {
        let rest = clients.drop_last();
        lemma_kicks_reach_named_clients_only(rest, name, from_server, reason);
        let ks = kicks(clients, name, from_server, reason);
        assert forall|k: int| 0 <= k < ks.len() implies {
            let a = #[trigger] ks[k];
            &&& a is Kick
            &&& a->Kick_from_server == from_server && a->Kick_reason == reason
            &&& exists|j: int| 0 <= j < clients.len() && clients[j].clid == a->Kick_clid && clients[j].client_nickname@ == name
        } by {
            let rk = kicks(rest, name, from_server, reason);
            if k < rk.len() {
                assert(ks[k] == rk[k]);
                let j = choose|j: int| 0 <= j < rest.len() && rest[j].clid == rk[k]->Kick_clid && rest[j].client_nickname@ == name;
                assert(clients[j] == rest[j]);
            } else {
                assert(clients[clients.len() - 1] == clients.last());
            }
        }
    }
}

/// The listed clients with the nickname `name`, in list order.
pub open spec fn named(clients: Seq<OnlineClient>, name: Seq<char>) -> Seq<OnlineClient> {
    clients.filter(|c: OnlineClient| c.client_nickname@ == name)
}

proof fn lemma_named_step(clients: Seq<OnlineClient>, name: Seq<char>)
    requires
        clients.len() > 0,
    ensures
        named(clients, name) == (if clients.last().client_nickname@ == name {
            named(clients.drop_last(), name).push(clients.last())
        } else {
            named(clients.drop_last(), name)
        }),
{
    reveal(Seq::filter);
}

proof fn lemma_pokes_named(clients: Seq<OnlineClient>, name: Seq<char>, message: Seq<char>)
    ensures
        pokes(clients, Some(name), message) == named(clients, name).map_values(
            |c: OnlineClient| TsActionView::Poke { clid: c.clid, message },
        ),
    decreases clients.len(),
{
    let f = |c: OnlineClient| TsActionView::Poke { clid: c.clid, message };
    if clients.len() == 0 {
        reveal(Seq::filter);
        assert(named(clients, name).map_values(f) =~= Seq::<TsActionView>::empty());
    } else {
        lemma_pokes_named(clients.drop_last(), name, message);
        lemma_named_step(clients, name);
        let rest = named(clients.drop_last(), name);
        if clients.last().client_nickname@ == name {
            assert(rest.push(clients.last()).map_values(f) =~= rest.map_values(f).push(f(clients.last())));
        }
    }
}

proof fn lemma_pokes_all(clients: Seq<OnlineClient>, message: Seq<char>)
    ensures
        pokes(clients, None, message) == clients.map_values(
            |c: OnlineClient| TsActionView::Poke { clid: c.clid, message },
        ),
    decreases clients.len(),
{
    let f = |c: OnlineClient| TsActionView::Poke { clid: c.clid, message };
    if clients.len() == 0 {
        assert(clients.map_values(f) =~= Seq::<TsActionView>::empty());
    } else {
        lemma_pokes_all(clients.drop_last(), message);
        assert(clients.map_values(f) =~= clients.drop_last().map_values(f).push(f(clients.last())));
    }
}

proof fn lemma_kicks_named(clients: Seq<OnlineClient>, name: Seq<char>, from_server: bool, reason: Seq<char>)
    ensures
        kicks(clients, name, from_server, reason) == named(clients, name).map_values(
            |c: OnlineClient| TsActionView::Kick { clid: c.clid, from_server, reason },
        ),
    decreases clients.len(),
{
    let f = |c: OnlineClient| TsActionView::Kick { clid: c.clid, from_server, reason };
    if clients.len() == 0 {
        reveal(Seq::filter);
        assert(named(clients, name).map_values(f) =~= Seq::<TsActionView>::empty());
    } else {
        lemma_kicks_named(clients.drop_last(), name, from_server, reason);
        lemma_named_step(clients, name);
        let rest = named(clients.drop_last(), name);
        if clients.last().client_nickname@ == name {
            assert(rest.push(clients.last()).map_values(f) =~= rest.map_values(f).push(f(clients.last())));
        }
    }
}

/// Law: what each TeamSpeak request does, given the listed clients. A poke
/// request pokes, with the request's message, exactly the clients with the
/// target nickname, in list order, and never kicks; a kick request kicks
/// exactly those clients, from the server or from their channel, with the
/// request's message as reason; a poke to all pokes every listed client;
/// a relayed message is sent under the given name. Every one of them ends
/// by taking back the nickname "BrioschenBot".
pub proof fn lemma_request_effects(cmd: TSCommand, clients: Seq<OnlineClient>, surprise_name: Seq<char>)
    ensures
        cmd matches TSCommand::UserPoke(target, username, message) ==> {
            &&& opening_plan(cmd) == seq![TsActionView::Rename(username@)]
            &&& client_plan(cmd, Some(clients), surprise_name) == named(clients, target@).map_values(
                |c: OnlineClient| TsActionView::Poke { clid: c.clid, message: message@ },
            ).push(TsActionView::Rename("BrioschenBot"@))
        },
        cmd matches TSCommand::UserKick(target, username, message) ==> {
            &&& opening_plan(cmd) == seq![TsActionView::Rename(username@)]
            &&& client_plan(cmd, Some(clients), surprise_name) == named(clients, target@).map_values(
                |c: OnlineClient| TsActionView::Kick { clid: c.clid, from_server: true, reason: message@ },
            ).push(TsActionView::Rename("BrioschenBot"@))
        },
        cmd matches TSCommand::UserChannelKick(target, username, message) ==> {
            &&& opening_plan(cmd) == seq![TsActionView::Rename(username@)]
            &&& client_plan(cmd, Some(clients), surprise_name) == named(clients, target@).map_values(
                |c: OnlineClient| TsActionView::Kick { clid: c.clid, from_server: false, reason: message@ },
            ).push(TsActionView::Rename("BrioschenBot"@))
        },
        cmd matches TSCommand::ServerPokeAll(username, message) ==> {
            &&& opening_plan(cmd) == seq![TsActionView::Rename(username@)]
            &&& client_plan(cmd, Some(clients), surprise_name) == clients.map_values(
                |c: OnlineClient| TsActionView::Poke { clid: c.clid, message: message@ },
            ).push(TsActionView::Rename("BrioschenBot"@))
        },
        cmd matches TSCommand::ServerMessageSend(username, message) ==> {
            &&& opening_plan(cmd) == seq![
                TsActionView::Rename(username@),
                TsActionView::SendServerMessage(message@),
                TsActionView::Rename("BrioschenBot"@),
            ]
            &&& client_plan(cmd, Some(clients), surprise_name) == Seq::<TsActionView>::empty()
        },
{
    match cmd {
        TSCommand::UserPoke(target, _, message) => lemma_pokes_named(clients, target@, message@),
        TSCommand::UserKick(target, _, message) => lemma_kicks_named(clients, target@, true, message@),
        TSCommand::UserChannelKick(target, _, message) => lemma_kicks_named(clients, target@, false, message@),
        TSCommand::ServerPokeAll(_, message) => lemma_pokes_all(clients, message@),
        _ => {},
    }
}

/// Law: `/surprise` kicks from the server, with the reason "Surprise!",
/// exactly the listed clients whose nickname is the stored one, in list
/// order, and answers "Surprisingly silent!" after each kick; when the
/// client list could not be had it does nothing.
pub proof fn lemma_surprise_effects(answer: Sender<String>, clients: Seq<OnlineClient>, surprise_name: Seq<char>)
    ensures
        opening_plan(TSCommand::Surprise(answer)) == Seq::<TsActionView>::empty(),
        client_plan(TSCommand::Surprise(answer), None, surprise_name) == Seq::<TsActionView>::empty(),
        ({
            let plan = client_plan(TSCommand::Surprise(answer), Some(clients), surprise_name);
            let hits = named(clients, surprise_name);
            &&& plan.len() == 2 * hits.len()
            &&& forall|k: int| 0 <= k < hits.len() ==> plan[2 * k] == TsActionView::Kick {
                clid: #[trigger] hits[k].clid,
                from_server: true,
                reason: "Surprise!"@,
            } && plan[2 * k + 1] == TsActionView::Answer("Surprisingly silent!"@)
        }),
{
    lemma_surprises_pairs(clients, surprise_name);
}

proof fn lemma_surprises_pairs(clients: Seq<OnlineClient>, name: Seq<char>)
    ensures
        ({
            let plan = surprises(clients, name);
            let hits = named(clients, name);
            &&& plan.len() == 2 * hits.len()
            &&& forall|k: int| 0 <= k < hits.len() ==> plan[2 * k] == TsActionView::Kick {
                clid: #[trigger] hits[k].clid,
                from_server: true,
                reason: "Surprise!"@,
            } && plan[2 * k + 1] == TsActionView::Answer("Surprisingly silent!"@)
        }),
    decreases clients.len(),
{
    if clients.len() == 0 {
        reveal(Seq::filter);
    } else {
        lemma_surprises_pairs(clients.drop_last(), name);
        lemma_named_step(clients, name);
        let rest = surprises(clients.drop_last(), name);
        let hits = named(clients, name);
        let rhits = named(clients.drop_last(), name);
        if clients.last().client_nickname@ == name {
            assert forall|k: int| 0 <= k < hits.len() implies surprises(clients, name)[2 * k] == TsActionView::Kick {
                clid: #[trigger] hits[k].clid,
                from_server: true,
                reason: "Surprise!"@,
            } && surprises(clients, name)[2 * k + 1] == TsActionView::Answer("Surprisingly silent!"@) by {
                if k < rhits.len() {
                    assert(hits[k] == rhits[k]);
                    assert(rest[2 * k] == TsActionView::Kick { clid: rhits[k].clid, from_server: true, reason: "Surprise!"@ });
                }
            }
        }
    }
}

/// Law: the `/whothere` answer starts with "Currently online:" and a blank
/// line, and each listed client adds its nickname and a line break, except
/// query clients (client type 1), which add nothing.
pub proof fn lemma_users_online_lines(clients: Seq<OnlineClient>, c: OnlineClient)
    ensures
        users_online_text(Seq::<OnlineClient>::empty()) == "Currently online:\n\n"@,
        users_online_text(clients.push(c)) == users_online_text(clients) + (if c.client_type == 1 {
            Seq::<char>::empty()
        } else {
            c.client_nickname@ + "\n"@
        }),
{
    assert(clients.push(c).drop_last() =~= clients);
    assert(("Currently online:\n\n"@ + Seq::<char>::empty()) =~= "Currently online:\n\n"@);
    if c.client_type != 1 {
        assert(users_online_text(clients.push(c)) =~= users_online_text(clients) + (c.client_nickname@ + "\n"@));
    } else {
        assert(users_online_text(clients.push(c)) =~= users_online_text(clients) + Seq::<char>::empty());
    }
}

/// Law: the handler pings exactly when it has been idle for more than 240 seconds.
pub proof fn lemma_keepalive_after_240_seconds(elapsed_secs: u64)
    ensures
        keepalive_due(elapsed_secs) <==> elapsed_secs > 240,
{
}

} // verus!
