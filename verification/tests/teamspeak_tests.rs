use brioschenbot::teamspeak::{keepalive_due_after, users_online_answer, OnlineClient, TSCommand, TsAction};

fn client(clid: u16, nick: &str, client_type: i8) -> OnlineClient {
    OnlineClient { clid, client_nickname: nick.to_string(), client_type }
}

fn clients() -> Vec<OnlineClient> {
    vec![client(1, "serveradmin", 1), client(5, "bob", 0), client(7, "alice", 0), client(9, "bob", 0)]
}

fn plan(cmd: &TSCommand, cs: Option<Vec<OnlineClient>>, surprise: &str) -> Vec<TsAction> {
    let mut all = cmd.opening_actions();
    all.extend(cmd.client_actions(&cs, surprise));
    all
}

fn renamed(a: &TsAction, name: &str) -> bool {
    matches!(a, TsAction::Rename(n) if n == name)
}

#[test]
fn keepalive_after_four_minutes() {
    assert!(!keepalive_due_after(0));
    assert!(!keepalive_due_after(240));
    assert!(keepalive_due_after(241));
}

#[test]
fn relayed_message() {
    let cmd = TSCommand::ServerMessageSend("Max (Log)".into(), "hallo".into());
    assert!(!cmd.needs_client_list());
    let p = plan(&cmd, None, "");
    assert_eq!(p.len(), 3);
    assert!(renamed(&p[0], "Max (Log)"));
    assert!(matches!(&p[1], TsAction::SendServerMessage(m) if m == "hallo"));
    assert!(renamed(&p[2], "BrioschenBot"));
}

#[test]
fn kick_only_named_clients() {
    let cmd = TSCommand::UserKick("bob".into(), "BrioschenBot".into(), "".into());
    assert!(cmd.needs_client_list());
    let p = plan(&cmd, Some(clients()), "");
    assert_eq!(p.len(), 4);
    assert!(renamed(&p[0], "BrioschenBot"));
    assert!(matches!(&p[1], TsAction::Kick { clid: 5, from_server: true, reason } if reason == ""));
    assert!(matches!(&p[2], TsAction::Kick { clid: 9, from_server: true, .. }));
    assert!(renamed(&p[3], "BrioschenBot"));
}

#[test]
fn channel_kick_and_poke() {
    let cmd = TSCommand::UserChannelKick("alice".into(), "me".into(), "bye".into());
    let p = plan(&cmd, Some(clients()), "");
    assert_eq!(p.len(), 3);
    assert!(renamed(&p[0], "me"));
    assert!(matches!(&p[1], TsAction::Kick { clid: 7, from_server: false, reason } if reason == "bye"));
    assert!(renamed(&p[2], "BrioschenBot"));

    let cmd = TSCommand::UserPoke("nobody".into(), "me".into(), "hi".into());
    let p = plan(&cmd, Some(clients()), "");
    assert_eq!(p.len(), 2);
    assert!(renamed(&p[1], "BrioschenBot"));
}

#[test]
fn poke_all_reaches_query_clients_too() {
    let cmd = TSCommand::ServerPokeAll("BrioschenBot".into(), "kommt".into());
    let p = plan(&cmd, Some(clients()), "");
    assert_eq!(p.len(), 6);
    let clids: Vec<u16> = p
        .iter()
        .filter_map(|a| match a {
            TsAction::Poke { clid, message } => {
                assert_eq!(message, "kommt");
                Some(*clid)
            }
            _ => None,
        })
        .collect();
    assert_eq!(clids, vec![1, 5, 7, 9]);
}

#[test]
fn users_online_lists_normal_clients() {
    assert_eq!(users_online_answer(&clients()), "Currently online:\n\nbob\nalice\nbob\n");
    assert_eq!(users_online_answer(&vec![]), "Currently online:\n\n");
    let (tx, _rx) = std::sync::mpsc::channel();
    let cmd = TSCommand::ServerUsersOnline(tx);
    let p = plan(&cmd, Some(clients()), "");
    assert_eq!(p.len(), 1);
    assert!(matches!(&p[0], TsAction::Answer(t) if t == "Currently online:\n\nbob\nalice\nbob\n"));
}

#[test]
fn surprise_kicks_and_answers_per_match() {
    let (tx, _rx) = std::sync::mpsc::channel();
    let cmd = TSCommand::Surprise(tx);
    let p = plan(&cmd, Some(clients()), "bob");
    assert_eq!(p.len(), 4);
    assert!(matches!(&p[0], TsAction::Kick { clid: 5, from_server: true, reason } if reason == "Surprise!"));
    assert!(matches!(&p[1], TsAction::Answer(t) if t == "Surprisingly silent!"));
    assert!(matches!(&p[2], TsAction::Kick { clid: 9, .. }));
    assert!(matches!(&p[3], TsAction::Answer(_)));
    assert!(plan(&cmd, None, "bob").is_empty());
    assert!(plan(&cmd, Some(clients()), "carol").is_empty());
}
