use brioschenbot::config::{parse_port, Configuration};
use brioschenbot::relay::{is_log_chat, relay_name, relay_name_with};
use brioschenbot::users::{alias_query, first_or_empty, message_log, resolve_alias, ts_name_query};

#[test]
fn queries() {
    assert_eq!(alias_query("12345"), "SELECT alias FROM users WHERE t_uid = 12345");
    assert_eq!(ts_name_query("3"), "SELECT ts_name FROM users WHERE id = 3");
}

#[test]
fn alias_found() {
    let rows = vec!["Brio".to_string(), "Other".to_string()];
    let (alias, insert) = resolve_alias(&rows, "1", Some(("A".into(), "B".into(), "c".into())));
    assert_eq!(alias, "Brio");
    assert!(insert.is_none());
}

#[test]
fn alias_missing_adds_user() {
    let (alias, insert) = resolve_alias(&vec![], "42", Some(("Anna".into(), "".into(), "anna_b".into())));
    assert_eq!(alias, "");
    let u = insert.expect("a new user");
    assert_eq!(u.t_uid, "42");
    assert_eq!(u.first_name, "Anna");
    assert_eq!(u.last_name, "");
    assert_eq!(u.alias, "anna_b");
    let (alias, insert) = resolve_alias(&vec![], "42", None);
    assert_eq!(alias, "");
    assert!(insert.is_none());
}

#[test]
fn first_row() {
    assert_eq!(first_or_empty(&vec!["x".into(), "y".into()]), "x");
    assert_eq!(first_or_empty(&vec![]), "");
}

#[test]
fn message_rows() {
    let m = message_log(1, Some("hi".into()), -100, 7, 1600000000);
    assert_eq!((m.user_id, m.chat_id, m.message_id, m.timestamp), (1, -100, 7, 1600000000));
    assert_eq!(m.message, "hi");
    assert_eq!(message_log(1, None, 2, 3, 4).message, "");
}

fn config() -> Configuration {
    Configuration {
        bot_token: "bot-token".into(),
        database_name: "bot".into(),
        database_ip: "10.0.0.2".into(),
        database_user: "brio".into(),
        database_password: "pw".into(),
        tg_log_chatid: "-100".into(),
        ts_ip: "ts.example.org".into(),
        ts_query_port: "10011".into(),
        ts_server_port: 9987,
        ts_user: "serveradmin".into(),
        ts_password: "pw".into(),
        surprise_target: "3".into(),
        log_randomnum_exception: "77".into(),
    }
}

#[test]
fn addresses() {
    let c = config();
    assert_eq!(c.database_url(), "mysql://brio:pw@10.0.0.2/bot");
    assert_eq!(c.ts_query_address(), "ts.example.org:10011");
}

#[test]
fn ports() {
    assert_eq!(parse_port("9987"), Some(9987));
    assert_eq!(parse_port("70000"), None);
    assert_eq!(parse_port(""), None);
}

#[test]
fn log_chat() {
    assert!(is_log_chat(-100123, "-100123"));
    assert!(!is_log_chat(-100123, "100123"));
    assert!(!is_log_chat(5, " 5"));
}

#[test]
fn relay_names() {
    assert_eq!(relay_name_with("", "Max", "Muster", 1, "77", 5), "Max Muster (Log)");
    assert_eq!(relay_name_with("", "Max", "", 1, "77", 5), "Max  (Log)");
    assert_eq!(relay_name_with("maxi", "Max", "Muster", 1, "77", 5), "maxi (Log)");
    assert_eq!(relay_name_with("maxi", "Max", "Muster", 77, "77", 5), "maxi5 (Log)");
    assert_eq!(relay_name("maxi", "Max", "Muster", 1, "77"), "maxi (Log)");
    let marked = relay_name("maxi", "Max", "Muster", 77, "77");
    assert!(marked.starts_with("maxi") && marked.ends_with(" (Log)"));
    let digits = &marked["maxi".len()..marked.len() - " (Log)".len()];
    assert!(digits.parse::<u32>().is_ok());
}
