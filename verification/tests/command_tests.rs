use brioschenbot::commands::{
    mentions_tiktok, parse_command, rand_answer, rand_answer_for, Command, KLUET_URL, HAMELN_URL,
    PFAFFEN_URL,
};
use brioschenbot::teamspeak::TSCommand;

fn parsed(text: &str) -> Option<Command> {
    parse_command(text).expect("the command patterns compile")
}

#[test]
fn kick_family() {
    match parsed("/kick Max Mustermann") {
        Some(Command::Kick { target }) => assert_eq!(target, "Max Mustermann"),
        other => panic!("unexpected {:?}", other),
    }
    match parsed("/kick ") {
        Some(Command::Kick { target }) => assert_eq!(target, ""),
        other => panic!("unexpected {:?}", other),
    }
    match parsed("/softkick bob") {
        Some(Command::SoftKick { target }) => assert_eq!(target, "bob"),
        other => panic!("unexpected {:?}", other),
    }
    match parsed("hey /poke bob! now") {
        Some(Command::Poke { target }) => assert_eq!(target, "bob"),
        other => panic!("unexpected {:?}", other),
    }
    match parsed("/pokeall kommt alle") {
        Some(Command::PokeAll { message }) => assert_eq!(message, "kommt alle"),
        other => panic!("unexpected {:?}", other),
    }
    match parsed("/kick Jürgen") {
        Some(Command::Kick { target }) => assert_eq!(target, "Jürgen"),
        other => panic!("unexpected {:?}", other),
    }
}

#[test]
fn kick_without_space_is_no_command() {
    assert!(parsed("/kick").is_none());
    assert!(parsed("/pokeall").is_none());
}

#[test]
fn webcams() {
    match parsed("/hameln") {
        Some(Command::Webcam { url, file_name }) => {
            assert_eq!(url, HAMELN_URL);
            assert_eq!(file_name, "hameln.jpg");
        }
        other => panic!("unexpected {:?}", other),
    }
    for spelling in ["/kluet", "/kl\u{fc}t"] {
        match parsed(spelling) {
            Some(Command::Webcam { url, file_name }) => {
                assert_eq!(url, KLUET_URL);
                assert_eq!(file_name, "kluet.jpg");
            }
            other => panic!("unexpected {:?}", other),
        }
    }
    match parsed("bild /pfaffen bitte") {
        Some(Command::Webcam { url, file_name }) => {
            assert_eq!(url, PFAFFEN_URL);
            assert_eq!(file_name, "pfaffen.jpg");
        }
        other => panic!("unexpected {:?}", other),
    }
    assert!(matches!(parsed("/weser"), Some(Command::Webcam { .. })));
    assert!(matches!(parsed("/schrobi"), Some(Command::Webcam { .. })));
    assert!(matches!(parsed("/neuburg"), Some(Command::Webcam { .. })));
}

#[test]
fn rand_maximum() {
    assert!(matches!(parsed("/rand 10"), Some(Command::Rand { maximum: 10 })));
    assert!(matches!(parsed("/rand 0"), Some(Command::Rand { maximum: 0 })));
    assert!(matches!(parsed("/rand x"), Some(Command::Rand { maximum: 1000 })));
    assert!(matches!(parsed("/rand 99999999999"), Some(Command::Rand { maximum: 1000 })));
    assert!(parsed("/rand").is_none());
}

#[test]
fn teamspeak_queries() {
    assert!(matches!(parsed("/whothere"), Some(Command::WhoThere)));
    assert!(matches!(parsed("/surprise"), Some(Command::Surprise)));
}

#[test]
fn earlier_patterns_win() {
    // "/kick" is tried before "/whothere".
    match parsed("/whothere /kick a") {
        Some(Command::Kick { target }) => assert_eq!(target, "a"),
        other => panic!("unexpected {:?}", other),
    }
}

#[test]
fn plain_text_is_no_command() {
    assert!(parsed("hallo zusammen").is_none());
    assert!(parsed("").is_none());
}

#[test]
fn tiktok_links() {
    assert_eq!(mentions_tiktok("schau mal https://www.tiktok.com/@x"), Ok(true));
    assert_eq!(mentions_tiktok("tiktokXcom"), Ok(true));
    assert_eq!(mentions_tiktok("tik tok"), Ok(false));
}

#[test]
fn rand_answers() {
    assert_eq!(rand_answer_for(17, 5), "2");
    assert_eq!(rand_answer_for(4294967295, 1000), "295");
    for _ in 0..50 {
        let n: u32 = rand_answer(6).parse().unwrap();
        assert!(n < 6);
    }
}

#[test]
fn handled_flags() {
    assert!(Command::Kick { target: "a".into() }.handled(false));
    assert!(Command::Rand { maximum: 3 }.handled(false));
    assert!(!Command::WhoThere.handled(false));
    assert!(Command::WhoThere.handled(true));
    assert!(!Command::Webcam { url: "u".into(), file_name: "f".into() }.handled(false));
}

#[test]
fn requests_for_teamspeak() {
    match (Command::Kick { target: "bob".into() }).teamspeak_request() {
        Some(TSCommand::UserKick(t, u, m)) => {
            assert_eq!(t, "bob");
            assert_eq!(u, "BrioschenBot");
            assert_eq!(m, "");
        }
        _ => panic!("expected a kick"),
    }
    assert!(matches!(
        Command::SoftKick { target: "bob".into() }.teamspeak_request(),
        Some(TSCommand::UserChannelKick(..))
    ));
    assert!(matches!(Command::Poke { target: "bob".into() }.teamspeak_request(), Some(TSCommand::UserPoke(..))));
    match (Command::PokeAll { message: "hi".into() }).teamspeak_request() {
        Some(TSCommand::ServerPokeAll(u, m)) => {
            assert_eq!(u, "BrioschenBot");
            assert_eq!(m, "hi");
        }
        _ => panic!("expected a poke to all"),
    }
    assert!(Command::WhoThere.teamspeak_request().is_none());
    let (tx, _rx) = std::sync::mpsc::channel();
    assert!(matches!(Command::WhoThere.answered_request(tx), Some(TSCommand::ServerUsersOnline(_))));
    let (tx, _rx) = std::sync::mpsc::channel();
    assert!(matches!(Command::Surprise.answered_request(tx), Some(TSCommand::Surprise(_))));
    let (tx, _rx) = std::sync::mpsc::channel();
    assert!(Command::Rand { maximum: 2 }.answered_request(tx).is_none());
}
