use brioschenbot::reply::{choose_reply, first_triggered_rule, flag_from_code, Comparator, Reply, ReplyAction, ReplyType};

fn rule(trigger: &str, comparator: i8, ignore_case: i8, reply: &str, reply_type: i8, reply_flag: i8) -> Reply {
    Reply::from_row(trigger.to_string(), comparator, ignore_case, reply.to_string(), reply_type, reply_flag)
}

#[test]
fn decodes_rows() {
    assert_eq!(Comparator::from_code(0), Comparator::Contains);
    assert_eq!(Comparator::from_code(1), Comparator::Equals);
    assert_eq!(Comparator::from_code(2), Comparator::Undefined);
    assert_eq!(Comparator::from_code(-1), Comparator::Undefined);
    assert_eq!(ReplyType::from_code(0), ReplyType::Text);
    assert_eq!(ReplyType::from_code(3), ReplyType::GifRandom);
    assert_eq!(ReplyType::from_code(1), ReplyType::Undefined);
    assert!(flag_from_code(1));
    assert!(!flag_from_code(0));
    assert!(!flag_from_code(2));
    let r = rule("moin", 1, 1, "Moin!", 0, 0);
    assert_eq!(r.trigger, "moin");
    assert_eq!(r.comparator, Comparator::Equals);
    assert!(r.ignore_case);
    assert_eq!(r.reply, "Moin!");
    assert_eq!(r.reply_type, ReplyType::Text);
    assert!(!r.reply_flag);
}

#[test]
fn equals_and_contains() {
    let eq = rule("moin", 1, 0, "Moin!", 0, 0);
    assert!(eq.is_triggered_by("moin"));
    assert!(!eq.is_triggered_by("moin moin"));
    assert!(!eq.is_triggered_by("Moin"));
    let contains = rule("bier", 0, 0, "Prost", 0, 1);
    assert!(contains.is_triggered_by("wer will bier?"));
    assert!(!contains.is_triggered_by("wer will Bier?"));
}

#[test]
fn ignore_case_lowercases_the_message_only() {
    let r = rule("bier", 0, 1, "Prost", 0, 1);
    assert!(r.is_triggered_by("BIER!"));
    let upper_trigger = rule("Bier", 0, 1, "Prost", 0, 1);
    assert!(!upper_trigger.is_triggered_by("Bier"));
    let eq = rule("prost", 1, 1, "x", 0, 0);
    assert_eq!(eq.is_triggered_by("PROST"), eq.is_triggered_by("Prost"));
    assert!(eq.is_triggered_by("PrOsT"));
}

#[test]
fn undefined_comparator_never_fires() {
    let r = rule("", 5, 0, "x", 0, 0);
    assert!(!r.is_triggered_by(""));
    assert!(!r.is_triggered_by("anything"));
}

#[test]
fn empty_contains_trigger_fires_on_everything() {
    let r = rule("", 0, 0, "x", 0, 0);
    assert!(r.is_triggered_by(""));
}

#[test]
fn first_firing_rule_answers() {
    let rules = vec![
        rule("nope", 1, 0, "a", 0, 0),
        rule("gif", 0, 0, "https://example.org/a.gif", 3, 1),
        rule("gif", 0, 0, "second", 0, 0),
    ];
    assert_eq!(first_triggered_rule(&rules, "a gif please"), Some(1));
    match choose_reply(&rules, "a gif please") {
        Some(ReplyAction::Document { file, as_reply }) => {
            assert_eq!(file, "https://example.org/a.gif");
            assert!(as_reply);
        }
        other => panic!("unexpected {:?}", other),
    }
    assert!(choose_reply(&rules, "nothing here").is_none());
    assert_eq!(first_triggered_rule(&rules, "nothing here"), None);
}

#[test]
fn actions_by_reply_type() {
    match rule("a", 0, 0, "hi", 0, 1).action() {
        ReplyAction::Text { text, as_reply } => {
            assert_eq!(text, "hi");
            assert!(as_reply);
        }
        other => panic!("unexpected {:?}", other),
    }
    match rule("a", 0, 0, "hi", 0, 0).action() {
        ReplyAction::Text { as_reply, .. } => assert!(!as_reply),
        other => panic!("unexpected {:?}", other),
    }
    assert!(matches!(rule("a", 0, 0, "hi", 7, 0).action(), ReplyAction::Nothing));
    // A rule with an unknown reply type still handles the message.
    assert!(matches!(choose_reply(&vec![rule("a", 0, 0, "hi", 7, 0)], "a"), Some(ReplyAction::Nothing)));
}
