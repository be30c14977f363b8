use the_bot::dispatch::{
    command_fires, local_reply, matching_commands, trigger_word, Command, Delivery, Dispatch, Outcome,
};
use the_bot::quotes::QuoteStore;

fn glyph_count(s: &str) -> usize {
    s.split(' ').count()
}

#[test]
fn summon_needs_a_mention() {
    assert_eq!(matching_commands("!summon @x", true), vec![Command::Summon]);
    assert!(matching_commands("!summon", false).is_empty());
    assert!(!command_fires(Command::Summon, "!summon", false));
}

#[test]
fn prefixes_route_commands() {
    assert_eq!(matching_commands("!joke now", false), vec![Command::Joke]);
    assert_eq!(matching_commands("!health backend dev", false), vec![Command::Health]);
    assert_eq!(matching_commands("!nothing", false), vec![Command::No]);
    assert!(matching_commands("hello !joke", false).is_empty());
    assert!(matching_commands("!pm", false).is_empty());
    assert_eq!(trigger_word(Command::Pm), "!PM");
}

#[test]
fn fixed_replies() {
    let store = QuoteStore::new(vec![]);
    assert_eq!(local_reply(Command::Pm, &store).unwrap(), "LONG LIVE THE PM!");
    assert_eq!(
        local_reply(Command::Biriyani, &store).unwrap(),
        "🎭 💡 https://www.youtube.com/watch?v=xvFZjo5PgG0\n"
    );
    assert!(local_reply(Command::Joke, &store).is_none());
    assert!(local_reply(Command::Health, &store).is_none());
}

#[test]
fn emoji_replies_have_the_right_size() {
    let store = QuoteStore::new(vec![]);
    assert_eq!(glyph_count(&local_reply(Command::Summon, &store).unwrap()), 7);
    for _ in 0..20 {
        let n = glyph_count(&local_reply(Command::Oracle, &store).unwrap());
        assert!((5..=15).contains(&n));
    }
}

#[test]
fn guysay_on_empty_store_still_replies() {
    let store = QuoteStore::new(vec![]);
    assert_eq!(
        local_reply(Command::GuySay, &store).unwrap(),
        "No quote to say."
    );
    let store = QuoteStore::new(vec!["Stay calm".to_string()]);
    let said = local_reply(Command::GuySay, &store).unwrap();
    assert!(said.starts_with("```bash"));
    assert!(said.contains("Stay calm"));
}

#[test]
fn failure_does_not_block_other_commands() {
    // "!no" fires once; run the machine over it with a failure first.
    let mut d = Dispatch::start("!no", false);
    assert_eq!(d.pending(), Some(Command::No));
    assert!(matches!(d.settle(Outcome::Failed), Some(Delivery::LogFailure(Command::No))));
    assert_eq!(d.pending(), None);
    assert!(d.settle(Outcome::Reply("late".to_string())).is_none());
}

#[test]
fn every_fired_command_gets_its_delivery() {
    let mut d = Dispatch::start("!summon @someone", true);
    assert_eq!(d.pending(), Some(Command::Summon));
    match d.settle(Outcome::Reply("x y".to_string())) {
        Some(Delivery::Send(s)) => assert_eq!(s, "x y"),
        _ => panic!("expected a send"),
    }
    assert_eq!(d.pending(), None);
}
