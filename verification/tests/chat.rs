use game::callback::{route, Callback, CallbackRoute};
use game::chat::{command_of, game_command, is_greeting, route_message, BotCommand, GameCommand, MessageRoute};
use game::ids::{BaitId, EncounterId, LocationId};
use game::ratings::{Database, LEADERBOARD_SIZE};

#[test]
fn private_media_is_echoed_and_textless_messages_ignored() {
    assert!(matches!(route_message(5, true, None, false), MessageRoute::EchoMedia));
    assert!(matches!(route_message(0, true, Some("caption"), true), MessageRoute::EchoMedia));
    assert!(matches!(route_message(5, false, None, false), MessageRoute::Ignore));
    assert!(matches!(route_message(-100, true, None, false), MessageRoute::Ignore));
    assert!(matches!(route_message(-100, true, Some(" hi "), false), MessageRoute::Pattern { text: "hi" }));
}

#[test]
fn slash_commands_split_name_and_arguments() {
    match route_message(-1, false, Some("  /ratings   extra  args \n"), true) {
        MessageRoute::Command { name, args } => assert_eq!((name, args), ("ratings", "extra  args")),
        other => panic!("expected a command, got {other:?}"),
    }
    match route_message(-1, false, Some("/ping"), false) {
        MessageRoute::Command { name, args } => assert_eq!((name, args), ("ping", "")),
        other => panic!("expected a command, got {other:?}"),
    }
    match route_message(-1, false, Some("/help\tme"), false) {
        MessageRoute::Command { name, args } => assert_eq!((name, args), ("help", "me")),
        other => panic!("expected a command, got {other:?}"),
    }
    // A bare slash names no command.
    assert!(matches!(route_message(-1, false, Some(" / "), true), MessageRoute::Pattern { text: "/" }));
}

#[test]
fn ratings_need_a_replied_to_message() {
    assert!(matches!(route_message(-1, false, Some(" + "), true), MessageRoute::Rate { delta: 1 }));
    assert!(matches!(route_message(-1, false, Some("-1"), true), MessageRoute::Rate { delta: -1 }));
    assert!(matches!(route_message(-1, false, Some("Thanks!"), true), MessageRoute::Rate { delta: 1 }));
    assert!(matches!(route_message(-1, false, Some("+"), false), MessageRoute::Pattern { text: "+" }));
    assert!(matches!(route_message(-1, false, Some("nice one"), true), MessageRoute::Pattern { text: "nice one" }));
}

#[test]
fn commands_are_matched_exactly() {
    assert_eq!(command_of("ping"), Some(BotCommand::Ping));
    assert_eq!(command_of("ratings"), Some(BotCommand::Ratings));
    assert_eq!(command_of("top"), Some(BotCommand::Ratings));
    assert_eq!(command_of("leaderboard"), Some(BotCommand::Ratings));
    assert_eq!(command_of("rating"), Some(BotCommand::MyRating));
    assert_eq!(command_of("my_rating"), Some(BotCommand::MyRating));
    assert_eq!(command_of("me"), Some(BotCommand::Me));
    assert_eq!(command_of("help"), Some(BotCommand::Help));
    assert_eq!(command_of("Ping"), None);
    assert_eq!(command_of(""), None);
}

#[test]
fn greetings_stand_alone() {
    assert!(is_greeting("hello"));
    assert!(is_greeting("Hello!"));
    assert!(is_greeting("HI :)"));
    assert!(is_greeting("sup?"));
    assert!(is_greeting("hey   !!"));
    assert!(is_greeting("hi,"));
    assert!(!is_greeting("hey there"));
    assert!(!is_greeting("hello world"));
    assert!(!is_greeting("hiya"));
    assert!(!is_greeting(""));
}

#[test]
fn leaderboard_keeps_the_top_twenty() {
    let mut db = Database::new();
    for user in 1..=25_i64 {
        db.adjust_rating(7, user, user * 10);
    }
    db.adjust_rating(8, 99, 1_000);
    let board = db.leaderboard(7);
    assert_eq!(LEADERBOARD_SIZE, 20);
    assert_eq!(board.len(), 20);
    assert_eq!(board[0], (25, 250));
    assert_eq!(board[19], (6, 60));
    assert!(board.windows(2).all(|pair| pair[0].1 >= pair[1].1));
    assert!(board.iter().all(|&(user, _)| user >= 6));
    let small = db.leaderboard(8);
    assert_eq!(small, vec![(99, 1_000)]);
    assert!(db.leaderboard(9).is_empty());
}

#[test]
fn game_commands_depend_on_the_chat() {
    assert_eq!(game_command(-100, true, "fish"), GameCommand::ShowShoal);
    assert_eq!(game_command(-100, false, "fish"), GameCommand::ShowShoal);
    assert_eq!(game_command(-100, true, "help"), GameCommand::GroupHelp);
    assert_eq!(game_command(-100, false, "help"), GameCommand::Nothing);
    assert_eq!(game_command(-100, true, "start"), GameCommand::Nothing);
    assert_eq!(game_command(42, true, "start"), GameCommand::Start);
    assert_eq!(game_command(42, true, "help"), GameCommand::Guide);
    assert_eq!(game_command(42, true, "fish"), GameCommand::Guide);
    assert_eq!(game_command(42, false, "start"), GameCommand::Nothing);
}

#[test]
fn button_presses_reach_their_handler() {
    assert_eq!(route(&Callback::Cast), CallbackRoute::Fishing);
    assert_eq!(route(&Callback::Reel { encounter_id: EncounterId(3), step: 1 }), CallbackRoute::Fishing);
    assert_eq!(route(&Callback::BuyBait { bait_id: BaitId(1) }), CallbackRoute::Economy);
    assert_eq!(route(&Callback::SellAll), CallbackRoute::Economy);
    assert_eq!(route(&Callback::TurnInContract), CallbackRoute::Progression);
    assert_eq!(route(&Callback::GroupCast { cycle: 9 }), CallbackRoute::Group);
    assert_eq!(route(&Callback::GroupHelp), CallbackRoute::Group);
    assert_eq!(route(&Callback::Travel { location_id: LocationId(2) }), CallbackRoute::Panel);
    assert_eq!(route(&Callback::Crafting), CallbackRoute::Panel);
}
