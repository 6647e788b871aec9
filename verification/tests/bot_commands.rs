use bluebgg::collection::BriefItem;
use bluebgg::collection::get_games_by_user_rating_desc;
use bluebgg::commands::CollectionOutcome;
use bluebgg::commands::game_info_reply;
use bluebgg::commands::help_reply;
use bluebgg::commands::registered_commands;
use bluebgg::commands::top10_reply;
use bluebgg::query::ItemType;
use bluebgg::query::top10_query;
use bluebgg::render::Reply;
use bluebgg::render::create_base_embed;
use bluebgg::render::format_ranking_body;

fn item(id: u64, name: &str, rating_tenths: Option<u64>) -> BriefItem {
    BriefItem {
        id,
        name: name.to_string(),
        rating_tenths,
    }
}

#[test]
fn top10_three_items_alice() {
    let items = vec![
        item(1, "Catan", Some(90)),
        item(2, "Risk", None),
        item(3, "Go", Some(70)),
    ];
    let user = String::from("alice");
    let reply = top10_reply(&user, CollectionOutcome::Retrieved { items }, 1000);
    match reply {
        Reply::Embedded { embed } => {
            assert_eq!(embed.author_name, "alice's top 10");
            assert_eq!(
                embed.author_url.as_deref(),
                Some("https://boardgamegeek.com/collection/user/alice")
            );
            assert_eq!(
                embed.description,
                "- [Catan](https://boardgamegeek.com/boardgame/1) - (9)\n\n\
                 - [Go](https://boardgamegeek.com/boardgame/3) - (7)\n\n\
                 - [Risk](https://boardgamegeek.com/boardgame/2) - (Unrated)\n"
            );
            assert_eq!(embed.timestamp_unix, 1000);
            assert_eq!(
                embed.footer_text,
                "Bot source: https://github.com/MatthewThompson/BlueBGG"
            );
            assert_eq!(
                (embed.colour_red, embed.colour_green, embed.colour_blue),
                (0, 176, 255)
            );
        }
        Reply::Text { content } => panic!("expected an embed, got text: {}", content),
    }
}

#[test]
fn top10_caps_at_ten_entries() {
    let mut items = Vec::new();
    for i in 0..13u64 {
        let rating = if i % 3 == 0 { None } else { Some(i * 10) };
        items.push(item(i + 1, "Game", rating));
    }
    let body = format_ranking_body(&get_games_by_user_rating_desc(items));
    assert_eq!(body.matches("- [").count(), 10);
}

#[test]
fn sort_is_descending_with_unrated_last() {
    let items = vec![
        item(1, "a", None),
        item(2, "b", Some(30)),
        item(3, "c", Some(100)),
        item(4, "d", None),
        item(5, "e", Some(65)),
    ];
    let sorted = get_games_by_user_rating_desc(items);
    let ratings: Vec<Option<u64>> = sorted.iter().map(|g| g.rating_tenths).collect();
    assert_eq!(ratings, vec![Some(100), Some(65), Some(30), None, None]);
    assert_eq!(sorted.len(), 5);
}

#[test]
fn sort_keeps_all_records_on_equal_ratings() {
    let items = vec![item(1, "a", Some(50)), item(2, "b", Some(50))];
    let sorted = get_games_by_user_rating_desc(items);
    let mut ids: Vec<u64> = sorted.iter().map(|g| g.id).collect();
    ids.sort();
    assert_eq!(ids, vec![1, 2]);
}

#[test]
fn top10_empty_collection_gives_empty_body() {
    let user = String::from("carol");
    let reply = top10_reply(&user, CollectionOutcome::Retrieved { items: Vec::new() }, 5);
    match reply {
        Reply::Embedded { embed } => {
            assert_eq!(embed.description, "");
            assert_eq!(embed.author_name, "carol's top 10");
        }
        Reply::Text { content } => panic!("expected an embed, got text: {}", content),
    }
}

#[test]
fn top10_query_filters_out_expansions() {
    let q = top10_query();
    assert!(matches!(q.item_type, Some(ItemType::BoardGame)));
    assert!(matches!(
        q.exclude_item_type,
        Some(ItemType::BoardGameExpansion)
    ));
}

#[test]
fn top10_unknown_username_message() {
    let user = String::from("bob");
    let reply = top10_reply(&user, CollectionOutcome::UnknownUsername, 0);
    match reply {
        Reply::Text { content } => assert_eq!(content, "User bob not found"),
        Reply::Embedded { .. } => panic!("expected text"),
    }
}

#[test]
fn top10_not_ready_message() {
    let user = String::from("bob");
    let reply = top10_reply(&user, CollectionOutcome::NotReady, 0);
    match reply {
        Reply::Text { content } => assert_eq!(
            content,
            "Data for bob from BGG not yet ready, please try again shortly"
        ),
        Reply::Embedded { .. } => panic!("expected text"),
    }
}

#[test]
fn top10_other_error_message_hides_detail() {
    let user = String::from("bob");
    let outcome = CollectionOutcome::OtherFailure {
        detail: String::from("connection reset by peer"),
    };
    let reply = top10_reply(&user, outcome, 0);
    match reply {
        Reply::Text { content } => {
            assert_eq!(content, "Unexpected error requesting user bob collection");
            assert!(!content.contains("connection reset"));
        }
        Reply::Embedded { .. } => panic!("expected text"),
    }
}

#[test]
fn help_without_argument_lists_all_commands() {
    let cmds = registered_commands();
    let text = help_reply(&cmds, &None);
    assert_eq!(
        text,
        "help: Show this help menu\n\
         game_info: Get info for a particular game, by its ID.\n\
         top10: Get the 10 games that a given user has rated highest.\n\
         Test help text idk..."
    );
}

#[test]
fn help_with_registered_name_shows_detail() {
    let cmds = registered_commands();
    let text = help_reply(&cmds, &Some(String::from("top10")));
    assert_eq!(
        text,
        "top10: Get the 10 games that a given user has rated highest."
    );
}

#[test]
fn help_with_unregistered_name_reports_not_found() {
    let cmds = registered_commands();
    let text = help_reply(&cmds, &Some(String::from("frobnicate")));
    assert_eq!(text, "Command frobnicate not found");
}

#[test]
fn game_info_names_the_requested_id() {
    let reply = game_info_reply(42, 7);
    match reply {
        Reply::Embedded { embed } => {
            assert_eq!(embed.description, "Getting game 42...Not yet implemented");
            assert_eq!(embed.author_name, "Some game");
            assert!(embed.author_url.is_none());
            assert_eq!(embed.timestamp_unix, 7);
        }
        Reply::Text { .. } => panic!("expected an embed"),
    }
}

#[test]
fn game_info_text_varies_only_in_the_id() {
    let a = match game_info_reply(1, 0) {
        Reply::Embedded { embed } => embed.description,
        Reply::Text { .. } => panic!("expected an embed"),
    };
    let b = match game_info_reply(999999, 0) {
        Reply::Embedded { embed } => embed.description,
        Reply::Text { .. } => panic!("expected an embed"),
    };
    assert_eq!(a, "Getting game 1...Not yet implemented");
    assert_eq!(b, "Getting game 999999...Not yet implemented");
}

#[test]
fn base_embed_has_fixed_style() {
    let e = create_base_embed(123);
    assert_eq!(
        e.footer_text,
        "Bot source: https://github.com/MatthewThompson/BlueBGG"
    );
    assert_eq!((e.colour_red, e.colour_green, e.colour_blue), (0, 176, 255));
    assert_eq!(e.timestamp_unix, 123);
    assert_eq!(e.author_name, "");
    assert_eq!(e.description, "");
    assert!(e.author_url.is_none());
}
