use mem6::fetchmod::{
    fetch_all_img_for_cache_request, game_config_url, games_metadata_url, update_games_metadata,
    videos_url,
};
use mem6::fncallermod::{
    blink_or_not_group_id, drink_end_action, function_node, function_string_name_is_known, game_type_left_onclick, game_type_right_onclick,
    group_id_joined, join_group_hash, listener_action, puts_url_in_history, qrcode_link,
    svg_qrcode_template, url_to_join, DrinkEndAction, FunctionNode, ListenerAction,
};
use mem6::gamedatamod::{
    CardGridItem, CardStatusCardFace, GameConfig, GameData, GameMetadata, GameStatus,
    GamesMetadata, Player,
};
use mem6::rootrenderingcomponentmod::RootRenderingComponent;
use mem6::routermod::{between_body_tag, get_url_param_in_hash_after_dot, local_route_from_hash};
use mem6::status1stcardmod::{
    card_index_from_img_id, card_is_down, div_on_1st_card, flip_back, on_click_1st_card,
    on_msg_click_1st_card, update_on_1st_card,
};
use mem6::statusjoinedmod::{has_ws_uid, on_load_joined, on_msg_joined};
use mem6::text::parse_usize;

fn player(ws_uid: usize, nickname: &str, points: usize) -> Player {
    Player { ws_uid, nickname: nickname.to_string(), points }
}

fn card(status: CardStatusCardFace, number: usize, index: usize) -> CardGridItem {
    CardGridItem { status, card_number_and_img_src: number, card_index_and_id: index }
}

fn games(names: &[&str]) -> GamesMetadata {
    GamesMetadata {
        vec_game_metadata: names
            .iter()
            .map(|n| GameMetadata { folder: format!("f_{}", n), name: n.to_string() })
            .collect(),
    }
}

fn strs(v: &[&str]) -> Vec<String> {
    v.iter().map(|s| s.to_string()).collect()
}

#[test]
fn url_param_after_dot() {
    assert_eq!(get_url_param_in_hash_after_dot("&p03.1234"), "1234");
    assert_eq!(get_url_param_in_hash_after_dot("#p04.12.34"), "12");
    assert_eq!(get_url_param_in_hash_after_dot("#p04."), "");
    assert_eq!(get_url_param_in_hash_after_dot(".x"), "x");
}

#[test]
fn join_link_gives_back_ws_uid() {
    let h = join_group_hash("5678");
    assert_eq!(h, "#p04.5678");
    assert_eq!(get_url_param_in_hash_after_dot(&h), "5678");
    let link = qrcode_link(4321);
    assert_eq!(link, "https://bestia.dev/mem6/#p03.4321");
    let hash = &link[link.find('#').unwrap()..];
    assert_eq!(parse_usize(get_url_param_in_hash_after_dot(hash)), Some(4321));
    assert_eq!(url_to_join(4321), "bestia.dev/mem6/#p03.4321");
}

#[test]
fn body_between_tags() {
    let page = "<html><head></head><body><p>hi</p></body></html>";
    assert_eq!(between_body_tag(page), "<p>hi</p>");
    assert_eq!(between_body_tag("no body here"), "no body here");
    assert_eq!(between_body_tag("<body>x</body>"), "x");
    assert_eq!(between_body_tag("<body>hi</body>"), "hi");
    assert_eq!(between_body_tag("é<body>ü</body>"), "ü");
}

#[test]
fn local_route_defaults_to_index() {
    assert_eq!(local_route_from_hash(String::new()), "index");
    assert_eq!(local_route_from_hash("#p02".to_string()), "#p02");
}

#[test]
fn history_only_from_first_url() {
    assert!(puts_url_in_history(""));
    assert!(puts_url_in_history("#p03.1234"));
    assert!(!puts_url_in_history("#p03"));
    assert!(!puts_url_in_history("#p11"));
}

#[test]
fn group_id_joined_text() {
    let mut rrc = RootRenderingComponent::new(10);
    assert_eq!(group_id_joined(&rrc), "");
    assert_eq!(blink_or_not_group_id(&rrc), "blink");
    rrc.game_data.players = vec![player(10, "me", 0)];
    assert_eq!(group_id_joined(&rrc), "");
    rrc.game_data.players = vec![player(0, "x", 0)];
    assert_eq!(group_id_joined(&rrc), "");
    rrc.game_data.players = vec![player(77, "first", 0), player(10, "me", 0)];
    assert_eq!(group_id_joined(&rrc), "77");
    assert_eq!(blink_or_not_group_id(&rrc), "");
}

fn playing_rrc() -> RootRenderingComponent {
    let mut rrc = RootRenderingComponent::new(42);
    let gd = &mut rrc.game_data;
    gd.my_nickname = "Ann".to_string();
    gd.players = vec![player(42, "Ann", 3), player(43, "Bob", 5)];
    gd.my_player_number = 1;
    gd.player_turn = 2;
    gd.game_config = Some(GameConfig {
        card_moniker: strs(&["zero", "one", "two"]),
        img_filename: strs(&["z.png", "o.png", "t.png"]),
    });
    gd.card_grid_data = vec![
        card(CardStatusCardFace::Down, 0, 0),
        card(CardStatusCardFace::Down, 2, 1),
        card(CardStatusCardFace::UpPermanently, 1, 2),
    ];
    gd.card_index_of_first_click = 1;
    gd.card_index_of_second_click = 2;
    rrc
}

#[test]
fn function_strings() {
    let rrc = playing_rrc();
    let f = |sx: &str| rrc.call_function_string(sx, "2.0.1", "dbg");
    assert_eq!(f("my_nickname"), "Ann");
    assert_eq!(f("blink_or_not_nickname"), "");
    assert_eq!(f("blink_or_not_group_id"), "blink");
    assert_eq!(f("my_ws_uid"), "42");
    assert_eq!(f("players_count"), "1 ");
    assert_eq!(f("game_name"), "alphabet");
    assert_eq!(f("group_id_joined"), "");
    assert_eq!(f("url_to_join"), "bestia.dev/mem6/#p03.42");
    assert_eq!(f("cargo_pkg_version"), "2.0.1");
    assert_eq!(f("debug_text"), "dbg");
    assert_eq!(f("gameboard_btn"), "btn");
    assert_eq!(f("card_moniker_first"), "two");
    assert_eq!(f("card_moniker_second"), "one");
    assert_eq!(f("my_points"), "3 ");
    assert_eq!(f("player_turn"), "Bob");
    assert_eq!(f("nothing"), "Error: Unrecognized call_function_string: nothing");
    assert!(!function_string_name_is_known("nothing"));
    for sx in ["my_nickname", "debug_text", "player_turn", "card_moniker_second"] {
        assert!(function_string_name_is_known(sx), "{}", sx);
    }
}

#[test]
fn listeners() {
    match listener_action("open_youtube1") {
        ListenerAction::OpenNewTab(u) => assert_eq!(u, "https://www.youtube.com/watch?v=VQdhDw-hE8s"),
        _ => panic!(),
    }
    match listener_action("open_youtube2") {
        ListenerAction::OpenNewTab(u) => assert_eq!(u, "https://www.youtube.com/watch?v=2RT9AzqEfLo"),
        _ => panic!(),
    }
    for (sx, hash) in [
        ("open_menu", "#p21"),
        ("back_to_game", "#p11"),
        ("start_a_group_onclick", "#p02"),
        ("restart_game", "#p02"),
        ("join_a_group_onclick", "#p03"),
        ("choose_a_game_onclick", "#p05"),
    ] {
        match listener_action(sx) {
            ListenerAction::OpenNewLocalPage(h) => assert_eq!(h, hash, "{}", sx),
            _ => panic!("{}", sx),
        }
    }
    for (sx, url) in [("open_instructions", "#p08"), ("debug_log", "#p31")] {
        match listener_action(sx) {
            ListenerAction::OpenNewTab(u) => assert_eq!(u, url),
            _ => panic!("{}", sx),
        }
    }
    assert!(matches!(listener_action("nickname_onkeyup"), ListenerAction::NicknameOnKeyup));
    assert!(matches!(listener_action("group_id_onkeyup"), ListenerAction::GroupIdOnKeyup));
    assert!(matches!(listener_action("rejoin_resync"), ListenerAction::RejoinResync));
    assert!(matches!(listener_action("start_game_onclick"), ListenerAction::StartGame));
    assert!(matches!(listener_action("game_type_right_onclick"), ListenerAction::GameTypeRight));
    assert!(matches!(listener_action("game_type_left_onclick"), ListenerAction::GameTypeLeft));
    assert!(matches!(listener_action("join_group_on_click"), ListenerAction::JoinGroup));
    assert!(matches!(listener_action("drink_end"), ListenerAction::DrinkEnd));
    match listener_action("xyz") {
        ListenerAction::Unrecognized(t) => assert_eq!(t, "Error: Unrecognized call_listener: xyz"),
        _ => panic!(),
    }
}

#[test]
fn function_nodes() {
    assert!(matches!(function_node("div_grid_container"), FunctionNode::DivGridContainer));
    assert!(matches!(function_node("div_player_action"), FunctionNode::DivPlayerAction));
    assert!(matches!(function_node("svg_qrcode"), FunctionNode::SvgQrcode));
    match function_node("abc") {
        FunctionNode::Unrecognized(t) => assert_eq!(t, "Error: Unrecognized call_function_node: abc"),
        _ => panic!(),
    }
}

#[test]
fn qrcode_svg_is_a_path() {
    let rrc = RootRenderingComponent::new(1234);
    let svg = svg_qrcode_template(&rrc);
    assert!(svg.starts_with("<path fill=\"#000000\" d=\" "));
    assert!(svg.contains("M"));
    let other = svg_qrcode_template(&RootRenderingComponent::new(5678));
    assert_ne!(svg, other);
    let again = svg_qrcode_template(&RootRenderingComponent::new(1234));
    assert_eq!(svg, again);
    assert!(svg_qrcode_template(&RootRenderingComponent::new(usize::MAX)).contains("M"));
}

#[test]
fn game_arrows_go_round() {
    let mut gd = GameData::new(1);
    gd.games_metadata = Some(games(&["alphabet", "animals", "cars"]));
    assert!(game_type_right_onclick(&mut gd));
    assert_eq!(gd.game_name, "animals");
    assert!(game_type_right_onclick(&mut gd));
    assert_eq!(gd.game_name, "cars");
    assert!(game_type_right_onclick(&mut gd));
    assert_eq!(gd.game_name, "alphabet");
    assert!(game_type_left_onclick(&mut gd));
    assert_eq!(gd.game_name, "cars");
    assert!(game_type_left_onclick(&mut gd));
    assert_eq!(gd.game_name, "animals");
}

#[test]
fn game_arrows_undo_each_other() {
    let mut gd = GameData::new(1);
    gd.games_metadata = Some(games(&["a", "b", "c", "d"]));
    gd.game_name = "c".to_string();
    game_type_right_onclick(&mut gd);
    game_type_left_onclick(&mut gd);
    assert_eq!(gd.game_name, "c");
    game_type_left_onclick(&mut gd);
    game_type_right_onclick(&mut gd);
    assert_eq!(gd.game_name, "c");
}

#[test]
fn game_arrows_with_unknown_game_change_nothing() {
    let mut gd = GameData::new(1);
    gd.games_metadata = Some(games(&["x", "y"]));
    gd.game_name = "zzz".to_string();
    assert!(!game_type_right_onclick(&mut gd));
    assert!(!game_type_left_onclick(&mut gd));
    assert_eq!(gd.game_name, "zzz");
    let mut one = GameData::new(1);
    one.games_metadata = Some(games(&["alphabet"]));
    assert!(game_type_right_onclick(&mut one));
    assert_eq!(one.game_name, "alphabet");
}

#[test]
fn fetch_addresses() {
    assert_eq!(game_config_url("https://x.y/mem6", "animals"), "https://x.y/mem6/content/animals/game_config.json");
    assert_eq!(games_metadata_url("h"), "h/content/gamesmetadata.json");
    assert_eq!(videos_url("h"), "h/content/videos.json");
}

#[test]
fn games_metadata_fills_folders() {
    let mut gd = GameData::new(1);
    gd.content_folders = strs(&["old"]);
    update_games_metadata(&mut gd, games(&["a", "b"]));
    assert_eq!(gd.content_folders, strs(&["f_a", "f_b"]));
    assert_eq!(gd.games_metadata.as_ref().unwrap().vec_game_metadata.len(), 2);
}

#[test]
fn image_urls_skip_card_zero() {
    let rrc = playing_rrc();
    let urls = fetch_all_img_for_cache_request(&rrc.game_data);
    assert_eq!(urls, strs(&["content/alphabet/img/t.png", "content/alphabet/img/o.png"]));
}

#[test]
fn flip_back_turns_temporary_cards_down() {
    let mut gd = GameData::new(1);
    gd.card_grid_data = vec![
        card(CardStatusCardFace::Down, 0, 0),
        card(CardStatusCardFace::UpTemporary, 1, 1),
        card(CardStatusCardFace::UpPermanently, 2, 2),
        card(CardStatusCardFace::UpTemporary, 3, 3),
    ];
    gd.card_index_of_first_click = 1;
    gd.card_index_of_second_click = 3;
    flip_back(&mut gd);
    let st: Vec<CardStatusCardFace> = gd.card_grid_data.iter().map(|c| c.status).collect();
    assert_eq!(
        st,
        vec![CardStatusCardFace::Down, CardStatusCardFace::Down, CardStatusCardFace::UpPermanently, CardStatusCardFace::Down]
    );
    assert_eq!(gd.card_index_of_first_click, 0);
    assert_eq!(gd.card_index_of_second_click, 0);
    flip_back(&mut gd);
    let st2: Vec<CardStatusCardFace> = gd.card_grid_data.iter().map(|c| c.status).collect();
    assert_eq!(st, st2);
}

#[test]
fn first_card_click_and_message() {
    let mut gd = GameData::new(1);
    gd.card_grid_data = vec![
        card(CardStatusCardFace::Down, 0, 0),
        card(CardStatusCardFace::UpTemporary, 1, 1),
        card(CardStatusCardFace::Down, 2, 2),
    ];
    on_click_1st_card(&mut gd, 2);
    assert_eq!(gd.card_index_of_first_click, 2);
    assert_eq!(gd.card_grid_data[1].status, CardStatusCardFace::Down);
    update_on_1st_card(&mut gd);
    assert_eq!(gd.card_grid_data[2].status, CardStatusCardFace::UpTemporary);
    assert_eq!(gd.game_status, GameStatus::Status2ndCard);

    // another player clicked, no conflict: this player is number 2
    let mut gd2 = GameData::new(2);
    gd2.my_player_number = 2;
    gd2.card_grid_data = vec![card(CardStatusCardFace::Down, 0, 0), card(CardStatusCardFace::Down, 1, 1)];
    assert!(!on_msg_click_1st_card(&mut gd2, 1));
    assert_eq!(gd2.card_index_of_first_click, 1);
    assert_eq!(gd2.card_grid_data[1].status, CardStatusCardFace::UpTemporary);
    assert_eq!(gd2.game_status, GameStatus::Status2ndCard);

    // player 1 not waiting for a first card: conflict
    let mut gd3 = GameData::new(3);
    gd3.card_grid_data = vec![card(CardStatusCardFace::UpTemporary, 0, 0)];
    gd3.game_status = GameStatus::Status2ndCard;
    assert!(on_msg_click_1st_card(&mut gd3, 0));
    assert_eq!(gd3.card_grid_data[0].status, CardStatusCardFace::Down);
    assert_eq!(gd3.game_status, GameStatus::Status2ndCard);
}

#[test]
fn heading_while_first_card_awaited() {
    let mut gd = GameData::new(1);
    gd.players = vec![player(1, "Ann", 0), player(2, "Bob", 0)];
    gd.my_player_number = 1;
    gd.player_turn = 1;
    let h = div_on_1st_card(&gd);
    assert_eq!(h.class, "h2_must_do_something");
    assert_eq!(h.text, "Play Ann");
    gd.player_turn = 2;
    let h = div_on_1st_card(&gd);
    assert_eq!(h.class, "h2_user_must_wait");
    assert_eq!(h.text, "Wait for Bob");
}

#[test]
fn image_ids() {
    assert_eq!(card_index_from_img_id("img12"), Some(12));
    assert_eq!(card_index_from_img_id("img0"), Some(0));
    assert_eq!(card_index_from_img_id("img"), None);
    assert_eq!(card_index_from_img_id("im"), None);
    assert_eq!(card_index_from_img_id("éa5"), Some(5));
    assert_eq!(card_index_from_img_id("aé5"), Some(5));
    assert_eq!(card_index_from_img_id("a€5"), None);
    assert_eq!("a€5".get(3..), None);
    assert_eq!(card_index_from_img_id("imgx"), None);
    let mut gd = GameData::new(1);
    gd.card_grid_data = vec![card(CardStatusCardFace::Down, 0, 0), card(CardStatusCardFace::UpPermanently, 1, 1)];
    assert!(card_is_down(&gd, 0));
    assert!(!card_is_down(&gd, 1));
}

#[test]
fn joining_players() {
    let mut gd = GameData::new(1);
    gd.players = vec![player(1, "first", 0)];
    on_load_joined(&mut gd);
    assert_eq!(gd.game_status, GameStatus::StatusJoined);
    on_msg_joined(&mut gd, 2, "Bob".to_string());
    assert_eq!(gd.players.len(), 2);
    assert_eq!(gd.players[1].nickname, "Bob");
    assert_eq!(gd.players[1].points, 0);
    assert_eq!(gd.players_ws_uid, "[1,2]");
    on_msg_joined(&mut gd, 2, "Bob again".to_string());
    assert_eq!(gd.players.len(), 2);
    assert_eq!(gd.players[1].nickname, "Bob");
    assert!(has_ws_uid(&gd.players, 2));
    assert!(!has_ws_uid(&gd.players, 3));
    let mut other = GameData::new(5);
    other.my_player_number = 2;
    on_msg_joined(&mut other, 7, "x".to_string());
    assert_eq!(other.players.len(), 0);
}

#[test]
fn new_and_reset() {
    let mut rrc = playing_rrc();
    rrc.game_data.asked_game_name = "cars".to_string();
    rrc.game_data.game_name = "cars".to_string();
    rrc.game_data.game_status = GameStatus::Status2ndCard;
    rrc.reset();
    let gd = &rrc.game_data;
    assert!(gd.card_grid_data.is_empty());
    assert!(gd.players.is_empty());
    assert_eq!(gd.card_index_of_first_click, 0);
    assert_eq!(gd.card_index_of_second_click, 0);
    assert_eq!(gd.game_status, GameStatus::StatusStartPage);
    assert_eq!(gd.game_name, "alphabet");
    assert_eq!(gd.asked_game_name, "");
    assert_eq!(gd.my_player_number, 1);
    assert_eq!(gd.player_turn, 0);
    assert!(gd.game_config.is_none());
    assert_eq!(gd.my_nickname, "Ann");
    assert_eq!(gd.my_ws_uid, 42);
    let fresh = RootRenderingComponent::new(8);
    assert_eq!(fresh.game_data.my_ws_uid, 8);
    assert_eq!(fresh.web_data.my_ws_uid, 8);
    assert_eq!(fresh.game_data.game_name, "alphabet");
}

#[test]
fn templates_route_and_html() {
    let mut rrc = RootRenderingComponent::new(1);
    rrc.set_local_route("p02_start_a_group.html");
    assert_eq!(rrc.get_local_route(), "p02_start_a_group.html");
    rrc.set_html_template("<div></div>");
    assert_eq!(rrc.get_html_template(), "<div></div>");
}

#[test]
fn drink_end_decides_game_over() {
    assert_eq!(drink_end_action(true), DrinkEndAction::GameOver);
    assert_eq!(drink_end_action(false), DrinkEndAction::TakeTurn);
}
