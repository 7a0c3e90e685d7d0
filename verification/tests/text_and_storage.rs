use mem6::divnicknamemod;
use mem6::gamedatamod::{prepare_players_ws_uid, GameData, Player};
use mem6::rootrenderingcomponentmod::RootRenderingComponent;
use mem6::storagemod::{self, add_to_begin_of_debug_text, utf8_truncate, KeyUpAction};
use mem6::text::{char_utf8_len, find_chars, parse_usize, str_eq, str_to_chars, usize_to_string};

fn player(ws_uid: usize, nickname: &str, points: usize) -> Player {
    Player { ws_uid, nickname: nickname.to_string(), points }
}

#[test]
fn decimal_text_of_numbers() {
    assert_eq!(usize_to_string(0), "0");
    assert_eq!(usize_to_string(7), "7");
    assert_eq!(usize_to_string(1234), "1234");
    assert_eq!(usize_to_string(usize::MAX), usize::MAX.to_string());
}

#[test]
fn parse_usize_like_from_str() {
    assert_eq!(parse_usize("1234"), Some(1234));
    assert_eq!(parse_usize("+42"), Some(42));
    assert_eq!(parse_usize("007"), Some(7));
    assert_eq!(parse_usize(""), None);
    assert_eq!(parse_usize("+"), None);
    assert_eq!(parse_usize("-1"), None);
    assert_eq!(parse_usize("12a"), None);
    assert_eq!(parse_usize(" 12"), None);
    assert_eq!(parse_usize(&usize::MAX.to_string()), Some(usize::MAX));
    assert_eq!(parse_usize("99999999999999999999999"), None);
    for s in ["0", "+5", "18446744073709551615", "18446744073709551616", "x", "++1"] {
        assert_eq!(parse_usize(s), s.parse::<usize>().ok(), "{}", s);
    }
}

#[test]
fn saved_ws_uid_reads_back() {
    for n in [0usize, 1, 9, 10, 4321, usize::MAX] {
        assert_eq!(parse_usize(&usize_to_string(n)), Some(n));
    }
}

#[test]
fn str_eq_compares_characters() {
    assert!(str_eq("Enter", "Enter"));
    assert!(!str_eq("Enter", "enter"));
    assert!(!str_eq("Ent", "Enter"));
    assert!(str_eq("", ""));
}

#[test]
fn char_widths() {
    assert_eq!(char_utf8_len('a'), 1);
    assert_eq!(char_utf8_len('é'), 2);
    assert_eq!(char_utf8_len('€'), 3);
    assert_eq!(char_utf8_len('😀'), 4);
}

#[test]
fn find_first_occurrence_in_characters() {
    let s = str_to_chars("aé<body>x<body>");
    let p = str_to_chars("<body>");
    assert_eq!(find_chars(&s, &p), Some(2));
    assert_eq!(find_chars(&s, &str_to_chars("zz")), None);
    assert_eq!(find_chars(&s, &str_to_chars("")), Some(0));
}

#[test]
fn utf8_truncate_keeps_short_text() {
    let mut s = String::from("hello");
    utf8_truncate(&mut s, 6);
    assert_eq!(s, "hello");
}

#[test]
fn utf8_truncate_cuts_below_the_limit() {
    let mut s = String::from("hello");
    utf8_truncate(&mut s, 5);
    assert_eq!(s, "hell");
    let mut s = String::from("abc");
    utf8_truncate(&mut s, 1);
    assert_eq!(s, "");
}

#[test]
fn utf8_truncate_cuts_at_character_boundary() {
    // 'é' takes two bytes: "aé" is 3 bytes, "aéb" is 4.
    let mut s = String::from("aéb");
    utf8_truncate(&mut s, 3);
    assert_eq!(s, "a");
    let mut s = String::from("aéb");
    utf8_truncate(&mut s, 4);
    assert_eq!(s, "aé");
    let mut s = String::from("😀😀");
    utf8_truncate(&mut s, 8);
    assert_eq!(s, "😀");
}

#[test]
fn utf8_truncate_twice_changes_nothing() {
    let mut s = String::from("ÈªëÈ£éÈõ∑ and more text");
    utf8_truncate(&mut s, 10);
    let once = s.clone();
    assert!(once.len() < 10);
    utf8_truncate(&mut s, 10);
    assert_eq!(s, once);
}

#[test]
fn debug_text_gets_new_line_first() {
    let r = add_to_begin_of_debug_text("12:00", "hello", "old line\n");
    assert_eq!(r, "12:00: hello\nold line\n");
}

#[test]
fn debug_text_is_kept_below_800_bytes() {
    let old = "x".repeat(900);
    let r = add_to_begin_of_debug_text("now", "msg", &old);
    assert_eq!(r.len(), 799);
    assert!(r.starts_with("now: msg\n"));
    let r = add_to_begin_of_debug_text("now", "msg", "");
    assert_eq!(r, "now: msg\n");
}

#[test]
fn nickname_keys() {
    match storagemod::nickname_onkeyup("Enter") {
        KeyUpAction::OpenLocalPage(h) => assert_eq!(h, "#p02"),
        _ => panic!("Enter opens a page"),
    }
    assert!(matches!(storagemod::nickname_onkeyup("a"), KeyUpAction::Save));
    match storagemod::group_id_onkeyup("Enter") {
        KeyUpAction::OpenLocalPage(h) => assert_eq!(h, "#p04"),
        _ => panic!("Enter opens a page"),
    }
    assert!(matches!(divnicknamemod::group_id_onkeyup("Enter"), KeyUpAction::JoinTypedGroup));
    assert!(matches!(divnicknamemod::group_id_onkeyup("1"), KeyUpAction::Save));
    assert!(matches!(divnicknamemod::nickname_onkeyup("x"), KeyUpAction::Save));
}

#[test]
fn blink_while_no_nickname() {
    let mut rrc = RootRenderingComponent::new(5);
    assert_eq!(storagemod::blink_or_not_nickname(&rrc), "blink");
    assert_eq!(divnicknamemod::blink_or_not_nickname(&rrc), "blink");
    rrc.game_data.my_nickname = "Ann".to_string();
    assert_eq!(storagemod::blink_or_not_nickname(&rrc), "");
    assert_eq!(divnicknamemod::blink_or_not_nickname(&rrc), "");
}

#[test]
fn players_ws_uid_is_a_json_array() {
    assert_eq!(prepare_players_ws_uid(&vec![]), "[]");
    assert_eq!(prepare_players_ws_uid(&vec![player(7, "a", 0)]), "[7]");
    let ps = vec![player(12, "a", 0), player(3, "b", 1), player(456, "c", 2)];
    assert_eq!(prepare_players_ws_uid(&ps), "[12,3,456]");
}

#[test]
fn storage_nickname_rule_follows_player_number() {
    let mut gd = GameData::new(1);
    gd.players = vec![player(1, "a", 0), player(2, "b", 0), player(3, "c", 0)];
    gd.my_player_number = 2;
    storagemod::set_nickname(&mut gd, "Bob".to_string());
    assert_eq!(gd.my_nickname, "Bob");
    assert_eq!(gd.players[1].nickname, "Bob");
    assert_eq!(gd.players[0].nickname, "a");
    // the last player exists too
    gd.my_player_number = 3;
    storagemod::set_nickname(&mut gd, "Cy".to_string());
    assert_eq!(gd.my_nickname, "Cy");
    assert_eq!(gd.players[2].nickname, "Cy");
    // no such player: only the own nickname
    gd.my_player_number = 4;
    storagemod::set_nickname(&mut gd, "Di".to_string());
    assert_eq!(gd.my_nickname, "Di");
    gd.my_player_number = 0;
    storagemod::set_nickname(&mut gd, "Ed".to_string());
    assert_eq!(gd.my_nickname, "Ed");
    let names: Vec<&str> = gd.players.iter().map(|p| p.nickname.as_str()).collect();
    assert_eq!(names, vec!["a", "Bob", "Cy"]);
}

#[test]
fn player_alone_takes_own_nickname() {
    let mut gd = GameData::new(1);
    gd.players = vec![player(1, "a", 0)];
    gd.my_player_number = 1;
    storagemod::set_nickname(&mut gd, "Solo".to_string());
    assert_eq!(gd.players[0].nickname, "Solo");
}

#[test]
fn first_version_nickname_rule_only_for_player_1() {
    let mut gd = GameData::new(1);
    gd.players = vec![player(1, "a", 0), player(2, "b", 0)];
    gd.my_player_number = 1;
    divnicknamemod::set_nickname(&mut gd, "Ann".to_string());
    assert_eq!(gd.players[0].nickname, "Ann");
    gd.my_player_number = 2;
    divnicknamemod::set_nickname(&mut gd, "Bea".to_string());
    assert_eq!(gd.my_nickname, "Bea");
    assert_eq!(gd.players[0].nickname, "Ann");
    assert_eq!(gd.players[1].nickname, "b");
}

#[test]
fn set_group_id_updates_first_player_and_receivers() {
    let mut gd = GameData::new(9);
    gd.players = vec![player(0, "a", 0), player(9, "b", 0)];
    storagemod::set_group_id(&mut gd, "321");
    assert_eq!(gd.group_id, 321);
    assert_eq!(gd.players[0].ws_uid, 321);
    assert_eq!(gd.players[0].nickname, "a");
    assert_eq!(gd.players_ws_uid, "[321,9]");
}

#[test]
fn first_version_group_id_sets_only_first_player() {
    let mut gd = GameData::new(9);
    gd.players = vec![player(0, "a", 0)];
    divnicknamemod::set_first_player_ws_uid(&mut gd, "55");
    assert_eq!(gd.players[0].ws_uid, 55);
    assert_eq!(gd.group_id, 0);
    assert_eq!(gd.players_ws_uid, "");
}
