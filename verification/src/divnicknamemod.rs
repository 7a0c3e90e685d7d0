//! The nickname and group id boxes of the start page, with the rules of the
//! first version of the game: only player number 1 follows the nickname.

use vstd::prelude::*;
use crate::gamedatamod::GameData;
use crate::gamedatamod::Player;
use crate::rootrenderingcomponentmod::RootRenderingComponent;
use crate::storagemod::KeyUpAction;
use crate::text::parse_usize;
use crate::text::parse_usize_spec;
use crate::text::str_eq;

verus! {

/// The class of the nickname box: it blinks while there is no nickname.
pub fn blink_or_not_nickname(rrc: &RootRenderingComponent) -> (r: String)
    ensures
        rrc.game_data.my_nickname@.len() == 0 ==> r@ == "blink"@,
        rrc.game_data.my_nickname@.len() != 0 ==> r@ == ""@,
{
    if rrc.game_data.my_nickname.as_str().is_empty() {
        String::from_str("blink")
    } else {
        String::from_str("")
    }
}

/// Takes the nickname typed by this player: it becomes this player's
/// nickname, and the nickname of the first player when this player is
/// player number 1.
pub fn set_nickname(gd: &mut GameData, nickname: String)
    requires
        old(gd).my_player_number == 1 ==> old(gd).players@.len() > 0,
    ensures
        final(gd).my_nickname@ == nickname@,
        old(gd).my_player_number == 1 ==> final(gd).players@ == old(gd).players@.update(
            0,
            (Player { nickname: final(gd).my_nickname, ..old(gd).players@[0] }),
        ),
        old(gd).my_player_number != 1 ==> final(gd).players@ == old(gd).players@,
        *final(gd) == (GameData { my_nickname: final(gd).my_nickname, players: final(gd).players, ..*old(gd) }),
{
    gd.my_nickname = nickname.clone();
    if gd.my_player_number == 1 {
        let mut p = gd.players[0].clone_player();
        p.nickname = nickname;
        gd.players.set(0, p);
    }
}

/// The group id typed by this player becomes the websocket id of the first
/// player.
pub fn set_first_player_ws_uid(gd: &mut GameData, group_id_string: &str)
    requires
        parse_usize_spec(group_id_string@) is Some,
        old(gd).players@.len() > 0,
    ensures
        final(gd).players@ == old(gd).players@.update(
            0,
            (Player { ws_uid: parse_usize_spec(group_id_string@)->Some_0, ..old(gd).players@[0] }),
        ),
        *final(gd) == (GameData { players: final(gd).players, ..*old(gd) }),
{
    let v = parse_usize(group_id_string).unwrap();
    let mut p = gd.players[0].clone_player();
    p.ws_uid = v;
    gd.players.set(0, p);
}

/// The reaction to a key released in the nickname box: Enter opens the page
/// to start a group, any other key saves the nickname.
pub fn nickname_onkeyup(key: &str) -> (r: KeyUpAction)
    ensures
        key@ == "Enter"@ ==> (r matches KeyUpAction::OpenLocalPage(h) && h@ == "#p02"@),
        key@ != "Enter"@ ==> r is Save,
{
    if str_eq(key, "Enter") {
        KeyUpAction::OpenLocalPage(String::from_str("#p02"))
    } else {
        KeyUpAction::Save
    }
}

/// The reaction to a key released in the group id box: Enter opens the page
/// that joins the group typed in the box, any other key saves the group id.
pub fn group_id_onkeyup(key: &str) -> (r: KeyUpAction)
    ensures
        key@ == "Enter"@ ==> r is JoinTypedGroup,
        key@ != "Enter"@ ==> r is Save,
{
    if str_eq(key, "Enter") {
        KeyUpAction::JoinTypedGroup
    } else {
        KeyUpAction::Save
    }
}

} // verus!
