//! The step where players join the group of the first player.

use vstd::prelude::*;
use crate::gamedatamod::GameData;
use crate::gamedatamod::GameStatus;
use crate::gamedatamod::Player;
use crate::gamedatamod::json_usize_array;
use crate::gamedatamod::prepare_players_ws_uid;
use crate::gamedatamod::ws_uids;

verus! {

/// This player has joined the group whose first player is already known: the
/// game goes to the joined step. The message that announces this player to
/// the group is sent by the caller.
pub fn on_load_joined(gd: &mut GameData)
    requires
        old(gd).players@.len() > 0,
    ensures
        *final(gd) == (GameData { game_status: GameStatus::StatusJoined, ..*old(gd) }),
{
    gd.game_status = GameStatus::StatusJoined;
}

/// The first player learns that a player joined: a player with that
/// websocket id is added at the end of the list, with no points, unless one
/// is there already; the JSON of the players' websocket ids follows. Other
/// players change nothing.
pub fn on_msg_joined(gd: &mut GameData, his_ws_uid: usize, his_nickname: String)
    ensures
        old(gd).my_player_number == 1 && !ws_uids(old(gd).players@).contains(his_ws_uid) ==> {
            &&& final(gd).players@ == old(gd).players@.push(
                (Player { ws_uid: his_ws_uid, nickname: his_nickname, points: 0 }),
            )
            &&& final(gd).players_ws_uid@ == json_usize_array(ws_uids(final(gd).players@))
            &&& *final(gd) == (GameData {
                players: final(gd).players,
                players_ws_uid: final(gd).players_ws_uid,
                ..*old(gd)
            })
        },
        !(old(gd).my_player_number == 1 && !ws_uids(old(gd).players@).contains(his_ws_uid))
            ==> *final(gd) == *old(gd),
{
    if gd.my_player_number == 1 && !has_ws_uid(&gd.players, his_ws_uid) {
        gd.players.push(Player { ws_uid: his_ws_uid, nickname: his_nickname, points: 0 });
        gd.players_ws_uid = prepare_players_ws_uid(&gd.players);
    }
}

/// No two players have the same websocket id.
pub open spec fn distinct_ws_uids(players: Seq<Player>) -> bool {
    forall|i: int, j: int|
        0 <= i < players.len() && 0 <= j < players.len() && i != j ==> players[i].ws_uid
            != players[j].ws_uid
}

/// Adding a player whose websocket id is not listed keeps the websocket ids
/// distinct, keeps the players before it, and lists the new id, so that the
/// same message received again adds nobody.
pub proof fn lemma_join_keeps_ws_uids_distinct(players: Seq<Player>, p: Player)
    requires
        distinct_ws_uids(players),
        !ws_uids(players).contains(p.ws_uid),
    ensures
        distinct_ws_uids(players.push(p)),
        players.push(p).take(players.len() as int) == players,
        ws_uids(players.push(p)).contains(p.ws_uid),
{
    let q = players.push(p);
    assert forall|i: int, j: int|
        0 <= i < q.len() && 0 <= j < q.len() && i != j implies q[i].ws_uid != q[j].ws_uid by {
        if i == players.len() {
            assert(ws_uids(players)[j] == players[j].ws_uid);
        } else if j == players.len() {
            assert(ws_uids(players)[i] == players[i].ws_uid);
        }
    }
    assert(q.take(players.len() as int) =~= players);
    assert(ws_uids(q)[players.len() as int] == p.ws_uid);
}

/// Whether a player of the list has the websocket id `ws_uid`.
pub fn has_ws_uid(players: &Vec<Player>, ws_uid: usize) -> (r: bool)
    ensures
        r == ws_uids(players@).contains(ws_uid),
{
    let n = players.len();
    let mut i: usize = 0;
    while i < n
        invariant
            n == players@.len(),
            i <= n,
            forall|j: int| 0 <= j < i ==> players@[j].ws_uid != ws_uid,
        decreases n - i,
    {
        if players[i].ws_uid == ws_uid {
            assert(ws_uids(players@)[i as int] == ws_uid);
            return true;
        }
        i = i + 1;
    }
    assert(!ws_uids(players@).contains(ws_uid)) by {
        if ws_uids(players@).contains(ws_uid) {
            let j = choose|j: int| 0 <= j < ws_uids(players@).len() && ws_uids(players@)[j] == ws_uid;
            assert(players@[j].ws_uid == ws_uid);
        }
    }
    false
}

} // verus!
