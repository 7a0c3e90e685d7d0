//! The game state: players, the card grid, the configuration of the chosen
//! game and the status of the game.

use vstd::prelude::*;
use crate::text::decimal;

verus! {

/// The steps of the game.
#[derive(Clone, Copy, Debug, PartialEq, Eq, Structural)]
pub enum GameStatus {
    /// Nickname, group and game are being chosen.
    StatusStartPage,
    /// This player joined the group of the first player.
    StatusJoined,
    /// The player on turn must click the first card.
    Status1stCard,
    /// The player on turn must click the second card.
    Status2ndCard,
}

/// Which face of a card can be seen.
#[derive(Clone, Copy, Debug, PartialEq, Eq, Structural)]
pub enum CardStatusCardFace {
    /// The back of the card.
    Down,
    /// The image, until the turn ends.
    UpTemporary,
    /// The image, for the rest of the game: the pair was found.
    UpPermanently,
}

/// One cell of the card grid.
#[derive(Clone, Copy, Debug)]
pub struct CardGridItem {
    /// Which face is up.
    pub status: CardStatusCardFace,
    /// The card's number, which is also the index of its image and moniker.
    pub card_number_and_img_src: usize,
    /// The index of the card in the grid, also its html id.
    pub card_index_and_id: usize,
}

/// A player of the group.
#[derive(Debug)]
pub struct Player {
    /// The player's websocket id.
    pub ws_uid: usize,
    /// The player's nickname.
    pub nickname: String,
    /// Pairs found so far.
    pub points: usize,
}

/// The configuration of one game (one set of cards).
#[derive(Debug)]
pub struct GameConfig {
    /// The name of each card, by card number.
    pub card_moniker: Vec<String>,
    /// The file name of each card's image, by card number.
    pub img_filename: Vec<String>,
}

/// The description of one game that can be chosen.
#[derive(Debug)]
pub struct GameMetadata {
    /// The folder of the game's content.
    pub folder: String,
    /// The name of the game.
    pub name: String,
}

/// All the games that can be chosen.
#[derive(Debug)]
pub struct GamesMetadata {
    /// The games, in the order they are offered.
    pub vec_game_metadata: Vec<GameMetadata>,
}

/// The videos that can be shown.
#[derive(Debug)]
pub struct Videos {
    /// The video ids.
    pub videos: Vec<String>,
}

impl Player {
    /// A copy of the player.
    pub fn clone_player(&self) -> (p: Player)
        ensures
            p.ws_uid == self.ws_uid,
            p.nickname@ == self.nickname@,
            p.points == self.points,
            p == *self,
    {
        Player { ws_uid: self.ws_uid, nickname: self.nickname.clone(), points: self.points }
    }
}

/// All the data of the game, shared by the logic and the rendering.
pub struct GameData {
    /// This player's websocket id.
    pub my_ws_uid: usize,
    /// This player's nickname.
    pub my_nickname: String,
    /// The players of the group; the first one started the group.
    pub players: Vec<Player>,
    /// The websocket ids of the players as a JSON array, for the server.
    pub players_ws_uid: String,
    /// The step of the game.
    pub game_status: GameStatus,
    /// The name of the chosen game.
    pub game_name: String,
    /// The name of the game that the first player asked for.
    pub asked_game_name: String,
    /// The configuration of the chosen game, once fetched.
    pub game_config: Option<GameConfig>,
    /// The games that can be chosen, once fetched.
    pub games_metadata: Option<GamesMetadata>,
    /// The content folder of each game that can be chosen.
    pub content_folders: Vec<String>,
    /// The card grid; index 0 is not a card on the table.
    pub card_grid_data: Vec<CardGridItem>,
    /// The index of the first card clicked in this turn.
    pub card_index_of_first_click: usize,
    /// The index of the second card clicked in this turn.
    pub card_index_of_second_click: usize,
    /// This player's number, counted from 1.
    pub my_player_number: usize,
    /// The number of the player on turn, counted from 1.
    pub player_turn: usize,
    /// The websocket id of the first player of the group.
    pub group_id: usize,
    /// An error to show instead of the game, empty if none.
    pub error_text: String,
}

/// The websocket ids of the players, in order.
pub open spec fn ws_uids(players: Seq<Player>) -> Seq<usize> {
    players.map_values(|p: Player| p.ws_uid)
}

/// The decimal numbers of `s` separated by commas.
pub open spec fn comma_separated(s: Seq<usize>) -> Seq<char>
    decreases s.len(),
{
    if s.len() == 0 {
        Seq::empty()
    } else if s.len() == 1 {
        decimal(s[0] as nat)
    } else {
        comma_separated(s.drop_last()) + seq![','] + decimal(s.last() as nat)
    }
}

/// The compact JSON text of an array of unsigned numbers, such as `[1,22,3]`.
pub open spec fn json_usize_array(s: Seq<usize>) -> Seq<char> {
    seq!['['] + comma_separated(s) + seq![']']
}

/// `serde_json::to_string` on a `Vec<usize>`: the compact JSON array of the
/// numbers in decimal, with no spaces. The serializer writes into a `Vec<u8>`,
/// whose writes cannot fail, so no error comes back for such a vector.
#[verifier::external_body]
fn json_of_usizes(v: &Vec<usize>) -> (s: String)
    ensures
        s@ == json_usize_array(v@),
{
    match serde_json::to_string(v) {
        Ok(s) => s,
        Err(_) => String::new(),
    }
}

/// The JSON text of the players' websocket ids, which the server reads to
/// know whom to send a message.
pub fn prepare_players_ws_uid(players: &Vec<Player>) -> (s: String)
    ensures
        s@ == json_usize_array(ws_uids(players@)),
{
    let mut uids: Vec<usize> = Vec::new();
    let mut i: usize = 0;
    while i < players.len()
        invariant
            i <= players@.len(),
            uids@ =~= ws_uids(players@.take(i as int)),
        decreases players@.len() - i,
    {
        uids.push(players[i].ws_uid);
        i = i + 1;
        assert(uids@ =~= ws_uids(players@.take(i as int)));
    }
    assert(players@.take(i as int) =~= players@);
    json_of_usizes(&uids)
}

/// It is this player's turn exactly when this player's number is the number
/// of the player on turn.
pub proof fn lemma_is_my_turn(gd: GameData)
    ensures
        gd.is_my_turn_spec() <==> gd.my_player_number == gd.player_turn,
{
}

impl GameData {
    /// Whether this player is on turn.
    pub open spec fn is_my_turn_spec(&self) -> bool {
        self.my_player_number == self.player_turn
    }

    /// Whether this player is on turn.
    pub fn is_my_turn(&self) -> (r: bool)
        ensures
            r == self.is_my_turn_spec(),
            r == (self.my_player_number == self.player_turn),
    {
        self.my_player_number == self.player_turn
    }

    /// The card grid before a game is set up: no cards.
    pub fn prepare_for_empty() -> (grid: Vec<CardGridItem>)
        ensures
            grid@.len() == 0,
    {
        Vec::new()
    }

    /// Whether this is the data of the player with this websocket id that
    /// has just opened the game: no players, no cards, the first game of the
    /// list chosen, on the start page, as player 1 with nobody on turn.
    pub open spec fn is_new(&self, my_ws_uid: usize) -> bool {
        &&& self.my_ws_uid == my_ws_uid
        &&& self.my_nickname@ == Seq::<char>::empty()
        &&& self.players@.len() == 0
        &&& self.players_ws_uid@ == Seq::<char>::empty()
        &&& self.game_status == GameStatus::StatusStartPage
        &&& self.game_name@ == "alphabet"@
        &&& self.asked_game_name@ == Seq::<char>::empty()
        &&& self.game_config is None
        &&& self.games_metadata is None
        &&& self.content_folders@.len() == 0
        &&& self.card_grid_data@.len() == 0
        &&& self.card_index_of_first_click == 0
        &&& self.card_index_of_second_click == 0
        &&& self.my_player_number == 1
        &&& self.player_turn == 0
        &&& self.group_id == 0
        &&& self.error_text@ == Seq::<char>::empty()
    }

    /// The data of a player that has just opened the game.
    pub fn new(my_ws_uid: usize) -> (gd: GameData)
        ensures
            gd.is_new(my_ws_uid),
    {
        GameData {
            my_ws_uid,
            my_nickname: String::new(),
            players: Vec::new(),
            players_ws_uid: String::new(),
            game_status: GameStatus::StatusStartPage,
            game_name: String::from_str("alphabet"),
            asked_game_name: String::new(),
            game_config: None,
            games_metadata: None,
            content_folders: Vec::new(),
            card_grid_data: Vec::new(),
            card_index_of_first_click: 0,
            card_index_of_second_click: 0,
            my_player_number: 1,
            player_turn: 0,
            group_id: 0,
            error_text: String::new(),
        }
    }
}

} // verus!
