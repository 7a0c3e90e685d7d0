//! The root of the page: all the data that the game logic and the rendering
//! share.

use vstd::prelude::*;
use crate::gamedatamod::GameData;
use crate::gamedatamod::GameStatus;

verus! {

/// What the page knows of the web: where it was loaded from and whom its
/// messages go to.
pub struct WebData {
    /// The address of the page, without the `#` part.
    pub href: String,
    /// This player's websocket id.
    pub my_ws_uid: usize,
    /// The websocket ids of the receivers of this player's messages, as JSON.
    pub msg_receivers: String,
}

/// All the data needed for the play logic and the rendering.
pub struct RootRenderingComponent {
    /// The game data.
    pub game_data: GameData,
    /// What the page knows of the web.
    pub web_data: WebData,
    /// The name of the html template of the page shown now.
    pub local_route: String,
    /// The html template fetched for the page shown now.
    pub html_template: String,
    /// The videos that can be shown.
    pub videos: Vec<String>,
}


impl RootRenderingComponent {
    /// The root of a page just opened by the player with this websocket id.
    pub fn new(my_ws_uid: usize) -> (rrc: RootRenderingComponent)
        ensures
            rrc.game_data.is_new(my_ws_uid),
            rrc.web_data.my_ws_uid == my_ws_uid,
            rrc.web_data.href@ == Seq::<char>::empty(),
            rrc.web_data.msg_receivers@ == Seq::<char>::empty(),
            rrc.local_route@ == Seq::<char>::empty(),
            rrc.html_template@ == Seq::<char>::empty(),
            rrc.videos@.len() == 0,
    {
        RootRenderingComponent {
            game_data: GameData::new(my_ws_uid),
            web_data: WebData {
                href: String::new(),
                my_ws_uid,
                msg_receivers: String::new(),
            },
            local_route: String::new(),
            html_template: String::new(),
            videos: Vec::new(),
        }
    }

    /// Resets the game data to play again: no cards and no clicks, no players,
    /// the start page, the first game chosen and nothing asked for, this
    /// player as player 1 and nobody on turn, no game configuration.
    pub fn reset(&mut self)
        ensures
            final(self).game_data.card_grid_data@.len() == 0,
            final(self).game_data.players@.len() == 0,
            final(self).game_data.game_name@ == "alphabet"@,
            final(self).game_data.asked_game_name@ == Seq::<char>::empty(),
            *final(self) == (RootRenderingComponent {
                game_data: GameData {
                    card_grid_data: final(self).game_data.card_grid_data,
                    card_index_of_first_click: 0,
                    card_index_of_second_click: 0,
                    players: final(self).game_data.players,
                    game_status: GameStatus::StatusStartPage,
                    game_name: final(self).game_data.game_name,
                    asked_game_name: final(self).game_data.asked_game_name,
                    my_player_number: 1,
                    player_turn: 0,
                    game_config: None,
                    ..old(self).game_data
                },
                ..*old(self)
            }),
    {
        self.game_data.card_grid_data = GameData::prepare_for_empty();
        self.game_data.card_index_of_first_click = 0;
        self.game_data.card_index_of_second_click = 0;
        self.game_data.players.clear();
        self.game_data.game_status = GameStatus::StatusStartPage;
        self.game_data.game_name = String::from_str("alphabet");
        self.game_data.asked_game_name = String::new();
        self.game_data.my_player_number = 1;
        self.game_data.player_turn = 0;
        self.game_data.game_config = None;
    }
}

} // verus!
