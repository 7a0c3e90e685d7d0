//! What the html templates ask for by name: texts, listeners and nodes, and
//! the small decisions behind the buttons of the start page.

use vstd::prelude::*;
use crate::divnicknamemod;
use crate::gamedatamod::GameData;
use crate::gamedatamod::GameMetadata;
use crate::rootrenderingcomponentmod::RootRenderingComponent;
use crate::text::decimal;
use crate::text::occurs_at;
use crate::text::starts_with_chars;
use crate::text::str_eq;
use crate::text::str_to_chars;
use crate::text::usize_to_string;
use crate::text::lemma_usize_decimal_len;
use crate::text::utf8_len;

verus! {

/// The `#` fragment that joins a group: `#p04.` and the group id.
pub open spec fn join_group_hash_spec(group_id: Seq<char>) -> Seq<char> {
    "#p04."@ + group_id
}

/// The group id that this player joined, as text: the websocket id of the
/// first player, or empty while there is no first player, while its id is 0
/// or when this player is the first player.
pub open spec fn group_id_joined_spec(gd: GameData) -> Seq<char> {
    let group_id: usize = if gd.players@.len() > 0 {
        gd.players@[0].ws_uid
    } else {
        0
    };
    if group_id == 0 || group_id == gd.my_ws_uid {
        Seq::empty()
    } else {
        decimal(group_id as nat)
    }
}

/// The texts of a player's own numbers: `my_points` is the decimal points
/// of player number `my_player_number` and a space, `player_turn` the
/// nickname of the player on turn, `players_count` the number of players
/// after the first and a space, `my_ws_uid` this player's websocket id.
pub proof fn lemma_function_string_numbers(
    rrc: RootRenderingComponent,
    cargo_pkg_version: Seq<char>,
    debug_text: Seq<char>,
)
    ensures
        1 <= rrc.game_data.my_player_number <= rrc.game_data.players@.len() ==> function_string_spec(
            rrc,
            "my_points"@,
            cargo_pkg_version,
            debug_text,
        ) == decimal(rrc.game_data.players@[rrc.game_data.my_player_number - 1].points as nat)
            + " "@,
        1 <= rrc.game_data.player_turn <= rrc.game_data.players@.len() ==> function_string_spec(
            rrc,
            "player_turn"@,
            cargo_pkg_version,
            debug_text,
        ) == rrc.game_data.players@[rrc.game_data.player_turn - 1].nickname@,
        rrc.game_data.players@.len() >= 1 ==> function_string_spec(
            rrc,
            "players_count"@,
            cargo_pkg_version,
            debug_text,
        ) == decimal((rrc.game_data.players@.len() - 1) as nat) + " "@,
        function_string_spec(rrc, "my_ws_uid"@, cargo_pkg_version, debug_text) == decimal(
            rrc.game_data.my_ws_uid as nat,
        ),
{
    reveal_strlit("my_nickname");
    reveal_strlit("blink_or_not_nickname");
    reveal_strlit("blink_or_not_group_id");
    reveal_strlit("my_ws_uid");
    reveal_strlit("players_count");
    reveal_strlit("game_name");
    reveal_strlit("group_id_joined");
    reveal_strlit("url_to_join");
    reveal_strlit("cargo_pkg_version");
    reveal_strlit("debug_text");
    reveal_strlit("gameboard_btn");
    reveal_strlit("card_moniker_first");
    reveal_strlit("card_moniker_second");
    reveal_strlit("my_points");
    reveal_strlit("player_turn");
    assert("my_ws_uid"@ != "my_nickname"@) by { assert("my_ws_uid"@.len() != "my_nickname"@.len()); }
    assert("my_ws_uid"@ != "blink_or_not_nickname"@) by { assert("my_ws_uid"@.len() != "blink_or_not_nickname"@.len()); }
    assert("my_ws_uid"@ != "blink_or_not_group_id"@) by { assert("my_ws_uid"@.len() != "blink_or_not_group_id"@.len()); }
    assert("players_count"@ != "my_nickname"@) by { assert("players_count"@.len() != "my_nickname"@.len()); }
    assert("players_count"@ != "blink_or_not_nickname"@) by { assert("players_count"@.len() != "blink_or_not_nickname"@.len()); }
    assert("players_count"@ != "blink_or_not_group_id"@) by { assert("players_count"@.len() != "blink_or_not_group_id"@.len()); }
    assert("players_count"@ != "my_ws_uid"@) by { assert("players_count"@.len() != "my_ws_uid"@.len()); }
    assert("my_points"@ != "my_nickname"@) by { assert("my_points"@.len() != "my_nickname"@.len()); }
    assert("my_points"@ != "blink_or_not_nickname"@) by { assert("my_points"@.len() != "blink_or_not_nickname"@.len()); }
    assert("my_points"@ != "blink_or_not_group_id"@) by { assert("my_points"@.len() != "blink_or_not_group_id"@.len()); }
    assert("my_points"@ != "my_ws_uid"@) by { assert("my_points"@[3] != "my_ws_uid"@[3]); }
    assert("my_points"@ != "players_count"@) by { assert("my_points"@.len() != "players_count"@.len()); }
    assert("my_points"@ != "game_name"@) by { assert("my_points"@[0] != "game_name"@[0]); }
    assert("my_points"@ != "group_id_joined"@) by { assert("my_points"@.len() != "group_id_joined"@.len()); }
    assert("my_points"@ != "url_to_join"@) by { assert("my_points"@.len() != "url_to_join"@.len()); }
    assert("my_points"@ != "cargo_pkg_version"@) by { assert("my_points"@.len() != "cargo_pkg_version"@.len()); }
    assert("my_points"@ != "debug_text"@) by { assert("my_points"@.len() != "debug_text"@.len()); }
    assert("my_points"@ != "gameboard_btn"@) by { assert("my_points"@.len() != "gameboard_btn"@.len()); }
    assert("my_points"@ != "card_moniker_first"@) by { assert("my_points"@.len() != "card_moniker_first"@.len()); }
    assert("my_points"@ != "card_moniker_second"@) by { assert("my_points"@.len() != "card_moniker_second"@.len()); }
    assert("player_turn"@ != "my_nickname"@) by { assert("player_turn"@[0] != "my_nickname"@[0]); }
    assert("player_turn"@ != "blink_or_not_nickname"@) by { assert("player_turn"@.len() != "blink_or_not_nickname"@.len()); }
    assert("player_turn"@ != "blink_or_not_group_id"@) by { assert("player_turn"@.len() != "blink_or_not_group_id"@.len()); }
    assert("player_turn"@ != "my_ws_uid"@) by { assert("player_turn"@.len() != "my_ws_uid"@.len()); }
    assert("player_turn"@ != "players_count"@) by { assert("player_turn"@.len() != "players_count"@.len()); }
    assert("player_turn"@ != "game_name"@) by { assert("player_turn"@.len() != "game_name"@.len()); }
    assert("player_turn"@ != "group_id_joined"@) by { assert("player_turn"@.len() != "group_id_joined"@.len()); }
    assert("player_turn"@ != "url_to_join"@) by { assert("player_turn"@[0] != "url_to_join"@[0]); }
    assert("player_turn"@ != "cargo_pkg_version"@) by { assert("player_turn"@.len() != "cargo_pkg_version"@.len()); }
    assert("player_turn"@ != "debug_text"@) by { assert("player_turn"@.len() != "debug_text"@.len()); }
    assert("player_turn"@ != "gameboard_btn"@) by { assert("player_turn"@.len() != "gameboard_btn"@.len()); }
    assert("player_turn"@ != "card_moniker_first"@) by { assert("player_turn"@.len() != "card_moniker_first"@.len()); }
    assert("player_turn"@ != "card_moniker_second"@) by { assert("player_turn"@.len() != "card_moniker_second"@.len()); }
    assert("player_turn"@ != "my_points"@) by { assert("player_turn"@.len() != "my_points"@.len()); }
}

/// The group id text is the first player's websocket id in decimal whenever
/// there is a first player whose id is neither 0 nor this player's own, and
/// empty otherwise; the group id box blinks exactly when it is empty.
pub proof fn lemma_group_id_joined(gd: GameData)
    ensures
        gd.players@.len() > 0 && gd.players@[0].ws_uid != 0 && gd.players@[0].ws_uid
            != gd.my_ws_uid ==> group_id_joined_spec(gd) == decimal(gd.players@[0].ws_uid as nat)
            && group_id_joined_spec(gd).len() > 0,
        !(gd.players@.len() > 0 && gd.players@[0].ws_uid != 0 && gd.players@[0].ws_uid
            != gd.my_ws_uid) ==> group_id_joined_spec(gd).len() == 0,
{
    if gd.players@.len() > 0 {
        let n = gd.players@[0].ws_uid as nat;
        if n >= 10 {
            assert(decimal(n).len() == decimal(n / 10).len() + 1);
        }
    }
}

/// The text for the html template that shows the group id this player
/// joined; empty if there is none.
pub fn group_id_joined(rrc: &RootRenderingComponent) -> (r: String)
    ensures
        r@ == group_id_joined_spec(rrc.game_data),
        ({
            let gd = rrc.game_data;
            &&& gd.players@.len() > 0 && gd.players@[0].ws_uid != 0 && gd.players@[0].ws_uid
                != gd.my_ws_uid ==> r@ == decimal(gd.players@[0].ws_uid as nat)
            &&& !(gd.players@.len() > 0 && gd.players@[0].ws_uid != 0 && gd.players@[0].ws_uid
                != gd.my_ws_uid) ==> r@.len() == 0
        }),
{
    proof {
        lemma_group_id_joined(rrc.game_data);
    }
    let group_id: usize = if rrc.game_data.players.len() > 0 {
        rrc.game_data.players[0].ws_uid
    } else {
        0
    };
    if group_id == 0 || group_id == rrc.game_data.my_ws_uid {
        String::new()
    } else {
        usize_to_string(group_id)
    }
}

/// The class of the group id box: it blinks while no group was joined.
pub fn blink_or_not_group_id(rrc: &RootRenderingComponent) -> (r: String)
    ensures
        group_id_joined_spec(rrc.game_data).len() == 0 ==> r@ == "blink"@,
        group_id_joined_spec(rrc.game_data).len() != 0 ==> r@ == ""@,
        ({
            let gd = rrc.game_data;
            &&& gd.players@.len() > 0 && gd.players@[0].ws_uid != 0 && gd.players@[0].ws_uid
                != gd.my_ws_uid ==> r@ == ""@
            &&& !(gd.players@.len() > 0 && gd.players@[0].ws_uid != 0 && gd.players@[0].ws_uid
                != gd.my_ws_uid) ==> r@ == "blink"@
        }),
{
    proof {
        lemma_group_id_joined(rrc.game_data);
    }
    let g = group_id_joined(rrc);
    if g.as_str().is_empty() {
        String::from_str("blink")
    } else {
        String::from_str("")
    }
}

/// The `#` fragment that joins the group with the given id.
pub fn join_group_hash(group_id: &str) -> (r: String)
    ensures
        r@ == join_group_hash_spec(group_id@),
{
    let mut h = String::from_str("#p04.");
    h.append(group_id);
    h
}

/// Whether opening a local page puts the new address in the browser history:
/// only from the first address of a player, which has no `#` fragment for the
/// first player and is `#p03.` followed by the group for the others.
pub fn puts_url_in_history(href_hash: &str) -> (r: bool)
    ensures
        r == (href_hash@.len() == 0 || occurs_at(href_hash@, "#p03."@, 0)),
{
    if href_hash.is_empty() {
        return true;
    }
    let s = str_to_chars(href_hash);
    let p = str_to_chars("#p03.");
    starts_with_chars(&s, &p)
}

/// The address that the QR code of this player's group stands for.
pub open spec fn qrcode_link_spec(my_ws_uid: usize) -> Seq<char> {
    "https://bestia.dev/mem6/#p03."@ + decimal(my_ws_uid as nat)
}

/// The address that other players open to join this player's group.
pub open spec fn url_to_join_spec(my_ws_uid: usize) -> Seq<char> {
    "bestia.dev/mem6/#p03."@ + decimal(my_ws_uid as nat)
}

fn append_decimal(s: &mut String, n: usize)
    ensures
        final(s)@ == old(s)@ + decimal(n as nat),
{
    let d = usize_to_string(n);
    s.append(d.as_str());
}

/// The address that the QR code of this player's group stands for.
pub fn qrcode_link(my_ws_uid: usize) -> (r: String)
    ensures
        r@ == qrcode_link_spec(my_ws_uid),
{
    let mut s = String::from_str("https://bestia.dev/mem6/#p03.");
    append_decimal(&mut s, my_ws_uid);
    s
}

/// The address that other players open to join this player's group.
pub fn url_to_join(my_ws_uid: usize) -> (r: String)
    ensures
        r@ == url_to_join_spec(my_ws_uid),
{
    let mut s = String::from_str("bestia.dev/mem6/#p03.");
    append_decimal(&mut s, my_ws_uid);
    s
}


/// The moniker of the card at `card_index` of the grid, by the card's number.
pub open spec fn card_moniker_spec(gd: GameData, card_index: usize) -> Seq<char> {
    gd.game_config->Some_0.card_moniker@[gd.card_grid_data@[card_index as int].card_number_and_img_src as int]@
}

/// Whether the moniker of the card at `card_index` can be read: the game
/// configuration is there and both indices are in range.
pub open spec fn has_card_moniker(gd: GameData, card_index: usize) -> bool {
    &&& gd.game_config is Some
    &&& card_index < gd.card_grid_data@.len()
    &&& gd.card_grid_data@[card_index as int].card_number_and_img_src
        < gd.game_config->Some_0.card_moniker@.len()
}

/// Whether the text named `sx` can be made from the data: the names that read
/// a player or a card need them to be there.
pub open spec fn function_string_defined(gd: GameData, sx: Seq<char>) -> bool {
    &&& sx == "players_count"@ ==> gd.players@.len() >= 1
    &&& sx == "card_moniker_first"@ ==> has_card_moniker(gd, gd.card_index_of_first_click)
    &&& sx == "card_moniker_second"@ ==> has_card_moniker(gd, gd.card_index_of_second_click)
    &&& sx == "my_points"@ ==> 1 <= gd.my_player_number <= gd.players@.len()
    &&& sx == "player_turn"@ ==> 1 <= gd.player_turn <= gd.players@.len()
}

/// Whether `sx` names a text that html templates can ask for; any other
/// name gives an error text.
pub open spec fn is_function_string_name(sx: Seq<char>) -> bool {
    ||| sx == "my_nickname"@
    ||| sx == "blink_or_not_nickname"@
    ||| sx == "blink_or_not_group_id"@
    ||| sx == "my_ws_uid"@
    ||| sx == "players_count"@
    ||| sx == "game_name"@
    ||| sx == "group_id_joined"@
    ||| sx == "url_to_join"@
    ||| sx == "cargo_pkg_version"@
    ||| sx == "debug_text"@
    ||| sx == "gameboard_btn"@
    ||| sx == "card_moniker_first"@
    ||| sx == "card_moniker_second"@
    ||| sx == "my_points"@
    ||| sx == "player_turn"@
}

/// A name that no text has gives the error text that names it.
pub proof fn lemma_unknown_function_string(
    rrc: RootRenderingComponent,
    sx: Seq<char>,
    cargo_pkg_version: Seq<char>,
    debug_text: Seq<char>,
)
    requires
        !is_function_string_name(sx),
    ensures
        function_string_spec(rrc, sx, cargo_pkg_version, debug_text)
            == "Error: Unrecognized call_function_string: "@ + sx,
{
}

/// Whether `sx` names a text that html templates can ask for.
pub fn function_string_name_is_known(sx: &str) -> (r: bool)
    ensures
        r == is_function_string_name(sx@),
{
    str_eq(sx, "my_nickname")
        || str_eq(sx, "blink_or_not_nickname")
        || str_eq(sx, "blink_or_not_group_id")
        || str_eq(sx, "my_ws_uid")
        || str_eq(sx, "players_count")
        || str_eq(sx, "game_name")
        || str_eq(sx, "group_id_joined")
        || str_eq(sx, "url_to_join")
        || str_eq(sx, "cargo_pkg_version")
        || str_eq(sx, "debug_text")
        || str_eq(sx, "gameboard_btn")
        || str_eq(sx, "card_moniker_first")
        || str_eq(sx, "card_moniker_second")
        || str_eq(sx, "my_points")
        || str_eq(sx, "player_turn")
}

/// The text that the html template asks for by the name `sx`.
pub open spec fn function_string_spec(
    rrc: RootRenderingComponent,
    sx: Seq<char>,
    cargo_pkg_version: Seq<char>,
    debug_text: Seq<char>,
) -> Seq<char> {
    let gd = rrc.game_data;
    if sx == "my_nickname"@ {
        gd.my_nickname@
    } else if sx == "blink_or_not_nickname"@ {
        if gd.my_nickname@.len() == 0 { "blink"@ } else { ""@ }
    } else if sx == "blink_or_not_group_id"@ {
        if group_id_joined_spec(gd).len() == 0 { "blink"@ } else { ""@ }
    } else if sx == "my_ws_uid"@ {
        decimal(gd.my_ws_uid as nat)
    } else if sx == "players_count"@ {
        decimal((gd.players@.len() - 1) as nat) + " "@
    } else if sx == "game_name"@ {
        gd.game_name@
    } else if sx == "group_id_joined"@ {
        group_id_joined_spec(gd)
    } else if sx == "url_to_join"@ {
        url_to_join_spec(gd.my_ws_uid)
    } else if sx == "cargo_pkg_version"@ {
        cargo_pkg_version
    } else if sx == "debug_text"@ {
        debug_text
    } else if sx == "gameboard_btn"@ {
        "btn"@
    } else if sx == "card_moniker_first"@ {
        card_moniker_spec(gd, gd.card_index_of_first_click)
    } else if sx == "card_moniker_second"@ {
        card_moniker_spec(gd, gd.card_index_of_second_click)
    } else if sx == "my_points"@ {
        decimal(gd.players@[gd.my_player_number - 1].points as nat) + " "@
    } else if sx == "player_turn"@ {
        gd.players@[gd.player_turn - 1].nickname@
    } else {
        "Error: Unrecognized call_function_string: "@ + sx
    }
}

fn has_card_moniker_exec(gd: &GameData, card_index: usize) -> (r: bool)
    ensures
        r == has_card_moniker(*gd, card_index),
{
    match &gd.game_config {
        Some(gc) => card_index < gd.card_grid_data.len()
            && gd.card_grid_data[card_index].card_number_and_img_src < gc.card_moniker.len(),
        None => false,
    }
}

/// Whether the text named `sx` can be made from the game data, which
/// `call_function_string` needs.
pub fn function_string_is_defined(gd: &GameData, sx: &str) -> (r: bool)
    ensures
        r == function_string_defined(*gd, sx@),
{
    proof {
        reveal_strlit("players_count");
        reveal_strlit("card_moniker_first");
        reveal_strlit("card_moniker_second");
        reveal_strlit("my_points");
        reveal_strlit("player_turn");
        assert("players_count"@.len() == 13);
        assert("card_moniker_first"@.len() == 18);
        assert("card_moniker_second"@.len() == 19);
        assert("my_points"@.len() == 9);
        assert("player_turn"@.len() == 11);
    }
    if str_eq(sx, "players_count") {
        gd.players.len() >= 1
    } else if str_eq(sx, "card_moniker_first") {
        has_card_moniker_exec(gd, gd.card_index_of_first_click)
    } else if str_eq(sx, "card_moniker_second") {
        has_card_moniker_exec(gd, gd.card_index_of_second_click)
    } else if str_eq(sx, "my_points") {
        1 <= gd.my_player_number && gd.my_player_number <= gd.players.len()
    } else if str_eq(sx, "player_turn") {
        1 <= gd.player_turn && gd.player_turn <= gd.players.len()
    } else {
        true
    }
}

fn card_moniker(gd: &GameData, card_index: usize) -> (r: String)
    requires
        has_card_moniker(*gd, card_index),
    ensures
        r@ == card_moniker_spec(*gd, card_index),
{
    match &gd.game_config {
        Some(gc) => {
            let n = gd.card_grid_data[card_index].card_number_and_img_src;
            gc.card_moniker[n].clone()
        },
        None => String::new(),
    }
}

fn decimal_and_space(n: usize) -> (r: String)
    ensures
        r@ == decimal(n as nat) + " "@,
{
    let mut s = usize_to_string(n);
    s.append(" ");
    s
}

impl RootRenderingComponent {
    /// The name of the html template of the page shown now.
    pub fn get_local_route(&self) -> (r: String)
        ensures
            r@ == self.local_route@,
    {
        self.local_route.clone()
    }

    /// Sets the name of the html template of the page shown now.
    pub fn set_local_route(&mut self, local_route: &str)
        ensures
            final(self).local_route@ == local_route@,
            *final(self) == (RootRenderingComponent { local_route: final(self).local_route, ..*old(self) }),
    {
        self.local_route = String::from_str(local_route);
    }

    /// The html template of the page shown now.
    pub fn get_html_template(&self) -> (r: String)
        ensures
            r@ == self.html_template@,
    {
        self.html_template.clone()
    }

    /// Sets the html template of the page shown now.
    pub fn set_html_template(&mut self, html_template: &str)
        ensures
            final(self).html_template@ == html_template@,
            *final(self) == (RootRenderingComponent { html_template: final(self).html_template, ..*old(self) }),
    {
        self.html_template = String::from_str(html_template);
    }

    /// The text that an html template asks for by the name `sx`. The version
    /// of the program and the debug text kept in the session storage are
    /// handed in; an unknown name gives an error text that names it.
    pub fn call_function_string(&self, sx: &str, cargo_pkg_version: &str, debug_text: &str) -> (r:
        String)
        requires
            function_string_defined(self.game_data, sx@),
        ensures
            r@ == function_string_spec(*self, sx@, cargo_pkg_version@, debug_text@),
            sx@ == "my_points"@ ==> r@ == decimal(
                self.game_data.players@[self.game_data.my_player_number - 1].points as nat,
            ) + " "@,
            sx@ == "player_turn"@ ==> r@ == self.game_data.players@[self.game_data.player_turn
                - 1].nickname@,
            sx@ == "players_count"@ ==> r@ == decimal((self.game_data.players@.len() - 1) as nat)
                + " "@,
            sx@ == "my_ws_uid"@ ==> r@ == decimal(self.game_data.my_ws_uid as nat),
    {
        proof {
            lemma_function_string_numbers(*self, cargo_pkg_version@, debug_text@);
        }
        let gd = &self.game_data;
        if str_eq(sx, "my_nickname") {
            gd.my_nickname.clone()
        } else if str_eq(sx, "blink_or_not_nickname") {
            divnicknamemod::blink_or_not_nickname(self)
        } else if str_eq(sx, "blink_or_not_group_id") {
            blink_or_not_group_id(self)
        } else if str_eq(sx, "my_ws_uid") {
            usize_to_string(gd.my_ws_uid)
        } else if str_eq(sx, "players_count") {
            decimal_and_space(gd.players.len() - 1)
        } else if str_eq(sx, "game_name") {
            gd.game_name.clone()
        } else if str_eq(sx, "group_id_joined") {
            group_id_joined(self)
        } else if str_eq(sx, "url_to_join") {
            url_to_join(gd.my_ws_uid)
        } else if str_eq(sx, "cargo_pkg_version") {
            String::from_str(cargo_pkg_version)
        } else if str_eq(sx, "debug_text") {
            String::from_str(debug_text)
        } else if str_eq(sx, "gameboard_btn") {
            String::from_str("btn")
        } else if str_eq(sx, "card_moniker_first") {
            card_moniker(gd, gd.card_index_of_first_click)
        } else if str_eq(sx, "card_moniker_second") {
            card_moniker(gd, gd.card_index_of_second_click)
        } else if str_eq(sx, "my_points") {
            decimal_and_space(gd.players[gd.my_player_number - 1].points)
        } else if str_eq(sx, "player_turn") {
            gd.players[gd.player_turn - 1].nickname.clone()
        } else {
            let mut e = String::from_str("Error: Unrecognized call_function_string: ");
            e.append(sx);
            e
        }
    }
}


/// What a listener named in an html template does.
pub enum ListenerAction {
    /// A key was released in the nickname box.
    NicknameOnKeyup,
    /// A key was released in the group id box.
    GroupIdOnKeyup,
    /// Open this address in a new browser tab.
    OpenNewTab(String),
    /// Open the local page with this `#` fragment.
    OpenNewLocalPage(String),
    /// Ask the group to send the game again.
    RejoinResync,
    /// Start the game with the chosen players and game.
    StartGame,
    /// Choose the next game of the list.
    GameTypeRight,
    /// Choose the previous game of the list.
    GameTypeLeft,
    /// Join the group whose id was typed in the group id box.
    JoinGroup,
    /// The drinking pause of this player ends.
    DrinkEnd,
    /// No listener has this name; the text says so.
    Unrecognized(String),
}

/// [`ListenerAction`] with its texts as character sequences.
pub enum ListenerActionView {
    NicknameOnKeyup,
    GroupIdOnKeyup,
    OpenNewTab(Seq<char>),
    OpenNewLocalPage(Seq<char>),
    RejoinResync,
    StartGame,
    GameTypeRight,
    GameTypeLeft,
    JoinGroup,
    DrinkEnd,
    Unrecognized(Seq<char>),
}

impl View for ListenerAction {
    type V = ListenerActionView;

    open spec fn view(&self) -> ListenerActionView {
        match self {
            ListenerAction::NicknameOnKeyup => ListenerActionView::NicknameOnKeyup,
            ListenerAction::GroupIdOnKeyup => ListenerActionView::GroupIdOnKeyup,
            ListenerAction::OpenNewTab(u) => ListenerActionView::OpenNewTab(u@),
            ListenerAction::OpenNewLocalPage(h) => ListenerActionView::OpenNewLocalPage(h@),
            ListenerAction::RejoinResync => ListenerActionView::RejoinResync,
            ListenerAction::StartGame => ListenerActionView::StartGame,
            ListenerAction::GameTypeRight => ListenerActionView::GameTypeRight,
            ListenerAction::GameTypeLeft => ListenerActionView::GameTypeLeft,
            ListenerAction::JoinGroup => ListenerActionView::JoinGroup,
            ListenerAction::DrinkEnd => ListenerActionView::DrinkEnd,
            ListenerAction::Unrecognized(t) => ListenerActionView::Unrecognized(t@),
        }
    }
}

/// The action of the listener named `sx`.
pub open spec fn listener_action_spec(sx: Seq<char>) -> ListenerActionView {
    if sx == "nickname_onkeyup"@ {
        ListenerActionView::NicknameOnKeyup
    } else if sx == "group_id_onkeyup"@ {
        ListenerActionView::GroupIdOnKeyup
    } else if sx == "open_youtube1"@ {
        ListenerActionView::OpenNewTab("https://www.youtube.com/watch?v=VQdhDw-hE8s"@)
    } else if sx == "open_youtube2"@ {
        ListenerActionView::OpenNewTab("https://www.youtube.com/watch?v=2RT9AzqEfLo"@)
    } else if sx == "open_menu"@ {
        ListenerActionView::OpenNewLocalPage("#p21"@)
    } else if sx == "rejoin_resync"@ {
        ListenerActionView::RejoinResync
    } else if sx == "back_to_game"@ {
        ListenerActionView::OpenNewLocalPage("#p11"@)
    } else if sx == "open_instructions"@ {
        ListenerActionView::OpenNewTab("#p08"@)
    } else if sx == "debug_log"@ {
        ListenerActionView::OpenNewTab("#p31"@)
    } else if sx == "start_a_group_onclick"@ || sx == "restart_game"@ {
        ListenerActionView::OpenNewLocalPage("#p02"@)
    } else if sx == "join_a_group_onclick"@ {
        ListenerActionView::OpenNewLocalPage("#p03"@)
    } else if sx == "choose_a_game_onclick"@ {
        ListenerActionView::OpenNewLocalPage("#p05"@)
    } else if sx == "start_game_onclick"@ {
        ListenerActionView::StartGame
    } else if sx == "game_type_right_onclick"@ {
        ListenerActionView::GameTypeRight
    } else if sx == "game_type_left_onclick"@ {
        ListenerActionView::GameTypeLeft
    } else if sx == "join_group_on_click"@ {
        ListenerActionView::JoinGroup
    } else if sx == "drink_end"@ {
        ListenerActionView::DrinkEnd
    } else {
        ListenerActionView::Unrecognized("Error: Unrecognized call_listener: "@ + sx)
    }
}

/// The action of the listener that an html template names `sx`.
pub fn listener_action(sx: &str) -> (r: ListenerAction)
    ensures
        r@ == listener_action_spec(sx@),
{
    if str_eq(sx, "nickname_onkeyup") {
        ListenerAction::NicknameOnKeyup
    } else if str_eq(sx, "group_id_onkeyup") {
        ListenerAction::GroupIdOnKeyup
    } else if str_eq(sx, "open_youtube1") {
        ListenerAction::OpenNewTab(String::from_str("https://www.youtube.com/watch?v=VQdhDw-hE8s"))
    } else if str_eq(sx, "open_youtube2") {
        ListenerAction::OpenNewTab(String::from_str("https://www.youtube.com/watch?v=2RT9AzqEfLo"))
    } else if str_eq(sx, "open_menu") {
        ListenerAction::OpenNewLocalPage(String::from_str("#p21"))
    } else if str_eq(sx, "rejoin_resync") {
        ListenerAction::RejoinResync
    } else if str_eq(sx, "back_to_game") {
        ListenerAction::OpenNewLocalPage(String::from_str("#p11"))
    } else if str_eq(sx, "open_instructions") {
        ListenerAction::OpenNewTab(String::from_str("#p08"))
    } else if str_eq(sx, "debug_log") {
        ListenerAction::OpenNewTab(String::from_str("#p31"))
    } else if str_eq(sx, "start_a_group_onclick") || str_eq(sx, "restart_game") {
        ListenerAction::OpenNewLocalPage(String::from_str("#p02"))
    } else if str_eq(sx, "join_a_group_onclick") {
        ListenerAction::OpenNewLocalPage(String::from_str("#p03"))
    } else if str_eq(sx, "choose_a_game_onclick") {
        ListenerAction::OpenNewLocalPage(String::from_str("#p05"))
    } else if str_eq(sx, "start_game_onclick") {
        ListenerAction::StartGame
    } else if str_eq(sx, "game_type_right_onclick") {
        ListenerAction::GameTypeRight
    } else if str_eq(sx, "game_type_left_onclick") {
        ListenerAction::GameTypeLeft
    } else if str_eq(sx, "join_group_on_click") {
        ListenerAction::JoinGroup
    } else if str_eq(sx, "drink_end") {
        ListenerAction::DrinkEnd
    } else {
        let mut e = String::from_str("Error: Unrecognized call_listener: ");
        e.append(sx);
        ListenerAction::Unrecognized(e)
    }
}

/// Which node an html template asks for by name.
pub enum FunctionNode {
    /// The grid of cards.
    DivGridContainer,
    /// The actions that the player can take now.
    DivPlayerAction,
    /// The QR code of this player's group.
    SvgQrcode,
    /// No node has this name; the text says so.
    Unrecognized(String),
}

/// [`FunctionNode`] with its text as a character sequence.
pub enum FunctionNodeView {
    DivGridContainer,
    DivPlayerAction,
    SvgQrcode,
    Unrecognized(Seq<char>),
}

impl View for FunctionNode {
    type V = FunctionNodeView;

    open spec fn view(&self) -> FunctionNodeView {
        match self {
            FunctionNode::DivGridContainer => FunctionNodeView::DivGridContainer,
            FunctionNode::DivPlayerAction => FunctionNodeView::DivPlayerAction,
            FunctionNode::SvgQrcode => FunctionNodeView::SvgQrcode,
            FunctionNode::Unrecognized(t) => FunctionNodeView::Unrecognized(t@),
        }
    }
}

/// The node that an html template names `sx`.
pub open spec fn function_node_spec(sx: Seq<char>) -> FunctionNodeView {
    if sx == "div_grid_container"@ {
        FunctionNodeView::DivGridContainer
    } else if sx == "div_player_action"@ {
        FunctionNodeView::DivPlayerAction
    } else if sx == "svg_qrcode"@ {
        FunctionNodeView::SvgQrcode
    } else {
        FunctionNodeView::Unrecognized("Error: Unrecognized call_function_node: "@ + sx)
    }
}

/// Which node an html template asks for by the name `sx`.
pub fn function_node(sx: &str) -> (r: FunctionNode)
    ensures
        r@ == function_node_spec(sx@),
{
    if str_eq(sx, "div_grid_container") {
        FunctionNode::DivGridContainer
    } else if str_eq(sx, "div_player_action") {
        FunctionNode::DivPlayerAction
    } else if str_eq(sx, "svg_qrcode") {
        FunctionNode::SvgQrcode
    } else {
        let mut e = String::from_str("Error: Unrecognized call_function_node: ");
        e.append(sx);
        FunctionNode::Unrecognized(e)
    }
}


/// The name of the game before position `i` when the list is walked forward,
/// the last game coming before the first.
pub open spec fn name_before(g: Seq<GameMetadata>, i: int) -> Seq<char> {
    if i == 0 {
        g.last().name@
    } else {
        g[i - 1].name@
    }
}

/// The first position from `i` on whose game comes after the game `cur` in
/// the forward walk.
pub open spec fn right_index_from(g: Seq<GameMetadata>, cur: Seq<char>, i: int) -> Option<int>
    decreases g.len() - i,
{
    if i < 0 || i >= g.len() {
        None
    } else if name_before(g, i) == cur {
        Some(i)
    } else {
        right_index_from(g, cur, i + 1)
    }
}

/// The name of the game after position `j` of the list, the first game
/// coming after the last, for the backward walk.
pub open spec fn name_after(g: Seq<GameMetadata>, j: int) -> Seq<char> {
    if j == g.len() - 1 {
        g[0].name@
    } else {
        g[j + 1].name@
    }
}

/// The first position from `j` down whose game comes before the game `cur`
/// in the backward walk.
pub open spec fn left_index_from(g: Seq<GameMetadata>, cur: Seq<char>, j: int) -> Option<int>
    decreases j + 1,
{
    if j < 0 || j >= g.len() {
        None
    } else if name_after(g, j) == cur {
        Some(j)
    } else {
        left_index_from(g, cur, j - 1)
    }
}

/// The game chosen after the right arrow: the game that follows the chosen
/// one in the list, going round from the last to the first; unchanged when
/// the chosen game is not in the list.
pub open spec fn game_after(g: Seq<GameMetadata>, cur: Seq<char>) -> Seq<char> {
    match right_index_from(g, cur, 0) {
        Some(i) => g[i].name@,
        None => cur,
    }
}

/// The game chosen after the left arrow: the game that comes before the
/// chosen one in the list, going round from the first to the last; unchanged
/// when the chosen game is not in the list.
pub open spec fn game_before(g: Seq<GameMetadata>, cur: Seq<char>) -> Seq<char> {
    match left_index_from(g, cur, g.len() - 1) {
        Some(j) => g[j].name@,
        None => cur,
    }
}

/// The list of games that can be chosen.
pub open spec fn games_list(gd: GameData) -> Seq<GameMetadata> {
    gd.games_metadata->Some_0.vec_game_metadata@
}

proof fn lemma_right_index_at(g: Seq<GameMetadata>, cur: Seq<char>, i: int, p: int)
    requires
        0 <= i <= p < g.len(),
        name_before(g, p) == cur,
        forall|q: int| i <= q < p ==> name_before(g, q) != cur,
    ensures
        right_index_from(g, cur, i) == Some(p),
    decreases p - i,
{
    if i < p {
        lemma_right_index_at(g, cur, i + 1, p);
    }
}

proof fn lemma_left_index_at(g: Seq<GameMetadata>, cur: Seq<char>, j: int, p: int)
    requires
        0 <= p <= j < g.len(),
        name_after(g, p) == cur,
        forall|q: int| p < q <= j ==> name_after(g, q) != cur,
    ensures
        left_index_from(g, cur, j) == Some(p),
    decreases j - p,
{
    if p < j {
        lemma_left_index_at(g, cur, j - 1, p);
    }
}

/// No two games of the list have the same name.
pub open spec fn distinct_names(g: Seq<GameMetadata>) -> bool {
    forall|i: int, j: int| 0 <= i < g.len() && 0 <= j < g.len() && i != j ==> g[i].name@ != g[j].name@
}

/// The right arrow chooses the game after the game at `k`, going round.
pub proof fn lemma_game_after_at(g: Seq<GameMetadata>, k: int)
    requires
        distinct_names(g),
        0 <= k < g.len(),
    ensures
        game_after(g, g[k].name@) == g[if k == g.len() - 1 { 0 } else { k + 1 }].name@,
{
    let n = g.len() as int;
    let i = if k == n - 1 { 0 } else { k + 1 };
    assert forall|q: int| 0 <= q < i implies name_before(g, q) != g[k].name@ by {
        if q == 0 {
            assert(g.last() == g[n - 1]);
        }
    }
    lemma_right_index_at(g, g[k].name@, 0, i);
}

/// The left arrow chooses the game before the game at `k`, going round.
pub proof fn lemma_game_before_at(g: Seq<GameMetadata>, k: int)
    requires
        distinct_names(g),
        0 <= k < g.len(),
    ensures
        game_before(g, g[k].name@) == g[if k == 0 { g.len() - 1 } else { k - 1 }].name@,
{
    let n = g.len() as int;
    let p = if k == 0 { n - 1 } else { k - 1 };
    assert forall|q: int| p < q <= n - 1 implies name_after(g, q) != g[k].name@ by {}
    lemma_left_index_at(g, g[k].name@, n - 1, p);
}

/// With games of distinct names, the left arrow undoes the right arrow: the
/// game chosen before comes back.
pub proof fn lemma_right_then_left(g: Seq<GameMetadata>, cur: Seq<char>)
    requires
        distinct_names(g),
        exists|k: int| 0 <= k < g.len() && g[k].name@ == cur,
    ensures
        game_before(g, game_after(g, cur)) == cur,
{
    let k = choose|k: int| 0 <= k < g.len() && g[k].name@ == cur;
    lemma_game_after_at(g, k);
    let i = if k == g.len() - 1 { 0 } else { k + 1 };
    lemma_game_before_at(g, i);
}

/// With games of distinct names, the right arrow undoes the left arrow: the
/// game chosen before comes back.
pub proof fn lemma_left_then_right(g: Seq<GameMetadata>, cur: Seq<char>)
    requires
        distinct_names(g),
        exists|k: int| 0 <= k < g.len() && g[k].name@ == cur,
    ensures
        game_after(g, game_before(g, cur)) == cur,
{
    let k = choose|k: int| 0 <= k < g.len() && g[k].name@ == cur;
    lemma_game_before_at(g, k);
    let p = if k == 0 { g.len() - 1 } else { k - 1 };
    lemma_game_after_at(g, p);
}

fn right_index(v: &Vec<GameMetadata>, cur: &String) -> (r: Option<usize>)
    requires
        v@.len() > 0,
    ensures
        r is None ==> right_index_from(v@, cur@, 0) is None,
        r matches Some(i) ==> right_index_from(v@, cur@, 0) == Some(i as int) && i < v@.len(),
{
    let n = v.len();
    let mut i: usize = 0;
    while i < n
        invariant
            n == v@.len(),
            n > 0,
            i <= n,
            right_index_from(v@, cur@, 0) == right_index_from(v@, cur@, i as int),
        decreases n - i,
    {
        let before: usize = if i == 0 { n - 1 } else { i - 1 };
        if *cur == v[before].name {
            return Some(i);
        }
        i = i + 1;
    }
    None
}

fn left_index(v: &Vec<GameMetadata>, cur: &String) -> (r: Option<usize>)
    requires
        v@.len() > 0,
    ensures
        r is None ==> left_index_from(v@, cur@, v@.len() - 1) is None,
        r matches Some(j) ==> left_index_from(v@, cur@, v@.len() - 1) == Some(j as int) && j
            < v@.len(),
{
    let n = v.len();
    let mut k: usize = n;
    while k > 0
        invariant
            n == v@.len(),
            n > 0,
            k <= n,
            left_index_from(v@, cur@, n - 1) == left_index_from(v@, cur@, k - 1),
        decreases k,
    {
        let j = k - 1;
        let after: usize = if j == n - 1 { 0 } else { j + 1 };
        if *cur == v[after].name {
            return Some(j);
        }
        k = j;
    }
    None
}

/// The right arrow of the game choice: the next game of the list is chosen.
/// Returns whether the choice changed, so that the page is drawn again.
pub fn game_type_right_onclick(gd: &mut GameData) -> (changed: bool)
    requires
        old(gd).games_metadata is Some,
        games_list(*old(gd)).len() > 0,
    ensures
        changed == right_index_from(games_list(*old(gd)), old(gd).game_name@, 0) is Some,
        final(gd).game_name@ == game_after(games_list(*old(gd)), old(gd).game_name@),
        *final(gd) == (GameData { game_name: final(gd).game_name, ..*old(gd) }),
{
    let name = match &gd.games_metadata {
        Some(gm) => match right_index(&gm.vec_game_metadata, &gd.game_name) {
            Some(i) => Some(gm.vec_game_metadata[i].name.clone()),
            None => None,
        },
        None => None,
    };
    match name {
        Some(nm) => {
            gd.game_name = nm;
            true
        },
        None => false,
    }
}

/// The left arrow of the game choice: the previous game of the list is
/// chosen. Returns whether the choice changed, so that the page is drawn
/// again.
pub fn game_type_left_onclick(gd: &mut GameData) -> (changed: bool)
    requires
        old(gd).games_metadata is Some,
        games_list(*old(gd)).len() > 0,
    ensures
        changed == left_index_from(
            games_list(*old(gd)),
            old(gd).game_name@,
            games_list(*old(gd)).len() - 1,
        ) is Some,
        final(gd).game_name@ == game_before(games_list(*old(gd)), old(gd).game_name@),
        *final(gd) == (GameData { game_name: final(gd).game_name, ..*old(gd) }),
{
    let name = match &gd.games_metadata {
        Some(gm) => match left_index(&gm.vec_game_metadata, &gd.game_name) {
            Some(j) => Some(gm.vec_game_metadata[j].name.clone()),
            None => None,
        },
        None => None,
    };
    match name {
        Some(nm) => {
            gd.game_name = nm;
            true
        },
        None => false,
    }
}


/// The svg path that `qrcode53bytes` draws for the QR code of `link` in a
/// `width` by `height` image.
pub uninterp spec fn qr_svg_path(link: Seq<char>, width: usize, height: usize) -> Seq<char>;

/// `qrcode53bytes::Qr::new` on `link`, then
/// `qrcode53bytes::SvgDodrioRenderer::new(width, height).render` on the QR
/// code. Both are deterministic, so the drawn path is a function of the
/// three arguments, named `qr_svg_path`. `Qr::new` asserts that the encoded
/// text fits in the 53 data bytes of the version 3 QR code, hence the bound
/// on the link; within it, its only error comes when the module layout is
/// incomplete, and that layout is fixed by version 3 whatever the link
/// holds, so it returns `Ok`. The renderer multiplies cell sizes, hence the
/// bounds on the dimensions.
#[verifier::external_body]
fn qr_svg_for_link(link: &str, width: usize, height: usize) -> (r: Option<String>)
    requires
        utf8_len(link@) <= 53,
        width <= 1_000_000,
        height <= 1_000_000,
    ensures
        r is Some,
        r matches Some(svg) ==> svg@ == qr_svg_path(link@, width, height),
{
    match qrcode53bytes::Qr::new(link) {
        Ok(qr) => Some(qrcode53bytes::SvgDodrioRenderer::new(width, height).render(&qr)),
        Err(_) => None,
    }
}

/// The width and height of the QR code image, in pixels.
pub const QRCODE_SIZE: usize = 222;

/// The svg template of the QR code that other players scan to join this
/// player's group: the link to the group drawn as a QR code.
pub fn svg_qrcode_template(rrc: &RootRenderingComponent) -> (r: String)
    ensures
        r@ == qr_svg_path(qrcode_link_spec(rrc.game_data.my_ws_uid), QRCODE_SIZE, QRCODE_SIZE),
{
    let link = qrcode_link(rrc.game_data.my_ws_uid);
    proof {
        let d = decimal(rrc.game_data.my_ws_uid as nat);
        lemma_usize_decimal_len(rrc.game_data.my_ws_uid);
        reveal_strlit("https://bestia.dev/mem6/#p03.");
        let p = "https://bestia.dev/mem6/#p03."@;
        assert(vstd::utf8::is_ascii_chars(p));
        vstd::utf8::is_ascii_chars_concat(p + d, p, d);
        vstd::utf8::is_ascii_chars_encode_utf8(p + d);
    }
    match qr_svg_for_link(link.as_str(), QRCODE_SIZE, QRCODE_SIZE) {
        Some(svg) => svg,
        None => String::new(),
    }
}

/// What follows the end of a drinking pause.
#[derive(Clone, Copy, Debug, PartialEq, Eq, Structural)]
pub enum DrinkEndAction {
    /// All cards are up for good: the game is over, and the group is told.
    GameOver,
    /// Cards are still down: the turn passes on.
    TakeTurn,
}

/// The end of a drinking pause: the game is over when all cards are up for
/// good, else the turn passes on.
pub fn drink_end_action(all_permanently: bool) -> (r: DrinkEndAction)
    ensures
        all_permanently ==> r == DrinkEndAction::GameOver,
        !all_permanently ==> r == DrinkEndAction::TakeTurn,
{
    if all_permanently {
        DrinkEndAction::GameOver
    } else {
        DrinkEndAction::TakeTurn
    }
}

} // verus!
