//! The step of the game where the player on turn clicks the first card.

use vstd::prelude::*;
use crate::gamedatamod::CardGridItem;
use crate::gamedatamod::CardStatusCardFace;
use crate::gamedatamod::GameData;
use crate::gamedatamod::GameStatus;
use crate::text::char_utf8_len;
use crate::text::lemma_utf8_len_take;
use crate::text::parse_usize_spec;
use crate::text::str_to_chars;
use crate::text::string_from_chars;
use crate::text::utf8_len;

verus! {

/// The card with its face down if it was up only for this turn.
pub open spec fn flipped_back(c: CardGridItem) -> CardGridItem {
    if c.status == CardStatusCardFace::UpTemporary {
        CardGridItem { status: CardStatusCardFace::Down, ..c }
    } else {
        c
    }
}

/// The grid with every card that was up for this turn turned face down.
pub open spec fn flipped_back_grid(grid: Seq<CardGridItem>) -> Seq<CardGridItem> {
    grid.map_values(|c: CardGridItem| flipped_back(c))
}

/// Turns face down every card that is up only for this turn, and forgets the
/// cards clicked in this turn.
pub fn flip_back(gd: &mut GameData)
    ensures
        final(gd).card_grid_data@ == flipped_back_grid(old(gd).card_grid_data@),
        final(gd).card_grid_data@.len() == old(gd).card_grid_data@.len(),
        forall|i: int|
            0 <= i < old(gd).card_grid_data@.len() ==> {
                &&& (#[trigger] final(gd).card_grid_data@[i]).card_number_and_img_src
                    == old(gd).card_grid_data@[i].card_number_and_img_src
                &&& final(gd).card_grid_data@[i].card_index_and_id == old(gd).card_grid_data@[i].card_index_and_id
                &&& old(gd).card_grid_data@[i].status == CardStatusCardFace::UpTemporary
                    ==> final(gd).card_grid_data@[i].status == CardStatusCardFace::Down
                &&& old(gd).card_grid_data@[i].status != CardStatusCardFace::UpTemporary
                    ==> final(gd).card_grid_data@[i].status == old(gd).card_grid_data@[i].status
            },
        final(gd).card_index_of_first_click == 0,
        final(gd).card_index_of_second_click == 0,
        *final(gd) == (GameData {
            card_grid_data: final(gd).card_grid_data,
            card_index_of_first_click: 0,
            card_index_of_second_click: 0,
            ..*old(gd)
        }),
{
    let n = gd.card_grid_data.len();
    let mut i: usize = 0;
    while i < n
        invariant
            n == gd.card_grid_data@.len(),
            n == old(gd).card_grid_data@.len(),
            i <= n,
            forall|j: int| 0 <= j < i ==> #[trigger] gd.card_grid_data@[j] == flipped_back(
                old(gd).card_grid_data@[j],
            ),
            forall|j: int| i <= j < n ==> #[trigger] gd.card_grid_data@[j] == old(gd).card_grid_data@[j],
            *gd == (GameData { card_grid_data: gd.card_grid_data, ..*old(gd) }),
        decreases n - i,
    {
        let c = gd.card_grid_data[i];
        if c.status == CardStatusCardFace::UpTemporary {
            gd.card_grid_data.set(i, CardGridItem { status: CardStatusCardFace::Down, ..c });
        }
        i = i + 1;
    }
    assert(gd.card_grid_data@ =~= flipped_back_grid(old(gd).card_grid_data@));
    proof {
        lemma_flip_back_keeps_cards(old(gd).card_grid_data@);
    }
    gd.card_index_of_first_click = 0;
    gd.card_index_of_second_click = 0;
}

/// After `flip_back` no card is up only for this turn; the other cards keep
/// their face; and flipping back again changes nothing.
pub proof fn lemma_flip_back_grid(grid: Seq<CardGridItem>)
    ensures
        flipped_back_grid(grid).len() == grid.len(),
        forall|i: int|
            0 <= i < grid.len() ==> #[trigger] flipped_back_grid(grid)[i].status
                != CardStatusCardFace::UpTemporary,
        forall|i: int|
            0 <= i < grid.len() && grid[i].status != CardStatusCardFace::UpTemporary
                ==> #[trigger] flipped_back_grid(grid)[i] == grid[i],
        flipped_back_grid(flipped_back_grid(grid)) == flipped_back_grid(grid),
{
    assert(flipped_back_grid(flipped_back_grid(grid)) =~= flipped_back_grid(grid));
}

/// Turning cards back changes only their face: every card keeps its number
/// and its index, a card that was up for the turn is face down, and every
/// other card keeps its face.
pub proof fn lemma_flip_back_keeps_cards(grid: Seq<CardGridItem>)
    ensures
        flipped_back_grid(grid).len() == grid.len(),
        forall|i: int|
            0 <= i < grid.len() ==> {
                &&& (#[trigger] flipped_back_grid(grid)[i]).card_number_and_img_src
                    == grid[i].card_number_and_img_src
                &&& flipped_back_grid(grid)[i].card_index_and_id == grid[i].card_index_and_id
                &&& grid[i].status == CardStatusCardFace::UpTemporary ==> flipped_back_grid(
                    grid,
                )[i].status == CardStatusCardFace::Down
                &&& grid[i].status != CardStatusCardFace::UpTemporary ==> flipped_back_grid(
                    grid,
                )[i].status == grid[i].status
            },
{
}

/// A first-card message is a conflict only on player 1's page while that
/// page is not waiting for a first card: a page waiting for a first card,
/// or the page of any other player, takes the click.
pub proof fn lemma_click_1st_card_conflict(gd: GameData)
    ensures
        gd.game_status == GameStatus::Status1stCard ==> !is_click_1st_card_conflict(gd),
        gd.my_player_number != 1 ==> !is_click_1st_card_conflict(gd),
        gd.my_player_number == 1 && gd.game_status != GameStatus::Status1stCard
            ==> is_click_1st_card_conflict(gd),
{
}

/// After the message of another player's first click, without a conflict,
/// the clicked card is the only card that is up for this turn.
pub proof fn lemma_one_card_up_after_1st_click(grid: Seq<CardGridItem>, card_index: int)
    requires
        0 <= card_index < grid.len(),
    ensures
        ({
            let g = flipped_back_grid(grid).update(
                card_index,
                (CardGridItem { status: CardStatusCardFace::UpTemporary, ..grid[card_index] }),
            );
            forall|i: int|
                0 <= i < grid.len() ==> (#[trigger] g[i].status == CardStatusCardFace::UpTemporary
                    <==> i == card_index)
        }),
{
    lemma_flip_back_grid(grid);
}

/// Turns the first card of this turn face up and waits for the second card.
pub fn update_on_1st_card(gd: &mut GameData)
    requires
        old(gd).card_index_of_first_click < old(gd).card_grid_data@.len(),
    ensures
        final(gd).card_grid_data@ == old(gd).card_grid_data@.update(
            old(gd).card_index_of_first_click as int,
            (CardGridItem {
                status: CardStatusCardFace::UpTemporary,
                ..old(gd).card_grid_data@[old(gd).card_index_of_first_click as int]
            }),
        ),
        final(gd).game_status == GameStatus::Status2ndCard,
        *final(gd) == (GameData {
            card_grid_data: final(gd).card_grid_data,
            game_status: GameStatus::Status2ndCard,
            ..*old(gd)
        }),
{
    let i = gd.card_index_of_first_click;
    let c = gd.card_grid_data[i];
    gd.card_grid_data.set(i, CardGridItem { status: CardStatusCardFace::UpTemporary, ..c });
    gd.game_status = GameStatus::Status2ndCard;
}

/// This player clicks the first card of the turn: cards that were up for the
/// last turn are turned down and the clicked card is remembered. The card is
/// turned up when the other players have acknowledged the click.
pub fn on_click_1st_card(gd: &mut GameData, this_click_card_index: usize)
    ensures
        final(gd).card_grid_data@ == flipped_back_grid(old(gd).card_grid_data@),
        final(gd).card_grid_data@.len() == old(gd).card_grid_data@.len(),
        forall|i: int|
            0 <= i < old(gd).card_grid_data@.len() ==> {
                &&& (#[trigger] final(gd).card_grid_data@[i]).card_number_and_img_src
                    == old(gd).card_grid_data@[i].card_number_and_img_src
                &&& final(gd).card_grid_data@[i].card_index_and_id == old(gd).card_grid_data@[i].card_index_and_id
                &&& old(gd).card_grid_data@[i].status == CardStatusCardFace::UpTemporary
                    ==> final(gd).card_grid_data@[i].status == CardStatusCardFace::Down
                &&& old(gd).card_grid_data@[i].status != CardStatusCardFace::UpTemporary
                    ==> final(gd).card_grid_data@[i].status == old(gd).card_grid_data@[i].status
            },
        *final(gd) == (GameData {
            card_grid_data: final(gd).card_grid_data,
            card_index_of_first_click: this_click_card_index,
            card_index_of_second_click: 0,
            ..*old(gd)
        }),
{
    flip_back(gd);
    proof {
        lemma_flip_back_keeps_cards(old(gd).card_grid_data@);
    }
    gd.card_index_of_first_click = this_click_card_index;
}

/// Whether a message that another player clicked the first card is a
/// conflict: both players clicked a first card at the same moment. Player 1
/// settles it, when this game is not waiting for a first card.
pub open spec fn is_click_1st_card_conflict(gd: GameData) -> bool {
    gd.my_player_number == 1 && gd.game_status != GameStatus::Status1stCard
}

/// Whether the message of another player's first click can be taken: when
/// it is no conflict, the clicked card must be on the grid.
pub fn click_1st_card_msg_is_valid(gd: &GameData, card_index_of_first_click: usize) -> (r: bool)
    ensures
        r == (!is_click_1st_card_conflict(*gd) ==> card_index_of_first_click
            < gd.card_grid_data@.len()),
{
    (gd.my_player_number == 1 && gd.game_status != GameStatus::Status1stCard)
        || card_index_of_first_click < gd.card_grid_data.len()
}

/// Another player clicked the first card of the turn. The cards up for the
/// last turn are turned down; then, without a conflict, the clicked card is
/// turned up and the game waits for the second card. Returns whether there
/// was a conflict, which player 1 settles by playing both clicks itself.
pub fn on_msg_click_1st_card(gd: &mut GameData, card_index_of_first_click: usize) -> (conflict:
    bool)
    requires
        !is_click_1st_card_conflict(*old(gd)) ==> card_index_of_first_click < old(
            gd,
        ).card_grid_data@.len(),
    ensures
        conflict == is_click_1st_card_conflict(*old(gd)),
        conflict ==> *final(gd) == (GameData {
            card_grid_data: final(gd).card_grid_data,
            card_index_of_first_click: 0,
            card_index_of_second_click: 0,
            ..*old(gd)
        }),
        conflict ==> final(gd).card_grid_data@ == flipped_back_grid(old(gd).card_grid_data@),
        !conflict ==> final(gd).card_grid_data@ == flipped_back_grid(
            old(gd).card_grid_data@,
        ).update(
            card_index_of_first_click as int,
            (CardGridItem {
                status: CardStatusCardFace::UpTemporary,
                ..old(gd).card_grid_data@[card_index_of_first_click as int]
            }),
        ),
        !conflict ==> *final(gd) == (GameData {
            card_grid_data: final(gd).card_grid_data,
            card_index_of_first_click: card_index_of_first_click,
            card_index_of_second_click: 0,
            game_status: GameStatus::Status2ndCard,
            ..*old(gd)
        }),
        old(gd).game_status == GameStatus::Status1stCard || old(gd).my_player_number != 1
            ==> !conflict,
        old(gd).my_player_number == 1 && old(gd).game_status != GameStatus::Status1stCard
            ==> conflict,
        final(gd).card_grid_data@.len() == old(gd).card_grid_data@.len(),
        forall|i: int|
            0 <= i < old(gd).card_grid_data@.len() ==> {
                &&& (#[trigger] final(gd).card_grid_data@[i]).card_number_and_img_src
                    == old(gd).card_grid_data@[i].card_number_and_img_src
                &&& final(gd).card_grid_data@[i].card_index_and_id == old(
                    gd,
                ).card_grid_data@[i].card_index_and_id
                &&& (conflict || i != card_index_of_first_click) && old(gd).card_grid_data@[i].status
                    == CardStatusCardFace::UpTemporary ==> final(gd).card_grid_data@[i].status
                    == CardStatusCardFace::Down
                &&& (conflict || i != card_index_of_first_click) && old(gd).card_grid_data@[i].status
                    != CardStatusCardFace::UpTemporary ==> final(gd).card_grid_data@[i].status
                    == old(gd).card_grid_data@[i].status
            },
        !conflict ==> final(gd).card_grid_data@[card_index_of_first_click as int].status
            == CardStatusCardFace::UpTemporary,
        !conflict ==> final(gd).card_index_of_first_click == card_index_of_first_click,
        !conflict ==> final(gd).game_status == GameStatus::Status2ndCard,
        conflict ==> final(gd).game_status == old(gd).game_status,
{
    proof {
        lemma_flip_back_keeps_cards(old(gd).card_grid_data@);
    }
    flip_back(gd);
    if gd.my_player_number == 1 && gd.game_status != GameStatus::Status1stCard {
        true
    } else {
        gd.card_index_of_first_click = card_index_of_first_click;
        update_on_1st_card(gd);
        false
    }
}


/// The heading shown while the first card is awaited: its class and its text.
pub struct Heading {
    /// The css class of the heading.
    pub class: String,
    /// The text of the heading.
    pub text: String,
}

/// The heading shown while the first card is awaited: the player on turn is
/// asked to play, the others to wait for that player, by nickname.
pub fn div_on_1st_card(gd: &GameData) -> (h: Heading)
    requires
        1 <= gd.player_turn <= gd.players@.len(),
    ensures
        gd.is_my_turn_spec() ==> h.class@ == "h2_must_do_something"@ && h.text@ == "Play "@
            + gd.players@[gd.player_turn - 1].nickname@,
        !gd.is_my_turn_spec() ==> h.class@ == "h2_user_must_wait"@ && h.text@ == "Wait for "@
            + gd.players@[gd.player_turn - 1].nickname@,
        gd.my_player_number == gd.player_turn ==> h.class@ == "h2_must_do_something"@ && h.text@
            == "Play "@ + gd.players@[gd.player_turn - 1].nickname@,
        gd.my_player_number != gd.player_turn ==> h.class@ == "h2_user_must_wait"@ && h.text@
            == "Wait for "@ + gd.players@[gd.player_turn - 1].nickname@,
{
    proof {
        crate::gamedatamod::lemma_is_my_turn(*gd);
    }
    let nickname = gd.players[gd.player_turn - 1].nickname.as_str();
    if gd.is_my_turn() {
        let mut t = String::from_str("Play ");
        t.append(nickname);
        Heading { class: String::from_str("h2_must_do_something"), text: t }
    } else {
        let mut t = String::from_str("Wait for ");
        t.append(nickname);
        Heading { class: String::from_str("h2_user_must_wait"), text: t }
    }
}

/// The number of characters, counted from `k` on, that make up the first
/// `bytes` bytes of the UTF-8 encoding of `s`, if a character ends there.
pub open spec fn chars_for_bytes(s: Seq<char>, bytes: nat, k: int) -> Option<int>
    decreases s.len() - k,
{
    if k < 0 || k > s.len() || utf8_len(s.take(k)) > bytes {
        None
    } else if utf8_len(s.take(k)) == bytes {
        Some(k)
    } else if k == s.len() {
        None
    } else {
        chars_for_bytes(s, bytes, k + 1)
    }
}

/// The card index in the id of a card's image, such as `img12`: the number
/// after the first three bytes, if a character ends after three bytes and
/// the rest reads as a number.
pub open spec fn card_index_from_img_id_spec(img_id: Seq<char>) -> Option<usize> {
    match chars_for_bytes(img_id, 3, 0) {
        Some(k) => parse_usize_spec(img_id.skip(k)),
        None => None,
    }
}

/// The card index in the id of a card's image, such as `img12`, or nothing
/// when the id does not hold one.
pub fn card_index_from_img_id(img_id: &str) -> (r: Option<usize>)
    ensures
        r == card_index_from_img_id_spec(img_id@),
{
    let v = str_to_chars(img_id);
    let n = v.len();
    let mut k: usize = 0;
    let mut bytes: usize = 0;
    assert(v@.take(0) =~= Seq::<char>::empty());
    assert(vstd::utf8::encode_utf8(Seq::<char>::empty()) =~= Seq::<u8>::empty());
    while k < n && bytes < 3
        invariant
            n == v@.len(),
            v@ == img_id@,
            k <= n,
            bytes <= 3,
            bytes == utf8_len(v@.take(k as int)),
            chars_for_bytes(v@, 3, 0) == chars_for_bytes(v@, 3, k as int),
        decreases n - k,
    {
        proof {
            lemma_utf8_len_take(v@, k as int);
        }
        let w = char_utf8_len(v[k]);
        if bytes + w > 3 {
            assert(chars_for_bytes(v@, 3, k + 1) is None);
            return None;
        }
        bytes = bytes + w;
        k = k + 1;
    }
    if bytes < 3 {
        return None;
    }
    let mut rest: Vec<char> = Vec::new();
    let mut i: usize = k;
    while i < n
        invariant
            n == v@.len(),
            k <= i <= n,
            rest@ =~= v@.subrange(k as int, i as int),
        decreases n - i,
    {
        rest.push(v[i]);
        i = i + 1;
    }
    assert(rest@ =~= img_id@.skip(k as int));
    let s = string_from_chars(&rest);
    crate::text::parse_usize(s.as_str())
}

/// Whether the card at `card_index` is face down, the only cards whose
/// click counts.
pub fn card_is_down(gd: &GameData, card_index: usize) -> (r: bool)
    requires
        card_index < gd.card_grid_data@.len(),
    ensures
        r == (gd.card_grid_data@[card_index as int].status == CardStatusCardFace::Down),
{
    gd.card_grid_data[card_index].status == CardStatusCardFace::Down
}

} // verus!
