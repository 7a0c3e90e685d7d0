//! What is kept in the browser's storage: the debug text, the websocket id,
//! the nickname and the group id, and how the game data follows them.

use vstd::prelude::*;
use crate::gamedatamod::GameData;
use crate::rootrenderingcomponentmod::RootRenderingComponent;
use crate::gamedatamod::Player;
use crate::gamedatamod::json_usize_array;
use crate::gamedatamod::prepare_players_ws_uid;
use crate::gamedatamod::ws_uids;
use crate::text::char_utf8_len;
use crate::text::lemma_utf8_len_monotone;
use crate::text::lemma_utf8_len_take;
use crate::text::parse_usize;
use crate::text::parse_usize_spec;
use crate::text::str_to_chars;
use crate::text::string_from_chars;
use crate::text::utf8_len;
use crate::text::utf8_truncated;

verus! {

/// The debug text is kept shorter than this many bytes.
pub const DEBUG_TEXT_MAX_BYTES: usize = 800;

/// Cuts `input` at a character boundary so that its UTF-8 encoding is
/// shorter than `maxsize` bytes, taking characters off its end only as far
/// as needed.
pub fn utf8_truncate(input: &mut String, maxsize: usize)
    requires
        maxsize > 0,
    ensures
        final(input)@ == utf8_truncated(old(input)@, maxsize as nat),
{
    let mut v = str_to_chars(input.as_str());
    let n = v.len();
    let mut k: usize = 0;
    let mut bytes: usize = 0;
    assert(v@.take(0) =~= Seq::<char>::empty());
    assert(vstd::utf8::encode_utf8(Seq::<char>::empty()) =~= Seq::<u8>::empty());
    while k < n
        invariant
            n == v@.len(),
            v@ == old(input)@,
            k <= n,
            bytes < maxsize,
            bytes == utf8_len(v@.take(k as int)),
        ensures
            k <= n,
            bytes < maxsize,
            bytes == utf8_len(v@.take(k as int)),
            k < n ==> bytes + crate::text::char_width(v@[k as int]) >= maxsize,
        decreases n - k,
    {
        let w = char_utf8_len(v[k]);
        proof {
            lemma_utf8_len_take(v@, k as int);
        }
        if w >= maxsize - bytes {
            break;
        }
        bytes = bytes + w;
        k = k + 1;
    }
    proof {
        if k < n {
            lemma_utf8_len_take(v@, k as int);
        }
        lemma_truncated_is_prefix(v@, maxsize as nat, k as int);
    }
    if k < n {
        v.truncate(k);
        assert(v@ =~= old(input)@.take(k as int));
        *input = string_from_chars(&v);
    } else {
        assert(old(input)@.take(k as int) =~= old(input)@);
    }
}

/// Taking characters off the end until the text fits leaves the longest
/// prefix that fits.
pub proof fn lemma_truncated_is_prefix(s: Seq<char>, maxsize: nat, k: int)
    requires
        maxsize > 0,
        0 <= k <= s.len(),
        utf8_len(s.take(k)) < maxsize,
        k == s.len() || utf8_len(s.take(k + 1)) >= maxsize,
    ensures
        utf8_truncated(s, maxsize) == s.take(k),
    decreases s.len(),
{
    if utf8_len(s) < maxsize {
        if k < s.len() {
            lemma_utf8_len_monotone(s, k + 1, s.len() as int);
            assert(s.take(s.len() as int) =~= s);
        }
        assert(s.take(k) =~= s);
    } else {
        if s.len() == 0 {
            assert(vstd::utf8::encode_utf8(s) =~= Seq::<u8>::empty());
        }
        if k == s.len() {
            assert(s.take(k) =~= s);
        }
        let t = s.drop_last();
        assert(t.take(k) =~= s.take(k));
        if k < t.len() {
            assert(t.take(k + 1) =~= s.take(k + 1));
        }
        lemma_truncated_is_prefix(t, maxsize, k);
    }
}

/// What `utf8_truncate` leaves: the longest prefix of the text whose UTF-8
/// encoding is shorter than `maxsize` bytes; the text itself when it is
/// already that short; and cutting it again changes nothing.
pub proof fn lemma_utf8_truncated_is_longest_fitting_prefix(s: Seq<char>, maxsize: nat)
    requires
        maxsize > 0,
    ensures
        ({
            let t = utf8_truncated(s, maxsize);
            &&& t.len() <= s.len()
            &&& t == s.take(t.len() as int)
            &&& utf8_len(t) < maxsize
            &&& t.len() == s.len() || utf8_len(s.take(t.len() as int + 1)) >= maxsize
            &&& utf8_len(s) < maxsize ==> t == s
            &&& utf8_truncated(t, maxsize) == t
        }),
    decreases s.len(),
{
    let t = utf8_truncated(s, maxsize);
    if utf8_len(s) < maxsize {
        assert(s.take(s.len() as int) =~= s);
    } else {
        if s.len() == 0 {
            assert(vstd::utf8::encode_utf8(s) =~= Seq::<u8>::empty());
        }
        let d = s.drop_last();
        lemma_utf8_truncated_is_longest_fitting_prefix(d, maxsize);
        assert(t == utf8_truncated(d, maxsize));
        assert(d.take(t.len() as int) =~= s.take(t.len() as int));
        if t.len() == d.len() {
            assert(s.take(t.len() as int + 1) =~= s);
        } else {
            assert(d.take(t.len() as int + 1) =~= s.take(t.len() as int + 1));
        }
    }
}

/// The line that heads the debug text: the time, a colon, the text.
pub open spec fn debug_text_with_line(now: Seq<char>, text: Seq<char>, old_text: Seq<char>) -> Seq<char> {
    now + ": "@ + text + "\n"@ + old_text
}

/// The new line heads the debug text whenever it fits in the size limit on
/// its own: the debug text loses old lines from its end, never the new one.
pub proof fn lemma_debug_text_begins_with_new_line(
    now: Seq<char>,
    text: Seq<char>,
    old_text: Seq<char>,
)
    requires
        utf8_len(now + ": "@ + text + "\n"@) < DEBUG_TEXT_MAX_BYTES,
    ensures
        ({
            let line = now + ": "@ + text + "\n"@;
            let t = utf8_truncated(
                debug_text_with_line(now, text, old_text),
                DEBUG_TEXT_MAX_BYTES as nat,
            );
            t.len() >= line.len() && t.take(line.len() as int) == line
        }),
{
    let line = now + ": "@ + text + "\n"@;
    let full = debug_text_with_line(now, text, old_text);
    assert(full =~= line + old_text);
    assert(full.take(line.len() as int) =~= line);
    lemma_utf8_truncated_is_longest_fitting_prefix(full, DEBUG_TEXT_MAX_BYTES as nat);
    let t = utf8_truncated(full, DEBUG_TEXT_MAX_BYTES as nat);
    if t.len() < line.len() {
        lemma_utf8_len_monotone(full, t.len() as int + 1, line.len() as int);
    }
    assert(t.take(line.len() as int) =~= full.take(line.len() as int));
}

/// The new debug text: a line made of the time and `text` put before the old
/// debug text, all cut to fewer than `DEBUG_TEXT_MAX_BYTES` bytes.
pub fn add_to_begin_of_debug_text(now: &str, text: &str, old_text: &str) -> (r: String)
    ensures
        r@ == utf8_truncated(
            debug_text_with_line(now@, text@, old_text@),
            DEBUG_TEXT_MAX_BYTES as nat,
        ),
{
    let mut s = String::from_str(now);
    s.append(": ");
    s.append(text);
    s.append("\n");
    s.append(old_text);
    utf8_truncate(&mut s, DEBUG_TEXT_MAX_BYTES);
    s
}


/// What a key released in an input box asks for.
pub enum KeyUpAction {
    /// Enter was pressed: open the local page with this `#` fragment.
    OpenLocalPage(String),
    /// Enter was pressed: open the page that joins the group whose id is
    /// typed in the group id box.
    JoinTypedGroup,
    /// Any other key: keep what was typed.
    Save,
}

/// The reaction to a key released in the nickname box: Enter opens the page
/// to start a group, any other key saves the nickname.
pub fn nickname_onkeyup(key: &str) -> (r: KeyUpAction)
    ensures
        key@ == "Enter"@ ==> (r matches KeyUpAction::OpenLocalPage(h) && h@ == "#p02"@),
        key@ != "Enter"@ ==> r is Save,
{
    if crate::text::str_eq(key, "Enter") {
        KeyUpAction::OpenLocalPage(String::from_str("#p02"))
    } else {
        KeyUpAction::Save
    }
}

/// The reaction to a key released in the group id box: Enter opens the page
/// to join the group, any other key saves the group id.
pub fn group_id_onkeyup(key: &str) -> (r: KeyUpAction)
    ensures
        key@ == "Enter"@ ==> (r matches KeyUpAction::OpenLocalPage(h) && h@ == "#p04"@),
        key@ != "Enter"@ ==> r is Save,
{
    if crate::text::str_eq(key, "Enter") {
        KeyUpAction::OpenLocalPage(String::from_str("#p04"))
    } else {
        KeyUpAction::Save
    }
}

/// The class of the nickname box: it blinks while there is no nickname.
pub fn blink_or_not_nickname(rrc: &RootRenderingComponent) -> (r: String)
    ensures
        rrc.game_data.my_nickname@.len() == 0 ==> r@ == "blink"@,
        rrc.game_data.my_nickname@.len() != 0 ==> r@ == ""@,
{
    if rrc.game_data.my_nickname.as_str().is_empty() {
        String::from_str("blink")
    } else {
        String::from_str("")
    }
}

/// Takes the nickname typed by this player: it becomes this player's
/// nickname, and also the nickname of player number `my_player_number` when
/// that player exists in the list of players.
pub fn set_nickname(gd: &mut GameData, nickname: String)
    ensures
        final(gd).my_nickname@ == nickname@,
        1 <= old(gd).my_player_number <= old(gd).players@.len() ==> final(gd).players@ == old(
            gd,
        ).players@.update(
            old(gd).my_player_number - 1,
            (Player { nickname: final(gd).my_nickname, ..old(gd).players@[old(gd).my_player_number - 1] }),
        ),
        !(1 <= old(gd).my_player_number <= old(gd).players@.len()) ==> final(gd).players@ == old(
            gd,
        ).players@,
        *final(gd) == (GameData { my_nickname: final(gd).my_nickname, players: final(gd).players, ..*old(gd) }),
{
    gd.my_nickname = nickname.clone();
    if 1 <= gd.my_player_number && gd.my_player_number <= gd.players.len() {
        let i = gd.my_player_number - 1;
        let mut p = gd.players[i].clone_player();
        p.nickname = nickname;
        gd.players.set(i, p);
    }
}

/// The group id read from the group id box: it becomes the group id and the
/// websocket id of the first player, and the JSON of the players' websocket
/// ids is made again.
pub fn set_group_id(gd: &mut GameData, group_id_string: &str)
    requires
        parse_usize_spec(group_id_string@) is Some,
        old(gd).players@.len() > 0,
    ensures
        final(gd).group_id == parse_usize_spec(group_id_string@)->Some_0,
        final(gd).players@ == old(gd).players@.update(
            0,
            (Player { ws_uid: final(gd).group_id, ..old(gd).players@[0] }),
        ),
        final(gd).players_ws_uid@ == json_usize_array(ws_uids(final(gd).players@)),
        *final(gd) == (GameData {
            group_id: final(gd).group_id,
            players: final(gd).players,
            players_ws_uid: final(gd).players_ws_uid,
            ..*old(gd)
        }),
{
    let v = parse_usize(group_id_string).unwrap();
    gd.group_id = v;
    let mut p = gd.players[0].clone_player();
    p.ws_uid = v;
    gd.players.set(0, p);
    gd.players_ws_uid = prepare_players_ws_uid(&gd.players);
}

} // verus!
