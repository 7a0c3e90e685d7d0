//! The addresses fetched from the server, and how the fetched game list and
//! images are used.

use vstd::prelude::*;
use crate::gamedatamod::CardGridItem;
use crate::gamedatamod::GameData;
use crate::gamedatamod::GameMetadata;
use crate::gamedatamod::GamesMetadata;
use crate::text::string_views;

verus! {

/// The address of the configuration of the game `game_name`.
pub open spec fn game_config_url_spec(href: Seq<char>, game_name: Seq<char>) -> Seq<char> {
    href + "/content/"@ + game_name + "/game_config.json"@
}

/// The address of the configuration of the chosen game.
pub fn game_config_url(href: &str, game_name: &str) -> (r: String)
    ensures
        r@ == game_config_url_spec(href@, game_name@),
{
    let mut s = String::from_str(href);
    s.append("/content/");
    s.append(game_name);
    s.append("/game_config.json");
    s
}

/// The address of the list of games.
pub fn games_metadata_url(href: &str) -> (r: String)
    ensures
        r@ == href@ + "/content/gamesmetadata.json"@,
{
    let mut s = String::from_str(href);
    s.append("/content/gamesmetadata.json");
    s
}

/// The address of the list of videos.
pub fn videos_url(href: &str) -> (r: String)
    ensures
        r@ == href@ + "/content/videos.json"@,
{
    let mut s = String::from_str(href);
    s.append("/content/videos.json");
    s
}

/// The content folders of the games, in order.
pub open spec fn folders(g: Seq<GameMetadata>) -> Seq<Seq<char>> {
    g.map_values(|m: GameMetadata| m.folder@)
}

/// Takes the fetched list of games: the content folders become those of the
/// games, in order, and the list is kept.
pub fn update_games_metadata(gd: &mut GameData, v: GamesMetadata)
    ensures
        string_views(final(gd).content_folders@) == folders(v.vec_game_metadata@),
        final(gd).games_metadata == Some(v),
        *final(gd) == (GameData {
            content_folders: final(gd).content_folders,
            games_metadata: final(gd).games_metadata,
            ..*old(gd)
        }),
{
    let mut fs: Vec<String> = Vec::new();
    let mut i: usize = 0;
    let n = v.vec_game_metadata.len();
    while i < n
        invariant
            n == v.vec_game_metadata@.len(),
            i <= n,
            fs@.len() == i,
            string_views(fs@) =~= folders(v.vec_game_metadata@.take(i as int)),
        decreases n - i,
    {
        let ghost pre = fs@;
        let f = v.vec_game_metadata[i].folder.clone();
        fs.push(f);
        assert(fs@ == pre.push(f));
        assert forall|j: int| 0 <= j <= i implies #[trigger] string_views(fs@)[j]
            == folders(v.vec_game_metadata@.take(i + 1))[j] by {
            if j == i {
                assert(f@ == v.vec_game_metadata@[j].folder@);
                assert(string_views(fs@)[j] == f@);
                assert(v.vec_game_metadata@.take(i + 1)[j] == v.vec_game_metadata@[j]);
            }
            if j < i {
                assert(string_views(pre)[j] == folders(
                    v.vec_game_metadata@.take(i as int),
                )[j]);
            }
        }
        i = i + 1;
        assert(string_views(fs@) =~= folders(v.vec_game_metadata@.take(i as int)));
    }
    assert(v.vec_game_metadata@.take(n as int) =~= v.vec_game_metadata@);
    gd.content_folders = fs;
    gd.games_metadata = Some(v);
}

/// The address of the image of one card.
pub open spec fn img_url_spec(game_name: Seq<char>, img_filename: Seq<char>) -> Seq<char> {
    "content/"@ + game_name + "/img/"@ + img_filename
}

/// Whether the image of every card on the table can be named: the game
/// configuration is there and every card number indexes its image files.
pub open spec fn has_img_filenames(gd: GameData) -> bool {
    forall|i: int|
        0 <= i < gd.card_grid_data@.len() && #[trigger] gd.card_grid_data@[i].card_index_and_id != 0
            ==> gd.game_config is Some && gd.card_grid_data@[i].card_number_and_img_src
            < gd.game_config->Some_0.img_filename@.len()
}

/// Whether the image of every card on the table can be named, which
/// `fetch_all_img_for_cache_request` needs.
pub fn img_filenames_known(gd: &GameData) -> (r: bool)
    ensures
        r == has_img_filenames(*gd),
{
    let n = gd.card_grid_data.len();
    let mut i: usize = 0;
    while i < n
        invariant
            n == gd.card_grid_data@.len(),
            i <= n,
            forall|j: int|
                0 <= j < i && #[trigger] gd.card_grid_data@[j].card_index_and_id != 0
                    ==> gd.game_config is Some && gd.card_grid_data@[j].card_number_and_img_src
                    < gd.game_config->Some_0.img_filename@.len(),
        decreases n - i,
    {
        let c = gd.card_grid_data[i];
        if c.card_index_and_id != 0 {
            let ok = match &gd.game_config {
                Some(gc) => c.card_number_and_img_src < gc.img_filename.len(),
                None => false,
            };
            if !ok {
                return false;
            }
        }
        i = i + 1;
    }
    true
}

/// The image addresses of the cards of `grid` that are on the table (whose
/// id is not 0), in grid order.
pub open spec fn img_urls_spec(grid: Seq<CardGridItem>, gd: GameData) -> Seq<Seq<char>>
    decreases grid.len(),
{
    if grid.len() == 0 {
        Seq::empty()
    } else {
        let rest = img_urls_spec(grid.drop_last(), gd);
        let c = grid.last();
        if c.card_index_and_id != 0 {
            rest.push(
                img_url_spec(
                    gd.game_name@,
                    gd.game_config->Some_0.img_filename@[c.card_number_and_img_src as int]@,
                ),
            )
        } else {
            rest
        }
    }
}

/// The addresses of the images of all cards on the table, which are fetched
/// ahead so that the browser caches them.
pub fn fetch_all_img_for_cache_request(gd: &GameData) -> (r: Vec<String>)
    requires
        has_img_filenames(*gd),
    ensures
        string_views(r@) == img_urls_spec(gd.card_grid_data@, *gd),
{
    let mut urls: Vec<String> = Vec::new();
    let n = gd.card_grid_data.len();
    let mut i: usize = 0;
    while i < n
        invariant
            n == gd.card_grid_data@.len(),
            i <= n,
            has_img_filenames(*gd),
            string_views(urls@) =~= img_urls_spec(gd.card_grid_data@.take(i as int), *gd),
        decreases n - i,
    {
        let c = gd.card_grid_data[i];
        assert(gd.card_grid_data@.take(i + 1).drop_last() =~= gd.card_grid_data@.take(i as int));
        if c.card_index_and_id != 0 {
            match &gd.game_config {
                Some(gc) => {
                    let mut u = String::from_str("content/");
                    u.append(gd.game_name.as_str());
                    u.append("/img/");
                    u.append(gc.img_filename[c.card_number_and_img_src].as_str());
                    urls.push(u);
                },
                None => {},
            }
        }
        i = i + 1;
        assert(string_views(urls@) =~= img_urls_spec(
            gd.card_grid_data@.take(i as int),
            *gd,
        ));
    }
    assert(gd.card_grid_data@.take(n as int) =~= gd.card_grid_data@);
    urls
}

} // verus!
