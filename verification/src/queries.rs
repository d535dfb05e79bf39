use vstd::prelude::*;
use crate::entities::FsTrack;
use crate::sql::{
    bound1, bound2, bound3, optional_text_view, statement_view, text, text_or_null, unbound,
    SqlValue, SqlValueView, Statement, StatementView,
};

verus! {

pub const SELECT_DIRECTORIES: &'static str = "SELECT * FROM directories";
pub const DELETE_DIRECTORIES: &'static str = "DELETE FROM directories WHERE 1";
pub const INSERT_DIRECTORY: &'static str = "INSERT INTO directories (path) VALUES (@path)";
pub const SELECT_INIT: &'static str = "SELECT init FROM library_data LIMIT 1";
pub const UPDATE_INIT: &'static str = "UPDATE library_data SET init = ? WHERE 1";
pub const SELECT_CONFIG: &'static str = "SELECT skip_not_needed_tracks, try_embed_lyrics FROM config_data LIMIT 1";
pub const UPDATE_CONFIG: &'static str = "UPDATE config_data SET skip_not_needed_tracks = ?, try_embed_lyrics = ? WHERE 1";
pub const FIND_ARTIST: &'static str = "SELECT id FROM artists WHERE name = ?";
pub const INSERT_ARTIST: &'static str = "INSERT INTO artists (name, name_lower) VALUES (?, ?)";
pub const FIND_ALBUM: &'static str = "SELECT id FROM albums WHERE name = ? AND artist_id = ?";
pub const INSERT_ALBUM: &'static str = "INSERT INTO albums (name, name_lower, artist_id) VALUES (?, ?, ?)";
pub const SELECT_TRACK_BY_ID: &'static str = "SELECT\n    tracks.id,\n    file_path,\n    file_name,\n    title,\n    artists.name AS artist_name,\n    tracks.artist_id,\n    albums.name AS album_name,\n    album_id,\n    duration,\n    albums.image_path,\n    txt_lyrics,\n    lrc_lyrics,\n    instrumental\nFROM tracks\nJOIN albums ON tracks.album_id = albums.id\nJOIN artists ON tracks.artist_id = artists.id\nWHERE tracks.id = ?\nLIMIT 1\n";
pub const UPDATE_SYNCED_LYRICS: &'static str = "UPDATE tracks SET lrc_lyrics = ?, txt_lyrics = ?, instrumental = false WHERE id = ?";
pub const UPDATE_PLAIN_LYRICS: &'static str = "UPDATE tracks SET txt_lyrics = ?, lrc_lyrics = null, instrumental = false WHERE id = ?";
pub const UPDATE_NULL_LYRICS: &'static str = "UPDATE tracks SET txt_lyrics = null, lrc_lyrics = null, instrumental = false WHERE id = ?";
pub const UPDATE_INSTRUMENTAL: &'static str = "UPDATE tracks SET txt_lyrics = null, lrc_lyrics = ?, instrumental = true WHERE id = ?";
pub const INSERT_TRACK: &'static str = "INSERT INTO tracks (\n    file_path,\n    file_name,\n    title,\n    title_lower,\n    album_id,\n    artist_id,\n    duration,\n    txt_lyrics,\n    lrc_lyrics,\n    instrumental\n) VALUES (?, ?, ?, ?, ?, ?, ?, ?, ?, ?)\n";
pub const SELECT_TRACKS: &'static str = "SELECT\n    tracks.id, file_path, file_name, title,\n    artists.name AS artist_name, tracks.artist_id,\n    albums.name AS album_name, album_id, duration,\n    albums.image_path, txt_lyrics, lrc_lyrics, instrumental\nFROM tracks\nJOIN albums ON tracks.album_id = albums.id\nJOIN artists ON tracks.artist_id = artists.id\nORDER BY title_lower ASC\n";
pub const SELECT_TRACK_IDS: &'static str = "SELECT id FROM tracks ORDER BY title_lower ASC";
pub const SEARCH_TRACK_IDS: &'static str = "SELECT tracks.id\nFROM tracks\nJOIN artists ON tracks.artist_id = artists.id\nJOIN albums ON tracks.album_id = albums.id\nWHERE artists.name_lower LIKE ?\nOR albums.name_lower LIKE ?\nOR tracks.title_lower LIKE ?\nORDER BY title_lower ASC\n";
pub const SELECT_NO_LYRICS_TRACK_IDS: &'static str = "SELECT id FROM tracks WHERE lrc_lyrics IS NULL AND instrumental != true ORDER BY title_lower ASC";
pub const SELECT_ALBUMS: &'static str = "SELECT albums.id, albums.name, artists.name AS artist_name, albums.artist_id,\n      COUNT(tracks.id) AS tracks_count, image_path\nFROM albums\nJOIN artists ON artists.id = albums.artist_id\nJOIN tracks ON tracks.album_id = albums.id\nGROUP BY albums.id, albums.name, artist_name, albums.artist_id, image_path\nORDER BY albums.name_lower ASC\n";
pub const SELECT_ALBUM_BY_ID: &'static str = "SELECT\n    albums.id,\n    albums.name,\n    artists.name AS artist_name,\n    albums.artist_id,\n    COUNT(tracks.id) AS tracks_count,\n    image_path\nFROM albums\nJOIN artists ON artists.id = albums.artist_id\nJOIN tracks ON tracks.album_id = albums.id\nWHERE albums.id = ?\nGROUP BY\n    albums.id,\n    albums.name,\n    artist_name,\n    albums.artist_id,\n    image_path\nLIMIT 1\n";
pub const SELECT_ALBUM_IDS: &'static str = "SELECT id FROM albums ORDER BY name_lower ASC";
pub const SELECT_ARTISTS: &'static str = "SELECT artists.id, artists.name AS name, COUNT(tracks.id) AS tracks_count\nFROM artists\nJOIN tracks ON tracks.artist_id = artists.id\nGROUP BY artists.id, artists.name\nORDER BY artists.name_lower ASC\n";
pub const SELECT_ARTIST_BY_ID: &'static str = "SELECT artists.id,\n      artists.name AS name,\n      COUNT(tracks.id) AS tracks_count\nFROM artists\nJOIN tracks ON tracks.artist_id = artists.id\nWHERE artists.id = ?\nGROUP BY artists.id, artists.name\nLIMIT 1\n";
pub const SELECT_ARTIST_IDS: &'static str = "SELECT id FROM artists ORDER BY name_lower ASC";
pub const SELECT_ALBUM_TRACKS: &'static str = "SELECT\n    tracks.id,\n    file_path,\n    file_name,\n    title,\n    artists.name AS artist_name,\n    tracks.artist_id,\n    albums.name AS album_name,\n    album_id,\n    duration,\n    albums.image_path,\n    txt_lyrics,\n    lrc_lyrics,\n    instrumental\nFROM tracks\nJOIN albums ON tracks.album_id = albums.id\nJOIN artists ON tracks.artist_id = artists.id\nWHERE tracks.album_id = ?\nORDER BY title_lower ASC\n";
pub const SELECT_ALBUM_TRACK_IDS: &'static str = "SELECT tracks.id\nFROM tracks\nJOIN albums ON tracks.album_id = albums.id\nWHERE tracks.album_id = ?\nORDER BY title_lower ASC\n";
pub const SELECT_ARTIST_TRACKS: &'static str = "SELECT tracks.id, file_path, file_name, title, artists.name AS artist_name,\n       tracks.artist_id, albums.name AS album_name, album_id, duration,\n       albums.image_path, txt_lyrics, lrc_lyrics, instrumental\nFROM tracks\nJOIN albums ON tracks.album_id = albums.id\nJOIN artists ON tracks.artist_id = artists.id\nWHERE tracks.artist_id = ?\nORDER BY title_lower ASC\n";
pub const SELECT_ARTIST_TRACK_IDS: &'static str = "SELECT tracks.id\nFROM tracks\nJOIN artists ON tracks.artist_id = artists.id\nWHERE tracks.artist_id = ?\nORDER BY title_lower ASC\n";
pub const DELETE_TRACKS: &'static str = "DELETE FROM tracks WHERE 1";
pub const DELETE_ALBUMS: &'static str = "DELETE FROM albums WHERE 1";
pub const DELETE_ARTISTS: &'static str = "DELETE FROM artists WHERE 1";

/// The synced lyrics that mark a track as instrumental.
pub const INSTRUMENTAL_LRC: &'static str = "[au: instrumental]";

// ---- directories, library state and settings ----

/// Reads the scanned directories; each row's `path` column is one.
pub fn get_directories_query() -> (r: Statement)
    ensures
        r@ == statement_view(SELECT_DIRECTORIES, seq![]),
{
    unbound(SELECT_DIRECTORIES)
}

/// The model of the statements that replace the scanned directories.
pub open spec fn set_directories_view(directories: Seq<String>) -> Seq<StatementView> {
    seq![statement_view(DELETE_DIRECTORIES, seq![])] + directories.map_values(
        |d: String| statement_view(INSERT_DIRECTORY, seq![SqlValueView::Text(d@)]),
    )
}

/// Replaces the scanned directories: all are deleted, then each of
/// `directories` is inserted, in order, bound to `@path`.
pub fn set_directories_statements(directories: &Vec<String>) -> (r: Vec<Statement>)
    ensures
        r@.map_values(|s: Statement| s@) == set_directories_view(directories@),
        r@.len() == directories@.len() + 1,
        r@[0]@ == statement_view(DELETE_DIRECTORIES, seq![]),
        forall|i: int|
            0 <= i < directories@.len() ==> #[trigger] r@[i + 1]@ == statement_view(
                INSERT_DIRECTORY,
                seq![SqlValueView::Text(directories@[i]@)],
            ),
{
    let mut out: Vec<Statement> = Vec::new();
    out.push(unbound(DELETE_DIRECTORIES));
    let n = directories.len();
    for i in 0..n
        invariant
            n == directories@.len(),
            out@.map_values(|s: Statement| s@) == set_directories_view(directories@.take(i as int)),
    {
        let ghost before = out@;
        out.push(bound1(INSERT_DIRECTORY, SqlValue::Text(directories[i].clone())));
        assert(directories@.take(i as int + 1) =~= directories@.take(i as int).push(directories@[i as int]));
        assert(out@.map_values(|s: Statement| s@) =~= before.map_values(|s: Statement| s@).push(
            statement_view(INSERT_DIRECTORY, seq![SqlValueView::Text(directories@[i as int]@)]),
        ));
        assert(set_directories_view(directories@.take(i as int + 1)) =~= set_directories_view(
            directories@.take(i as int),
        ).push(statement_view(INSERT_DIRECTORY, seq![SqlValueView::Text(directories@[i as int]@)])));
    }
    assert(directories@.take(n as int) =~= directories@);
    proof {
        lemma_set_directories_inserts_each(directories@);
        assert(out@.map_values(|s: Statement| s@).len() == out@.len());
        assert forall|i: int| 0 <= i < directories@.len() implies #[trigger] out@[i + 1]@ == statement_view(
            INSERT_DIRECTORY,
            seq![SqlValueView::Text(directories@[i]@)],
        ) by {
            assert(out@.map_values(|s: Statement| s@)[i + 1] == out@[i + 1]@);
        }
        assert(out@.map_values(|s: Statement| s@)[0] == out@[0]@);
    }
    out
}

/// Reads whether the library was initialised.
pub fn get_init_query() -> (r: Statement)
    ensures
        r@ == statement_view(SELECT_INIT, seq![]),
{
    unbound(SELECT_INIT)
}

/// Records whether the library was initialised.
pub fn set_init_statement(init: bool) -> (r: Statement)
    ensures
        r@ == statement_view(UPDATE_INIT, seq![SqlValueView::Bool(init)]),
{
    bound1(UPDATE_INIT, SqlValue::Bool(init))
}

/// Reads the settings.
pub fn get_config_query() -> (r: Statement)
    ensures
        r@ == statement_view(SELECT_CONFIG, seq![]),
{
    unbound(SELECT_CONFIG)
}

/// Stores the settings.
pub fn set_config_statement(skip_not_needed_tracks: bool, try_embed_lyrics: bool) -> (r: Statement)
    ensures
        r@ == statement_view(
            UPDATE_CONFIG,
            seq![SqlValueView::Bool(skip_not_needed_tracks), SqlValueView::Bool(try_embed_lyrics)],
        ),
{
    bound2(UPDATE_CONFIG, SqlValue::Bool(skip_not_needed_tracks), SqlValue::Bool(try_embed_lyrics))
}

// ---- artists and albums ----

/// Finds the id of the artist named `name`.
pub fn find_artist_query(name: &str) -> (r: Statement)
    ensures
        r@ == statement_view(FIND_ARTIST, seq![SqlValueView::Text(name@)]),
{
    bound1(FIND_ARTIST, text(name))
}

/// Adds the artist named `name`, with `name_lower` its search form.
pub fn add_artist_statement(name: &str, name_lower: &str) -> (r: Statement)
    ensures
        r@ == statement_view(INSERT_ARTIST, seq![SqlValueView::Text(name@), SqlValueView::Text(name_lower@)]),
{
    bound2(INSERT_ARTIST, text(name), text(name_lower))
}

/// Finds the id of the album named `name` of the artist `artist_id`.
pub fn find_album_query(name: &str, artist_id: i64) -> (r: Statement)
    ensures
        r@ == statement_view(FIND_ALBUM, seq![SqlValueView::Text(name@), SqlValueView::Integer(artist_id)]),
{
    bound2(FIND_ALBUM, text(name), SqlValue::Integer(artist_id))
}

/// Adds the album named `name` of the artist `artist_id`, with
/// `name_lower` its search form.
pub fn add_album_statement(name: &str, name_lower: &str, artist_id: i64) -> (r: Statement)
    ensures
        r@ == statement_view(
            INSERT_ALBUM,
            seq![SqlValueView::Text(name@), SqlValueView::Text(name_lower@), SqlValueView::Integer(artist_id)],
        ),
{
    bound3(INSERT_ALBUM, text(name), text(name_lower), SqlValue::Integer(artist_id))
}

// ---- tracks ----

/// Reads the track `id` with its artist's and album's names.
pub fn get_track_by_id_query(id: i64) -> (r: Statement)
    ensures
        r@ == statement_view(SELECT_TRACK_BY_ID, seq![SqlValueView::Integer(id)]),
{
    bound1(SELECT_TRACK_BY_ID, SqlValue::Integer(id))
}

/// Stores synced and plain lyrics of the track `id` and clears its
/// instrumental flag.
pub fn update_track_synced_lyrics_statement(id: i64, synced_lyrics: &str, plain_lyrics: &str) -> (r: Statement)
    ensures
        r@ == statement_view(
            UPDATE_SYNCED_LYRICS,
            seq![SqlValueView::Text(synced_lyrics@), SqlValueView::Text(plain_lyrics@), SqlValueView::Integer(id)],
        ),
{
    bound3(UPDATE_SYNCED_LYRICS, text(synced_lyrics), text(plain_lyrics), SqlValue::Integer(id))
}

/// Stores plain lyrics of the track `id`, drops its synced lyrics and
/// clears its instrumental flag.
pub fn update_track_plain_lyrics_statement(id: i64, plain_lyrics: &str) -> (r: Statement)
    ensures
        r@ == statement_view(UPDATE_PLAIN_LYRICS, seq![SqlValueView::Text(plain_lyrics@), SqlValueView::Integer(id)]),
{
    bound2(UPDATE_PLAIN_LYRICS, text(plain_lyrics), SqlValue::Integer(id))
}

/// Drops both lyrics of the track `id` and clears its instrumental flag.
pub fn update_track_null_lyrics_statement(id: i64) -> (r: Statement)
    ensures
        r@ == statement_view(UPDATE_NULL_LYRICS, seq![SqlValueView::Integer(id)]),
{
    bound1(UPDATE_NULL_LYRICS, SqlValue::Integer(id))
}

/// Marks the track `id` as instrumental: its plain lyrics are dropped and
/// its synced lyrics become the instrumental marker.
pub fn update_track_instrumental_statement(id: i64) -> (r: Statement)
    ensures
        r@ == statement_view(UPDATE_INSTRUMENTAL, seq![SqlValueView::Text(INSTRUMENTAL_LRC@), SqlValueView::Integer(id)]),
{
    bound2(UPDATE_INSTRUMENTAL, text(INSTRUMENTAL_LRC), SqlValue::Integer(id))
}

/// The model of the statement that stores a scanned track.
pub open spec fn insert_track_view(
    track: FsTrack,
    title_lower: Seq<char>,
    album_id: i64,
    artist_id: i64,
    instrumental: bool,
) -> StatementView {
    statement_view(
        INSERT_TRACK,
        seq![
            SqlValueView::Text(track.file_path@),
            SqlValueView::Text(track.file_name@),
            SqlValueView::Text(track.title@),
            SqlValueView::Text(title_lower),
            SqlValueView::Integer(album_id),
            SqlValueView::Integer(artist_id),
            SqlValueView::Real(track.duration_bits),
            optional_text_view(track.txt_lyrics),
            optional_text_view(track.lrc_lyrics),
            SqlValueView::Bool(instrumental),
        ],
    )
}

/// Stores a scanned track under the album `album_id` and the artist
/// `artist_id`, with `title_lower` the search form of its title.
pub fn add_track_statement(
    track: &FsTrack,
    title_lower: &str,
    album_id: i64,
    artist_id: i64,
    instrumental: bool,
) -> (r: Statement)
    ensures
        r@ == insert_track_view(*track, title_lower@, album_id, artist_id, instrumental),
        r.sql == INSERT_TRACK,
        r@.params.len() == 10,
        r@.params[0] == SqlValueView::Text(track.file_path@),
        r@.params[1] == SqlValueView::Text(track.file_name@),
        r@.params[2] == SqlValueView::Text(track.title@),
        r@.params[3] == SqlValueView::Text(title_lower@),
        r@.params[4] == SqlValueView::Integer(album_id),
        r@.params[5] == SqlValueView::Integer(artist_id),
        r@.params[6] == SqlValueView::Real(track.duration_bits),
        track.txt_lyrics matches Some(t) ==> r@.params[7] == SqlValueView::Text(t@),
        track.txt_lyrics is None ==> r@.params[7] == SqlValueView::Null,
        track.lrc_lyrics matches Some(t) ==> r@.params[8] == SqlValueView::Text(t@),
        track.lrc_lyrics is None ==> r@.params[8] == SqlValueView::Null,
        r@.params[9] == SqlValueView::Bool(instrumental),
{
    let mut params: Vec<SqlValue> = Vec::new();
    params.push(SqlValue::Text(track.file_path.clone()));
    params.push(SqlValue::Text(track.file_name.clone()));
    params.push(SqlValue::Text(track.title.clone()));
    params.push(text(title_lower));
    params.push(SqlValue::Integer(album_id));
    params.push(SqlValue::Integer(artist_id));
    params.push(SqlValue::Real(track.duration_bits));
    params.push(text_or_null(&track.txt_lyrics));
    params.push(text_or_null(&track.lrc_lyrics));
    params.push(SqlValue::Bool(instrumental));
    let r = Statement { sql: INSERT_TRACK, params };
    assert(r@.params =~= insert_track_view(*track, title_lower@, album_id, artist_id, instrumental).params);
    r
}

/// Reads every track, ordered by the search form of its title.
pub fn get_tracks_query() -> (r: Statement)
    ensures
        r@ == statement_view(SELECT_TRACKS, seq![]),
{
    unbound(SELECT_TRACKS)
}

/// Reads the id of every track, ordered by the search form of its title.
pub fn get_track_ids_query() -> (r: Statement)
    ensures
        r@ == statement_view(SELECT_TRACK_IDS, seq![]),
{
    unbound(SELECT_TRACK_IDS)
}

/// The `LIKE` pattern that finds `prepared` anywhere in a search column.
pub open spec fn spec_search_pattern(prepared: Seq<char>) -> Seq<char> {
    seq!['%'] + prepared + seq!['%']
}

/// Builds the `LIKE` pattern of a search: `%`, the search text in its
/// search form, `%`.
pub fn search_pattern(prepared: &str) -> (r: String)
    ensures
        r@ == spec_search_pattern(prepared@),
        r@.len() == prepared@.len() + 2,
        r@[0] == '%',
        r@[r@.len() - 1] == '%',
        r@.subrange(1, r@.len() - 1) == prepared@,
{
    let mut r = String::from_str("%");
    r.append(prepared);
    r.append("%");
    proof {
        reveal_strlit("%");
    }
    assert(r@ =~= spec_search_pattern(prepared@));
    assert(r@.subrange(1, r@.len() - 1) =~= prepared@);
    r
}

/// Reads the ids of the tracks whose artist, album or title holds the
/// search text, in its search form `prepared`; the pattern is bound to each
/// of the three columns.
pub fn get_search_track_ids_query(prepared: &str) -> (r: Statement)
    ensures
        r@ == statement_view(
            SEARCH_TRACK_IDS,
            seq![
                SqlValueView::Text(spec_search_pattern(prepared@)),
                SqlValueView::Text(spec_search_pattern(prepared@)),
                SqlValueView::Text(spec_search_pattern(prepared@)),
            ],
        ),
{
    let pattern = search_pattern(prepared);
    bound3(
        SEARCH_TRACK_IDS,
        SqlValue::Text(pattern.clone()),
        SqlValue::Text(pattern.clone()),
        SqlValue::Text(pattern),
    )
}

/// Reads the ids of the tracks that have no synced lyrics and are not
/// instrumental.
pub fn get_no_lyrics_track_ids_query() -> (r: Statement)
    ensures
        r@ == statement_view(SELECT_NO_LYRICS_TRACK_IDS, seq![]),
{
    unbound(SELECT_NO_LYRICS_TRACK_IDS)
}

// ---- albums and artists ----

/// Reads every album that has a track, ordered by its name's search form.
pub fn get_albums_query() -> (r: Statement)
    ensures
        r@ == statement_view(SELECT_ALBUMS, seq![]),
{
    unbound(SELECT_ALBUMS)
}

/// Reads the album `id`, if it has a track.
pub fn get_album_by_id_query(id: i64) -> (r: Statement)
    ensures
        r@ == statement_view(SELECT_ALBUM_BY_ID, seq![SqlValueView::Integer(id)]),
{
    bound1(SELECT_ALBUM_BY_ID, SqlValue::Integer(id))
}

/// Reads the id of every album, ordered by its name's search form.
pub fn get_album_ids_query() -> (r: Statement)
    ensures
        r@ == statement_view(SELECT_ALBUM_IDS, seq![]),
{
    unbound(SELECT_ALBUM_IDS)
}

/// Reads every artist that has a track, ordered by its name's search form.
pub fn get_artists_query() -> (r: Statement)
    ensures
        r@ == statement_view(SELECT_ARTISTS, seq![]),
{
    unbound(SELECT_ARTISTS)
}

/// Reads the artist `id`, if it has a track.
pub fn get_artist_by_id_query(id: i64) -> (r: Statement)
    ensures
        r@ == statement_view(SELECT_ARTIST_BY_ID, seq![SqlValueView::Integer(id)]),
{
    bound1(SELECT_ARTIST_BY_ID, SqlValue::Integer(id))
}

/// Reads the id of every artist, ordered by its name's search form.
pub fn get_artist_ids_query() -> (r: Statement)
    ensures
        r@ == statement_view(SELECT_ARTIST_IDS, seq![]),
{
    unbound(SELECT_ARTIST_IDS)
}

/// Reads the tracks of the album `album_id`.
pub fn get_album_tracks_query(album_id: i64) -> (r: Statement)
    ensures
        r@ == statement_view(SELECT_ALBUM_TRACKS, seq![SqlValueView::Integer(album_id)]),
{
    bound1(SELECT_ALBUM_TRACKS, SqlValue::Integer(album_id))
}

/// Reads the ids of the tracks of the album `album_id`.
pub fn get_album_track_ids_query(album_id: i64) -> (r: Statement)
    ensures
        r@ == statement_view(SELECT_ALBUM_TRACK_IDS, seq![SqlValueView::Integer(album_id)]),
{
    bound1(SELECT_ALBUM_TRACK_IDS, SqlValue::Integer(album_id))
}

/// Reads the tracks of the artist `artist_id`.
pub fn get_artist_tracks_query(artist_id: i64) -> (r: Statement)
    ensures
        r@ == statement_view(SELECT_ARTIST_TRACKS, seq![SqlValueView::Integer(artist_id)]),
{
    bound1(SELECT_ARTIST_TRACKS, SqlValue::Integer(artist_id))
}

/// Reads the ids of the tracks of the artist `artist_id`.
pub fn get_artist_track_ids_query(artist_id: i64) -> (r: Statement)
    ensures
        r@ == statement_view(SELECT_ARTIST_TRACK_IDS, seq![SqlValueView::Integer(artist_id)]),
{
    bound1(SELECT_ARTIST_TRACK_IDS, SqlValue::Integer(artist_id))
}

/// Empties the library: its tracks, then its albums, then its artists;
/// directories, state and settings stay.
pub fn clean_library_statements() -> (r: Vec<Statement>)
    ensures
        r@.map_values(|s: Statement| s@) == seq![
            statement_view(DELETE_TRACKS, seq![]),
            statement_view(DELETE_ALBUMS, seq![]),
            statement_view(DELETE_ARTISTS, seq![]),
        ],
{
    let r = vec![unbound(DELETE_TRACKS), unbound(DELETE_ALBUMS), unbound(DELETE_ARTISTS)];
    assert(r@.map_values(|s: Statement| s@) =~= seq![
        statement_view(DELETE_TRACKS, seq![]),
        statement_view(DELETE_ALBUMS, seq![]),
        statement_view(DELETE_ARTISTS, seq![]),
    ]);
    r
}

/// Replacing the directories deletes them all first, then inserts each
/// given directory, in order, bound to its own path: one statement more
/// than there are directories.
pub proof fn lemma_set_directories_inserts_each(directories: Seq<String>)
    ensures
        set_directories_view(directories).len() == directories.len() + 1,
        set_directories_view(directories)[0] == statement_view(DELETE_DIRECTORIES, seq![]),
        forall|i: int|
            0 <= i < directories.len() ==> #[trigger] set_directories_view(directories)[i + 1] == statement_view(
                INSERT_DIRECTORY,
                seq![SqlValueView::Text(directories[i]@)],
            ),
{
}

/// The search pattern is `%`, the search form unchanged, then `%`.
pub proof fn lemma_search_pattern_wraps(prepared: Seq<char>)
    ensures
        spec_search_pattern(prepared).len() == prepared.len() + 2,
        spec_search_pattern(prepared)[0] == '%',
        spec_search_pattern(prepared)[prepared.len() as int + 1] == '%',
        spec_search_pattern(prepared).subrange(1, prepared.len() as int + 1) == prepared,
{
    assert(spec_search_pattern(prepared).subrange(1, prepared.len() as int + 1) =~= prepared);
}

/// An optional text is bound as that text, or as `NULL` where there is
/// none.
pub proof fn lemma_optional_text_binds_text(s: Option<String>)
    ensures
        s matches Some(t) ==> optional_text_view(s) == SqlValueView::Text(t@),
        s is None ==> optional_text_view(s) == SqlValueView::Null,
{
}

/// The insert of a scanned track binds, in the order of the columns it
/// names, the track's file path, file name and title, the title's search
/// form, the album's id, the artist's id, the duration, the plain lyrics
/// and the synced lyrics (each `NULL` only where the track has none), and
/// the instrumental flag.
pub proof fn lemma_track_insert_binds_columns(
    track: FsTrack,
    title_lower: Seq<char>,
    album_id: i64,
    artist_id: i64,
    instrumental: bool,
)
    ensures
        ({
            let v = insert_track_view(track, title_lower, album_id, artist_id, instrumental);
            &&& v.sql == INSERT_TRACK@
            &&& v.params.len() == 10
            &&& v.params[0] == SqlValueView::Text(track.file_path@)
            &&& v.params[1] == SqlValueView::Text(track.file_name@)
            &&& v.params[2] == SqlValueView::Text(track.title@)
            &&& v.params[3] == SqlValueView::Text(title_lower)
            &&& v.params[4] == SqlValueView::Integer(album_id)
            &&& v.params[5] == SqlValueView::Integer(artist_id)
            &&& v.params[6] == SqlValueView::Real(track.duration_bits)
            &&& (track.txt_lyrics matches Some(t) ==> v.params[7] == SqlValueView::Text(t@))
            &&& (track.txt_lyrics is None ==> v.params[7] == SqlValueView::Null)
            &&& (track.lrc_lyrics matches Some(t) ==> v.params[8] == SqlValueView::Text(t@))
            &&& (track.lrc_lyrics is None ==> v.params[8] == SqlValueView::Null)
            &&& v.params[9] == SqlValueView::Bool(instrumental)
        }),
{
}

} // verus!
