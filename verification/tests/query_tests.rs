use lrcget::entities::FsTrack;
use lrcget::queries::{
    add_album_statement, add_artist_statement, add_track_statement, clean_library_statements, find_album_query,
    find_artist_query, get_album_by_id_query, get_album_ids_query, get_album_track_ids_query, get_album_tracks_query,
    get_albums_query, get_artist_by_id_query, get_artist_ids_query, get_artist_track_ids_query,
    get_artist_tracks_query, get_artists_query, get_config_query, get_directories_query, get_init_query,
    get_no_lyrics_track_ids_query, get_search_track_ids_query, get_track_by_id_query, get_track_ids_query,
    get_tracks_query, search_pattern, set_config_statement, set_directories_statements, set_init_statement,
    update_track_instrumental_statement, update_track_null_lyrics_statement, update_track_plain_lyrics_statement,
    update_track_synced_lyrics_statement, INSERT_TRACK, SEARCH_TRACK_IDS, SELECT_TRACK_BY_ID,
};
use lrcget::sql::{SqlValue, Statement};

fn text(s: &str) -> SqlValue {
    SqlValue::Text(String::from(s))
}

fn st(sql: &'static str, params: Vec<SqlValue>) -> Statement {
    Statement { sql, params }
}

#[test]
fn directories_are_replaced_in_order() {
    let dirs = vec![String::from("/music"), String::from("/more music")];
    assert_eq!(
        set_directories_statements(&dirs),
        vec![
            st("DELETE FROM directories WHERE 1", vec![]),
            st("INSERT INTO directories (path) VALUES (@path)", vec![text("/music")]),
            st("INSERT INTO directories (path) VALUES (@path)", vec![text("/more music")]),
        ]
    );
    assert_eq!(set_directories_statements(&Vec::new()), vec![st("DELETE FROM directories WHERE 1", vec![])]);
    assert_eq!(get_directories_query(), st("SELECT * FROM directories", vec![]));
}

#[test]
fn init_and_config_statements() {
    assert_eq!(get_init_query(), st("SELECT init FROM library_data LIMIT 1", vec![]));
    assert_eq!(set_init_statement(true), st("UPDATE library_data SET init = ? WHERE 1", vec![SqlValue::Bool(true)]));
    assert_eq!(
        get_config_query(),
        st("SELECT skip_not_needed_tracks, try_embed_lyrics FROM config_data LIMIT 1", vec![])
    );
    assert_eq!(
        set_config_statement(false, true),
        st(
            "UPDATE config_data SET skip_not_needed_tracks = ?, try_embed_lyrics = ? WHERE 1",
            vec![SqlValue::Bool(false), SqlValue::Bool(true)]
        )
    );
}

#[test]
fn artist_and_album_statements() {
    assert_eq!(find_artist_query("Björk"), st("SELECT id FROM artists WHERE name = ?", vec![text("Björk")]));
    assert_eq!(
        add_artist_statement("Björk", "bjork"),
        st("INSERT INTO artists (name, name_lower) VALUES (?, ?)", vec![text("Björk"), text("bjork")])
    );
    assert_eq!(
        find_album_query("Post", 3),
        st("SELECT id FROM albums WHERE name = ? AND artist_id = ?", vec![text("Post"), SqlValue::Integer(3)])
    );
    assert_eq!(
        add_album_statement("Post", "post", 3),
        st(
            "INSERT INTO albums (name, name_lower, artist_id) VALUES (?, ?, ?)",
            vec![text("Post"), text("post"), SqlValue::Integer(3)]
        )
    );
}

#[test]
fn lyrics_updates() {
    assert_eq!(
        update_track_synced_lyrics_statement(5, "[00:01.00] a", "a"),
        st(
            "UPDATE tracks SET lrc_lyrics = ?, txt_lyrics = ?, instrumental = false WHERE id = ?",
            vec![text("[00:01.00] a"), text("a"), SqlValue::Integer(5)]
        )
    );
    assert_eq!(
        update_track_plain_lyrics_statement(5, "a"),
        st(
            "UPDATE tracks SET txt_lyrics = ?, lrc_lyrics = null, instrumental = false WHERE id = ?",
            vec![text("a"), SqlValue::Integer(5)]
        )
    );
    assert_eq!(
        update_track_null_lyrics_statement(5),
        st(
            "UPDATE tracks SET txt_lyrics = null, lrc_lyrics = null, instrumental = false WHERE id = ?",
            vec![SqlValue::Integer(5)]
        )
    );
    assert_eq!(
        update_track_instrumental_statement(5),
        st(
            "UPDATE tracks SET txt_lyrics = null, lrc_lyrics = ?, instrumental = true WHERE id = ?",
            vec![text("[au: instrumental]"), SqlValue::Integer(5)]
        )
    );
}

#[test]
fn track_insert_binds_columns_in_order() {
    let track = FsTrack {
        file_path: String::from("/music/a.flac"),
        file_name: String::from("a.flac"),
        title: String::from("Army of Me"),
        album: String::from("Post"),
        artist: String::from("Björk"),
        duration_bits: 234.5f64.to_bits(),
        txt_lyrics: None,
        lrc_lyrics: Some(String::from("[au: instrumental]")),
    };
    let s = add_track_statement(&track, "army of me", 2, 3, true);
    assert_eq!(s.sql, INSERT_TRACK);
    assert_eq!(
        s.params,
        vec![
            text("/music/a.flac"),
            text("a.flac"),
            text("Army of Me"),
            text("army of me"),
            SqlValue::Integer(2),
            SqlValue::Integer(3),
            SqlValue::Real(234.5f64.to_bits()),
            SqlValue::Null,
            text("[au: instrumental]"),
            SqlValue::Bool(true),
        ]
    );
}

#[test]
fn search_binds_pattern_three_times() {
    assert_eq!(search_pattern("army"), "%army%");
    assert_eq!(search_pattern(""), "%%");
    assert_eq!(get_search_track_ids_query("army"), st(SEARCH_TRACK_IDS, vec![text("%army%"), text("%army%"), text("%army%")]));
}

#[test]
fn listing_queries() {
    assert_eq!(get_track_by_id_query(4), st(SELECT_TRACK_BY_ID, vec![SqlValue::Integer(4)]));
    assert!(get_tracks_query().sql.ends_with("ORDER BY title_lower ASC\n"));
    assert_eq!(get_track_ids_query(), st("SELECT id FROM tracks ORDER BY title_lower ASC", vec![]));
    assert_eq!(
        get_no_lyrics_track_ids_query(),
        st("SELECT id FROM tracks WHERE lrc_lyrics IS NULL AND instrumental != true ORDER BY title_lower ASC", vec![])
    );
    assert!(get_albums_query().params.is_empty());
    assert_eq!(get_album_by_id_query(8).params, vec![SqlValue::Integer(8)]);
    assert_eq!(get_album_ids_query(), st("SELECT id FROM albums ORDER BY name_lower ASC", vec![]));
    assert!(get_artists_query().params.is_empty());
    assert_eq!(get_artist_by_id_query(8).params, vec![SqlValue::Integer(8)]);
    assert_eq!(get_artist_ids_query(), st("SELECT id FROM artists ORDER BY name_lower ASC", vec![]));
    assert_eq!(get_album_tracks_query(6).params, vec![SqlValue::Integer(6)]);
    assert!(get_album_tracks_query(6).sql.contains("WHERE tracks.album_id = ?"));
    assert_eq!(get_album_track_ids_query(6).params, vec![SqlValue::Integer(6)]);
    assert_eq!(get_artist_tracks_query(6).params, vec![SqlValue::Integer(6)]);
    assert!(get_artist_tracks_query(6).sql.contains("WHERE tracks.artist_id = ?"));
    assert_eq!(get_artist_track_ids_query(6).params, vec![SqlValue::Integer(6)]);
}

#[test]
fn cleaning_deletes_tracks_albums_artists() {
    assert_eq!(
        clean_library_statements(),
        vec![
            st("DELETE FROM tracks WHERE 1", vec![]),
            st("DELETE FROM albums WHERE 1", vec![]),
            st("DELETE FROM artists WHERE 1", vec![]),
        ]
    );
}
