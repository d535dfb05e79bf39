use lrcget::entities::{track_from_row, FsTrack, PersistentTrack, TrackRow};
use lrcget::import::{prepare_import_item, ImportAction, ImportEvent, TrackImport};
use lrcget::queries::{
    clean_library_statements, get_config_query, get_directories_query, get_init_query,
    get_no_lyrics_track_ids_query, get_search_track_ids_query, get_track_by_id_query, get_track_ids_query,
    get_tracks_query, set_config_statement, set_directories_statements, set_init_statement,
    update_track_instrumental_statement, update_track_plain_lyrics_statement,
};
use lrcget::schema::{backfill_statements, upgrade_actions, upgrade_plan, MigrationAction, CURRENT_DB_VERSION, USER_VERSION_QUERY};
use lrcget::sql::{SqlValue, Statement};
use rusqlite::types::Value;
use rusqlite::{params_from_iter, Connection, Row};

fn value(v: &SqlValue) -> Value {
    match v {
        SqlValue::Null => Value::Null,
        SqlValue::Integer(i) => Value::Integer(*i),
        SqlValue::Real(bits) => Value::Real(f64::from_bits(*bits)),
        SqlValue::Text(s) => Value::Text(s.clone()),
        SqlValue::Bool(b) => Value::Integer(if *b { 1 } else { 0 }),
    }
}

fn values(st: &Statement) -> Vec<Value> {
    st.params.iter().map(value).collect()
}

fn run(conn: &Connection, st: &Statement) {
    conn.execute(st.sql, params_from_iter(values(st))).unwrap();
}

fn user_version(conn: &Connection) -> u32 {
    conn.query_row(USER_VERSION_QUERY, [], |r| r.get(0)).unwrap()
}

fn run_step_action(tx: &Connection, action: MigrationAction) {
    match action {
        MigrationAction::SetUserVersion(v) => tx.pragma_update(None, "user_version", v).unwrap(),
        MigrationAction::ExecuteBatch(sql) => tx.execute_batch(sql).unwrap(),
        MigrationAction::Backfill(col) => {
            let rows: Vec<(i64, String)> = {
                let mut s = tx.prepare(col.select_sql()).unwrap();
                let mapped = s.query_map([], |r| Ok((r.get::<_, i64>(0)?, r.get::<_, String>(1)?))).unwrap();
                mapped.map(|r| r.unwrap()).map(|(id, name)| (id, name.to_lowercase())).collect()
            };
            for st in backfill_statements(col, &rows) {
                tx.execute(st.sql, params_from_iter(values(&st))).unwrap();
            }
        }
        other => panic!("{:?}", other),
    }
}

/// Runs the upgrade's work, stopping after `max_commits` committed steps.
fn upgrade_some(conn: &mut Connection, max_commits: usize) {
    let existing = user_version(conn);
    let actions = upgrade_actions(existing);
    let mut i: usize = 0;
    let mut commits: usize = 0;
    while i < actions.len() && commits < max_commits {
        match actions[i] {
            MigrationAction::EnableWal => {
                conn.pragma_update(None, "journal_mode", "WAL").unwrap();
                i += 1;
            }
            MigrationAction::BeginTransaction => {
                let tx = conn.transaction().unwrap();
                i += 1;
                while actions[i] != MigrationAction::Commit {
                    run_step_action(&tx, actions[i]);
                    i += 1;
                }
                tx.commit().unwrap();
                commits += 1;
                i += 1;
            }
            other => panic!("{:?}", other),
        }
    }
}

fn upgrade(conn: &mut Connection) {
    upgrade_some(conn, usize::MAX);
}

fn import(conn: &Connection, mut imp: TrackImport) {
    while !imp.is_finished() {
        let ev = match imp.action() {
            ImportAction::BeginTransaction => {
                conn.execute_batch("BEGIN").unwrap();
                ImportEvent::Done
            }
            ImportAction::Lookup(st) => {
                ImportEvent::Found(conn.query_row(st.sql, params_from_iter(values(&st)), |r| r.get::<_, i64>(0)).ok())
            }
            ImportAction::Insert(st) => {
                let mut s = conn.prepare(st.sql).unwrap();
                ImportEvent::Inserted(s.insert(params_from_iter(values(&st))).unwrap())
            }
            ImportAction::Execute(st) => {
                run(conn, &st);
                ImportEvent::Done
            }
            ImportAction::Commit => {
                conn.execute_batch("COMMIT").unwrap();
                ImportEvent::Done
            }
            ImportAction::Finished => ImportEvent::Done,
        };
        imp.advance(ev);
    }
}

fn track_row(r: &Row<'_>) -> rusqlite::Result<TrackRow> {
    Ok(TrackRow {
        id: r.get("id")?,
        file_path: r.get("file_path")?,
        file_name: r.get("file_name")?,
        title: r.get("title")?,
        artist_name: r.get("artist_name")?,
        artist_id: r.get("artist_id")?,
        album_name: r.get("album_name")?,
        album_id: r.get("album_id")?,
        duration_bits: r.get::<_, f64>("duration")?.to_bits(),
        txt_lyrics: r.get("txt_lyrics")?,
        lrc_lyrics: r.get("lrc_lyrics")?,
        image_path: r.get("image_path")?,
        instrumental: r.get("instrumental")?,
    })
}

fn ids(conn: &Connection, st: &Statement) -> Vec<i64> {
    let mut s = conn.prepare(st.sql).unwrap();
    let rows = s.query_map(params_from_iter(values(st)), |r| r.get::<_, i64>(0)).unwrap();
    rows.map(|r| r.unwrap()).collect()
}

fn fs_track(title: &str, album: &str, artist: &str, lrc: Option<&str>) -> FsTrack {
    FsTrack {
        file_path: format!("/music/{}.flac", title),
        file_name: format!("{}.flac", title),
        title: String::from(title),
        album: String::from(album),
        artist: String::from(artist),
        duration_bits: 200.5f64.to_bits(),
        txt_lyrics: None,
        lrc_lyrics: lrc.map(String::from),
    }
}

fn prepared(t: FsTrack) -> lrcget::import::ImportItem {
    let (title, artist, album) = (t.title.to_lowercase(), t.artist.to_lowercase(), t.album.to_lowercase());
    prepare_import_item(t, title, artist, album).unwrap()
}

fn fresh() -> Connection {
    let mut conn = Connection::open_in_memory().unwrap();
    upgrade(&mut conn);
    conn
}

#[test]
fn upgrade_of_new_database_reaches_current_version() {
    let mut conn = Connection::open_in_memory().unwrap();
    assert_eq!(user_version(&conn), 0);
    upgrade(&mut conn);
    assert_eq!(user_version(&conn), CURRENT_DB_VERSION);
    upgrade(&mut conn);
    assert_eq!(user_version(&conn), CURRENT_DB_VERSION);
    let init: bool = conn.query_row(get_init_query().sql, [], |r| r.get(0)).unwrap();
    assert!(!init);
    let config: (bool, bool) = conn.query_row(get_config_query().sql, [], |r| Ok((r.get(0)?, r.get(1)?))).unwrap();
    assert_eq!(config, (true, false));
}

#[test]
fn upgrade_from_version_three_fills_search_columns() {
    let mut conn = Connection::open_in_memory().unwrap();
    for step in upgrade_plan(0).into_iter().take(3) {
        conn.pragma_update(None, "user_version", step.version).unwrap();
        conn.execute_batch(step.schema_sql).unwrap();
    }
    conn.execute_batch("INSERT INTO artists (name) VALUES ('ABBA'); INSERT INTO albums (name, artist_id) VALUES ('Gold', 1); INSERT INTO tracks (title, album_id, artist_id, duration) VALUES ('Waterloo', 1, 1, 1.0);").unwrap();
    assert_eq!(user_version(&conn), 3);
    upgrade(&mut conn);
    assert_eq!(user_version(&conn), 4);
    let lower: String = conn.query_row("SELECT title_lower FROM tracks WHERE id = 1", [], |r| r.get(0)).unwrap();
    assert_eq!(lower, "waterloo");
    let lower: String = conn.query_row("SELECT name_lower FROM artists WHERE id = 1", [], |r| r.get(0)).unwrap();
    assert_eq!(lower, "abba");
}

#[test]
fn interrupted_upgrade_resumes_from_the_recorded_version() {
    let mut conn = Connection::open_in_memory().unwrap();
    upgrade_some(&mut conn, 2);
    assert_eq!(user_version(&conn), 2);
    upgrade(&mut conn);
    assert_eq!(user_version(&conn), CURRENT_DB_VERSION);
    let tracks: i64 = conn.query_row("SELECT COUNT(*) FROM tracks WHERE title_lower IS NULL", [], |r| r.get(0)).unwrap();
    assert_eq!(tracks, 0);
}

#[test]
fn settings_round_trip() {
    let conn = fresh();
    run(&conn, &set_init_statement(true));
    let init: bool = conn.query_row(get_init_query().sql, [], |r| r.get(0)).unwrap();
    assert!(init);
    run(&conn, &set_config_statement(false, true));
    let config: (bool, bool) = conn.query_row(get_config_query().sql, [], |r| Ok((r.get(0)?, r.get(1)?))).unwrap();
    assert_eq!(config, (false, true));
    let dirs = vec![String::from("/a"), String::from("/b")];
    for st in set_directories_statements(&dirs) {
        run(&conn, &st);
    }
    for st in set_directories_statements(&vec![String::from("/c")]) {
        run(&conn, &st);
    }
    let mut s = conn.prepare(get_directories_query().sql).unwrap();
    let got: Vec<String> = s.query_map([], |r| r.get("path")).unwrap().map(|r| r.unwrap()).collect();
    assert_eq!(got, vec![String::from("/c")]);
}

#[test]
fn imported_tracks_share_artists_and_albums() {
    let conn = fresh();
    let batch = vec![
        prepared(fs_track("Waterloo", "Gold", "ABBA", None)),
        prepared(fs_track("Mamma Mia", "Gold", "ABBA", Some("[au: instrumental]"))),
        prepared(fs_track("Angie", "Goats Head Soup", "The Rolling Stones", Some("[00:01.00] angie"))),
    ];
    import(&conn, TrackImport::batch(batch));
    import(&conn, TrackImport::single(prepared(fs_track("SOS", "Gold", "ABBA", None))));
    let artists: i64 = conn.query_row("SELECT COUNT(*) FROM artists", [], |r| r.get(0)).unwrap();
    let albums: i64 = conn.query_row("SELECT COUNT(*) FROM albums", [], |r| r.get(0)).unwrap();
    assert_eq!((artists, albums), (2, 2));

    let mut s = conn.prepare(get_tracks_query().sql).unwrap();
    let tracks: Vec<PersistentTrack> =
        s.query_map([], track_row).unwrap().map(|r| track_from_row(r.unwrap())).collect();
    assert_eq!(
        tracks.iter().map(|t| t.title.clone()).collect::<Vec<String>>(),
        vec!["Angie", "Mamma Mia", "SOS", "Waterloo"]
    );
    assert_eq!(tracks.iter().map(|t| t.instrumental).collect::<Vec<bool>>(), vec![false, true, false, false]);
    assert_eq!(f64::from_bits(tracks[0].duration_bits), 200.5);
    assert_eq!(tracks[2].artist_name, "ABBA");
    assert_eq!(tracks[2].album_name, "Gold");

    assert_eq!(ids(&conn, &get_track_ids_query()).len(), 4);
    let found = ids(&conn, &get_search_track_ids_query("gold"));
    assert_eq!(found.len(), 3);
    let found = ids(&conn, &get_search_track_ids_query("angie"));
    assert_eq!(found.len(), 1);
    // tracks without synced lyrics that are not instrumental
    assert_eq!(ids(&conn, &get_no_lyrics_track_ids_query()).len(), 2);
}

#[test]
fn lyrics_updates_read_back() {
    let conn = fresh();
    import(&conn, TrackImport::single(prepared(fs_track("Waterloo", "Gold", "ABBA", None))));
    let id: i64 = ids(&conn, &get_track_ids_query())[0];
    run(&conn, &update_track_instrumental_statement(id));
    let q = get_track_by_id_query(id);
    let t = track_from_row(conn.query_row(q.sql, params_from_iter(values(&q)), track_row).unwrap());
    assert!(t.instrumental);
    assert_eq!(t.lrc_lyrics, Some(String::from("[au: instrumental]")));
    assert_eq!(t.txt_lyrics, None);
    run(&conn, &update_track_plain_lyrics_statement(id, "words"));
    let t = track_from_row(conn.query_row(q.sql, params_from_iter(values(&q)), track_row).unwrap());
    assert!(!t.instrumental);
    assert_eq!(t.lrc_lyrics, None);
    assert_eq!(t.txt_lyrics, Some(String::from("words")));
    for st in clean_library_statements() {
        run(&conn, &st);
    }
    assert!(ids(&conn, &get_track_ids_query()).is_empty());
}
