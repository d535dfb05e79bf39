use vstd::prelude::*;
use vstd::seq_lib::lemma_flatten_concat;
use crate::sql::{statement_view, SqlValue, SqlValueView, Statement, StatementView};

verus! {

/// The schema version that this library reads and writes.
pub const CURRENT_DB_VERSION: u32 = 4;

/// Reads the schema version stored in the database file.
pub const USER_VERSION_QUERY: &'static str = "PRAGMA user_version";

/// Version 1: the tables of the library and their first rows.
pub const SCHEMA_V1: &'static str = "CREATE TABLE directories (\n  id INTEGER PRIMARY KEY,\n  path TEXT\n);\n\nCREATE TABLE library_data (\n  id INTEGER PRIMARY KEY,\n  init BOOLEAN\n);\n\nCREATE TABLE config_data (\n  id INTEGER PRIMARY KEY,\n  skip_not_needed_tracks BOOLEAN,\n  try_embed_lyrics BOOLEAN\n);\n\nCREATE TABLE artists (\n  id INTEGER PRIMARY KEY,\n  name TEXT\n);\n\nCREATE TABLE albums (\n  id INTEGER PRIMARY KEY,\n  name TEXT,\n  artist_id INTEGER,\n  image_path TEXT,\n  FOREIGN KEY(artist_id) REFERENCES artists(id)\n);\n\nCREATE TABLE tracks (\n  id INTEGER PRIMARY KEY,\n  file_path TEXT,\n  file_name TEXT,\n  title TEXT,\n  album_id INTEGER,\n  artist_id INTEGER,\n  duration FLOAT,\n  lrc_lyrics TEXT,\n  FOREIGN KEY(artist_id) REFERENCES artists(id),\n  FOREIGN KEY(album_id) REFERENCES albums(id)\n);\n\nINSERT INTO library_data (init) VALUES (0);\nINSERT INTO config_data (skip_not_needed_tracks, try_embed_lyrics) VALUES (1, 0);\n";

/// Version 2: plain lyrics and the name indexes.
pub const SCHEMA_V2: &'static str = "ALTER TABLE tracks ADD txt_lyrics TEXT;\nCREATE INDEX idx_tracks_title ON tracks(title);\nCREATE INDEX idx_albums_name ON albums(name);\nCREATE INDEX idx_artists_name ON artists(name);\n";

/// Version 3: the instrumental flag.
pub const SCHEMA_V3: &'static str = "ALTER TABLE tracks ADD instrumental BOOLEAN;\n";

/// Version 4: the lower-case search columns and their indexes.
pub const SCHEMA_V4: &'static str = "ALTER TABLE tracks ADD title_lower TEXT;\nALTER TABLE albums ADD name_lower TEXT;\nALTER TABLE artists ADD name_lower TEXT;\nCREATE INDEX idx_tracks_title_lower ON tracks(title_lower);\nCREATE INDEX idx_albums_name_lower ON albums(name_lower);\nCREATE INDEX idx_artists_name_lower ON artists(name_lower);\n";

pub const SELECT_TRACK_TITLES: &'static str = "SELECT id, title FROM tracks";
pub const UPDATE_TRACK_TITLE_LOWER: &'static str = "UPDATE tracks SET title_lower = ? WHERE id = ?";
pub const SELECT_ALBUM_NAMES: &'static str = "SELECT id, name FROM albums";
pub const UPDATE_ALBUM_NAME_LOWER: &'static str = "UPDATE albums SET name_lower = ? WHERE id = ?";
pub const SELECT_ARTIST_NAMES: &'static str = "SELECT id, name FROM artists";
pub const UPDATE_ARTIST_NAME_LOWER: &'static str = "UPDATE artists SET name_lower = ? WHERE id = ?";

/// A search column that version 4 adds and fills in from the names
/// already stored.
#[derive(Clone, Copy, Debug, PartialEq, Eq)]
pub enum LowercaseColumn {
    TrackTitle,
    AlbumName,
    ArtistName,
}

impl LowercaseColumn {
    pub open spec fn spec_select_sql(self) -> &'static str {
        match self {
            LowercaseColumn::TrackTitle => SELECT_TRACK_TITLES,
            LowercaseColumn::AlbumName => SELECT_ALBUM_NAMES,
            LowercaseColumn::ArtistName => SELECT_ARTIST_NAMES,
        }
    }

    pub open spec fn spec_update_sql(self) -> &'static str {
        match self {
            LowercaseColumn::TrackTitle => UPDATE_TRACK_TITLE_LOWER,
            LowercaseColumn::AlbumName => UPDATE_ALBUM_NAME_LOWER,
            LowercaseColumn::ArtistName => UPDATE_ARTIST_NAME_LOWER,
        }
    }

    /// The query that reads each row's id and name, in this order.
    #[verifier::when_used_as_spec(spec_select_sql)]
    pub fn select_sql(self) -> (r: &'static str)
        ensures
            r == self.spec_select_sql(),
    {
        match self {
            LowercaseColumn::TrackTitle => SELECT_TRACK_TITLES,
            LowercaseColumn::AlbumName => SELECT_ALBUM_NAMES,
            LowercaseColumn::ArtistName => SELECT_ARTIST_NAMES,
        }
    }

    /// The statement that stores one row's lower-case name: the name is
    /// bound first, the id second.
    #[verifier::when_used_as_spec(spec_update_sql)]
    pub fn update_sql(self) -> (r: &'static str)
        ensures
            r == self.spec_update_sql(),
    {
        match self {
            LowercaseColumn::TrackTitle => UPDATE_TRACK_TITLE_LOWER,
            LowercaseColumn::AlbumName => UPDATE_ALBUM_NAME_LOWER,
            LowercaseColumn::ArtistName => UPDATE_ARTIST_NAME_LOWER,
        }
    }
}

/// The columns that version 4 fills in, in the order it fills them.
pub open spec fn spec_lowercase_columns() -> Seq<LowercaseColumn> {
    seq![LowercaseColumn::TrackTitle, LowercaseColumn::AlbumName, LowercaseColumn::ArtistName]
}

pub fn lowercase_columns() -> (r: Vec<LowercaseColumn>)
    ensures
        r@ == spec_lowercase_columns(),
{
    let r = vec![LowercaseColumn::TrackTitle, LowercaseColumn::AlbumName, LowercaseColumn::ArtistName];
    assert(r@ =~= spec_lowercase_columns());
    r
}

/// The model of the statement that stores the lower-case name `lowered`
/// of the row `id`.
pub open spec fn backfill_view(column: LowercaseColumn, id: i64, lowered: Seq<char>) -> StatementView {
    statement_view(column.spec_update_sql(), seq![SqlValueView::Text(lowered), SqlValueView::Integer(id)])
}

/// The statements that store the lower-case names of the rows read by
/// `column.select_sql()`; `rows[i]` holds the id of a row and its name as
/// the search normalisation renders it.
pub fn backfill_statements(column: LowercaseColumn, rows: &Vec<(i64, String)>) -> (r: Vec<Statement>)
    ensures
        r@.len() == rows@.len(),
        forall|i: int|
            0 <= i < rows@.len() ==> #[trigger] r@[i]@ == backfill_view(column, rows@[i].0, rows@[i].1@),
{
    let mut out: Vec<Statement> = Vec::new();
    let n = rows.len();
    for i in 0..n
        invariant
            n == rows@.len(),
            out@.len() == i,
            forall|j: int| 0 <= j < i ==> #[trigger] out@[j]@ == backfill_view(column, rows@[j].0, rows@[j].1@),
    {
        let (id, lowered) = &rows[i];
        let mut params: Vec<SqlValue> = Vec::new();
        params.push(SqlValue::Text(lowered.clone()));
        params.push(SqlValue::Integer(*id));
        let st = Statement { sql: column.update_sql(), params };
        assert(st@.params =~= seq![SqlValueView::Text(rows@[i as int].1@), SqlValueView::Integer(rows@[i as int].0)]);
        out.push(st);
    }
    out
}

/// One step of the upgrade: the schema version it records, whether the
/// journal is switched to write-ahead logging before its transaction, the
/// batch that its transaction runs, and whether the lower-case columns are
/// filled in after the batch, in the same transaction.
#[derive(Clone, Copy, Debug, PartialEq, Eq)]
pub struct MigrationStep {
    pub version: u32,
    pub enable_wal: bool,
    pub schema_sql: &'static str,
    pub backfill_lowercase: bool,
}

/// The step that brings a database from `version - 1` to `version`.
pub open spec fn step_for(version: u32) -> MigrationStep {
    if version == 1 {
        MigrationStep { version: 1, enable_wal: true, schema_sql: SCHEMA_V1, backfill_lowercase: false }
    } else if version == 2 {
        MigrationStep { version: 2, enable_wal: true, schema_sql: SCHEMA_V2, backfill_lowercase: false }
    } else if version == 3 {
        MigrationStep { version: 3, enable_wal: false, schema_sql: SCHEMA_V3, backfill_lowercase: false }
    } else {
        MigrationStep { version: 4, enable_wal: false, schema_sql: SCHEMA_V4, backfill_lowercase: true }
    }
}

/// The versions whose steps an upgrade from `existing` runs, in order:
/// every version above `existing` up to the current one.
pub open spec fn pending_versions(existing: u32) -> Seq<u32> {
    if existing >= CURRENT_DB_VERSION {
        Seq::empty()
    } else {
        Seq::new((CURRENT_DB_VERSION - existing) as nat, |i: int| (existing + 1 + i) as u32)
    }
}

/// The steps of an upgrade from the stored version `existing`.
pub open spec fn planned_steps(existing: u32) -> Seq<MigrationStep> {
    pending_versions(existing).map_values(|v: u32| step_for(v))
}

/// The schema version a database holds after the upgrade from `existing`.
pub open spec fn version_after_upgrade(existing: u32) -> u32 {
    if existing >= CURRENT_DB_VERSION {
        existing
    } else {
        CURRENT_DB_VERSION
    }
}

fn step_v1() -> (r: MigrationStep)
    ensures
        r == step_for(1),
{
    MigrationStep { version: 1, enable_wal: true, schema_sql: SCHEMA_V1, backfill_lowercase: false }
}

fn step_v2() -> (r: MigrationStep)
    ensures
        r == step_for(2),
{
    MigrationStep { version: 2, enable_wal: true, schema_sql: SCHEMA_V2, backfill_lowercase: false }
}

fn step_v3() -> (r: MigrationStep)
    ensures
        r == step_for(3),
{
    MigrationStep { version: 3, enable_wal: false, schema_sql: SCHEMA_V3, backfill_lowercase: false }
}

fn step_v4() -> (r: MigrationStep)
    ensures
        r == step_for(4),
{
    MigrationStep { version: 4, enable_wal: false, schema_sql: SCHEMA_V4, backfill_lowercase: true }
}

/// The steps that bring a database stored at `existing_version` to the
/// current version, in the order they run.
pub fn upgrade_plan(existing_version: u32) -> (r: Vec<MigrationStep>)
    ensures
        r@ == planned_steps(existing_version),
{
    let mut steps: Vec<MigrationStep> = Vec::new();
    if existing_version < CURRENT_DB_VERSION {
        if existing_version <= 0 {
            steps.push(step_v1());
        }
        if existing_version <= 1 {
            steps.push(step_v2());
        }
        if existing_version <= 2 {
            steps.push(step_v3());
        }
        if existing_version <= 3 {
            steps.push(step_v4());
        }
    }
    assert(steps@ =~= planned_steps(existing_version));
    steps
}

/// The table whose search column `column` is.
pub open spec fn column_table(column: LowercaseColumn) -> &'static str {
    match column {
        LowercaseColumn::TrackTitle => "tracks",
        LowercaseColumn::AlbumName => "albums",
        LowercaseColumn::ArtistName => "artists",
    }
}

/// The name column that `column` holds the search form of.
pub open spec fn column_source(column: LowercaseColumn) -> &'static str {
    match column {
        LowercaseColumn::TrackTitle => "title",
        LowercaseColumn::AlbumName => "name",
        LowercaseColumn::ArtistName => "name",
    }
}

/// The fill of each search column reads the names from the same table that
/// its update writes: the select reads `id` and the name column from the
/// column's table, and the update stores into that table's search column
/// (the name column's name followed by `_lower`) the row with that id.
pub proof fn lemma_backfill_reads_and_writes_one_table(column: LowercaseColumn)
    ensures
        column.spec_select_sql()@ == "SELECT id, "@ + column_source(column)@ + " FROM "@ + column_table(column)@,
        column.spec_update_sql()@ == "UPDATE "@ + column_table(column)@ + " SET "@ + column_source(column)@
            + "_lower = ? WHERE id = ?"@,
{
    reveal_strlit("SELECT id, ");
    reveal_strlit(" FROM ");
    reveal_strlit("UPDATE ");
    reveal_strlit(" SET ");
    reveal_strlit("_lower = ? WHERE id = ?");
    reveal_strlit("tracks");
    reveal_strlit("albums");
    reveal_strlit("artists");
    reveal_strlit("title");
    reveal_strlit("name");
    reveal_strlit("SELECT id, title FROM tracks");
    reveal_strlit("UPDATE tracks SET title_lower = ? WHERE id = ?");
    reveal_strlit("SELECT id, name FROM albums");
    reveal_strlit("UPDATE albums SET name_lower = ? WHERE id = ?");
    reveal_strlit("SELECT id, name FROM artists");
    reveal_strlit("UPDATE artists SET name_lower = ? WHERE id = ?");
    match column {
        LowercaseColumn::TrackTitle => {
            assert(column.spec_select_sql()@ =~= "SELECT id, "@ + column_source(column)@ + " FROM "@ + column_table(column)@);
            assert(column.spec_update_sql()@ =~= "UPDATE "@ + column_table(column)@ + " SET "@ + column_source(column)@
                + "_lower = ? WHERE id = ?"@);
        },
        LowercaseColumn::AlbumName => {
            assert(column.spec_select_sql()@ =~= "SELECT id, "@ + column_source(column)@ + " FROM "@ + column_table(column)@);
            assert(column.spec_update_sql()@ =~= "UPDATE "@ + column_table(column)@ + " SET "@ + column_source(column)@
                + "_lower = ? WHERE id = ?"@);
        },
        LowercaseColumn::ArtistName => {
            assert(column.spec_select_sql()@ =~= "SELECT id, "@ + column_source(column)@ + " FROM "@ + column_table(column)@);
            assert(column.spec_update_sql()@ =~= "UPDATE "@ + column_table(column)@ + " SET "@ + column_source(column)@
                + "_lower = ? WHERE id = ?"@);
        },
    }
}

/// Version 4 fills the three search columns, each once: track titles,
/// album names, artist names, in this order, one per table.
pub proof fn lemma_lowercase_columns_cover_each_table()
    ensures
        spec_lowercase_columns().len() == 3,
        column_table(spec_lowercase_columns()[0]) == "tracks",
        column_table(spec_lowercase_columns()[1]) == "albums",
        column_table(spec_lowercase_columns()[2]) == "artists",
        spec_lowercase_columns()[0] == LowercaseColumn::TrackTitle,
        spec_lowercase_columns()[1] == LowercaseColumn::AlbumName,
        spec_lowercase_columns()[2] == LowercaseColumn::ArtistName,
{
}

/// The fill of a row binds the row's search form first and its id second,
/// to the column's update.
pub proof fn lemma_backfill_binds_form_then_id(column: LowercaseColumn, id: i64, lowered: Seq<char>)
    ensures
        backfill_view(column, id, lowered).sql == column.spec_update_sql()@,
        backfill_view(column, id, lowered).params.len() == 2,
        backfill_view(column, id, lowered).params[0] == SqlValueView::Text(lowered),
        backfill_view(column, id, lowered).params[1] == SqlValueView::Integer(id),
{
}

/// The step to version `v` records `v`; only the steps to versions 1 and 2
/// switch the journal to write-ahead logging; only the step to version 4
/// fills the search columns; and each runs the batch of its own version.
pub proof fn lemma_step_contents(v: u32)
    requires
        1 <= v <= CURRENT_DB_VERSION,
    ensures
        step_for(v).version == v,
        step_for(v).enable_wal <==> (v == 1 || v == 2),
        step_for(v).backfill_lowercase <==> v == 4,
        v == 1 ==> step_for(v).schema_sql == SCHEMA_V1,
        v == 2 ==> step_for(v).schema_sql == SCHEMA_V2,
        v == 3 ==> step_for(v).schema_sql == SCHEMA_V3,
        v == 4 ==> step_for(v).schema_sql == SCHEMA_V4,
{
}

/// One piece of work of an upgrade, in the order the caller runs them.
#[derive(Clone, Copy, Debug, PartialEq, Eq)]
pub enum MigrationAction {
    /// Switch the journal to write-ahead logging (outside any transaction).
    EnableWal,
    /// Open the step's transaction.
    BeginTransaction,
    /// Record this schema version (`PRAGMA user_version`).
    SetUserVersion(u32),
    /// Run this batch of statements.
    ExecuteBatch(&'static str),
    /// Read every row's id and name with `column.select_sql()` and store
    /// the search forms with `backfill_statements`.
    Backfill(LowercaseColumn),
    /// Commit the step's transaction.
    Commit,
}

/// The work of one step: the journal switch where the step asks for it,
/// then, in one transaction, the version record, the batch, and the fill of
/// the search columns where the step asks for it.
pub open spec fn step_actions(step: MigrationStep) -> Seq<MigrationAction> {
    let wal: Seq<MigrationAction> = if step.enable_wal {
        seq![MigrationAction::EnableWal]
    } else {
        Seq::empty()
    };
    let backfill: Seq<MigrationAction> = if step.backfill_lowercase {
        spec_lowercase_columns().map_values(|c: LowercaseColumn| MigrationAction::Backfill(c))
    } else {
        Seq::empty()
    };
    wal + seq![
        MigrationAction::BeginTransaction,
        MigrationAction::SetUserVersion(step.version),
        MigrationAction::ExecuteBatch(step.schema_sql),
    ] + backfill + seq![MigrationAction::Commit]
}

/// The work of the steps `steps`, one step after the other.
pub open spec fn actions_of_steps(steps: Seq<MigrationStep>) -> Seq<MigrationAction> {
    steps.map_values(|step: MigrationStep| step_actions(step)).flatten()
}

/// The work of the upgrade from the stored version `existing`.
pub open spec fn planned_actions(existing: u32) -> Seq<MigrationAction> {
    actions_of_steps(planned_steps(existing))
}

/// The work of one step, in order.
pub fn migration_step_actions(step: MigrationStep) -> (r: Vec<MigrationAction>)
    ensures
        r@ == step_actions(step),
{
    let mut r: Vec<MigrationAction> = Vec::new();
    if step.enable_wal {
        r.push(MigrationAction::EnableWal);
    }
    r.push(MigrationAction::BeginTransaction);
    r.push(MigrationAction::SetUserVersion(step.version));
    r.push(MigrationAction::ExecuteBatch(step.schema_sql));
    if step.backfill_lowercase {
        let columns = lowercase_columns();
        let n = columns.len();
        for i in 0..n
            invariant
                n == columns@.len(),
                columns@ == spec_lowercase_columns(),
                r@ == (if step.enable_wal { seq![MigrationAction::EnableWal] } else { Seq::empty() }) + seq![
                    MigrationAction::BeginTransaction,
                    MigrationAction::SetUserVersion(step.version),
                    MigrationAction::ExecuteBatch(step.schema_sql),
                ] + columns@.take(i as int).map_values(|c: LowercaseColumn| MigrationAction::Backfill(c)),
        {
            let ghost before = r@;
            r.push(MigrationAction::Backfill(columns[i]));
            assert(columns@.take(i as int + 1).map_values(|c: LowercaseColumn| MigrationAction::Backfill(c))
                =~= columns@.take(i as int).map_values(|c: LowercaseColumn| MigrationAction::Backfill(c)).push(
                MigrationAction::Backfill(columns@[i as int]),
            ));
            assert(r@ =~= before.push(MigrationAction::Backfill(columns@[i as int])));
        }
        assert(columns@.take(n as int) =~= columns@);
    }
    r.push(MigrationAction::Commit);
    assert(r@ =~= step_actions(step));
    r
}

/// The work that brings a database stored at `existing_version` to the
/// current version, step after step.
pub fn upgrade_actions(existing_version: u32) -> (r: Vec<MigrationAction>)
    ensures
        r@ == planned_actions(existing_version),
{
    let plan = upgrade_plan(existing_version);
    let mut r: Vec<MigrationAction> = Vec::new();
    let n = plan.len();
    for i in 0..n
        invariant
            n == plan@.len(),
            plan@ == planned_steps(existing_version),
            r@ == actions_of_steps(plan@.take(i as int)),
    {
        let mut step = migration_step_actions(plan[i]);
        let ghost before = r@;
        r.append(&mut step);
        proof {
            let f = |step: MigrationStep| step_actions(step);
            assert(plan@.take(i as int + 1).map_values(f) =~= plan@.take(i as int).map_values(f).push(
                step_actions(plan@[i as int]),
            ));
            plan@.take(i as int).map_values(f).lemma_flatten_push(step_actions(plan@[i as int]));
        }
    }
    assert(plan@.take(n as int) =~= plan@);
    r
}

/// Each step is one transaction: only the journal switch comes before it;
/// it opens, records the step's version first, runs the step's batch, and
/// commits last; nothing in between opens, commits or switches the journal.
pub proof fn lemma_step_is_one_transaction(step: MigrationStep)
    ensures
        ({
            let a = step_actions(step);
            let b: int = if step.enable_wal { 1 } else { 0 };
            &&& a.len() >= b + 4
            &&& step.enable_wal ==> a[0] == MigrationAction::EnableWal
            &&& a[b] == MigrationAction::BeginTransaction
            &&& a[b + 1] == MigrationAction::SetUserVersion(step.version)
            &&& a[b + 2] == MigrationAction::ExecuteBatch(step.schema_sql)
            &&& a.last() == MigrationAction::Commit
            &&& forall|i: int|
                b < i < a.len() - 1 ==> !(#[trigger] a[i] is BeginTransaction || a[i] is Commit
                    || a[i] is EnableWal)
        }),
{
    let a = step_actions(step);
    let b: int = if step.enable_wal { 1 } else { 0 };
    assert forall|i: int| b < i < a.len() - 1 implies !(#[trigger] a[i] is BeginTransaction || a[i] is Commit
        || a[i] is EnableWal) by {
        if i >= b + 3 {
            assert(step.backfill_lowercase);
            assert(a[i] == spec_lowercase_columns().map_values(|c: LowercaseColumn| MigrationAction::Backfill(c))[i
                - b - 3]);
        }
    }
}

/// An upgrade that stops after its `k`-th commit leaves the database at a
/// version from which the next upgrade runs exactly the steps that were
/// left: the work of the upgrade is the work of its first `k` steps, the
/// last of which records `existing + k`, followed by the work of the
/// upgrade from `existing + k`.
pub proof fn lemma_failed_upgrade_resumes(existing: u32, k: int)
    requires
        existing < CURRENT_DB_VERSION,
        0 < k <= CURRENT_DB_VERSION - existing,
    ensures
        planned_steps(existing).take(k).last().version == existing + k,
        planned_steps((existing + k) as u32) == planned_steps(existing).skip(k),
        planned_actions(existing) == actions_of_steps(planned_steps(existing).take(k)) + planned_actions(
            (existing + k) as u32,
        ),
{
    let steps = planned_steps(existing);
    let f = |step: MigrationStep| step_actions(step);
    assert(planned_steps((existing + k) as u32) =~= steps.skip(k));
    assert(steps =~= steps.take(k) + steps.skip(k));
    assert(steps.map_values(f) =~= steps.take(k).map_values(f) + steps.skip(k).map_values(f));
    lemma_flatten_concat(steps.take(k).map_values(f), steps.skip(k).map_values(f));
}

/// An upgrade of a database below the current version runs at least one
/// step, and its last step records the current version.
pub proof fn lemma_upgrade_reaches_current(existing: u32)
    requires
        existing < CURRENT_DB_VERSION,
    ensures
        planned_steps(existing).len() > 0,
        planned_steps(existing).last().version == CURRENT_DB_VERSION,
        planned_steps(existing).last().version == version_after_upgrade(existing),
{
}

/// A database at or above the current version is left as it is.
pub proof fn lemma_up_to_date_is_left_alone(existing: u32)
    requires
        existing >= CURRENT_DB_VERSION,
    ensures
        planned_steps(existing).len() == 0,
        version_after_upgrade(existing) == existing,
{
}

/// The steps of an upgrade record strictly increasing versions, each above
/// the stored one and at most the current one, and every version above the
/// stored one up to the current one has its step, at the place given by how
/// far it lies above the stored version.
pub proof fn lemma_steps_ascend(existing: u32)
    ensures
        forall|i: int, j: int|
            0 <= i < j < planned_steps(existing).len() ==> #[trigger] planned_steps(existing)[i].version
                < #[trigger] planned_steps(existing)[j].version,
        forall|i: int|
            0 <= i < planned_steps(existing).len() ==> existing < #[trigger] planned_steps(existing)[i].version
                <= CURRENT_DB_VERSION,
        forall|v: u32|
            #![trigger step_for(v)]
            existing < v <= CURRENT_DB_VERSION ==> v - existing - 1 < planned_steps(existing).len()
                && planned_steps(existing)[v - existing - 1] == step_for(v) && step_for(v).version == v,
{
}

/// An upgrade from any stored version up to the current one runs the last
/// steps of the upgrade of a new database, in the same order.
pub proof fn lemma_plan_is_tail_of_full_upgrade(existing: u32)
    requires
        existing <= CURRENT_DB_VERSION,
    ensures
        planned_steps(existing) == planned_steps(0).skip(existing as int),
{
    assert(planned_steps(existing) =~= planned_steps(0).skip(existing as int));
}

/// Upgrading a database that was just upgraded runs no step.
pub proof fn lemma_upgrade_is_idempotent(existing: u32)
    ensures
        planned_steps(version_after_upgrade(existing)).len() == 0,
        version_after_upgrade(version_after_upgrade(existing)) == version_after_upgrade(existing),
{
}

} // verus!
