use vstd::prelude::*;
use crate::entities::FsTrack;
use crate::pattern::{lyrics_mark_instrumental, regex_compiles, regex_is_match, INSTRUMENTAL_MARKER};
use crate::queries::{
    add_album_statement, add_artist_statement, add_track_statement, find_album_query, find_artist_query,
    insert_track_view, FIND_ALBUM, FIND_ARTIST, INSERT_ALBUM, INSERT_ARTIST,
};
use crate::sql::{statement_view, SqlValueView, Statement, StatementView};

verus! {

/// A scanned track ready to be added: the track, the search forms of its
/// title, artist and album, and whether its synced lyrics mark it as
/// instrumental.
#[derive(Clone, Debug, PartialEq, Eq)]
pub struct ImportItem {
    pub track: FsTrack,
    pub title_lower: String,
    pub artist_lower: String,
    pub album_lower: String,
    pub instrumental: bool,
}

/// Prepares a scanned track for adding, given the search forms of its
/// title, artist and album: its instrumental flag is read from its synced
/// lyrics. `None` where the marker pattern is refused and the track has
/// synced lyrics.
pub fn prepare_import_item(
    track: FsTrack,
    title_lower: String,
    artist_lower: String,
    album_lower: String,
) -> (r: Option<ImportItem>)
    ensures
        match track.lrc_lyrics {
            None => r == Some(ImportItem { track, title_lower, artist_lower, album_lower, instrumental: false }),
            Some(l) => if regex_compiles(INSTRUMENTAL_MARKER@) {
                r == Some(
                    ImportItem {
                        track,
                        title_lower,
                        artist_lower,
                        album_lower,
                        instrumental: regex_is_match(INSTRUMENTAL_MARKER@, l@),
                    },
                )
            } else {
                r is None
            },
        },
{
    match lyrics_mark_instrumental(&track.lrc_lyrics) {
        Some(instrumental) => Some(ImportItem { track, title_lower, artist_lower, album_lower, instrumental }),
        None => None,
    }
}

/// Where an import stands. The ids are those of the artist and album that
/// the track being added belongs to, once they are known.
#[derive(Clone, Copy, Debug, PartialEq, Eq)]
pub enum ImportStage {
    Begin,
    LookupArtist,
    AddArtist,
    LookupAlbum { artist_id: i64 },
    AddAlbum { artist_id: i64 },
    InsertTrack { artist_id: i64, album_id: i64 },
    Commit,
    Done,
}

/// What the caller does next for an import.
#[derive(Clone, Debug, PartialEq, Eq)]
pub enum ImportAction {
    /// Open a transaction on the connection.
    BeginTransaction,
    /// Run the query for one row and read its first column as an id;
    /// report `Found(None)` where that fails.
    Lookup(Statement),
    /// Run the insert and report the id of the new row.
    Insert(Statement),
    /// Run the statement.
    Execute(Statement),
    /// Commit the transaction.
    Commit,
    /// Nothing is left to do.
    Finished,
}

/// The model of an action.
pub enum ImportActionView {
    BeginTransaction,
    Lookup(StatementView),
    Insert(StatementView),
    Execute(StatementView),
    Commit,
    Finished,
}

impl View for ImportAction {
    type V = ImportActionView;

    open spec fn view(&self) -> ImportActionView {
        match self {
            ImportAction::BeginTransaction => ImportActionView::BeginTransaction,
            ImportAction::Lookup(s) => ImportActionView::Lookup(s@),
            ImportAction::Insert(s) => ImportActionView::Insert(s@),
            ImportAction::Execute(s) => ImportActionView::Execute(s@),
            ImportAction::Commit => ImportActionView::Commit,
            ImportAction::Finished => ImportActionView::Finished,
        }
    }
}

/// What came of an action.
#[derive(Clone, Copy, Debug, PartialEq, Eq)]
pub enum ImportEvent {
    /// A transaction was opened or committed, or a statement ran.
    Done,
    /// A lookup found this id, or found nothing (`None`).
    Found(Option<i64>),
    /// An insert created the row with this id.
    Inserted(i64),
}

/// The model of an import: the items, in the order they are added, how
/// many were added so far, the stage, and whether the import runs in a
/// transaction of its own.
pub struct ImportState {
    pub items: Seq<ImportItem>,
    pub index: int,
    pub stage: ImportStage,
    pub transactional: bool,
}

impl ImportState {
    pub open spec fn wf(self) -> bool {
        &&& 0 <= self.index <= self.items.len()
        &&& match self.stage {
            ImportStage::Begin => self.transactional && self.index == 0,
            ImportStage::Commit => self.transactional && self.index == self.items.len(),
            ImportStage::Done => self.index == self.items.len(),
            _ => self.index < self.items.len(),
        }
    }

    /// The item being added.
    pub open spec fn item(self) -> ImportItem {
        self.items[self.index]
    }

    /// The stage that follows the insert of the item being added.
    pub open spec fn after_item(self) -> ImportStage {
        if self.index + 1 < self.items.len() {
            ImportStage::LookupArtist
        } else if self.transactional {
            ImportStage::Commit
        } else {
            ImportStage::Done
        }
    }

    /// The stage that follows the opening of the transaction.
    pub open spec fn after_begin(self) -> ImportStage {
        if self.index < self.items.len() {
            ImportStage::LookupArtist
        } else {
            ImportStage::Commit
        }
    }

    pub open spec fn action(self) -> ImportActionView {
        match self.stage {
            ImportStage::Begin => ImportActionView::BeginTransaction,
            ImportStage::LookupArtist => ImportActionView::Lookup(
                statement_view(FIND_ARTIST, seq![SqlValueView::Text(self.item().track.artist@)]),
            ),
            ImportStage::AddArtist => ImportActionView::Insert(
                statement_view(
                    INSERT_ARTIST,
                    seq![SqlValueView::Text(self.item().track.artist@), SqlValueView::Text(self.item().artist_lower@)],
                ),
            ),
            ImportStage::LookupAlbum { artist_id } => ImportActionView::Lookup(
                statement_view(
                    FIND_ALBUM,
                    seq![SqlValueView::Text(self.item().track.album@), SqlValueView::Integer(artist_id)],
                ),
            ),
            ImportStage::AddAlbum { artist_id } => ImportActionView::Insert(
                statement_view(
                    INSERT_ALBUM,
                    seq![
                        SqlValueView::Text(self.item().track.album@),
                        SqlValueView::Text(self.item().album_lower@),
                        SqlValueView::Integer(artist_id),
                    ],
                ),
            ),
            ImportStage::InsertTrack { artist_id, album_id } => ImportActionView::Execute(
                insert_track_view(
                    self.item().track,
                    self.item().title_lower@,
                    album_id,
                    artist_id,
                    self.item().instrumental,
                ),
            ),
            ImportStage::Commit => ImportActionView::Commit,
            ImportStage::Done => ImportActionView::Finished,
        }
    }

    /// Whether `event` is what the current action can come to.
    pub open spec fn accepts(self, event: ImportEvent) -> bool {
        match self.stage {
            ImportStage::Begin | ImportStage::InsertTrack { .. } | ImportStage::Commit => event is Done,
            ImportStage::LookupArtist | ImportStage::LookupAlbum { .. } => event is Found,
            ImportStage::AddArtist | ImportStage::AddAlbum { .. } => event is Inserted,
            ImportStage::Done => false,
        }
    }

    pub open spec fn with_stage(self, stage: ImportStage) -> ImportState {
        ImportState { stage, ..self }
    }

    /// The state that `event` leads to: a found or inserted artist goes on
    /// to the album, a found or inserted album to the track, a missing one
    /// to its insert; the insert of the track goes on to the next item.
    pub open spec fn next(self, event: ImportEvent) -> ImportState {
        match (self.stage, event) {
            (ImportStage::Begin, _) => self.with_stage(self.after_begin()),
            (ImportStage::LookupArtist, ImportEvent::Found(Some(id))) => self.with_stage(
                ImportStage::LookupAlbum { artist_id: id },
            ),
            (ImportStage::LookupArtist, _) => self.with_stage(ImportStage::AddArtist),
            (ImportStage::AddArtist, ImportEvent::Inserted(id)) => self.with_stage(
                ImportStage::LookupAlbum { artist_id: id },
            ),
            (ImportStage::LookupAlbum { artist_id }, ImportEvent::Found(Some(id))) => self.with_stage(
                ImportStage::InsertTrack { artist_id, album_id: id },
            ),
            (ImportStage::LookupAlbum { artist_id }, _) => self.with_stage(ImportStage::AddAlbum { artist_id }),
            (ImportStage::AddAlbum { artist_id }, ImportEvent::Inserted(id)) => self.with_stage(
                ImportStage::InsertTrack { artist_id, album_id: id },
            ),
            (ImportStage::InsertTrack { .. }, _) => ImportState {
                index: self.index + 1,
                stage: self.after_item(),
                ..self
            },
            (ImportStage::Commit, _) => self.with_stage(ImportStage::Done),
            _ => self,
        }
    }

    /// An upper bound on the actions left before the import finishes.
    pub open spec fn remaining(self) -> nat {
        let later = 5 * (self.items.len() - self.index - 1);
        let commit: int = if self.transactional { 1 } else { 0 };
        (match self.stage {
            ImportStage::Begin => 1 + 5 * self.items.len() + 1int,
            ImportStage::LookupArtist => 5 + later + commit,
            ImportStage::AddArtist => 4 + later + commit,
            ImportStage::LookupAlbum { .. } => 3 + later + commit,
            ImportStage::AddAlbum { .. } => 2 + later + commit,
            ImportStage::InsertTrack { .. } => 1 + later + commit,
            ImportStage::Commit => 1int,
            ImportStage::Done => 0int,
        }) as nat
    }
}

#[derive(Clone, Copy)]
struct Progress {
    index: usize,
    stage: ImportStage,
}

/// Adds scanned tracks to the library, one after the other: for each, the
/// artist is looked up by name and added where missing, then the album by
/// name and artist, added where missing, then the track is inserted with
/// both ids. A batch runs in one transaction.
///
/// The caller runs the actions and reports what came of each; it stops
/// where running one fails.
pub struct TrackImport {
    items: Vec<ImportItem>,
    progress: Progress,
    transactional: bool,
}

impl View for TrackImport {
    type V = ImportState;

    closed spec fn view(&self) -> ImportState {
        ImportState {
            items: self.items@,
            index: self.progress.index as int,
            stage: self.progress.stage,
            transactional: self.transactional,
        }
    }
}

impl TrackImport {
    #[verifier::type_invariant]
    closed spec fn inv(self) -> bool {
        self@.wf()
    }

    /// An import of `items` in one transaction.
    pub fn batch(items: Vec<ImportItem>) -> (r: TrackImport)
        ensures
            r@ == (ImportState { items: items@, index: 0, stage: ImportStage::Begin, transactional: true }),
            r@.wf(),
    {
        TrackImport { items, progress: Progress { index: 0, stage: ImportStage::Begin }, transactional: true }
    }

    /// An import of one track, outside any transaction of its own.
    pub fn single(item: ImportItem) -> (r: TrackImport)
        ensures
            r@ == (ImportState { items: seq![item], index: 0, stage: ImportStage::LookupArtist, transactional: false }),
            r@.wf(),
    {
        let items = vec![item];
        let r = TrackImport { items, progress: Progress { index: 0, stage: ImportStage::LookupArtist }, transactional: false };
        assert(r@.items =~= seq![item]);
        r
    }

    /// What the caller does next.
    pub fn action(&self) -> (r: ImportAction)
        ensures
            r@ == self@.action(),
            self@.wf(),
    {
        proof {
            use_type_invariant(self);
        }
        let index = self.progress.index;
        match self.progress.stage {
            ImportStage::Begin => ImportAction::BeginTransaction,
            ImportStage::LookupArtist => {
                let item = &self.items[index];
                ImportAction::Lookup(find_artist_query(item.track.artist.as_str()))
            },
            ImportStage::AddArtist => {
                let item = &self.items[index];
                ImportAction::Insert(add_artist_statement(item.track.artist.as_str(), item.artist_lower.as_str()))
            },
            ImportStage::LookupAlbum { artist_id } => {
                let item = &self.items[index];
                ImportAction::Lookup(find_album_query(item.track.album.as_str(), artist_id))
            },
            ImportStage::AddAlbum { artist_id } => {
                let item = &self.items[index];
                ImportAction::Insert(
                    add_album_statement(item.track.album.as_str(), item.album_lower.as_str(), artist_id),
                )
            },
            ImportStage::InsertTrack { artist_id, album_id } => {
                let item = &self.items[index];
                ImportAction::Execute(
                    add_track_statement(
                        &item.track,
                        item.title_lower.as_str(),
                        album_id,
                        artist_id,
                        item.instrumental,
                    ),
                )
            },
            ImportStage::Commit => ImportAction::Commit,
            ImportStage::Done => ImportAction::Finished,
        }
    }

    /// Whether `event` is what the current action can come to.
    pub fn accepts(&self, event: ImportEvent) -> (r: bool)
        ensures
            r == self@.accepts(event),
    {
        match self.progress.stage {
            ImportStage::Begin | ImportStage::InsertTrack { .. } | ImportStage::Commit => match event {
                ImportEvent::Done => true,
                _ => false,
            },
            ImportStage::LookupArtist | ImportStage::LookupAlbum { .. } => match event {
                ImportEvent::Found(_) => true,
                _ => false,
            },
            ImportStage::AddArtist | ImportStage::AddAlbum { .. } => match event {
                ImportEvent::Inserted(_) => true,
                _ => false,
            },
            ImportStage::Done => false,
        }
    }

    /// Whether nothing is left to do.
    pub fn is_finished(&self) -> (r: bool)
        ensures
            r == (self@.stage == ImportStage::Done),
    {
        match self.progress.stage {
            ImportStage::Done => true,
            _ => false,
        }
    }

    /// Takes in what came of the current action.
    pub fn advance(&mut self, event: ImportEvent)
        requires
            old(self)@.accepts(event),
        ensures
            final(self)@ == old(self)@.next(event),
            final(self)@.wf(),
    {
        proof {
            use_type_invariant(&*self);
        }
        let index = self.progress.index;
        let len = self.items.len();
        let next = match (self.progress.stage, event) {
            (ImportStage::Begin, _) => Progress {
                index,
                stage: if index < len { ImportStage::LookupArtist } else { ImportStage::Commit },
            },
            (ImportStage::LookupArtist, ImportEvent::Found(Some(id))) => Progress {
                index,
                stage: ImportStage::LookupAlbum { artist_id: id },
            },
            (ImportStage::LookupArtist, _) => Progress { index, stage: ImportStage::AddArtist },
            (ImportStage::AddArtist, ImportEvent::Inserted(id)) => Progress {
                index,
                stage: ImportStage::LookupAlbum { artist_id: id },
            },
            (ImportStage::LookupAlbum { artist_id }, ImportEvent::Found(Some(id))) => Progress {
                index,
                stage: ImportStage::InsertTrack { artist_id, album_id: id },
            },
            (ImportStage::LookupAlbum { artist_id }, _) => Progress {
                index,
                stage: ImportStage::AddAlbum { artist_id },
            },
            (ImportStage::AddAlbum { artist_id }, ImportEvent::Inserted(id)) => Progress {
                index,
                stage: ImportStage::InsertTrack { artist_id, album_id: id },
            },
            (ImportStage::InsertTrack { .. }, _) => Progress {
                index: index + 1,
                stage: if index + 1 < len {
                    ImportStage::LookupArtist
                } else if self.transactional {
                    ImportStage::Commit
                } else {
                    ImportStage::Done
                },
            },
            (ImportStage::Commit, _) => Progress { index, stage: ImportStage::Done },
            _ => self.progress,
        };
        self.progress = next;
    }
}

/// Each accepted outcome keeps the import well formed, never changes its
/// items or whether it runs in a transaction, moves on to the next item
/// exactly when the current track was inserted, and brings the import
/// strictly closer to its end.
pub proof fn lemma_import_progresses(s: ImportState, event: ImportEvent)
    requires
        s.wf(),
        s.accepts(event),
    ensures
        s.next(event).wf(),
        s.next(event).items == s.items,
        s.next(event).transactional == s.transactional,
        s.next(event).index == s.index + (if s.stage is InsertTrack { 1int } else { 0int }),
        s.next(event).remaining() < s.remaining(),
{
}

/// An import that is not finished can always go on, and the bound on what
/// is left is zero exactly when it is finished.
pub proof fn lemma_import_never_stuck(s: ImportState)
    requires
        s.wf(),
    ensures
        s.remaining() == 0 <==> s.stage == ImportStage::Done,
        s.stage != ImportStage::Done ==> s.accepts(ImportEvent::Done) || s.accepts(ImportEvent::Found(None))
            || s.accepts(ImportEvent::Inserted(0)),
        s.stage == ImportStage::Done ==> s.index == s.items.len(),
{
}

/// A batch of `n` tracks takes at most `5 * n + 2` actions, and a single
/// track at most 5.
pub proof fn lemma_import_bound(items: Seq<ImportItem>, item: ImportItem)
    ensures
        (ImportState { items, index: 0, stage: ImportStage::Begin, transactional: true }).remaining() == 5
            * items.len() + 2,
        (ImportState { items: seq![item], index: 0, stage: ImportStage::LookupArtist, transactional: false }).remaining()
            == 5,
{
}

/// The id that a lookup found, or else the id of the row that was inserted.
pub open spec fn resolved_id(found: Option<i64>, inserted: i64) -> i64 {
    match found {
        Some(id) => id,
        None => inserted,
    }
}

/// The state after an artist lookup that came to `found`, followed by the
/// artist's insert (which created `inserted`) where nothing was found.
pub open spec fn after_artist(s: ImportState, found: Option<i64>, inserted: i64) -> ImportState {
    let s1 = s.next(ImportEvent::Found(found));
    if found is Some {
        s1
    } else {
        s1.next(ImportEvent::Inserted(inserted))
    }
}

/// The state after an album lookup that came to `found`, followed by the
/// album's insert (which created `inserted`) where nothing was found.
pub open spec fn after_album(s: ImportState, found: Option<i64>, inserted: i64) -> ImportState {
    let s1 = s.next(ImportEvent::Found(found));
    if found is Some {
        s1
    } else {
        s1.next(ImportEvent::Inserted(inserted))
    }
}

/// A scanned track is stored under its artist and its album: the ones
/// already stored where the lookups find them, the ones just inserted
/// otherwise. The album is looked up, and inserted, under that artist's
/// id; a missing artist or album is inserted under the track's names and
/// their search forms; and once the track is inserted the import goes on
/// to the next item.
pub proof fn lemma_track_stored_under_resolved_ids(
    s: ImportState,
    artist_found: Option<i64>,
    artist_inserted: i64,
    album_found: Option<i64>,
    album_inserted: i64,
)
    requires
        s.wf(),
        s.stage == ImportStage::LookupArtist,
    ensures
        ({
            let artist_id = resolved_id(artist_found, artist_inserted);
            let album_id = resolved_id(album_found, album_inserted);
            let a = after_artist(s, artist_found, artist_inserted);
            let b = after_album(a, album_found, album_inserted);
            &&& s.action() == ImportActionView::Lookup(
                statement_view(FIND_ARTIST, seq![SqlValueView::Text(s.item().track.artist@)]),
            )
            &&& artist_found is None ==> s.next(ImportEvent::Found(artist_found)).action()
                == ImportActionView::Insert(
                statement_view(
                    INSERT_ARTIST,
                    seq![SqlValueView::Text(s.item().track.artist@), SqlValueView::Text(s.item().artist_lower@)],
                ),
            )
            &&& a.stage == ImportStage::LookupAlbum { artist_id }
            &&& a.action() == ImportActionView::Lookup(
                statement_view(
                    FIND_ALBUM,
                    seq![SqlValueView::Text(s.item().track.album@), SqlValueView::Integer(artist_id)],
                ),
            )
            &&& album_found is None ==> a.next(ImportEvent::Found(album_found)).action()
                == ImportActionView::Insert(
                statement_view(
                    INSERT_ALBUM,
                    seq![
                        SqlValueView::Text(s.item().track.album@),
                        SqlValueView::Text(s.item().album_lower@),
                        SqlValueView::Integer(artist_id),
                    ],
                ),
            )
            &&& b.stage == ImportStage::InsertTrack { artist_id, album_id }
            &&& b.index == s.index
            &&& b.items == s.items
            &&& b.action() == ImportActionView::Execute(
                insert_track_view(
                    s.item().track,
                    s.item().title_lower@,
                    album_id,
                    artist_id,
                    s.item().instrumental,
                ),
            )
            &&& b.next(ImportEvent::Done).index == s.index + 1
            &&& b.next(ImportEvent::Done).stage == s.after_item()
        }),
{
}

/// The import of one track on its own, as `TrackImport::single` starts it.
pub open spec fn single_state(item: ImportItem) -> ImportState {
    ImportState { items: seq![item], index: 0, stage: ImportStage::LookupArtist, transactional: false }
}

/// The import of a batch, as `TrackImport::batch` starts it.
pub open spec fn batch_state(items: Seq<ImportItem>) -> ImportState {
    ImportState { items, index: 0, stage: ImportStage::Begin, transactional: true }
}

/// The actions an import asks for while it takes in `events`, one action
/// before each event, and the state it ends in.
pub open spec fn run(s: ImportState, events: Seq<ImportEvent>) -> (Seq<ImportActionView>, ImportState)
    decreases events.len(),
{
    if events.len() == 0 {
        (Seq::empty(), s)
    } else {
        let rest = run(s.next(events[0]), events.drop_first());
        (seq![s.action()] + rest.0, rest.1)
    }
}

/// Whether each of `events`, in turn, is what the current action can come
/// to.
pub open spec fn accepts_all(s: ImportState, events: Seq<ImportEvent>) -> bool
    decreases events.len(),
{
    events.len() == 0 || (s.accepts(events[0]) && accepts_all(s.next(events[0]), events.drop_first()))
}

/// Whether `events` take the import, accepted one after the other, to its
/// end.
pub open spec fn completes(s: ImportState, events: Seq<ImportEvent>) -> bool {
    accepts_all(s, events) && run(s, events).1.stage == ImportStage::Done
}

/// The actions of each item's import on its own, under its own outcomes.
pub open spec fn single_runs(items: Seq<ImportItem>, outcomes: Seq<Seq<ImportEvent>>) -> Seq<Seq<ImportActionView>> {
    Seq::new(items.len(), |k: int| run(single_state(items[k]), outcomes[k]).0)
}

proof fn lemma_run_append(s: ImportState, e1: Seq<ImportEvent>, e2: Seq<ImportEvent>)
    ensures
        run(s, e1 + e2) == (run(s, e1).0 + run(run(s, e1).1, e2).0, run(run(s, e1).1, e2).1),
        accepts_all(s, e1 + e2) == (accepts_all(s, e1) && accepts_all(run(s, e1).1, e2)),
    decreases e1.len(),
{
    if e1.len() == 0 {
        assert(e1 + e2 =~= e2);
        assert(run(s, e1).0 + run(run(s, e1).1, e2).0 =~= run(s, e2).0);
    } else {
        assert((e1 + e2)[0] == e1[0]);
        assert((e1 + e2).drop_first() =~= e1.drop_first() + e2);
        lemma_run_append(s.next(e1[0]), e1.drop_first(), e2);
        assert(seq![s.action()] + run(s.next(e1[0]), e1.drop_first() + e2).0 =~= run(s, e1).0 + run(
            run(s, e1).1,
            e2,
        ).0);
    }
}

/// Inside a batch, the item being added goes through the same actions, under
/// the same outcomes, as its import on its own, and the batch then stands at
/// the next item.
proof fn lemma_item_in_batch(b: ImportState, s: ImportState, events: Seq<ImportEvent>)
    requires
        b.wf(),
        b.index < b.items.len(),
        !(b.stage is Begin || b.stage is Commit || b.stage is Done),
        s.items == seq![b.items[b.index]],
        s.index == 0,
        !s.transactional,
        s.stage == b.stage,
        completes(s, events),
    ensures
        accepts_all(b, events),
        run(b, events).0 == run(s, events).0,
        run(b, events).1 == (ImportState { index: b.index + 1, stage: b.after_item(), ..b }),
    decreases events.len(),
{
    reveal_with_fuel(run, 2);
    reveal_with_fuel(accepts_all, 2);
    if events.len() == 0 {
        assert(false);
    }
    let e = events[0];
    let rest = events.drop_first();
    assert(s.item() == b.item());
    assert(b.action() == s.action());
    if b.stage is InsertTrack {
        assert(s.next(e).stage == ImportStage::Done);
        if rest.len() > 0 {
            assert(!s.next(e).accepts(rest[0]));
            assert(false);
        }
        assert(run(b, events).0 =~= seq![b.action()]);
        assert(run(s, events).0 =~= seq![s.action()]);
    } else {
        lemma_item_in_batch(b.next(e), s.next(e), rest);
    }
}

proof fn lemma_batch_from(items: Seq<ImportItem>, outcomes: Seq<Seq<ImportEvent>>, k: int)
    requires
        outcomes.len() == items.len(),
        0 <= k <= items.len(),
        forall|j: int| 0 <= j < items.len() ==> #[trigger] completes(single_state(items[j]), outcomes[j]),
    ensures
        ({
            let b = ImportState {
                items,
                index: k,
                stage: if k < items.len() { ImportStage::LookupArtist } else { ImportStage::Commit },
                transactional: true,
            };
            let events = outcomes.skip(k).flatten() + seq![ImportEvent::Done];
            &&& accepts_all(b, events)
            &&& run(b, events).0 == single_runs(items, outcomes).skip(k).flatten() + seq![ImportActionView::Commit]
            &&& run(b, events).1.stage == ImportStage::Done
            &&& run(b, events).1.index == items.len()
        }),
    decreases items.len() - k,
{
    let b = ImportState {
        items,
        index: k,
        stage: if k < items.len() { ImportStage::LookupArtist } else { ImportStage::Commit },
        transactional: true,
    };
    let acts = single_runs(items, outcomes);
    reveal_with_fuel(run, 2);
    reveal_with_fuel(accepts_all, 2);
    if k == items.len() {
        assert(outcomes.skip(k) =~= Seq::<Seq<ImportEvent>>::empty());
        assert(acts.skip(k) =~= Seq::<Seq<ImportActionView>>::empty());
        let events = outcomes.skip(k).flatten() + seq![ImportEvent::Done];
        assert(events =~= seq![ImportEvent::Done]);
        assert(events.drop_first() =~= Seq::<ImportEvent>::empty());
        assert(run(b, events).0 =~= seq![ImportActionView::Commit]);
        assert(acts.skip(k).flatten() + seq![ImportActionView::Commit] =~= seq![ImportActionView::Commit]);
    } else {
        let tail = outcomes.skip(k + 1).flatten() + seq![ImportEvent::Done];
        assert(outcomes.skip(k).drop_first() =~= outcomes.skip(k + 1));
        assert(outcomes.skip(k).first() == outcomes[k]);
        assert(acts.skip(k).drop_first() =~= acts.skip(k + 1));
        assert(acts.skip(k).first() == acts[k]);
        let events = outcomes.skip(k).flatten() + seq![ImportEvent::Done];
        assert(events =~= outcomes[k] + tail);
        assert(completes(single_state(items[k]), outcomes[k]));
        lemma_item_in_batch(b, single_state(items[k]), outcomes[k]);
        lemma_run_append(b, outcomes[k], tail);
        lemma_batch_from(items, outcomes, k + 1);
        assert(acts.skip(k).flatten() + seq![ImportActionView::Commit] =~= acts[k] + (acts.skip(k + 1).flatten()
            + seq![ImportActionView::Commit]));
    }
}

/// A batch does what adding each of its tracks on its own does, in order,
/// inside one transaction: under outcomes that take each item's own import
/// to its end, the batch, fed an opened transaction, those outcomes one
/// item after the other, then the commit, accepts all of them and asks for
/// `BeginTransaction`, then each item's own actions in turn, then `Commit`,
/// and ends finished with every item added.
pub proof fn lemma_batch_is_singles_in_order(items: Seq<ImportItem>, outcomes: Seq<Seq<ImportEvent>>)
    requires
        outcomes.len() == items.len(),
        forall|j: int| 0 <= j < items.len() ==> #[trigger] completes(single_state(items[j]), outcomes[j]),
    ensures
        ({
            let events = seq![ImportEvent::Done] + outcomes.flatten() + seq![ImportEvent::Done];
            &&& accepts_all(batch_state(items), events)
            &&& run(batch_state(items), events).0 == seq![ImportActionView::BeginTransaction] + single_runs(
                items,
                outcomes,
            ).flatten() + seq![ImportActionView::Commit]
            &&& run(batch_state(items), events).1.stage == ImportStage::Done
            &&& run(batch_state(items), events).1.index == items.len()
        }),
{
    let b0 = batch_state(items);
    let events = seq![ImportEvent::Done] + outcomes.flatten() + seq![ImportEvent::Done];
    lemma_batch_from(items, outcomes, 0);
    assert(outcomes.skip(0) =~= outcomes);
    assert(single_runs(items, outcomes).skip(0) =~= single_runs(items, outcomes));
    assert(events[0] == ImportEvent::Done);
    assert(events.drop_first() =~= outcomes.flatten() + seq![ImportEvent::Done]);
    assert(run(b0, events).0 =~= seq![ImportActionView::BeginTransaction] + (single_runs(items, outcomes).flatten()
        + seq![ImportActionView::Commit]));
}

/// Adding a track whose artist and album are already stored inserts
/// neither again: the import looks both up, then inserts the track, and
/// nothing else, under the ids it found.
pub proof fn lemma_known_artist_and_album_are_reused(item: ImportItem, artist_id: i64, album_id: i64)
    ensures
        ({
            let events = seq![
                ImportEvent::Found(Some(artist_id)),
                ImportEvent::Found(Some(album_id)),
                ImportEvent::Done,
            ];
            &&& completes(single_state(item), events)
            &&& run(single_state(item), events).0 == seq![
                ImportActionView::Lookup(statement_view(FIND_ARTIST, seq![SqlValueView::Text(item.track.artist@)])),
                ImportActionView::Lookup(
                    statement_view(
                        FIND_ALBUM,
                        seq![SqlValueView::Text(item.track.album@), SqlValueView::Integer(artist_id)],
                    ),
                ),
                ImportActionView::Execute(
                    insert_track_view(item.track, item.title_lower@, album_id, artist_id, item.instrumental),
                ),
            ]
        }),
{
    reveal_with_fuel(run, 4);
    reveal_with_fuel(accepts_all, 4);
    let events = seq![ImportEvent::Found(Some(artist_id)), ImportEvent::Found(Some(album_id)), ImportEvent::Done];
    let s0 = single_state(item);
    let s1 = s0.next(events[0]);
    let s2 = s1.next(events[1]);
    assert(events.drop_first() =~= seq![ImportEvent::Found(Some(album_id)), ImportEvent::Done]);
    assert(events.drop_first().drop_first() =~= seq![ImportEvent::Done]);
    assert(events.drop_first().drop_first().drop_first() =~= Seq::<ImportEvent>::empty());
    assert(s0.item() == item);
    assert(s1.item() == item);
    assert(s2.item() == item);
    assert(run(single_state(item), events).0 =~= seq![s0.action(), s1.action(), s2.action()]);
}

} // verus!
