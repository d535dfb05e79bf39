use vstd::prelude::*;

verus! {

/// A track of the library, with the names of its artist and album.
///
/// `duration_bits` holds the IEEE-754 bit pattern of the duration in
/// seconds.
#[derive(Clone, Debug, PartialEq, Eq)]
pub struct PersistentTrack {
    pub id: i64,
    pub file_path: String,
    pub file_name: String,
    pub title: String,
    pub artist_name: String,
    pub artist_id: i64,
    pub album_name: String,
    pub album_id: i64,
    pub duration_bits: u64,
    pub txt_lyrics: Option<String>,
    pub lrc_lyrics: Option<String>,
    pub image_path: Option<String>,
    pub instrumental: bool,
}

/// A row of a track query, as the database hands it back: the
/// `instrumental` column is `NULL` for tracks stored before that column
/// existed.
#[derive(Clone, Debug, PartialEq, Eq)]
pub struct TrackRow {
    pub id: i64,
    pub file_path: String,
    pub file_name: String,
    pub title: String,
    pub artist_name: String,
    pub artist_id: i64,
    pub album_name: String,
    pub album_id: i64,
    pub duration_bits: u64,
    pub txt_lyrics: Option<String>,
    pub lrc_lyrics: Option<String>,
    pub image_path: Option<String>,
    pub instrumental: Option<bool>,
}

/// An album of the library with the name of its artist and the number of
/// its tracks.
#[derive(Clone, Debug, PartialEq, Eq)]
pub struct PersistentAlbum {
    pub id: i64,
    pub name: String,
    pub image_path: Option<String>,
    pub artist_name: String,
    pub artist_id: i64,
    pub tracks_count: i64,
}

/// An artist of the library with the number of its tracks.
#[derive(Clone, Debug, PartialEq, Eq)]
pub struct PersistentArtist {
    pub id: i64,
    pub name: String,
    pub tracks_count: i64,
}

/// The user's settings.
#[derive(Clone, Copy, Debug, PartialEq, Eq)]
pub struct PersistentConfig {
    pub skip_not_needed_tracks: bool,
    pub try_embed_lyrics: bool,
}

/// A track found on disk, as the scan hands it to the library: the tags
/// and file that an added track is stored with. `duration_bits` holds the
/// IEEE-754 bit pattern of the duration in seconds.
#[derive(Clone, Debug, PartialEq, Eq)]
pub struct FsTrack {
    pub file_path: String,
    pub file_name: String,
    pub title: String,
    pub album: String,
    pub artist: String,
    pub duration_bits: u64,
    pub txt_lyrics: Option<String>,
    pub lrc_lyrics: Option<String>,
}

/// The track that a row stands for: a missing `instrumental` flag reads as
/// `false`.
pub open spec fn track_of_row(row: TrackRow) -> PersistentTrack {
    PersistentTrack {
        id: row.id,
        file_path: row.file_path,
        file_name: row.file_name,
        title: row.title,
        artist_name: row.artist_name,
        artist_id: row.artist_id,
        album_name: row.album_name,
        album_id: row.album_id,
        duration_bits: row.duration_bits,
        txt_lyrics: row.txt_lyrics,
        lrc_lyrics: row.lrc_lyrics,
        image_path: row.image_path,
        instrumental: match row.instrumental {
            Some(b) => b,
            None => false,
        },
    }
}

/// Reads a track from a row of a track query.
pub fn track_from_row(row: TrackRow) -> (r: PersistentTrack)
    ensures
        r == track_of_row(row),
        r.id == row.id,
        r.file_path == row.file_path,
        r.file_name == row.file_name,
        r.title == row.title,
        r.artist_name == row.artist_name,
        r.artist_id == row.artist_id,
        r.album_name == row.album_name,
        r.album_id == row.album_id,
        r.duration_bits == row.duration_bits,
        r.txt_lyrics == row.txt_lyrics,
        r.lrc_lyrics == row.lrc_lyrics,
        r.image_path == row.image_path,
        r.instrumental == (row.instrumental == Some(true)),
{
    let instrumental = match row.instrumental {
        Some(b) => b,
        None => false,
    };
    PersistentTrack {
        id: row.id,
        file_path: row.file_path,
        file_name: row.file_name,
        title: row.title,
        artist_name: row.artist_name,
        artist_id: row.artist_id,
        album_name: row.album_name,
        album_id: row.album_id,
        duration_bits: row.duration_bits,
        txt_lyrics: row.txt_lyrics,
        lrc_lyrics: row.lrc_lyrics,
        image_path: row.image_path,
        instrumental,
    }
}

/// Reads the tracks of a track query, in the order of its rows.
pub fn tracks_from_rows(rows: Vec<TrackRow>) -> (r: Vec<PersistentTrack>)
    ensures
        r@ == rows@.map_values(|row: TrackRow| track_of_row(row)),
{
    let mut out: Vec<PersistentTrack> = Vec::new();
    let ghost all = rows@;
    for row in it: rows
        invariant
            it.seq() == all,
            out@ == all.take(it.index() as int).map_values(|row: TrackRow| track_of_row(row)),
    {
        out.push(track_from_row(row));
        assert(all.take(it.index() as int + 1) =~= all.take(it.index() as int).push(all[it.index() as int]));
    }
    assert(all.take(all.len() as int) =~= all);
    out
}

/// A track read from a row carries each of the row's fields under the same
/// name (the id, the file, the title, the artist's name and id, the
/// album's name and id, the duration, both lyrics, the cover), and is
/// instrumental exactly when the row's flag is stored as true.
pub proof fn lemma_track_keeps_row_fields(row: TrackRow)
    ensures
        ({
            let t = track_of_row(row);
            &&& t.id == row.id
            &&& t.file_path == row.file_path
            &&& t.file_name == row.file_name
            &&& t.title == row.title
            &&& t.artist_name == row.artist_name
            &&& t.artist_id == row.artist_id
            &&& t.album_name == row.album_name
            &&& t.album_id == row.album_id
            &&& t.duration_bits == row.duration_bits
            &&& t.txt_lyrics == row.txt_lyrics
            &&& t.lrc_lyrics == row.lrc_lyrics
            &&& t.image_path == row.image_path
            &&& t.instrumental == (row.instrumental == Some(true))
        }),
{
}

/// Reading the rows of a track query gives one track per row, in the
/// rows' order, each pointing at its row's artist and album and carrying
/// its row's id.
pub proof fn lemma_tracks_keep_rows(rows: Seq<TrackRow>)
    ensures
        ({
            let ts = rows.map_values(|row: TrackRow| track_of_row(row));
            &&& ts.len() == rows.len()
            &&& forall|i: int|
                0 <= i < rows.len() ==> {
                    &&& (#[trigger] ts[i]).id == rows[i].id
                    &&& ts[i].artist_id == rows[i].artist_id
                    &&& ts[i].album_id == rows[i].album_id
                    &&& ts[i].title == rows[i].title
                    &&& ts[i].instrumental == (rows[i].instrumental == Some(true))
                }
        }),
{
}

} // verus!
