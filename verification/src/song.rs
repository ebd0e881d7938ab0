use vstd::prelude::*;

verus! {

/// One entry of the playlist: a playable song identified by a stable music id.
///
/// A `Local` song is backed by a file on the local filesystem; a `Custom` song
/// is backed by a caller-supplied byte-seekable source that the application
/// layer resolves from the same id.
#[derive(Debug)]
pub enum SongData {
    Local { music_id: String, file_path: String },
    Custom { music_id: String },
}

impl SongData {
    /// The identifier of this song, as a sequence of characters.
    pub open spec fn id(self) -> Seq<char> {
        match self {
            SongData::Local { music_id, .. } => music_id@,
            SongData::Custom { music_id } => music_id@,
        }
    }

    /// Returns the stable identifier of this song.
    pub fn get_id(&self) -> (r: String)
        ensures
            r@ == self.id(),
    {
        match self {
            SongData::Local { music_id, .. } => music_id.clone(),
            SongData::Custom { music_id } => music_id.clone(),
        }
    }
}

impl Clone for SongData {
    /// Clones preserve the song exactly.
    fn clone(&self) -> (r: Self)
        ensures
            r == *self,
    {
        match self {
            SongData::Local { music_id, file_path } => SongData::Local {
                music_id: music_id.clone(),
                file_path: file_path.clone(),
            },
            SongData::Custom { music_id } => SongData::Custom { music_id: music_id.clone() },
        }
    }
}

} // verus!
