use vstd::prelude::*;
use crate::play_task::{calc_time_ms, scaled_ms};

verus! {

/// What a metadata tag is standardly known as; everything the file browser
/// does not display is `Other`.
#[derive(Debug, Clone, Copy, PartialEq, Eq, Structural)]
pub enum TagKind {
    TrackTitle,
    Artist,
    Album,
    Lyrics,
    Other,
}

/// One textual metadata tag read from the container.
#[derive(Debug)]
pub struct MetaTag {
    pub kind: TagKind,
    pub value: String,
}

/// One artwork block read from the container.
#[derive(Debug)]
pub struct MetaVisual {
    pub front_cover: bool,
    pub data: Vec<u8>,
}

/// The metadata record for one local file: the displayed tag texts, the
/// front cover encoded as base64 text, and the duration in milliseconds.
#[derive(Debug)]
pub struct MusicInfo {
    pub name: String,
    pub artist: String,
    pub album: String,
    pub lyric: String,
    pub cover: String,
    pub duration_ms: u64,
}

/// The text of the last tag of the given kind, or empty when there is none:
/// when a container repeats a tag, the later occurrence wins.
pub open spec fn last_tag_text(tags: Seq<MetaTag>, kind: TagKind) -> Seq<char>
    decreases tags.len(),
{
    if tags.len() == 0 {
        Seq::empty()
    } else if tags.last().kind == kind {
        tags.last().value@
    } else {
        last_tag_text(tags.drop_last(), kind)
    }
}

/// The bytes of the last front-cover artwork, or nothing when there is none.
pub open spec fn last_front_cover(visuals: Seq<MetaVisual>) -> Option<Seq<u8>>
    decreases visuals.len(),
{
    if visuals.len() == 0 {
        None
    } else if visuals.last().front_cover {
        Some(visuals.last().data@)
    } else {
        last_front_cover(visuals.drop_last())
    }
}

/// The base64 text that the standard, padded alphabet assigns to `bytes`.
pub uninterp spec fn base64_of(bytes: Seq<u8>) -> Seq<char>;

/// Relies on base64's `STANDARD` engine (`Engine::encode`): encodes with the
/// standard alphabet and padding, four output characters for every started
/// group of three input bytes; the result depends on the bytes alone. The
/// engine panics when the output length would overflow `usize`, so such
/// inputs are excluded.
#[verifier::external_body]
fn encode_base64(bytes: &[u8]) -> (r: String)
    requires
        4 * ((bytes@.len() + 2) / 3) <= usize::MAX,
    ensures
        r@ == base64_of(bytes@),
        r@.len() == 4 * ((bytes@.len() + 2) / 3),
{
    base64::Engine::encode(&base64::engine::general_purpose::STANDARD, bytes)
}

/// Assembles the metadata record for one local file from what the container
/// gave: the tag texts (later duplicates win), the last front cover encoded
/// as base64 (or empty text without one), and the duration computed from the
/// track's frame count and time base.
pub fn collect_music_info(
    tags: &Vec<MetaTag>,
    visuals: &Vec<MetaVisual>,
    n_frames: u64,
    tb_num: u32,
    tb_den: u32,
) -> (r: MusicInfo)
    requires
        tb_den > 0,
        scaled_ms(n_frames, tb_num, tb_den) <= u64::MAX,
        last_front_cover(visuals@) matches Some(d) ==> 4 * ((d.len() + 2) / 3) <= usize::MAX,
    ensures
        r.name@ == last_tag_text(tags@, TagKind::TrackTitle),
        r.artist@ == last_tag_text(tags@, TagKind::Artist),
        r.album@ == last_tag_text(tags@, TagKind::Album),
        r.lyric@ == last_tag_text(tags@, TagKind::Lyrics),
        r.cover@ == (match last_front_cover(visuals@) {
            Some(d) => base64_of(d),
            None => Seq::<char>::empty(),
        }),
        r.duration_ms == scaled_ms(n_frames, tb_num, tb_den),
{
    let mut name = String::new();
    let mut artist = String::new();
    let mut album = String::new();
    let mut lyric = String::new();
    let mut i: usize = 0;
    while i < tags.len()
        invariant
            i <= tags.len(),
            name@ == last_tag_text(tags@.take(i as int), TagKind::TrackTitle),
            artist@ == last_tag_text(tags@.take(i as int), TagKind::Artist),
            album@ == last_tag_text(tags@.take(i as int), TagKind::Album),
            lyric@ == last_tag_text(tags@.take(i as int), TagKind::Lyrics),
        decreases tags.len() - i,
    {
        proof {
            assert(tags@.take(i + 1).drop_last() =~= tags@.take(i as int));
            assert(tags@.take(i + 1).last() == tags@[i as int]);
        }
        let k = tags[i].kind;
        if k == TagKind::TrackTitle {
            name = tags[i].value.clone();
        } else if k == TagKind::Artist {
            artist = tags[i].value.clone();
        } else if k == TagKind::Album {
            album = tags[i].value.clone();
        } else if k == TagKind::Lyrics {
            lyric = tags[i].value.clone();
        }
        i += 1;
    }
    proof {
        assert(tags@.take(tags@.len() as int) =~= tags@);
    }
    let mut cover_idx: Option<usize> = None;
    let mut j: usize = 0;
    while j < visuals.len()
        invariant
            j <= visuals.len(),
            match cover_idx {
                Some(c) => c < j && visuals@[c as int].front_cover && last_front_cover(
                    visuals@.take(j as int),
                ) == Some(visuals@[c as int].data@),
                None => last_front_cover(visuals@.take(j as int)) is None,
            },
        decreases visuals.len() - j,
    {
        proof {
            assert(visuals@.take(j + 1).drop_last() =~= visuals@.take(j as int));
            assert(visuals@.take(j + 1).last() == visuals@[j as int]);
        }
        if visuals[j].front_cover {
            cover_idx = Some(j);
        }
        j += 1;
    }
    proof {
        assert(visuals@.take(visuals@.len() as int) =~= visuals@);
    }
    let cover = match cover_idx {
        Some(c) => encode_base64(visuals[c].data.as_slice()),
        None => String::new(),
    };
    let duration_ms = calc_time_ms(n_frames, tb_num, tb_den);
    MusicInfo { name, artist, album, lyric, cover, duration_ms }
}

} // verus!
