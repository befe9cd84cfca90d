//! What the player hands over, and what the desktop asks of it.

use crate::span::TimeSpan;
use vstd::prelude::*;

verus! {

/// What the player is doing.
#[derive(Debug, Clone, Copy, PartialEq, Eq, Structural)]
pub enum PlaybackRuntimeState {
    Playing,
    Paused,
    Stopped,
}

/// One line of lyrics.
#[derive(Debug)]
pub struct LyricLine {
    pub text: String,
}

/// The track that the player has loaded.
#[derive(Debug)]
pub struct PlaybackTrack {
    pub title: String,
    pub artist: String,
    pub album: String,
    pub song_id: String,
    /// Not positive where the length is unknown.
    pub duration_ms: i64,
    pub lyrics: Option<Vec<LyricLine>>,
    /// The encoded cover image.
    pub cover: Option<Vec<u8>>,
}

/// One snapshot of the player. `track` is absent where the track is the one of
/// the snapshot before, or where there is none.
#[derive(Debug)]
pub struct MprisSyncPayload {
    pub playback: PlaybackRuntimeState,
    pub position: TimeSpan,
    pub track: Option<PlaybackTrack>,
}

/// A request of the desktop to the player.
#[derive(Debug, Clone, Copy, PartialEq, Eq, Structural)]
pub enum MprisControlEvent {
    Play,
    Pause,
    PlayPause,
    Stop,
    Next,
    Previous,
    SeekRelativeMicros(i64),
    SeekAbsoluteMicros(i64),
}

/// Whether two lists of lyric lines have the same texts.
pub open spec fn same_lines(a: Seq<LyricLine>, b: Seq<LyricLine>) -> bool {
    &&& a.len() == b.len()
    &&& forall|i: int| 0 <= i < a.len() ==> (#[trigger] a[i]).text@ == b[i].text@
}

/// Whether two tracks say the same.
pub open spec fn same_track(a: PlaybackTrack, b: PlaybackTrack) -> bool {
    &&& a.title@ == b.title@
    &&& a.artist@ == b.artist@
    &&& a.album@ == b.album@
    &&& a.song_id@ == b.song_id@
    &&& a.duration_ms == b.duration_ms
    &&& match (a.lyrics, b.lyrics) {
        (Some(x), Some(y)) => same_lines(x@, y@),
        (None, None) => true,
        _ => false,
    }
    &&& match (a.cover, b.cover) {
        (Some(x), Some(y)) => x@ == y@,
        (None, None) => true,
        _ => false,
    }
}

/// Whether two snapshots say the same.
pub open spec fn same_snapshot(a: MprisSyncPayload, b: MprisSyncPayload) -> bool {
    &&& a.playback == b.playback
    &&& a.position == b.position
    &&& match (a.track, b.track) {
        (Some(x), Some(y)) => same_track(x, y),
        (None, None) => true,
        _ => false,
    }
}

impl Clone for LyricLine {
    fn clone(&self) -> (r: Self)
        ensures
            r.text@ == self.text@,
    {
        LyricLine { text: self.text.clone() }
    }
}

fn clone_lines(lines: &Vec<LyricLine>) -> (r: Vec<LyricLine>)
    ensures
        same_lines(lines@, r@),
{
    let mut out: Vec<LyricLine> = Vec::new();
    let mut i: usize = 0;
    while i < lines.len()
        invariant
            i <= lines.len(),
            same_lines(lines@.take(i as int), out@),
        decreases lines.len() - i,
    {
        let ghost before = out@;
        out.push(lines[i].clone());
        proof {
            let upto = lines@.take(i + 1);
            assert forall|k: int| 0 <= k < upto.len() implies (#[trigger] upto[k]).text@
                == out@[k].text@ by {
                if k < i {
                    assert(upto[k] == lines@.take(i as int)[k]);
                    assert(out@[k] == before[k]);
                }
            }
        }
        i = i + 1;
    }
    assert(lines@.take(lines@.len() as int) =~= lines@);
    out
}

impl Clone for PlaybackTrack {
    fn clone(&self) -> (r: Self)
        ensures
            same_track(*self, r),
    {
        PlaybackTrack {
            title: self.title.clone(),
            artist: self.artist.clone(),
            album: self.album.clone(),
            song_id: self.song_id.clone(),
            duration_ms: self.duration_ms,
            lyrics: match &self.lyrics {
                Some(lines) => Some(clone_lines(lines)),
                None => None,
            },
            cover: match &self.cover {
                Some(bytes) => Some(bytes.clone()),
                None => None,
            },
        }
    }
}

impl Clone for MprisSyncPayload {
    fn clone(&self) -> (r: Self)
        ensures
            same_snapshot(*self, r),
    {
        MprisSyncPayload {
            playback: self.playback,
            position: self.position,
            track: match &self.track {
                Some(track) => Some(track.clone()),
                None => None,
            },
        }
    }
}

/// Snapshots that say the same agree in everything: playback state, position, and
/// each text, number, lyric line and cover byte of the track.
pub proof fn law_same_snapshot_agrees_in_everything(a: MprisSyncPayload, b: MprisSyncPayload)
    ensures
        same_snapshot(a, a),
        same_snapshot(a, b) ==> same_snapshot(b, a),
        same_snapshot(a, b) ==> {
            &&& a.playback == b.playback
            &&& a.position.secs == b.position.secs
            &&& a.position.nanos == b.position.nanos
            &&& a.track is Some <==> b.track is Some
        },
        same_snapshot(a, b) && a.track is Some ==> {
            let x = a.track->0;
            let y = b.track->0;
            &&& x.title@ == y.title@
            &&& x.artist@ == y.artist@
            &&& x.album@ == y.album@
            &&& x.song_id@ == y.song_id@
            &&& x.duration_ms == y.duration_ms
            &&& x.cover is Some <==> y.cover is Some
            &&& x.cover is Some ==> x.cover->0@ == y.cover->0@
            &&& x.lyrics is Some <==> y.lyrics is Some
            &&& x.lyrics is Some ==> x.lyrics->0@.len() == y.lyrics->0@.len()
            &&& forall|i: int|
                x.lyrics is Some && 0 <= i < x.lyrics->0@.len() ==> (
                #[trigger] x.lyrics->0@[i]).text@ == y.lyrics->0@[i].text@
        },
{
    if same_snapshot(a, b) && a.track is Some && a.track->0.lyrics is Some {
        let x = a.track->0.lyrics->0@;
        let y = b.track->0.lyrics->0@;
        assert forall|i: int| 0 <= i < y.len() implies (#[trigger] y[i]).text@ == x[i].text@ by {
            assert(x[i].text@ == y[i].text@);
        }
        assert(same_lines(y, x));
    }
}

} // verus!
