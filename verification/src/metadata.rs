//! Track metadata on the session bus.

use crate::payload::{same_track, LyricLine, PlaybackTrack};
use crate::text::{blank, is_blank, law_trimmed_is_empty_iff_blank, trimmed};
use crate::time::time_of_micros;
use mpris_server::{Metadata, Time};
use vstd::prelude::*;

verus! {

/// The largest track length that is published, in microseconds.
pub const MAX_LENGTH_MICROS: i64 = 0x3fff_ffff_ffff_ffff;

/// `mpris_server::Metadata`: a map from attribute names to values.
#[verifier::external_type_specification]
#[verifier::external_body]
pub struct ExMetadata(mpris_server::Metadata);

/// The value of one metadata attribute.
pub enum MetadataValue {
    Text(Seq<char>),
    Texts(Seq<Seq<char>>),
    Time(mpris_server::Time),
}

/// Metadata without attributes.
pub open spec fn no_attributes() -> Map<Seq<char>, MetadataValue> {
    Map::empty()
}

/// The attributes that a `mpris_server::Metadata` holds, by name.
pub uninterp spec fn metadata_entries(metadata: mpris_server::Metadata) -> Map<Seq<char>, MetadataValue>;

/// `Metadata::new` makes a map without attributes.
#[verifier::external_body]
fn new_metadata() -> (r: Metadata)
    ensures
        metadata_entries(r) == no_attributes(),
{
    Metadata::new()
}

/// `Metadata::set_title` with a value puts it under `xesam:title` and leaves
/// the other attributes.
#[verifier::external_body]
fn set_title(metadata: &mut Metadata, title: String)
    ensures
        metadata_entries(*final(metadata)) == metadata_entries(*old(metadata)).insert(
            "xesam:title"@,
            MetadataValue::Text(title@),
        ),
{
    metadata.set_title(Some(title));
}

/// `Metadata::set_artist` with one name puts the list of it under
/// `xesam:artist` and leaves the other attributes.
#[verifier::external_body]
fn set_artist(metadata: &mut Metadata, artist: String)
    ensures
        metadata_entries(*final(metadata)) == metadata_entries(*old(metadata)).insert(
            "xesam:artist"@,
            MetadataValue::Texts(seq![artist@]),
        ),
{
    metadata.set_artist(Some([artist]));
}

/// `Metadata::set_album_artist` with one name puts the list of it under
/// `xesam:albumArtist` and leaves the other attributes.
#[verifier::external_body]
fn set_album_artist(metadata: &mut Metadata, artist: String)
    ensures
        metadata_entries(*final(metadata)) == metadata_entries(*old(metadata)).insert(
            "xesam:albumArtist"@,
            MetadataValue::Texts(seq![artist@]),
        ),
{
    metadata.set_album_artist(Some([artist]));
}

/// `Metadata::set_album` with a value puts it under `xesam:album` and leaves
/// the other attributes.
#[verifier::external_body]
fn set_album(metadata: &mut Metadata, album: String)
    ensures
        metadata_entries(*final(metadata)) == metadata_entries(*old(metadata)).insert(
            "xesam:album"@,
            MetadataValue::Text(album@),
        ),
{
    metadata.set_album(Some(album));
}

/// `Metadata::set_length` with a value puts it under `mpris:length` and leaves
/// the other attributes.
#[verifier::external_body]
fn set_length(metadata: &mut Metadata, length: Time)
    ensures
        metadata_entries(*final(metadata)) == metadata_entries(*old(metadata)).insert(
            "mpris:length"@,
            MetadataValue::Time(length),
        ),
{
    metadata.set_length(Some(length));
}

/// `Metadata::set_url` with a value puts it under `xesam:url` and leaves the
/// other attributes.
#[verifier::external_body]
fn set_url(metadata: &mut Metadata, url: String)
    ensures
        metadata_entries(*final(metadata)) == metadata_entries(*old(metadata)).insert(
            "xesam:url"@,
            MetadataValue::Text(url@),
        ),
{
    metadata.set_url(Some(url));
}

/// `Metadata::set_comment` with one comment puts the list of it under
/// `xesam:comment` and leaves the other attributes.
#[verifier::external_body]
fn set_comment(metadata: &mut Metadata, comment: String)
    ensures
        metadata_entries(*final(metadata)) == metadata_entries(*old(metadata)).insert(
            "xesam:comment"@,
            MetadataValue::Texts(seq![comment@]),
        ),
{
    metadata.set_comment(Some([comment]));
}

/// `Metadata::set_lyrics` with a value puts it under `xesam:asText` and leaves
/// the other attributes.
#[verifier::external_body]
fn set_lyrics(metadata: &mut Metadata, lyrics: String)
    ensures
        metadata_entries(*final(metadata)) == metadata_entries(*old(metadata)).insert(
            "xesam:asText"@,
            MetadataValue::Text(lyrics@),
        ),
{
    metadata.set_lyrics(Some(lyrics));
}

/// `Metadata::set_art_url` with a value puts it under `mpris:artUrl` and leaves
/// the other attributes.
#[verifier::external_body]
fn set_art_url(metadata: &mut Metadata, art_url: String)
    ensures
        metadata_entries(*final(metadata)) == metadata_entries(*old(metadata)).insert(
            "mpris:artUrl"@,
            MetadataValue::Text(art_url@),
        ),
{
    metadata.set_art_url(Some(art_url));
}

/// The length of a track in microseconds: unknown unless positive, and held at
/// `MAX_LENGTH_MICROS`.
pub open spec fn spec_length_micros(duration_ms: i64) -> Option<i64> {
    if duration_ms <= 0 {
        None
    } else if duration_ms * 1000 > MAX_LENGTH_MICROS {
        Some(MAX_LENGTH_MICROS)
    } else {
        Some((duration_ms * 1000) as i64)
    }
}

/// The texts of the lyric lines, each trimmed.
pub open spec fn trimmed_lines(lines: Seq<LyricLine>) -> Seq<Seq<char>> {
    lines.map_values(|line: LyricLine| trimmed(line.text@))
}

/// The texts that are not empty.
pub open spec fn non_empty(texts: Seq<Seq<char>>) -> Seq<Seq<char>> {
    texts.filter(|text: Seq<char>| text.len() > 0)
}

/// The texts with a line break between each two.
pub open spec fn joined_lines(texts: Seq<Seq<char>>) -> Seq<char>
    decreases texts.len(),
{
    if texts.len() == 0 {
        Seq::empty()
    } else if texts.len() == 1 {
        texts[0]
    } else {
        joined_lines(texts.drop_last()).push('\n') + texts.last()
    }
}

/// The lyrics as one text: the trimmed lines that are not blank, one below the
/// other.
pub open spec fn spec_lyrics_text(lines: Seq<LyricLine>) -> Seq<char> {
    joined_lines(non_empty(trimmed_lines(lines)))
}

/// The length of a track in microseconds: unknown unless positive, and held at
/// `MAX_LENGTH_MICROS`.
pub fn length_micros(duration_ms: i64) -> (r: Option<i64>)
    ensures
        r == spec_length_micros(duration_ms),
        r is Some <==> duration_ms > 0,
        r matches Some(micros) ==> (micros == duration_ms * 1000 || (micros == MAX_LENGTH_MICROS
            && duration_ms * 1000 > MAX_LENGTH_MICROS)),
{
    if duration_ms <= 0 {
        None
    } else if duration_ms > MAX_LENGTH_MICROS / 1000 {
        Some(MAX_LENGTH_MICROS)
    } else {
        Some(duration_ms * 1000)
    }
}

/// The page of a song on the music service.
pub open spec fn spec_song_url(song_id: Seq<char>) -> Seq<char> {
    "https://music.163.com/#/song?id="@ + song_id
}

/// The comment that names a song.
pub open spec fn spec_song_comment(song_id: Seq<char>) -> Seq<char> {
    "song_id="@ + song_id
}

/// The map with one more attribute where `present` holds, and as it is where
/// not.
pub open spec fn with_attribute(
    entries: Map<Seq<char>, MetadataValue>,
    present: bool,
    key: Seq<char>,
    value: MetadataValue,
) -> Map<Seq<char>, MetadataValue> {
    if present {
        entries.insert(key, value)
    } else {
        entries
    }
}

/// The lyrics text of a track; empty where it has no lyrics.
pub open spec fn track_lyrics(track: PlaybackTrack) -> Seq<char> {
    match track.lyrics {
        Some(lines) => spec_lyrics_text(lines@),
        None => Seq::empty(),
    }
}

/// Whether a track brings a cover image.
pub open spec fn has_cover(track: PlaybackTrack) -> bool {
    track.cover matches Some(bytes) && bytes@.len() > 0
}

/// The attributes of a track whose cover, where it has one, was stored at
/// `art_url`.
pub open spec fn track_entries(track: PlaybackTrack, art_url: Option<Seq<char>>) -> Map<
    Seq<char>,
    MetadataValue,
> {
    let has_title = !is_blank(track.title@);
    let has_artist = !is_blank(track.artist@);
    let has_album = !is_blank(track.album@);
    let has_id = !is_blank(track.song_id@);
    let length = spec_length_micros(track.duration_ms);
    let lyrics = track_lyrics(track);
    let has_art = has_cover(track) && art_url is Some;
    let artists = MetadataValue::Texts(seq![track.artist@]);
    let e = no_attributes();
    let e = with_attribute(e, has_title, "xesam:title"@, MetadataValue::Text(track.title@));
    let e = with_attribute(e, has_artist, "xesam:artist"@, artists);
    let e = with_attribute(e, has_artist, "xesam:albumArtist"@, artists);
    let e = with_attribute(e, has_album, "xesam:album"@, MetadataValue::Text(track.album@));
    let e = with_attribute(
        e,
        length is Some,
        "mpris:length"@,
        MetadataValue::Time(time_of_micros(length->0)),
    );
    let e = with_attribute(
        e,
        has_id,
        "xesam:url"@,
        MetadataValue::Text(spec_song_url(track.song_id@)),
    );
    let e = with_attribute(
        e,
        has_id,
        "xesam:comment"@,
        MetadataValue::Texts(seq![spec_song_comment(track.song_id@)]),
    );
    let e = with_attribute(e, lyrics.len() > 0, "xesam:asText"@, MetadataValue::Text(lyrics));
    with_attribute(e, has_art, "mpris:artUrl"@, MetadataValue::Text(art_url->0))
}

proof fn lemma_non_empty_step(texts: Seq<Seq<char>>, i: int)
    requires
        0 <= i < texts.len(),
    ensures
        non_empty(texts.take(i + 1)) == if texts[i].len() > 0 {
            non_empty(texts.take(i)).push(texts[i])
        } else {
            non_empty(texts.take(i))
        },
{
    reveal(Seq::filter);
    assert(texts.take(i + 1).drop_last() =~= texts.take(i));
}

/// The lyrics as one text: the trimmed lines that are not blank, one below the
/// other.
pub fn lyrics_text(lines: &Vec<LyricLine>) -> (r: String)
    ensures
        r@ == spec_lyrics_text(lines@),
{
    let ghost texts = trimmed_lines(lines@);
    let mut out = String::new();
    let mut first: bool = true;
    let mut i: usize = 0;
    proof {
        reveal(Seq::filter);
    }
    while i < lines.len()
        invariant
            0 <= i <= lines.len(),
            texts == trimmed_lines(lines@),
            out@ == joined_lines(non_empty(texts.take(i as int))),
            first == (non_empty(texts.take(i as int)).len() == 0),
        decreases lines.len() - i,
    {
        let text = lines[i].text.as_str().trim();
        let ghost before = non_empty(texts.take(i as int));
        proof {
            assert(texts[i as int] == text@);
            lemma_non_empty_step(texts, i as int);
        }
        if !text.is_empty() {
            if !first {
                out.push('\n');
            }
            out.append(text);
            first = false;
            proof {
                assert(before.push(text@).drop_last() =~= before);
                assert(out@ =~= joined_lines(before.push(text@)));
            }
        }
        i = i + 1;
    }
    assert(texts.take(texts.len() as int) =~= texts);
    out
}

/// The page of a song on the music service.
pub fn song_url(song_id: &str) -> (r: String)
    ensures
        r@ == spec_song_url(song_id@),
{
    let mut out = "https://music.163.com/#/song?id=".to_string();
    out.append(song_id);
    out
}

/// The comment that names a song.
pub fn song_comment(song_id: &str) -> (r: String)
    ensures
        r@ == spec_song_comment(song_id@),
{
    let mut out = "song_id=".to_string();
    out.append(song_id);
    out
}

/// The cover image to be stored before the metadata of a track is published.
pub fn cover_to_persist(track: &PlaybackTrack) -> (r: Option<&Vec<u8>>)
    ensures
        r is Some <==> has_cover(*track),
        r is Some <==> track.cover is Some && track.cover->0@.len() > 0,
        r matches Some(bytes) ==> track.cover == Some(*bytes),
{
    match &track.cover {
        Some(bytes) => if bytes.len() > 0 {
            Some(bytes)
        } else {
            None
        },
        None => None,
    }
}

/// The metadata of a track whose cover, where it has one, was stored at
/// `art_url`.
pub fn build_metadata(track: &PlaybackTrack, art_url: Option<String>) -> (r: Metadata)
    ensures
        metadata_entries(r) == track_entries(
            *track,
            match art_url {
                Some(url) => Some(url@),
                None => None,
            },
        ),
{
    let mut metadata = new_metadata();
    if !blank(track.title.as_str()) {
        set_title(&mut metadata, track.title.clone());
    }
    if !blank(track.artist.as_str()) {
        set_artist(&mut metadata, track.artist.clone());
        set_album_artist(&mut metadata, track.artist.clone());
    }
    if !blank(track.album.as_str()) {
        set_album(&mut metadata, track.album.clone());
    }
    if let Some(micros) = length_micros(track.duration_ms) {
        set_length(&mut metadata, Time::from_micros(micros));
    }
    if !blank(track.song_id.as_str()) {
        set_url(&mut metadata, song_url(track.song_id.as_str()));
        set_comment(&mut metadata, song_comment(track.song_id.as_str()));
    }
    if let Some(lines) = &track.lyrics {
        let text = lyrics_text(lines);
        if !text.as_str().is_empty() {
            set_lyrics(&mut metadata, text);
        }
    }
    if cover_to_persist(track).is_some() {
        if let Some(url) = art_url {
            set_art_url(&mut metadata, url);
        }
    }
    metadata
}

/// A published length is positive and at most `MAX_LENGTH_MICROS`, and a longer
/// track never has the shorter one.
pub proof fn law_published_length_is_positive_and_bounded(a: i64, b: i64)
    ensures
        spec_length_micros(a) matches Some(m) ==> 0 < m <= MAX_LENGTH_MICROS,
        spec_length_micros(a) is Some <==> a > 0,
        0 < a <= b ==> spec_length_micros(a)->0 <= spec_length_micros(b)->0,
{
}

proof fn lemma_non_empty(texts: Seq<Seq<char>>)
    ensures
        forall|i: int|
            0 <= i < non_empty(texts).len() ==> (#[trigger] non_empty(texts)[i]).len() > 0,
        non_empty(texts).len() > 0 <==> exists|i: int|
            0 <= i < texts.len() && (#[trigger] texts[i]).len() > 0,
    decreases texts.len(),
{
    reveal(Seq::filter);
    if texts.len() > 0 {
        let rest = texts.drop_last();
        lemma_non_empty(rest);
        if non_empty(rest).len() > 0 {
            let i = choose|i: int| 0 <= i < rest.len() && (#[trigger] rest[i]).len() > 0;
            assert(texts[i].len() > 0);
        }
        if exists|i: int| 0 <= i < texts.len() && (#[trigger] texts[i]).len() > 0 {
            let i = choose|i: int| 0 <= i < texts.len() && (#[trigger] texts[i]).len() > 0;
            if i < rest.len() {
                assert(rest[i].len() > 0);
            }
        }
    }
}

proof fn lemma_joined_lines_empty(texts: Seq<Seq<char>>)
    requires
        forall|i: int| 0 <= i < texts.len() ==> (#[trigger] texts[i]).len() > 0,
    ensures
        joined_lines(texts).len() == 0 <==> texts.len() == 0,
{
    if texts.len() > 0 {
        assert(texts.last().len() > 0);
    }
}

/// Lyrics are published exactly where some line of them is not blank.
pub proof fn law_lyrics_are_published_iff_some_line_is_not_blank(lines: Seq<LyricLine>)
    ensures
        spec_lyrics_text(lines).len() > 0 <==> exists|i: int|
            0 <= i < lines.len() && !is_blank((#[trigger] lines[i]).text@),
{
    let texts = trimmed_lines(lines);
    let kept = non_empty(texts);
    lemma_non_empty(texts);
    lemma_joined_lines_empty(kept);
    if kept.len() > 0 {
        let i = choose|i: int| 0 <= i < texts.len() && (#[trigger] texts[i]).len() > 0;
        law_trimmed_is_empty_iff_blank(lines[i].text@);
        assert(!is_blank(lines[i].text@));
    }
    if exists|i: int| 0 <= i < lines.len() && !is_blank((#[trigger] lines[i]).text@) {
        let i = choose|i: int| 0 <= i < lines.len() && !is_blank((#[trigger] lines[i]).text@);
        law_trimmed_is_empty_iff_blank(lines[i].text@);
        assert(texts[i].len() > 0);
    }
}

/// The names of all attributes that a track can have.
pub open spec fn attribute_names() -> Seq<Seq<char>> {
    seq![
        "xesam:title"@,
        "xesam:artist"@,
        "xesam:albumArtist"@,
        "xesam:album"@,
        "mpris:length"@,
        "xesam:url"@,
        "xesam:comment"@,
        "xesam:asText"@,
        "mpris:artUrl"@,
    ]
}

proof fn lemma_attribute_names_differ()
    ensures
        attribute_names().no_duplicates(),
        attribute_names()[0] == "xesam:title"@,
        attribute_names()[1] == "xesam:artist"@,
        attribute_names()[2] == "xesam:albumArtist"@,
        attribute_names()[3] == "xesam:album"@,
        attribute_names()[4] == "mpris:length"@,
        attribute_names()[5] == "xesam:url"@,
        attribute_names()[6] == "xesam:comment"@,
        attribute_names()[7] == "xesam:asText"@,
        attribute_names()[8] == "mpris:artUrl"@,
{
    reveal_strlit("xesam:title");
    reveal_strlit("xesam:artist");
    reveal_strlit("xesam:albumArtist");
    reveal_strlit("xesam:album");
    reveal_strlit("mpris:length");
    reveal_strlit("xesam:url");
    reveal_strlit("xesam:comment");
    reveal_strlit("xesam:asText");
    reveal_strlit("mpris:artUrl");
    // Names of one length differ in their first, seventh or eighth character.
    let names = attribute_names();
    assert forall|i: int, j: int| 0 <= i < j < names.len() implies names[i] != names[j] by {
        assert(names[i].len() != names[j].len() || names[i][0] != names[j][0] || names[i][6]
            != names[j][6] || names[i][7] != names[j][7]);
    }
}

/// An attribute is present exactly where the track has something to say under
/// it, and a name other than those of `attribute_names` never is.
pub proof fn law_attributes_are_present_iff_known(
    track: PlaybackTrack,
    art_url: Option<Seq<char>>,
)
    ensures
        ({
            let e = track_entries(track, art_url);
            &&& e.contains_key("xesam:title"@) <==> !is_blank(track.title@)
            &&& e.contains_key("xesam:artist"@) <==> !is_blank(track.artist@)
            &&& e.contains_key("xesam:albumArtist"@) <==> !is_blank(track.artist@)
            &&& e.contains_key("xesam:album"@) <==> !is_blank(track.album@)
            &&& e.contains_key("mpris:length"@) <==> track.duration_ms > 0
            &&& e.contains_key("xesam:url"@) <==> !is_blank(track.song_id@)
            &&& e.contains_key("xesam:comment"@) <==> !is_blank(track.song_id@)
            &&& e.contains_key("xesam:asText"@) <==> track_lyrics(track).len() > 0
            &&& e.contains_key("mpris:artUrl"@) <==> has_cover(track) && art_url is Some
            &&& forall|name: Seq<char>| #[trigger]
                e.contains_key(name) ==> attribute_names().contains(name)
        }),
{
    lemma_attribute_names_differ();
}

/// An attribute that is present says what the track says.
pub proof fn law_attributes_say_what_the_track_says(
    track: PlaybackTrack,
    art_url: Option<Seq<char>>,
)
    ensures
        ({
            let e = track_entries(track, art_url);
            &&& e.contains_key("xesam:title"@) ==> e["xesam:title"@] == MetadataValue::Text(
                track.title@,
            )
            &&& e.contains_key("xesam:artist"@) ==> e["xesam:artist"@] == MetadataValue::Texts(
                seq![track.artist@],
            )
            &&& e.contains_key("xesam:albumArtist"@) ==> e["xesam:albumArtist"@]
                == e["xesam:artist"@]
            &&& e.contains_key("xesam:album"@) ==> e["xesam:album"@] == MetadataValue::Text(
                track.album@,
            )
            &&& e.contains_key("mpris:length"@) ==> e["mpris:length"@] == MetadataValue::Time(
                time_of_micros(spec_length_micros(track.duration_ms)->0),
            )
            &&& e.contains_key("xesam:url"@) ==> e["xesam:url"@] == MetadataValue::Text(
                spec_song_url(track.song_id@),
            )
            &&& e.contains_key("xesam:comment"@) ==> e["xesam:comment"@] == MetadataValue::Texts(
                seq![spec_song_comment(track.song_id@)],
            )
            &&& e.contains_key("xesam:asText"@) ==> e["xesam:asText"@] == MetadataValue::Text(
                track_lyrics(track),
            )
            &&& e.contains_key("mpris:artUrl"@) ==> e["mpris:artUrl"@] == MetadataValue::Text(
                art_url->0,
            )
        }),
{
    lemma_attribute_names_differ();
}

/// Tracks that say the same have the same metadata.
pub proof fn law_same_track_has_same_metadata(
    a: PlaybackTrack,
    b: PlaybackTrack,
    art_url: Option<Seq<char>>,
)
    requires
        same_track(a, b),
    ensures
        track_entries(a, art_url) == track_entries(b, art_url),
{
    if a.lyrics is Some {
        let x = a.lyrics->0@;
        let y = b.lyrics->0@;
        assert(trimmed_lines(x) =~= trimmed_lines(y)) by {
            assert forall|i: int| 0 <= i < x.len() implies trimmed_lines(x)[i] == trimmed_lines(
                y,
            )[i] by {
                assert(x[i].text@ == y[i].text@);
            }
        }
    }
}

/// The published length is the duration itself, a thousand microseconds for each
/// millisecond, up to half of the largest count; a longer duration has that bound,
/// and one that is not positive has no length.
pub proof fn law_published_length_is_the_duration(duration_ms: i64)
    ensures
        MAX_LENGTH_MICROS == i64::MAX / 2,
        duration_ms <= 0 ==> spec_length_micros(duration_ms) is None,
        0 < duration_ms && duration_ms * 1000 <= MAX_LENGTH_MICROS ==> (spec_length_micros(
            duration_ms,
        ) matches Some(micros) && micros == duration_ms * 1000),
        duration_ms * 1000 > MAX_LENGTH_MICROS ==> spec_length_micros(duration_ms) == Some(
            MAX_LENGTH_MICROS,
        ),
{
}

/// Below the bound, two durations have the same published length only where they
/// are the same, and their lengths lie as far apart as they do.
pub proof fn law_published_lengths_lie_apart_as_durations_do(a: i64, b: i64)
    requires
        0 < a,
        0 < b,
        a * 1000 <= MAX_LENGTH_MICROS,
        b * 1000 <= MAX_LENGTH_MICROS,
    ensures
        spec_length_micros(a)->0 - spec_length_micros(b)->0 == (a - b) * 1000,
        spec_length_micros(a) == spec_length_micros(b) <==> a == b,
{
}

/// The metadata of a track gives the track's own duration as its length, for
/// every positive duration up to the bound.
pub proof fn law_metadata_gives_the_duration(track: PlaybackTrack, art_url: Option<Seq<char>>)
    requires
        0 < track.duration_ms,
        track.duration_ms * 1000 <= MAX_LENGTH_MICROS,
    ensures
        track_entries(track, art_url).contains_key("mpris:length"@),
        track_entries(track, art_url)["mpris:length"@] == MetadataValue::Time(
            time_of_micros((track.duration_ms * 1000) as i64),
        ),
{
    law_attributes_are_present_iff_known(track, art_url);
    law_attributes_say_what_the_track_says(track, art_url);
}

/// The lyrics text grows line by line: it begins empty, a blank line adds nothing,
/// and every other line adds its trimmed text, below what is there.
pub proof fn law_lyrics_grow_line_by_line(lines: Seq<LyricLine>, line: LyricLine)
    ensures
        spec_lyrics_text(Seq::empty()).len() == 0,
        is_blank(line.text@) ==> spec_lyrics_text(lines.push(line)) == spec_lyrics_text(lines),
        !is_blank(line.text@) && spec_lyrics_text(lines).len() == 0 ==> spec_lyrics_text(
            lines.push(line),
        ) == trimmed(line.text@),
        !is_blank(line.text@) && spec_lyrics_text(lines).len() > 0 ==> spec_lyrics_text(
            lines.push(line),
        ) == spec_lyrics_text(lines) + seq!['\n'] + trimmed(line.text@),
{
    reveal(Seq::filter);
    let texts = trimmed_lines(lines);
    let kept = non_empty(texts);
    let t = trimmed(line.text@);
    law_trimmed_is_empty_iff_blank(line.text@);
    lemma_non_empty(texts);
    lemma_joined_lines_empty(kept);
    assert(trimmed_lines(Seq::empty()) =~= Seq::<Seq<char>>::empty());
    assert(trimmed_lines(lines.push(line)) =~= texts.push(t));
    assert(texts.push(t).drop_last() =~= texts);
    if t.len() > 0 {
        assert(non_empty(texts.push(t)) =~= kept.push(t));
        assert(kept.push(t).drop_last() =~= kept);
        if kept.len() > 0 {
            assert(joined_lines(kept).push('\n') =~= joined_lines(kept) + seq!['\n']);
        }
    }
}

/// How many lines are not blank.
pub open spec fn count_non_blank(lines: Seq<LyricLine>) -> nat
    decreases lines.len(),
{
    if lines.len() == 0 {
        0
    } else {
        count_non_blank(lines.drop_last()) + if is_blank(lines.last().text@) { 0nat } else { 1nat }
    }
}

/// The lengths of the trimmed lines, summed up.
pub open spec fn total_trimmed_len(lines: Seq<LyricLine>) -> nat
    decreases lines.len(),
{
    if lines.len() == 0 {
        0
    } else {
        total_trimmed_len(lines.drop_last()) + trimmed(lines.last().text@).len()
    }
}

/// The lyrics text is as long as the trimmed lines together and one line break
/// between each two that are not blank.
pub proof fn law_lyrics_length_counts_every_line(lines: Seq<LyricLine>)
    ensures
        count_non_blank(lines) == 0 ==> spec_lyrics_text(lines).len() == 0,
        count_non_blank(lines) > 0 ==> spec_lyrics_text(lines).len() == total_trimmed_len(lines)
            + count_non_blank(lines) - 1,
        spec_lyrics_text(lines).len() == 0 <==> count_non_blank(lines) == 0,
        count_non_blank(lines) == 0 ==> total_trimmed_len(lines) == 0,
    decreases lines.len(),
{
    if lines.len() == 0 {
        assert(lines =~= Seq::empty());
        law_lyrics_grow_line_by_line(lines, arbitrary());
    } else {
        let rest = lines.drop_last();
        law_lyrics_length_counts_every_line(rest);
        law_lyrics_grow_line_by_line(rest, lines.last());
        law_trimmed_is_empty_iff_blank(lines.last().text@);
        assert(rest.push(lines.last()) =~= lines);
    }
}

/// A text split at its line breaks.
pub open spec fn split_at_breaks(text: Seq<char>) -> Seq<Seq<char>>
    decreases text.len(),
{
    if text.len() == 0 {
        seq![Seq::empty()]
    } else {
        let before = split_at_breaks(text.drop_last());
        if text.last() == '\n' {
            before.push(Seq::empty())
        } else {
            before.drop_last().push(before.last().push(text.last()))
        }
    }
}

/// Whether a text holds no line break.
pub open spec fn is_one_line(text: Seq<char>) -> bool {
    forall|i: int| 0 <= i < text.len() ==> #[trigger] text[i] != '\n'
}

proof fn lemma_split_extends_the_last_line(text: Seq<char>, more: Seq<char>)
    requires
        is_one_line(more),
    ensures
        split_at_breaks(text).len() > 0,
        split_at_breaks(text + more) == split_at_breaks(text).drop_last().push(
            split_at_breaks(text).last() + more,
        ),
    decreases text.len() + more.len(),
{
    if more.len() == 0 {
        assert(text + more =~= text);
        if text.len() > 0 {
            lemma_split_extends_the_last_line(text.drop_last(), more);
        }
        let parts = split_at_breaks(text);
        assert(parts.last() + more =~= parts.last());
        assert(parts =~= parts.drop_last().push(parts.last()));
    } else {
        let shorter = more.drop_last();
        assert(is_one_line(shorter)) by {
            assert forall|i: int| 0 <= i < shorter.len() implies #[trigger] shorter[i] != '\n' by {
                assert(shorter[i] == more[i]);
            }
        }
        lemma_split_extends_the_last_line(text, shorter);
        let parts = split_at_breaks(text);
        assert((text + more).drop_last() =~= text + shorter);
        assert((text + more).last() == more[more.len() - 1]);
        let before = split_at_breaks(text + shorter);
        assert(before.drop_last() =~= parts.drop_last());
        assert((parts.last() + shorter).push(more.last()) =~= parts.last() + more);
    }
}

proof fn lemma_split_after_a_break(text: Seq<char>, line: Seq<char>)
    requires
        is_one_line(line),
    ensures
        split_at_breaks(text + seq!['\n'] + line) == split_at_breaks(text).push(line),
{
    let broken = text + seq!['\n'];
    assert(broken.drop_last() =~= text);
    assert(split_at_breaks(broken) == split_at_breaks(text).push(Seq::empty()));
    lemma_split_extends_the_last_line(broken, line);
    assert(split_at_breaks(broken).drop_last() =~= split_at_breaks(text));
    assert(Seq::<char>::empty() + line =~= line);
}

/// Splitting the lyrics text at its line breaks gives back every line that is not
/// blank, trimmed, in order and none left out, where no line holds a break itself.
pub proof fn law_lyrics_split_into_their_lines(lines: Seq<LyricLine>)
    requires
        count_non_blank(lines) > 0,
        forall|i: int| 0 <= i < lines.len() ==> is_one_line(trimmed((#[trigger] lines[i]).text@)),
    ensures
        split_at_breaks(spec_lyrics_text(lines)).len() == count_non_blank(lines),
        forall|i: int|
            0 <= i < lines.len() && !is_blank((#[trigger] lines[i]).text@) ==> {
                &&& count_non_blank(lines.take(i)) < count_non_blank(lines)
                &&& split_at_breaks(spec_lyrics_text(lines))[count_non_blank(lines.take(i)) as int]
                    == trimmed(lines[i].text@)
            },
    decreases lines.len(),
{
    let rest = lines.drop_last();
    let line = lines.last();
    let t = trimmed(line.text@);
    let n = lines.len() - 1;
    assert(rest.push(line) =~= lines);
    assert(lines.take(n) =~= rest);
    assert(line == lines[n]);
    law_lyrics_grow_line_by_line(rest, line);
    law_lyrics_length_counts_every_line(rest);
    assert forall|i: int| 0 <= i < rest.len() implies is_one_line(
        trimmed((#[trigger] rest[i]).text@),
    ) by {
        assert(rest[i] == lines[i]);
    }
    if count_non_blank(rest) > 0 {
        law_lyrics_split_into_their_lines(rest);
        if !is_blank(line.text@) {
            lemma_split_after_a_break(spec_lyrics_text(rest), t);
        }
    } else {
        lemma_split_extends_the_last_line(Seq::empty(), t);
        assert(Seq::<char>::empty() + t =~= t);
        assert(split_at_breaks(Seq::<char>::empty()).drop_last().push(t) =~= seq![t]);
        lemma_count_zero_means_blank(rest);
    }
    assert forall|i: int|
        0 <= i < lines.len() && !is_blank((#[trigger] lines[i]).text@) implies count_non_blank(
        lines.take(i),
    ) < count_non_blank(lines) && split_at_breaks(spec_lyrics_text(lines))[count_non_blank(
        lines.take(i),
    ) as int] == trimmed(lines[i].text@) by {
        if i < n {
            assert(rest[i] == lines[i]);
            assert(rest.take(i) =~= lines.take(i));
        }
    }
}

proof fn lemma_count_zero_means_blank(lines: Seq<LyricLine>)
    requires
        count_non_blank(lines) == 0,
    ensures
        forall|i: int| 0 <= i < lines.len() ==> is_blank((#[trigger] lines[i]).text@),
    decreases lines.len(),
{
    if lines.len() > 0 {
        let rest = lines.drop_last();
        lemma_count_zero_means_blank(rest);
        assert forall|i: int| 0 <= i < lines.len() implies is_blank((#[trigger] lines[i]).text@) by {
            if i < rest.len() {
                assert(rest[i] == lines[i]);
            }
        }
    }
}

/// The page and the comment of a song end with its id, behind texts that are the
/// same for all songs.
pub proof fn law_song_texts_end_with_the_id(song_id: Seq<char>)
    ensures
        spec_song_url(song_id).take(32) == "https://music.163.com/#/song?id="@,
        spec_song_url(song_id).skip(32) == song_id,
        spec_song_comment(song_id).take(8) == "song_id="@,
        spec_song_comment(song_id).skip(8) == song_id,
{
    reveal_strlit("https://music.163.com/#/song?id=");
    reveal_strlit("song_id=");
    assert(spec_song_url(song_id).take(32) =~= "https://music.163.com/#/song?id="@);
    assert(spec_song_url(song_id).skip(32) =~= song_id);
    assert(spec_song_comment(song_id).take(8) =~= "song_id="@);
    assert(spec_song_comment(song_id).skip(8) =~= song_id);
}

/// Art is shown exactly of a cover that holds some byte and was stored, and the
/// lyrics that are shown are the track's own.
pub proof fn law_art_and_lyrics_are_the_tracks_own(
    track: PlaybackTrack,
    art_url: Option<Seq<char>>,
)
    ensures
        track_entries(track, art_url).contains_key("mpris:artUrl"@) <==> track.cover is Some
            && track.cover->0@.len() > 0 && art_url is Some,
        track.lyrics matches Some(lines) ==> {
            &&& track_entries(track, art_url).contains_key("xesam:asText"@) <==> count_non_blank(
                lines@,
            ) > 0
            &&& count_non_blank(lines@) > 0 ==> track_entries(track, art_url)["xesam:asText"@]
                == MetadataValue::Text(spec_lyrics_text(lines@))
        },
        track.lyrics is None ==> !track_entries(track, art_url).contains_key("xesam:asText"@),
{
    law_attributes_are_present_iff_known(track, art_url);
    law_attributes_say_what_the_track_says(track, art_url);
    if track.lyrics is Some {
        law_lyrics_length_counts_every_line(track.lyrics->0@);
    }
}

} // verus!
