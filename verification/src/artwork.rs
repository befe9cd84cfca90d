//! The directory of cover images that the session bus is pointed to.

use crate::span::TimeSpan;
use crate::text::{
    decimal, digits_value, is_digit, law_decimal_is_injective, law_decimal_spells_the_number,
    lemma_decimal_digits, push_decimal,
};
use std::collections::hash_map::DefaultHasher;
use std::hash::{Hash, Hasher};
use vstd::prelude::*;
use vstd::std_specs::hash::DefaultHasherAdditionalSpecFns;

verus! {

/// The least time between two cleanups of the directory, in seconds.
pub const MIN_CLEANUP_INTERVAL_SECS: u64 = 300;

/// The characters that a file name takes over: ASCII letters and digits, `-`
/// and `_`.
pub open spec fn is_safe_char(c: char) -> bool {
    ||| 'a' <= c <= 'z'
    ||| 'A' <= c <= 'Z'
    ||| '0' <= c <= '9'
    ||| c == '-'
    ||| c == '_'
}

/// The safe characters of a text, in order.
pub open spec fn safe_chars(s: Seq<char>) -> Seq<char> {
    s.filter(|c: char| is_safe_char(c))
}

/// A text as part of a file name: its safe characters, or `track` where it has
/// none.
pub open spec fn sanitized(s: Seq<char>) -> Seq<char> {
    if safe_chars(s).len() == 0 {
        "track"@
    } else {
        safe_chars(s)
    }
}

fn safe_char(c: char) -> (r: bool)
    ensures
        r == is_safe_char(c),
{
    ('a' <= c && c <= 'z') || ('A' <= c && c <= 'Z') || ('0' <= c && c <= '9') || c == '-' || c
        == '_'
}

/// A text as part of a file name: its safe characters, or `track` where it has
/// none.
pub fn sanitize_for_filename(input: &str) -> (r: String)
    ensures
        r@ == sanitized(input@),
{
    let mut out = String::new();
    proof {
        reveal(Seq::filter);
        assert(input@.take(0) =~= Seq::<char>::empty());
    }
    for ch in it: input.chars()
        invariant
            it.seq() == input@,
            out@ == safe_chars(input@.take(it.index() as int)),
    {
        proof {
            let i = it.index() as int;
            reveal(Seq::filter);
            assert(input@.take(i + 1).drop_last() =~= input@.take(i));
        }
        if safe_char(ch) {
            out.push(ch);
        }
    }
    assert(input@.take(input@.len() as int) =~= input@);
    if out.as_str().is_empty() {
        "track".to_string()
    } else {
        out
    }
}

/// The file name of a cover: the sanitized song id, `_`, the hash of the image
/// in decimal, and `.img`.
pub open spec fn spec_cover_filename(song_id: Seq<char>, hash: u64) -> Seq<char> {
    sanitized(song_id).push('_') + decimal(hash as nat) + ".img"@
}

/// The file name of a cover whose image has the given hash.
pub fn cover_filename(song_id: &str, hash: u64) -> (r: String)
    ensures
        r@ == spec_cover_filename(song_id@, hash),
{
    let mut out = sanitize_for_filename(song_id);
    out.push('_');
    push_decimal(&mut out, hash);
    out.append(".img");
    out
}

/// Whether `Hash::hash` of a byte slice may make these writes to a hasher. A slice
/// has more than one such list of writes: the list depends on the word size and the
/// byte order of the machine and on the release of the standard library.
pub uninterp spec fn may_feed(bytes: Seq<u8>, writes: Seq<Seq<u8>>) -> bool;

/// `Hash::hash` of a byte slice feeds the slice to the hasher: it adds writes that
/// are made for these bytes to what the hasher was fed before. Which of them it is
/// on this machine is not stated.
#[verifier::external_body]
fn feed_bytes(bytes: &[u8], hasher: &mut DefaultHasher)
    ensures
        old(hasher)@.is_prefix_of(final(hasher)@),
        may_feed(bytes@, final(hasher)@.skip(old(hasher)@.len() as int)),
{
    bytes.hash(hasher);
}

/// Whether a new hasher that is fed the image, and nothing else, may end with this
/// hash.
pub open spec fn is_cover_hash(bytes: Seq<u8>, hash: u64) -> bool {
    exists|writes: Seq<Seq<u8>>| #[trigger]
        may_feed(bytes, writes) && hash == DefaultHasher::spec_finish(writes)
}

/// The hash that tells cover images apart.
fn cover_hash(bytes: &[u8]) -> (r: u64)
    ensures
        is_cover_hash(bytes@, r),
{
    let mut hasher = DefaultHasher::new();
    feed_bytes(bytes, &mut hasher);
    assert(hasher@.skip(0) =~= hasher@);
    hasher.finish()
}

/// The file name under which a cover of a song is stored.
pub fn cover_filename_for(song_id: &str, bytes: &[u8]) -> (r: String)
    ensures
        exists|hash: u64| #[trigger]
            is_cover_hash(bytes@, hash) && r@ == spec_cover_filename(song_id@, hash),
{
    cover_filename(song_id, cover_hash(bytes))
}

/// What is to be done next to have a cover stored.
#[derive(Debug, Clone, Copy, PartialEq, Eq, Structural)]
pub enum CoverStage {
    /// Look whether the file is there.
    Probe,
    /// Write the file.
    Write,
    /// Clean the directory up, unless that was done lately.
    Clean,
    /// Look whether the cleanup has left the file.
    Reprobe,
    /// Write the file once more.
    Rewrite,
    /// The file is there.
    Stored,
    /// The file could not be written.
    Failed,
}

/// The stage after `stage`, whose work found or wrote the file as `ok` says. A
/// cleanup may remove the file that was just written, to keep the directory
/// within its size: the file is then written once more.
pub open spec fn spec_next_cover_stage(stage: CoverStage, ok: bool) -> CoverStage {
    match stage {
        CoverStage::Probe => if ok { CoverStage::Stored } else { CoverStage::Write },
        CoverStage::Write => if ok { CoverStage::Clean } else { CoverStage::Failed },
        CoverStage::Clean => CoverStage::Reprobe,
        CoverStage::Reprobe => if ok { CoverStage::Stored } else { CoverStage::Rewrite },
        CoverStage::Rewrite => if ok { CoverStage::Stored } else { CoverStage::Failed },
        CoverStage::Stored => CoverStage::Stored,
        CoverStage::Failed => CoverStage::Failed,
    }
}

/// The stage after `stage`, whose work found or wrote the file as `ok` says.
pub fn next_cover_stage(stage: CoverStage, ok: bool) -> (r: CoverStage)
    ensures
        r == spec_next_cover_stage(stage, ok),
{
    match stage {
        CoverStage::Probe => if ok {
            CoverStage::Stored
        } else {
            CoverStage::Write
        },
        CoverStage::Write => if ok {
            CoverStage::Clean
        } else {
            CoverStage::Failed
        },
        CoverStage::Clean => CoverStage::Reprobe,
        CoverStage::Reprobe => if ok {
            CoverStage::Stored
        } else {
            CoverStage::Rewrite
        },
        CoverStage::Rewrite => if ok {
            CoverStage::Stored
        } else {
            CoverStage::Failed
        },
        CoverStage::Stored => CoverStage::Stored,
        CoverStage::Failed => CoverStage::Failed,
    }
}

/// The location of a stored cover, given the path of its file; none where it is
/// not stored.
pub fn persist_cover_as_file_url(stage: CoverStage, path: &str) -> (r: Option<String>)
    ensures
        r is Some <==> stage == CoverStage::Stored,
        r matches Some(url) ==> url@ == "file://"@ + path@,
{
    match stage {
        CoverStage::Stored => {
            let mut url = "file://".to_string();
            url.append(path);
            Some(url)
        },
        _ => None,
    }
}

/// Whether a cleanup is due at `now`: none was made, or the last lies
/// `MIN_CLEANUP_INTERVAL_SECS` back.
pub open spec fn cleanup_is_due(last_run: Option<TimeSpan>, now: TimeSpan) -> bool {
    match last_run {
        Some(at) => now.total_nanos() >= at.total_nanos() + MIN_CLEANUP_INTERVAL_SECS
            * 1_000_000_000,
        None => true,
    }
}

/// Whether to clean the directory up now. A cleanup walks the whole directory,
/// so that it is made at most once in `MIN_CLEANUP_INTERVAL_SECS`; where it is
/// made, `now` becomes the time of the last one.
pub fn cleanup_art_dir_throttled(last_run: &mut Option<TimeSpan>, now: TimeSpan) -> (run: bool)
    requires
        now.wf(),
        *old(last_run) matches Some(at) ==> at.wf(),
    ensures
        run == cleanup_is_due(*old(last_run), now),
        *final(last_run) == if run {
            Some(now)
        } else {
            *old(last_run)
        },
{
    if let Some(at) = *last_run {
        if now.saturating_since(at).secs < MIN_CLEANUP_INTERVAL_SECS {
            return false;
        }
    }
    *last_run = Some(now);
    true
}

proof fn lemma_safe_chars(s: Seq<char>)
    ensures
        forall|i: int| 0 <= i < safe_chars(s).len() ==> is_safe_char(#[trigger] safe_chars(s)[i]),
        (forall|i: int| 0 <= i < s.len() ==> is_safe_char(#[trigger] s[i])) ==> safe_chars(s) == s,
    decreases s.len(),
{
    reveal(Seq::filter);
    if s.len() > 0 {
        let rest = s.drop_last();
        lemma_safe_chars(rest);
        if forall|i: int| 0 <= i < s.len() ==> is_safe_char(#[trigger] s[i]) {
            assert forall|i: int| 0 <= i < rest.len() implies is_safe_char(#[trigger] rest[i]) by {
                assert(rest[i] == s[i]);
            }
            assert(rest.push(s.last()) =~= s);
        }
    }
}

/// A sanitized text is not empty and holds safe characters only.
pub proof fn law_sanitized_text_is_safe(s: Seq<char>)
    ensures
        sanitized(s).len() > 0,
        forall|i: int| 0 <= i < sanitized(s).len() ==> is_safe_char(#[trigger] sanitized(s)[i]),
{
    reveal_strlit("track");
    lemma_safe_chars(s);
}

/// A text of safe characters that is not empty is its own sanitized text.
pub proof fn law_safe_text_is_kept(s: Seq<char>)
    requires
        s.len() > 0,
        forall|i: int| 0 <= i < s.len() ==> is_safe_char(#[trigger] s[i]),
    ensures
        sanitized(s) == s,
{
    lemma_safe_chars(s);
}

/// Sanitizing a text twice is sanitizing it once.
pub proof fn law_sanitizing_is_idempotent(s: Seq<char>)
    ensures
        sanitized(sanitized(s)) == sanitized(s),
{
    law_sanitized_text_is_safe(s);
    law_safe_text_is_kept(sanitized(s));
}

/// A cover's file name names a file in the directory itself: past a first part
/// that is not empty, it holds safe characters and the dot of `.img` only.
pub proof fn law_cover_stays_in_the_directory(song_id: Seq<char>, hash: u64)
    ensures
        ({
            let name = spec_cover_filename(song_id, hash);
            &&& name.len() > 4
            &&& name.skip(name.len() - 4) == ".img"@
            &&& forall|i: int| 0 <= i < name.len() - 4 ==> is_safe_char(#[trigger] name[i])
        }),
{
    reveal_strlit(".img");
    law_sanitized_text_is_safe(song_id);
    lemma_decimal_digits(hash as nat);
    let name = spec_cover_filename(song_id, hash);
    let id = sanitized(song_id);
    let digits = decimal(hash as nat);
    assert(name.skip(name.len() - 4) =~= ".img"@);
    assert forall|i: int| 0 <= i < name.len() - 4 implies is_safe_char(#[trigger] name[i]) by {
        if i < id.len() {
            assert(name[i] == id[i]);
        } else if i > id.len() {
            assert(name[i] == digits[i - id.len() - 1]);
            assert(is_digit(digits[i - id.len() - 1]));
        }
    }
}

/// Two covers share a file exactly where their sanitized song ids and the hashes
/// of their images are the same.
pub proof fn law_cover_files_are_shared_iff_id_and_hash_agree(
    id1: Seq<char>,
    hash1: u64,
    id2: Seq<char>,
    hash2: u64,
)
    ensures
        spec_cover_filename(id1, hash1) == spec_cover_filename(id2, hash2) <==> sanitized(id1)
            == sanitized(id2) && hash1 == hash2,
{
    let name1 = spec_cover_filename(id1, hash1);
    let name2 = spec_cover_filename(id2, hash2);
    if name1 == name2 {
        let s1 = sanitized(id1);
        let s2 = sanitized(id2);
        let d1 = decimal(hash1 as nat);
        let d2 = decimal(hash2 as nat);
        reveal_strlit(".img");
        lemma_decimal_digits(hash1 as nat);
        lemma_decimal_digits(hash2 as nat);
        assert(name1.len() == s1.len() + 1 + d1.len() + 4);
        assert(name2.len() == s2.len() + 1 + d2.len() + 4);
        // The separator of either name is its last `_`, as digits follow it.
        assert(name1[s1.len() as int] == '_');
        assert(name2[s2.len() as int] == '_');
        if s1.len() < s2.len() {
            let k = s2.len() - s1.len() - 1;
            assert(0 <= k < d1.len());
            assert(name1[s1.len() + 1 + k] == d1[k]);
            assert(is_digit(d1[k]));
        }
        if s2.len() < s1.len() {
            let k = s1.len() - s2.len() - 1;
            assert(0 <= k < d2.len());
            assert(name2[s2.len() + 1 + k] == d2[k]);
            assert(is_digit(d2[k]));
        }
        assert(s1 =~= name1.take(s1.len() as int));
        assert(s2 =~= name2.take(s2.len() as int));
        assert(d1 =~= name1.subrange(s1.len() as int + 1, name1.len() - 4));
        assert(d2 =~= name2.subrange(s2.len() as int + 1, name2.len() - 4));
        law_decimal_is_injective(hash1 as nat, hash2 as nat);
    }
}

/// The stage that is reached from `stage` by one step for each outcome.
pub open spec fn cover_stage_after(stage: CoverStage, outcomes: Seq<bool>) -> CoverStage
    decreases outcomes.len(),
{
    if outcomes.len() == 0 {
        stage
    } else {
        spec_next_cover_stage(cover_stage_after(stage, outcomes.drop_last()), outcomes.last())
    }
}

/// Having a cover stored takes at most five steps, whatever comes of each.
pub proof fn law_storing_a_cover_ends(outcomes: Seq<bool>)
    requires
        outcomes.len() >= 5,
    ensures
        ({
            let end = cover_stage_after(CoverStage::Probe, outcomes);
            end == CoverStage::Stored || end == CoverStage::Failed
        }),
    decreases outcomes.len(),
{
    if outcomes.len() == 5 {
        reveal_with_fuel(cover_stage_after, 6);
    } else {
        law_storing_a_cover_ends(outcomes.drop_last());
    }
}

/// A cover is stored exactly where its file was there, or was written and has
/// outlived the cleanup, or was written twice.
pub proof fn law_cover_is_stored_iff_found_or_written(
    found: bool,
    written: bool,
    cleaned: bool,
    left: bool,
    rewritten: bool,
)
    ensures
        cover_stage_after(
            CoverStage::Probe,
            seq![found, written, cleaned, left, rewritten],
        ) == CoverStage::Stored <==> found || (written && (left || rewritten)),
{
    let o = seq![found, written, cleaned, left, rewritten];
    reveal_with_fuel(cover_stage_after, 6);
    assert(o.drop_last() =~= seq![found, written, cleaned, left]);
    assert(o.drop_last().drop_last() =~= seq![found, written, cleaned]);
    assert(o.drop_last().drop_last().drop_last() =~= seq![found, written]);
    assert(o.drop_last().drop_last().drop_last().drop_last() =~= seq![found]);
    assert(o.drop_last().drop_last().drop_last().drop_last().drop_last() =~= seq![]);
}

/// A file that is there is not written again, and nothing is cleaned up for it.
pub proof fn law_present_cover_is_left_alone(outcomes: Seq<bool>)
    requires
        outcomes.len() > 0,
        outcomes[0],
    ensures
        cover_stage_after(CoverStage::Probe, outcomes) == CoverStage::Stored,
    decreases outcomes.len(),
{
    if outcomes.len() > 1 {
        law_present_cover_is_left_alone(outcomes.drop_last());
    } else {
        reveal_with_fuel(cover_stage_after, 2);
    }
}

/// The time of the last cleanup after one call at each of the given times.
pub open spec fn last_run_after(last_run: Option<TimeSpan>, times: Seq<TimeSpan>) -> Option<
    TimeSpan,
>
    decreases times.len(),
{
    if times.len() == 0 {
        last_run
    } else {
        let before = last_run_after(last_run, times.drop_last());
        if cleanup_is_due(before, times.last()) {
            Some(times.last())
        } else {
            before
        }
    }
}

/// Whether the call at `times[i]` cleans up.
pub open spec fn cleans_up_at(last_run: Option<TimeSpan>, times: Seq<TimeSpan>, i: int) -> bool {
    cleanup_is_due(last_run_after(last_run, times.take(i)), times[i])
}

/// Any two cleanups lie `MIN_CLEANUP_INTERVAL_SECS` apart, at whatever times
/// they are asked for.
pub proof fn law_cleanups_are_apart(last_run: Option<TimeSpan>, times: Seq<TimeSpan>, i: int, j: int)
    requires
        0 <= i < j < times.len(),
        cleans_up_at(last_run, times, i),
        cleans_up_at(last_run, times, j),
    ensures
        times[j].total_nanos() >= times[i].total_nanos() + MIN_CLEANUP_INTERVAL_SECS
            * 1_000_000_000,
{
    lemma_last_run_never_falls(last_run, times, i, j);
}

proof fn lemma_last_run_never_falls(
    last_run: Option<TimeSpan>,
    times: Seq<TimeSpan>,
    i: int,
    j: int,
)
    requires
        0 <= i < j <= times.len(),
        cleans_up_at(last_run, times, i),
    ensures
        last_run_after(last_run, times.take(j)) matches Some(at) && at.total_nanos()
            >= times[i].total_nanos(),
    decreases j,
{
    let upto = times.take(j);
    assert(upto.drop_last() =~= times.take(j - 1));
    assert(upto.last() == times[j - 1]);
    if j > i + 1 {
        lemma_last_run_never_falls(last_run, times, i, j - 1);
    }
}

/// The safe characters by their codes: digits, capital and small letters, the
/// hyphen and the underscore, and no other.
pub proof fn law_safe_characters_are_ascii_letters_digits_and_two_marks(c: char)
    ensures
        is_safe_char(c) <==> {
            ||| 48 <= c as int <= 57
            ||| 65 <= c as int <= 90
            ||| 97 <= c as int <= 122
            ||| c as int == 45
            ||| c as int == 95
        },
{
}

proof fn lemma_safe_chars_are_empty_iff_none_is_safe(s: Seq<char>)
    ensures
        safe_chars(s).len() == 0 <==> forall|i: int|
            0 <= i < s.len() ==> !is_safe_char(#[trigger] s[i]),
    decreases s.len(),
{
    reveal(Seq::filter);
    if s.len() > 0 {
        let rest = s.drop_last();
        lemma_safe_chars_are_empty_iff_none_is_safe(rest);
        if safe_chars(rest).len() == 0 {
            assert forall|i: int| 0 <= i < s.len() - 1 implies !is_safe_char(#[trigger] s[i]) by {
                assert(rest[i] == s[i]);
            }
        } else {
            let i = choose|i: int| 0 <= i < rest.len() && is_safe_char(#[trigger] rest[i]);
            assert(is_safe_char(s[i]));
        }
    }
}

/// A sanitized text grows with every safe character, in order and without end, and
/// with no other; as long as there is none it is `track`.
pub proof fn law_sanitized_text_keeps_every_safe_character(s: Seq<char>, c: char)
    ensures
        (forall|i: int| 0 <= i < s.len() ==> !is_safe_char(#[trigger] s[i])) ==> sanitized(s)
            == "track"@,
        (forall|i: int| 0 <= i < s.len() ==> !is_safe_char(#[trigger] s[i])) && is_safe_char(c)
            ==> sanitized(s.push(c)) == seq![c],
        (exists|i: int| 0 <= i < s.len() && is_safe_char(#[trigger] s[i])) && is_safe_char(c)
            ==> sanitized(s.push(c)) == sanitized(s).push(c),
        !is_safe_char(c) ==> sanitized(s.push(c)) == sanitized(s),
{
    reveal(Seq::filter);
    lemma_safe_chars_are_empty_iff_none_is_safe(s);
    assert(s.push(c).drop_last() =~= s);
    if safe_chars(s).len() == 0 {
        assert(safe_chars(s) =~= Seq::empty());
        assert(Seq::<char>::empty().push(c) =~= seq![c]);
    }
}

/// The name of a cover's file is the sanitized song id, an underscore, the hash in
/// decimal and `.img`.
pub proof fn law_cover_name_spells_id_and_hash(song_id: Seq<char>, hash: u64)
    ensures
        ({
            let name = spec_cover_filename(song_id, hash);
            let n = sanitized(song_id).len() as int;
            &&& n < name.len() - 4
            &&& name.take(n) == sanitized(song_id)
            &&& name[n] == '_'
            &&& digits_value(name.subrange(n + 1, name.len() - 4)) == hash
            &&& name.skip(name.len() - 4) == ".img"@
        }),
{
    reveal_strlit(".img");
    law_decimal_spells_the_number(hash as nat);
    let name = spec_cover_filename(song_id, hash);
    let n = sanitized(song_id).len() as int;
    assert(name.take(n) =~= sanitized(song_id));
    assert(name.subrange(n + 1, name.len() - 4) =~= decimal(hash as nat));
    assert(name.skip(name.len() - 4) =~= ".img"@);
}

/// A file is written first exactly where it was not found, and once more exactly
/// where the cleanup has not left it; a cleanup follows a first write that has
/// succeeded, and nothing else.
pub proof fn law_cover_is_written_where_it_is_missing(stage: CoverStage, ok: bool)
    ensures
        spec_next_cover_stage(stage, ok) == CoverStage::Write <==> stage == CoverStage::Probe
            && !ok,
        spec_next_cover_stage(stage, ok) == CoverStage::Clean <==> stage == CoverStage::Write && ok,
        spec_next_cover_stage(stage, ok) == CoverStage::Reprobe <==> stage == CoverStage::Clean,
        spec_next_cover_stage(stage, ok) == CoverStage::Rewrite <==> stage == CoverStage::Reprobe
            && !ok,
        spec_next_cover_stage(stage, ok) != CoverStage::Probe,
        spec_next_cover_stage(stage, ok) == CoverStage::Failed <==> stage == CoverStage::Failed
            || (!ok && (stage == CoverStage::Write || stage == CoverStage::Rewrite)),
{
}

/// A cleanup is due where none was made, and from the moment on at which the last
/// lies three hundred seconds back, but not before.
pub proof fn law_cleanup_is_due_after_the_interval(at: TimeSpan, now: TimeSpan, later: TimeSpan)
    ensures
        cleanup_is_due(None, now),
        cleanup_is_due(Some(at), now) <==> now.total_nanos() - at.total_nanos() >= 300_000_000_000,
        cleanup_is_due(Some(at), now) && later.total_nanos() >= now.total_nanos()
            ==> cleanup_is_due(Some(at), later),
        !cleanup_is_due(Some(at), at),
{
}

/// A cover's hash is that of the whole image and of nothing else: it is the end of
/// a new hasher after writes that are made for all of the bytes.
pub proof fn law_cover_hash_is_of_the_whole_image(bytes: Seq<u8>, hash: u64)
    ensures
        is_cover_hash(bytes, hash) <==> exists|writes: Seq<Seq<u8>>|
            DefaultHasher::spec_finish(writes) == hash && #[trigger] may_feed(bytes, writes),
{
}

} // verus!
