//! Finding the video identifier inside a link.

use vstd::prelude::*;
use vstd::std_specs::iter::IteratorSpec;
use vstd::string::StrSliceExecFns;

verus! {

/// Length of a video identifier, in characters.
pub const VIDEO_ID_LEN: usize = 11;

/// The alphabet of video identifiers: ASCII letters, digits, `-` and `_`.
pub open spec fn is_id_char(c: char) -> bool {
    ||| 'a' <= c <= 'z'
    ||| 'A' <= c <= 'Z'
    ||| '0' <= c <= '9'
    ||| c == '-'
    ||| c == '_'
}

/// `s[start..end]` is a run: a stretch of identifier characters that cannot
/// be extended on either side.
pub open spec fn is_run(s: Seq<char>, start: int, end: int) -> bool {
    &&& 0 <= start <= end <= s.len()
    &&& forall|i: int| start <= i < end ==> is_id_char(#[trigger] s[i])
    &&& (start == 0 || !is_id_char(s[start - 1]))
    &&& (end == s.len() || !is_id_char(s[end]))
}

/// A run of exactly eleven characters starts at `start`.
pub open spec fn is_id_at(s: Seq<char>, start: int) -> bool {
    is_run(s, start, start + VIDEO_ID_LEN as int)
}

/// `start` is where the first run of exactly eleven characters begins.
pub open spec fn is_first_id_at(s: Seq<char>, start: int) -> bool {
    &&& is_id_at(s, start)
    &&& forall|j: int| j < start ==> !is_id_at(s, j)
}

/// The video identifier of a link: its first run of exactly eleven
/// characters, if it has one. Longer and shorter runs never count, not even
/// in part.
pub open spec fn video_id_of(s: Seq<char>) -> Option<Seq<char>> {
    if exists|i: int| is_first_id_at(s, i) {
        let start = choose|i: int| is_first_id_at(s, i);
        Some(s.subrange(start, start + VIDEO_ID_LEN as int))
    } else {
        None
    }
}

/// A sequence is a well-formed identifier: eleven characters of the alphabet.
pub open spec fn is_video_id(id: Seq<char>) -> bool {
    &&& id.len() == VIDEO_ID_LEN
    &&& forall|i: int| 0 <= i < id.len() ==> is_id_char(#[trigger] id[i])
}

/// Whether `c` belongs to the identifier alphabet.
pub fn id_char(c: char) -> (r: bool)
    ensures
        r == is_id_char(c),
{
    (c >= 'a' && c <= 'z') || (c >= 'A' && c <= 'Z') || (c >= '0' && c <= '9') || c == '-'
        || c == '_'
}

/// Every start before `upto` is ruled out as the start of an identifier.
pub open spec fn no_id_before(s: Seq<char>, upto: int) -> bool {
    forall|j: int| j < upto ==> !is_id_at(s, j)
}

/// A run that ends at `end` either is the first identifier or rules out every
/// start up to and including `end`.
proof fn lemma_run_closed(s: Seq<char>, start: int, end: int)
    requires
        is_run(s, start, end),
        no_id_before(s, start),
    ensures
        end - start == VIDEO_ID_LEN ==> is_first_id_at(s, start),
        end - start != VIDEO_ID_LEN ==> no_id_before(s, end + 1),
{
    if end - start != VIDEO_ID_LEN {
        assert forall|j: int| j < end + 1 implies !is_id_at(s, j) by {
            if j < start {
            } else if j == start {
                if end - start < VIDEO_ID_LEN {
                    // the run stops inside the eleven characters
                    if end < s.len() {
                        assert(!is_id_char(s[end]));
                    }
                } else {
                    // the run goes on past the eleventh character
                    assert(is_id_char(s[start + VIDEO_ID_LEN as int]));
                }
            } else if j < end {
                assert(is_id_char(s[j - 1]));
            } else {
                if end < s.len() {
                    assert(!is_id_char(s[end]));
                }
            }
        }
    }
}

/// The first identifier is unique, so `video_id_of` is the run found there.
pub proof fn lemma_first_id_found(s: Seq<char>, start: int)
    requires
        is_first_id_at(s, start),
    ensures
        video_id_of(s) == Some(s.subrange(start, start + VIDEO_ID_LEN as int)),
{
    let chosen = choose|i: int| is_first_id_at(s, i);
    assert(is_first_id_at(s, chosen));
    assert(chosen == start) by {
        if chosen < start {
            assert(!is_id_at(s, chosen));
        } else if start < chosen {
            assert(!is_id_at(s, start));
        }
    }
}

/// A link with exactly one run of eleven characters has that run as its
/// identifier.
pub proof fn law_single_run_is_the_id(s: Seq<char>, start: int)
    requires
        is_id_at(s, start),
        forall|j: int| is_id_at(s, j) ==> j == start,
    ensures
        video_id_of(s) == Some(s.subrange(start, start + VIDEO_ID_LEN as int)),
{
    lemma_first_id_found(s, start);
}

/// A link without a run of eleven characters has no identifier.
pub proof fn law_no_run_no_id(s: Seq<char>)
    requires
        forall|j: int| !is_id_at(s, j),
    ensures
        video_id_of(s) is None,
{
}

/// A link has an identifier exactly where it has a run of eleven
/// characters, and every identifier is well formed.
pub proof fn law_id_is_well_formed(s: Seq<char>)
    ensures
        video_id_of(s) is Some <==> exists|j: int| is_id_at(s, j),
        video_id_of(s) matches Some(id) ==> is_video_id(id),
{
    if exists|j: int| is_id_at(s, j) {
        let j = choose|j: int| is_id_at(s, j);
        lemma_least_start(s, j);
    }
    if video_id_of(s) is Some {
        let start = choose|i: int| is_first_id_at(s, i);
        let id = s.subrange(start, start + VIDEO_ID_LEN as int);
        assert forall|i: int| 0 <= i < id.len() implies is_id_char(#[trigger] id[i]) by {
            assert(id[i] == s[start + i]);
        }
    }
}

/// Where an identifier starts somewhere, one starts first.
proof fn lemma_least_start(s: Seq<char>, witness: int)
    requires
        is_id_at(s, witness),
    ensures
        exists|i: int| is_first_id_at(s, i),
    decreases witness,
{
    if exists|j: int| j < witness && is_id_at(s, j) {
        let j = choose|j: int| j < witness && is_id_at(s, j);
        lemma_least_start(s, j);
    } else {
        assert(is_first_id_at(s, witness));
    }
}

/// Extracts the video identifier from a link: the link is cut at every
/// character outside the identifier alphabet, and the first piece of exactly
/// eleven characters is the identifier.
pub fn extract_youtube_video_id(url: &str) -> (r: Option<String>)
    ensures
        match r {
            Some(id) => video_id_of(url@) == Some(id@) && is_video_id(id@),
            None => video_id_of(url@) is None,
        },
{
    proof {
        law_id_is_well_formed(url@);
    }
    broadcast use vstd::string::group_string_axioms;

    let n = url.unicode_len();
    let mut chars = url.chars();
    let mut pos: usize = 0;
    let mut run: usize = 0;
    while pos < n
        invariant
            n == url@.len(),
            run <= pos <= n,
            chars.remaining() == url@.subrange(pos as int, n as int),
            forall|i: int| pos - run <= i < pos ==> is_id_char(#[trigger] url@[i]),
            pos == run || !is_id_char(url@[pos - run - 1]),
            no_id_before(url@, pos - run),
        decreases n - pos,
    {
        let ghost before = chars.remaining();
        let next = chars.next();
        assert(before.len() > 0);
        assert(next == Some(url@[pos as int]));
        assert(chars.remaining() == url@.subrange(pos + 1, n as int));
        let c = next.unwrap();
        if id_char(c) {
            run = run + 1;
        } else {
            proof {
                lemma_run_closed(url@, pos - run, pos as int);
            }
            if run == VIDEO_ID_LEN {
                let id = url.substring_char(pos - run, pos);
                proof {
                    lemma_first_id_found(url@, pos - run);
                }
                return Some(id.to_owned());
            }
            run = 0;
        }
        pos = pos + 1;
    }
    proof {
        lemma_run_closed(url@, pos - run, pos as int);
    }
    if run == VIDEO_ID_LEN {
        let id = url.substring_char(pos - run, pos);
        proof {
            lemma_first_id_found(url@, pos - run);
        }
        Some(id.to_owned())
    } else {
        assert forall|i: int| !is_first_id_at(url@, i) by {
            if i < n + 1 {
                assert(!is_id_at(url@, i));
            }
        }
        None
    }
}

} // verus!
