//! Track resolution: classifying a user query as a search term, a playlist
//! URL, or a direct URL, and expanding a playlist by extracting the
//! individual video URLs from the flat-listing tool's structured output.
//! The tool itself runs out of process; this module only scans its output
//! bytes.

use vstd::prelude::*;
use vstd::slice::{slice_subrange, slice_to_vec};

use crate::error::MusicError;

verus! {

/// How a user query is treated, decided in order, first match wins: no URL
/// scheme marker means a search term; a URL with a playlist marker means a
/// playlist; any other URL is a direct track.
#[derive(Clone, Copy, PartialEq, Eq, Structural, Debug)]
pub enum QueryKind {
    Search,
    Playlist,
    DirectUrl,
}

/// The bytes of `m` stand in `q` at offset `i`.
pub open spec fn marker_at(q: Seq<u8>, i: int, m: Seq<u8>) -> bool {
    &&& 0 <= i
    &&& i + m.len() <= q.len()
    &&& forall|k: int| 0 <= k < m.len() ==> q[i + k] == m[k]
}

/// The URL scheme marker that separates search terms from URLs.
pub open spec fn http_marker() -> Seq<u8> {
    seq![104u8, 116u8, 116u8, 112u8]
}

/// The marker that identifies a playlist URL.
pub open spec fn playlist_marker() -> Seq<u8> {
    seq![112u8, 108u8, 97u8, 121u8, 108u8, 105u8, 115u8, 116u8]
}

pub open spec fn starts_with_http(q: Seq<u8>) -> bool {
    marker_at(q, 0, http_marker())
}

pub open spec fn has_playlist_marker(q: Seq<u8>) -> bool {
    exists|i: int| marker_at(q, i, playlist_marker())
}

/// The classification of a query, in the order the rules are tried.
pub open spec fn spec_classify(q: Seq<u8>) -> QueryKind {
    if !starts_with_http(q) {
        QueryKind::Search
    } else if has_playlist_marker(q) {
        QueryKind::Playlist
    } else {
        QueryKind::DirectUrl
    }
}

/// Runtime copy of the URL scheme marker bytes.
fn http_marker_vec() -> (v: Vec<u8>)
    ensures
        v@ == http_marker(),
{
    let mut v: Vec<u8> = Vec::new();
    v.push(104);
    v.push(116);
    v.push(116);
    v.push(112);
    proof {
        assert(v@ =~= http_marker());
    }
    v
}

/// Runtime copy of the playlist marker bytes.
fn playlist_marker_vec() -> (v: Vec<u8>)
    ensures
        v@ == playlist_marker(),
{
    let mut v: Vec<u8> = Vec::new();
    v.push(112);
    v.push(108);
    v.push(97);
    v.push(121);
    v.push(108);
    v.push(105);
    v.push(115);
    v.push(116);
    proof {
        assert(v@ =~= playlist_marker());
    }
    v
}

/// Whether the bytes of `m` stand in `q` at offset `i`.
fn match_at(q: &[u8], i: usize, m: &[u8]) -> (b: bool)
    requires
        i + m@.len() <= q@.len(),
    ensures
        b == marker_at(q@, i as int, m@),
{
    let n = m.len();
    let qn = q.len();
    let mut k: usize = 0;
    while k < n
        invariant
            i + m@.len() <= q@.len(),
            n == m@.len(),
            qn == q@.len(),
            k <= n,
            forall|k2: int| 0 <= k2 < k ==> q@[i + k2] == m@[k2],
        decreases n - k,
    {
        if q[i + k] != m[k] {
            proof {
                assert(q@[i as int + k as int] != m@[k as int]);
            }
            return false;
        }
        k = k + 1;
    }
    true
}

/// Whether the bytes of `m` stand anywhere in `q`.
fn find_marker(q: &[u8], m: &[u8]) -> (b: bool)
    requires
        m@.len() >= 1,
    ensures
        b == exists|i: int| marker_at(q@, i, m@),
{
    if q.len() < m.len() {
        return false;
    }
    let qn = q.len();
    let last = qn - m.len();
    let mut i: usize = 0;
    while i <= last
        invariant
            1 <= m@.len() <= q@.len(),
            qn == q@.len(),
            last == q@.len() - m@.len(),
            i <= last + 1,
            forall|j: int| 0 <= j < i ==> !marker_at(q@, j, m@),
        decreases last + 1 - i,
    {
        if match_at(q, i, m) {
            return true;
        }
        i = i + 1;
    }
    assert forall|j: int| !marker_at(q@, j, m@) by {
        if 0 <= j < i {
        } else if j > last {
            assert(j + m@.len() > q@.len());
        }
    }
    false
}

/// The marker a playlist entry of the flat-listing tool's output starts
/// with: the key `"url": "` and the video URL scheme, host and path
/// `https://www.youtube.com/watch?v=`.
pub open spec fn url_marker() -> Seq<u8> {
    seq![
        34u8, 117u8, 114u8, 108u8, 34u8, 58u8, 32u8, 34u8, 104u8, 116u8, 116u8, 112u8, 115u8,
        58u8, 47u8, 47u8, 119u8, 119u8, 119u8, 46u8, 121u8, 111u8, 117u8, 116u8, 117u8, 98u8,
        101u8, 46u8, 99u8, 111u8, 109u8, 47u8, 119u8, 97u8, 116u8, 99u8, 104u8, 63u8, 118u8,
        61u8,
    ]
}

/// A letter or a digit: the alphabet of a video id.
pub open spec fn is_alnum(b: u8) -> bool {
    (65 <= b <= 90) || (97 <= b <= 122) || (48 <= b <= 57)
}

/// A complete playlist entry stands at `i`: the URL marker, an 11-character
/// video id, and the closing quote.
pub open spec fn url_entry_at(q: Seq<u8>, i: int) -> bool {
    &&& i + 52 <= q.len()
    &&& marker_at(q, i, url_marker())
    &&& forall|k: int| 0 <= k < 11 ==> is_alnum(#[trigger] q[i + 40 + k])
    &&& q[i + 51] == 34
}

/// The video URL extracted from the entry at `i`: the URL proper with its
/// video id, without the surrounding key and quotes.
pub open spec fn url_at(q: Seq<u8>, i: int) -> Seq<u8> {
    q.subrange(i + 8, i + 51)
}

/// Every video URL of the tool output from offset `i` on, extracted left to
/// right; the scan continues past each complete entry, exactly as
/// non-overlapping pattern matching does.
pub open spec fn spec_extract(q: Seq<u8>, i: int) -> Seq<Seq<u8>>
    decreases q.len() - i,
{
    if i + 52 > q.len() {
        Seq::empty()
    } else if url_entry_at(q, i) {
        seq![url_at(q, i)] + spec_extract(q, i + 52)
    } else {
        spec_extract(q, i + 1)
    }
}

/// The byte contents of a batch of extracted URL buffers.
pub open spec fn url_views(us: Seq<Vec<u8>>) -> Seq<Seq<u8>> {
    us.map_values(|u: Vec<u8>| u@)
}

/// Runtime copy of the playlist-entry URL marker bytes.
fn url_marker_vec() -> (v: Vec<u8>)
    ensures
        v@ == url_marker(),
{
    let mut v: Vec<u8> = Vec::new();
    v.push(34);
    v.push(117);
    v.push(114);
    v.push(108);
    v.push(34);
    v.push(58);
    v.push(32);
    v.push(34);
    v.push(104);
    v.push(116);
    v.push(116);
    v.push(112);
    v.push(115);
    v.push(58);
    v.push(47);
    v.push(47);
    v.push(119);
    v.push(119);
    v.push(119);
    v.push(46);
    v.push(121);
    v.push(111);
    v.push(117);
    v.push(116);
    v.push(117);
    v.push(98);
    v.push(101);
    v.push(46);
    v.push(99);
    v.push(111);
    v.push(109);
    v.push(47);
    v.push(119);
    v.push(97);
    v.push(116);
    v.push(99);
    v.push(104);
    v.push(63);
    v.push(118);
    v.push(61);
    proof {
        assert(v@ =~= url_marker());
    }
    v
}

fn is_alnum_byte(b: u8) -> (r: bool)
    ensures
        r == is_alnum(b),
{
    (65 <= b && b <= 90) || (97 <= b && b <= 122) || (48 <= b && b <= 57)
}

/// Whether a complete playlist entry stands at `i`.
fn url_entry_check(q: &[u8], i: usize, m: &[u8]) -> (b: bool)
    requires
        m@ == url_marker(),
        i + 52 <= q@.len(),
    ensures
        b == url_entry_at(q@, i as int),
{
    let qn = q.len();
    if !match_at(q, i, m) {
        return false;
    }
    let mut k: usize = 0;
    while k < 11
        invariant
            i + 52 <= q@.len(),
            qn == q@.len(),
            k <= 11,
            marker_at(q@, i as int, url_marker()),
            forall|k2: int| 0 <= k2 < k ==> is_alnum(#[trigger] q@[i + 40 + k2]),
        decreases 11 - k,
    {
        if !is_alnum_byte(q[i + 40 + k]) {
            proof {
                assert(!is_alnum(q@[i as int + 40 + k as int]));
            }
            return false;
        }
        k = k + 1;
    }
    q[i + 51] == 34
}

/// Expands a playlist: extracts every video URL from the flat-listing
/// tool's output, in the order they stand there. Output with nothing
/// extractable — malformed or empty — fails the whole playlist with
/// `PlaylistExpansionFailed`, so nothing of it is enqueued.
pub fn expand_playlist(out: &[u8]) -> (r: Result<Vec<Vec<u8>>, MusicError>)
    ensures
        match r {
            Ok(urls) => spec_extract(out@, 0).len() > 0 && url_views(urls@) == spec_extract(
                out@,
                0,
            ),
            Err(e) => e == MusicError::PlaylistExpansionFailed && spec_extract(out@, 0).len()
                == 0,
        },
{
    let m = url_marker_vec();
    let mut urls: Vec<Vec<u8>> = Vec::new();
    let n = out.len();
    if n >= 52 {
        let last = n - 52;
        let mut i: usize = 0;
        while i <= last
            invariant
                n == out@.len(),
                n >= 52,
                last == n - 52,
                i <= n,
                m@ == url_marker(),
                url_views(urls@) + spec_extract(out@, i as int) =~= spec_extract(out@, 0),
            decreases n - i,
        {
            if url_entry_check(out, i, m.as_slice()) {
                let ghost urls0 = urls@;
                let u = slice_to_vec(slice_subrange(out, i + 8, i + 51));
                urls.push(u);
                proof {
                    assert(u@ == url_at(out@, i as int));
                    assert(url_views(urls@) =~= url_views(urls0).push(u@));
                    assert(url_views(urls@) + spec_extract(out@, i as int + 52) =~= url_views(
                        urls0,
                    ) + spec_extract(out@, i as int));
                }
                i = i + 52;
            } else {
                i = i + 1;
            }
        }
        proof {
            assert(spec_extract(out@, i as int) =~= Seq::<Seq<u8>>::empty());
            assert(url_views(urls@) =~= spec_extract(out@, 0));
        }
    } else {
        proof {
            assert(spec_extract(out@, 0) =~= Seq::<Seq<u8>>::empty());
            assert(url_views(urls@) =~= spec_extract(out@, 0));
        }
    }
    if urls.len() == 0 {
        proof {
            assert(spec_extract(out@, 0).len() == url_views(urls@).len());
        }
        Err(MusicError::PlaylistExpansionFailed)
    } else {
        Ok(urls)
    }
}

/// Classifies a user query, in order, first match wins: a search term, a
/// playlist URL, or a direct URL.
pub fn classify_query(q: &[u8]) -> (k: QueryKind)
    ensures
        k == spec_classify(q@),
{
    let http = http_marker_vec();
    if q.len() < 4 || !match_at(q, 0, http.as_slice()) {
        return QueryKind::Search;
    }
    let playlist = playlist_marker_vec();
    if find_marker(q, playlist.as_slice()) {
        QueryKind::Playlist
    } else {
        QueryKind::DirectUrl
    }
}

} // verus!
