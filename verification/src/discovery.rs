//! Conditional answers to provider-discovery requests: a catalogue answer
//! carries an entity tag made from its body's digest, and a request that
//! already holds that tag is answered "not modified" without a body.
use vstd::prelude::*;

use crate::text::{char_vec, same_text, starts_with, starts_with_seq, trim, trim_seq};
use vstd::string::StringExecFns;

verus! {

/// How long shared caches may keep a discovery answer.
pub const PUBLIC_CACHE_CONTROL: &'static str = "public, max-age=300, must-revalidate";

/// The pieces of `s` between commas, as `str::split(',')` yields them:
/// the finished pieces, and the piece being read.
pub open spec fn split_acc(s: Seq<char>) -> (Seq<Seq<char>>, Seq<char>)
    decreases s.len(),
{
    if s.len() == 0 {
        (Seq::empty(), Seq::empty())
    } else {
        let (done, cur) = split_acc(s.drop_last());
        if s.last() == ',' {
            (done.push(cur), Seq::empty())
        } else {
            (done, cur.push(s.last()))
        }
    }
}

pub open spec fn comma_pieces(s: Seq<char>) -> Seq<Seq<char>> {
    split_acc(s).0.push(split_acc(s).1)
}

/// A candidate tag matches when, trimmed, it is the tag, or the tag marked
/// weak (`W/` before it).
pub open spec fn candidate_matches(c: Seq<char>, etag: Seq<char>) -> bool {
    let t = trim_seq(c);
    t == etag || (starts_with_seq(t, "W/"@) && t.subrange(2, t.len() as int) == etag)
}

/// An `If-None-Match` value matches when one of its comma-separated
/// candidates does; no value matches nothing.
pub open spec fn etag_match(header: Option<Seq<char>>, etag: Seq<char>) -> bool {
    match header {
        None => false,
        Some(h) => some_piece_matches(h, etag),
    }
}

pub open spec fn some_piece_matches(h: Seq<char>, etag: Seq<char>) -> bool {
    exists|k: int|
        0 <= k < comma_pieces(h).len() && #[trigger] candidate_matches(comma_pieces(h)[k], etag)
}

fn candidate_matches_exec(c: &str, etag: &str) -> (r: bool)
    ensures
        r == candidate_matches(c@, etag@),
{
    let t = trim(c);
    if same_text(t.as_str(), etag) {
        return true;
    }
    proof {
        reveal_strlit("W/");
    }
    if !starts_with(t.as_str(), "W/") {
        return false;
    }
    let n = t.as_str().unicode_len();
    let rest = t.as_str().substring_char(2, n);
    same_text(rest, etag)
}

/// Whether a request's `If-None-Match` value names the tag (see `etag_match`).
pub fn etag_matches(if_none_match: Option<&str>, etag: &str) -> (r: bool)
    ensures
        r == etag_match(if_none_match.deep_view(), etag@),
{
    let h = match if_none_match {
        Some(h) => h,
        None => return false,
    };
    let ghost hs = h@;
    assert(if_none_match.deep_view() == Some(hs));
    let v = char_vec(h);
    let mut start: usize = 0;
    let mut i: usize = 0;
    let ghost mut done: Seq<Seq<char>> = Seq::empty();
    assert(hs.subrange(0, 0) =~= Seq::<char>::empty());
    assert(hs.subrange(0, 0).subrange(0, 0) =~= Seq::<char>::empty());
    while i < v.len()
        invariant
            v@ == hs,
            h@ == hs,
            if_none_match.deep_view() == Some(hs),
            start <= i <= hs.len(),
            split_acc(hs.subrange(0, i as int)) == (done, hs.subrange(start as int, i as int)),
            forall|k: int| 0 <= k < done.len() ==> !#[trigger] candidate_matches(done[k], etag@),
        decreases hs.len() - i,
    {
        let ghost pre = hs.subrange(0, i + 1);
        assert(pre.drop_last() =~= hs.subrange(0, i as int));
        if v[i] == ',' {
            let piece = h.substring_char(start, i);
            if candidate_matches_exec(piece, etag) {
                proof {
                    let (d2, c2) = split_acc(hs);
                    lemma_split_prefix(hs, i as int + 1);
                    let p1 = split_acc(pre);
                    assert(p1 == (done.push(hs.subrange(start as int, i as int)), Seq::<char>::empty()));
                    assert(p1.0[done.len() as int] == piece@);
                    assert(done.len() < d2.len());
                    assert(d2[done.len() as int] == piece@);
                    assert(comma_pieces(hs)[done.len() as int] == d2[done.len() as int]);
                    assert(candidate_matches(comma_pieces(hs)[done.len() as int], etag@));
                    assert(if_none_match.deep_view() == Some(hs));
                    let k = done.len() as int;
                    assert(0 <= k < comma_pieces(hs).len() && candidate_matches(
                        comma_pieces(hs)[k],
                        etag@,
                    ));
                    assert(some_piece_matches(hs, etag@));
                }
                return true;
            }
            proof {
                done = done.push(hs.subrange(start as int, i as int));
            }
            start = i + 1;
            assert(hs.subrange(start as int, i + 1) =~= Seq::<char>::empty());
        } else {
            assert(hs.subrange(start as int, i + 1) =~= hs.subrange(start as int, i as int).push(
                v@[i as int],
            ));
        }
        i = i + 1;
    }
    assert(hs.subrange(0, hs.len() as int) =~= hs);
    let piece = h.substring_char(start, i);
    let last = candidate_matches_exec(piece, etag);
    proof {
        let ps = comma_pieces(hs);
        assert(ps == done.push(piece@));
        if !last {
            assert forall|k: int| 0 <= k < ps.len() implies !#[trigger] candidate_matches(
                ps[k],
                etag@,
            ) by {
                if k < done.len() {
                    assert(ps[k] == done[k]);
                }
            }
        } else {
            assert(candidate_matches(ps[done.len() as int], etag@));
        }
    }
    last
}

/// Pieces finished in a prefix stay finished, at the same places.
proof fn lemma_split_prefix(s: Seq<char>, i: int)
    requires
        0 <= i <= s.len(),
    ensures
        split_acc(s.subrange(0, i)).0.len() <= split_acc(s).0.len(),
        forall|k: int|
            0 <= k < split_acc(s.subrange(0, i)).0.len() ==> #[trigger] split_acc(s).0[k]
                == split_acc(s.subrange(0, i)).0[k],
    decreases s.len() - i,
{
    if i < s.len() {
        lemma_split_prefix(s, i + 1);
        let p = s.subrange(0, i + 1);
        assert(p.drop_last() =~= s.subrange(0, i));
    } else {
        assert(s.subrange(0, i) =~= s);
    }
}

/// The entity tag of a body with the given SHA-256 digest (hex).
pub open spec fn etag_of(digest_hex: Seq<char>) -> Seq<char> {
    "\"sha256-"@ + digest_hex + "\""@
}

pub fn etag_for_digest(digest_hex: &str) -> (r: String)
    ensures
        r@ == etag_of(digest_hex@),
{
    let mut t = "\"sha256-".to_owned();
    t.append(digest_hex);
    t.append("\"");
    t
}

/// A discovery answer.
pub struct DiscoveryResponse {
    /// 200, or 304 when the request already holds the tag.
    pub status: u16,
    pub etag: String,
    pub content_type: String,
    pub cache_control: String,
    /// The body; empty for 304.
    pub body: Vec<u8>,
}

/// Answers a discovery request from its `If-None-Match` value, the JSON body
/// and the body's SHA-256 digest.
pub fn discovery_response(if_none_match: Option<&str>, body: Vec<u8>, digest_hex: &str) -> (r:
    DiscoveryResponse)
    ensures
        r.etag@ == etag_of(digest_hex@),
        r.status == if etag_match(if_none_match.deep_view(), etag_of(digest_hex@)) {
            304u16
        } else {
            200u16
        },
        r.body@ == if r.status == 304 {
            Seq::<u8>::empty()
        } else {
            body@
        },
        r.content_type@ == "application/json"@,
        r.cache_control@ == PUBLIC_CACHE_CONTROL@,
{
    let etag = etag_for_digest(digest_hex);
    let not_modified = etag_matches(if_none_match, etag.as_str());
    DiscoveryResponse {
        status: if not_modified {
            304
        } else {
            200
        },
        etag,
        content_type: "application/json".to_owned(),
        cache_control: PUBLIC_CACHE_CONTROL.to_owned(),
        body: if not_modified {
            Vec::new()
        } else {
            body
        },
    }
}

/// Why the provider catalogue could not answer.
pub enum DiscoveryError {
    InvalidVersion,
    NotFound,
    Unavailable(String),
    InvalidCatalog(String),
}

/// How a discovery failure is answered.
#[derive(Debug, Clone, Copy, PartialEq, Eq, Structural)]
pub enum DiscoveryFailure {
    /// The requested version is not one the catalogue knows.
    InvalidVersionField,
    ResourceNotFound,
    ServiceTemporarilyUnavailable,
}

/// A bad version is the request's fault, a missing entry is not found, and
/// an unreachable or broken catalogue is a temporary failure.
pub fn map_discovery_error(error: &DiscoveryError) -> (r: DiscoveryFailure)
    ensures
        r == match error {
            DiscoveryError::InvalidVersion => DiscoveryFailure::InvalidVersionField,
            DiscoveryError::NotFound => DiscoveryFailure::ResourceNotFound,
            _ => DiscoveryFailure::ServiceTemporarilyUnavailable,
        },
{
    match error {
        DiscoveryError::InvalidVersion => DiscoveryFailure::InvalidVersionField,
        DiscoveryError::NotFound => DiscoveryFailure::ResourceNotFound,
        DiscoveryError::Unavailable(_) => DiscoveryFailure::ServiceTemporarilyUnavailable,
        DiscoveryError::InvalidCatalog(_) => DiscoveryFailure::ServiceTemporarilyUnavailable,
    }
}

} // verus!
