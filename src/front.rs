//! The small rules of the chat front-end: which command a message names, what
//! a play request asks for, and the texts derived from a track's metadata.

use vstd::prelude::*;
use vstd::string::{StrSliceExecFns, StringExecFns};

use crate::text::{decimal, decimal_string, push_char};

verus! {

broadcast use vstd::seq_lib::group_seq_properties;

/// The marker of a playlist inside a video URL.
pub const LIST_MARK: &'static str = "&list=";

/// The marker that precedes a video id.
pub const VIDEO_MARK: &'static str = "?v=";

/// The start of a video's high-quality thumbnail URL.
pub const THUMB_HEAD: &'static str = "https://i3.ytimg.com/vi/";

/// The end of a video's high-quality thumbnail URL.
pub const THUMB_TAIL: &'static str = "/hqdefault.jpg";

/// Whether `p` occurs in `s` at position `i`.
pub open spec fn occurs_at(s: Seq<char>, p: Seq<char>, i: int) -> bool {
    0 <= i && i + p.len() <= s.len() && s.subrange(i, i + p.len()) == p
}

/// Whether `p` occurs in `s`.
pub open spec fn occurs(s: Seq<char>, p: Seq<char>) -> bool {
    exists|i: int| occurs_at(s, p, i)
}

/// Whether `i` is the first position at which `p` occurs in `s`.
pub open spec fn first_at(s: Seq<char>, p: Seq<char>, i: int) -> bool {
    occurs_at(s, p, i) && forall|j: int| 0 <= j < i ==> !occurs_at(s, p, j)
}

/// Whether `s` starts with `p`.
pub open spec fn has_prefix(s: Seq<char>, p: Seq<char>) -> bool {
    occurs_at(s, p, 0)
}

/// What a play request asks for.
#[derive(PartialEq, Eq, Structural, Clone, Copy, Debug)]
pub enum PlayRequest {
    /// A playlist URL: every entry is queued.
    Playlist,
    /// A direct URL.
    Url,
    /// Search terms.
    Search,
}

/// A request naming a playlist is a playlist; one starting as a web address is
/// a URL; anything else is a search.
pub open spec fn request_kind(arg: Seq<char>) -> PlayRequest {
    if occurs(arg, LIST_MARK@) {
        PlayRequest::Playlist
    } else if has_prefix(arg, "https"@) || has_prefix(arg, "www."@) {
        PlayRequest::Url
    } else {
        PlayRequest::Search
    }
}

/// The characters of `s`.
fn chars_of(s: &str) -> (r: Vec<char>)
    ensures
        r@ == s@,
{
    let mut v: Vec<char> = Vec::new();
    let n = s.unicode_len();
    for i in 0..n
        invariant
            n == s@.len(),
            v@ == s@.take(i as int),
    {
        v.push(s.get_char(i));
        proof {
            assert(v@ =~= s@.take(i + 1));
        }
    }
    proof {
        assert(s@.take(n as int) =~= s@);
    }
    v
}

/// Whether `p` occurs in `s` at `i`.
fn matches_at(s: &Vec<char>, p: &Vec<char>, i: usize) -> (r: bool)
    ensures
        r == occurs_at(s@, p@, i as int),
{
    let slen = s.len();
    if p.len() > slen || i > slen - p.len() {
        return false;
    }
    let n = p.len();
    for j in 0..n
        invariant
            n == p@.len(),
            slen == s@.len(),
            i + n <= slen,
            forall|k: int| 0 <= k < j ==> s@[i + k] == p@[k],
    {
        if s[i + j] != p[j] {
            proof {
                assert(s@.subrange(i as int, i + n)[j as int] != p@[j as int]);
            }
            return false;
        }
    }
    proof {
        assert(s@.subrange(i as int, i + n) =~= p@);
    }
    true
}

/// The first position at which `p` occurs in `s`, if any.
fn find(s: &Vec<char>, p: &Vec<char>) -> (r: Option<usize>)
    ensures
        r matches Some(i) ==> first_at(s@, p@, i as int),
        r is None ==> !occurs(s@, p@),
{
    let n = s.len();
    for i in 0..n
        invariant
            n == s@.len(),
            forall|j: int| 0 <= j < i ==> !occurs_at(s@, p@, j),
    {
        if matches_at(s, p, i) {
            return Some(i);
        }
    }
    if matches_at(s, p, n) {
        return Some(n);
    }
    proof {
        assert forall|j: int| !occurs_at(s@, p@, j) by {
            if 0 <= j <= n {
            }
        }
    }
    None
}

/// Classifies the argument of a play command.
pub fn play_request(arg: &str) -> (r: PlayRequest)
    ensures
        r == request_kind(arg@),
{
    let a = chars_of(arg);
    let list = chars_of(LIST_MARK);
    let https = chars_of("https");
    let www = chars_of("www.");
    if find(&a, &list).is_some() {
        PlayRequest::Playlist
    } else if matches_at(&a, &https, 0) || matches_at(&a, &www, 0) {
        PlayRequest::Url
    } else {
        PlayRequest::Search
    }
}

/// The string of the characters `v[from..to]`.
fn text_of(v: &Vec<char>, from: usize, to: usize) -> (r: String)
    requires
        from <= to <= v@.len(),
    ensures
        r@ == v@.subrange(from as int, to as int),
{
    let mut s = String::new();
    for i in from..to
        invariant
            to <= v@.len(),
            s@ == v@.subrange(from as int, i as int),
    {
        push_char(&mut s, v[i]);
        proof {
            assert(s@ =~= v@.subrange(from as int, i + 1));
        }
    }
    s
}

/// The thumbnail of a video page: the id after the first `?v=` of its URL,
/// placed in the high-quality thumbnail address; none without an id marker.
pub fn video_thumbnail(source_url: &str) -> (r: Option<String>)
    ensures
        r is None <==> !occurs(source_url@, VIDEO_MARK@),
        r matches Some(t) ==> exists|i: int|
            first_at(source_url@, VIDEO_MARK@, i) && t@ == THUMB_HEAD@ + source_url@.subrange(
                i + VIDEO_MARK@.len(),
                source_url@.len() as int,
            ) + THUMB_TAIL@,
{
    let u = chars_of(source_url);
    let mark = chars_of(VIDEO_MARK);
    let ulen = u.len();
    match find(&u, &mark) {
        Some(i) => {
            let id = text_of(&u, i + mark.len(), ulen);
            let mut t = String::from_str(THUMB_HEAD);
            t.append(id.as_str());
            t.append(THUMB_TAIL);
            Some(t)
        },
        None => None,
    }
}

/// The command a message names: the word right after `prefix`, up to the next
/// space; none when the message does not start with `prefix`.
pub fn command_name(content: &str, prefix: &str) -> (r: Option<String>)
    ensures
        r is None <==> !has_prefix(content@, prefix@),
        r matches Some(c) ==> {
            let rest = content@.subrange(prefix@.len() as int, content@.len() as int);
            ||| (!rest.contains(' ') && c@ == rest)
            ||| exists|k: int|
                0 <= k < rest.len() && rest[k] == ' ' && !rest.take(k).contains(' ') && c@
                    == rest.take(k)
        },
{
    let text = chars_of(content);
    let p = chars_of(prefix);
    if !matches_at(&text, &p, 0) {
        return None;
    }
    let start = p.len();
    let n = text.len();
    let mut end = start;
    while end < n && text[end] != ' '
        invariant
            start <= end <= n,
            n == text@.len(),
            forall|k: int| start <= k < end ==> text@[k] != ' ',
        decreases n - end,
    {
        end = end + 1;
    }
    let c = text_of(&text, start, end);
    let ghost rest = content@.subrange(start as int, n as int);
    proof {
        assert(c@ =~= rest.take(end - start));
        let ghost word = rest.take(end - start);
        assert(!word.contains(' ')) by {
            assert forall|k: int| 0 <= k < word.len() implies #[trigger] word[k] != ' ' by {
                assert(word[k] == text@[start + k]);
            }
        }
        if end == n {
            assert(rest =~= rest.take(end - start));
        } else {
            assert(rest[end - start] == ' ');
        }
    }
    Some(c)
}

/// The heading of the `i`th entry of the queue listing.
pub open spec fn heading_text(i: nat) -> Seq<char> {
    if i == 0 {
        "Now Playing"@
    } else {
        seq!['#'] + decimal(i) + " in Queue"@
    }
}

/// The heading of the `i`th entry of the queue listing: the first is playing
/// now, the others show their place.
pub fn queue_heading(i: u32) -> (r: String)
    ensures
        r@ == heading_text(i as nat),
{
    if i == 0 {
        String::from_str("Now Playing")
    } else {
        let mut s = String::new();
        push_char(&mut s, '#');
        let digits = decimal_string(i as usize);
        s.append(digits.as_str());
        s.append(" in Queue");
        proof {
            assert(s@ =~= seq!['#'] + decimal(i as nat) + " in Queue"@);
        }
        s
    }
}

} // verus!
