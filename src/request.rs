use vstd::prelude::*;
use vstd::slice::{slice_subrange, slice_to_vec};
use vstd::string::StringSliceAdditionalSpecFns;

use crate::bytes::{
    ends_with, find_from, has_prefix, has_suffix, index_of, lemma_find_from_bounds, same_bytes,
    starts_with,
};

verus! {

pub const LF: u8 = 10;

pub const CR: u8 = 13;

pub const SPACE: u8 = 32;

pub const DOT: u8 = 46;

pub const SLASH: u8 = 47;

pub const BACKSLASH: u8 = 92;

/// The route a request line is served by. Routes are tried in the order
/// listed; the first that matches wins.
#[derive(Clone, Copy, Debug, PartialEq, Eq, Structural)]
pub enum RouteKind {
    /// The line has no second token, so it names no target.
    Malformed,
    /// The target ends in `.wasm`: a compiled module, sent as `application/wasm`.
    /// This is tried before `PkgAsset`, so `/pkg/x.wasm` lands here.
    BinaryModule,
    /// The target begins with `/pkg/`: a script asset, sent as `application/javascript`.
    PkgAsset,
    /// The line is exactly `GET / HTTP/1.1`: the host page.
    Index,
    /// Anything else: the error page, with status 404.
    NotFound,
}

/// The first line of `buf`: the bytes before the first line feed, without a
/// carriage return that ends them.
pub open spec fn first_line(buf: Seq<u8>) -> Seq<u8> {
    let line = buf.subrange(0, find_from(buf, LF, 0));
    if line.len() > 0 && line.last() == CR {
        line.drop_last()
    } else {
        line
    }
}

/// The line holds a space, so it has a second token.
pub open spec fn has_target(line: Seq<u8>) -> bool {
    find_from(line, SPACE, 0) < line.len()
}

/// The second space-separated token of the line: the request target.
pub open spec fn target_of(line: Seq<u8>) -> Seq<u8> {
    let start = find_from(line, SPACE, 0) + 1;
    line.subrange(start, find_from(line, SPACE, start))
}

/// A `..` segment starts at index `i` of `p`.
pub open spec fn parent_segment_at(p: Seq<u8>, i: int) -> bool {
    &&& 0 <= i
    &&& i + 2 <= p.len()
    &&& p[i] == DOT
    &&& p[i + 1] == DOT
    &&& (i == 0 || p[i - 1] == SLASH)
    &&& (i + 2 == p.len() || p[i + 2] == SLASH)
}

/// `p` is a path that stays below the directory it is resolved in: it is not
/// empty, not absolute, has no `..` segment, and holds only visible ASCII
/// bytes other than a backslash.
pub open spec fn is_contained_path(p: Seq<u8>) -> bool {
    &&& p.len() > 0
    &&& p[0] != SLASH
    &&& forall|i: int| 0 <= i < p.len() ==> 33 <= #[trigger] p[i] <= 126 && p[i] != BACKSLASH
    &&& forall|i: int| !#[trigger] parent_segment_at(p, i)
}

/// The target names a file: it is `/` followed by a contained path.
pub open spec fn names_file(target: Seq<u8>) -> bool {
    target.len() > 0 && target[0] == SLASH && is_contained_path(target.drop_first())
}

pub open spec fn wasm_suffix() -> Seq<u8> {
    ".wasm".spec_bytes()
}

pub open spec fn pkg_prefix() -> Seq<u8> {
    "/pkg/".spec_bytes()
}

pub open spec fn index_line() -> Seq<u8> {
    "GET / HTTP/1.1".spec_bytes()
}

/// The file of the host page.
pub open spec fn index_page() -> Seq<u8> {
    "index.html".spec_bytes()
}

/// The file of the error page.
pub open spec fn error_page() -> Seq<u8> {
    "404.html".spec_bytes()
}

pub open spec fn route_kind(line: Seq<u8>) -> RouteKind {
    if !has_target(line) {
        RouteKind::Malformed
    } else {
        let t = target_of(line);
        if has_suffix(t, wasm_suffix()) && names_file(t) {
            RouteKind::BinaryModule
        } else if has_prefix(t, pkg_prefix()) && names_file(t) {
            RouteKind::PkgAsset
        } else if line == index_line() {
            RouteKind::Index
        } else {
            RouteKind::NotFound
        }
    }
}

/// The file that the route of `line` reads, relative to the document root.
pub open spec fn route_file(line: Seq<u8>) -> Seq<u8> {
    match route_kind(line) {
        RouteKind::Malformed => Seq::empty(),
        RouteKind::BinaryModule | RouteKind::PkgAsset => target_of(line).drop_first(),
        RouteKind::Index => index_page(),
        RouteKind::NotFound => error_page(),
    }
}

/// The first line of a request, as `first_line` states it.
pub fn request_line(buf: &[u8]) -> (r: Vec<u8>)
    ensures
        r@ == first_line(buf@),
{
    let end = index_of(buf, LF, 0);
    proof {
        lemma_find_from_bounds(buf@, LF, 0);
    }
    let mut stop = end;
    if end > 0 && buf[end - 1] == CR {
        stop = end - 1;
    }
    let r = slice_to_vec(slice_subrange(buf, 0, stop));
    assert(r@ =~= first_line(buf@));
    r
}

/// The bounds of the request target in `line`, when it has one.
fn target_bounds(line: &[u8]) -> (r: Option<(usize, usize)>)
    ensures
        r.is_some() == has_target(line@),
        r matches Some((a, b)) ==> a <= b <= line@.len() && line@.subrange(a as int, b as int)
            == target_of(line@),
{
    let first = index_of(line, SPACE, 0);
    proof {
        lemma_find_from_bounds(line@, SPACE, 0);
    }
    if first >= line.len() {
        return None;
    }
    let second = index_of(line, SPACE, first + 1);
    proof {
        lemma_find_from_bounds(line@, SPACE, first + 1);
    }
    Some((first + 1, second))
}

/// Whether `p` satisfies `is_contained_path`.
pub fn is_contained(p: &[u8]) -> (r: bool)
    ensures
        r == is_contained_path(p@),
{
    let n = p.len();
    if n == 0 || p[0] == SLASH {
        return false;
    }
    let mut i: usize = 0;
    while i < n
        invariant
            n == p@.len(),
            i <= n,
            forall|j: int| 0 <= j < i ==> 33 <= #[trigger] p@[j] <= 126 && p@[j] != BACKSLASH,
            forall|j: int| 0 <= j < i ==> !#[trigger] parent_segment_at(p@, j),
        decreases n - i,
    {
        let b = p[i];
        if b < 33 || b > 126 || b == BACKSLASH {
            return false;
        }
        if b == DOT && i + 1 < n && p[i + 1] == DOT && (i == 0 || p[i - 1] == SLASH) && (i + 2
            == n || p[i + 2] == SLASH) {
            assert(parent_segment_at(p@, i as int));
            return false;
        }
        assert(!parent_segment_at(p@, i as int));
        i = i + 1;
    }
    assert forall|j: int| !#[trigger] parent_segment_at(p@, j) by {
        if 0 <= j < n {
        }
    }
    true
}

/// Whether `t` satisfies `names_file`.
fn is_file_target(t: &[u8]) -> (r: bool)
    ensures
        r == names_file(t@),
{
    if t.len() == 0 || t[0] != SLASH {
        return false;
    }
    let rest = slice_subrange(t, 1, t.len());
    assert(rest@ =~= t@.drop_first());
    is_contained(rest)
}

/// The route of a request line, as `route_kind` states it.
pub fn classify(line: &[u8]) -> (r: RouteKind)
    ensures
        r == route_kind(line@),
{
    match target_bounds(line) {
        None => RouteKind::Malformed,
        Some((a, b)) => {
            let t = slice_subrange(line, a, b);
            let named = is_file_target(t);
            if ends_with(t, ".wasm".as_bytes()) && named {
                RouteKind::BinaryModule
            } else if starts_with(t, "/pkg/".as_bytes()) && named {
                RouteKind::PkgAsset
            } else if same_bytes(line, "GET / HTTP/1.1".as_bytes()) {
                RouteKind::Index
            } else {
                RouteKind::NotFound
            }
        },
    }
}

/// The route of a request line and the file it reads, as `route_kind` and
/// `route_file` state them.
pub fn resolve(line: &[u8]) -> (r: (RouteKind, Vec<u8>))
    ensures
        r.0 == route_kind(line@),
        r.1@ == route_file(line@),
{
    let kind = classify(line);
    match kind {
        RouteKind::Malformed => (kind, Vec::new()),
        RouteKind::BinaryModule | RouteKind::PkgAsset => {
            // Both routes need a target, so `target_bounds` gives `Some` here.
            let (a, b) = match target_bounds(line) {
                Some(bounds) => bounds,
                None => (0, 0),
            };
            let file = slice_to_vec(slice_subrange(line, a + 1, b));
            assert(file@ =~= target_of(line@).drop_first());
            (kind, file)
        },
        RouteKind::Index => (kind, slice_to_vec("index.html".as_bytes())),
        RouteKind::NotFound => (kind, slice_to_vec("404.html".as_bytes())),
    }
}

} // verus!
