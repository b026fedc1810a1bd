use vstd::prelude::*;
use vstd::slice::slice_to_vec;
use vstd::string::{is_ascii_spec_bytes, StringSliceAdditionalSpecFns};

use crate::bytes::{find_from, has_prefix, has_suffix};
use crate::request::{
    error_page, has_target, index_line, index_page, names_file, pkg_prefix, resolve, route_file,
    route_kind, target_of, wasm_suffix, RouteKind,
};
use crate::response::{encode, head, ContentType, Response, ResponseModel, Status};

verus! {

/// What the connection handler does next.
#[derive(Debug)]
pub enum Action {
    /// Read the file at `path`, relative to the document root, and hand the
    /// contents (or `None` when it cannot be read) to `after_read` with `route`.
    Read { route: RouteKind, path: Vec<u8> },
    /// Write the response and close the connection.
    Send { response: Response },
}

/// What an [`Action`] stands for.
pub ghost enum ActionModel {
    Read { route: RouteKind, path: Seq<u8> },
    Send { response: ResponseModel },
}

impl View for Action {
    type V = ActionModel;

    open spec fn view(&self) -> ActionModel {
        match self {
            Action::Read { route, path } => ActionModel::Read { route: *route, path: path@ },
            Action::Send { response } => ActionModel::Send { response: response@ },
        }
    }
}

pub open spec fn contents_model(c: Option<Vec<u8>>) -> Option<Seq<u8>> {
    match c {
        Some(v) => Some(v@),
        None => None,
    }
}

/// The response of `route` once its file has been read. A route with no
/// file (`Malformed`), or the error page when it cannot be read, gets an
/// empty body.
pub open spec fn reply(route: RouteKind, contents: Option<Seq<u8>>) -> ResponseModel {
    let body = match contents {
        Some(c) => c,
        None => Seq::empty(),
    };
    match route {
        RouteKind::Malformed => ResponseModel {
            status: Status::BadRequest,
            content_type: None,
            body: Seq::empty(),
        },
        RouteKind::BinaryModule => ResponseModel {
            status: Status::Success,
            content_type: Some(ContentType::Wasm),
            body,
        },
        RouteKind::PkgAsset => ResponseModel {
            status: Status::Success,
            content_type: Some(ContentType::JavaScript),
            body,
        },
        RouteKind::Index => ResponseModel { status: Status::Success, content_type: None, body },
        RouteKind::NotFound => ResponseModel { status: Status::NotFound, content_type: None, body },
    }
}

/// The first action for a request line: a malformed line is answered at
/// once with 400; any other reads the file of its route.
pub open spec fn begin_spec(line: Seq<u8>) -> ActionModel {
    if route_kind(line) == RouteKind::Malformed {
        ActionModel::Send { response: reply(RouteKind::Malformed, None) }
    } else {
        ActionModel::Read { route: route_kind(line), path: route_file(line) }
    }
}

/// The action after a read: an asset or host page that cannot be read falls
/// back to the error page; otherwise the response is sent.
pub open spec fn after_read_spec(route: RouteKind, contents: Option<Seq<u8>>) -> ActionModel {
    if contents is None && route != RouteKind::Malformed && route != RouteKind::NotFound {
        ActionModel::Read { route: RouteKind::NotFound, path: error_page() }
    } else {
        ActionModel::Send { response: reply(route, contents) }
    }
}

/// A document root as a map from relative path to file contents; a path
/// outside its domain cannot be read.
pub open spec fn read_file(files: Map<Seq<u8>, Seq<u8>>, path: Seq<u8>) -> Option<Seq<u8>> {
    if files.dom().contains(path) {
        Some(files[path])
    } else {
        None
    }
}

/// One step of the handler against the document root `files`.
pub open spec fn step(a: ActionModel, files: Map<Seq<u8>, Seq<u8>>) -> ActionModel {
    match a {
        ActionModel::Read { route, path } => after_read_spec(route, read_file(files, path)),
        ActionModel::Send { .. } => a,
    }
}

/// The response to `line` when the document root holds `files`.
pub open spec fn served(line: Seq<u8>, files: Map<Seq<u8>, Seq<u8>>) -> ResponseModel {
    match step(step(begin_spec(line), files), files) {
        ActionModel::Send { response } => response,
        ActionModel::Read { .. } => reply(RouteKind::Malformed, None),
    }
}

/// The first action for the request line `line`.
pub fn begin(line: &[u8]) -> (a: Action)
    ensures
        a@ == begin_spec(line@),
{
    let (route, path) = resolve(line);
    match route {
        RouteKind::Malformed => Action::Send { response: reply_to(RouteKind::Malformed, None) },
        _ => Action::Read { route, path },
    }
}

/// The next action once the file of `route` has been read (`Some`) or could
/// not be read (`None`).
pub fn after_read(route: RouteKind, contents: Option<Vec<u8>>) -> (a: Action)
    ensures
        a@ == after_read_spec(route, contents_model(contents)),
{
    match contents {
        None => match route {
            RouteKind::Malformed | RouteKind::NotFound => Action::Send {
                response: reply_to(route, None),
            },
            _ => Action::Read {
                route: RouteKind::NotFound,
                path: slice_to_vec("404.html".as_bytes()),
            },
        },
        Some(c) => Action::Send { response: reply_to(route, Some(c)) },
    }
}

/// The response of `route` for the contents of its file.
pub fn reply_to(route: RouteKind, contents: Option<Vec<u8>>) -> (r: Response)
    ensures
        r@ == reply(route, contents_model(contents)),
{
    let body = match contents {
        Some(c) => c,
        None => Vec::new(),
    };
    match route {
        RouteKind::Malformed => Response {
            status: Status::BadRequest,
            content_type: None,
            body: Vec::new(),
        },
        RouteKind::BinaryModule => Response {
            status: Status::Success,
            content_type: Some(ContentType::Wasm),
            body,
        },
        RouteKind::PkgAsset => Response {
            status: Status::Success,
            content_type: Some(ContentType::JavaScript),
            body,
        },
        RouteKind::Index => Response { status: Status::Success, content_type: None, body },
        RouteKind::NotFound => Response { status: Status::NotFound, content_type: None, body },
    }
}

/// Every request is answered after at most two file reads: the file of its
/// route, then the error page.
pub proof fn lemma_answered_within_two_reads(line: Seq<u8>, files: Map<Seq<u8>, Seq<u8>>)
    ensures
        step(step(begin_spec(line), files), files) is Send,
{
}

/// A request whose target ends in `.wasm` and names a readable file is
/// answered `200 OK`, `Content-Type: application/wasm`, with the file's bytes
/// as the body and their count as the declared length.
pub proof fn lemma_wasm_served_as_wasm(line: Seq<u8>, files: Map<Seq<u8>, Seq<u8>>)
    requires
        has_target(line),
        has_suffix(target_of(line), wasm_suffix()),
        names_file(target_of(line)),
        files.dom().contains(target_of(line).drop_first()),
    ensures
        ({
            let body = files[target_of(line).drop_first()];
            &&& served(line, files) == ResponseModel {
                status: Status::Success,
                content_type: Some(ContentType::Wasm),
                body,
            }
            &&& encode(served(line, files)) == head(
                Status::Success,
                Some(ContentType::Wasm),
                body.len(),
            ) + body
        }),
{
}

/// A request whose target begins with `/pkg/`, does not end in `.wasm`, and
/// names a readable file is answered `200 OK` with
/// `Content-Type: application/javascript` and the file's bytes.
pub proof fn lemma_pkg_served_as_script(line: Seq<u8>, files: Map<Seq<u8>, Seq<u8>>)
    requires
        has_target(line),
        has_prefix(target_of(line), pkg_prefix()),
        !has_suffix(target_of(line), wasm_suffix()),
        names_file(target_of(line)),
        files.dom().contains(target_of(line).drop_first()),
    ensures
        served(line, files) == (ResponseModel {
            status: Status::Success,
            content_type: Some(ContentType::JavaScript),
            body: files[target_of(line).drop_first()],
        }),
{
}

/// `GET / HTTP/1.1` is answered `200 OK` with the host page verbatim and no
/// `Content-Type`.
pub proof fn lemma_index_line_gets_host_page(files: Map<Seq<u8>, Seq<u8>>)
    requires
        files.dom().contains(index_page()),
    ensures
        served(index_line(), files) == (ResponseModel {
            status: Status::Success,
            content_type: None,
            body: files[index_page()],
        }),
{
    reveal_strlit("GET / HTTP/1.1");
    reveal_strlit(".wasm");
    reveal_strlit("/pkg/");
    is_ascii_spec_bytes("GET / HTTP/1.1");
    is_ascii_spec_bytes(".wasm");
    is_ascii_spec_bytes("/pkg/");
    let line = index_line();
    assert(line.len() == 14);
    assert(line[3] == 32u8);
    assert(find_from(line, 32u8, 0) == 3) by {
        assert(line[0] != 32u8 && line[1] != 32u8 && line[2] != 32u8);
        reveal_with_fuel(find_from, 4);
    }
    assert(line[5] == 32u8);
    assert(find_from(line, 32u8, 4) == 5) by {
        assert(line[4] != 32u8);
        reveal_with_fuel(find_from, 2);
    }
    assert(target_of(line).len() == 1);
    assert(wasm_suffix().len() == 5);
    assert(pkg_prefix().len() == 5);
    assert(route_kind(line) == RouteKind::Index);
}

/// A target that both ends in `.wasm` and begins with `/pkg/` takes the
/// binary-module route: the suffix is checked first.
pub proof fn lemma_wasm_checked_before_pkg(line: Seq<u8>)
    requires
        has_target(line),
        has_suffix(target_of(line), wasm_suffix()),
        has_prefix(target_of(line), pkg_prefix()),
        names_file(target_of(line)),
    ensures
        route_kind(line) == RouteKind::BinaryModule,
{
}

/// Any line with a target that takes none of the other routes is answered
/// `404 NOT FOUND` with the error page verbatim, and no `Content-Type`.
pub proof fn lemma_other_lines_get_error_page(line: Seq<u8>, files: Map<Seq<u8>, Seq<u8>>)
    requires
        has_target(line),
        !(has_suffix(target_of(line), wasm_suffix()) && names_file(target_of(line))),
        !(has_prefix(target_of(line), pkg_prefix()) && names_file(target_of(line))),
        line != index_line(),
        files.dom().contains(error_page()),
    ensures
        served(line, files) == (ResponseModel {
            status: Status::NotFound,
            content_type: None,
            body: files[error_page()],
        }),
{
}

/// A file of an asset route or the host page that cannot be read gives the
/// error page with `404 NOT FOUND`, or an empty body if that is missing too.
pub proof fn lemma_unreadable_file_gets_not_found(line: Seq<u8>, files: Map<Seq<u8>, Seq<u8>>)
    requires
        route_kind(line) != RouteKind::Malformed,
        !files.dom().contains(route_file(line)),
    ensures
        served(line, files) == reply(RouteKind::NotFound, read_file(files, error_page())),
{
}

/// A line with fewer than two tokens (an empty one included) is answered
/// `400 BAD REQUEST` with an empty body, and no file is read.
pub proof fn lemma_malformed_gets_bad_request(line: Seq<u8>, files: Map<Seq<u8>, Seq<u8>>)
    requires
        !has_target(line),
    ensures
        begin_spec(line) is Send,
        served(line, files) == (ResponseModel {
            status: Status::BadRequest,
            content_type: None,
            body: Seq::empty(),
        }),
{
}

} // verus!
