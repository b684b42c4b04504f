//! The per-connection decision logic: mapping an HTTP path to a filesystem
//! script and an HTTP-visible script name (with the front-controller
//! fallback), and choosing between static service, an immediate `404`, and
//! the FastCGI gateway. The caller owns the sockets and the filesystem and
//! hands in the one existence fact each decision needs.

use vstd::prelude::*;
use vstd::string::*;
use crate::static_file::{is_allowed_static_file, is_static_name};

verus! {

/// The request path that names the site root.
pub open spec fn is_root_path(path: Seq<char>) -> bool {
    path == seq!['/']
}

/// The HTTP-visible name of the PHP front controller.
pub open spec fn php_index_name() -> Seq<char> {
    "/index.php"@
}

/// The HTTP-visible name of the index page fallback.
pub open spec fn html_index_name() -> Seq<char> {
    "/index.html"@
}

/// The filesystem path whose existence the routing rules consult: the front
/// controller for the root path, the path itself joined under the base for
/// every other request.
pub open spec fn candidate_filename(base: Seq<char>, path: Seq<char>) -> Seq<char> {
    if is_root_path(path) {
        base + php_index_name()
    } else {
        base + path
    }
}

/// The resolved filesystem script path. `candidate_exists` answers whether
/// `candidate_filename(base, path)` is present on disk: the root path falls
/// back from `index.php` to `index.html` when the former is absent, and a
/// non-static path whose file is absent is rewritten to the front controller.
pub open spec fn route_filename(base: Seq<char>, path: Seq<char>, candidate_exists: bool) -> Seq<
    char,
> {
    if is_root_path(path) {
        if candidate_exists {
            base + php_index_name()
        } else {
            base + html_index_name()
        }
    } else if !is_static_name(path) && !candidate_exists {
        base + php_index_name()
    } else {
        base + path
    }
}

/// The HTTP-visible script name that goes with `route_filename`.
pub open spec fn route_name(path: Seq<char>, candidate_exists: bool) -> Seq<char> {
    if is_root_path(path) {
        if candidate_exists {
            php_index_name()
        } else {
            html_index_name()
        }
    } else if !is_static_name(path) && !candidate_exists {
        php_index_name()
    } else {
        path
    }
}

/// The law of confinement: whatever the fallbacks decide, the resolved
/// script filename always starts with the configured base path.
pub proof fn lemma_route_under_base(base: Seq<char>, path: Seq<char>, candidate_exists: bool)
    ensures
        route_filename(base, path, candidate_exists).subrange(0, base.len() as int) == base,
{
    assert(route_filename(base, path, candidate_exists).subrange(0, base.len() as int) =~= base);
}

/// One routing decision, computed once per connection from the request path
/// and the configured base path.
pub struct RouteDecision {
    /// The filesystem path of the file to serve or the script to execute.
    pub script_filename: String,
    /// The HTTP-visible script name handed to the backend.
    pub script_name: String,
    /// Whether the request path's extension is in the static allow-list.
    pub is_static: bool,
}

fn is_root(path: &str) -> (r: bool)
    ensures
        r == is_root_path(path@),
{
    let r = path.unicode_len() == 1 && path.get_char(0) == '/';
    proof {
        if r {
            assert(path@ =~= seq!['/']);
        }
    }
    r
}

/// The filesystem path the caller must test for existence before resolving
/// the route.
pub fn candidate_script_filename(base_path: &str, path: &str) -> (r: String)
    ensures
        r@ == candidate_filename(base_path@, path@),
{
    let mut s = String::from_str(base_path);
    if is_root(path) {
        s.append("/index.php");
    } else {
        s.append(path);
    }
    s
}

/// Resolves the route for one request: `candidate_exists` is the on-disk
/// existence of `candidate_script_filename(base_path, path)`. The result's
/// filename and name follow `route_filename` and `route_name` exactly, and
/// `is_static` holds iff the original path's extension is allow-listed.
pub fn determine_script_filename_and_type(
    base_path: &str,
    path: &str,
    candidate_exists: bool,
) -> (r: RouteDecision)
    ensures
        r.script_filename@ == route_filename(base_path@, path@, candidate_exists),
        r.script_name@ == route_name(path@, candidate_exists),
        r.is_static == is_static_name(path@),
{
    let is_static = is_allowed_static_file(path);
    if is_root(path) {
        let mut f = String::from_str(base_path);
        if candidate_exists {
            f.append("/index.php");
            RouteDecision { script_filename: f, script_name: String::from_str("/index.php"), is_static }
        } else {
            f.append("/index.html");
            RouteDecision { script_filename: f, script_name: String::from_str("/index.html"), is_static }
        }
    } else if !is_static && !candidate_exists {
        let mut f = String::from_str(base_path);
        f.append("/index.php");
        RouteDecision { script_filename: f, script_name: String::from_str("/index.php"), is_static }
    } else {
        let mut f = String::from_str(base_path);
        f.append(path);
        RouteDecision { script_filename: f, script_name: String::from_str(path), is_static }
    }
}

/// What the connection handler does with a routed request.
#[derive(Clone, Copy, Debug, PartialEq, Eq, Structural)]
pub enum DispatchAction {
    /// Stream the resolved file with a synthesized `200 OK`.
    ServeStatic,
    /// Answer `404 Not Found` at once: the path was static-eligible but the
    /// resolved file is missing.
    RespondNotFound,
    /// Forward the request to the FastCGI backend.
    ForwardToGateway,
}

/// Chooses the branch the connection handler takes once the route is known:
/// `file_exists` is the on-disk existence of the decision's script filename.
/// A static-eligible path is never forwarded to the backend; when its file is
/// missing the client is told `404` directly.
pub fn dispatch_action(is_static: bool, file_exists: bool) -> (a: DispatchAction)
    ensures
        (a == DispatchAction::ServeStatic) == (is_static && file_exists),
        (a == DispatchAction::RespondNotFound) == (is_static && !file_exists),
        (a == DispatchAction::ForwardToGateway) == !is_static,
{
    if is_static {
        if file_exists {
            DispatchAction::ServeStatic
        } else {
            DispatchAction::RespondNotFound
        }
    } else {
        DispatchAction::ForwardToGateway
    }
}

} // verus!
