//! Path construction, path normalization, and request dispatch. The
//! service answers exactly two GET routes, `/` and `/<name>/`, with one
//! static HTML greeting; a trailing slash on a request path is
//! tolerated, and every other request falls through to a not-found
//! reply.

use vstd::prelude::*;

verus! {

/// The static HTML greeting served on both routes.
pub open spec fn greeting() -> Seq<char> {
    "<html><h1>Rust sample app is running</h1></html>"@
}

/// The root-alias path for an application name: `/<name>/`.
pub open spec fn root_alias(name: Seq<char>) -> Seq<char> {
    seq!['/'] + name + seq!['/']
}

/// Returns the static HTML greeting body.
pub fn greeting_body() -> (r: String)
    ensures
        r@ == greeting(),
{
    String::from_str("<html><h1>Rust sample app is running</h1></html>")
}

/// Builds the root-alias path `/<name>/` for the given application name.
pub fn root_alias_path(name: &str) -> (r: String)
    ensures
        r@ == root_alias(name@),
{
    let mut s = String::from_str("/");
    s.append(name);
    s.append("/");
    proof {
        reveal_strlit("/");
        assert(s@ =~= root_alias(name@));
    }
    s
}

/// A path with its trailing slash made canonical: a path that already
/// ends in `/` is kept, any other path gains one. Two request paths that
/// differ only in a trailing slash therefore normalize alike.
pub open spec fn normalized(path: Seq<char>) -> Seq<char> {
    if path.len() > 0 && path.last() == '/' {
        path
    } else {
        path.push('/')
    }
}

/// Appends a trailing slash to the path unless it already ends in one.
pub fn normalize_path(path: &str) -> (r: String)
    ensures
        r@ == normalized(path@),
{
    let n = path.unicode_len();
    if n > 0 && path.get_char(n - 1) == '/' {
        String::from_str(path)
    } else {
        let mut s = String::from_str(path);
        s.append("/");
        proof {
            reveal_strlit("/");
            assert(s@ =~= path@.push('/'));
        }
        s
    }
}

/// The request method, as far as the service distinguishes it: the two
/// registered routes accept GET and nothing else.
#[derive(PartialEq, Eq, Structural, Clone, Copy, Debug)]
pub enum Method {
    Get,
    Other,
}

/// Whether a request path reaches the shared greeting handler: after
/// normalization it is either the root `/` or the root alias `/<name>/`.
pub open spec fn matches_route(name: Seq<char>, path: Seq<char>) -> bool {
    normalized(path) == seq!['/'] || normalized(path) == root_alias(name)
}

/// A reply of the service: a status code and an HTML body.
pub struct Reply {
    pub status: u16,
    pub body: String,
}

/// The status a request is owed: 200 for a GET to a matched path, 404
/// (the framework's not-found default) for everything else.
pub open spec fn reply_status(name: Seq<char>, method: Method, path: Seq<char>) -> int {
    if method == Method::Get && matches_route(name, path) {
        200
    } else {
        404
    }
}

/// The body a request is owed: the greeting for a GET to a matched
/// path, empty for everything else.
pub open spec fn reply_body(name: Seq<char>, method: Method, path: Seq<char>) -> Seq<char> {
    if method == Method::Get && matches_route(name, path) {
        greeting()
    } else {
        Seq::<char>::empty()
    }
}

/// Answers one request: a GET whose normalized path is `/` or the root
/// alias of the configured name receives 200 and the greeting, any
/// other request receives 404 and an empty body.
pub fn handle_request(config: &crate::config::AppConfig, method: Method, path: &str) -> (r: Reply)
    ensures
        r.status == reply_status(config.name@, method, path@),
        r.body@ == reply_body(config.name@, method, path@),
{
    let norm = normalize_path(path);
    let root = String::from_str("/");
    let alias = root_alias_path(config.name.as_str());
    proof {
        reveal_strlit("/");
        assert(root@ =~= seq!['/']);
    }
    if method == Method::Get && (norm == root || norm == alias) {
        Reply { status: 200, body: greeting_body() }
    } else {
        Reply { status: 404, body: String::new() }
    }
}

/// A request path without a trailing slash is answered exactly as the
/// same path with one: appending the slash changes neither the status
/// nor the body owed, whatever the method and the configured name.
pub proof fn lemma_trailing_slash_equivalent(name: Seq<char>, method: Method, path: Seq<char>)
    requires
        path.len() == 0 || path.last() != '/',
    ensures
        reply_status(name, method, path.push('/')) == reply_status(name, method, path),
        reply_body(name, method, path.push('/')) == reply_body(name, method, path),
{
    assert(path.push('/').last() == '/');
    assert(normalized(path.push('/')) =~= normalized(path));
}

/// The root path `/` and the root alias `/<name>/` both reach the
/// shared handler, and a request to either is owed the same status and
/// the same body, whatever the method and the configured name.
pub proof fn lemma_root_alias_equivalent(name: Seq<char>, method: Method)
    ensures
        matches_route(name, seq!['/']),
        matches_route(name, root_alias(name)),
        reply_status(name, method, root_alias(name)) == reply_status(name, method, seq!['/']),
        reply_body(name, method, root_alias(name)) == reply_body(name, method, seq!['/']),
{
    let slash: Seq<char> = seq!['/'];
    assert(slash.last() == '/');
    assert(normalized(slash) == slash);
    let alias = root_alias(name);
    assert(alias.last() == '/');
    assert(normalized(alias) == alias);
}

} // verus!
