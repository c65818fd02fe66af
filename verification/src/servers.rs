//! Path conventions of the supported web frameworks.

use vstd::prelude::*;

verus! {

/// The collection path of a resource: a slash, then the prefix.
pub open spec fn collection_path(prefix: Seq<char>) -> Seq<char> {
    seq!['/'] + prefix
}

/// The path of one item where the framework writes a path parameter as `:id`.
pub open spec fn colon_id_path(prefix: Seq<char>) -> Seq<char> {
    seq!['/'] + prefix + seq!['/', ':', 'i', 'd']
}

/// The path of one item where the framework writes a path parameter as `{id}`.
pub open spec fn braced_id_path(prefix: Seq<char>) -> Seq<char> {
    seq!['/'] + prefix + seq!['/', '{', 'i', 'd', '}']
}

/// A slash followed by `prefix`.
pub fn slash_prefixed(prefix: &str) -> (path: String)
    ensures
        path@ == collection_path(prefix@),
{
    let mut path = String::from_str("/");
    proof {
        reveal_strlit("/");
        assert(path@ =~= seq!['/']);
    }
    path.append(prefix);
    path
}

/// The path of one item of the collection under `prefix`, with the id
/// written as `{id}`.
pub fn id_path_in_braces(prefix: &str) -> (path: String)
    ensures
        path@ == braced_id_path(prefix@),
{
    let mut path = slash_prefixed(prefix);
    proof {
        reveal_strlit("/{id}");
        assert("/{id}"@ =~= seq!['/', '{', 'i', 'd', '}']);
    }
    path.append("/{id}");
    path
}

/// The path of one item of the collection under `prefix`, with the id
/// written as `:id`.
pub fn id_path_with_colon(prefix: &str) -> (path: String)
    ensures
        path@ == colon_id_path(prefix@),
{
    let mut path = slash_prefixed(prefix);
    proof {
        reveal_strlit("/:id");
        assert("/:id"@ =~= seq!['/', ':', 'i', 'd']);
    }
    path.append("/:id");
    path
}

/// A web framework, as far as route paths are concerned.
pub trait ApiServer {
    /// The path that `get_id_path` gives. An implementation in verified
    /// code says what it is; of any other it is whatever the method
    /// returns, which is taken to depend on the prefix alone.
    open spec fn id_path(prefix: Seq<char>) -> Seq<char> {
        arbitrary()
    }

    /// The path under which the whole collection is served: a slash and
    /// the prefix. An implementation that gives its own keeps to this.
    fn get_path(prefix: &str) -> (path: String)
        ensures
            path@ == collection_path(prefix@),
    {
        slash_prefixed(prefix)
    }

    /// The path under which one item is served, in the framework's own
    /// notation for a path parameter named `id`.
    fn get_id_path(prefix: &str) -> (path: String)
        ensures
            path@ == Self::id_path(prefix@),
    ;
}

/// The axum framework.
pub struct AxumServer;

impl ApiServer for AxumServer {
    open spec fn id_path(prefix: Seq<char>) -> Seq<char> {
        colon_id_path(prefix)
    }

    fn get_id_path(prefix: &str) -> (path: String) {
        id_path_with_colon(prefix)
    }
}

/// The actix-web framework.
pub struct ActixServer {}

impl ApiServer for ActixServer {
    open spec fn id_path(prefix: Seq<char>) -> Seq<char> {
        braced_id_path(prefix)
    }

    fn get_id_path(prefix: &str) -> (path: String) {
        id_path_in_braces(prefix)
    }
}

} // verus!
