//! The routes that are served for one resource.

use vstd::prelude::*;

verus! {

/// The HTTP methods under which a path can hold an operation.
#[derive(Clone, Copy, Debug, PartialEq, Eq, Structural)]
pub enum HttpMethod {
    Get,
    Post,
    Put,
    Delete,
    Options,
    Head,
    Patch,
    Trace,
}

/// The operations that a resource can offer.
#[derive(Clone, Copy, Debug, PartialEq, Eq, Structural)]
pub enum RouteKind {
    /// Lists the items, a page at a time.
    ListItems,
    /// Creates an item.
    CreateItem,
    /// Deletes every item.
    DeleteAllItems,
    /// Fetches one item by its id.
    GetItem,
    /// Updates one item by its id.
    UpdateItem,
    /// Deletes one item by its id.
    DeleteItem,
}

impl RouteKind {
    /// The method that the operation answers to.
    pub open spec fn spec_method(self) -> HttpMethod {
        match self {
            RouteKind::ListItems => HttpMethod::Get,
            RouteKind::CreateItem => HttpMethod::Post,
            RouteKind::DeleteAllItems => HttpMethod::Delete,
            RouteKind::GetItem => HttpMethod::Get,
            RouteKind::UpdateItem => HttpMethod::Put,
            RouteKind::DeleteItem => HttpMethod::Delete,
        }
    }

    /// Whether the operation works on one item, and so is served under the
    /// path that carries an id.
    pub open spec fn spec_on_item(self) -> bool {
        match self {
            RouteKind::ListItems => false,
            RouteKind::CreateItem => false,
            RouteKind::DeleteAllItems => false,
            RouteKind::GetItem => true,
            RouteKind::UpdateItem => true,
            RouteKind::DeleteItem => true,
        }
    }

    /// The method that the operation answers to.
    #[verifier::when_used_as_spec(spec_method)]
    pub fn method(self) -> (m: HttpMethod)
        ensures
            m == self.spec_method(),
    {
        match self {
            RouteKind::ListItems => HttpMethod::Get,
            RouteKind::CreateItem => HttpMethod::Post,
            RouteKind::DeleteAllItems => HttpMethod::Delete,
            RouteKind::GetItem => HttpMethod::Get,
            RouteKind::UpdateItem => HttpMethod::Put,
            RouteKind::DeleteItem => HttpMethod::Delete,
        }
    }

    /// Whether the operation works on one item.
    #[verifier::when_used_as_spec(spec_on_item)]
    pub fn on_item(self) -> (b: bool)
        ensures
            b == self.spec_on_item(),
    {
        match self {
            RouteKind::ListItems => false,
            RouteKind::CreateItem => false,
            RouteKind::DeleteAllItems => false,
            RouteKind::GetItem => true,
            RouteKind::UpdateItem => true,
            RouteKind::DeleteItem => true,
        }
    }
}

/// Which of the six operations are served.
#[derive(Clone, Copy, Debug, PartialEq, Eq, Structural)]
pub struct EnabledRoutes {
    pub list_items: bool,
    pub create_item: bool,
    pub delete_all_items: bool,
    pub get_item: bool,
    pub update_item: bool,
    pub delete_item: bool,
}

impl EnabledRoutes {
    /// Whether the given operation is served.
    pub open spec fn spec_includes(self, kind: RouteKind) -> bool {
        match kind {
            RouteKind::ListItems => self.list_items,
            RouteKind::CreateItem => self.create_item,
            RouteKind::DeleteAllItems => self.delete_all_items,
            RouteKind::GetItem => self.get_item,
            RouteKind::UpdateItem => self.update_item,
            RouteKind::DeleteItem => self.delete_item,
        }
    }

    /// Whether the given operation is served.
    #[verifier::when_used_as_spec(spec_includes)]
    pub fn includes(self, kind: RouteKind) -> (b: bool)
        ensures
            b == self.spec_includes(kind),
    {
        match kind {
            RouteKind::ListItems => self.list_items,
            RouteKind::CreateItem => self.create_item,
            RouteKind::DeleteAllItems => self.delete_all_items,
            RouteKind::GetItem => self.get_item,
            RouteKind::UpdateItem => self.update_item,
            RouteKind::DeleteItem => self.delete_item,
        }
    }
}

/// One served operation and the path it is served under.
pub struct RouteSpec {
    pub kind: RouteKind,
    pub path: Seq<char>,
}

/// One served operation and the path it is served under.
#[derive(Debug)]
pub struct Route {
    pub kind: RouteKind,
    pub path: String,
}

impl View for Route {
    type V = RouteSpec;

    open spec fn view(&self) -> RouteSpec {
        RouteSpec { kind: self.kind, path: self.path@ }
    }
}

/// The views of a list of routes, in the list's order.
pub open spec fn route_views(routes: Seq<Route>) -> Seq<RouteSpec> {
    routes.map_values(|r: Route| r@)
}

/// The path that an operation is served under, given the collection's path
/// and the path of one item.
pub open spec fn path_of(kind: RouteKind, path: Seq<char>, id_path: Seq<char>) -> Seq<char> {
    if kind.spec_on_item() {
        id_path
    } else {
        path
    }
}

/// The place of a kind of route in the order of registration.
pub open spec fn registration_rank(kind: RouteKind) -> nat {
    match kind {
        RouteKind::ListItems => 0,
        RouteKind::CreateItem => 1,
        RouteKind::DeleteAllItems => 2,
        RouteKind::GetItem => 3,
        RouteKind::UpdateItem => 4,
        RouteKind::DeleteItem => 5,
    }
}

/// The operation under its path if it is served, and nothing if it is not.
pub open spec fn route_if_enabled(
    enabled: EnabledRoutes,
    kind: RouteKind,
    path: Seq<char>,
    id_path: Seq<char>,
) -> Seq<RouteSpec> {
    if enabled.spec_includes(kind) {
        seq![RouteSpec { kind, path: path_of(kind, path, id_path) }]
    } else {
        Seq::empty()
    }
}

/// The served operations of a resource, in registration order: each enabled
/// operation once, under the collection's path or the path of one item.
pub open spec fn served_routes(enabled: EnabledRoutes, path: Seq<char>, id_path: Seq<char>) -> Seq<
    RouteSpec,
> {
    route_if_enabled(enabled, RouteKind::ListItems, path, id_path) + route_if_enabled(
        enabled,
        RouteKind::CreateItem,
        path,
        id_path,
    ) + route_if_enabled(enabled, RouteKind::DeleteAllItems, path, id_path) + route_if_enabled(
        enabled,
        RouteKind::GetItem,
        path,
        id_path,
    ) + route_if_enabled(enabled, RouteKind::UpdateItem, path, id_path) + route_if_enabled(
        enabled,
        RouteKind::DeleteItem,
        path,
        id_path,
    )
}

/// A route is in one list after another exactly if it is in one of them.
proof fn lemma_contains_either(first: Seq<RouteSpec>, second: Seq<RouteSpec>, route: RouteSpec)
    ensures
        (first + second).contains(route) <==> first.contains(route) || second.contains(route),
{
    let both = first + second;
    if both.contains(route) {
        let i = choose|i: int| 0 <= i < both.len() && both[i] == route;
        if i < first.len() {
            assert(first[i] == route);
        } else {
            assert(second[i - first.len()] == route);
        }
    }
    if first.contains(route) {
        let i = choose|i: int| 0 <= i < first.len() && first[i] == route;
        assert(both[i] == route);
    }
    if second.contains(route) {
        let i = choose|i: int| 0 <= i < second.len() && second[i] == route;
        assert(both[first.len() + i] == route);
    }
}

/// A route is what a kind contributes exactly if it is of that kind, the
/// kind is enabled, and the path is the kind's path.
proof fn lemma_contributes(
    enabled: EnabledRoutes,
    kind: RouteKind,
    path: Seq<char>,
    id_path: Seq<char>,
    route: RouteSpec,
)
    ensures
        route_if_enabled(enabled, kind, path, id_path).contains(route) <==> route.kind == kind
            && enabled.spec_includes(kind) && route.path == path_of(kind, path, id_path),
{
    let piece = route_if_enabled(enabled, kind, path, id_path);
    if piece.contains(route) {
        let i = choose|i: int| 0 <= i < piece.len() && piece[i] == route;
        assert(piece[i] == route);
    }
    if route.kind == kind && enabled.spec_includes(kind) && route.path == path_of(
        kind,
        path,
        id_path,
    ) {
        assert(piece[0] == route);
    }
}

/// A route of the given kind under the given path is among the served
/// routes exactly if the kind is enabled and the path is the kind's path.
pub proof fn lemma_served_iff_enabled(
    enabled: EnabledRoutes,
    path: Seq<char>,
    id_path: Seq<char>,
    route: RouteSpec,
)
    ensures
        served_routes(enabled, path, id_path).contains(route) <==> enabled.spec_includes(route.kind)
            && route.path == path_of(route.kind, path, id_path),
{
    let list = route_if_enabled(enabled, RouteKind::ListItems, path, id_path);
    let create = route_if_enabled(enabled, RouteKind::CreateItem, path, id_path);
    let clear = route_if_enabled(enabled, RouteKind::DeleteAllItems, path, id_path);
    let get = route_if_enabled(enabled, RouteKind::GetItem, path, id_path);
    let update = route_if_enabled(enabled, RouteKind::UpdateItem, path, id_path);
    let delete = route_if_enabled(enabled, RouteKind::DeleteItem, path, id_path);
    lemma_contributes(enabled, RouteKind::ListItems, path, id_path, route);
    lemma_contributes(enabled, RouteKind::CreateItem, path, id_path, route);
    lemma_contributes(enabled, RouteKind::DeleteAllItems, path, id_path, route);
    lemma_contributes(enabled, RouteKind::GetItem, path, id_path, route);
    lemma_contributes(enabled, RouteKind::UpdateItem, path, id_path, route);
    lemma_contributes(enabled, RouteKind::DeleteItem, path, id_path, route);
    lemma_contains_either(list, create, route);
    lemma_contains_either(list + create, clear, route);
    lemma_contains_either(list + create + clear, get, route);
    lemma_contains_either(list + create + clear + get, update, route);
    lemma_contains_either(list + create + clear + get + update, delete, route);
}

/// No kind of route is served twice, and the served routes stand in one
/// fixed order: first those on the collection, then those on one item.
pub proof fn lemma_served_in_order(enabled: EnabledRoutes, path: Seq<char>, id_path: Seq<char>)
    ensures
        forall|i: int, j: int|
            0 <= i < j < served_routes(enabled, path, id_path).len() ==> registration_rank(
                (#[trigger] served_routes(enabled, path, id_path)[i]).kind,
            ) < registration_rank((#[trigger] served_routes(enabled, path, id_path)[j]).kind),
{
    let served = served_routes(enabled, path, id_path);
    let list = route_if_enabled(enabled, RouteKind::ListItems, path, id_path);
    let create = route_if_enabled(enabled, RouteKind::CreateItem, path, id_path);
    let clear = route_if_enabled(enabled, RouteKind::DeleteAllItems, path, id_path);
    let get = route_if_enabled(enabled, RouteKind::GetItem, path, id_path);
    let update = route_if_enabled(enabled, RouteKind::UpdateItem, path, id_path);
    let delete = route_if_enabled(enabled, RouteKind::DeleteItem, path, id_path);
    assert(served == list + create + clear + get + update + delete);
    assert forall|i: int, j: int| 0 <= i < j < served.len() implies registration_rank(
        (#[trigger] served[i]).kind,
    ) < registration_rank((#[trigger] served[j]).kind) by {
        let a = served[i];
        let b = served[j];
    }
}

/// Appends the operation under its path if it is served.
fn push_if_enabled(
    routes: &mut Vec<Route>,
    enabled: EnabledRoutes,
    kind: RouteKind,
    path: &str,
    id_path: &str,
)
    ensures
        route_views(final(routes)@) == route_views(old(routes)@) + route_if_enabled(
            enabled,
            kind,
            path@,
            id_path@,
        ),
{
    if enabled.includes(kind) {
        let at = if kind.on_item() {
            id_path
        } else {
            path
        };
        routes.push(Route { kind, path: String::from_str(at) });
    }
    assert(route_views(routes@) =~= route_views(old(routes)@) + route_if_enabled(
        enabled,
        kind,
        path@,
        id_path@,
    ));
}

/// The routes to register for a resource whose collection is served under
/// `path` and whose items are served under `id_path`.
pub fn route_table(enabled: EnabledRoutes, path: &str, id_path: &str) -> (routes: Vec<Route>)
    ensures
        route_views(routes@) == served_routes(enabled, path@, id_path@),
{
    let mut routes: Vec<Route> = Vec::new();
    assert(route_views(routes@) =~= Seq::empty());
    push_if_enabled(&mut routes, enabled, RouteKind::ListItems, path, id_path);
    push_if_enabled(&mut routes, enabled, RouteKind::CreateItem, path, id_path);
    push_if_enabled(&mut routes, enabled, RouteKind::DeleteAllItems, path, id_path);
    push_if_enabled(&mut routes, enabled, RouteKind::GetItem, path, id_path);
    push_if_enabled(&mut routes, enabled, RouteKind::UpdateItem, path, id_path);
    push_if_enabled(&mut routes, enabled, RouteKind::DeleteItem, path, id_path);
    routes
}

} // verus!
