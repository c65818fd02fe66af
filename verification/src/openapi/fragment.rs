//! What one resource adds to an OpenAPI document.

use vstd::prelude::*;
use std::marker::PhantomData;
use crate::markers::{
    lemma_assigned_is_assigned, lemma_empty_is_unassigned, Assignable, Assigned, Empty,
};
use crate::openapi::document::{
    add_path_operation, array_of, array_schema_of, clone_schema, content_of, content_with,
    document_has_components, document_operations, document_rest, document_schemas,
    document_tags, entry_views, extend_paths, extend_schemas, has_operation, integer,
    integer_path_parameter, integer_path_parameter_of, integer_schema_of, new_paths,
    no_operations, null_or, null_or_schema_of, operation, operation_at, operation_of, overlay,
    parameters_view, paths_operations, push_tag, required_request_body,
    required_request_body_of, response_with_body, response_with_body_of, response_without_body,
    response_without_body_of, schema_reference, schema_reference_of, tag_named, with_operation,
    Operations, Schemas,
};
use crate::openapi::text::{
    description_text, id_parameter_description, id_parameter_text, operation_description,
    operation_id, operation_id_text, response_description, response_text,
};
use crate::routes::{
    lemma_served_iff_enabled, path_of, served_routes, EnabledRoutes, HttpMethod, RouteKind,
    RouteSpec,
};

verus! {

/// How one type is described: its name, its schema, and the schemas of the
/// types it is made of.
pub struct SchemaDoc {
    pub name: String,
    pub schema: utoipa::openapi::RefOr<utoipa::openapi::schema::Schema>,
    pub nested: Vec<(String, utoipa::openapi::RefOr<utoipa::openapi::schema::Schema>)>,
}

impl SchemaDoc {
    /// The type's own schema under the type's name.
    pub open spec fn own_entry(&self) -> Seq<(Seq<char>, utoipa::openapi::RefOr<utoipa::openapi::schema::Schema>)> {
        seq![(self.name@, self.schema)]
    }

    /// The schemas of the types that the type is made of, each under its
    /// name.
    pub open spec fn nested_entries(&self) -> Seq<(Seq<char>, utoipa::openapi::RefOr<utoipa::openapi::schema::Schema>)> {
        entry_views(self.nested@)
    }
}

/// The name of the described type, where there is a description.
pub open spec fn name_of(doc: Option<SchemaDoc>) -> Seq<char> {
    match doc {
        Some(doc) => doc.name@,
        None => Seq::empty(),
    }
}

/// The description of the type in a builder's slot: there is one exactly
/// if the slot is filled.
pub struct SlotDoc<M: Assignable> {
    doc: Option<SchemaDoc>,
    _marker: PhantomData<M>,
}

impl<M: Assignable> SlotDoc<M> {
    #[verifier::type_invariant]
    closed spec fn matches_slot(&self) -> bool {
        self.doc is Some <==> M::IS_ASSIGNED
    }

    /// The description, if the slot is filled.
    pub closed spec fn doc(&self) -> Option<SchemaDoc> {
        self.doc
    }

    /// The description, if the slot is filled.
    pub fn into_doc(self) -> (doc: Option<SchemaDoc>)
        ensures
            doc == self.doc(),
            doc is Some <==> M::IS_ASSIGNED,
    {
        proof {
            use_type_invariant(&self);
        }
        self.doc
    }
}

impl SlotDoc<Empty> {
    /// The description of an open slot: none.
    pub fn absent() -> (slot: Self)
        ensures
            slot.doc() is None,
    {
        proof {
            lemma_empty_is_unassigned();
        }
        SlotDoc { doc: None, _marker: PhantomData }
    }
}

impl<T> SlotDoc<Assigned<T>> {
    /// The description of a filled slot.
    pub fn of(doc: SchemaDoc) -> (slot: Self)
        ensures
            slot.doc() == Some(doc),
    {
        proof {
            lemma_assigned_is_assigned::<T>();
        }
        SlotDoc { doc: Some(doc), _marker: PhantomData }
    }
}

/// What the documentation of a resource is made from, beside the builder's
/// settings.
pub struct OpenApiParts<CreateSchema: Assignable, UpdateSchema: Assignable> {
    /// The description of the rows.
    pub schema: SchemaDoc,
    /// The description of what a request to create an item carries.
    pub create_schema: SlotDoc<CreateSchema>,
    /// The description of what a request to update an item carries.
    pub update_schema: SlotDoc<UpdateSchema>,
    /// The query parameters of a list request.
    pub pagination_parameters: Vec<utoipa::openapi::path::Parameter>,
    /// The lower bound of a count of rows.
    pub count_minimum: utoipa::Number,
}

/// What the operations of a resource are made from.
pub struct ResourceDoc {
    /// The tag of every operation.
    pub tag: Seq<char>,
    /// The name of the table, which the wording carries.
    pub table_name: Seq<char>,
    /// The name of the rows' schema.
    pub schema: Seq<char>,
    /// The name of the schema that a request to create an item carries.
    pub create_schema: Seq<char>,
    /// The name of the schema that a request to update an item carries.
    pub update_schema: Seq<char>,
    /// The query parameters of a list request.
    pub pagination_parameters: Seq<utoipa::openapi::path::Parameter>,
    /// The lower bound of a count of rows.
    pub count_minimum: utoipa::Number,
}

/// The parameters of the operation of a kind: the query parameters for the
/// list, the `id` for what works on one item, none for the rest.
pub open spec fn operation_parameters(kind: RouteKind, doc: ResourceDoc) -> Option<
    Seq<utoipa::openapi::path::Parameter>,
> {
    match kind {
        RouteKind::ListItems => Some(doc.pagination_parameters),
        RouteKind::CreateItem => None,
        RouteKind::DeleteAllItems => None,
        RouteKind::GetItem => Some(seq![id_path_parameter(doc.table_name)]),
        RouteKind::UpdateItem => Some(seq![id_path_parameter(doc.table_name)]),
        RouteKind::DeleteItem => Some(seq![id_path_parameter(doc.table_name)]),
    }
}

/// The required integer path parameter `id`, described by the table's
/// name.
pub open spec fn id_path_parameter(table_name: Seq<char>) -> utoipa::openapi::path::Parameter {
    integer_path_parameter_of("id"@, id_parameter_text(table_name))
}

/// A required JSON request body that refers to the schema of the given
/// name.
pub open spec fn json_request(schema_name: Seq<char>) -> utoipa::openapi::request_body::RequestBody {
    required_request_body_of("application/json"@, content_with(schema_reference_of(schema_name)))
}

/// The request body of the operation of a kind: the create schema to
/// create, the update schema to update, none for the rest.
pub open spec fn operation_request_body(kind: RouteKind, doc: ResourceDoc) -> Option<
    utoipa::openapi::request_body::RequestBody,
> {
    match kind {
        RouteKind::ListItems => None,
        RouteKind::CreateItem => Some(json_request(doc.create_schema)),
        RouteKind::DeleteAllItems => None,
        RouteKind::GetItem => None,
        RouteKind::UpdateItem => Some(json_request(doc.update_schema)),
        RouteKind::DeleteItem => None,
    }
}

/// The content type and the body of the response of a kind's operation:
/// - the list answers with a JSON array of rows,
/// - fetching one answers with JSON that is null or a row,
/// - deleting all answers with the count as plain text, an integer not
///   below the minimum,
/// - deleting one answers without a body,
/// - creating and updating answer with the row as JSON.
pub open spec fn response_body(kind: RouteKind, doc: ResourceDoc) -> Option<
    (Seq<char>, utoipa::openapi::content::Content),
> {
    let row = schema_reference_of(doc.schema);
    match kind {
        RouteKind::ListItems => Some(("application/json"@, content_with(array_schema_of(row)))),
        RouteKind::CreateItem => Some(("application/json"@, content_with(row))),
        RouteKind::DeleteAllItems => Some(
            ("text/plain"@, content_with(integer_schema_of(Some(doc.count_minimum)))),
        ),
        RouteKind::GetItem => Some(("application/json"@, content_with(null_or_schema_of(row)))),
        RouteKind::UpdateItem => Some(("application/json"@, content_with(row))),
        RouteKind::DeleteItem => None,
    }
}

/// The response of the given description, with the body if there is one.
pub open spec fn response_of(
    description: Seq<char>,
    body: Option<(Seq<char>, utoipa::openapi::content::Content)>,
) -> utoipa::openapi::response::Response {
    match body {
        Some(body) => response_with_body_of(description, body.0, body.1),
        None => response_without_body_of(description),
    }
}

/// The operation that documents one kind of route: tagged with the one
/// tag, worded for the table, with the kind's parameters and request body,
/// and with the one response under the status `200`.
pub open spec fn documented_operation(kind: RouteKind, doc: ResourceDoc) -> utoipa::openapi::path::Operation {
    operation_of(
        doc.tag,
        description_text(kind, doc.table_name),
        operation_id_text(kind, doc.table_name),
        operation_parameters(kind, doc),
        operation_request_body(kind, doc),
        "200"@,
        response_of(response_text(kind, doc.table_name), response_body(kind, doc)),
    )
}

/// The operations documented on top of `operations` for one kind of route:
/// the kind's operation under the kind's path and method, if the route is
/// served.
pub open spec fn with_route(
    operations: Operations,
    enabled: EnabledRoutes,
    kind: RouteKind,
    path: Seq<char>,
    id_path: Seq<char>,
    doc: ResourceDoc,
) -> Operations {
    if enabled.spec_includes(kind) {
        with_operation(
            operations,
            path_of(kind, path, id_path),
            kind.spec_method(),
            documented_operation(kind, doc),
        )
    } else {
        operations
    }
}

/// The operations documented for a resource: one for each served route,
/// under the route's method and under the collection's path or the path
/// of one item.
pub open spec fn documented_operations(
    enabled: EnabledRoutes,
    path: Seq<char>,
    id_path: Seq<char>,
    doc: ResourceDoc,
) -> Operations {
    let listed = with_route(no_operations(), enabled, RouteKind::ListItems, path, id_path, doc);
    let fetched = with_route(listed, enabled, RouteKind::GetItem, path, id_path, doc);
    let cleared = with_route(fetched, enabled, RouteKind::DeleteAllItems, path, id_path, doc);
    let deleted = with_route(cleared, enabled, RouteKind::DeleteItem, path, id_path, doc);
    let created = with_route(deleted, enabled, RouteKind::CreateItem, path, id_path, doc);
    with_route(created, enabled, RouteKind::UpdateItem, path, id_path, doc)
}

/// After one kind of route has been documented there is an operation
/// where there was one before, and where the route is served.
proof fn lemma_with_route(
    operations: Operations,
    enabled: EnabledRoutes,
    kind: RouteKind,
    path: Seq<char>,
    id_path: Seq<char>,
    doc: ResourceDoc,
    at: Seq<char>,
    method: HttpMethod,
)
    ensures
        has_operation(with_route(operations, enabled, kind, path, id_path, doc), at, method)
            <==> has_operation(operations, at, method) || (enabled.spec_includes(kind) && path_of(
            kind,
            path,
            id_path,
        ) == at && kind.spec_method() == method),
{
}

/// The documentation mirrors the routes: there is an operation under a
/// path and a method exactly if a route is served under that path whose
/// kind answers to that method.
pub proof fn lemma_documented_iff_served(
    enabled: EnabledRoutes,
    path: Seq<char>,
    id_path: Seq<char>,
    doc: ResourceDoc,
    at: Seq<char>,
    method: HttpMethod,
)
    ensures
        has_operation(documented_operations(enabled, path, id_path, doc), at, method) <==> exists|
            kind: RouteKind,
        |
            served_routes(enabled, path, id_path).contains(RouteSpec { kind, path: at })
                && #[trigger] kind.spec_method() == method,
{
    let listed = with_route(no_operations(), enabled, RouteKind::ListItems, path, id_path, doc);
    let fetched = with_route(listed, enabled, RouteKind::GetItem, path, id_path, doc);
    let cleared = with_route(fetched, enabled, RouteKind::DeleteAllItems, path, id_path, doc);
    let deleted = with_route(cleared, enabled, RouteKind::DeleteItem, path, id_path, doc);
    let created = with_route(deleted, enabled, RouteKind::CreateItem, path, id_path, doc);
    lemma_with_route(no_operations(), enabled, RouteKind::ListItems, path, id_path, doc, at, method);
    lemma_with_route(listed, enabled, RouteKind::GetItem, path, id_path, doc, at, method);
    lemma_with_route(fetched, enabled, RouteKind::DeleteAllItems, path, id_path, doc, at, method);
    lemma_with_route(cleared, enabled, RouteKind::DeleteItem, path, id_path, doc, at, method);
    lemma_with_route(deleted, enabled, RouteKind::CreateItem, path, id_path, doc, at, method);
    lemma_with_route(created, enabled, RouteKind::UpdateItem, path, id_path, doc, at, method);
    lemma_served_iff_enabled(enabled, path, id_path, RouteSpec { kind: RouteKind::ListItems, path: at });
    lemma_served_iff_enabled(enabled, path, id_path, RouteSpec { kind: RouteKind::GetItem, path: at });
    lemma_served_iff_enabled(
        enabled,
        path,
        id_path,
        RouteSpec { kind: RouteKind::DeleteAllItems, path: at },
    );
    lemma_served_iff_enabled(enabled, path, id_path, RouteSpec { kind: RouteKind::DeleteItem, path: at });
    lemma_served_iff_enabled(enabled, path, id_path, RouteSpec { kind: RouteKind::CreateItem, path: at });
    lemma_served_iff_enabled(enabled, path, id_path, RouteSpec { kind: RouteKind::UpdateItem, path: at });
    let served = served_routes(enabled, path, id_path);
    if has_operation(documented_operations(enabled, path, id_path, doc), at, method) {
        let kind: RouteKind = if enabled.list_items && path == at && method == HttpMethod::Get {
            RouteKind::ListItems
        } else if enabled.get_item && id_path == at && method == HttpMethod::Get {
            RouteKind::GetItem
        } else if enabled.delete_all_items && path == at && method == HttpMethod::Delete {
            RouteKind::DeleteAllItems
        } else if enabled.delete_item && id_path == at && method == HttpMethod::Delete {
            RouteKind::DeleteItem
        } else if enabled.create_item && path == at && method == HttpMethod::Post {
            RouteKind::CreateItem
        } else {
            RouteKind::UpdateItem
        };
        assert(served.contains(RouteSpec { kind, path: at }) && kind.spec_method() == method);
    }
    if exists|kind: RouteKind|
        served.contains(RouteSpec { kind, path: at }) && #[trigger] kind.spec_method() == method {
        let kind = choose|kind: RouteKind|
            served.contains(RouteSpec { kind, path: at }) && #[trigger] kind.spec_method()
                == method;
        lemma_served_iff_enabled(enabled, path, id_path, RouteSpec { kind, path: at });
    }
}

/// Where the collection and one item are served under different paths,
/// the operation under the path and method of a served kind is that
/// kind's operation.
pub proof fn lemma_documented_operation_of_kind(
    enabled: EnabledRoutes,
    path: Seq<char>,
    id_path: Seq<char>,
    doc: ResourceDoc,
    kind: RouteKind,
)
    requires
        path != id_path,
        enabled.spec_includes(kind),
    ensures
        has_operation(
            documented_operations(enabled, path, id_path, doc),
            path_of(kind, path, id_path),
            kind.spec_method(),
        ),
        operation_at(
            documented_operations(enabled, path, id_path, doc),
            path_of(kind, path, id_path),
            kind.spec_method(),
        ) == documented_operation(kind, doc),
{
}

/// The schemas filed for the rows: the rows' own, then those of the types
/// that the rows are made of.
pub open spec fn row_entries(schema: SchemaDoc) -> Seq<(Seq<char>, utoipa::openapi::RefOr<utoipa::openapi::schema::Schema>)> {
    schema.own_entry() + schema.nested_entries()
}

/// The schemas filed for a route that takes a request body: the rows' own
/// and the request's own, then those of the types that each is made of.
pub open spec fn request_entries(schema: SchemaDoc, request: Option<SchemaDoc>) -> Seq<
    (Seq<char>, utoipa::openapi::RefOr<utoipa::openapi::schema::Schema>),
> {
    match request {
        Some(request) => schema.own_entry() + request.own_entry() + schema.nested_entries()
            + request.nested_entries(),
        None => Seq::empty(),
    }
}

/// The schemas filed for a resource, in the order of filing: the rows' for
/// the list and again for fetching one, then what creating and what
/// updating need, each only where the route is served.
pub open spec fn filed_entries(
    enabled: EnabledRoutes,
    schema: SchemaDoc,
    create_schema: Option<SchemaDoc>,
    update_schema: Option<SchemaDoc>,
) -> Seq<(Seq<char>, utoipa::openapi::RefOr<utoipa::openapi::schema::Schema>)> {
    let listed: Seq<(Seq<char>, utoipa::openapi::RefOr<utoipa::openapi::schema::Schema>)> = if enabled.list_items {
        row_entries(schema)
    } else {
        Seq::empty()
    };
    let fetched: Seq<(Seq<char>, utoipa::openapi::RefOr<utoipa::openapi::schema::Schema>)> = if enabled.get_item {
        row_entries(schema)
    } else {
        Seq::empty()
    };
    let created: Seq<(Seq<char>, utoipa::openapi::RefOr<utoipa::openapi::schema::Schema>)> = if enabled.create_item {
        request_entries(schema, create_schema)
    } else {
        Seq::empty()
    };
    let updated: Seq<(Seq<char>, utoipa::openapi::RefOr<utoipa::openapi::schema::Schema>)> = if enabled.update_item {
        request_entries(schema, update_schema)
    } else {
        Seq::empty()
    };
    listed + fetched + created + updated
}

/// What documenting a resource does to a document:
/// - a documented path comes to hold the resource's operations in a new
///   item and nothing of what it held, and every other path stays as it
///   is;
/// - the tag is put at the end of the tags;
/// - the schemas are filed among the components, in turn, and every other
///   schema stays as it is;
/// - there are components afterwards, even if nothing was filed;
/// - the rest of the document stays.
pub open spec fn documents(
    before: utoipa::openapi::OpenApi,
    after: utoipa::openapi::OpenApi,
    enabled: EnabledRoutes,
    path: Seq<char>,
    id_path: Seq<char>,
    doc: ResourceDoc,
    filed: Seq<(Seq<char>, utoipa::openapi::RefOr<utoipa::openapi::schema::Schema>)>,
) -> bool {
    &&& document_operations(after) == document_operations(before).union_prefer_right(
        documented_operations(enabled, path, id_path, doc),
    )
    &&& document_tags(after) == document_tags(before).push(tag_named(doc.tag))
    &&& document_schemas(after) == overlay(document_schemas(before), filed)
    &&& document_has_components(after)
    &&& document_rest(after) == document_rest(before)
}

/// Whether a name is the name of one of the entries.
pub open spec fn names(entries: Seq<(Seq<char>, utoipa::openapi::RefOr<utoipa::openapi::schema::Schema>)>, name: Seq<char>) -> bool {
    exists|i: int| 0 <= i < entries.len() && (#[trigger] entries[i]).0 == name
}

/// What filing does to the schemas: the names afterwards are those before
/// and those of the entries; a name that no entry has keeps its schema;
/// and the name of an entry holds that entry's schema unless a later entry
/// has the same name.
pub proof fn lemma_overlay(base: Schemas, entries: Seq<(Seq<char>, utoipa::openapi::RefOr<utoipa::openapi::schema::Schema>)>)
    ensures
        forall|name: Seq<char>| #[trigger]
            overlay(base, entries).dom().contains(name) <==> base.dom().contains(name) || names(
                entries,
                name,
            ),
        forall|name: Seq<char>|
            base.dom().contains(name) && !names(entries, name) ==> #[trigger] overlay(
                base,
                entries,
            )[name] == base[name],
        forall|i: int|
            0 <= i < entries.len() && (forall|j: int|
                i < j < entries.len() ==> (#[trigger] entries[j]).0 != entries[i].0) ==> overlay(
                base,
                entries,
            ).dom().contains((#[trigger] entries[i]).0) && overlay(base, entries)[entries[i].0]
                == entries[i].1,
    decreases entries.len(),
{
    let filed = overlay(base, entries);
    if entries.len() > 0 {
        let front = entries.drop_last();
        let last = entries.last();
        let before = overlay(base, front);
        lemma_overlay(base, front);
        assert(filed == before.insert(last.0, last.1));
        assert forall|name: Seq<char>| names(entries, name) <==> names(front, name) || name
            == last.0 by {
            if names(entries, name) {
                let i = choose|i: int| 0 <= i < entries.len() && (#[trigger] entries[i]).0 == name;
                if i < front.len() {
                    assert(front[i].0 == name);
                }
            }
            if names(front, name) {
                let i = choose|i: int| 0 <= i < front.len() && (#[trigger] front[i]).0 == name;
                assert(entries[i].0 == name);
            }
            if name == last.0 {
                assert(entries[entries.len() - 1].0 == name);
            }
        }
        assert forall|name: Seq<char>| #[trigger]
            filed.dom().contains(name) <==> base.dom().contains(name) || names(entries, name) by {
            assert(filed.dom().contains(name) <==> before.dom().contains(name) || name == last.0);
            assert(before.dom().contains(name) <==> base.dom().contains(name) || names(front, name));
        }
        assert forall|name: Seq<char>|
            base.dom().contains(name) && !names(entries, name) implies #[trigger] filed[name]
            == base[name] by {
            assert(!names(front, name) && name != last.0);
            assert(before[name] == base[name]);
        }
        assert forall|i: int|
            0 <= i < entries.len() && (forall|j: int|
                i < j < entries.len() ==> (#[trigger] entries[j]).0 != entries[i].0) implies filed.dom().contains(
            (#[trigger] entries[i]).0,
        ) && filed[entries[i].0] == entries[i].1 by {
            if i < front.len() {
                assert(front[i] == entries[i]);
                assert(entries[entries.len() - 1].0 != entries[i].0);
                assert forall|j: int| i < j < front.len() implies (#[trigger] front[j]).0
                    != front[i].0 by {
                    assert(front[j] == entries[j]);
                }
                assert(before.dom().contains(front[i].0) && before[front[i].0] == front[i].1);
            }
        }
    } else {
        assert forall|name: Seq<char>| !names(entries, name) by {
            if names(entries, name) {
                let i = choose|i: int| 0 <= i < entries.len() && (#[trigger] entries[i]).0 == name;
            }
        }
    }
}

/// Files a copy of the type's own schema under the type's name.
fn file_schema(filed: &mut Vec<(String, utoipa::openapi::RefOr<utoipa::openapi::schema::Schema>)>, doc: &SchemaDoc)
    ensures
        entry_views(final(filed)@) == entry_views(old(filed)@) + doc.own_entry(),
{
    let entry = (doc.name.clone(), clone_schema(&doc.schema));
    filed.push(entry);
    assert(entry_views(filed@) =~= entry_views(old(filed)@) + doc.own_entry());
}

/// Files copies of the schemas of the types that the type is made of.
fn file_nested(filed: &mut Vec<(String, utoipa::openapi::RefOr<utoipa::openapi::schema::Schema>)>, doc: &SchemaDoc)
    ensures
        entry_views(final(filed)@) == entry_views(old(filed)@) + doc.nested_entries(),
{
    let mut i: usize = 0;
    assert(entry_views(filed@) =~= entry_views(old(filed)@) + entry_views(doc.nested@.take(0)));
    while i < doc.nested.len()
        invariant
            i <= doc.nested.len(),
            entry_views(filed@) == entry_views(old(filed)@) + entry_views(
                doc.nested@.take(i as int),
            ),
        decreases doc.nested.len() - i,
    {
        let entry = (doc.nested[i].0.clone(), clone_schema(&doc.nested[i].1));
        let ghost before = filed@;
        filed.push(entry);
        proof {
            let given = doc.nested@[i as int];
            assert(doc.nested@.take(i + 1) =~= doc.nested@.take(i as int).push(given));
            assert(entry_views(doc.nested@.take(i + 1)) =~= entry_views(
                doc.nested@.take(i as int),
            ).push((given.0@, given.1)));
            assert(entry_views(filed@) =~= entry_views(before).push((entry.0@, entry.1)));
            assert(entry_views(filed@) =~= entry_views(old(filed)@) + entry_views(
                doc.nested@.take(i + 1),
            ));
        }
        i += 1;
    }
    assert(doc.nested@.take(i as int) =~= doc.nested@);
}

/// The parameters of the routes that work on one item: the required
/// integer path parameter `id`, described by the table's name.
fn id_parameter(table_name: &str) -> (parameters: Vec<utoipa::openapi::path::Parameter>)
    ensures
        parameters@ == seq![integer_path_parameter_of("id"@, id_parameter_text(table_name@))],
{
    let mut parameters = Vec::new();
    parameters.push(integer_path_parameter("id", id_parameter_description(table_name)));
    assert(parameters@ =~= seq![
        integer_path_parameter_of("id"@, id_parameter_text(table_name@)),
    ]);
    parameters
}

/// A content type and a body with the content type taken as a sequence of
/// characters, where there is a body.
pub open spec fn body_view(body: Option<(&str, utoipa::openapi::content::Content)>) -> Option<
    (Seq<char>, utoipa::openapi::content::Content),
> {
    match body {
        Some(body) => Some((body.0@, body.1)),
        None => None,
    }
}

/// Documents one kind of route: an operation under the route's method and
/// path, tagged and worded for the table, with the given parameters and
/// request body and with the one response under the status `200`.
fn add_operation(
    paths: &mut utoipa::openapi::path::Paths,
    kind: RouteKind,
    tag: &str,
    table_name: &str,
    path: &str,
    id_path: &str,
    parameters: Option<Vec<utoipa::openapi::path::Parameter>>,
    request_body: Option<utoipa::openapi::request_body::RequestBody>,
    body: Option<(&str, utoipa::openapi::content::Content)>,
)
    ensures
        paths_operations(*final(paths)) == with_operation(
            paths_operations(*old(paths)),
            path_of(kind, path@, id_path@),
            kind.spec_method(),
            operation_of(
                tag@,
                description_text(kind, table_name@),
                operation_id_text(kind, table_name@),
                parameters_view(parameters),
                request_body,
                "200"@,
                response_of(response_text(kind, table_name@), body_view(body)),
            ),
        ),
{
    let response = match body {
        Some((content_type, content)) => response_with_body(
            response_description(kind, table_name),
            content_type,
            content,
        ),
        None => response_without_body(response_description(kind, table_name)),
    };
    let documented = operation(
        tag,
        operation_description(kind, table_name),
        operation_id(kind, table_name),
        parameters,
        request_body,
        "200",
        response,
    );
    let at = if kind.on_item() {
        id_path
    } else {
        path
    };
    add_path_operation(paths, at, kind.method(), documented);
}

/// Whether a route is both served and describable: one that takes a
/// request body needs the description of what the body carries.
pub open spec fn documentable(
    enabled: EnabledRoutes,
    create_schema: bool,
    update_schema: bool,
) -> EnabledRoutes {
    EnabledRoutes {
        create_item: enabled.create_item && create_schema,
        update_item: enabled.update_item && update_schema,
        ..enabled
    }
}

/// What the operations are made from, given the descriptions.
pub open spec fn resource_doc(
    tag: Seq<char>,
    table_name: Seq<char>,
    schema: SchemaDoc,
    create_schema: Option<SchemaDoc>,
    update_schema: Option<SchemaDoc>,
    pagination_parameters: Seq<utoipa::openapi::path::Parameter>,
    count_minimum: utoipa::Number,
) -> ResourceDoc {
    ResourceDoc {
        tag,
        table_name,
        schema: schema.name@,
        create_schema: name_of(create_schema),
        update_schema: name_of(update_schema),
        pagination_parameters,
        count_minimum,
    }
}

/// The operations of `operations` with the operation of `kind` set under
/// the kind's path and method, if `serve` says so.
pub open spec fn with_kind(
    operations: Operations,
    serve: bool,
    kind: RouteKind,
    path: Seq<char>,
    id_path: Seq<char>,
    doc: ResourceDoc,
) -> Operations {
    if serve {
        with_operation(
            operations,
            path_of(kind, path, id_path),
            kind.spec_method(),
            documented_operation(kind, doc),
        )
    } else {
        operations
    }
}

/// The entries, if `serve` says so, and none otherwise.
pub open spec fn entries_if(serve: bool, entries: Seq<(Seq<char>, utoipa::openapi::RefOr<utoipa::openapi::schema::Schema>)>) -> Seq<
    (Seq<char>, utoipa::openapi::RefOr<utoipa::openapi::schema::Schema>),
> {
    if serve {
        entries
    } else {
        Seq::empty()
    }
}

/// Documents the list, if it is served, and files the rows' schemas.
fn document_list(
    paths: &mut utoipa::openapi::path::Paths,
    filed: &mut Vec<(String, utoipa::openapi::RefOr<utoipa::openapi::schema::Schema>)>,
    serve: bool,
    tag: &str,
    table_name: &str,
    path: &str,
    id_path: &str,
    schema: &SchemaDoc,
    pagination_parameters: Vec<utoipa::openapi::path::Parameter>,
    Ghost(doc): Ghost<ResourceDoc>,
)
    requires
        doc.tag == tag@,
        doc.table_name == table_name@,
        doc.schema == schema.name@,
        doc.pagination_parameters == pagination_parameters@,
    ensures
        paths_operations(*final(paths)) == with_kind(
            paths_operations(*old(paths)),
            serve,
            RouteKind::ListItems,
            path@,
            id_path@,
            doc,
        ),
        entry_views(final(filed)@) == entry_views(old(filed)@) + entries_if(
            serve,
            row_entries(*schema),
        ),
{
    if serve {
        let body = content_of(array_of(schema_reference(schema.name.as_str())));
        add_operation(
            paths,
            RouteKind::ListItems,
            tag,
            table_name,
            path,
            id_path,
            Some(pagination_parameters),
            None,
            Some(("application/json", body)),
        );
        file_schema(filed, schema);
        file_nested(filed, schema);
    }
    assert(entry_views(filed@) =~= entry_views(old(filed)@) + entries_if(
        serve,
        row_entries(*schema),
    ));
}

/// Documents the fetching of one item, if it is served, and files the
/// rows' schemas.
fn document_get(
    paths: &mut utoipa::openapi::path::Paths,
    filed: &mut Vec<(String, utoipa::openapi::RefOr<utoipa::openapi::schema::Schema>)>,
    serve: bool,
    tag: &str,
    table_name: &str,
    path: &str,
    id_path: &str,
    schema: &SchemaDoc,
    Ghost(doc): Ghost<ResourceDoc>,
)
    requires
        doc.tag == tag@,
        doc.table_name == table_name@,
        doc.schema == schema.name@,
    ensures
        paths_operations(*final(paths)) == with_kind(
            paths_operations(*old(paths)),
            serve,
            RouteKind::GetItem,
            path@,
            id_path@,
            doc,
        ),
        entry_views(final(filed)@) == entry_views(old(filed)@) + entries_if(
            serve,
            row_entries(*schema),
        ),
{
    if serve {
        let body = content_of(null_or(schema_reference(schema.name.as_str())));
        add_operation(
            paths,
            RouteKind::GetItem,
            tag,
            table_name,
            path,
            id_path,
            Some(id_parameter(table_name)),
            None,
            Some(("application/json", body)),
        );
        file_schema(filed, schema);
        file_nested(filed, schema);
    }
    assert(entry_views(filed@) =~= entry_views(old(filed)@) + entries_if(
        serve,
        row_entries(*schema),
    ));
}

/// Documents the deleting of every item, if it is served.
fn document_delete_all(
    paths: &mut utoipa::openapi::path::Paths,
    serve: bool,
    tag: &str,
    table_name: &str,
    path: &str,
    id_path: &str,
    count_minimum: utoipa::Number,
    Ghost(doc): Ghost<ResourceDoc>,
)
    requires
        doc.tag == tag@,
        doc.table_name == table_name@,
        doc.count_minimum == count_minimum,
    ensures
        paths_operations(*final(paths)) == with_kind(
            paths_operations(*old(paths)),
            serve,
            RouteKind::DeleteAllItems,
            path@,
            id_path@,
            doc,
        ),
{
    if serve {
        let body = content_of(integer(Some(count_minimum)));
        add_operation(
            paths,
            RouteKind::DeleteAllItems,
            tag,
            table_name,
            path,
            id_path,
            None,
            None,
            Some(("text/plain", body)),
        );
    }
}

/// Documents the deleting of one item, if it is served.
fn document_delete(
    paths: &mut utoipa::openapi::path::Paths,
    serve: bool,
    tag: &str,
    table_name: &str,
    path: &str,
    id_path: &str,
    Ghost(doc): Ghost<ResourceDoc>,
)
    requires
        doc.tag == tag@,
        doc.table_name == table_name@,
    ensures
        paths_operations(*final(paths)) == with_kind(
            paths_operations(*old(paths)),
            serve,
            RouteKind::DeleteItem,
            path@,
            id_path@,
            doc,
        ),
{
    if serve {
        add_operation(
            paths,
            RouteKind::DeleteItem,
            tag,
            table_name,
            path,
            id_path,
            Some(id_parameter(table_name)),
            None,
            None,
        );
    }
}

/// Documents a route that takes a request body, the creating or the
/// updating one, if it is served and the description of its request body
/// is given, and files the schemas of the rows and of the request.
fn document_with_request(
    paths: &mut utoipa::openapi::path::Paths,
    filed: &mut Vec<(String, utoipa::openapi::RefOr<utoipa::openapi::schema::Schema>)>,
    serve: bool,
    kind: RouteKind,
    tag: &str,
    table_name: &str,
    path: &str,
    id_path: &str,
    schema: &SchemaDoc,
    request: &Option<SchemaDoc>,
    Ghost(doc): Ghost<ResourceDoc>,
)
    requires
        kind == RouteKind::CreateItem || kind == RouteKind::UpdateItem,
        doc.tag == tag@,
        doc.table_name == table_name@,
        doc.schema == schema.name@,
        kind == RouteKind::CreateItem ==> doc.create_schema == name_of(*request),
        kind == RouteKind::UpdateItem ==> doc.update_schema == name_of(*request),
    ensures
        paths_operations(*final(paths)) == with_kind(
            paths_operations(*old(paths)),
            serve && request is Some,
            kind,
            path@,
            id_path@,
            doc,
        ),
        entry_views(final(filed)@) == entry_views(old(filed)@) + entries_if(
            serve,
            request_entries(*schema, *request),
        ),
{
    if serve {
        if let Some(described) = request {
            let request_body = required_request_body(
                "application/json",
                content_of(schema_reference(described.name.as_str())),
            );
            let body = content_of(schema_reference(schema.name.as_str()));
            let parameters = if kind.on_item() {
                Some(id_parameter(table_name))
            } else {
                None
            };
            add_operation(
                paths,
                kind,
                tag,
                table_name,
                path,
                id_path,
                parameters,
                Some(request_body),
                Some(("application/json", body)),
            );
            file_schema(filed, schema);
            file_schema(filed, described);
            file_nested(filed, schema);
            file_nested(filed, described);
        }
    }
    assert(entry_views(filed@) =~= entry_views(old(filed)@) + entries_if(
        serve,
        request_entries(*schema, *request),
    ));
}

/// Adds to `openapi` the documentation of a resource whose table is called
/// `table_name`, whose collection is served under `path` and whose items
/// are served under `id_path`.
///
/// Each served route is documented as one operation, tagged `tag`; the
/// creating and the updating route only where the description of their
/// request body is given. The tag is added to the document's tags, and the
/// schemas that the operations refer to are filed among its components,
/// which are begun if there were none. Nothing else in the document
/// changes.
pub fn document_routes(
    openapi: &mut utoipa::openapi::OpenApi,
    enabled: EnabledRoutes,
    tag: &str,
    table_name: &str,
    path: &str,
    id_path: &str,
    schema: SchemaDoc,
    create_schema: Option<SchemaDoc>,
    update_schema: Option<SchemaDoc>,
    pagination_parameters: Vec<utoipa::openapi::path::Parameter>,
    count_minimum: utoipa::Number,
)
    ensures
        documents(
            *old(openapi),
            *final(openapi),
            documentable(enabled, create_schema is Some, update_schema is Some),
            path@,
            id_path@,
            resource_doc(
                tag@,
                table_name@,
                schema,
                create_schema,
                update_schema,
                pagination_parameters@,
                count_minimum,
            ),
            filed_entries(
                documentable(enabled, create_schema is Some, update_schema is Some),
                schema,
                create_schema,
                update_schema,
            ),
        ),
{
    let ghost wanted = documentable(enabled, create_schema is Some, update_schema is Some);
    let ghost doc = resource_doc(
        tag@,
        table_name@,
        schema,
        create_schema,
        update_schema,
        pagination_parameters@,
        count_minimum,
    );
    let mut paths = new_paths();
    let mut filed: Vec<(String, utoipa::openapi::RefOr<utoipa::openapi::schema::Schema>)> = Vec::new();
    assert(entry_views(filed@) =~= Seq::empty());

    document_list(
        &mut paths,
        &mut filed,
        enabled.list_items,
        tag,
        table_name,
        path,
        id_path,
        &schema,
        pagination_parameters,
        Ghost(doc),
    );
    document_get(
        &mut paths,
        &mut filed,
        enabled.get_item,
        tag,
        table_name,
        path,
        id_path,
        &schema,
        Ghost(doc),
    );
    document_delete_all(
        &mut paths,
        enabled.delete_all_items,
        tag,
        table_name,
        path,
        id_path,
        count_minimum,
        Ghost(doc),
    );
    document_delete(&mut paths, enabled.delete_item, tag, table_name, path, id_path, Ghost(doc));
    document_with_request(
        &mut paths,
        &mut filed,
        enabled.create_item,
        RouteKind::CreateItem,
        tag,
        table_name,
        path,
        id_path,
        &schema,
        &create_schema,
        Ghost(doc),
    );
    document_with_request(
        &mut paths,
        &mut filed,
        enabled.update_item,
        RouteKind::UpdateItem,
        tag,
        table_name,
        path,
        id_path,
        &schema,
        &update_schema,
        Ghost(doc),
    );
    assert(paths_operations(paths) == documented_operations(wanted, path@, id_path@, doc));
    assert(entry_views(filed@) =~= filed_entries(wanted, schema, create_schema, update_schema));

    extend_paths(openapi, paths);
    push_tag(openapi, tag);
    extend_schemas(openapi, filed);
}

} // verus!
