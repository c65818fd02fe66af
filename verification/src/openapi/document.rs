//! The OpenAPI document, as far as this library reads and changes it.
//!
//! The document and its parts are values of `utoipa`. What is stated of
//! them here is taken from `utoipa`'s source and is not proved.

use vstd::prelude::*;
use crate::routes::HttpMethod;

verus! {

#[verifier::external_type_specification]
#[verifier::external_body]
pub struct ExOpenApi(utoipa::openapi::OpenApi);

#[verifier::external_type_specification]
#[verifier::external_body]
pub struct ExPaths(utoipa::openapi::path::Paths);

#[verifier::external_type_specification]
#[verifier::external_body]
pub struct ExOperation(utoipa::openapi::path::Operation);

#[verifier::external_type_specification]
#[verifier::external_body]
pub struct ExParameter(utoipa::openapi::path::Parameter);

#[verifier::external_type_specification]
#[verifier::external_body]
pub struct ExRequestBody(utoipa::openapi::request_body::RequestBody);

#[verifier::external_type_specification]
#[verifier::external_body]
pub struct ExResponse(utoipa::openapi::response::Response);

#[verifier::external_type_specification]
#[verifier::external_body]
pub struct ExContent(utoipa::openapi::content::Content);

#[verifier::external_type_specification]
#[verifier::external_body]
pub struct ExSchema(utoipa::openapi::schema::Schema);

#[verifier::external_type_specification]
#[verifier::external_body]
#[verifier::reject_recursive_types(T)]
pub struct ExRefOr<T>(utoipa::openapi::RefOr<T>);

#[verifier::external_type_specification]
#[verifier::external_body]
pub struct ExNumber(utoipa::Number);

#[verifier::external_type_specification]
#[verifier::external_body]
pub struct ExTag(utoipa::openapi::tag::Tag);

#[verifier::external_type_specification]
#[verifier::external_body]
pub struct ExPathItem(utoipa::openapi::path::PathItem);

/// What stands under each path: the frame of the path's item, which is
/// the item with its operations taken out, and the operation under each
/// method that has one.
pub type Operations = Map<
    Seq<char>,
    (utoipa::openapi::path::PathItem, Map<HttpMethod, utoipa::openapi::path::Operation>),
>;

/// Schemas, each under its name.
pub type Schemas = Map<Seq<char>, utoipa::openapi::RefOr<utoipa::openapi::schema::Schema>>;

/// What a set of paths holds: for each path, the frame of its item and the
/// operation under each method that has one.
pub uninterp spec fn paths_operations(paths: utoipa::openapi::path::Paths) -> Operations;

/// What a document holds under its paths: for each path, the frame of its
/// item and the operation under each method that has one.
pub uninterp spec fn document_operations(api: utoipa::openapi::OpenApi) -> Operations;

/// A document's tags, in their order; none where the document has no list
/// of tags.
pub uninterp spec fn document_tags(api: utoipa::openapi::OpenApi) -> Seq<utoipa::openapi::tag::Tag>;

/// A document's component schemas, each under its name; none where the
/// document has no components.
pub uninterp spec fn document_schemas(api: utoipa::openapi::OpenApi) -> Schemas;

/// Whether a document has components, be it without any schema.
pub uninterp spec fn document_has_components(api: utoipa::openapi::OpenApi) -> bool;

/// What a document holds beside its path items, its tags and its component
/// schemas: the document as it is with no path item, no tags, and with
/// components that hold no schema, begun where it has none. Its info, its
/// servers, its security and its external documentation are part of this.
pub uninterp spec fn document_rest(api: utoipa::openapi::OpenApi) -> utoipa::openapi::OpenApi;

/// The frame of the item that `PathItem::from_http_methods` of `utoipa`
/// makes of one method and an operation: that item with the operation
/// taken out.
pub uninterp spec fn new_item_frame(
    method: HttpMethod,
    operation: utoipa::openapi::path::Operation,
) -> utoipa::openapi::path::PathItem;

/// The tag that `Tag::new` of `utoipa` makes of a name.
pub uninterp spec fn tag_named(name: Seq<char>) -> utoipa::openapi::tag::Tag;

/// The reference to the component schema of the given name, as `utoipa`'s
/// `RefBuilder` makes it.
pub uninterp spec fn schema_reference_of(name: Seq<char>) -> utoipa::openapi::RefOr<utoipa::openapi::schema::Schema>;

/// The schema of an array of `item`, as `utoipa`'s `ArrayBuilder` makes it.
pub uninterp spec fn array_schema_of(item: utoipa::openapi::RefOr<utoipa::openapi::schema::Schema>) -> utoipa::openapi::RefOr<utoipa::openapi::schema::Schema>;

/// The schema of a value that is either null or an `item`, in this order,
/// as `utoipa`'s `OneOfBuilder` makes it.
pub uninterp spec fn null_or_schema_of(item: utoipa::openapi::RefOr<utoipa::openapi::schema::Schema>) -> utoipa::openapi::RefOr<utoipa::openapi::schema::Schema>;

/// The schema of an integer, with the lower bound if one is given, as
/// `utoipa`'s `ObjectBuilder` makes it.
pub uninterp spec fn integer_schema_of(minimum: Option<utoipa::Number>) -> utoipa::openapi::RefOr<utoipa::openapi::schema::Schema>;

/// The body of the given schema, as `utoipa`'s `ContentBuilder` makes it.
pub uninterp spec fn content_with(schema: utoipa::openapi::RefOr<utoipa::openapi::schema::Schema>) -> utoipa::openapi::content::Content;

/// The required integer path parameter of the given name and description,
/// as `utoipa`'s `ParameterBuilder` makes it.
pub uninterp spec fn integer_path_parameter_of(
    name: Seq<char>,
    description: Seq<char>,
) -> utoipa::openapi::path::Parameter;

/// The required request body with the one content under the given content
/// type, as `utoipa`'s `RequestBodyBuilder` makes it.
pub uninterp spec fn required_request_body_of(
    content_type: Seq<char>,
    content: utoipa::openapi::content::Content,
) -> utoipa::openapi::request_body::RequestBody;

/// The response of the given description and without a body, as `utoipa`'s
/// `ResponseBuilder` makes it.
pub uninterp spec fn response_without_body_of(description: Seq<char>) -> utoipa::openapi::response::Response;

/// The response of the given description with the one content under the
/// given content type, as `utoipa`'s `ResponseBuilder` makes it.
pub uninterp spec fn response_with_body_of(
    description: Seq<char>,
    content_type: Seq<char>,
    content: utoipa::openapi::content::Content,
) -> utoipa::openapi::response::Response;

/// The operation that `utoipa`'s `OperationBuilder` makes of one tag, a
/// description, an operation id, the parameters and the request body where
/// they are given, and one response under the given status.
pub uninterp spec fn operation_of(
    tag: Seq<char>,
    description: Seq<char>,
    operation_id: Seq<char>,
    parameters: Option<Seq<utoipa::openapi::path::Parameter>>,
    request_body: Option<utoipa::openapi::request_body::RequestBody>,
    status: Seq<char>,
    response: utoipa::openapi::response::Response,
) -> utoipa::openapi::path::Operation;

/// A list of schemas with the name of each taken as a sequence of
/// characters.
pub open spec fn entry_views(entries: Seq<(String, utoipa::openapi::RefOr<utoipa::openapi::schema::Schema>)>) -> Seq<(Seq<char>, utoipa::openapi::RefOr<utoipa::openapi::schema::Schema>)> {
    entries.map_values(|entry: (String, utoipa::openapi::RefOr<utoipa::openapi::schema::Schema>)| (entry.0@, entry.1))
}

/// The schemas of `base` with each entry of `entries` filed in turn: a name
/// that occurs more than once holds the schema that came last.
pub open spec fn overlay(base: Schemas, entries: Seq<(Seq<char>, utoipa::openapi::RefOr<utoipa::openapi::schema::Schema>)>) -> Schemas
    decreases entries.len(),
{
    if entries.len() == 0 {
        base
    } else {
        overlay(base, entries.drop_last()).insert(entries.last().0, entries.last().1)
    }
}

/// The parameters of a list taken as a sequence, where there is a list.
pub open spec fn parameters_view(
    parameters: Option<Vec<utoipa::openapi::path::Parameter>>,
) -> Option<Seq<utoipa::openapi::path::Parameter>> {
    match parameters {
        Some(parameters) => Some(parameters@),
        None => None,
    }
}

/// No operation under any path.
pub open spec fn no_operations() -> Operations {
    Map::empty()
}

/// Whether there is an operation under the path and the method.
pub open spec fn has_operation(operations: Operations, path: Seq<char>, method: HttpMethod) -> bool {
    operations.dom().contains(path) && operations[path].1.dom().contains(method)
}

/// The operation under the path and the method.
pub open spec fn operation_at(
    operations: Operations,
    path: Seq<char>,
    method: HttpMethod,
) -> utoipa::openapi::path::Operation {
    operations[path].1[method]
}

/// The operations of `operations` with `operation` set under `path` and
/// `method`. What else stands under the path stays; a path that was not
/// there gets a new item.
pub open spec fn with_operation(
    operations: Operations,
    path: Seq<char>,
    method: HttpMethod,
    operation: utoipa::openapi::path::Operation,
) -> Operations {
    if operations.dom().contains(path) {
        operations.insert(
            path,
            (operations[path].0, operations[path].1.insert(method, operation)),
        )
    } else {
        operations.insert(
            path,
            (new_item_frame(method, operation), Map::empty().insert(method, operation)),
        )
    }
}

/// `Paths::new` of `utoipa`: a set of paths that holds nothing.
#[verifier::external_body]
pub(crate) fn new_paths() -> (fresh: utoipa::openapi::path::Paths)
    ensures
        paths_operations(fresh) == no_operations(),
{
    utoipa::openapi::path::Paths::new()
}

/// `Paths::add_path_operation` of `utoipa`, for one method: the operation
/// is set under the path and the method, and every other entry stays. A
/// path that was not there gets the item that
/// `PathItem::from_http_methods` makes.
#[verifier::external_body]
pub(crate) fn add_path_operation(
    paths: &mut utoipa::openapi::path::Paths,
    path: &str,
    method: HttpMethod,
    operation: utoipa::openapi::path::Operation,
)
    ensures
        paths_operations(*final(paths)) == with_operation(
            paths_operations(*old(paths)),
            path@,
            method,
            operation,
        ),
        !paths_operations(*old(paths)).dom().contains(path@) ==> paths_operations(
            *final(paths),
        )[path@].0 == new_item_frame(method, operation),
{
    let http_method = match method {
        HttpMethod::Get => utoipa::openapi::HttpMethod::Get,
        HttpMethod::Post => utoipa::openapi::HttpMethod::Post,
        HttpMethod::Put => utoipa::openapi::HttpMethod::Put,
        HttpMethod::Delete => utoipa::openapi::HttpMethod::Delete,
        HttpMethod::Options => utoipa::openapi::HttpMethod::Options,
        HttpMethod::Head => utoipa::openapi::HttpMethod::Head,
        HttpMethod::Patch => utoipa::openapi::HttpMethod::Patch,
        HttpMethod::Trace => utoipa::openapi::HttpMethod::Trace,
    };
    paths.add_path_operation(path, vec![http_method], operation);
}

/// Extending the map of a document's paths by that of `paths`, as the
/// map's `extend` does: a path of `paths` comes to hold the item that it
/// holds in `paths`, and nothing of what it held, and every other path
/// stays as it is. Tags, components and the rest of the document stay.
#[verifier::external_body]
pub(crate) fn extend_paths(api: &mut utoipa::openapi::OpenApi, paths: utoipa::openapi::path::Paths)
    ensures
        document_operations(*final(api)) == document_operations(*old(api)).union_prefer_right(
            paths_operations(paths),
        ),
        document_tags(*final(api)) == document_tags(*old(api)),
        document_schemas(*final(api)) == document_schemas(*old(api)),
        document_has_components(*final(api)) == document_has_components(*old(api)),
        document_rest(*final(api)) == document_rest(*old(api)),
{
    api.paths.paths.extend(paths.paths);
}

/// `Tag::new` of `utoipa`, and the tag put at the end of the document's
/// tags, which are begun if there were none. Operations, components and
/// the rest of the document stay.
#[verifier::external_body]
pub(crate) fn push_tag(api: &mut utoipa::openapi::OpenApi, name: &str)
    ensures
        document_tags(*final(api)) == document_tags(*old(api)).push(tag_named(name@)),
        document_operations(*final(api)) == document_operations(*old(api)),
        document_schemas(*final(api)) == document_schemas(*old(api)),
        document_has_components(*final(api)) == document_has_components(*old(api)),
        document_rest(*final(api)) == document_rest(*old(api)),
{
    api.tags.get_or_insert(vec![]).push(utoipa::openapi::Tag::new(name));
}

/// Extending the map of a document's component schemas by `schemas`, as
/// the map's `extend` does: each entry is filed in turn, over what stood
/// under its name. The components are begun with `Components::new` of
/// `utoipa` if there were none, so that there are components afterwards.
/// Operations, tags and the rest of the document stay.
#[verifier::external_body]
pub(crate) fn extend_schemas(api: &mut utoipa::openapi::OpenApi, schemas: Vec<(String, utoipa::openapi::RefOr<utoipa::openapi::schema::Schema>)>)
    ensures
        document_schemas(*final(api)) == overlay(document_schemas(*old(api)), entry_views(schemas@)),
        document_has_components(*final(api)),
        document_operations(*final(api)) == document_operations(*old(api)),
        document_tags(*final(api)) == document_tags(*old(api)),
        document_rest(*final(api)) == document_rest(*old(api)),
{
    api.components.get_or_insert(utoipa::openapi::Components::new()).schemas.extend(schemas);
}

/// `Clone::clone` of `utoipa`'s `RefOr<Schema>`: an equal value.
#[verifier::external_body]
pub(crate) fn clone_schema(schema: &utoipa::openapi::RefOr<utoipa::openapi::schema::Schema>) -> (copy: utoipa::openapi::RefOr<utoipa::openapi::schema::Schema>)
    ensures
        copy == *schema,
{
    schema.clone()
}

/// `RefBuilder` of `utoipa`: a reference to the component schema of the
/// given name.
#[verifier::external_body]
pub(crate) fn schema_reference(name: &str) -> (reference: utoipa::openapi::RefOr<utoipa::openapi::schema::Schema>)
    ensures
        reference == schema_reference_of(name@),
{
    utoipa::openapi::schema::RefBuilder::new().ref_location_from_schema_name(name).into()
}

/// `ArrayBuilder` of `utoipa`: the schema of an array of `item`.
#[verifier::external_body]
pub(crate) fn array_of(item: utoipa::openapi::RefOr<utoipa::openapi::schema::Schema>) -> (array: utoipa::openapi::RefOr<utoipa::openapi::schema::Schema>)
    ensures
        array == array_schema_of(item),
{
    utoipa::openapi::schema::ArrayBuilder::new().items(item).build().into()
}

/// `OneOfBuilder` of `utoipa`: the schema of a value that is either null or
/// an `item`.
#[verifier::external_body]
pub(crate) fn null_or(item: utoipa::openapi::RefOr<utoipa::openapi::schema::Schema>) -> (either: utoipa::openapi::RefOr<utoipa::openapi::schema::Schema>)
    ensures
        either == null_or_schema_of(item),
{
    utoipa::openapi::schema::OneOfBuilder::new()
        .item(
            utoipa::openapi::schema::ObjectBuilder::new().schema_type(
                utoipa::openapi::schema::Type::Null,
            ),
        )
        .item(item)
        .into()
}

/// `ObjectBuilder` of `utoipa`: the schema of an integer, with the lower
/// bound `minimum` if one is given.
#[verifier::external_body]
pub(crate) fn integer(minimum: Option<utoipa::Number>) -> (schema: utoipa::openapi::RefOr<utoipa::openapi::schema::Schema>)
    ensures
        schema == integer_schema_of(minimum),
{
    utoipa::openapi::ObjectBuilder::new()
        .schema_type(utoipa::openapi::schema::SchemaType::new(utoipa::openapi::schema::Type::Integer))
        .minimum(minimum)
        .into()
}

/// `ContentBuilder` of `utoipa`: a body of the given schema.
#[verifier::external_body]
pub(crate) fn content_of(schema: utoipa::openapi::RefOr<utoipa::openapi::schema::Schema>) -> (content: utoipa::openapi::content::Content)
    ensures
        content == content_with(schema),
{
    utoipa::openapi::content::ContentBuilder::new().schema(Some(schema)).build()
}

/// `ParameterBuilder` of `utoipa`: a required parameter that is part of
/// the path and takes an integer. The parameter is the one that the
/// builder makes of the name and the description, and of nothing else.
#[verifier::external_body]
pub(crate) fn integer_path_parameter(name: &str, description: String) -> (parameter:
    utoipa::openapi::path::Parameter)
    ensures
        parameter == integer_path_parameter_of(name@, description@),
{
    utoipa::openapi::path::ParameterBuilder::from(utoipa::openapi::path::Parameter::new(name))
        .parameter_in(utoipa::openapi::path::ParameterIn::Path)
        .description(Some(description))
        .schema(Some(
            utoipa::openapi::ObjectBuilder::new().schema_type(
                utoipa::openapi::schema::SchemaType::new(utoipa::openapi::schema::Type::Integer),
            ),
        ))
        .required(utoipa::openapi::Required::True)
        .build()
}

/// `RequestBodyBuilder` of `utoipa`: a required request body of the given
/// content type.
#[verifier::external_body]
pub(crate) fn required_request_body(
    content_type: &str,
    content: utoipa::openapi::content::Content,
) -> (request_body: utoipa::openapi::request_body::RequestBody)
    ensures
        request_body == required_request_body_of(content_type@, content),
{
    utoipa::openapi::request_body::RequestBodyBuilder::new()
        .content(content_type, content)
        .required(Some(utoipa::openapi::Required::True))
        .build()
}

/// `ResponseBuilder` of `utoipa`: a response without a body.
#[verifier::external_body]
pub(crate) fn response_without_body(description: String) -> (response:
    utoipa::openapi::response::Response)
    ensures
        response == response_without_body_of(description@),
{
    utoipa::openapi::ResponseBuilder::new().description(description).build()
}

/// `ResponseBuilder` of `utoipa`: a response with a body of the given
/// content type.
#[verifier::external_body]
pub(crate) fn response_with_body(
    description: String,
    content_type: &str,
    content: utoipa::openapi::content::Content,
) -> (response: utoipa::openapi::response::Response)
    ensures
        response == response_with_body_of(description@, content_type@, content),
{
    utoipa::openapi::ResponseBuilder::new()
        .description(description)
        .content(content_type, content)
        .build()
}

/// `OperationBuilder` of `utoipa`: an operation with one tag and one
/// response, and with parameters and a request body where they are given.
#[verifier::external_body]
pub(crate) fn operation(
    tag: &str,
    description: String,
    operation_id: String,
    parameters: Option<Vec<utoipa::openapi::path::Parameter>>,
    request_body: Option<utoipa::openapi::request_body::RequestBody>,
    status: &str,
    response: utoipa::openapi::response::Response,
) -> (made: utoipa::openapi::path::Operation)
    ensures
        made == operation_of(
            tag@,
            description@,
            operation_id@,
            parameters_view(parameters),
            request_body,
            status@,
            response,
        ),
{
    utoipa::openapi::path::OperationBuilder::new()
        .tag(tag)
        .description(Some(description))
        .operation_id(Some(operation_id))
        .parameters(parameters)
        .request_body(request_body)
        .response(status, response)
        .build()
}

} // verus!
