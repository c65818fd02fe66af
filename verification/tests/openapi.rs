use crud_routers::{
    document_routes, ApiServer, Assigned, CRUDRepository, CrudRouterBuilder, Empty, EnabledRoutes,
    OpenApiParts, ReadDeleteRepository, SchemaDoc, SlotDoc,
};
use serde_json::Value;
use utoipa::openapi::path::{
    HttpMethod, OperationBuilder, Parameter, ParameterBuilder, ParameterIn, PathItem,
};
use utoipa::openapi::schema::{ObjectBuilder, Schema, Type};
use utoipa::openapi::tag::Tag;
use utoipa::openapi::{Components, InfoBuilder, OpenApi, OpenApiBuilder, RefOr, Required};

pub struct Post;
pub struct NewPost;
pub struct PostForm;
struct PrimaryKeyType;
struct Repo;

impl CRUDRepository for Repo {}

impl ReadDeleteRepository<Post, PrimaryKeyType> for Repo {
    fn get_table_name() -> String {
        String::from("test_table_name")
    }
}

struct TestServer;

impl ApiServer for TestServer {
    fn get_id_path(_prefix: &str) -> String {
        unreachable!()
    }
}

fn get_default_openapi() -> OpenApi {
    OpenApiBuilder::new()
        .info(InfoBuilder::new().title("Test api").version("0.1.0").build())
        .build()
}

fn text_field() -> ObjectBuilder {
    ObjectBuilder::new().schema_type(Type::String)
}

fn post_doc() -> SchemaDoc {
    let schema: RefOr<Schema> = ObjectBuilder::new()
        .property("id", ObjectBuilder::new().schema_type(Type::Integer))
        .required("id")
        .property("title", text_field())
        .required("title")
        .property("body", text_field())
        .required("body")
        .property("published", ObjectBuilder::new().schema_type(Type::Boolean))
        .required("published")
        .into();
    SchemaDoc { name: String::from("Post"), schema, nested: Vec::new() }
}

fn new_post_doc() -> SchemaDoc {
    let schema: RefOr<Schema> = ObjectBuilder::new()
        .property("title", text_field())
        .required("title")
        .property("body", text_field())
        .required("body")
        .property("published", ObjectBuilder::new().schema_type(Type::Boolean))
        .required("published")
        .into();
    SchemaDoc { name: String::from("NewPost"), schema, nested: Vec::new() }
}

fn post_form_doc() -> SchemaDoc {
    let schema: RefOr<Schema> = ObjectBuilder::new()
        .property("title", text_field())
        .property("body", text_field())
        .property("published", ObjectBuilder::new().schema_type(Type::Boolean))
        .into();
    SchemaDoc { name: String::from("PostForm"), schema, nested: Vec::new() }
}

fn query_parameter(name: &str) -> Parameter {
    ParameterBuilder::new()
        .name(name)
        .parameter_in(ParameterIn::Query)
        .required(Required::False)
        .schema(Some(ObjectBuilder::new().schema_type(Type::Integer)))
        .build()
}

fn pagination_parameters() -> Vec<Parameter> {
    vec![query_parameter("skip"), query_parameter("limit")]
}

fn full_parts() -> OpenApiParts<Assigned<NewPost>, Assigned<PostForm>> {
    OpenApiParts {
        schema: post_doc(),
        create_schema: SlotDoc::of(new_post_doc()),
        update_schema: SlotDoc::of(post_form_doc()),
        pagination_parameters: pagination_parameters(),
        count_minimum: utoipa::Number::Float(0.0),
    }
}

fn parts_without_create() -> OpenApiParts<Empty, Assigned<PostForm>> {
    OpenApiParts {
        schema: post_doc(),
        create_schema: SlotDoc::absent(),
        update_schema: SlotDoc::of(post_form_doc()),
        pagination_parameters: pagination_parameters(),
        count_minimum: utoipa::Number::Float(0.0),
    }
}

fn bare_parts() -> OpenApiParts<Empty, Empty> {
    OpenApiParts {
        schema: post_doc(),
        create_schema: SlotDoc::absent(),
        update_schema: SlotDoc::absent(),
        pagination_parameters: pagination_parameters(),
        count_minimum: utoipa::Number::Float(0.0),
    }
}

fn json_of(api: &OpenApi) -> Value {
    serde_json::from_str(&api.to_json().unwrap()).unwrap()
}

fn keys(value: &Value) -> Vec<String> {
    value.as_object().unwrap().keys().cloned().collect()
}

fn reference(name: &str) -> String {
    format!("#/components/schemas/{}", name)
}

fn check_id_parameter(operation: &Value) {
    let parameters = operation["parameters"].as_array().unwrap();
    assert_eq!(parameters.len(), 1);
    assert_eq!(parameters[0]["name"], "id");
    assert_eq!(parameters[0]["in"], "path");
    assert_eq!(parameters[0]["required"], true);
    assert_eq!(parameters[0]["description"], "test_table_name id");
    assert_eq!(parameters[0]["schema"]["type"], "integer");
    assert!(parameters[0]["schema"].get("minimum").is_none());
}

fn check_common(operation: &Value, description: &str, id: &str, response: &str) {
    assert_eq!(operation["tags"].as_array().unwrap().len(), 1);
    assert_eq!(operation["tags"][0], "table_name");
    assert_eq!(operation["description"], description);
    assert_eq!(operation["operationId"], id);
    assert_eq!(keys(&operation["responses"]), vec![String::from("200")]);
    assert_eq!(operation["responses"]["200"]["description"], response);
}

fn check_list(operation: &Value) {
    check_common(
        operation,
        "Lists all test_table_name",
        "list_all_test_table_name",
        "All test_table_name listed successfully",
    );
    let parameters = operation["parameters"].as_array().unwrap();
    assert_eq!(parameters.len(), 2);
    assert_eq!(parameters[0]["name"], "skip");
    assert_eq!(parameters[0]["in"], "query");
    assert_eq!(parameters[1]["name"], "limit");
    assert!(operation.get("requestBody").is_none());
    let content = &operation["responses"]["200"]["content"];
    assert_eq!(keys(content), vec![String::from("application/json")]);
    assert_eq!(content["application/json"]["schema"]["type"], "array");
    assert_eq!(content["application/json"]["schema"]["items"]["$ref"], reference("Post").as_str());
}

fn check_get(operation: &Value) {
    check_common(
        operation,
        "Gets one test_table_name",
        "get_test_table_name",
        "One test_table_name is fetched successfully",
    );
    check_id_parameter(operation);
    assert!(operation.get("requestBody").is_none());
    let content = &operation["responses"]["200"]["content"];
    assert_eq!(keys(content), vec![String::from("application/json")]);
    let either = content["application/json"]["schema"]["oneOf"].as_array().unwrap();
    assert_eq!(either.len(), 2);
    assert_eq!(either[0]["type"], "null");
    assert_eq!(either[1]["$ref"], reference("Post").as_str());
}

fn check_delete_all(operation: &Value) {
    check_common(
        operation,
        "Deletes all test_table_name",
        "delete_all_test_table_name",
        "All test_table_name deleted successfully",
    );
    assert!(operation.get("parameters").is_none());
    assert!(operation.get("requestBody").is_none());
    let content = &operation["responses"]["200"]["content"];
    assert_eq!(keys(content), vec![String::from("text/plain")]);
    assert_eq!(content["text/plain"]["schema"]["type"], "integer");
    assert_eq!(content["text/plain"]["schema"]["minimum"], 0);
}

fn check_delete(operation: &Value) {
    check_common(
        operation,
        "Deletes one test_table_name",
        "delete_test_table_name",
        "One test_table_name is deleted successfully",
    );
    check_id_parameter(operation);
    assert!(operation.get("requestBody").is_none());
    assert!(operation["responses"]["200"].get("content").is_none());
}

fn check_create(operation: &Value) {
    check_common(
        operation,
        "Creates test_table_name",
        "create_test_table_name",
        "One test_table_name is created successfully",
    );
    assert!(operation.get("parameters").is_none());
    assert_eq!(operation["requestBody"]["required"], true);
    let request = &operation["requestBody"]["content"];
    assert_eq!(keys(request), vec![String::from("application/json")]);
    assert_eq!(request["application/json"]["schema"]["$ref"], reference("NewPost").as_str());
    let content = &operation["responses"]["200"]["content"];
    assert_eq!(keys(content), vec![String::from("application/json")]);
    assert_eq!(content["application/json"]["schema"]["$ref"], reference("Post").as_str());
}

fn check_update(operation: &Value) {
    check_common(
        operation,
        "Updates test_table_name",
        "update_test_table_name",
        "One test_table_name is updated successfully",
    );
    check_id_parameter(operation);
    assert_eq!(operation["requestBody"]["required"], true);
    let request = &operation["requestBody"]["content"];
    assert_eq!(keys(request), vec![String::from("application/json")]);
    assert_eq!(request["application/json"]["schema"]["$ref"], reference("PostForm").as_str());
    let content = &operation["responses"]["200"]["content"];
    assert_eq!(keys(content), vec![String::from("application/json")]);
    assert_eq!(content["application/json"]["schema"]["$ref"], reference("Post").as_str());
}

#[test]
fn openapi_spec() {
    let mut api = get_default_openapi();

    let _b = CrudRouterBuilder::new::<TestServer>()
        .repository::<Repo>()
        .prefix("base/api")
        .tag("table_name")
        .schema::<Post, PrimaryKeyType>()
        .create_schema::<NewPost>()
        .update_schema::<PostForm>()
        .build_openapi(&mut api, full_parts());

    let json = json_of(&api);
    assert_eq!(json["info"]["title"], "Test api");
    assert_eq!(json["info"]["version"], "0.1.0");
    assert_eq!(keys(&json["paths"]), vec![String::from("/base/api"), String::from("/base/api/{id}")]);
    let collection = &json["paths"]["/base/api"];
    assert_eq!(keys(collection), vec![String::from("delete"), String::from("get"), String::from("post")]);
    check_list(&collection["get"]);
    check_create(&collection["post"]);
    check_delete_all(&collection["delete"]);
    let item = &json["paths"]["/base/api/{id}"];
    assert_eq!(keys(item), vec![String::from("delete"), String::from("get"), String::from("put")]);
    check_get(&item["get"]);
    check_update(&item["put"]);
    check_delete(&item["delete"]);
    assert_eq!(json["tags"].as_array().unwrap().len(), 1);
    assert_eq!(json["tags"][0]["name"], "table_name");
    assert_eq!(
        keys(&json["components"]["schemas"]),
        vec![String::from("NewPost"), String::from("Post"), String::from("PostForm")]
    );
    assert_eq!(
        json["components"]["schemas"]["Post"],
        serde_json::to_value(post_doc().schema).unwrap()
    );
    assert_eq!(
        json["components"]["schemas"]["NewPost"],
        serde_json::to_value(new_post_doc().schema).unwrap()
    );
    assert_eq!(
        json["components"]["schemas"]["PostForm"],
        serde_json::to_value(post_form_doc().schema).unwrap()
    );
}

#[test]
fn openapi_spec_without_create_schema() {
    let mut api = get_default_openapi();

    let _b = CrudRouterBuilder::new::<TestServer>()
        .repository::<Repo>()
        .prefix("base/api")
        .tag("table_name")
        .schema::<Post, PrimaryKeyType>()
        .update_schema::<PostForm>()
        .build_openapi(&mut api, parts_without_create());

    let json = json_of(&api);
    assert_eq!(keys(&json["paths"]), vec![String::from("/base/api"), String::from("/base/api/{id}")]);
    let collection = &json["paths"]["/base/api"];
    assert_eq!(keys(collection), vec![String::from("delete"), String::from("get")]);
    check_list(&collection["get"]);
    check_delete_all(&collection["delete"]);
    let item = &json["paths"]["/base/api/{id}"];
    assert_eq!(keys(item), vec![String::from("delete"), String::from("get"), String::from("put")]);
    check_get(&item["get"]);
    check_update(&item["put"]);
    check_delete(&item["delete"]);
    assert_eq!(json["tags"].as_array().unwrap().len(), 1);
    assert_eq!(json["tags"][0]["name"], "table_name");
    assert_eq!(
        keys(&json["components"]["schemas"]),
        vec![String::from("Post"), String::from("PostForm")]
    );
}

#[test]
fn table_name_stands_in_for_tag_and_prefix() {
    let mut api = get_default_openapi();

    let _b = CrudRouterBuilder::new::<TestServer>()
        .repository::<Repo>()
        .schema::<Post, PrimaryKeyType>()
        .build_openapi(&mut api, bare_parts());

    let json = json_of(&api);
    assert_eq!(
        keys(&json["paths"]),
        vec![String::from("/test_table_name"), String::from("/test_table_name/{id}")]
    );
    assert_eq!(json["tags"][0]["name"], "test_table_name");
    assert_eq!(json["paths"]["/test_table_name"]["get"]["tags"][0], "test_table_name");
    assert_eq!(keys(&json["paths"]["/test_table_name"]), vec![String::from("delete"), String::from("get")]);
    assert_eq!(
        keys(&json["paths"]["/test_table_name/{id}"]),
        vec![String::from("delete"), String::from("get")]
    );
    assert_eq!(keys(&json["components"]["schemas"]), vec![String::from("Post")]);
}

#[test]
fn build_openapi_hands_the_builder_back_unchanged() {
    let mut api = get_default_openapi();

    let b = CrudRouterBuilder::new::<TestServer>()
        .repository::<Repo>()
        .prefix("base/api")
        .tag("table_name")
        .schema::<Post, PrimaryKeyType>()
        .update_schema::<PostForm>()
        .disable_get_item_route()
        .build_openapi(&mut api, parts_without_create());

    assert_eq!(b.get_prefix(), "base/api");
    assert_eq!(b.tag_or("other"), "table_name");
    assert!(b.get_item_route_disabled());
    assert!(!b.list_items_route_disabled());
    assert!(!b.update_item_route_disabled());
}

#[test]
fn disabled_routes_are_not_documented() {
    let mut api = get_default_openapi();

    let _b = CrudRouterBuilder::new::<TestServer>()
        .repository::<Repo>()
        .prefix("base/api")
        .tag("table_name")
        .schema::<Post, PrimaryKeyType>()
        .create_schema::<NewPost>()
        .update_schema::<PostForm>()
        .disable_list_items_route()
        .disable_get_item_route()
        .disable_create_item_route()
        .disable_update_item_route()
        .disable_delete_all_items_route()
        .build_openapi(&mut api, full_parts());

    let json = json_of(&api);
    assert_eq!(keys(&json["paths"]), vec![String::from("/base/api/{id}")]);
    assert_eq!(keys(&json["paths"]["/base/api/{id}"]), vec![String::from("delete")]);
    check_delete(&json["paths"]["/base/api/{id}"]["delete"]);
    assert_eq!(json["tags"][0]["name"], "table_name");
    assert!(api.components.as_ref().unwrap().schemas.is_empty());
}

#[test]
fn with_every_route_disabled_only_the_tag_is_added() {
    let mut api = get_default_openapi();

    let _b = CrudRouterBuilder::new::<TestServer>()
        .repository::<Repo>()
        .prefix("base/api")
        .tag("table_name")
        .schema::<Post, PrimaryKeyType>()
        .disable_list_items_route()
        .disable_get_item_route()
        .disable_delete_item_route()
        .disable_delete_all_items_route()
        .build_openapi(&mut api, bare_parts());

    assert!(api.paths.paths.is_empty());
    assert_eq!(api.tags.as_ref().unwrap().len(), 1);
    assert_eq!(api.tags.as_ref().unwrap()[0].name, "table_name");
    assert!(api.components.as_ref().unwrap().schemas.is_empty());
}

#[test]
fn a_documented_path_replaces_what_the_document_held_under_it() {
    let mut api = get_default_openapi();
    api.paths.add_path_operation(
        "/base/api",
        vec![HttpMethod::Patch, HttpMethod::Get],
        OperationBuilder::new().description(Some("old")),
    );
    api.paths.add_path_operation(
        "/other",
        vec![HttpMethod::Get],
        OperationBuilder::new().description(Some("kept")),
    );
    api.paths.paths.get_mut("/base/api").unwrap().summary = Some(String::from("old summary"));
    api.paths.paths.get_mut("/other").unwrap().summary = Some(String::from("kept summary"));
    let other_before = api.paths.paths.get("/other").unwrap().clone();

    let _b = CrudRouterBuilder::new::<TestServer>()
        .repository::<Repo>()
        .prefix("base/api")
        .tag("table_name")
        .schema::<Post, PrimaryKeyType>()
        .disable_delete_all_items_route()
        .build_openapi(&mut api, bare_parts());

    let json = json_of(&api);
    assert_eq!(
        keys(&json["paths"]),
        vec![String::from("/base/api"), String::from("/base/api/{id}"), String::from("/other")]
    );
    assert_eq!(keys(&json["paths"]["/base/api"]), vec![String::from("get")]);
    check_list(&json["paths"]["/base/api"]["get"]);
    assert_eq!(keys(&json["paths"]["/other"]), vec![String::from("get"), String::from("summary")]);
    assert_eq!(json["paths"]["/other"]["get"]["description"], "kept");
    assert!(api.paths.paths.get("/base/api").unwrap().summary.is_none());
    assert!(*api.paths.paths.get("/other").unwrap() == other_before);
}

#[test]
fn tags_and_schemas_of_the_document_are_kept() {
    let mut api = get_default_openapi();
    api.tags = Some(vec![Tag::new("first")]);
    let mut components = Components::new();
    components.schemas.insert(String::from("Author"), text_field().into());
    components.schemas.insert(String::from("Post"), text_field().into());
    api.components = Some(components);

    let _b = CrudRouterBuilder::new::<TestServer>()
        .repository::<Repo>()
        .prefix("base/api")
        .tag("table_name")
        .schema::<Post, PrimaryKeyType>()
        .build_openapi(&mut api, bare_parts());

    let json = json_of(&api);
    assert_eq!(json["tags"].as_array().unwrap().len(), 2);
    assert_eq!(json["tags"][0]["name"], "first");
    assert_eq!(json["tags"][1]["name"], "table_name");
    assert_eq!(keys(&json["components"]["schemas"]), vec![String::from("Author"), String::from("Post")]);
    assert_eq!(json["components"]["schemas"]["Author"]["type"], "string");
    assert_eq!(json["components"]["schemas"]["Post"], serde_json::to_value(post_doc().schema).unwrap());
}

#[test]
fn schemas_of_the_parts_of_a_type_are_filed_too() {
    let mut api = get_default_openapi();
    let mut parts = bare_parts();
    parts.schema.nested.push((String::from("Author"), text_field().into()));
    parts.schema.nested.push((String::from("Comment"), ObjectBuilder::new().schema_type(Type::Boolean).into()));

    let _b = CrudRouterBuilder::new::<TestServer>()
        .repository::<Repo>()
        .schema::<Post, PrimaryKeyType>()
        .disable_get_item_route()
        .build_openapi(&mut api, parts);

    let json = json_of(&api);
    assert_eq!(
        keys(&json["components"]["schemas"]),
        vec![String::from("Author"), String::from("Comment"), String::from("Post")]
    );
    assert_eq!(json["components"]["schemas"]["Author"]["type"], "string");
    assert_eq!(json["components"]["schemas"]["Comment"]["type"], "boolean");
}

#[test]
fn a_route_with_a_request_body_is_documented_only_with_its_schema() {
    let all = EnabledRoutes {
        list_items: true,
        create_item: true,
        delete_all_items: true,
        get_item: true,
        update_item: true,
        delete_item: true,
    };
    let mut api = get_default_openapi();
    document_routes(
        &mut api,
        all,
        "blog",
        "posts",
        "/posts",
        "/posts/{id}",
        post_doc(),
        None,
        Some(post_form_doc()),
        pagination_parameters(),
        utoipa::Number::Float(0.0),
    );

    let json = json_of(&api);
    assert_eq!(keys(&json["paths"]["/posts"]), vec![String::from("delete"), String::from("get")]);
    assert_eq!(
        keys(&json["paths"]["/posts/{id}"]),
        vec![String::from("delete"), String::from("get"), String::from("put")]
    );
    assert_eq!(json["paths"]["/posts"]["get"]["operationId"], "list_all_posts");
    assert_eq!(json["paths"]["/posts"]["get"]["tags"][0], "blog");
    assert_eq!(json["paths"]["/posts/{id}"]["put"]["parameters"][0]["description"], "posts id");
    assert_eq!(json["tags"][0]["name"], "blog");
    assert_eq!(
        keys(&json["components"]["schemas"]),
        vec![String::from("Post"), String::from("PostForm")]
    );
}

#[test]
fn operations_under_one_path_share_its_item() {
    let only_collection = EnabledRoutes {
        list_items: true,
        create_item: true,
        delete_all_items: true,
        get_item: false,
        update_item: false,
        delete_item: false,
    };
    let mut api = get_default_openapi();
    document_routes(
        &mut api,
        only_collection,
        "blog",
        "posts",
        "/posts",
        "/posts/{id}",
        post_doc(),
        Some(new_post_doc()),
        None,
        pagination_parameters(),
        utoipa::Number::Float(0.0),
    );

    assert_eq!(api.paths.paths.len(), 1);
    let item: &PathItem = api.paths.paths.get("/posts").unwrap();
    assert!(item.get.is_some());
    assert!(item.post.is_some());
    assert!(item.delete.is_some());
    assert!(item.put.is_none());
    assert!(item.patch.is_none());
}

#[test]
fn the_rest_of_the_document_stays() {
    let mut api = get_default_openapi();
    api.servers = Some(vec![utoipa::openapi::Server::new("/v1")]);
    api.external_docs = Some(utoipa::openapi::external_docs::ExternalDocs::new("https://example.org"));
    api.security = Some(vec![utoipa::openapi::security::SecurityRequirement::default()]);
    let before = api.clone();

    let _b = CrudRouterBuilder::new::<TestServer>()
        .repository::<Repo>()
        .prefix("base/api")
        .tag("table_name")
        .schema::<Post, PrimaryKeyType>()
        .create_schema::<NewPost>()
        .update_schema::<PostForm>()
        .build_openapi(&mut api, full_parts());

    assert!(api.info == before.info);
    assert!(api.servers == before.servers);
    assert!(api.external_docs == before.external_docs);
    assert!(api.security == before.security);
    assert!(api.openapi == before.openapi);
    assert!(api.paths != before.paths);
}

#[test]
fn tags_of_the_document_keep_what_they_hold() {
    let mut api = get_default_openapi();
    let mut first = Tag::new("first");
    first.description = Some(String::from("what came first"));
    api.tags = Some(vec![first.clone()]);

    let _b = CrudRouterBuilder::new::<TestServer>()
        .repository::<Repo>()
        .schema::<Post, PrimaryKeyType>()
        .build_openapi(&mut api, bare_parts());

    let tags = api.tags.as_ref().unwrap();
    assert_eq!(tags.len(), 2);
    assert!(tags[0] == first);
    assert!(tags[1] == Tag::new("test_table_name"));
}

#[test]
fn components_are_begun_where_the_document_had_none() {
    let mut api = get_default_openapi();
    assert!(api.components.is_none());

    let _b = CrudRouterBuilder::new::<TestServer>()
        .repository::<Repo>()
        .schema::<Post, PrimaryKeyType>()
        .disable_list_items_route()
        .disable_get_item_route()
        .build_openapi(&mut api, bare_parts());

    assert!(api.components.is_some());
    assert!(api.components.as_ref().unwrap().schemas.is_empty());
    assert_eq!(api.paths.paths.len(), 2);
}

#[test]
fn a_name_filed_twice_holds_what_was_filed_last() {
    let mut api = get_default_openapi();
    let mut parts = full_parts();
    // The rows' own schema is filed before the schemas of their parts.
    parts.schema.nested.push((String::from("Post"), text_field().into()));

    let _b = CrudRouterBuilder::new::<TestServer>()
        .repository::<Repo>()
        .schema::<Post, PrimaryKeyType>()
        .create_schema::<NewPost>()
        .update_schema::<PostForm>()
        .build_openapi(&mut api, parts);

    let json = json_of(&api);
    assert_eq!(json["components"]["schemas"]["Post"]["type"], "string");
    assert_eq!(
        json["components"]["schemas"]["NewPost"],
        serde_json::to_value(new_post_doc().schema).unwrap()
    );
}

#[test]
fn every_operation_carries_the_one_tag_and_its_own_id() {
    let mut api = get_default_openapi();

    let _b = CrudRouterBuilder::new::<TestServer>()
        .repository::<Repo>()
        .prefix("base/api")
        .schema::<Post, PrimaryKeyType>()
        .create_schema::<NewPost>()
        .update_schema::<PostForm>()
        .build_openapi(&mut api, full_parts());

    let json = json_of(&api);
    let expected = vec![
        ("/base/api", "get", "list_all_test_table_name"),
        ("/base/api", "post", "create_test_table_name"),
        ("/base/api", "delete", "delete_all_test_table_name"),
        ("/base/api/{id}", "get", "get_test_table_name"),
        ("/base/api/{id}", "put", "update_test_table_name"),
        ("/base/api/{id}", "delete", "delete_test_table_name"),
    ];
    for (path, method, id) in expected {
        let operation = &json["paths"][path][method];
        assert_eq!(operation["operationId"], id);
        assert_eq!(operation["tags"].as_array().unwrap().len(), 1);
        assert_eq!(operation["tags"][0], "test_table_name");
        assert_eq!(keys(&operation["responses"]), vec![String::from("200")]);
    }
    assert_eq!(json["tags"][0]["name"], "test_table_name");
}
