//! The OpenAPI description of a resource's routes.

pub mod document;
pub mod fragment;
pub mod text;

use vstd::prelude::*;
use crate::builder::{effective_prefix, effective_tag, enabled_by, CrudRouterBuilder, Settings};
use crate::markers::{Assignable, Assigned};
use crate::openapi::fragment::{
    document_routes, documents, filed_entries, resource_doc, OpenApiParts, SchemaDoc,
};
use crate::repositories::ReadDeleteRepository;
use crate::servers::{braced_id_path, collection_path, id_path_in_braces, ApiServer};

verus! {

/// What documenting a builder's resource does to a document whose table is
/// called `table_name` and whose collection is served under `path`.
///
/// The operations stand under the collection's path and under the path of
/// one item with the id written as `{id}`, whatever the framework. They
/// are worded for the table and tagged with the tag that was set, or else
/// with the table's name.
pub open spec fn documents_resource(
    before: utoipa::openapi::OpenApi,
    after: utoipa::openapi::OpenApi,
    settings: Settings,
    create_assigned: bool,
    update_assigned: bool,
    table_name: Seq<char>,
    schema: SchemaDoc,
    create_schema: Option<SchemaDoc>,
    update_schema: Option<SchemaDoc>,
    pagination_parameters: Seq<utoipa::openapi::path::Parameter>,
    count_minimum: utoipa::Number,
) -> bool {
    documents(
        before,
        after,
        enabled_by(settings, create_assigned, update_assigned),
        collection_path(effective_prefix(settings.prefix, table_name)),
        braced_id_path(effective_prefix(settings.prefix, table_name)),
        resource_doc(
            effective_tag(settings.tag, table_name),
            table_name,
            schema,
            create_schema,
            update_schema,
            pagination_parameters,
            count_minimum,
        ),
        filed_entries(
            enabled_by(settings, create_assigned, update_assigned),
            schema,
            create_schema,
            update_schema,
        ),
    )
}

impl<
    Server: ApiServer,
    Repo: ReadDeleteRepository<RowSchema, PrimaryKeyType>,
    RowSchema,
    PrimaryKeyType,
    CreateSchema: Assignable,
    UpdateSchema: Assignable,
> CrudRouterBuilder<
    '_,
    Assigned<Server>,
    Repo,
    Assigned<RowSchema>,
    Assigned<PrimaryKeyType>,
    CreateSchema,
    UpdateSchema,
> {
    /// Adds the documentation of the builder's routes to `openapi` and
    /// hands the builder back unchanged.
    ///
    /// The routes are documented under the tag and the prefix that were
    /// set; for one that was not set, the repository's table name stands
    /// in. The operations are worded for the table, whatever tag and
    /// prefix were set.
    pub fn build_openapi(
        self,
        openapi: &mut utoipa::openapi::OpenApi,
        parts: OpenApiParts<CreateSchema, UpdateSchema>,
    ) -> (b: Self)
        ensures
            b@ == self@,
            documents_resource(
                *old(openapi),
                *final(openapi),
                self@,
                CreateSchema::IS_ASSIGNED,
                UpdateSchema::IS_ASSIGNED,
                Repo::table_name(),
                parts.schema,
                parts.create_schema.doc(),
                parts.update_schema.doc(),
                parts.pagination_parameters@,
                parts.count_minimum,
            ),
            parts.create_schema.doc() is Some <==> CreateSchema::IS_ASSIGNED,
            parts.update_schema.doc() is Some <==> UpdateSchema::IS_ASSIGNED,
    {
        let table_name = Repo::get_table_name();
        let tag = self.tag_or(table_name.as_str());
        let prefix = self.get_prefix();
        let path = Server::get_path(prefix.as_str());
        let id_path = id_path_in_braces(prefix.as_str());
        let OpenApiParts { schema, create_schema, update_schema, pagination_parameters, count_minimum } =
            parts;
        let create_doc = create_schema.into_doc();
        let update_doc = update_schema.into_doc();
        document_routes(
            openapi,
            self.enabled_routes(),
            tag.as_str(),
            table_name.as_str(),
            path.as_str(),
            id_path.as_str(),
            schema,
            create_doc,
            update_doc,
            pagination_parameters,
            count_minimum,
        );
        self
    }
}

} // verus!
