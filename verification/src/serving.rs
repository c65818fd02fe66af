//! The terminal operation of the builder: the routes to register with a
//! framework.
//!
//! It exists only where the repository can do what the routes ask of it: a
//! builder with a create schema needs a repository that creates, one with
//! an update schema a repository that updates.

use vstd::prelude::*;
use crate::builder::{effective_prefix, enabled_by, CrudRouterBuilder, Settings};
use crate::markers::{
    lemma_assigned_is_assigned, lemma_empty_is_unassigned, Assignable, Assigned, Empty,
};
use crate::repositories::{CreateRepository, ReadDeleteRepository, UpdateRepository};
use crate::routes::{route_table, route_views, served_routes, Route, RouteSpec};
use crate::servers::{
    braced_id_path, collection_path, colon_id_path, ActixServer, ApiServer, AxumServer,
};

verus! {

/// The routes that axum serves under `prefix` for the given settings.
pub open spec fn axum_routes(
    settings: Settings,
    create_schema: bool,
    update_schema: bool,
    prefix: Seq<char>,
) -> Seq<RouteSpec> {
    served_routes(
        enabled_by(settings, create_schema, update_schema),
        collection_path(prefix),
        colon_id_path(prefix),
    )
}

/// The routes that actix-web serves under `prefix` for the given settings.
pub open spec fn actix_routes(
    settings: Settings,
    create_schema: bool,
    update_schema: bool,
    prefix: Seq<char>,
) -> Seq<RouteSpec> {
    served_routes(
        enabled_by(settings, create_schema, update_schema),
        collection_path(prefix),
        braced_id_path(prefix),
    )
}

impl<
    Server: ApiServer,
    R: ReadDeleteRepository<RowSchema, PrimaryKeyType>,
    RowSchema,
    PrimaryKeyType,
    CreateSchema: Assignable,
    UpdateSchema: Assignable,
> CrudRouterBuilder<
    '_,
    Assigned<Server>,
    R,
    Assigned<RowSchema>,
    Assigned<PrimaryKeyType>,
    CreateSchema,
    UpdateSchema,
> {
    /// The routes that the framework serves for this builder, under the
    /// prefix that was set or else under the repository's table name.
    fn routes(&self) -> (routes: Vec<Route>)
        ensures
            route_views(routes@) == served_routes(
                enabled_by(self@, CreateSchema::IS_ASSIGNED, UpdateSchema::IS_ASSIGNED),
                collection_path(effective_prefix(self@.prefix, R::table_name())),
                Server::id_path(effective_prefix(self@.prefix, R::table_name())),
            ),
    {
        let prefix = self.get_prefix();
        let path = Server::get_path(prefix.as_str());
        let id_path = Server::get_id_path(prefix.as_str());
        route_table(self.enabled_routes(), path.as_str(), id_path.as_str())
    }
}

impl<R, RowSchema, PrimaryKeyType, CreateSchema, UpdateSchema> CrudRouterBuilder<
    '_,
    Assigned<AxumServer>,
    R,
    Assigned<RowSchema>,
    Assigned<PrimaryKeyType>,
    Assigned<CreateSchema>,
    Assigned<UpdateSchema>,
>
where
    R: ReadDeleteRepository<RowSchema, PrimaryKeyType>
        + CreateRepository<RowSchema, CreateSchema>
        + UpdateRepository<RowSchema, PrimaryKeyType, UpdateSchema>,
{
    /// The routes to register: every operation that has not been switched off.
    /// They are served under the prefix that was set, or else under the
    /// repository's table name.
    pub fn build_routes(self) -> (routes: Vec<Route>)
        ensures
            route_views(routes@) == axum_routes(
                self@,
                true,
                true,
                effective_prefix(self@.prefix, R::table_name()),
            ),
    {
        proof {
            lemma_assigned_is_assigned::<CreateSchema>();
            lemma_assigned_is_assigned::<UpdateSchema>();
        }
        self.routes()
    }
}

impl<R, RowSchema, PrimaryKeyType, CreateSchema> CrudRouterBuilder<
    '_,
    Assigned<AxumServer>,
    R,
    Assigned<RowSchema>,
    Assigned<PrimaryKeyType>,
    Assigned<CreateSchema>,
    Empty,
>
where
    R: ReadDeleteRepository<RowSchema, PrimaryKeyType>
        + CreateRepository<RowSchema, CreateSchema>,
{
    /// The routes to register: what has not been switched off, without the update.
    /// They are served under the prefix that was set, or else under the
    /// repository's table name.
    pub fn build_routes(self) -> (routes: Vec<Route>)
        ensures
            route_views(routes@) == axum_routes(
                self@,
                true,
                false,
                effective_prefix(self@.prefix, R::table_name()),
            ),
    {
        proof {
            lemma_assigned_is_assigned::<CreateSchema>();
            lemma_empty_is_unassigned();
        }
        self.routes()
    }
}

impl<R, RowSchema, PrimaryKeyType, UpdateSchema> CrudRouterBuilder<
    '_,
    Assigned<AxumServer>,
    R,
    Assigned<RowSchema>,
    Assigned<PrimaryKeyType>,
    Empty,
    Assigned<UpdateSchema>,
>
where
    R: ReadDeleteRepository<RowSchema, PrimaryKeyType>
        + UpdateRepository<RowSchema, PrimaryKeyType, UpdateSchema>,
{
    /// The routes to register: what has not been switched off, without the create.
    /// They are served under the prefix that was set, or else under the
    /// repository's table name.
    pub fn build_routes(self) -> (routes: Vec<Route>)
        ensures
            route_views(routes@) == axum_routes(
                self@,
                false,
                true,
                effective_prefix(self@.prefix, R::table_name()),
            ),
    {
        proof {
            lemma_assigned_is_assigned::<UpdateSchema>();
            lemma_empty_is_unassigned();
        }
        self.routes()
    }
}

impl<R, RowSchema, PrimaryKeyType> CrudRouterBuilder<
    '_,
    Assigned<AxumServer>,
    R,
    Assigned<RowSchema>,
    Assigned<PrimaryKeyType>,
    Empty,
    Empty,
>
where
    R: ReadDeleteRepository<RowSchema, PrimaryKeyType>,
{
    /// The routes to register: what has not been switched off of list, get and the two deletes.
    /// They are served under the prefix that was set, or else under the
    /// repository's table name.
    pub fn build_routes(self) -> (routes: Vec<Route>)
        ensures
            route_views(routes@) == axum_routes(
                self@,
                false,
                false,
                effective_prefix(self@.prefix, R::table_name()),
            ),
    {
        proof {
            lemma_empty_is_unassigned();
        }
        self.routes()
    }
}

impl<R, RowSchema, PrimaryKeyType, CreateSchema, UpdateSchema> CrudRouterBuilder<
    '_,
    Assigned<ActixServer>,
    R,
    Assigned<RowSchema>,
    Assigned<PrimaryKeyType>,
    Assigned<CreateSchema>,
    Assigned<UpdateSchema>,
>
where
    R: ReadDeleteRepository<RowSchema, PrimaryKeyType>
        + CreateRepository<RowSchema, CreateSchema>
        + UpdateRepository<RowSchema, PrimaryKeyType, UpdateSchema>,
{
    /// The routes to register: every operation that has not been switched off.
    /// They are served under the prefix that was set, or else under the
    /// repository's table name.
    pub fn build_routes(self) -> (routes: Vec<Route>)
        ensures
            route_views(routes@) == actix_routes(
                self@,
                true,
                true,
                effective_prefix(self@.prefix, R::table_name()),
            ),
    {
        proof {
            lemma_assigned_is_assigned::<CreateSchema>();
            lemma_assigned_is_assigned::<UpdateSchema>();
        }
        self.routes()
    }
}

impl<R, RowSchema, PrimaryKeyType, CreateSchema> CrudRouterBuilder<
    '_,
    Assigned<ActixServer>,
    R,
    Assigned<RowSchema>,
    Assigned<PrimaryKeyType>,
    Assigned<CreateSchema>,
    Empty,
>
where
    R: ReadDeleteRepository<RowSchema, PrimaryKeyType>
        + CreateRepository<RowSchema, CreateSchema>,
{
    /// The routes to register: what has not been switched off, without the update.
    /// They are served under the prefix that was set, or else under the
    /// repository's table name.
    pub fn build_routes(self) -> (routes: Vec<Route>)
        ensures
            route_views(routes@) == actix_routes(
                self@,
                true,
                false,
                effective_prefix(self@.prefix, R::table_name()),
            ),
    {
        proof {
            lemma_assigned_is_assigned::<CreateSchema>();
            lemma_empty_is_unassigned();
        }
        self.routes()
    }
}

impl<R, RowSchema, PrimaryKeyType, UpdateSchema> CrudRouterBuilder<
    '_,
    Assigned<ActixServer>,
    R,
    Assigned<RowSchema>,
    Assigned<PrimaryKeyType>,
    Empty,
    Assigned<UpdateSchema>,
>
where
    R: ReadDeleteRepository<RowSchema, PrimaryKeyType>
        + UpdateRepository<RowSchema, PrimaryKeyType, UpdateSchema>,
{
    /// The routes to register: what has not been switched off, without the create.
    /// They are served under the prefix that was set, or else under the
    /// repository's table name.
    pub fn build_routes(self) -> (routes: Vec<Route>)
        ensures
            route_views(routes@) == actix_routes(
                self@,
                false,
                true,
                effective_prefix(self@.prefix, R::table_name()),
            ),
    {
        proof {
            lemma_assigned_is_assigned::<UpdateSchema>();
            lemma_empty_is_unassigned();
        }
        self.routes()
    }
}

impl<R, RowSchema, PrimaryKeyType> CrudRouterBuilder<
    '_,
    Assigned<ActixServer>,
    R,
    Assigned<RowSchema>,
    Assigned<PrimaryKeyType>,
    Empty,
    Empty,
>
where
    R: ReadDeleteRepository<RowSchema, PrimaryKeyType>,
{
    /// The routes to register: what has not been switched off of list, get and the two deletes.
    /// They are served under the prefix that was set, or else under the
    /// repository's table name.
    pub fn build_routes(self) -> (routes: Vec<Route>)
        ensures
            route_views(routes@) == actix_routes(
                self@,
                false,
                false,
                effective_prefix(self@.prefix, R::table_name()),
            ),
    {
        proof {
            lemma_empty_is_unassigned();
        }
        self.routes()
    }
}

} // verus!
