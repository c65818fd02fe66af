//! Typestate builder for CRUD HTTP routes over a repository.
//!
//! A [`CrudRouterBuilder`] collects what a resource's routes need: the web
//! framework, the repository, the type of the rows and of their key, and
//! the types that create and update requests carry. Its terminal
//! operations give the routes to register and add their description to an
//! OpenAPI document.

pub mod builder;
pub mod markers;
pub mod openapi;
pub mod pagination;
pub mod repositories;
pub mod routes;
pub mod servers;
pub mod serving;

pub use builder::{CrudRouterBuilder, Settings};
pub use markers::{Assignable, Assigned, Empty};
pub use openapi::fragment::{document_routes, OpenApiParts, SchemaDoc, SlotDoc};
pub use pagination::{Pagination, RowWindow};
pub use repositories::{CRUDRepository, CreateRepository, ReadDeleteRepository, UpdateRepository};
pub use routes::{route_table, EnabledRoutes, HttpMethod, Route, RouteKind};
pub use servers::{ActixServer, ApiServer, AxumServer};
