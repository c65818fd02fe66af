//! The builder that collects, step by step, what a resource's routes need.
//!
//! Each slot of the builder's type is a marker: `Empty` while the slot is
//! open, `Assigned<T>` once `T` has been supplied. A method exists only on
//! the builders whose markers allow it, so a misuse does not compile.

use vstd::prelude::*;
use std::marker::PhantomData;
use crate::markers::{lemma_assigned_is_assigned, Assignable, Assigned, Empty};
use crate::repositories::{CRUDRepository, ReadDeleteRepository};
use crate::routes::EnabledRoutes;
use crate::servers::ApiServer;

verus! {

/// What a builder holds, apart from its type.
pub struct Settings {
    pub prefix: Option<Seq<char>>,
    pub tag: Option<Seq<char>>,
    pub list_items_route_disabled: bool,
    pub get_item_route_disabled: bool,
    pub delete_item_route_disabled: bool,
    pub delete_all_items_route_disabled: bool,
    pub create_item_route_disabled: bool,
    pub update_item_route_disabled: bool,
}

/// The settings of a builder that nothing has been done to yet.
pub open spec fn initial_settings() -> Settings {
    Settings {
        prefix: None,
        tag: None,
        list_items_route_disabled: false,
        get_item_route_disabled: false,
        delete_item_route_disabled: false,
        delete_all_items_route_disabled: false,
        create_item_route_disabled: false,
        update_item_route_disabled: false,
    }
}

/// The prefix that the routes are served under: the one that was set, or
/// else the table's name.
pub open spec fn effective_prefix(prefix: Option<Seq<char>>, table_name: Seq<char>) -> Seq<char> {
    match prefix {
        Some(p) => p,
        None => table_name,
    }
}

/// The tag that the routes are documented under: the one that was set, or
/// else the table's name.
pub open spec fn effective_tag(tag: Option<Seq<char>>, table_name: Seq<char>) -> Seq<char> {
    match tag {
        Some(t) => t,
        None => table_name,
    }
}

/// The operations that a builder with the given settings serves: one that
/// takes a request body needs its schema, and none is served once it has
/// been switched off.
pub open spec fn enabled_by(settings: Settings, create_schema: bool, update_schema: bool) -> EnabledRoutes {
    EnabledRoutes {
        list_items: !settings.list_items_route_disabled,
        create_item: create_schema && !settings.create_item_route_disabled,
        delete_all_items: !settings.delete_all_items_route_disabled,
        get_item: !settings.get_item_route_disabled,
        update_item: update_schema && !settings.update_item_route_disabled,
        delete_item: !settings.delete_item_route_disabled,
    }
}

/// A builder that nothing has been switched off in serves the four routes
/// that read and delete, and the creating and the updating route exactly
/// where their schema has been named.
pub proof fn lemma_fresh_builder_serves_what_schemas_allow(create_schema: bool, update_schema: bool)
    ensures
        enabled_by(initial_settings(), create_schema, update_schema) == (EnabledRoutes {
            list_items: true,
            create_item: create_schema,
            delete_all_items: true,
            get_item: true,
            update_item: update_schema,
            delete_item: true,
        }),
{
}

/// A route that takes a request body is never served without its schema,
/// whatever the settings.
pub proof fn lemma_request_routes_need_schemas(settings: Settings, create_schema: bool, update_schema: bool)
    ensures
        enabled_by(settings, create_schema, update_schema).create_item ==> create_schema,
        enabled_by(settings, create_schema, update_schema).update_item ==> update_schema,
{
}

/// Switching a route off takes that route away and leaves the others as
/// they were; neither prefix nor tag has any part in what is served.
pub proof fn lemma_switch_takes_one_route_away(settings: Settings, create_schema: bool, update_schema: bool)
    ensures
        enabled_by(Settings { list_items_route_disabled: true, ..settings }, create_schema, update_schema)
            == (EnabledRoutes { list_items: false, ..enabled_by(settings, create_schema, update_schema) }),
        enabled_by(Settings { get_item_route_disabled: true, ..settings }, create_schema, update_schema)
            == (EnabledRoutes { get_item: false, ..enabled_by(settings, create_schema, update_schema) }),
        enabled_by(Settings { delete_item_route_disabled: true, ..settings }, create_schema, update_schema)
            == (EnabledRoutes { delete_item: false, ..enabled_by(settings, create_schema, update_schema) }),
        enabled_by(
            Settings { delete_all_items_route_disabled: true, ..settings },
            create_schema,
            update_schema,
        ) == (EnabledRoutes {
            delete_all_items: false,
            ..enabled_by(settings, create_schema, update_schema)
        }),
        enabled_by(Settings { create_item_route_disabled: true, ..settings }, create_schema, update_schema)
            == (EnabledRoutes { create_item: false, ..enabled_by(settings, create_schema, update_schema) }),
        enabled_by(Settings { update_item_route_disabled: true, ..settings }, create_schema, update_schema)
            == (EnabledRoutes { update_item: false, ..enabled_by(settings, create_schema, update_schema) }),
        forall|prefix: Option<Seq<char>>, tag: Option<Seq<char>>|
            #[trigger] enabled_by(Settings { prefix, tag, ..settings }, create_schema, update_schema)
                == enabled_by(settings, create_schema, update_schema),
{
}

/// Whether every switch that is set belongs to a filled slot: a route that
/// reads or deletes can be switched off only once the rows' type is named,
/// the creating and the updating route only once their schema is.
pub open spec fn switches_have_slots(
    settings: Settings,
    schema: bool,
    create_schema: bool,
    update_schema: bool,
) -> bool {
    &&& settings.list_items_route_disabled ==> schema
    &&& settings.get_item_route_disabled ==> schema
    &&& settings.delete_item_route_disabled ==> schema
    &&& settings.delete_all_items_route_disabled ==> schema
    &&& settings.create_item_route_disabled ==> create_schema
    &&& settings.update_item_route_disabled ==> update_schema
}

/// Collects the choices for one resource's routes.
///
/// No switch is ever set on a builder whose slot for it is open.
pub struct CrudRouterBuilder<
    'a,
    Server: Assignable,
    Repo,
    RowSchema: Assignable,
    PrimaryKeyType: Assignable,
    CreateSchema: Assignable,
    UpdateSchema: Assignable,
> {
    prefix: Option<&'a str>,
    tag: Option<&'a str>,
    list_items_route_disabled: bool,
    get_item_route_disabled: bool,
    delete_item_route_disabled: bool,
    delete_all_items_route_disabled: bool,
    create_item_route_disabled: bool,
    update_item_route_disabled: bool,
    _marker: PhantomData<(Server, Repo, RowSchema, PrimaryKeyType, CreateSchema, UpdateSchema)>,
}

impl<
    'a,
    Server: Assignable,
    Repo,
    RowSchema: Assignable,
    PrimaryKeyType: Assignable,
    CreateSchema: Assignable,
    UpdateSchema: Assignable,
> View for CrudRouterBuilder<'a, Server, Repo, RowSchema, PrimaryKeyType, CreateSchema, UpdateSchema> {
    type V = Settings;

    closed spec fn view(&self) -> Settings {
        Settings {
            prefix: match self.prefix {
                Some(p) => Some(p@),
                None => None,
            },
            tag: match self.tag {
                Some(t) => Some(t@),
                None => None,
            },
            list_items_route_disabled: self.list_items_route_disabled,
            get_item_route_disabled: self.get_item_route_disabled,
            delete_item_route_disabled: self.delete_item_route_disabled,
            delete_all_items_route_disabled: self.delete_all_items_route_disabled,
            create_item_route_disabled: self.create_item_route_disabled,
            update_item_route_disabled: self.update_item_route_disabled,
        }
    }
}

impl<
    'a,
    Server: Assignable,
    Repo,
    RowSchema: Assignable,
    PrimaryKeyType: Assignable,
    CreateSchema: Assignable,
    UpdateSchema: Assignable,
> CrudRouterBuilder<'a, Server, Repo, RowSchema, PrimaryKeyType, CreateSchema, UpdateSchema> {
    #[verifier::type_invariant]
    closed spec fn allowed(&self) -> bool {
        switches_have_slots(
            self@,
            RowSchema::IS_ASSIGNED,
            CreateSchema::IS_ASSIGNED,
            UpdateSchema::IS_ASSIGNED,
        )
    }

    /// The same settings under other markers, none of which opens a slot
    /// that was filled.
    fn retyped<S2: Assignable, R2, M2: Assignable, K2: Assignable, C2: Assignable, U2: Assignable>(
        self,
    ) -> (b: CrudRouterBuilder<'a, S2, R2, M2, K2, C2, U2>)
        requires
            RowSchema::IS_ASSIGNED ==> M2::IS_ASSIGNED,
            CreateSchema::IS_ASSIGNED ==> C2::IS_ASSIGNED,
            UpdateSchema::IS_ASSIGNED ==> U2::IS_ASSIGNED,
        ensures
            b@ == self@,
    {
        proof {
            use_type_invariant(&self);
        }
        CrudRouterBuilder {
            prefix: self.prefix,
            tag: self.tag,
            list_items_route_disabled: self.list_items_route_disabled,
            get_item_route_disabled: self.get_item_route_disabled,
            delete_item_route_disabled: self.delete_item_route_disabled,
            delete_all_items_route_disabled: self.delete_all_items_route_disabled,
            create_item_route_disabled: self.create_item_route_disabled,
            update_item_route_disabled: self.update_item_route_disabled,
            _marker: PhantomData,
        }
    }

    /// The prefix that the routes are served under when the table is called
    /// `table_name`: the one that was set, or else `table_name`.
    pub fn prefix_or(&self, table_name: String) -> (prefix: String)
        ensures
            prefix@ == effective_prefix(self@.prefix, table_name@),
    {
        match self.prefix {
            Some(prefix) => String::from_str(prefix),
            None => table_name,
        }
    }

    /// The tag that the routes are documented under when the table is
    /// called `table_name`: the one that was set, or else `table_name`.
    pub fn tag_or(&self, table_name: &str) -> (tag: String)
        ensures
            tag@ == effective_tag(self@.tag, table_name@),
    {
        match self.tag {
            Some(tag) => String::from_str(tag),
            None => String::from_str(table_name),
        }
    }

    /// The operations that this builder serves. Every switch that is set
    /// belongs to a filled slot.
    pub fn enabled_routes(&self) -> (enabled: EnabledRoutes)
        ensures
            enabled == enabled_by(self@, CreateSchema::IS_ASSIGNED, UpdateSchema::IS_ASSIGNED),
            switches_have_slots(
                self@,
                RowSchema::IS_ASSIGNED,
                CreateSchema::IS_ASSIGNED,
                UpdateSchema::IS_ASSIGNED,
            ),
    {
        proof {
            use_type_invariant(self);
        }
        EnabledRoutes {
            list_items: !self.list_items_route_disabled,
            create_item: CreateSchema::IS_ASSIGNED && !self.create_item_route_disabled,
            delete_all_items: !self.delete_all_items_route_disabled,
            get_item: !self.get_item_route_disabled,
            update_item: UpdateSchema::IS_ASSIGNED && !self.update_item_route_disabled,
            delete_item: !self.delete_item_route_disabled,
        }
    }

    /// Whether the route that lists the items has been switched off.
    pub fn list_items_route_disabled(&self) -> (b: bool)
        ensures
            b == self@.list_items_route_disabled,
    {
        self.list_items_route_disabled
    }

    /// Whether the route that fetches one item has been switched off.
    pub fn get_item_route_disabled(&self) -> (b: bool)
        ensures
            b == self@.get_item_route_disabled,
    {
        self.get_item_route_disabled
    }

    /// Whether the route that deletes one item has been switched off.
    pub fn delete_item_route_disabled(&self) -> (b: bool)
        ensures
            b == self@.delete_item_route_disabled,
    {
        self.delete_item_route_disabled
    }

    /// Whether the route that deletes every item has been switched off.
    pub fn delete_all_items_route_disabled(&self) -> (b: bool)
        ensures
            b == self@.delete_all_items_route_disabled,
    {
        self.delete_all_items_route_disabled
    }

    /// Whether the route that creates an item has been switched off.
    pub fn create_item_route_disabled(&self) -> (b: bool)
        ensures
            b == self@.create_item_route_disabled,
    {
        self.create_item_route_disabled
    }

    /// Whether the route that updates an item has been switched off.
    pub fn update_item_route_disabled(&self) -> (b: bool)
        ensures
            b == self@.update_item_route_disabled,
    {
        self.update_item_route_disabled
    }
}

impl<'a, Repo> CrudRouterBuilder<'a, Empty, Repo, Empty, Empty, Empty, Empty> {
    /// A builder for the given framework, with every route enabled and
    /// neither prefix nor tag set.
    pub fn new<Server: ApiServer>() -> (b: CrudRouterBuilder<
        'a,
        Assigned<Server>,
        Repo,
        Empty,
        Empty,
        Empty,
        Empty,
    >)
        ensures
            b@ == initial_settings(),
    {
        CrudRouterBuilder {
            prefix: None,
            tag: None,
            list_items_route_disabled: false,
            get_item_route_disabled: false,
            delete_item_route_disabled: false,
            delete_all_items_route_disabled: false,
            create_item_route_disabled: false,
            update_item_route_disabled: false,
            _marker: PhantomData,
        }
    }
}

impl<
    'a,
    Server,
    Repo,
    RowSchema: Assignable,
    PrimaryKeyType: Assignable,
    CreateSchema: Assignable,
    UpdateSchema: Assignable,
> CrudRouterBuilder<'a, Assigned<Server>, Repo, RowSchema, PrimaryKeyType, CreateSchema, UpdateSchema> {
    /// Sets the prefix that the routes are served under.
    pub fn prefix(self, prefix: &'a str) -> (b: Self)
        ensures
            b@ == (Settings { prefix: Some(prefix@), ..self@ }),
    {
        proof {
            use_type_invariant(&self);
        }
        CrudRouterBuilder {
            prefix: Some(prefix),
            tag: self.tag,
            list_items_route_disabled: self.list_items_route_disabled,
            get_item_route_disabled: self.get_item_route_disabled,
            delete_item_route_disabled: self.delete_item_route_disabled,
            delete_all_items_route_disabled: self.delete_all_items_route_disabled,
            create_item_route_disabled: self.create_item_route_disabled,
            update_item_route_disabled: self.update_item_route_disabled,
            _marker: PhantomData,
        }
    }

    /// Sets the tag under which the routes are documented.
    pub fn tag(self, tag: &'a str) -> (b: Self)
        ensures
            b@ == (Settings { tag: Some(tag@), ..self@ }),
    {
        proof {
            use_type_invariant(&self);
        }
        CrudRouterBuilder {
            prefix: self.prefix,
            tag: Some(tag),
            list_items_route_disabled: self.list_items_route_disabled,
            get_item_route_disabled: self.get_item_route_disabled,
            delete_item_route_disabled: self.delete_item_route_disabled,
            delete_all_items_route_disabled: self.delete_all_items_route_disabled,
            create_item_route_disabled: self.create_item_route_disabled,
            update_item_route_disabled: self.update_item_route_disabled,
            _marker: PhantomData,
        }
    }
}

impl<'a, Server, RowSchema: Assignable, PrimaryKeyType: Assignable> CrudRouterBuilder<
    'a,
    Assigned<Server>,
    Empty,
    RowSchema,
    PrimaryKeyType,
    Empty,
    Empty,
> {
    /// Names the repository that the routes work on.
    pub fn repository<Repo: CRUDRepository>(self) -> (b: CrudRouterBuilder<
        'a,
        Assigned<Server>,
        Repo,
        RowSchema,
        PrimaryKeyType,
        Empty,
        Empty,
    >)
        ensures
            b@ == self@,
    {
        self.retyped()
    }
}

impl<'a, Server, Repo> CrudRouterBuilder<'a, Assigned<Server>, Repo, Empty, Empty, Empty, Empty> {
    /// Names the type of the rows and the type of their key.
    pub fn schema<RowSchema, PrimaryKeyType>(self) -> (b: CrudRouterBuilder<
        'a,
        Assigned<Server>,
        Repo,
        Assigned<RowSchema>,
        Assigned<PrimaryKeyType>,
        Empty,
        Empty,
    >)
        ensures
            b@ == self@,
    {
        proof {
            lemma_assigned_is_assigned::<RowSchema>();
        }
        self.retyped()
    }
}

impl<'a, Server, Repo, RowSchema, PrimaryKeyType, UpdateSchema: Assignable> CrudRouterBuilder<
    'a,
    Assigned<Server>,
    Repo,
    Assigned<RowSchema>,
    Assigned<PrimaryKeyType>,
    Empty,
    UpdateSchema,
> {
    /// Names the type that a request to create an item carries.
    pub fn create_schema<CreateSchema>(self) -> (b: CrudRouterBuilder<
        'a,
        Assigned<Server>,
        Repo,
        Assigned<RowSchema>,
        Assigned<PrimaryKeyType>,
        Assigned<CreateSchema>,
        UpdateSchema,
    >)
        ensures
            b@ == self@,
    {
        proof {
            lemma_assigned_is_assigned::<CreateSchema>();
        }
        self.retyped()
    }
}

impl<
    Server: Assignable,
    Repo: ReadDeleteRepository<RowSchema, PrimaryKeyType>,
    RowSchema,
    PrimaryKeyType,
    CreateSchema: Assignable,
    UpdateSchema: Assignable,
> CrudRouterBuilder<
    '_,
    Server,
    Repo,
    Assigned<RowSchema>,
    Assigned<PrimaryKeyType>,
    CreateSchema,
    UpdateSchema,
> {
    /// The prefix that the routes are served under: the one that was set,
    /// or else the repository's table name.
    pub fn get_prefix(&self) -> (prefix: String)
        ensures
            prefix@ == effective_prefix(self@.prefix, Repo::table_name()),
    {
        match self.prefix {
            Some(prefix) => String::from_str(prefix),
            None => Repo::get_table_name(),
        }
    }
}

impl<'a, Server, Repo, RowSchema, PrimaryKeyType, CreateSchema: Assignable> CrudRouterBuilder<
    'a,
    Assigned<Server>,
    Repo,
    Assigned<RowSchema>,
    Assigned<PrimaryKeyType>,
    CreateSchema,
    Empty,
> {
    /// Names the type that a request to update an item carries.
    pub fn update_schema<UpdateSchema>(self) -> (b: CrudRouterBuilder<
        'a,
        Assigned<Server>,
        Repo,
        Assigned<RowSchema>,
        Assigned<PrimaryKeyType>,
        CreateSchema,
        Assigned<UpdateSchema>,
    >)
        ensures
            b@ == self@,
    {
        proof {
            lemma_assigned_is_assigned::<UpdateSchema>();
        }
        self.retyped()
    }
}

impl<
    Server,
    Repo,
    RowSchema,
    PrimaryKeyType,
    CreateSchema: Assignable,
    UpdateSchema: Assignable,
> CrudRouterBuilder<
    '_,
    Assigned<Server>,
    Repo,
    Assigned<RowSchema>,
    Assigned<PrimaryKeyType>,
    CreateSchema,
    UpdateSchema,
> {
    /// Switches off the route that lists the items.
    pub fn disable_list_items_route(self) -> (b: Self)
        ensures
            b@ == (Settings { list_items_route_disabled: true, ..self@ }),
    {
        proof {
            use_type_invariant(&self);
            lemma_assigned_is_assigned::<RowSchema>();
        }
        Self { list_items_route_disabled: true, ..self }
    }

    /// Switches off the route that fetches one item.
    pub fn disable_get_item_route(self) -> (b: Self)
        ensures
            b@ == (Settings { get_item_route_disabled: true, ..self@ }),
    {
        proof {
            use_type_invariant(&self);
            lemma_assigned_is_assigned::<RowSchema>();
        }
        Self { get_item_route_disabled: true, ..self }
    }

    /// Switches off the route that deletes one item.
    pub fn disable_delete_item_route(self) -> (b: Self)
        ensures
            b@ == (Settings { delete_item_route_disabled: true, ..self@ }),
    {
        proof {
            use_type_invariant(&self);
            lemma_assigned_is_assigned::<RowSchema>();
        }
        Self { delete_item_route_disabled: true, ..self }
    }

    /// Switches off the route that deletes every item.
    pub fn disable_delete_all_items_route(self) -> (b: Self)
        ensures
            b@ == (Settings { delete_all_items_route_disabled: true, ..self@ }),
    {
        proof {
            use_type_invariant(&self);
            lemma_assigned_is_assigned::<RowSchema>();
        }
        Self { delete_all_items_route_disabled: true, ..self }
    }
}

impl<Server, Repo, RowSchema, PrimaryKeyType, CreateSchema, UpdateSchema: Assignable> CrudRouterBuilder<
    '_,
    Assigned<Server>,
    Repo,
    Assigned<RowSchema>,
    Assigned<PrimaryKeyType>,
    Assigned<CreateSchema>,
    UpdateSchema,
> {
    /// Switches off the route that creates an item.
    pub fn disable_create_item_route(self) -> (b: Self)
        ensures
            b@ == (Settings { create_item_route_disabled: true, ..self@ }),
    {
        proof {
            use_type_invariant(&self);
            lemma_assigned_is_assigned::<CreateSchema>();
        }
        Self { create_item_route_disabled: true, ..self }
    }
}

impl<Server, Repo, RowSchema, PrimaryKeyType, CreateSchema: Assignable, UpdateSchema> CrudRouterBuilder<
    '_,
    Assigned<Server>,
    Repo,
    Assigned<RowSchema>,
    Assigned<PrimaryKeyType>,
    CreateSchema,
    Assigned<UpdateSchema>,
> {
    /// Switches off the route that updates an item.
    pub fn disable_update_item_route(self) -> (b: Self)
        ensures
            b@ == (Settings { update_item_route_disabled: true, ..self@ }),
    {
        proof {
            use_type_invariant(&self);
            lemma_assigned_is_assigned::<UpdateSchema>();
        }
        Self { update_item_route_disabled: true, ..self }
    }
}

} // verus!
