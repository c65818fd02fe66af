//! Capability traits that a storage backend implements.

use vstd::prelude::*;

verus! {

/// Marks a type as a storage backend.
pub trait CRUDRepository {}

/// Reading and deleting rows of `RowSchema`, found by `PrimaryKeyType`; every
/// backend offers this.
pub trait ReadDeleteRepository<RowSchema, PrimaryKeyType>: CRUDRepository {
    /// The name that `get_table_name` gives. An implementation in verified
    /// code says what it is; of any other it is whatever the method
    /// returns, which is taken to be the same at every call.
    open spec fn table_name() -> Seq<char> {
        arbitrary()
    }

    /// The name of the table that holds the rows.
    fn get_table_name() -> (name: String)
        ensures
            name@ == Self::table_name(),
    ;
}

/// Inserting a row described by `CreateSchema`.
pub trait CreateRepository<RowSchema, CreateSchema>: CRUDRepository {}

/// Changing the row found by `PrimaryKeyType` as `UpdateSchema` describes.
pub trait UpdateRepository<RowSchema, PrimaryKeyType, UpdateSchema>: CRUDRepository {}

} // verus!
