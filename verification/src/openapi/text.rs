//! The wording of the generated documentation.

use vstd::prelude::*;
use crate::routes::RouteKind;

verus! {

/// What stands before the table's name in an operation's description.
pub open spec fn description_lead(kind: RouteKind) -> Seq<char> {
    match kind {
        RouteKind::ListItems => "Lists all "@,
        RouteKind::CreateItem => "Creates "@,
        RouteKind::DeleteAllItems => "Deletes all "@,
        RouteKind::GetItem => "Gets one "@,
        RouteKind::UpdateItem => "Updates "@,
        RouteKind::DeleteItem => "Deletes one "@,
    }
}

/// What stands before the table's name in an operation's id.
pub open spec fn operation_id_lead(kind: RouteKind) -> Seq<char> {
    match kind {
        RouteKind::ListItems => "list_all_"@,
        RouteKind::CreateItem => "create_"@,
        RouteKind::DeleteAllItems => "delete_all_"@,
        RouteKind::GetItem => "get_"@,
        RouteKind::UpdateItem => "update_"@,
        RouteKind::DeleteItem => "delete_"@,
    }
}

/// What stands before the table's name in the description of an
/// operation's response.
pub open spec fn response_lead(kind: RouteKind) -> Seq<char> {
    match kind {
        RouteKind::ListItems => "All "@,
        RouteKind::DeleteAllItems => "All "@,
        RouteKind::CreateItem => "One "@,
        RouteKind::GetItem => "One "@,
        RouteKind::UpdateItem => "One "@,
        RouteKind::DeleteItem => "One "@,
    }
}

/// What stands after the table's name in the description of an operation's
/// response.
pub open spec fn response_tail(kind: RouteKind) -> Seq<char> {
    match kind {
        RouteKind::ListItems => " listed successfully"@,
        RouteKind::CreateItem => " is created successfully"@,
        RouteKind::DeleteAllItems => " deleted successfully"@,
        RouteKind::GetItem => " is fetched successfully"@,
        RouteKind::UpdateItem => " is updated successfully"@,
        RouteKind::DeleteItem => " is deleted successfully"@,
    }
}

/// The description of an operation on the table called `table_name`.
pub open spec fn description_text(kind: RouteKind, table_name: Seq<char>) -> Seq<char> {
    description_lead(kind) + table_name
}

/// The id of an operation on the table called `table_name`.
pub open spec fn operation_id_text(kind: RouteKind, table_name: Seq<char>) -> Seq<char> {
    operation_id_lead(kind) + table_name
}

/// The description of the response of an operation on the table called
/// `table_name`.
pub open spec fn response_text(kind: RouteKind, table_name: Seq<char>) -> Seq<char> {
    response_lead(kind) + table_name + response_tail(kind)
}

/// The description of the `id` path parameter for the table called
/// `table_name`.
pub open spec fn id_parameter_text(table_name: Seq<char>) -> Seq<char> {
    table_name + " id"@
}

/// `lead`, then `middle`, then `tail`.
fn joined(lead: &str, middle: &str, tail: &str) -> (text: String)
    ensures
        text@ == lead@ + middle@ + tail@,
{
    let mut text = String::from_str(lead);
    text.append(middle);
    text.append(tail);
    text
}

/// The description of an operation on the table called `table_name`.
pub fn operation_description(kind: RouteKind, table_name: &str) -> (text: String)
    ensures
        text@ == description_text(kind, table_name@),
{
    let lead = match kind {
        RouteKind::ListItems => "Lists all ",
        RouteKind::CreateItem => "Creates ",
        RouteKind::DeleteAllItems => "Deletes all ",
        RouteKind::GetItem => "Gets one ",
        RouteKind::UpdateItem => "Updates ",
        RouteKind::DeleteItem => "Deletes one ",
    };
    let mut text = String::from_str(lead);
    text.append(table_name);
    text
}

/// The id of an operation on the table called `table_name`.
pub fn operation_id(kind: RouteKind, table_name: &str) -> (text: String)
    ensures
        text@ == operation_id_text(kind, table_name@),
{
    let lead = match kind {
        RouteKind::ListItems => "list_all_",
        RouteKind::CreateItem => "create_",
        RouteKind::DeleteAllItems => "delete_all_",
        RouteKind::GetItem => "get_",
        RouteKind::UpdateItem => "update_",
        RouteKind::DeleteItem => "delete_",
    };
    let mut text = String::from_str(lead);
    text.append(table_name);
    text
}

/// The description of the response of an operation on the table called
/// `table_name`.
pub fn response_description(kind: RouteKind, table_name: &str) -> (text: String)
    ensures
        text@ == response_text(kind, table_name@),
{
    match kind {
        RouteKind::ListItems => joined("All ", table_name, " listed successfully"),
        RouteKind::CreateItem => joined("One ", table_name, " is created successfully"),
        RouteKind::DeleteAllItems => joined("All ", table_name, " deleted successfully"),
        RouteKind::GetItem => joined("One ", table_name, " is fetched successfully"),
        RouteKind::UpdateItem => joined("One ", table_name, " is updated successfully"),
        RouteKind::DeleteItem => joined("One ", table_name, " is deleted successfully"),
    }
}

/// The description of the `id` path parameter for the table called
/// `table_name`.
pub fn id_parameter_description(table_name: &str) -> (text: String)
    ensures
        text@ == id_parameter_text(table_name@),
{
    let mut text = String::from_str(table_name);
    text.append(" id");
    text
}

} // verus!
