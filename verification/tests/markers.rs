use crud_routers::{Assignable, Assigned, Empty, SchemaDoc, SlotDoc};
use utoipa::openapi::schema::{ObjectBuilder, Schema, Type};
use utoipa::openapi::RefOr;

struct Post;

fn post_doc() -> SchemaDoc {
    let schema: RefOr<Schema> = ObjectBuilder::new().schema_type(Type::Object).into();
    SchemaDoc { name: String::from("Post"), schema, nested: Vec::new() }
}

#[test]
fn an_open_slot_is_not_assigned() {
    assert!(!<Empty as Assignable>::IS_ASSIGNED);
}

#[test]
fn a_filled_slot_is_assigned_whatever_fills_it() {
    assert!(<Assigned<Post> as Assignable>::IS_ASSIGNED);
    assert!(<Assigned<u8> as Assignable>::IS_ASSIGNED);
    assert!(<Assigned<Empty> as Assignable>::IS_ASSIGNED);
}

#[test]
fn an_open_slot_has_no_description() {
    assert!(SlotDoc::absent().into_doc().is_none());
}

#[test]
fn a_filled_slot_keeps_its_description() {
    let slot: SlotDoc<Assigned<Post>> = SlotDoc::of(post_doc());
    let doc = slot.into_doc().unwrap();
    assert_eq!(doc.name, "Post");
    assert!(doc.nested.is_empty());
    assert!(doc.schema == post_doc().schema);
}
