use reviews_subgraph::registry::SchemaDefinition;
use reviews_subgraph::registry::SchemaRegistry;
use reviews_subgraph::resolver::Query;

fn definition(name: &str, document: &str, extensions: &[&str]) -> SchemaDefinition {
    SchemaDefinition {
        name: name.to_string(),
        document: document.to_string(),
        extension_documents: extensions.iter().map(|e| e.to_string()).collect(),
    }
}

fn assert_definition_eq(actual: &SchemaDefinition, expected: &SchemaDefinition) {
    assert_eq!(actual.name, expected.name);
    assert_eq!(actual.document, expected.document);
    assert_eq!(actual.extension_documents, expected.extension_documents);
}

#[test]
fn register_then_lookup_round_trips() {
    let mut registry = SchemaRegistry::new();
    let def = definition(
        "reviews",
        "type Review { id: Int! }",
        &["extend type Review @key(fields: \"id\")", "extend schema @_removeRootTypes {  }"],
    );
    registry.register("reviews".to_string(), definition(
        "reviews",
        "type Review { id: Int! }",
        &["extend type Review @key(fields: \"id\")", "extend schema @_removeRootTypes {  }"],
    ));
    let found = registry.lookup(&"reviews".to_string()).expect("definition registered");
    assert_definition_eq(&found, &def);
}

#[test]
fn lookup_of_unknown_name_is_absent() {
    let registry = SchemaRegistry::new();
    assert!(registry.lookup(&"reviews".to_string()).is_none());

    let mut registry = SchemaRegistry::new();
    registry.register("reviews".to_string(), definition("reviews", "doc", &[]));
    registry.register("products".to_string(), definition("products", "doc2", &[]));
    assert!(registry.lookup(&"accounts".to_string()).is_none());
    assert!(registry.lookup(&"".to_string()).is_none());
}

#[test]
fn register_same_name_twice_keeps_last() {
    let mut registry = SchemaRegistry::new();
    registry.register("reviews".to_string(), definition("reviews", "first", &["e1"]));
    registry.register("reviews".to_string(), definition("reviews", "second", &["e2", "e3"]));
    let found = registry.lookup(&"reviews".to_string()).expect("definition registered");
    assert_eq!(found.document, "second");
    assert_eq!(found.extension_documents, vec!["e2".to_string(), "e3".to_string()]);
}

#[test]
fn register_keeps_other_names_intact() {
    let mut registry = SchemaRegistry::new();
    registry.register("reviews".to_string(), definition("reviews", "doc", &["e1"]));
    registry.register("products".to_string(), definition("products", "doc2", &[]));
    let found = registry.lookup(&"reviews".to_string()).expect("definition registered");
    assert_eq!(found.document, "doc");
    assert_eq!(found.extension_documents, vec!["e1".to_string()]);
}

#[test]
fn schema_definition_meta_operation_scenario() {
    let mut registry = SchemaRegistry::new();
    let document = "type Review { id: Int! author_id: Int! upc: Int! body: String! }";
    let extension_one = "extend type Review @key(fields: \"id\")";
    let extension_two = "extend schema @_removeRootTypes {  }";
    registry.register(
        "reviews".to_string(),
        definition("reviews", document, &[extension_one, extension_two]),
    );

    let q = Query;
    let found = q
        .schema_definition(&registry, &"reviews".to_string())
        .expect("definition registered at startup");
    assert_eq!(found.name, "reviews");
    assert_eq!(found.document, document);
    assert_eq!(
        found.extension_documents,
        vec![extension_one.to_string(), extension_two.to_string()]
    );

    assert!(q.schema_definition(&registry, &"unknown".to_string()).is_none());
}

#[test]
fn lookup_returns_a_copy_not_a_shared_alias() {
    let mut registry = SchemaRegistry::new();
    registry.register("reviews".to_string(), definition("reviews", "doc", &["e1"]));
    let mut first = registry.lookup(&"reviews".to_string()).expect("registered");
    first.document = "mutated".to_string();
    first.extension_documents.push("mutated".to_string());
    let second = registry.lookup(&"reviews".to_string()).expect("registered");
    assert_eq!(second.document, "doc");
    assert_eq!(second.extension_documents, vec!["e1".to_string()]);
}

#[test]
fn duplicate_copies_every_field() {
    let def = definition("reviews", "doc", &["e1", "e2"]);
    let copy = def.duplicate();
    assert_definition_eq(&copy, &def);
}
