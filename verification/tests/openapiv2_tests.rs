use gnostic::context::Context;
use gnostic::openapiv2::{parse_document, Document, Parser};
use gnostic::reader::parse_bytes;
use std::sync::Arc;

const PETSTORE: &str = r##"
swagger: "2.0"
info:
  title: Petstore
  version: 1.0.0
  description: A sample API
  termsOfService: http://example.com/terms
  contact:
    name: API Team
    email: team@example.com
  license:
    name: MIT
    url: http://example.com/license
host: petstore.example.com
basePath: /v1
schemes: [http, https]
consumes:
  - application/json
produces:
  - application/json
  - application/xml
paths:
  /pets:
    get:
      summary: List all pets
      operationId: listPets
      tags: [pets]
      deprecated: true
    post:
      operationId: createPets
  /pets/{petId}:
    $ref: "#/paths/other"
    delete:
      operationId: deletePet
definitions:
  Pet:
    type: object
    required: [id, name]
    title: A pet
  Error:
    $ref: "#/definitions/Other"
tags:
  - name: pets
    description: Everything about pets
    externalDocs:
      url: http://example.com/pets
  - name: store
externalDocs:
  description: Find out more
  url: http://example.com
"##;

#[test]
fn a_field_of_the_wrong_kind_is_one_error_and_the_rest_is_read() {
    let node = parse_bytes(b"swagger: \"2.0\"\ntags: oops\n").unwrap();
    let context = Arc::new(Context::root("$"));
    let (document, errors) = Parser::decode_document(&node, &context);
    assert_eq!(errors.len(), 1);
    assert_eq!(errors.errors[0].to_string(), "$.tags tags must be an array");
    assert_eq!(document.swagger, "2.0");
    assert!(document.tags.is_empty());
    let failed = parse_document(b"swagger: \"2.0\"\ntags: oops\n").unwrap_err();
    assert_eq!(failed.to_string(), "$.tags tags must be an array");
}

#[test]
fn a_whole_document_is_read() {
    let doc = parse_document(PETSTORE.as_bytes()).unwrap();
    assert_eq!(doc.swagger, "2.0");
    assert_eq!(doc.host, "petstore.example.com");
    assert_eq!(doc.base_path, "/v1");
    assert_eq!(doc.schemes, vec!["http", "https"]);
    assert_eq!(doc.consumes, vec!["application/json"]);
    assert_eq!(doc.produces, vec!["application/json", "application/xml"]);
    let info = doc.info.as_ref().unwrap();
    assert_eq!(info.title, "Petstore");
    assert_eq!(info.version, "1.0.0");
    assert_eq!(info.description, "A sample API");
    assert_eq!(info.terms_of_service, "http://example.com/terms");
    let contact = info.contact.as_ref().unwrap();
    assert_eq!(contact.name, "API Team");
    assert_eq!(contact.email, "team@example.com");
    assert_eq!(contact.url, "");
    let license = info.license.as_ref().unwrap();
    assert_eq!(license.name, "MIT");
    assert_eq!(license.url, "http://example.com/license");
    let paths = &doc.paths.as_ref().unwrap().path;
    assert_eq!(paths.len(), 2);
    assert_eq!(paths[0].name, "/pets");
    let pets = paths[0].value.as_ref().unwrap();
    let get = pets.get.as_ref().unwrap();
    assert_eq!(get.summary, "List all pets");
    assert_eq!(get.operation_id, "listPets");
    assert_eq!(get.tags, vec!["pets"]);
    assert!(get.deprecated);
    assert_eq!(pets.post.as_ref().unwrap().operation_id, "createPets");
    assert!(!pets.post.as_ref().unwrap().deprecated);
    assert!(pets.put.is_none() && pets.delete.is_none() && pets.head.is_none());
    assert_eq!(paths[1].name, "/pets/{petId}");
    let pet = paths[1].value.as_ref().unwrap();
    assert_eq!(pet.reference, "#/paths/other");
    assert_eq!(pet.delete.as_ref().unwrap().operation_id, "deletePet");
    let definitions = &doc.definitions.as_ref().unwrap().additional_properties;
    assert_eq!(definitions.len(), 2);
    assert_eq!(definitions[0].name, "Pet");
    let schema = definitions[0].value.as_ref().unwrap();
    assert_eq!(schema.type_value.as_ref().unwrap().value, vec!["object"]);
    assert_eq!(schema.required, vec!["id", "name"]);
    assert_eq!(schema.title, "A pet");
    let error = definitions[1].value.as_ref().unwrap();
    assert_eq!(error.reference, "#/definitions/Other");
    assert!(error.type_value.is_none());
    assert_eq!(doc.tags.len(), 2);
    assert_eq!(doc.tags[0].name, "pets");
    assert_eq!(doc.tags[0].description, "Everything about pets");
    assert_eq!(doc.tags[0].external_docs.as_ref().unwrap().url, "http://example.com/pets");
    assert_eq!(doc.tags[1].name, "store");
    assert!(doc.tags[1].external_docs.is_none());
    let docs = doc.external_docs.as_ref().unwrap();
    assert_eq!(docs.description, "Find out more");
    assert_eq!(docs.url, "http://example.com");
}

#[test]
fn every_failure_is_reported_in_the_order_of_the_parts() {
    let text = "swagger: \"2.0\"\nexternalDocs: [1]\ntags:\n  - name: ok\n  - 7\n  - name: x\n    externalDocs: text\n";
    let failed = parse_document(text.as_bytes()).unwrap_err();
    let lines: Vec<String> = failed.errors.iter().map(|e| e.to_string()).collect();
    assert_eq!(
        lines,
        vec![
            "$.tags.1 tag must be an object",
            "$.tags.2.externalDocs externalDocs must be an object",
            "$.externalDocs externalDocs must be an object",
        ]
    );
    let node = parse_bytes(text.as_bytes()).unwrap();
    let (document, errors) = Parser::decode_document(&node, &Arc::new(Context::root("$")));
    assert_eq!(errors.len(), 3);
    assert_eq!(document.swagger, "2.0");
    assert!(document.tags.is_empty());
    assert!(document.external_docs.is_none());
}

#[test]
fn a_document_that_is_no_mapping_is_refused() {
    let failed = parse_document(b"- a\n- b\n").unwrap_err();
    assert_eq!(failed.len(), 1);
    assert_eq!(failed.errors[0].to_string(), "$ expected mapping, got Array([String(\"a\"), String(\"b\")])");
    let located = Arc::new(Context::new("doc", Some(4), Some(2), None));
    let failed = Parser::parse_document(&parse_bytes(b"text").unwrap(), &located).unwrap_err();
    assert_eq!(failed.errors[0].to_string(), "[4,2] doc expected mapping, got String(\"text\")");
    let (blank, _) = Parser::decode_document(&parse_bytes(b"7").unwrap(), &located);
    assert_eq!(blank, Document::default());
}

#[test]
fn a_sequence_of_one_document_is_that_document() {
    let doc = parse_document(b"- swagger: \"2.0\"\n  host: h\n").unwrap();
    assert_eq!(doc.swagger, "2.0");
    assert_eq!(doc.host, "h");
}

#[test]
fn bytes_that_cannot_be_parsed_give_the_failure_of_the_parser() {
    let failed = parse_document(b"a: [1").unwrap_err();
    assert_eq!(failed.len(), 1);
    assert!(failed.errors[0].to_string().starts_with("YAML error: "));
}

#[test]
fn fields_of_the_wrong_kind_are_left_empty() {
    let doc = parse_document(b"swagger: [2]\nhost: {a: b}\nschemes: http\ninfo: 5\npaths: 6\n").unwrap();
    assert_eq!(doc.swagger, "");
    assert_eq!(doc.host, "");
    assert!(doc.schemes.is_empty());
    assert_eq!(doc.info.unwrap().title, "");
    assert!(doc.paths.unwrap().path.is_empty());
    let numbers = parse_document(b"swagger: 2.0\nhost: 80\nbasePath: true\n").unwrap();
    assert_eq!(numbers.swagger, "2.0");
    assert_eq!(numbers.host, "80");
    assert_eq!(numbers.base_path, "true");
}
