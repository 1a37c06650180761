use gnostic::context::Context;
use gnostic::openapiv3::{parse_document, yaml_value, Parser, ResponseOrReferenceOneof, SchemaOrReferenceOneof};
use gnostic::reader::parse_bytes;
use std::sync::Arc;

const PETSTORE: &str = r##"
openapi: 3.0.0
info:
  title: Petstore
  version: 1.0.0
  termsOfService: http://example.com/terms
  contact:
    url: http://example.com/contact
  license:
    name: MIT
servers:
  - url: http://petstore.example.com/v1
    description: production
  - url: http://localhost/v1
paths:
  /pets:
    summary: Pets
    get:
      operationId: listPets
      tags: [pets]
      responses:
        "200":
          description: A list of pets
        default:
          $ref: "#/components/responses/Error"
    trace:
      operationId: tracePets
components:
  schemas:
    Pet:
      type: object
      required: [id]
      nullable: true
      properties:
        id:
          type: integer
          format: int64
          readOnly: true
        owner:
          $ref: "#/components/schemas/Owner"
        tags:
          type: array
          items:
            type: string
            writeOnly: true
    Owner:
      $ref: "other.yaml#/Owner"
tags:
  - name: pets
    description: Pet operations
externalDocs:
  url: http://example.com/docs
"##;

#[test]
fn a_whole_version_three_document_is_read() {
    let doc = parse_document(PETSTORE.as_bytes()).unwrap();
    assert_eq!(doc.openapi, "3.0.0");
    let info = doc.info.as_ref().unwrap();
    assert_eq!(info.title, "Petstore");
    assert_eq!(info.version, "1.0.0");
    assert_eq!(info.terms_of_service, "http://example.com/terms");
    assert_eq!(info.contact.as_ref().unwrap().url, "http://example.com/contact");
    assert_eq!(info.license.as_ref().unwrap().name, "MIT");
    assert_eq!(doc.servers.len(), 2);
    assert_eq!(doc.servers[0].url, "http://petstore.example.com/v1");
    assert_eq!(doc.servers[0].description, "production");
    assert_eq!(doc.servers[1].description, "");
    let paths = &doc.paths.as_ref().unwrap().path;
    assert_eq!(paths.len(), 1);
    assert_eq!(paths[0].name, "/pets");
    let item = paths[0].value.as_ref().unwrap();
    assert_eq!(item.summary, "Pets");
    assert_eq!(item.trace.as_ref().unwrap().operation_id, "tracePets");
    assert!(item.post.is_none());
    let get = item.get.as_ref().unwrap();
    assert_eq!(get.operation_id, "listPets");
    assert_eq!(get.tags, vec!["pets"]);
    let responses = &get.responses.as_ref().unwrap().response_or_reference;
    assert_eq!(responses.len(), 2);
    assert_eq!(responses[0].name, "200");
    match responses[0].value.as_ref().unwrap().oneof.as_ref().unwrap() {
        ResponseOrReferenceOneof::Response(r) => assert_eq!(r.description, "A list of pets"),
        other => panic!("unexpected {:?}", other),
    }
    assert_eq!(responses[1].name, "default");
    match responses[1].value.as_ref().unwrap().oneof.as_ref().unwrap() {
        ResponseOrReferenceOneof::Reference(r) => assert_eq!(r.reference, "#/components/responses/Error"),
        other => panic!("unexpected {:?}", other),
    }
    let schemas = &doc.components.as_ref().unwrap().schemas.as_ref().unwrap().additional_properties;
    assert_eq!(schemas.len(), 2);
    assert_eq!(schemas[0].name, "Pet");
    let pet = match schemas[0].value.as_ref().unwrap().oneof.as_ref().unwrap() {
        SchemaOrReferenceOneof::Schema(schema) => schema,
        other => panic!("unexpected {:?}", other),
    };
    assert_eq!(pet.type_value, "object");
    assert_eq!(pet.required, vec!["id"]);
    assert!(pet.nullable);
    let properties = &pet.properties.as_ref().unwrap().additional_properties;
    assert_eq!(properties.len(), 3);
    assert_eq!(properties[0].name, "id");
    match properties[0].value.as_ref().unwrap().oneof.as_ref().unwrap() {
        SchemaOrReferenceOneof::Schema(id) => {
            assert_eq!(id.type_value, "integer");
            assert_eq!(id.format, "int64");
            assert!(id.read_only);
            assert!(!id.write_only);
        },
        other => panic!("unexpected {:?}", other),
    }
    match properties[1].value.as_ref().unwrap().oneof.as_ref().unwrap() {
        SchemaOrReferenceOneof::Reference(r) => assert_eq!(r.reference, "#/components/schemas/Owner"),
        other => panic!("unexpected {:?}", other),
    }
    match properties[2].value.as_ref().unwrap().oneof.as_ref().unwrap() {
        SchemaOrReferenceOneof::Schema(tags) => {
            assert_eq!(tags.type_value, "array");
            let items = &tags.items.as_ref().unwrap().schema_or_reference;
            assert_eq!(items.len(), 1);
            match items[0].oneof.as_ref().unwrap() {
                SchemaOrReferenceOneof::Schema(item) => {
                    assert_eq!(item.type_value, "string");
                    assert!(item.write_only);
                },
                other => panic!("unexpected {:?}", other),
            }
        },
        other => panic!("unexpected {:?}", other),
    }
    match schemas[1].value.as_ref().unwrap().oneof.as_ref().unwrap() {
        SchemaOrReferenceOneof::Reference(r) => assert_eq!(r.reference, "other.yaml#/Owner"),
        other => panic!("unexpected {:?}", other),
    }
    assert_eq!(doc.tags.len(), 1);
    assert_eq!(doc.tags[0].name, "pets");
    assert_eq!(doc.tags[0].description, "Pet operations");
    assert_eq!(doc.external_docs.as_ref().unwrap().url, "http://example.com/docs");
    assert!(yaml_value(&doc).is_empty());
}

#[test]
fn a_version_three_document_must_be_a_mapping() {
    let failed = parse_document(b"just text").unwrap_err();
    assert_eq!(failed.len(), 1);
    assert_eq!(failed.errors[0].to_string(), "$ expected mapping, got String(\"just text\")");
    let context = Arc::new(Context::new("root", Some(1), Some(1), None));
    let failed = Parser::parse_document(&parse_bytes(b"[1, 2]").unwrap(), &context).unwrap_err();
    assert_eq!(failed.errors[0].to_string(), "[1,1] root expected mapping, got Array([Integer(1), Integer(2)])");
}

#[test]
fn servers_and_tags_that_are_no_sequences_are_left_out() {
    let doc = parse_document(b"openapi: 3.1.0\nservers: {url: x}\ntags: text\n").unwrap();
    assert_eq!(doc.openapi, "3.1.0");
    assert!(doc.servers.is_empty());
    assert!(doc.tags.is_empty());
    assert!(doc.info.is_none());
    assert!(doc.paths.is_none());
    assert!(doc.components.is_none());
    assert!(doc.external_docs.is_none());
}

#[test]
fn a_reference_that_is_no_scalar_is_read_as_a_schema() {
    let node = parse_bytes(b"$ref: [not, a, scalar]\ntype: string\n").unwrap();
    let context = Arc::new(Context::root("$"));
    let schema = Parser::parse_schema_or_reference(&node, &context).unwrap();
    assert!(matches!(schema.oneof, Some(SchemaOrReferenceOneof::Schema(ref s)) if s.type_value == "string"));
    let response = Parser::parse_response_or_reference(&node, &context).unwrap();
    assert!(matches!(response.oneof, Some(ResponseOrReferenceOneof::Response(_))));
}
