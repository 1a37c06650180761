use gnostic::jsonschema::{
    is_empty, type_of_schema, NamedDependency, NamedSchema, Schema, SchemaNumber, SchemaOrBoolean,
    SchemaOrSchemaArray, SchemaOrStringArray, StringOrStringArray,
};

#[test]
fn test_string_or_string_array_display() {
    let single = StringOrStringArray::String("string".to_string());
    assert_eq!(single.description(), "string");

    let array = StringOrStringArray::Array(vec!["one".to_string(), "two".to_string()]);
    assert_eq!(array.description(), "one, two");
}

#[test]
fn test_schema_display() {
    let mut schema = Schema::new();
    schema.title = Some("Test Schema".to_string());
    schema.type_value = Some(StringOrStringArray::String("object".to_string()));
    schema.description = Some("A test schema".to_string());
    let output = schema.to_string();
    assert!(output.contains("title: Test Schema"));
    assert!(output.contains("type: object"));
    assert!(output.contains("description: A test schema"));
}

#[test]
fn test_schema_with_properties() {
    let mut name = Schema::new();
    name.type_value = Some(StringOrStringArray::String("string".to_string()));
    let properties = vec![NamedSchema { name: "name".to_string(), value: name }];

    let mut schema = Schema::new();
    schema.type_value = Some(StringOrStringArray::String("object".to_string()));
    schema.properties = Some(properties);

    let output = schema.to_string();
    assert!(output.contains("properties:"));
    assert!(output.contains("name:"));
}

#[test]
fn description_of_short_arrays() {
    assert_eq!(StringOrStringArray::Array(vec![]).description(), "");
    assert_eq!(StringOrStringArray::Array(vec!["only".to_string()]).description(), "only");
    let three = StringOrStringArray::Array(vec!["a".to_string(), "".to_string(), "c".to_string()]);
    assert_eq!(three.description(), "a, , c");
    assert_eq!(three.to_string(), "a, , c");
}

#[test]
fn a_schema_in_which_nothing_is_set_has_no_description() {
    let schema = Schema::new();
    assert_eq!(schema.to_string(), "");
    assert_eq!(schema.describe_schema("    "), "");
    assert!(is_empty(&schema));
    assert_eq!(type_of_schema(&schema), None);
}

#[test]
fn the_scalar_keywords_are_described_in_their_order() {
    let mut schema = Schema::new();
    schema.schema = Some("http://json-schema.org/draft-04/schema#".to_string());
    schema.id = Some("root".to_string());
    schema.multiple_of = Some(SchemaNumber::Integer(5));
    schema.maximum = Some(SchemaNumber::Float("10.5".to_string()));
    schema.exclusive_maximum = Some(true);
    schema.minimum = Some(SchemaNumber::Integer(-3));
    schema.exclusive_minimum = Some(false);
    schema.max_length = Some(20);
    schema.min_length = Some(0);
    schema.pattern = Some("^a+$".to_string());
    schema.max_items = Some(4);
    schema.min_items = Some(1);
    schema.unique_items = Some(true);
    schema.max_properties = Some(9);
    schema.min_properties = Some(2);
    schema.required = Some(vec!["a".to_string(), "b \"c\"".to_string()]);
    schema.enumeration = Some(vec!["1".to_string(), "\"two\"".to_string()]);
    schema.type_value = Some(StringOrStringArray::Array(vec!["string".to_string(), "null".to_string()]));
    schema.title = Some("T".to_string());
    schema.description = Some("D".to_string());
    schema.default = Some("{\"k\":1}".to_string());
    schema.format = Some("uri".to_string());
    schema.reference = Some("#/definitions/x".to_string());
    let expected = "\
> $schema: http://json-schema.org/draft-04/schema#
> id: root
> multipleOf: Integer(5)
> maximum: Float(10.5)
> exclusiveMaximum: true
> minimum: Integer(-3)
> exclusiveMinimum: false
> maxLength: 20
> minLength: 0
> pattern: ^a+$
> maxItems: 4
> minItems: 1
> uniqueItems: true
> maxProperties: 9
> minProperties: 2
> required: [\"a\", \"b \\\"c\\\"\"]
> enumeration:
>   1
>   \"two\"
> type: string, null
> title: T
> description: D
> default:
>   {\"k\":1}
> format: uri
> $ref: #/definitions/x
";
    assert_eq!(schema.describe_schema("> "), expected);
    assert!(!is_empty(&schema));
    assert_eq!(type_of_schema(&schema), Some("string".to_string()));
}

#[test]
fn nested_schemas_are_indented() {
    let mut schema = Schema::new();
    schema.additional_items = Some(SchemaOrBoolean::Boolean(false));
    schema.items = Some(Box::new(SchemaOrSchemaArray::Array(vec![Schema::with_type("string"), Schema::with_type("integer")])));
    schema.additional_properties = Some(SchemaOrBoolean::Schema(Box::new(Schema::with_type("number"))));
    schema.properties = Some(vec![
        NamedSchema { name: "b".to_string(), value: Schema::with_type("boolean") },
        NamedSchema { name: "a".to_string(), value: Schema::reference("#/definitions/a") },
    ]);
    schema.pattern_properties = Some(vec![NamedSchema { name: "^x-".to_string(), value: Schema::new() }]);
    schema.dependencies = Some(vec![
        NamedDependency { name: "p".to_string(), value: SchemaOrStringArray::StringArray(vec!["q".to_string(), "r".to_string()]) },
        NamedDependency { name: "s".to_string(), value: SchemaOrStringArray::Schema(Schema::with_type("object")) },
    ]);
    schema.all_of = Some(vec![Schema::with_type("a1"), Schema::with_type("a2")]);
    schema.any_of = Some(vec![]);
    schema.one_of = Some(vec![Schema::with_type("o1")]);
    schema.not = Some(Box::new(Schema::with_type("null")));
    schema.definitions = Some(vec![NamedSchema { name: "a".to_string(), value: Schema::with_type("array") }]);
    let expected = "\
additionalItems: false
items:
  0:
    type: string
  1:
    type: integer
additionalProperties:
  type: number
properties:
  b:
    type: boolean
  a:
    $ref: #/definitions/a
patternProperties:
  ^x-:
dependencies:
  p:
    q
    r
  s:
    type: object
allOf:
  type: a1
-
  type: a2
-
anyOf:
oneOf:
  type: o1
-
not:
  type: null
definitions:
  a:
    type: array
";
    assert_eq!(schema.to_string(), expected);
    let mut single = Schema::new();
    single.items = Some(Box::new(SchemaOrSchemaArray::Schema(Schema::with_type("string"))));
    single.additional_items = Some(SchemaOrBoolean::Schema(Box::new(Schema::with_type("integer"))));
    single.additional_properties = Some(SchemaOrBoolean::Boolean(true));
    assert_eq!(
        single.describe_schema("."),
        ".additionalItems:\n.  type: integer\n.items:\n.    type: string\n.additionalProperties: true\n"
    );
}

#[test]
fn with_type_and_reference_set_one_keyword() {
    let typed = Schema::with_type("object");
    assert_eq!(typed.type_value, Some(StringOrStringArray::String("object".to_string())));
    assert_eq!(typed.to_string(), "type: object\n");
    assert!(!is_empty(&typed));
    let reference = Schema::reference("#/x");
    assert_eq!(reference.reference, Some("#/x".to_string()));
    assert_eq!(reference.to_string(), "$ref: #/x\n");
    assert!(reference.type_value.is_none());
}

#[test]
fn is_empty_looks_at_thirteen_keywords_only() {
    let mut schema = Schema::new();
    schema.format = Some("uri".to_string());
    schema.maximum = Some(SchemaNumber::Integer(1));
    schema.definitions = Some(vec![]);
    assert!(is_empty(&schema));
    schema.required = Some(vec![]);
    assert!(!is_empty(&schema));
    let mut with_not = Schema::new();
    with_not.not = Some(Box::new(Schema::new()));
    assert!(!is_empty(&with_not));
}

#[test]
fn the_type_of_a_schema_is_its_first_type_name() {
    let mut schema = Schema::new();
    schema.type_value = Some(StringOrStringArray::Array(vec![]));
    assert_eq!(type_of_schema(&schema), None);
    schema.type_value = Some(StringOrStringArray::Array(vec!["b".to_string(), "a".to_string()]));
    assert_eq!(type_of_schema(&schema), Some("b".to_string()));
    assert_eq!(type_of_schema(&Schema::with_type("integer")), Some("integer".to_string()));
}
