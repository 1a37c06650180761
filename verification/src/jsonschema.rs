use vstd::prelude::*;
use crate::text::{debug_string, debug_text, decimal, decimal_text, join, signed_decimal, signed_decimal_text, texts};

verus! {

/// A number of a schema: a whole number, or a number with a fraction as text.
#[derive(Debug, Clone, PartialEq)]
pub enum SchemaNumber {
    Integer(i64),
    /// The number as it is shown for debugging.
    Float(String),
}

/// A schema, or a truth value.
#[derive(Debug)]
pub enum SchemaOrBoolean {
    Schema(Box<Schema>),
    Boolean(bool),
}

/// A type constraint of a schema: one type name, or several.
#[derive(Debug, Clone, PartialEq)]
pub enum StringOrStringArray {
    /// One name.
    String(String),
    /// Several names.
    Array(Vec<String>),
}

/// A schema with its name.
#[derive(Debug)]
pub struct NamedSchema {
    pub name: String,
    pub value: Schema,
}

/// A named schema, or a list of texts.
#[derive(Debug)]
pub enum NamedSchemaOrStringArray {
    Schema(NamedSchema),
    StringArray(Vec<String>),
}

/// A schema, or a list of schemas.
#[derive(Debug)]
pub enum SchemaOrSchemaArray {
    Schema(Schema),
    Array(Vec<Schema>),
}

/// A schema, or a list of texts.
#[derive(Debug)]
pub enum SchemaOrStringArray {
    Schema(Schema),
    StringArray(Vec<String>),
}

/// What a property depends on, with the name of the property.
#[derive(Debug)]
pub struct NamedDependency {
    pub name: String,
    pub value: SchemaOrStringArray,
}

/// A JSON Schema of draft 4. Tables of schemas are lists, in the order in
/// which they are to be shown; values of any kind are held as their JSON text.
#[derive(Debug)]
pub struct Schema {
    /// The `$schema` keyword.
    pub schema: Option<String>,
    pub id: Option<String>,
    /// The `$ref` keyword.
    pub reference: Option<String>,
    pub title: Option<String>,
    pub description: Option<String>,
    /// The default value, as JSON text.
    pub default: Option<String>,
    pub multiple_of: Option<SchemaNumber>,
    pub maximum: Option<SchemaNumber>,
    pub exclusive_maximum: Option<bool>,
    pub minimum: Option<SchemaNumber>,
    pub exclusive_minimum: Option<bool>,
    pub max_length: Option<i64>,
    pub min_length: Option<i64>,
    pub pattern: Option<String>,
    pub additional_items: Option<SchemaOrBoolean>,
    pub items: Option<Box<SchemaOrSchemaArray>>,
    pub max_items: Option<i64>,
    pub min_items: Option<i64>,
    pub unique_items: Option<bool>,
    pub max_properties: Option<i64>,
    pub min_properties: Option<i64>,
    pub required: Option<Vec<String>>,
    pub additional_properties: Option<SchemaOrBoolean>,
    pub definitions: Option<Vec<NamedSchema>>,
    pub properties: Option<Vec<NamedSchema>>,
    pub pattern_properties: Option<Vec<NamedSchema>>,
    pub dependencies: Option<Vec<NamedDependency>>,
    /// The allowed values, each as JSON text.
    pub enumeration: Option<Vec<String>>,
    /// The `type` keyword.
    pub type_value: Option<StringOrStringArray>,
    pub format: Option<String>,
    pub all_of: Option<Vec<Schema>>,
    pub any_of: Option<Vec<Schema>>,
    pub one_of: Option<Vec<Schema>>,
    pub not: Option<Box<Schema>>,
}

/// The view of a text that may be absent.
pub open spec fn opt_text(text: Option<String>) -> Option<Seq<char>> {
    match text {
        Some(t) => Some(t@),
        None => None,
    }
}

/// The word for a truth value.
pub open spec fn bool_text(b: bool) -> Seq<char> {
    if b {
        "true"@
    } else {
        "false"@
    }
}

/// The word for a truth value that may be absent.
pub open spec fn opt_bool_text(b: Option<bool>) -> Option<Seq<char>> {
    match b {
        Some(b) => Some(bool_text(b)),
        None => None,
    }
}

/// The numeral of a whole number that may be absent.
pub open spec fn opt_int_text(i: Option<i64>) -> Option<Seq<char>> {
    match i {
        Some(i) => Some(signed_decimal(i as int)),
        None => None,
    }
}

/// How a number is shown: its kind, and the number in brackets.
pub open spec fn number_text(n: SchemaNumber) -> Seq<char> {
    match n {
        SchemaNumber::Integer(i) => "Integer("@ + signed_decimal(i as int) + ")"@,
        SchemaNumber::Float(text) => "Float("@ + text@ + ")"@,
    }
}

/// How a number that may be absent is shown.
pub open spec fn opt_number_text(n: Option<SchemaNumber>) -> Option<Seq<char>> {
    match n {
        Some(n) => Some(number_text(n)),
        None => None,
    }
}

/// The texts as they are shown for debugging, in order.
pub open spec fn debug_each(items: Seq<Seq<char>>) -> Seq<Seq<char>> {
    Seq::new(items.len(), |i: int| debug_text(items[i]))
}

/// How a list of texts is shown: in square brackets, each text as it is shown
/// for debugging, with `", "` between them.
pub open spec fn list_text(items: Seq<Seq<char>>) -> Seq<char> {
    "["@ + join(debug_each(items), seq![',', ' ']) + "]"@
}

/// How a list of texts that may be absent is shown.
pub open spec fn opt_list_text(items: Option<Vec<String>>) -> Option<Seq<char>> {
    match items {
        Some(list) => Some(list_text(texts(list@))),
        None => None,
    }
}

/// The line for a keyword: the indentation, the label, the value and a line
/// feed; nothing where the value is absent.
pub open spec fn line(indent: Seq<char>, label: Seq<char>, value: Option<Seq<char>>) -> Seq<char> {
    match value {
        Some(v) => indent + label + v + seq!['\n'],
        None => Seq::<char>::empty(),
    }
}

/// The first `count` texts, each on a line of its own behind the indentation.
pub open spec fn text_lines(items: Seq<Seq<char>>, indent: Seq<char>, count: int) -> Seq<char>
    decreases count,
{
    if count <= 0 {
        Seq::<char>::empty()
    } else {
        text_lines(items, indent, count - 1) + indent + items[count - 1] + seq!['\n']
    }
}

impl StringOrStringArray {
    /// The words for this value: the name, or the names with `", "` between them.
    pub open spec fn words(&self) -> Seq<char> {
        match self {
            StringOrStringArray::String(s) => s@,
            StringOrStringArray::Array(names) => join(texts(names@), seq![',', ' ']),
        }
    }

    /// The words for this value: the name, or the names with `", "` between them.
    pub fn description(&self) -> (text: String)
        ensures
            text@ == self.words(),
    {
        match self {
            StringOrStringArray::String(s) => s.clone(),
            StringOrStringArray::Array(names) => {
                proof {
                    reveal_strlit(", ");
                    assert(", "@ =~= seq![',', ' ']);
                }
                join_texts(names, ", ")
            },
        }
    }

    /// The words for this value.
    pub fn to_string(&self) -> (text: String)
        ensures
            text@ == self.words(),
    {
        self.description()
    }
}

/// Joins texts with a separator between each two.
pub fn join_texts(items: &Vec<String>, sep: &str) -> (text: String)
    ensures
        text@ == join(texts(items@), sep@),
{
    let mut text = String::new();
    let mut i: usize = 0;
    while i < items.len()
        invariant
            i <= items.len(),
            text@ == join(texts(items@).take(i as int), sep@),
        decreases items.len() - i,
    {
        proof {
            assert(texts(items@).take(i + 1).drop_last() =~= texts(items@).take(i as int));
        }
        if i > 0 {
            text.append(sep);
        }
        text.append(items[i].as_str());
        proof {
            if i == 0 {
                assert(text@ =~= texts(items@)[0]);
            }
        }
        i += 1;
    }
    assert(texts(items@).take(i as int) =~= texts(items@));
    text
}

/// The schemas at the indices below `count`, each behind a line with its index.
pub open spec fn indexed_part(list: &Vec<Schema>, next: Seq<char>, double: Seq<char>, count: nat) -> Seq<char>
    decreases list, count,
{
    if count == 0 || count > list.len() {
        Seq::<char>::empty()
    } else {
        indexed_part(list, next, double, (count - 1) as nat) + next + decimal((count - 1) as nat) + ":\n"@
            + list[count - 1].described(double)
    }
}

/// The schemas at the indices below `count`, each followed by a line with a dash.
pub open spec fn dashed_part(list: &Vec<Schema>, indent: Seq<char>, next: Seq<char>, count: nat) -> Seq<char>
    decreases list, count,
{
    if count == 0 || count > list.len() {
        Seq::<char>::empty()
    } else {
        dashed_part(list, indent, next, (count - 1) as nat) + list[count - 1].described(next) + indent + "-\n"@
    }
}

/// The schemas at the indices below `count`, each behind a line with its name.
pub open spec fn named_part(list: &Vec<NamedSchema>, next: Seq<char>, double: Seq<char>, count: nat) -> Seq<char>
    decreases list, count,
{
    if count == 0 || count > list.len() {
        Seq::<char>::empty()
    } else {
        named_part(list, next, double, (count - 1) as nat) + next + list[count - 1].name@ + ":\n"@ + list[count
            - 1].value.described(double)
    }
}

/// The dependencies at the indices below `count`, each behind a line with its
/// name: a schema, or texts on lines of their own.
pub open spec fn dependencies_part(
    list: &Vec<NamedDependency>,
    next: Seq<char>,
    double: Seq<char>,
    count: nat,
) -> Seq<char>
    decreases list, count,
{
    if count == 0 || count > list.len() {
        Seq::<char>::empty()
    } else {
        dependencies_part(list, next, double, (count - 1) as nat) + next + list[count - 1].name@ + ":\n"@ + (
        match list[count - 1].value {
            SchemaOrStringArray::Schema(s) => s.described(double),
            SchemaOrStringArray::StringArray(names) => text_lines(texts(names@), double, names@.len() as int),
        })
    }
}

/// A headline, and below it the schemas with a dash after each; nothing where
/// the list is absent.
pub open spec fn dashed_section(list: &Option<Vec<Schema>>, indent: Seq<char>, label: Seq<char>) -> Seq<char>
    decreases list, 0nat,
{
    match list {
        Some(schemas) => indent + label + dashed_part(schemas, indent, indent + "  "@, schemas.len() as nat),
        None => Seq::<char>::empty(),
    }
}

/// A headline, and below it the named schemas; nothing where the list is absent.
pub open spec fn named_section(list: &Option<Vec<NamedSchema>>, indent: Seq<char>, label: Seq<char>) -> Seq<char>
    decreases list, 0nat,
{
    match list {
        Some(schemas) => indent + label + named_part(
            schemas,
            indent + "  "@,
            indent + "    "@,
            schemas.len() as nat,
        ),
        None => Seq::<char>::empty(),
    }
}

/// The lines for a schema or a truth value under a keyword; nothing where it
/// is absent.
pub open spec fn schema_or_bool_section(value: &Option<SchemaOrBoolean>, indent: Seq<char>, keyword: Seq<char>) -> Seq<
    char,
>
    decreases value, 0nat,
{
    match value {
        Some(SchemaOrBoolean::Schema(s)) => indent + keyword + ":\n"@ + s.described(indent + "  "@),
        Some(SchemaOrBoolean::Boolean(b)) => indent + keyword + ": "@ + bool_text(*b) + seq!['\n'],
        None => Seq::<char>::empty(),
    }
}

impl Schema {
    /// The lines before the nested schemas of `additionalItems`.
    pub open spec fn head_lines(&self, indent: Seq<char>) -> Seq<char> {
        line(indent, "$schema: "@, opt_text(self.schema)) + line(indent, "id: "@, opt_text(self.id)) + line(
            indent,
            "multipleOf: "@,
            opt_number_text(self.multiple_of),
        ) + line(indent, "maximum: "@, opt_number_text(self.maximum)) + line(
            indent,
            "exclusiveMaximum: "@,
            opt_bool_text(self.exclusive_maximum),
        ) + line(indent, "minimum: "@, opt_number_text(self.minimum)) + line(
            indent,
            "exclusiveMinimum: "@,
            opt_bool_text(self.exclusive_minimum),
        ) + line(indent, "maxLength: "@, opt_int_text(self.max_length)) + line(
            indent,
            "minLength: "@,
            opt_int_text(self.min_length),
        ) + line(indent, "pattern: "@, opt_text(self.pattern))
    }

    /// The lines on the sizes of arrays and objects, and on what is required.
    pub open spec fn size_lines(&self, indent: Seq<char>) -> Seq<char> {
        line(indent, "maxItems: "@, opt_int_text(self.max_items)) + line(
            indent,
            "minItems: "@,
            opt_int_text(self.min_items),
        ) + line(indent, "uniqueItems: "@, opt_bool_text(self.unique_items)) + line(
            indent,
            "maxProperties: "@,
            opt_int_text(self.max_properties),
        ) + line(indent, "minProperties: "@, opt_int_text(self.min_properties)) + line(
            indent,
            "required: "@,
            opt_list_text(self.required),
        )
    }

    /// The lines for the allowed values and the type.
    pub open spec fn value_lines(&self, indent: Seq<char>) -> Seq<char> {
        (match self.enumeration {
            Some(values) => indent + "enumeration:\n"@ + text_lines(
                texts(values@),
                indent + "  "@,
                values@.len() as int,
            ),
            None => Seq::<char>::empty(),
        }) + (match self.type_value {
            Some(t) => indent + "type: "@ + t.words() + seq!['\n'],
            None => Seq::<char>::empty(),
        })
    }

    /// The last lines: title, description, default value, format and reference.
    pub open spec fn tail_lines(&self, indent: Seq<char>) -> Seq<char> {
        line(indent, "title: "@, opt_text(self.title)) + line(indent, "description: "@, opt_text(self.description))
            + (match self.default {
            Some(value) => indent + "default:\n"@ + indent + "  "@ + value@ + seq!['\n'],
            None => Seq::<char>::empty(),
        }) + line(indent, "format: "@, opt_text(self.format)) + line(indent, "$ref: "@, opt_text(self.reference))
    }

    /// The lines for the items of an array.
    pub open spec fn items_section(&self, indent: Seq<char>) -> Seq<char>
        decreases self, 0nat,
    {
        match self.items {
            Some(items) => indent + "items:\n"@ + (match *items {
                SchemaOrSchemaArray::Schema(s) => s.described(indent + "    "@),
                SchemaOrSchemaArray::Array(list) => indexed_part(
                    &list,
                    indent + "  "@,
                    indent + "    "@,
                    list.len() as nat,
                ),
            }),
            None => Seq::<char>::empty(),
        }
    }

    /// The lines for the dependencies.
    pub open spec fn dependencies_section(&self, indent: Seq<char>) -> Seq<char>
        decreases self, 0nat,
    {
        match self.dependencies {
            Some(list) => indent + "dependencies:\n"@ + dependencies_part(
                &list,
                indent + "  "@,
                indent + "    "@,
                list.len() as nat,
            ),
            None => Seq::<char>::empty(),
        }
    }

    /// The lines for the schema that must not match.
    pub open spec fn not_section(&self, indent: Seq<char>) -> Seq<char>
        decreases self, 0nat,
    {
        match self.not {
            Some(s) => indent + "not:\n"@ + s.described(indent + "  "@),
            None => Seq::<char>::empty(),
        }
    }

    /// The text that describes the schema, each keyword that is set on lines
    /// of its own behind the indentation, nested schemas indented further.
    pub open spec fn described(&self, indent: Seq<char>) -> Seq<char>
        decreases self, 1nat,
    {
        self.head_lines(indent) + schema_or_bool_section(&self.additional_items, indent, "additionalItems"@)
            + self.items_section(indent) + self.size_lines(indent) + schema_or_bool_section(
            &self.additional_properties,
            indent,
            "additionalProperties"@,
        ) + named_section(&self.properties, indent, "properties:\n"@) + named_section(
            &self.pattern_properties,
            indent,
            "patternProperties:\n"@,
        ) + self.dependencies_section(indent) + self.value_lines(indent) + dashed_section(
            &self.all_of,
            indent,
            "allOf:\n"@,
        ) + dashed_section(&self.any_of, indent, "anyOf:\n"@) + dashed_section(&self.one_of, indent, "oneOf:\n"@)
            + self.not_section(indent) + named_section(&self.definitions, indent, "definitions:\n"@)
            + self.tail_lines(indent)
    }

    /// Whether nothing is set in the schema.
    pub open spec fn is_unset(&self) -> bool {
        &&& self.schema is None
        &&& self.id is None
        &&& self.reference is None
        &&& self.title is None
        &&& self.description is None
        &&& self.default is None
        &&& self.multiple_of is None
        &&& self.maximum is None
        &&& self.exclusive_maximum is None
        &&& self.minimum is None
        &&& self.exclusive_minimum is None
        &&& self.max_length is None
        &&& self.min_length is None
        &&& self.pattern is None
        &&& self.additional_items is None
        &&& self.items is None
        &&& self.max_items is None
        &&& self.min_items is None
        &&& self.unique_items is None
        &&& self.max_properties is None
        &&& self.min_properties is None
        &&& self.required is None
        &&& self.additional_properties is None
        &&& self.definitions is None
        &&& self.properties is None
        &&& self.pattern_properties is None
        &&& self.dependencies is None
        &&& self.enumeration is None
        &&& self.type_value is None
        &&& self.format is None
        &&& self.all_of is None
        &&& self.any_of is None
        &&& self.one_of is None
        &&& self.not is None
    }

    /// Whether the schema says nothing of its identity, its type, its
    /// properties, its items or its combinations.
    pub open spec fn is_bare(&self) -> bool {
        &&& self.schema is None
        &&& self.id is None
        &&& self.reference is None
        &&& self.title is None
        &&& self.description is None
        &&& self.type_value is None
        &&& self.properties is None
        &&& self.required is None
        &&& self.items is None
        &&& self.all_of is None
        &&& self.any_of is None
        &&& self.one_of is None
        &&& self.not is None
    }

    /// The first type name of the schema, where it has one.
    pub open spec fn first_type(&self) -> Option<Seq<char>> {
        match self.type_value {
            Some(StringOrStringArray::String(s)) => Some(s@),
            Some(StringOrStringArray::Array(names)) => if names@.len() > 0 {
                Some(names@[0]@)
            } else {
                None
            },
            None => None,
        }
    }

    /// Makes a schema in which nothing is set.
    pub fn new() -> (schema: Schema)
        ensures
            schema.is_unset(),
    {
        Schema {
            schema: None,
            id: None,
            reference: None,
            title: None,
            description: None,
            default: None,
            multiple_of: None,
            maximum: None,
            exclusive_maximum: None,
            minimum: None,
            exclusive_minimum: None,
            max_length: None,
            min_length: None,
            pattern: None,
            additional_items: None,
            items: None,
            max_items: None,
            min_items: None,
            unique_items: None,
            max_properties: None,
            min_properties: None,
            required: None,
            additional_properties: None,
            definitions: None,
            properties: None,
            pattern_properties: None,
            dependencies: None,
            enumeration: None,
            type_value: None,
            format: None,
            all_of: None,
            any_of: None,
            one_of: None,
            not: None,
        }
    }

    /// Makes a schema in which only the type is set.
    pub fn with_type(name: &str) -> (schema: Schema)
        ensures
            schema.type_value matches Some(StringOrStringArray::String(only)) && only@ == name@,
            (Schema { type_value: None, ..schema }).is_unset(),
    {
        let mut schema = Schema::new();
        schema.type_value = Some(StringOrStringArray::String(name.to_owned()));
        schema
    }

    /// Makes a schema in which only the reference is set.
    pub fn reference(ref_path: &str) -> (schema: Schema)
        ensures
            schema.reference matches Some(path) && path@ == ref_path@,
            (Schema { reference: None, ..schema }).is_unset(),
    {
        let mut schema = Schema::new();
        schema.reference = Some(ref_path.to_owned());
        schema
    }

    /// The text that describes the schema, without indentation.
    pub fn to_string(&self) -> (text: String)
        ensures
            text@ == self.described(Seq::<char>::empty()),
    {
        proof {
            reveal_strlit("");
            assert(""@ =~= Seq::<char>::empty());
        }
        self.describe_schema("")
    }

    /// The lines before the nested schemas of `additionalItems`.
    fn describe_head(&self, indent: &str) -> (text: String)
        ensures
            text@ == self.head_lines(indent@),
    {
        let mut text = make_line(indent, "$schema: ", opt_str(&self.schema));
        text.append(make_line(indent, "id: ", opt_str(&self.id)).as_str());
        text.append(make_line(indent, "multipleOf: ", opt_str(&number_string(&self.multiple_of))).as_str());
        text.append(make_line(indent, "maximum: ", opt_str(&number_string(&self.maximum))).as_str());
        text.append(make_line(indent, "exclusiveMaximum: ", opt_str(&bool_string(&self.exclusive_maximum))).as_str());
        text.append(make_line(indent, "minimum: ", opt_str(&number_string(&self.minimum))).as_str());
        text.append(make_line(indent, "exclusiveMinimum: ", opt_str(&bool_string(&self.exclusive_minimum))).as_str());
        text.append(make_line(indent, "maxLength: ", opt_str(&int_string(&self.max_length))).as_str());
        text.append(make_line(indent, "minLength: ", opt_str(&int_string(&self.min_length))).as_str());
        text.append(make_line(indent, "pattern: ", opt_str(&self.pattern)).as_str());
        text
    }

    /// The lines on the sizes of arrays and objects, and on what is required.
    fn describe_sizes(&self, indent: &str) -> (text: String)
        ensures
            text@ == self.size_lines(indent@),
    {
        let mut text = make_line(indent, "maxItems: ", opt_str(&int_string(&self.max_items)));
        text.append(make_line(indent, "minItems: ", opt_str(&int_string(&self.min_items))).as_str());
        text.append(make_line(indent, "uniqueItems: ", opt_str(&bool_string(&self.unique_items))).as_str());
        text.append(make_line(indent, "maxProperties: ", opt_str(&int_string(&self.max_properties))).as_str());
        text.append(make_line(indent, "minProperties: ", opt_str(&int_string(&self.min_properties))).as_str());
        text.append(make_line(indent, "required: ", opt_str(&list_string(&self.required))).as_str());
        text
    }

    /// The lines for the allowed values and the type.
    fn describe_values(&self, indent: &str) -> (text: String)
        ensures
            text@ == self.value_lines(indent@),
    {
        let mut text = match &self.enumeration {
            Some(list) => {
                let next = String::from_str(indent).concat("  ");
                let lines = lines_of_texts(list, next.as_str());
                String::from_str(indent).concat("enumeration:\n").concat(lines.as_str())
            },
            None => String::new(),
        };
        let kind = match &self.type_value {
            Some(t) => {
                proof {
                    reveal_strlit("\n");
                    assert("\n"@ =~= seq!['\n']);
                }
                String::from_str(indent).concat("type: ").concat(t.description().as_str()).concat("\n")
            },
            None => String::new(),
        };
        text.append(kind.as_str());
        text
    }

    /// The last lines: title, description, default value, format and reference.
    fn describe_tail(&self, indent: &str) -> (text: String)
        ensures
            text@ == self.tail_lines(indent@),
    {
        let mut text = make_line(indent, "title: ", opt_str(&self.title));
        text.append(make_line(indent, "description: ", opt_str(&self.description)).as_str());
        let default = match &self.default {
            Some(value) => {
                proof {
                    reveal_strlit("\n");
                    assert("\n"@ =~= seq!['\n']);
                }
                String::from_str(indent).concat("default:\n").concat(indent).concat("  ").concat(
                    value.as_str(),
                ).concat("\n")
            },
            None => String::new(),
        };
        text.append(default.as_str());
        text.append(make_line(indent, "format: ", opt_str(&self.format)).as_str());
        text.append(make_line(indent, "$ref: ", opt_str(&self.reference)).as_str());
        text
    }

    /// The text that describes the schema behind the given indentation.
    pub fn describe_schema(&self, indent: &str) -> (text: String)
        ensures
            text@ == self.described(indent@),
        decreases self, 1nat,
    {
        let mut text = self.describe_head(indent);
        text.append(describe_schema_or_bool(&self.additional_items, indent, "additionalItems").as_str());
        text.append(self.describe_items(indent).as_str());
        text.append(self.describe_sizes(indent).as_str());
        text.append(describe_schema_or_bool(&self.additional_properties, indent, "additionalProperties").as_str());
        text.append(describe_named(&self.properties, indent, "properties:\n").as_str());
        text.append(describe_named(&self.pattern_properties, indent, "patternProperties:\n").as_str());
        text.append(self.describe_dependencies(indent).as_str());
        text.append(self.describe_values(indent).as_str());
        text.append(describe_dashed(&self.all_of, indent, "allOf:\n").as_str());
        text.append(describe_dashed(&self.any_of, indent, "anyOf:\n").as_str());
        text.append(describe_dashed(&self.one_of, indent, "oneOf:\n").as_str());
        text.append(self.describe_not(indent).as_str());
        text.append(describe_named(&self.definitions, indent, "definitions:\n").as_str());
        text.append(self.describe_tail(indent).as_str());
        text
    }

    /// The lines for the items of an array.
    fn describe_items(&self, indent: &str) -> (text: String)
        ensures
            text@ == self.items_section(indent@),
        decreases self, 0nat,
    {
        match &self.items {
            Some(items) => {
                let next = String::from_str(indent).concat("  ");
                let double = String::from_str(indent).concat("    ");
                let mut text = String::from_str(indent).concat("items:\n");
                match &**items {
                    SchemaOrSchemaArray::Schema(s) => {
                        let inner = s.describe_schema(double.as_str());
                        text.append(inner.as_str());
                    },
                    SchemaOrSchemaArray::Array(list) => {
                        let ghost head = text@;
                        let mut part = String::new();
                        let mut i: usize = 0;
                        while i < list.len()
                            invariant
                                i <= list.len(),
                                self.items matches Some(boxed) && *boxed == SchemaOrSchemaArray::Array(*list),
                                next@ == indent@ + "  "@,
                                double@ == indent@ + "    "@,
                                part@ == indexed_part(list, next@, double@, i as nat),
                            decreases list.len() - i,
                        {
                            assert(decreases_to!(list => list[i as int]));
                            assert(decreases_to!(self => self.items));
                            assert(decreases_to!(self.items => self.items->Some_0));
                            assert(decreases_to!(*(self.items->Some_0) => (*(self.items->Some_0))->Array_0));
                            part.append(next.as_str());
                            part.append(decimal_text(i as u64).as_str());
                            part.append(":\n");
                            let inner = list[i].describe_schema(double.as_str());
                            part.append(inner.as_str());
                            i += 1;
                        }
                        text.append(part.as_str());
                    },
                }
                text
            },
            None => String::new(),
        }
    }

    /// The lines for the dependencies.
    fn describe_dependencies(&self, indent: &str) -> (text: String)
        ensures
            text@ == self.dependencies_section(indent@),
        decreases self, 0nat,
    {
        match &self.dependencies {
            Some(list) => {
                let next = String::from_str(indent).concat("  ");
                let double = String::from_str(indent).concat("    ");
                let mut part = String::new();
                let mut i: usize = 0;
                while i < list.len()
                    invariant
                        i <= list.len(),
                        self.dependencies == Some(*list),
                        next@ == indent@ + "  "@,
                        double@ == indent@ + "    "@,
                        part@ == dependencies_part(list, next@, double@, i as nat),
                    decreases list.len() - i,
                {
                    assert(decreases_to!(list => list[i as int]));
                    assert(decreases_to!(self => self.dependencies));
                    assert(decreases_to!(self.dependencies => self.dependencies->Some_0));
                    part.append(next.as_str());
                    part.append(list[i].name.as_str());
                    part.append(":\n");
                    match &list[i].value {
                        SchemaOrStringArray::Schema(s) => {
                            let inner = s.describe_schema(double.as_str());
                            part.append(inner.as_str());
                        },
                        SchemaOrStringArray::StringArray(names) => {
                            let lines = lines_of_texts(names, double.as_str());
                            part.append(lines.as_str());
                        },
                    }
                    i += 1;
                }
                String::from_str(indent).concat("dependencies:\n").concat(part.as_str())
            },
            None => String::new(),
        }
    }

    /// The lines for the schema that must not match.
    fn describe_not(&self, indent: &str) -> (text: String)
        ensures
            text@ == self.not_section(indent@),
        decreases self, 0nat,
    {
        match &self.not {
            Some(s) => {
                let next = String::from_str(indent).concat("  ");
                let inner = s.describe_schema(next.as_str());
                String::from_str(indent).concat("not:\n").concat(inner.as_str())
            },
            None => String::new(),
        }
    }
}

/// The lines for a schema or a truth value under a keyword.
fn describe_schema_or_bool(value: &Option<SchemaOrBoolean>, indent: &str, keyword: &str) -> (text: String)
    ensures
        text@ == schema_or_bool_section(value, indent@, keyword@),
    decreases value, 0nat,
{
    match value {
        Some(SchemaOrBoolean::Schema(s)) => {
            let next = String::from_str(indent).concat("  ");
            let inner = s.describe_schema(next.as_str());
            String::from_str(indent).concat(keyword).concat(":\n").concat(inner.as_str())
        },
        Some(SchemaOrBoolean::Boolean(b)) => {
            proof {
                reveal_strlit("\n");
                assert("\n"@ =~= seq!['\n']);
            }
            String::from_str(indent).concat(keyword).concat(": ").concat(
                if *b {
                    "true"
                } else {
                    "false"
                },
            ).concat("\n")
        },
        None => String::new(),
    }
}

/// A headline and the schemas of a list, a dash after each.
fn describe_dashed(list: &Option<Vec<Schema>>, indent: &str, label: &str) -> (text: String)
    ensures
        text@ == dashed_section(list, indent@, label@),
    decreases list, 0nat,
{
    match list {
        Some(schemas) => {
            let next = String::from_str(indent).concat("  ");
            let mut part = String::new();
            let mut i: usize = 0;
            while i < schemas.len()
                invariant
                    i <= schemas.len(),
                    *list == Some(*schemas),
                    next@ == indent@ + "  "@,
                    part@ == dashed_part(schemas, indent@, next@, i as nat),
                decreases schemas.len() - i,
            {
                assert(decreases_to!(schemas => schemas[i as int]));
                assert(decreases_to!(list => list->Some_0));
                let inner = schemas[i].describe_schema(next.as_str());
                part.append(inner.as_str());
                part.append(indent);
                part.append("-\n");
                i += 1;
            }
            String::from_str(indent).concat(label).concat(part.as_str())
        },
        None => String::new(),
    }
}

/// A headline and the named schemas of a list.
fn describe_named(list: &Option<Vec<NamedSchema>>, indent: &str, label: &str) -> (text: String)
    ensures
        text@ == named_section(list, indent@, label@),
    decreases list, 0nat,
{
    match list {
        Some(schemas) => {
            let next = String::from_str(indent).concat("  ");
            let double = String::from_str(indent).concat("    ");
            let mut part = String::new();
            let mut i: usize = 0;
            while i < schemas.len()
                invariant
                    i <= schemas.len(),
                    *list == Some(*schemas),
                    next@ == indent@ + "  "@,
                    double@ == indent@ + "    "@,
                    part@ == named_part(schemas, next@, double@, i as nat),
                decreases schemas.len() - i,
            {
                assert(decreases_to!(schemas => schemas[i as int]));
                assert(decreases_to!(list => list->Some_0));
                part.append(next.as_str());
                part.append(schemas[i].name.as_str());
                part.append(":\n");
                let inner = schemas[i].value.describe_schema(double.as_str());
                part.append(inner.as_str());
                i += 1;
            }
            String::from_str(indent).concat(label).concat(part.as_str())
        },
        None => String::new(),
    }
}

/// A text that may be absent, as a string slice.
fn opt_str(text: &Option<String>) -> (slice: Option<&str>)
    ensures
        match slice {
            Some(s) => opt_text(*text) == Some(s@),
            None => opt_text(*text) is None,
        },
{
    match text {
        Some(t) => Some(t.as_str()),
        None => None,
    }
}

/// The word for a truth value that may be absent.
fn bool_string(b: &Option<bool>) -> (text: Option<String>)
    ensures
        opt_text(text) == opt_bool_text(*b),
{
    match b {
        Some(true) => Some(String::from_str("true")),
        Some(false) => Some(String::from_str("false")),
        None => None,
    }
}

/// The numeral of a whole number that may be absent.
fn int_string(i: &Option<i64>) -> (text: Option<String>)
    ensures
        opt_text(text) == opt_int_text(*i),
{
    match i {
        Some(i) => Some(signed_decimal_text(*i)),
        None => None,
    }
}

/// How a number that may be absent is shown.
fn number_string(n: &Option<SchemaNumber>) -> (text: Option<String>)
    ensures
        opt_text(text) == opt_number_text(*n),
{
    match n {
        Some(SchemaNumber::Integer(i)) => Some(
            String::from_str("Integer(").concat(signed_decimal_text(*i).as_str()).concat(")"),
        ),
        Some(SchemaNumber::Float(t)) => Some(String::from_str("Float(").concat(t.as_str()).concat(")")),
        None => None,
    }
}

/// How a list of texts that may be absent is shown.
fn list_string(items: &Option<Vec<String>>) -> (text: Option<String>)
    ensures
        opt_text(text) == opt_list_text(*items),
{
    match items {
        Some(list) => {
            let mut shown: Vec<String> = Vec::new();
            let mut i: usize = 0;
            while i < list.len()
                invariant
                    i <= list.len(),
                    shown@.len() == i,
                    forall|k: int| 0 <= k < i ==> shown@[k]@ == debug_text(list@[k]@),
                decreases list.len() - i,
            {
                shown.push(debug_string(list[i].as_str()));
                i += 1;
            }
            assert(texts(shown@) =~= debug_each(texts(list@)));
            proof {
                reveal_strlit(", ");
                assert(", "@ =~= seq![',', ' ']);
            }
            Some(String::from_str("[").concat(join_texts(&shown, ", ").as_str()).concat("]"))
        },
        None => None,
    }
}

/// The line for a keyword, where the value is there.
fn make_line(indent: &str, label: &str, value: Option<&str>) -> (text: String)
    ensures
        text@ == line(
            indent@,
            label@,
            match value {
                Some(v) => Some(v@),
                None => None,
            },
        ),
{
    match value {
        Some(v) => {
            proof {
                reveal_strlit("\n");
                assert("\n"@ =~= seq!['\n']);
            }
            String::from_str(indent).concat(label).concat(v).concat("\n")
        },
        None => String::new(),
    }
}

/// The texts, each on a line of its own behind the indentation.
fn lines_of_texts(items: &Vec<String>, indent: &str) -> (text: String)
    ensures
        text@ == text_lines(texts(items@), indent@, items@.len() as int),
{
    let mut text = String::new();
    let mut i: usize = 0;
    while i < items.len()
        invariant
            i <= items.len(),
            text@ == text_lines(texts(items@), indent@, i as int),
        decreases items.len() - i,
    {
        text.append(indent);
        text.append(items[i].as_str());
        text.append("\n");
        proof {
            reveal_strlit("\n");
            assert("\n"@ =~= seq!['\n']);
            assert(texts(items@)[i as int] == items@[i as int]@);
        }
        i += 1;
    }
    text
}

/// Whether a schema says nothing of its identity, its type, its properties,
/// its items or its combinations.
pub fn is_empty(schema: &Schema) -> (empty: bool)
    ensures
        empty == schema.is_bare(),
{
    schema.schema.is_none() && schema.id.is_none() && schema.reference.is_none() && schema.title.is_none()
        && schema.description.is_none() && schema.type_value.is_none() && schema.properties.is_none()
        && schema.required.is_none() && schema.items.is_none() && schema.all_of.is_none()
        && schema.any_of.is_none() && schema.one_of.is_none() && schema.not.is_none()
}

/// The type of a schema: its type name, or the first of several.
pub fn type_of_schema(schema: &Schema) -> (name: Option<String>)
    ensures
        opt_text(name) == schema.first_type(),
{
    match &schema.type_value {
        Some(StringOrStringArray::String(s)) => Some(s.clone()),
        Some(StringOrStringArray::Array(names)) => {
            if names.len() > 0 {
                Some(names[0].clone())
            } else {
                None
            }
        },
        None => None,
    }
}

} // verus!
