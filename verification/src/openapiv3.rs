use vstd::prelude::*;
use std::sync::Arc;
use crate::context::{Context, Place};
use crate::decode::{
    expected_mapping, expected_mapping_message, flag_at, flag_field, list_field, note, optional_text_at,
    optional_text_field, text_at, text_field, texts_at,
};
use crate::error::{failure_in, failures_of, CompilerError, ErrorGroup};
use crate::helpers::{entries_of, is_mapping, items_of, iter_map, map_value_for_key, string_entries};
use crate::node::{Node, Tree};
use crate::openapiv2::{document_node, document_tree};
use crate::reader::parse_bytes;
use crate::text::texts;

verus! {

/// A description of an API in the OpenAPI format, version 3.
#[derive(Debug)]
pub struct Document {
    pub openapi: String,
    pub info: Option<Info>,
    pub servers: Vec<Server>,
    pub paths: Option<Paths>,
    pub components: Option<Components>,
    pub tags: Vec<Tag>,
    pub external_docs: Option<ExternalDocs>,
}

/// What an API is and who offers it.
#[derive(Debug, Clone, Default, PartialEq)]
pub struct Info {
    pub title: String,
    pub description: String,
    pub terms_of_service: String,
    pub contact: Option<Contact>,
    pub license: Option<License>,
    pub version: String,
}

/// Whom to ask about an API.
#[derive(Debug, Clone, Default, PartialEq)]
pub struct Contact {
    pub name: String,
    pub url: String,
    pub email: String,
}

/// The license of an API.
#[derive(Debug, Clone, Default, PartialEq)]
pub struct License {
    pub name: String,
    pub url: String,
}

/// A server that offers an API.
#[derive(Debug, Clone, Default, PartialEq)]
pub struct Server {
    pub url: String,
    pub description: String,
}

/// The paths of an API, in the order of the document.
#[derive(Debug, Clone, Default, PartialEq)]
pub struct Paths {
    pub path: Vec<NamedPathItem>,
}

/// A path with what it offers.
#[derive(Debug, Clone, Default, PartialEq)]
pub struct NamedPathItem {
    pub name: String,
    pub value: Option<PathItem>,
}

/// The operations of one path.
#[derive(Debug, Clone, Default, PartialEq)]
pub struct PathItem {
    /// The `$ref` of the path item.
    pub reference: String,
    pub summary: String,
    pub description: String,
    pub get: Option<Operation>,
    pub put: Option<Operation>,
    pub post: Option<Operation>,
    pub delete: Option<Operation>,
    pub options: Option<Operation>,
    pub head: Option<Operation>,
    pub patch: Option<Operation>,
    pub trace: Option<Operation>,
}

/// One operation on a path.
#[derive(Debug, Clone, Default, PartialEq)]
pub struct Operation {
    pub tags: Vec<String>,
    pub summary: String,
    pub description: String,
    pub operation_id: String,
    pub deprecated: bool,
    pub responses: Option<Responses>,
}

/// The responses of an operation, in the order of the document.
#[derive(Debug, Clone, Default, PartialEq)]
pub struct Responses {
    pub response_or_reference: Vec<NamedResponseOrReference>,
}

/// A response, or a reference to one, with its status code.
#[derive(Debug, Clone, Default, PartialEq)]
pub struct NamedResponseOrReference {
    pub name: String,
    pub value: Option<ResponseOrReference>,
}

/// A response, or a reference to one.
#[derive(Debug, Clone, Default, PartialEq)]
pub struct ResponseOrReference {
    pub oneof: Option<ResponseOrReferenceOneof>,
}

/// The two forms of a `ResponseOrReference`.
#[derive(Debug, Clone, PartialEq)]
pub enum ResponseOrReferenceOneof {
    Response(Response),
    Reference(Reference),
}

/// What an operation answers.
#[derive(Debug, Clone, Default, PartialEq)]
pub struct Response {
    pub description: String,
}

/// A reference to a part of a document.
#[derive(Debug, Clone, Default, PartialEq)]
pub struct Reference {
    /// The `$ref` itself.
    pub reference: String,
    pub summary: String,
    pub description: String,
}

/// The parts of a document that are meant to be referred to.
#[derive(Debug)]
pub struct Components {
    pub schemas: Option<SchemasOrReferences>,
}

/// Named schemas, in the order of the document.
#[derive(Debug)]
pub struct SchemasOrReferences {
    pub additional_properties: Vec<NamedSchemaOrReference>,
}

/// A schema, or a reference to one, with its name.
#[derive(Debug)]
pub struct NamedSchemaOrReference {
    pub name: String,
    pub value: Option<SchemaOrReference>,
}

/// A schema, or a reference to one.
#[derive(Debug)]
pub struct SchemaOrReference {
    pub oneof: Option<SchemaOrReferenceOneof>,
}

/// The two forms of a `SchemaOrReference`.
#[derive(Debug)]
pub enum SchemaOrReferenceOneof {
    Schema(Box<Schema>),
    Reference(Reference),
}

/// The shape of a value.
#[derive(Debug)]
pub struct Schema {
    /// The `type` of the schema.
    pub type_value: String,
    pub format: String,
    pub title: String,
    pub description: String,
    pub nullable: bool,
    pub read_only: bool,
    pub write_only: bool,
    pub deprecated: bool,
    pub properties: Option<Properties>,
    pub required: Vec<String>,
    pub items: Option<ItemsItem>,
}

/// The schema of the items of an array.
#[derive(Debug)]
pub struct ItemsItem {
    pub schema_or_reference: Vec<SchemaOrReference>,
}

/// The properties of an object, in the order of the document.
#[derive(Debug)]
pub struct Properties {
    pub additional_properties: Vec<NamedSchemaOrReference>,
}

/// A tag for operations.
#[derive(Debug, Clone, Default, PartialEq)]
pub struct Tag {
    pub name: String,
    pub description: String,
}

/// Where more documentation is.
#[derive(Debug, Clone, Default, PartialEq)]
pub struct ExternalDocs {
    pub description: String,
    pub url: String,
}

/// Turns the nodes of a document into the parts of the description of an API.
pub struct Parser;

impl Contact {
    /// Whether this is what the tree says of a contact.
    pub open spec fn decodes(&self, tree: Tree) -> bool {
        &&& self.name@ == text_at(tree, "name"@)
        &&& self.url@ == text_at(tree, "url"@)
        &&& self.email@ == text_at(tree, "email"@)
    }
}

impl License {
    /// Whether this is what the tree says of a license.
    pub open spec fn decodes(&self, tree: Tree) -> bool {
        &&& self.name@ == text_at(tree, "name"@)
        &&& self.url@ == text_at(tree, "url"@)
    }
}

impl Info {
    /// Whether this is what the tree says of an API.
    pub open spec fn decodes(&self, tree: Tree) -> bool {
        &&& self.title@ == text_at(tree, "title"@)
        &&& self.description@ == text_at(tree, "description"@)
        &&& self.terms_of_service@ == text_at(tree, "termsOfService"@)
        &&& self.version@ == text_at(tree, "version"@)
        &&& match tree.value_for("contact"@) {
            Some(v) => self.contact matches Some(c) && c.decodes(v),
            None => self.contact is None,
        }
        &&& match tree.value_for("license"@) {
            Some(v) => self.license matches Some(l) && l.decodes(v),
            None => self.license is None,
        }
    }
}

impl Server {
    /// Whether this is what the tree says of a server.
    pub open spec fn decodes(&self, tree: Tree) -> bool {
        &&& self.url@ == text_at(tree, "url"@)
        &&& self.description@ == text_at(tree, "description"@)
    }
}

impl Tag {
    /// Whether this is what the tree says of a tag.
    pub open spec fn decodes(&self, tree: Tree) -> bool {
        &&& self.name@ == text_at(tree, "name"@)
        &&& self.description@ == text_at(tree, "description"@)
    }
}

impl ExternalDocs {
    /// Whether this is what the tree says of external documentation.
    pub open spec fn decodes(&self, tree: Tree) -> bool {
        &&& self.description@ == text_at(tree, "description"@)
        &&& self.url@ == text_at(tree, "url"@)
    }
}

impl Response {
    /// Whether this is what the tree says of a response.
    pub open spec fn decodes(&self, tree: Tree) -> bool {
        self.description@ == text_at(tree, "description"@)
    }
}

impl Reference {
    /// Whether this is the reference to `target`, with nothing else said.
    pub open spec fn points_to(&self, target: Seq<char>) -> bool {
        &&& self.reference@ == target
        &&& self.summary@.len() == 0
        &&& self.description@.len() == 0
    }
}

impl ResponseOrReference {
    /// Whether this is what the tree says: the reference under `$ref` where the
    /// tree has a scalar there, and a response otherwise.
    pub open spec fn decodes(&self, tree: Tree) -> bool {
        match optional_text_at(tree, "$ref"@) {
            Some(target) => self.oneof matches Some(ResponseOrReferenceOneof::Reference(r)) && r.points_to(target),
            None => self.oneof matches Some(ResponseOrReferenceOneof::Response(r)) && r.decodes(tree),
        }
    }
}

impl Responses {
    /// Whether these are the responses that the tree holds: one for each entry
    /// with a text key, in order.
    pub open spec fn decodes(&self, tree: Tree) -> bool {
        let entries = string_entries(entries_of(tree));
        &&& self.response_or_reference@.len() == entries.len()
        &&& forall|i: int|
            0 <= i < entries.len() ==> {
                &&& (#[trigger] self.response_or_reference@[i]).name@ == entries[i].0
                &&& self.response_or_reference@[i].value matches Some(r) && r.decodes(entries[i].1)
            }
    }
}

impl Operation {
    /// Whether this is what the tree says of an operation.
    pub open spec fn decodes(&self, tree: Tree) -> bool {
        &&& texts(self.tags@) == texts_at(tree, "tags"@)
        &&& self.summary@ == text_at(tree, "summary"@)
        &&& self.description@ == text_at(tree, "description"@)
        &&& self.operation_id@ == text_at(tree, "operationId"@)
        &&& self.deprecated == flag_at(tree, "deprecated"@)
        &&& match tree.value_for("responses"@) {
            Some(v) => self.responses matches Some(r) && r.decodes(v),
            None => self.responses is None,
        }
    }
}

/// Whether an operation is what the tree says under a method, if it says anything.
pub open spec fn method_decodes(operation: Option<Operation>, tree: Tree, method: Seq<char>) -> bool {
    match tree.value_for(method) {
        Some(v) => operation matches Some(op) && op.decodes(v),
        None => operation is None,
    }
}

impl PathItem {
    /// Whether this is what the tree says of a path.
    pub open spec fn decodes(&self, tree: Tree) -> bool {
        &&& self.reference@ == text_at(tree, "$ref"@)
        &&& self.summary@ == text_at(tree, "summary"@)
        &&& self.description@ == text_at(tree, "description"@)
        &&& method_decodes(self.get, tree, "get"@)
        &&& method_decodes(self.put, tree, "put"@)
        &&& method_decodes(self.post, tree, "post"@)
        &&& method_decodes(self.delete, tree, "delete"@)
        &&& method_decodes(self.options, tree, "options"@)
        &&& method_decodes(self.head, tree, "head"@)
        &&& method_decodes(self.patch, tree, "patch"@)
        &&& method_decodes(self.trace, tree, "trace"@)
    }
}

impl Paths {
    /// Whether these are the paths that the tree holds: one for each entry with
    /// a text key, in order.
    pub open spec fn decodes(&self, tree: Tree) -> bool {
        let entries = string_entries(entries_of(tree));
        &&& self.path@.len() == entries.len()
        &&& forall|i: int|
            0 <= i < entries.len() ==> {
                &&& (#[trigger] self.path@[i]).name@ == entries[i].0
                &&& self.path@[i].value matches Some(item) && item.decodes(entries[i].1)
            }
    }
}

/// Whether these are the schemas that the entries hold: one for each entry, in
/// order.
pub open spec fn named_schemas_decode(named: &Vec<NamedSchemaOrReference>, entries: Seq<(Seq<char>, Tree)>) -> bool
    decreases named, 0nat,
{
    &&& named.len() == entries.len()
    &&& forall|i: int|
        0 <= i < named.len() ==> {
            &&& (#[trigger] named[i]).name@ == entries[i].0
            &&& named[i].value matches Some(schema) && schema.decodes(entries[i].1)
        }
}

impl SchemaOrReference {
    /// Whether this is what the tree says: the reference under `$ref` where the
    /// tree has a scalar there, and a schema otherwise.
    pub open spec fn decodes(&self, tree: Tree) -> bool
        decreases self, 1nat,
    {
        match optional_text_at(tree, "$ref"@) {
            Some(target) => self.oneof matches Some(SchemaOrReferenceOneof::Reference(r)) && r.points_to(target),
            None => self.oneof matches Some(SchemaOrReferenceOneof::Schema(schema)) && schema.decodes(tree),
        }
    }
}

impl Schema {
    /// Whether this is what the tree says of a schema.
    pub open spec fn decodes(&self, tree: Tree) -> bool
        decreases self, 0nat,
    {
        &&& self.type_value@ == text_at(tree, "type"@)
        &&& self.format@ == text_at(tree, "format"@)
        &&& self.title@ == text_at(tree, "title"@)
        &&& self.description@ == text_at(tree, "description"@)
        &&& self.nullable == flag_at(tree, "nullable"@)
        &&& self.read_only == flag_at(tree, "readOnly"@)
        &&& self.write_only == flag_at(tree, "writeOnly"@)
        &&& self.deprecated == flag_at(tree, "deprecated"@)
        &&& match tree.value_for("properties"@) {
            Some(v) => self.properties matches Some(p) && named_schemas_decode(
                &p.additional_properties,
                string_entries(entries_of(v)),
            ),
            None => self.properties is None,
        }
        &&& texts(self.required@) == texts_at(tree, "required"@)
        &&& match tree.value_for("items"@) {
            Some(v) => self.items matches Some(items) && items.schema_or_reference.len() == 1
                && items.schema_or_reference[0].decodes(v),
            None => self.items is None,
        }
    }
}

impl Properties {
    /// Whether these are the properties that the tree holds: one for each entry
    /// with a text key, in order.
    pub open spec fn decodes(&self, tree: Tree) -> bool {
        named_schemas_decode(&self.additional_properties, string_entries(entries_of(tree)))
    }
}

impl SchemasOrReferences {
    /// Whether these are the schemas that the tree holds: one for each entry
    /// with a text key, in order.
    pub open spec fn decodes(&self, tree: Tree) -> bool {
        named_schemas_decode(&self.additional_properties, string_entries(entries_of(tree)))
    }
}

impl Components {
    /// Whether this is what the tree says of the components.
    pub open spec fn decodes(&self, tree: Tree) -> bool {
        match tree.value_for("schemas"@) {
            Some(v) => self.schemas matches Some(s) && s.decodes(v),
            None => self.schemas is None,
        }
    }
}

/// Whether these are the servers that the tree holds: one for each item of a
/// sequence, none of any other tree.
pub open spec fn servers_decode(servers: Seq<Server>, tree: Tree) -> bool {
    &&& servers.len() == items_of(tree).len()
    &&& forall|i: int| 0 <= i < servers.len() ==> (#[trigger] servers[i]).decodes(items_of(tree)[i])
}

/// Whether these are the tags that the tree holds: one for each item of a
/// sequence, none of any other tree.
pub open spec fn tags_decode(tags: Seq<Tag>, tree: Tree) -> bool {
    &&& tags.len() == items_of(tree).len()
    &&& forall|i: int| 0 <= i < tags.len() ==> (#[trigger] tags[i]).decodes(items_of(tree)[i])
}

impl Document {
    /// Whether this is what the tree, a mapping, says of an API.
    pub open spec fn decodes(&self, tree: Tree) -> bool {
        &&& self.openapi@ == text_at(tree, "openapi"@)
        &&& match tree.value_for("info"@) {
            Some(v) => self.info matches Some(info) && info.decodes(v),
            None => self.info is None,
        }
        &&& match tree.value_for("servers"@) {
            Some(v) => servers_decode(self.servers@, v),
            None => self.servers@.len() == 0,
        }
        &&& match tree.value_for("paths"@) {
            Some(v) => self.paths matches Some(paths) && paths.decodes(v),
            None => self.paths is None,
        }
        &&& match tree.value_for("components"@) {
            Some(v) => self.components matches Some(components) && components.decodes(v),
            None => self.components is None,
        }
        &&& match tree.value_for("tags"@) {
            Some(v) => tags_decode(self.tags@, v),
            None => self.tags@.len() == 0,
        }
        &&& match tree.value_for("externalDocs"@) {
            Some(v) => self.external_docs matches Some(docs) && docs.decodes(v),
            None => self.external_docs is None,
        }
    }
}

impl Parser {
    /// Reads a contact. Every node can be read as one.
    pub fn parse_contact(node: &Node, _context: &Arc<Context>) -> (result: Result<Contact, ErrorGroup>)
        ensures
            result matches Ok(contact) && contact.decodes(node@),
    {
        Ok(
            Contact {
                name: text_field(node, "name"),
                url: text_field(node, "url"),
                email: text_field(node, "email"),
            },
        )
    }

    /// Reads a license. Every node can be read as one.
    pub fn parse_license(node: &Node, _context: &Arc<Context>) -> (result: Result<License, ErrorGroup>)
        ensures
            result matches Ok(license) && license.decodes(node@),
    {
        Ok(License { name: text_field(node, "name"), url: text_field(node, "url") })
    }

    /// Reads what a document says of its API. Every node can be read so.
    pub fn parse_info(node: &Node, context: &Arc<Context>) -> (result: Result<Info, ErrorGroup>)
        ensures
            result matches Ok(info) && info.decodes(node@),
    {
        let contact = match map_value_for_key(node, "contact") {
            Some(v) => {
                let child = Arc::new(context.child("contact"));
                match Self::parse_contact(v, &child) {
                    Ok(contact) => Some(contact),
                    Err(_) => None,
                }
            },
            None => None,
        };
        let license = match map_value_for_key(node, "license") {
            Some(v) => {
                let child = Arc::new(context.child("license"));
                match Self::parse_license(v, &child) {
                    Ok(license) => Some(license),
                    Err(_) => None,
                }
            },
            None => None,
        };
        Ok(
            Info {
                title: text_field(node, "title"),
                description: text_field(node, "description"),
                terms_of_service: text_field(node, "termsOfService"),
                contact,
                license,
                version: text_field(node, "version"),
            },
        )
    }

    /// Reads a server. Every node can be read as one.
    pub fn parse_server(node: &Node, _context: &Arc<Context>) -> (result: Result<Server, ErrorGroup>)
        ensures
            result matches Ok(server) && server.decodes(node@),
    {
        Ok(Server { url: text_field(node, "url"), description: text_field(node, "description") })
    }

    /// Reads a tag. Every node can be read as one.
    pub fn parse_tag(node: &Node, _context: &Arc<Context>) -> (result: Result<Tag, ErrorGroup>)
        ensures
            result matches Ok(tag) && tag.decodes(node@),
    {
        Ok(Tag { name: text_field(node, "name"), description: text_field(node, "description") })
    }

    /// Reads external documentation. Every node can be read so.
    pub fn parse_external_docs(node: &Node, _context: &Arc<Context>) -> (result: Result<ExternalDocs, ErrorGroup>)
        ensures
            result matches Ok(docs) && docs.decodes(node@),
    {
        Ok(ExternalDocs { description: text_field(node, "description"), url: text_field(node, "url") })
    }

    /// Reads a response. Every node can be read as one.
    pub fn parse_response(node: &Node, _context: &Arc<Context>) -> (result: Result<Response, ErrorGroup>)
        ensures
            result matches Ok(response) && response.decodes(node@),
    {
        Ok(Response { description: text_field(node, "description") })
    }

    /// Reads a response, or the reference that stands for one.
    pub fn parse_response_or_reference(node: &Node, context: &Arc<Context>) -> (result: Result<
        ResponseOrReference,
        ErrorGroup,
    >)
        ensures
            result matches Ok(response) && response.decodes(node@),
    {
        match optional_text_field(node, "$ref") {
            Some(target) => Ok(
                ResponseOrReference {
                    oneof: Some(
                        ResponseOrReferenceOneof::Reference(
                            Reference { reference: target, summary: String::new(), description: String::new() },
                        ),
                    ),
                },
            ),
            None => match Self::parse_response(node, context) {
                Ok(response) => Ok(ResponseOrReference { oneof: Some(ResponseOrReferenceOneof::Response(response)) }),
                Err(e) => Err(e),
            },
        }
    }

    /// Reads the responses of an operation. Every node can be read so.
    pub fn parse_responses(node: &Node, context: &Arc<Context>) -> (result: Result<Responses, ErrorGroup>)
        ensures
            result matches Ok(responses) && responses.decodes(node@),
    {
        let entries = iter_map(node);
        let ghost wanted = string_entries(entries_of(node@));
        let mut list: Vec<NamedResponseOrReference> = Vec::new();
        let mut i: usize = 0;
        while i < entries.len()
            invariant
                i <= entries.len(),
                Seq::new(entries@.len(), |k: int| (entries@[k].0@, entries@[k].1@)) == wanted,
                list@.len() == i,
                forall|k: int|
                    0 <= k < i ==> {
                        &&& (#[trigger] list@[k]).name@ == wanted[k].0
                        &&& list@[k].value matches Some(r) && r.decodes(wanted[k].1)
                    },
            decreases entries.len() - i,
        {
            let (name, value) = entries[i];
            assert(wanted[i as int] == (name@, value@));
            let child = Arc::new(context.child(name.as_str()));
            match Self::parse_response_or_reference(value, &child) {
                Ok(response) => {
                    list.push(NamedResponseOrReference { name: name.clone(), value: Some(response) });
                },
                Err(_) => {},
            }
            i += 1;
        }
        assert(wanted.len() == entries@.len());
        Ok(Responses { response_or_reference: list })
    }

    /// Reads an operation. Every node can be read as one.
    pub fn parse_operation(node: &Node, context: &Arc<Context>) -> (result: Result<Operation, ErrorGroup>)
        ensures
            result matches Ok(operation) && operation.decodes(node@),
    {
        let responses = match map_value_for_key(node, "responses") {
            Some(v) => {
                let child = Arc::new(context.child("responses"));
                match Self::parse_responses(v, &child) {
                    Ok(responses) => Some(responses),
                    Err(_) => None,
                }
            },
            None => None,
        };
        Ok(
            Operation {
                tags: list_field(node, "tags"),
                summary: text_field(node, "summary"),
                description: text_field(node, "description"),
                operation_id: text_field(node, "operationId"),
                deprecated: flag_field(node, "deprecated"),
                responses,
            },
        )
    }

    /// Reads the operation under a method of a path, if the path has the method.
    fn parse_method(node: &Node, context: &Arc<Context>, method: &str) -> (operation: Option<Operation>)
        ensures
            method_decodes(operation, node@, method@),
    {
        match map_value_for_key(node, method) {
            Some(v) => {
                let child = Arc::new(context.child(method));
                match Self::parse_operation(v, &child) {
                    Ok(operation) => Some(operation),
                    Err(_) => None,
                }
            },
            None => None,
        }
    }

    /// Reads what a path offers. Every node can be read so.
    pub fn parse_path_item(node: &Node, context: &Arc<Context>) -> (result: Result<PathItem, ErrorGroup>)
        ensures
            result matches Ok(item) && item.decodes(node@),
    {
        Ok(
            PathItem {
                reference: text_field(node, "$ref"),
                summary: text_field(node, "summary"),
                description: text_field(node, "description"),
                get: Self::parse_method(node, context, "get"),
                put: Self::parse_method(node, context, "put"),
                post: Self::parse_method(node, context, "post"),
                delete: Self::parse_method(node, context, "delete"),
                options: Self::parse_method(node, context, "options"),
                head: Self::parse_method(node, context, "head"),
                patch: Self::parse_method(node, context, "patch"),
                trace: Self::parse_method(node, context, "trace"),
            },
        )
    }

    /// Reads the paths of a document. Every node can be read so.
    pub fn parse_paths(node: &Node, context: &Arc<Context>) -> (result: Result<Paths, ErrorGroup>)
        ensures
            result matches Ok(paths) && paths.decodes(node@),
    {
        let entries = iter_map(node);
        let ghost wanted = string_entries(entries_of(node@));
        let mut path: Vec<NamedPathItem> = Vec::new();
        let mut i: usize = 0;
        while i < entries.len()
            invariant
                i <= entries.len(),
                Seq::new(entries@.len(), |k: int| (entries@[k].0@, entries@[k].1@)) == wanted,
                path@.len() == i,
                forall|k: int|
                    0 <= k < i ==> {
                        &&& (#[trigger] path@[k]).name@ == wanted[k].0
                        &&& path@[k].value matches Some(item) && item.decodes(wanted[k].1)
                    },
            decreases entries.len() - i,
        {
            let (name, value) = entries[i];
            assert(wanted[i as int] == (name@, value@));
            let child = Arc::new(context.child(name.as_str()));
            match Self::parse_path_item(value, &child) {
                Ok(item) => {
                    path.push(NamedPathItem { name: name.clone(), value: Some(item) });
                },
                Err(_) => {},
            }
            i += 1;
        }
        assert(wanted.len() == entries@.len());
        Ok(Paths { path })
    }

    /// Reads the schemas under the text keys of a node, each with its name.
    fn parse_named_schemas(node: &Node, context: &Arc<Context>) -> (named: Vec<NamedSchemaOrReference>)
        ensures
            named_schemas_decode(&named, string_entries(entries_of(node@))),
        decreases node, 0nat,
    {
        let entries = iter_map(node);
        let ghost wanted = string_entries(entries_of(node@));
        let mut named: Vec<NamedSchemaOrReference> = Vec::new();
        let mut i: usize = 0;
        while i < entries.len()
            invariant
                i <= entries.len(),
                Seq::new(entries@.len(), |k: int| (entries@[k].0@, entries@[k].1@)) == wanted,
                forall|k: int| 0 <= k < entries@.len() ==> decreases_to!(node => (#[trigger] entries@[k]).1),
                named@.len() == i,
                forall|k: int|
                    0 <= k < i ==> {
                        &&& (#[trigger] named@[k]).name@ == wanted[k].0
                        &&& named@[k].value matches Some(schema) && schema.decodes(wanted[k].1)
                    },
            decreases entries.len() - i,
        {
            let (name, value) = entries[i];
            assert(wanted[i as int] == (name@, value@));
            assert(decreases_to!(node => entries@[i as int].1));
            let child = Arc::new(context.child(name.as_str()));
            match Self::parse_schema_or_reference(value, &child) {
                Ok(schema) => {
                    named.push(NamedSchemaOrReference { name: name.clone(), value: Some(schema) });
                },
                Err(_) => {},
            }
            i += 1;
        }
        assert(wanted.len() == entries@.len());
        named
    }

    /// Reads a schema, or the reference that stands for one.
    pub fn parse_schema_or_reference(node: &Node, context: &Arc<Context>) -> (result: Result<
        SchemaOrReference,
        ErrorGroup,
    >)
        ensures
            result matches Ok(schema) && schema.decodes(node@),
        decreases node, 2nat,
    {
        match optional_text_field(node, "$ref") {
            Some(target) => Ok(
                SchemaOrReference {
                    oneof: Some(
                        SchemaOrReferenceOneof::Reference(
                            Reference { reference: target, summary: String::new(), description: String::new() },
                        ),
                    ),
                },
            ),
            None => match Self::parse_schema(node, context) {
                Ok(schema) => Ok(SchemaOrReference { oneof: Some(SchemaOrReferenceOneof::Schema(Box::new(schema))) }),
                Err(e) => Err(e),
            },
        }
    }

    /// Reads a schema. Every node can be read as one.
    pub fn parse_schema(node: &Node, context: &Arc<Context>) -> (result: Result<Schema, ErrorGroup>)
        ensures
            result matches Ok(schema) && schema.decodes(node@),
        decreases node, 1nat,
    {
        let properties = match map_value_for_key(node, "properties") {
            Some(v) => {
                let child = Arc::new(context.child("properties"));
                match Self::parse_properties(v, &child) {
                    Ok(properties) => Some(properties),
                    Err(_) => None,
                }
            },
            None => None,
        };
        let items = match map_value_for_key(node, "items") {
            Some(v) => {
                let child = Arc::new(context.child("items"));
                match Self::parse_schema_or_reference(v, &child) {
                    Ok(schema) => {
                        let mut list: Vec<SchemaOrReference> = Vec::new();
                        list.push(schema);
                        Some(ItemsItem { schema_or_reference: list })
                    },
                    Err(_) => None,
                }
            },
            None => None,
        };
        Ok(
            Schema {
                type_value: text_field(node, "type"),
                format: text_field(node, "format"),
                title: text_field(node, "title"),
                description: text_field(node, "description"),
                nullable: flag_field(node, "nullable"),
                read_only: flag_field(node, "readOnly"),
                write_only: flag_field(node, "writeOnly"),
                deprecated: flag_field(node, "deprecated"),
                properties,
                required: list_field(node, "required"),
                items,
            },
        )
    }

    /// Reads the properties of an object. Every node can be read so.
    pub fn parse_properties(node: &Node, context: &Arc<Context>) -> (result: Result<Properties, ErrorGroup>)
        ensures
            result matches Ok(properties) && properties.decodes(node@),
        decreases node, 1nat,
    {
        Ok(Properties { additional_properties: Self::parse_named_schemas(node, context) })
    }

    /// Reads the schemas of the components. Every node can be read so.
    pub fn parse_schemas_or_references(node: &Node, context: &Arc<Context>) -> (result: Result<
        SchemasOrReferences,
        ErrorGroup,
    >)
        ensures
            result matches Ok(schemas) && schemas.decodes(node@),
    {
        Ok(SchemasOrReferences { additional_properties: Self::parse_named_schemas(node, context) })
    }

    /// Reads the components of a document. Every node can be read so.
    pub fn parse_components(node: &Node, context: &Arc<Context>) -> (result: Result<Components, ErrorGroup>)
        ensures
            result matches Ok(components) && components.decodes(node@),
    {
        let schemas = match map_value_for_key(node, "schemas") {
            Some(v) => {
                let child = Arc::new(context.child("schemas"));
                match Self::parse_schemas_or_references(v, &child) {
                    Ok(schemas) => Some(schemas),
                    Err(_) => None,
                }
            },
            None => None,
        };
        Ok(Components { schemas })
    }

    /// Reads the servers under `servers`: one for each item of a sequence.
    fn parse_servers(node: &Node, context: &Arc<Context>) -> (servers: Vec<Server>)
        ensures
            match node@.value_for("servers"@) {
                Some(v) => servers_decode(servers@, v),
                None => servers@.len() == 0,
            },
    {
        let mut servers: Vec<Server> = Vec::new();
        if let Some(v) = map_value_for_key(node, "servers") {
            if let Node::Sequence(items) = v {
                proof {
                    crate::node::lemma_sequence_view(*items);
                }
                let mut i: usize = 0;
                while i < items.len()
                    invariant
                        i <= items.len(),
                        servers@.len() == i,
                        forall|k: int| 0 <= k < i ==> (#[trigger] servers@[k]).decodes(items@[k]@),
                    decreases items.len() - i,
                {
                    let mut name = String::from_str("servers[");
                    name.append(crate::text::decimal_text(i as u64).as_str());
                    name.append("]");
                    let child = Arc::new(context.child(name.as_str()));
                    match Self::parse_server(&items[i], &child) {
                        Ok(server) => {
                            servers.push(server);
                        },
                        Err(_) => {},
                    }
                    i += 1;
                }
            }
        }
        servers
    }

    /// Reads the tags under `tags`: one for each item of a sequence.
    fn parse_tags(node: &Node, context: &Arc<Context>) -> (tags: Vec<Tag>)
        ensures
            match node@.value_for("tags"@) {
                Some(v) => tags_decode(tags@, v),
                None => tags@.len() == 0,
            },
    {
        let mut tags: Vec<Tag> = Vec::new();
        if let Some(v) = map_value_for_key(node, "tags") {
            if let Node::Sequence(items) = v {
                proof {
                    crate::node::lemma_sequence_view(*items);
                }
                let mut i: usize = 0;
                while i < items.len()
                    invariant
                        i <= items.len(),
                        tags@.len() == i,
                        forall|k: int| 0 <= k < i ==> (#[trigger] tags@[k]).decodes(items@[k]@),
                    decreases items.len() - i,
                {
                    let mut name = String::from_str("tags[");
                    name.append(crate::text::decimal_text(i as u64).as_str());
                    name.append("]");
                    let child = Arc::new(context.child(name.as_str()));
                    match Self::parse_tag(&items[i], &child) {
                        Ok(tag) => {
                            tags.push(tag);
                        },
                        Err(_) => {},
                    }
                    i += 1;
                }
            }
        }
        tags
    }

    /// Reads a document. Only a mapping can be read as one.
    pub fn parse_document(node: &Node, context: &Arc<Context>) -> (result: Result<Document, ErrorGroup>)
        ensures
            result is Ok <==> node@ is Mapping,
            match result {
                Ok(document) => document.decodes(node@),
                Err(group) => group@ == seq![failure_in(context.place(), expected_mapping(node@))],
            },
    {
        if !is_mapping(node) {
            let mut errors: Vec<CompilerError> = Vec::new();
            let message = expected_mapping_message(node);
            note(&mut errors, CompilerError::new(context, message.as_str()));
            assert(failures_of(errors@) =~= seq![failure_in(context.place(), expected_mapping(node@))]);
            return Err(ErrorGroup::new(errors));
        }
        let info = match map_value_for_key(node, "info") {
            Some(v) => {
                let child = Arc::new(context.child("info"));
                match Self::parse_info(v, &child) {
                    Ok(info) => Some(info),
                    Err(_) => None,
                }
            },
            None => None,
        };
        let paths = match map_value_for_key(node, "paths") {
            Some(v) => {
                let child = Arc::new(context.child("paths"));
                match Self::parse_paths(v, &child) {
                    Ok(paths) => Some(paths),
                    Err(_) => None,
                }
            },
            None => None,
        };
        let components = match map_value_for_key(node, "components") {
            Some(v) => {
                let child = Arc::new(context.child("components"));
                match Self::parse_components(v, &child) {
                    Ok(components) => Some(components),
                    Err(_) => None,
                }
            },
            None => None,
        };
        let external_docs = match map_value_for_key(node, "externalDocs") {
            Some(v) => {
                let child = Arc::new(context.child("externalDocs"));
                match Self::parse_external_docs(v, &child) {
                    Ok(docs) => Some(docs),
                    Err(_) => None,
                }
            },
            None => None,
        };
        Ok(
            Document {
                openapi: text_field(node, "openapi"),
                info,
                servers: Self::parse_servers(node, context),
                paths,
                components,
                tags: Self::parse_tags(node, context),
                external_docs,
            },
        )
    }
}

/// Reads a document from bytes, at the root context `$`. Bytes that cannot be
/// parsed give the one failure of the parser.
pub fn parse_document(bytes: &[u8]) -> (result: Result<Document, ErrorGroup>)
    ensures
        match crate::reader::parse_outcome(bytes@) {
            Ok(tree) => {
                &&& result is Ok <==> document_tree(tree) is Mapping
                &&& match result {
                    Ok(document) => document.decodes(document_tree(tree)),
                    Err(group) => group@ == seq![
                        failure_in(
                            Place { path: seq!['$'], position: None },
                            expected_mapping(document_tree(tree)),
                        ),
                    ],
                }
            },
            Err(failure) => result matches Err(group) && group@ == seq![failure],
        },
{
    match parse_bytes(bytes) {
        Ok(node) => {
            let context = Arc::new(Context::root("$"));
            proof {
                reveal_strlit("$");
                assert(crate::text::join(seq!["$"@], seq!['.']) =~= seq!['$']);
            }
            Parser::parse_document(document_node(&node), &context)
        },
        Err(error) => {
            let mut errors: Vec<CompilerError> = Vec::new();
            note(&mut errors, error);
            assert(failures_of(errors@) =~= seq![error@]);
            Err(ErrorGroup::new(errors))
        },
    }
}

/// The text of a document. Writing documents is not supported: the text is empty.
pub fn yaml_value(_doc: &Document) -> (bytes: Vec<u8>)
    ensures
        bytes@.len() == 0,
{
    Vec::new()
}

} // verus!
