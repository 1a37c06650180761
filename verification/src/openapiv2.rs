use vstd::prelude::*;
use std::sync::Arc;
use crate::context::{Context, Place};
use crate::decode::{
    absorb, conclude, expected_mapping, expected_mapping_message, flag_at, flag_field, list_field, note,
    optional_text_at, optional_text_field, text_at, text_field, texts_at,
};
use crate::error::{failure_in, failures_of, CompilerError, ErrorGroup, Failure};
use crate::helpers::{
    entries_of, is_mapping, is_sequence, items_of, iter_map, iter_sequence, map_value_for_key, string_entries,
};
use crate::node::{Node, Tree};
use crate::reader::parse_bytes;
use crate::text::{decimal, decimal_text, texts};

verus! {

/// A description of an API in the OpenAPI format, version 2.
#[derive(Debug, Clone, Default, PartialEq)]
pub struct Document {
    pub swagger: String,
    pub info: Option<Info>,
    pub host: String,
    pub base_path: String,
    pub schemes: Vec<String>,
    pub consumes: Vec<String>,
    pub produces: Vec<String>,
    pub paths: Option<Paths>,
    pub definitions: Option<Definitions>,
    pub tags: Vec<Tag>,
    pub external_docs: Option<ExternalDocs>,
}

/// What an API is and who offers it.
#[derive(Debug, Clone, Default, PartialEq)]
pub struct Info {
    pub title: String,
    pub description: String,
    pub version: String,
    pub terms_of_service: String,
    pub contact: Option<Contact>,
    pub license: Option<License>,
}

/// Whom to ask about an API.
#[derive(Debug, Clone, Default, PartialEq)]
pub struct Contact {
    pub name: String,
    pub url: String,
    pub email: String,
}

/// The license of an API.
#[derive(Debug, Clone, Default, PartialEq)]
pub struct License {
    pub name: String,
    pub url: String,
}

/// The paths of an API, in the order of the document.
#[derive(Debug, Clone, Default, PartialEq)]
pub struct Paths {
    pub path: Vec<NamedPathItem>,
}

/// A path with what it offers.
#[derive(Debug, Clone, Default, PartialEq)]
pub struct NamedPathItem {
    pub name: String,
    pub value: Option<PathItem>,
}

/// The operations of one path.
#[derive(Debug, Clone, Default, PartialEq)]
pub struct PathItem {
    /// The `$ref` of the path item.
    pub reference: String,
    pub get: Option<Operation>,
    pub put: Option<Operation>,
    pub post: Option<Operation>,
    pub delete: Option<Operation>,
    pub options: Option<Operation>,
    pub head: Option<Operation>,
    pub patch: Option<Operation>,
}

/// One operation on a path.
#[derive(Debug, Clone, Default, PartialEq)]
pub struct Operation {
    pub tags: Vec<String>,
    pub summary: String,
    pub description: String,
    pub operation_id: String,
    pub consumes: Vec<String>,
    pub produces: Vec<String>,
    pub deprecated: bool,
}

/// The named schemas of a document, in the order of the document.
#[derive(Debug, Clone, Default, PartialEq)]
pub struct Definitions {
    pub additional_properties: Vec<NamedSchema>,
}

/// A schema with its name.
#[derive(Debug, Clone, Default, PartialEq)]
pub struct NamedSchema {
    pub name: String,
    pub value: Option<Schema>,
}

/// The shape of a value.
#[derive(Debug, Clone, Default, PartialEq)]
pub struct Schema {
    /// The `$ref` of the schema.
    pub reference: String,
    /// The `type` of the schema.
    pub type_value: Option<TypeItem>,
    pub format: String,
    pub title: String,
    pub description: String,
    pub required: Vec<String>,
}

/// The type names of a schema.
#[derive(Debug, Clone, Default, PartialEq)]
pub struct TypeItem {
    pub value: Vec<String>,
}

/// A tag for operations.
#[derive(Debug, Clone, Default, PartialEq)]
pub struct Tag {
    pub name: String,
    pub description: String,
    pub external_docs: Option<ExternalDocs>,
}

/// Where more documentation is.
#[derive(Debug, Clone, Default, PartialEq)]
pub struct ExternalDocs {
    pub description: String,
    pub url: String,
}

/// Turns the nodes of a document into the parts of the description of an API.
pub struct Parser;

impl Contact {
    /// Whether this is what the tree says of a contact.
    pub open spec fn decodes(&self, tree: Tree) -> bool {
        &&& self.name@ == text_at(tree, "name"@)
        &&& self.url@ == text_at(tree, "url"@)
        &&& self.email@ == text_at(tree, "email"@)
    }
}

impl License {
    /// Whether this is what the tree says of a license.
    pub open spec fn decodes(&self, tree: Tree) -> bool {
        &&& self.name@ == text_at(tree, "name"@)
        &&& self.url@ == text_at(tree, "url"@)
    }
}

impl Info {
    /// Whether this is what the tree says of an API.
    pub open spec fn decodes(&self, tree: Tree) -> bool {
        &&& self.title@ == text_at(tree, "title"@)
        &&& self.description@ == text_at(tree, "description"@)
        &&& self.version@ == text_at(tree, "version"@)
        &&& self.terms_of_service@ == text_at(tree, "termsOfService"@)
        &&& match tree.value_for("contact"@) {
            Some(v) => self.contact matches Some(c) && c.decodes(v),
            None => self.contact is None,
        }
        &&& match tree.value_for("license"@) {
            Some(v) => self.license matches Some(l) && l.decodes(v),
            None => self.license is None,
        }
    }
}

impl Operation {
    /// Whether this is what the tree says of an operation.
    pub open spec fn decodes(&self, tree: Tree) -> bool {
        &&& texts(self.tags@) == texts_at(tree, "tags"@)
        &&& self.summary@ == text_at(tree, "summary"@)
        &&& self.description@ == text_at(tree, "description"@)
        &&& self.operation_id@ == text_at(tree, "operationId"@)
        &&& texts(self.consumes@) == texts_at(tree, "consumes"@)
        &&& texts(self.produces@) == texts_at(tree, "produces"@)
        &&& self.deprecated == flag_at(tree, "deprecated"@)
    }
}

/// Whether an operation is what the tree says under a method, if it says anything.
pub open spec fn method_decodes(operation: Option<Operation>, tree: Tree, method: Seq<char>) -> bool {
    match tree.value_for(method) {
        Some(v) => operation matches Some(op) && op.decodes(v),
        None => operation is None,
    }
}

impl PathItem {
    /// Whether this is what the tree says of a path.
    pub open spec fn decodes(&self, tree: Tree) -> bool {
        &&& self.reference@ == text_at(tree, "$ref"@)
        &&& method_decodes(self.get, tree, "get"@)
        &&& method_decodes(self.put, tree, "put"@)
        &&& method_decodes(self.post, tree, "post"@)
        &&& method_decodes(self.delete, tree, "delete"@)
        &&& method_decodes(self.options, tree, "options"@)
        &&& method_decodes(self.head, tree, "head"@)
        &&& method_decodes(self.patch, tree, "patch"@)
    }
}

impl Paths {
    /// Whether these are the paths that the tree holds: one for each entry with
    /// a text key, in order.
    pub open spec fn decodes(&self, tree: Tree) -> bool {
        let entries = string_entries(entries_of(tree));
        &&& self.path@.len() == entries.len()
        &&& forall|i: int|
            0 <= i < entries.len() ==> {
                &&& (#[trigger] self.path@[i]).name@ == entries[i].0
                &&& self.path@[i].value matches Some(item) && item.decodes(entries[i].1)
            }
    }
}

impl Schema {
    /// Whether this is what the tree says of a schema.
    pub open spec fn decodes(&self, tree: Tree) -> bool {
        &&& self.reference@ == text_at(tree, "$ref"@)
        &&& match optional_text_at(tree, "type"@) {
            Some(name) => self.type_value matches Some(item) && texts(item.value@) == seq![name],
            None => self.type_value is None,
        }
        &&& self.format@ == text_at(tree, "format"@)
        &&& self.title@ == text_at(tree, "title"@)
        &&& self.description@ == text_at(tree, "description"@)
        &&& texts(self.required@) == texts_at(tree, "required"@)
    }
}

impl Definitions {
    /// Whether these are the schemas that the tree holds: one for each entry
    /// with a text key, in order.
    pub open spec fn decodes(&self, tree: Tree) -> bool {
        let entries = string_entries(entries_of(tree));
        &&& self.additional_properties@.len() == entries.len()
        &&& forall|i: int|
            0 <= i < entries.len() ==> {
                &&& (#[trigger] self.additional_properties@[i]).name@ == entries[i].0
                &&& self.additional_properties@[i].value matches Some(schema) && schema.decodes(entries[i].1)
            }
    }
}

impl ExternalDocs {
    /// Whether the tree can be read as external documentation: it is a mapping.
    pub open spec fn readable(tree: Tree) -> bool {
        tree is Mapping
    }

    /// The failures in reading the tree as external documentation.
    pub open spec fn failures(tree: Tree, place: Place) -> Seq<Failure> {
        if tree is Mapping {
            Seq::<Failure>::empty()
        } else {
            seq![failure_in(place, "externalDocs must be an object"@)]
        }
    }

    /// Whether this is what the tree says of external documentation.
    pub open spec fn decodes(&self, tree: Tree) -> bool {
        &&& self.description@ == text_at(tree, "description"@)
        &&& self.url@ == text_at(tree, "url"@)
    }
}

impl Tag {
    /// Whether the tree can be read as a tag: it is a mapping, and what it holds
    /// as external documentation can be read as such.
    pub open spec fn readable(tree: Tree) -> bool {
        &&& tree is Mapping
        &&& match tree.value_for("externalDocs"@) {
            Some(v) => ExternalDocs::readable(v),
            None => true,
        }
    }

    /// The failures in reading the tree as a tag.
    pub open spec fn failures(tree: Tree, place: Place) -> Seq<Failure> {
        if !(tree is Mapping) {
            seq![failure_in(place, "tag must be an object"@)]
        } else {
            match tree.value_for("externalDocs"@) {
                Some(v) => ExternalDocs::failures(v, place.child("externalDocs"@)),
                None => Seq::<Failure>::empty(),
            }
        }
    }

    /// Whether this is what the tree says of a tag.
    pub open spec fn decodes(&self, tree: Tree) -> bool {
        &&& self.name@ == text_at(tree, "name"@)
        &&& self.description@ == text_at(tree, "description"@)
        &&& match tree.value_for("externalDocs"@) {
            Some(v) => self.external_docs matches Some(docs) && docs.decodes(v),
            None => self.external_docs is None,
        }
    }
}

/// The failures in reading the first `count` items as tags, each at the place
/// of its index.
pub open spec fn tag_failures(items: Seq<Tree>, place: Place, count: int) -> Seq<Failure>
    decreases count,
{
    if count <= 0 {
        Seq::<Failure>::empty()
    } else {
        tag_failures(items, place, count - 1) + Tag::failures(
            items[count - 1],
            place.child(decimal((count - 1) as nat)),
        )
    }
}

/// Whether the tree can be read as a list of tags: it is a sequence of trees
/// that can be read as tags.
pub open spec fn tags_readable(tree: Tree) -> bool {
    &&& tree is Sequence
    &&& forall|i: int| 0 <= i < items_of(tree).len() ==> Tag::readable(#[trigger] items_of(tree)[i])
}

/// The failures in reading the tree as a list of tags.
pub open spec fn tags_failures(tree: Tree, place: Place) -> Seq<Failure> {
    if !(tree is Sequence) {
        seq![failure_in(place, "tags must be an array"@)]
    } else {
        tag_failures(items_of(tree), place, items_of(tree).len() as int)
    }
}

/// Whether these are the tags that the tree holds, in order.
pub open spec fn tags_decode(tags: Seq<Tag>, tree: Tree) -> bool {
    &&& tags.len() == items_of(tree).len()
    &&& forall|i: int| 0 <= i < tags.len() ==> (#[trigger] tags[i]).decodes(items_of(tree)[i])
}

impl Document {
    /// Whether the tree can be read as a document: it is a mapping, and what it
    /// holds as tags and as external documentation can be read as such.
    pub open spec fn readable(tree: Tree) -> bool {
        &&& tree is Mapping
        &&& match tree.value_for("tags"@) {
            Some(v) => tags_readable(v),
            None => true,
        }
        &&& match tree.value_for("externalDocs"@) {
            Some(v) => ExternalDocs::readable(v),
            None => true,
        }
    }

    /// The failures in reading the tree as a document: those of its tags, then
    /// those of its external documentation.
    pub open spec fn failures(tree: Tree, place: Place) -> Seq<Failure> {
        if !(tree is Mapping) {
            seq![failure_in(place, expected_mapping(tree))]
        } else {
            (match tree.value_for("tags"@) {
                Some(v) => tags_failures(v, place.child("tags"@)),
                None => Seq::<Failure>::empty(),
            }) + (match tree.value_for("externalDocs"@) {
                Some(v) => ExternalDocs::failures(v, place.child("externalDocs"@)),
                None => Seq::<Failure>::empty(),
            })
        }
    }

    /// Whether this is what can be read of the tree as a document. Of a tree
    /// that is no mapping nothing can be read. Of a mapping, each part is what
    /// the tree says of it, and a part that cannot be read is left out.
    pub open spec fn decodes(&self, tree: Tree) -> bool {
        if !(tree is Mapping) {
            self.is_blank()
        } else {
            &&& self.swagger@ == text_at(tree, "swagger"@)
            &&& match tree.value_for("info"@) {
                Some(v) => self.info matches Some(info) && info.decodes(v),
                None => self.info is None,
            }
            &&& self.host@ == text_at(tree, "host"@)
            &&& self.base_path@ == text_at(tree, "basePath"@)
            &&& texts(self.schemes@) == texts_at(tree, "schemes"@)
            &&& texts(self.consumes@) == texts_at(tree, "consumes"@)
            &&& texts(self.produces@) == texts_at(tree, "produces"@)
            &&& match tree.value_for("paths"@) {
                Some(v) => self.paths matches Some(paths) && paths.decodes(v),
                None => self.paths is None,
            }
            &&& match tree.value_for("definitions"@) {
                Some(v) => self.definitions matches Some(definitions) && definitions.decodes(v),
                None => self.definitions is None,
            }
            &&& match tree.value_for("tags"@) {
                Some(v) => if tags_readable(v) {
                    tags_decode(self.tags@, v)
                } else {
                    self.tags@.len() == 0
                },
                None => self.tags@.len() == 0,
            }
            &&& match tree.value_for("externalDocs"@) {
                Some(v) => if ExternalDocs::readable(v) {
                    self.external_docs matches Some(docs) && docs.decodes(v)
                } else {
                    self.external_docs is None
                },
                None => self.external_docs is None,
            }
        }
    }

    /// Whether nothing is known of the document: every text and list is empty,
    /// and every part is absent.
    pub open spec fn is_blank(&self) -> bool {
        &&& self.swagger@.len() == 0
        &&& self.info is None
        &&& self.host@.len() == 0
        &&& self.base_path@.len() == 0
        &&& self.schemes@.len() == 0
        &&& self.consumes@.len() == 0
        &&& self.produces@.len() == 0
        &&& self.paths is None
        &&& self.definitions is None
        &&& self.tags@.len() == 0
        &&& self.external_docs is None
    }
}

/// Each tag fails or can be read: what can be read gives no failure, and the
/// other way round.
pub proof fn lemma_tag_failures(items: Seq<Tree>, place: Place, count: int)
    requires
        0 <= count <= items.len(),
    ensures
        tag_failures(items, place, count).len() == 0 <==> (forall|i: int|
            0 <= i < count ==> Tag::readable(#[trigger] items[i])),
    decreases count,
{
    if count > 0 {
        lemma_tag_failures(items, place, count - 1);
        if tag_failures(items, place, count).len() == 0 {
            assert forall|i: int| 0 <= i < count implies Tag::readable(#[trigger] items[i]) by {
                if i == count - 1 {
                }
            }
        } else {
            if tag_failures(items, place, count - 1).len() == 0 {
                assert(!Tag::readable(items[count - 1]));
            }
        }
    }
}

/// A document can be read exactly when reading it gives no failure.
pub proof fn lemma_document_failures(tree: Tree, place: Place)
    ensures
        Document::failures(tree, place).len() == 0 <==> Document::readable(tree),
{
    if tree is Mapping {
        match tree.value_for("tags"@) {
            Some(v) => {
                if v is Sequence {
                    lemma_tag_failures(items_of(v), place.child("tags"@), items_of(v).len() as int);
                }
            },
            None => {},
        }
    }
}

impl Parser {
    /// Reads a contact. Every node can be read as one.
    pub fn parse_contact(node: &Node, _context: &Arc<Context>) -> (result: Result<Contact, ErrorGroup>)
        ensures
            result matches Ok(contact) && contact.decodes(node@),
    {
        Ok(
            Contact {
                name: text_field(node, "name"),
                url: text_field(node, "url"),
                email: text_field(node, "email"),
            },
        )
    }

    /// Reads a license. Every node can be read as one.
    pub fn parse_license(node: &Node, _context: &Arc<Context>) -> (result: Result<License, ErrorGroup>)
        ensures
            result matches Ok(license) && license.decodes(node@),
    {
        Ok(License { name: text_field(node, "name"), url: text_field(node, "url") })
    }

    /// Reads what a document says of its API. Every node can be read so.
    pub fn parse_info(node: &Node, context: &Arc<Context>) -> (result: Result<Info, ErrorGroup>)
        ensures
            result matches Ok(info) && info.decodes(node@),
    {
        let mut errors: Vec<CompilerError> = Vec::new();
        let contact = match map_value_for_key(node, "contact") {
            Some(v) => {
                let child = Arc::new(context.child("contact"));
                match Self::parse_contact(v, &child) {
                    Ok(contact) => Some(contact),
                    Err(e) => {
                        absorb(&mut errors, e);
                        None
                    },
                }
            },
            None => None,
        };
        let license = match map_value_for_key(node, "license") {
            Some(v) => {
                let child = Arc::new(context.child("license"));
                match Self::parse_license(v, &child) {
                    Ok(license) => Some(license),
                    Err(e) => {
                        absorb(&mut errors, e);
                        None
                    },
                }
            },
            None => None,
        };
        let info = Info {
            title: text_field(node, "title"),
            description: text_field(node, "description"),
            version: text_field(node, "version"),
            terms_of_service: text_field(node, "termsOfService"),
            contact,
            license,
        };
        conclude(info, errors)
    }

    /// Reads an operation. Every node can be read as one.
    pub fn parse_operation(node: &Node, _context: &Arc<Context>) -> (result: Result<Operation, ErrorGroup>)
        ensures
            result matches Ok(operation) && operation.decodes(node@),
    {
        Ok(
            Operation {
                tags: list_field(node, "tags"),
                summary: text_field(node, "summary"),
                description: text_field(node, "description"),
                operation_id: text_field(node, "operationId"),
                consumes: list_field(node, "consumes"),
                produces: list_field(node, "produces"),
                deprecated: flag_field(node, "deprecated"),
            },
        )
    }

    /// Reads the operation under a method of a path, if the path has the method.
    fn parse_method(node: &Node, context: &Arc<Context>, method: &str) -> (operation: Option<Operation>)
        ensures
            method_decodes(operation, node@, method@),
    {
        match map_value_for_key(node, method) {
            Some(v) => {
                let child = Arc::new(context.child(method));
                match Self::parse_operation(v, &child) {
                    Ok(operation) => Some(operation),
                    Err(_) => None,
                }
            },
            None => None,
        }
    }

    /// Reads what a path offers. Every node can be read so.
    pub fn parse_path_item(node: &Node, context: &Arc<Context>) -> (result: Result<PathItem, ErrorGroup>)
        ensures
            result matches Ok(item) && item.decodes(node@),
    {
        Ok(
            PathItem {
                reference: text_field(node, "$ref"),
                get: Self::parse_method(node, context, "get"),
                put: Self::parse_method(node, context, "put"),
                post: Self::parse_method(node, context, "post"),
                delete: Self::parse_method(node, context, "delete"),
                options: Self::parse_method(node, context, "options"),
                head: Self::parse_method(node, context, "head"),
                patch: Self::parse_method(node, context, "patch"),
            },
        )
    }

    /// Reads the paths of a document. Every node can be read so.
    pub fn parse_paths(node: &Node, context: &Arc<Context>) -> (result: Result<Paths, ErrorGroup>)
        ensures
            result matches Ok(paths) && paths.decodes(node@),
    {
        let entries = iter_map(node);
        let ghost wanted = string_entries(entries_of(node@));
        let mut path: Vec<NamedPathItem> = Vec::new();
        let mut i: usize = 0;
        while i < entries.len()
            invariant
                i <= entries.len(),
                Seq::new(entries@.len(), |k: int| (entries@[k].0@, entries@[k].1@)) == wanted,
                path@.len() == i,
                forall|k: int|
                    0 <= k < i ==> {
                        &&& (#[trigger] path@[k]).name@ == wanted[k].0
                        &&& path@[k].value matches Some(item) && item.decodes(wanted[k].1)
                    },
            decreases entries.len() - i,
        {
            let (name, value) = entries[i];
            assert(wanted[i as int] == (name@, value@));
            let child = Arc::new(context.child(name.as_str()));
            match Self::parse_path_item(value, &child) {
                Ok(item) => {
                    path.push(NamedPathItem { name: name.clone(), value: Some(item) });
                },
                Err(_) => {},
            }
            i += 1;
        }
        assert(wanted.len() == entries@.len());
        Ok(Paths { path })
    }

    /// Reads a schema. Every node can be read as one.
    pub fn parse_schema(node: &Node, _context: &Arc<Context>) -> (result: Result<Schema, ErrorGroup>)
        ensures
            result matches Ok(schema) && schema.decodes(node@),
    {
        let type_value = match optional_text_field(node, "type") {
            Some(name) => {
                let mut value: Vec<String> = Vec::new();
                value.push(name);
                assert(texts(value@) =~= seq![name@]);
                Some(TypeItem { value })
            },
            None => None,
        };
        Ok(
            Schema {
                reference: text_field(node, "$ref"),
                type_value,
                format: text_field(node, "format"),
                title: text_field(node, "title"),
                description: text_field(node, "description"),
                required: list_field(node, "required"),
            },
        )
    }

    /// Reads the named schemas of a document. Every node can be read so.
    pub fn parse_definitions(node: &Node, context: &Arc<Context>) -> (result: Result<Definitions, ErrorGroup>)
        ensures
            result matches Ok(definitions) && definitions.decodes(node@),
    {
        let entries = iter_map(node);
        let ghost wanted = string_entries(entries_of(node@));
        let mut schemas: Vec<NamedSchema> = Vec::new();
        let mut i: usize = 0;
        while i < entries.len()
            invariant
                i <= entries.len(),
                Seq::new(entries@.len(), |k: int| (entries@[k].0@, entries@[k].1@)) == wanted,
                schemas@.len() == i,
                forall|k: int|
                    0 <= k < i ==> {
                        &&& (#[trigger] schemas@[k]).name@ == wanted[k].0
                        &&& schemas@[k].value matches Some(schema) && schema.decodes(wanted[k].1)
                    },
            decreases entries.len() - i,
        {
            let (name, value) = entries[i];
            assert(wanted[i as int] == (name@, value@));
            let child = Arc::new(context.child(name.as_str()));
            match Self::parse_schema(value, &child) {
                Ok(schema) => {
                    schemas.push(NamedSchema { name: name.clone(), value: Some(schema) });
                },
                Err(_) => {},
            }
            i += 1;
        }
        assert(wanted.len() == entries@.len());
        Ok(Definitions { additional_properties: schemas })
    }

    /// Reads external documentation. Only a mapping can be read so.
    pub fn parse_external_docs(node: &Node, context: &Arc<Context>) -> (result: Result<ExternalDocs, ErrorGroup>)
        ensures
            result is Ok <==> ExternalDocs::readable(node@),
            match result {
                Ok(docs) => docs.decodes(node@),
                Err(group) => group@ == ExternalDocs::failures(node@, context.place()) && group@.len() > 0,
            },
    {
        if !is_mapping(node) {
            let mut errors: Vec<CompilerError> = Vec::new();
            note(&mut errors, CompilerError::new(context, "externalDocs must be an object"));
            assert(failures_of(errors@) =~= ExternalDocs::failures(node@, context.place()));
            return Err(ErrorGroup::new(errors));
        }
        Ok(ExternalDocs { description: text_field(node, "description"), url: text_field(node, "url") })
    }

    /// Reads a tag. Only a mapping can be read so, and what it holds as external
    /// documentation must be a mapping.
    pub fn parse_tag(node: &Node, context: &Arc<Context>) -> (result: Result<Tag, ErrorGroup>)
        ensures
            result is Ok <==> Tag::readable(node@),
            match result {
                Ok(tag) => tag.decodes(node@),
                Err(group) => group@ == Tag::failures(node@, context.place()) && group@.len() > 0,
            },
    {
        let mut errors: Vec<CompilerError> = Vec::new();
        if !is_mapping(node) {
            note(&mut errors, CompilerError::new(context, "tag must be an object"));
            assert(failures_of(errors@) =~= Tag::failures(node@, context.place()));
            return Err(ErrorGroup::new(errors));
        }
        assert(failures_of(errors@) =~= Seq::<Failure>::empty());
        let external_docs = match map_value_for_key(node, "externalDocs") {
            Some(v) => {
                let child = Arc::new(context.child("externalDocs"));
                match Self::parse_external_docs(v, &child) {
                    Ok(docs) => Some(docs),
                    Err(e) => {
                        absorb(&mut errors, e);
                        None
                    },
                }
            },
            None => None,
        };
        assert(failures_of(errors@) =~= Tag::failures(node@, context.place()));
        let tag = Tag {
            name: text_field(node, "name"),
            description: text_field(node, "description"),
            external_docs,
        };
        conclude(tag, errors)
    }

    /// Reads the tags of a document. Only a sequence can be read so, and each of
    /// its items must be a tag.
    pub fn parse_tags(node: &Node, context: &Arc<Context>) -> (result: Result<Vec<Tag>, ErrorGroup>)
        ensures
            result is Ok <==> tags_readable(node@),
            match result {
                Ok(tags) => tags_decode(tags@, node@),
                Err(group) => group@ == tags_failures(node@, context.place()) && group@.len() > 0,
            },
    {
        let mut errors: Vec<CompilerError> = Vec::new();
        if !is_sequence(node) {
            note(&mut errors, CompilerError::new(context, "tags must be an array"));
            assert(failures_of(errors@) =~= tags_failures(node@, context.place()));
            return Err(ErrorGroup::new(errors));
        }
        let items = iter_sequence(node);
        let ghost trees = items_of(node@);
        let ghost place = context.place();
        let mut tags: Vec<Tag> = Vec::new();
        let mut i: usize = 0;
        assert(failures_of(errors@) =~= tag_failures(trees, place, 0));
        while i < items.len()
            invariant
                i <= items.len(),
                items@.len() == trees.len(),
                forall|k: int| 0 <= k < items@.len() ==> (#[trigger] items@[k]).0 == k && items@[k].1@ == trees[k],
                place == context.place(),
                failures_of(errors@) == tag_failures(trees, place, i as int),
                errors@.len() == 0 ==> tags@.len() == i,
                errors@.len() == 0 ==> forall|k: int| 0 <= k < i ==> (#[trigger] tags@[k]).decodes(trees[k]),
            decreases items.len() - i,
        {
            let (index, item) = items[i];
            let child = Arc::new(context.child(decimal_text(index as u64).as_str()));
            match Self::parse_tag(item, &child) {
                Ok(tag) => {
                    tags.push(tag);
                    assert(failures_of(errors@) =~= tag_failures(trees, place, i + 1));
                },
                Err(e) => {
                    absorb(&mut errors, e);
                    assert(failures_of(errors@).len() == errors@.len());
                },
            }
            i += 1;
        }
        proof {
            lemma_tag_failures(trees, place, trees.len() as int);
            assert(failures_of(errors@).len() == errors@.len());
        }
        conclude(tags, errors)
    }

    /// Reads a document as far as it can be read: the description of the API,
    /// with what could not be read left out, and the failures in the order of
    /// the parts. Of a node that is no mapping nothing is read.
    pub fn decode_document(node: &Node, context: &Arc<Context>) -> (decoded: (Document, ErrorGroup))
        ensures
            decoded.0.decodes(node@),
            decoded.1@ == Document::failures(node@, context.place()),
    {
        let mut errors: Vec<CompilerError> = Vec::new();
        if !is_mapping(node) {
            let message = expected_mapping_message(node);
            note(&mut errors, CompilerError::new(context, message.as_str()));
            assert(failures_of(errors@) =~= Document::failures(node@, context.place()));
            let blank = Document {
                swagger: String::new(),
                info: None,
                host: String::new(),
                base_path: String::new(),
                schemes: Vec::new(),
                consumes: Vec::new(),
                produces: Vec::new(),
                paths: None,
                definitions: None,
                tags: Vec::new(),
                external_docs: None,
            };
            return (blank, ErrorGroup::new(errors));
        }
        let info = match map_value_for_key(node, "info") {
            Some(v) => {
                let child = Arc::new(context.child("info"));
                match Self::parse_info(v, &child) {
                    Ok(info) => Some(info),
                    Err(_) => None,
                }
            },
            None => None,
        };
        let paths = match map_value_for_key(node, "paths") {
            Some(v) => {
                let child = Arc::new(context.child("paths"));
                match Self::parse_paths(v, &child) {
                    Ok(paths) => Some(paths),
                    Err(_) => None,
                }
            },
            None => None,
        };
        let definitions = match map_value_for_key(node, "definitions") {
            Some(v) => {
                let child = Arc::new(context.child("definitions"));
                match Self::parse_definitions(v, &child) {
                    Ok(definitions) => Some(definitions),
                    Err(_) => None,
                }
            },
            None => None,
        };
        assert(failures_of(errors@) =~= Seq::<Failure>::empty());
        let tags = match map_value_for_key(node, "tags") {
            Some(v) => {
                let child = Arc::new(context.child("tags"));
                match Self::parse_tags(v, &child) {
                    Ok(tags) => tags,
                    Err(e) => {
                        absorb(&mut errors, e);
                        Vec::new()
                    },
                }
            },
            None => Vec::new(),
        };
        let ghost tag_part = failures_of(errors@);
        let external_docs = match map_value_for_key(node, "externalDocs") {
            Some(v) => {
                let child = Arc::new(context.child("externalDocs"));
                match Self::parse_external_docs(v, &child) {
                    Ok(docs) => Some(docs),
                    Err(e) => {
                        absorb(&mut errors, e);
                        None
                    },
                }
            },
            None => None,
        };
        proof {
            match node@.value_for("tags"@) {
                Some(v) => {
                    if v is Sequence {
                        lemma_tag_failures(items_of(v), context.place().child("tags"@), items_of(v).len() as int);
                    }
                },
                None => {},
            }
            assert(failures_of(errors@) =~= Document::failures(node@, context.place()));
        }
        let document = Document {
            swagger: text_field(node, "swagger"),
            info,
            host: text_field(node, "host"),
            base_path: text_field(node, "basePath"),
            schemes: list_field(node, "schemes"),
            consumes: list_field(node, "consumes"),
            produces: list_field(node, "produces"),
            paths,
            definitions,
            tags,
            external_docs,
        };
        (document, ErrorGroup::new(errors))
    }

    /// Reads a document: the description of the API when every part could be
    /// read, and all the failures otherwise.
    pub fn parse_document(node: &Node, context: &Arc<Context>) -> (result: Result<Document, ErrorGroup>)
        ensures
            result is Ok <==> Document::readable(node@),
            match result {
                Ok(document) => document.decodes(node@),
                Err(group) => group@ == Document::failures(node@, context.place()) && group@.len() > 0,
            },
    {
        proof {
            lemma_document_failures(node@, context.place());
        }
        let (document, group) = Self::decode_document(node, context);
        match group.into_result() {
            Ok(_) => Ok(document),
            Err(group) => Err(group),
        }
    }
}

/// The node that stands for a document: the only item of a sequence of one, and
/// the node itself otherwise.
pub open spec fn document_tree(tree: Tree) -> Tree {
    match tree {
        Tree::Sequence(items) => if items.len() == 1 {
            items[0]
        } else {
            tree
        },
        _ => tree,
    }
}

/// The node that stands for a document.
pub fn document_node(node: &Node) -> (inner: &Node)
    ensures
        inner@ == document_tree(node@),
{
    match node {
        Node::Sequence(items) => {
            proof {
                crate::node::lemma_sequence_view(*items);
            }
            if items.len() == 1 {
                &items[0]
            } else {
                node
            }
        },
        _ => node,
    }
}

/// Reads the node of a document, at the root context `$`.
pub fn parse_node(node: &Node) -> (result: Result<Document, ErrorGroup>)
    ensures
        result is Ok <==> Document::readable(document_tree(node@)),
        match result {
            Ok(document) => document.decodes(document_tree(node@)),
            Err(group) => group@ == Document::failures(
                document_tree(node@),
                Place { path: seq!['$'], position: None },
            ),
        },
{
    let context = Arc::new(Context::root("$"));
    proof {
        reveal_strlit("$");
        assert(crate::text::join(seq!["$"@], seq!['.']) =~= seq!['$']);
    }
    Parser::parse_document(document_node(node), &context)
}

/// Reads a document from bytes. Bytes that cannot be parsed give the one
/// failure of the parser.
pub fn parse_document(bytes: &[u8]) -> (result: Result<Document, ErrorGroup>)
    ensures
        match crate::reader::parse_outcome(bytes@) {
            Ok(tree) => {
                &&& result is Ok <==> Document::readable(document_tree(tree))
                &&& match result {
                    Ok(document) => document.decodes(document_tree(tree)),
                    Err(group) => group@ == Document::failures(
                        document_tree(tree),
                        Place { path: seq!['$'], position: None },
                    ),
                }
            },
            Err(failure) => result matches Err(group) && group@ == seq![failure],
        },
{
    match parse_bytes(bytes) {
        Ok(node) => parse_node(&node),
        Err(error) => {
            let mut errors: Vec<CompilerError> = Vec::new();
            note(&mut errors, error);
            assert(failures_of(errors@) =~= seq![error@]);
            Err(ErrorGroup::new(errors))
        },
    }
}

} // verus!
