use vstd::prelude::*;
use std::sync::Arc;
use crate::context::{Context, Place};
use crate::decode::{expected_mapping, expected_mapping_message, note, text_at, text_field};
use crate::error::{failure_in, failures_of, CompilerError, ErrorGroup};
use crate::helpers::is_mapping;
use crate::node::{Node, Tree};
use crate::openapiv2::{document_node, document_tree};
use crate::reader::parse_bytes;
use crate::text::same_text;

verus! {

/// The address of the directory of APIs.
pub const APIS_LIST_SERVICE_URL: &'static str = "https://www.googleapis.com/discovery/v1/apis";

/// The description of an API in the Discovery format.
#[derive(Debug, Clone, Default, PartialEq)]
pub struct Document {
    pub kind: String,
    pub discovery_version: String,
    pub id: String,
    pub name: String,
    pub version: String,
    pub revision: String,
    pub title: String,
    pub description: String,
    pub documentation_link: String,
    pub protocol: String,
    pub base_url: String,
    pub base_path: String,
    pub root_url: String,
    pub service_path: String,
    pub batch_path: String,
}

/// Turns the node of a document into the description of an API.
pub struct Parser;

impl Document {
    /// Whether this is what the tree says of an API.
    pub open spec fn decodes(&self, tree: Tree) -> bool {
        &&& self.kind@ == text_at(tree, "kind"@)
        &&& self.discovery_version@ == text_at(tree, "discoveryVersion"@)
        &&& self.id@ == text_at(tree, "id"@)
        &&& self.name@ == text_at(tree, "name"@)
        &&& self.version@ == text_at(tree, "version"@)
        &&& self.revision@ == text_at(tree, "revision"@)
        &&& self.title@ == text_at(tree, "title"@)
        &&& self.description@ == text_at(tree, "description"@)
        &&& self.documentation_link@ == text_at(tree, "documentationLink"@)
        &&& self.protocol@ == text_at(tree, "protocol"@)
        &&& self.base_url@ == text_at(tree, "baseUrl"@)
        &&& self.base_path@ == text_at(tree, "basePath"@)
        &&& self.root_url@ == text_at(tree, "rootUrl"@)
        &&& self.service_path@ == text_at(tree, "servicePath"@)
        &&& self.batch_path@ == text_at(tree, "batchPath"@)
    }
}

impl Parser {
    /// Reads a document. Only a mapping can be read as one.
    pub fn parse_document(node: &Node, context: &Arc<Context>) -> (result: Result<Document, ErrorGroup>)
        ensures
            result is Ok <==> node@ is Mapping,
            match result {
                Ok(document) => document.decodes(node@),
                Err(group) => group@ == seq![failure_in(context.place(), expected_mapping(node@))],
            },
    {
        if !is_mapping(node) {
            let mut errors: Vec<CompilerError> = Vec::new();
            let message = expected_mapping_message(node);
            note(&mut errors, CompilerError::new(context, message.as_str()));
            assert(failures_of(errors@) =~= seq![failure_in(context.place(), expected_mapping(node@))]);
            return Err(ErrorGroup::new(errors));
        }
        Ok(
            Document {
                kind: text_field(node, "kind"),
                discovery_version: text_field(node, "discoveryVersion"),
                id: text_field(node, "id"),
                name: text_field(node, "name"),
                version: text_field(node, "version"),
                revision: text_field(node, "revision"),
                title: text_field(node, "title"),
                description: text_field(node, "description"),
                documentation_link: text_field(node, "documentationLink"),
                protocol: text_field(node, "protocol"),
                base_url: text_field(node, "baseUrl"),
                base_path: text_field(node, "basePath"),
                root_url: text_field(node, "rootUrl"),
                service_path: text_field(node, "servicePath"),
                batch_path: text_field(node, "batchPath"),
            },
        )
    }
}

/// Reads a document from bytes, at the root context `$`. Bytes that cannot be
/// parsed give the one failure of the parser.
pub fn parse_document(bytes: &[u8]) -> (result: Result<Document, ErrorGroup>)
    ensures
        match crate::reader::parse_outcome(bytes@) {
            Ok(tree) => {
                &&& result is Ok <==> document_tree(tree) is Mapping
                &&& match result {
                    Ok(document) => document.decodes(document_tree(tree)),
                    Err(group) => group@ == seq![
                        failure_in(
                            Place { path: seq!['$'], position: None },
                            expected_mapping(document_tree(tree)),
                        ),
                    ],
                }
            },
            Err(failure) => result matches Err(group) && group@ == seq![failure],
        },
{
    match parse_bytes(bytes) {
        Ok(node) => {
            let context = Arc::new(Context::root("$"));
            proof {
                reveal_strlit("$");
                assert(crate::text::join(seq!["$"@], seq!['.']) =~= seq!['$']);
            }
            Parser::parse_document(document_node(&node), &context)
        },
        Err(error) => {
            let mut errors: Vec<CompilerError> = Vec::new();
            note(&mut errors, error);
            assert(failures_of(errors@) =~= seq![error@]);
            Err(ErrorGroup::new(errors))
        },
    }
}

/// The list of APIs that a directory service offers.
#[derive(Debug, Clone)]
pub struct ApiList {
    /// The kind of the response.
    pub kind: String,
    /// The version of the directory format.
    pub discovery_version: String,
    /// The APIs.
    pub items: Vec<Api>,
}

/// One API of a directory.
#[derive(Debug, Clone)]
pub struct Api {
    /// The kind of the item.
    pub kind: String,
    /// The identifier of the API.
    pub id: String,
    /// The name of the API.
    pub name: String,
    /// The version of the API.
    pub version: String,
    /// The title of the API.
    pub title: String,
    /// What the API is for.
    pub description: String,
    /// Where the description of the API is.
    pub discovery_rest_url: String,
    /// Where the documentation of the API is.
    pub documentation_link: String,
    /// Whether this is the preferred version of the API.
    pub preferred: bool,
}

/// The index of the first item at or after `from` with that name and version;
/// the number of items when there is none.
pub open spec fn first_named(items: Seq<Api>, name: Seq<char>, version: Seq<char>, from: int) -> int
    decreases items.len() - from,
{
    if from >= items.len() {
        items.len() as int
    } else if items[from].name@ == name && items[from].version@ == version {
        from
    } else {
        first_named(items, name, version, from + 1)
    }
}

/// The index of the first item at or after `from` with that name that is
/// preferred; the number of items when there is none.
pub open spec fn first_preferred(items: Seq<Api>, name: Seq<char>, from: int) -> int
    decreases items.len() - from,
{
    if from >= items.len() {
        items.len() as int
    } else if items[from].name@ == name && items[from].preferred {
        from
    } else {
        first_preferred(items, name, from + 1)
    }
}

impl ApiList {
    /// The first API of the list with that name and version.
    pub fn api_with_name_and_version(&self, name: &str, version: &str) -> (api: Option<&Api>)
        ensures
            match api {
                Some(a) => {
                    let at = first_named(self.items@, name@, version@, 0);
                    0 <= at < self.items@.len() && *a == self.items@[at]
                },
                None => first_named(self.items@, name@, version@, 0) == self.items@.len(),
            },
    {
        let mut i: usize = 0;
        while i < self.items.len()
            invariant
                i <= self.items.len(),
                first_named(self.items@, name@, version@, 0) == first_named(self.items@, name@, version@, i as int),
            decreases self.items.len() - i,
        {
            if same_text(self.items[i].name.as_str(), name) && same_text(self.items[i].version.as_str(), version) {
                return Some(&self.items[i]);
            }
            i += 1;
        }
        None
    }

    /// The first API of the list with that name that is the preferred version.
    pub fn preferred_api(&self, name: &str) -> (api: Option<&Api>)
        ensures
            match api {
                Some(a) => {
                    let at = first_preferred(self.items@, name@, 0);
                    0 <= at < self.items@.len() && *a == self.items@[at]
                },
                None => first_preferred(self.items@, name@, 0) == self.items@.len(),
            },
    {
        let mut i: usize = 0;
        while i < self.items.len()
            invariant
                i <= self.items.len(),
                first_preferred(self.items@, name@, 0) == first_preferred(self.items@, name@, i as int),
            decreases self.items.len() - i,
        {
            if same_text(self.items[i].name.as_str(), name) && self.items[i].preferred {
                return Some(&self.items[i]);
            }
            i += 1;
        }
        None
    }
}

} // verus!
