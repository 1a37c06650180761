pub mod context;
pub mod decode;
pub mod discovery;
pub mod error;
pub mod extensions;
pub mod fetch;
pub mod helpers;
pub mod jsonschema;
pub mod locator;
pub mod node;
pub mod openapiv2;
pub mod openapiv3;
pub mod reader;
pub mod store;
pub mod text;
pub mod yaml;

pub use context::Context;
pub use error::{CompilerError, ErrorGroup};
pub use extensions::{
    build_request, call_extension, get_extension_handlers, resume_extension, ExtensionHandler, ExtensionStep,
    HandlerStep, ProcessOutcome,
};
pub use helpers::{
    bool_for_scalar_node, display, int_for_scalar_node, invalid_keys_in_map, is_mapping, is_scalar, is_sequence,
    iter_map, iter_sequence, map_has_key, map_value_for_key, marshal, missing_keys_in_map, new_mapping_node,
    new_null_node, new_scalar_node_for_bool, new_scalar_node_for_int, new_scalar_node_for_string,
    new_sequence_node, new_sequence_node_for_string_array, plural_properties, position_from_yaml,
    sequence_node_for_node, sorted_keys_for_map, string_array_contains_value, string_array_contains_values,
    string_array_for_sequence_node, string_for_scalar_node, unpack_map,
};
pub use node::{Mapping, Node};
pub use reader::{
    clear_caches, clear_file_cache, clear_info_cache, complete_ref, disable_file_cache, disable_info_cache,
    enable_file_cache, enable_info_cache, fetch_file, finish_fetch, parse_bytes, read_bytes_for_file,
    read_info_for_ref, read_info_from_bytes, remove_from_file_cache, remove_from_info_cache, resolve_fragment,
    set_verbose_reader, ReadStep, Reader, RefStep,
};
