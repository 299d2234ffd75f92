//! Typed configuration loading: a hierarchical document value tree, a
//! slash-delimited path resolver, a polymorphic conversion contract for
//! loadable types, and the declarative-binding parsing chain that turns a
//! flat `key = value, ...` argument list into field bindings.

use vstd::prelude::*;

pub mod bindings;
pub mod config;
pub mod convert;
pub mod domain;
pub mod laws;
pub mod literal;
pub mod path;
pub mod prims;
pub mod splitter;
pub mod text;
pub mod value;

pub use bindings::{parse_attr_args, AttributeArgument, ConfigFieldInfo};
pub use config::{Config, LogConfig, ServiceConfig};
pub use convert::load_json_config;
pub use convert::ConfigType;
pub use domain::{ConfigPath, Group, Level, User};
pub use literal::{parse_value_str, LiteralToken};
pub use path::find_node_by_path;
pub use splitter::split_arguments;
pub use value::Number;
pub use value::ValueNode;

verus! {

/// Result payload for operations that succeed without producing a value.
#[derive(Debug)]
pub struct Unused {}

} // verus!
