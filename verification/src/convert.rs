//! The polymorphic conversion contract every loadable configuration type
//! implements, and the loader that resolves one field's key and converts the
//! node it leads to.
//!
//! Contracts are stated over each type's deep view: the mathematical value
//! of the loaded data (`Seq<char>` for strings, the integer itself for
//! integers, and so on).

use vstd::prelude::*;
use crate::path::{find_node_by_path, not_found_msg, not_object_msg, resolve_spec, PathOutcome};
use crate::value::ValueNode;
use crate::Unused;

verus! {

/// The opening of every conversion failure message, naming the
/// configuration and the full accumulated key.
pub open spec fn fail_prefix(config_name: Seq<char>, full_key: Seq<char>) -> Seq<char> {
    "Failed to load config \""@ + config_name + "\", key = \""@ + full_key
}

/// Builds a conversion failure message: the common prefix followed by
/// `what`, which closes the quoted key and states what was wrong.
pub fn make_load_err(config_name: &String, full_key: &String, what: &str) -> (r: String)
    ensures
        r@ == fail_prefix(config_name@, full_key@) + what@,
{
    let mut m = String::from_str("Failed to load config \"");
    m.append(config_name.as_str());
    m.append("\", key = \"");
    m.append(full_key.as_str());
    m.append(what);
    proof {
        assert(m@ =~= fail_prefix(config_name@, full_key@) + what@);
    }
    m
}

/// The message reporting a node that is not a number.
pub open spec fn not_number_msg(config_name: Seq<char>, full_key: Seq<char>) -> Seq<char> {
    fail_prefix(config_name, full_key) + "\", the value is not a number."@
}

/// The message reporting a number that does not denote an integer in range.
pub open spec fn not_unsigned_msg(config_name: Seq<char>, full_key: Seq<char>) -> Seq<char> {
    fail_prefix(config_name, full_key) + "\", the value is not unsigned."@
}

/// The message reporting a node that is not a boolean.
pub open spec fn not_boolean_msg(config_name: Seq<char>, full_key: Seq<char>) -> Seq<char> {
    fail_prefix(config_name, full_key) + "\", the value is not boolean."@
}

/// The message reporting a node that is not a string.
pub open spec fn not_string_msg(config_name: Seq<char>, full_key: Seq<char>) -> Seq<char> {
    fail_prefix(config_name, full_key) + "\", the value is not a string."@
}

/// The conversion contract of loadable configuration types: a default
/// value, an in-place conversion from a document node that reports failures
/// with the configuration's name and the field's full key, and a
/// human-readable rendering.
pub trait ConfigType: DeepView + Sized {
    /// The value this type reads from `node`, starting from the prior value
    /// `prior`; `None` when the node cannot be converted.
    spec fn load_view(prior: Self::V, node: ValueNode) -> Option<Self::V>;

    /// The message reported when the conversion fails.
    spec fn load_err_spec(node: ValueNode, config_name: Seq<char>, full_key: Seq<char>) -> Seq<
        char,
    >;

    /// The value `self` holds after a failed conversion from `node`: most
    /// types keep their prior value; the narrowed integers keep the zeroed
    /// intermediate, and the optional wrapper is set to the inner type's
    /// failure state.
    spec fn fail_view(prior: Self::V, node: ValueNode) -> Self::V;

    /// The default value.
    spec fn default_view() -> Self::V;

    /// The rendering `get_info_str` gives; `None` when the type opts out.
    spec fn info_spec(v: Self::V) -> Option<Seq<char>>;

    /// Create the default value.
    fn create_default() -> (r: Self)
        ensures
            r.deep_view() == Self::default_view(),
    ;

    /// Convert `value` into `self` in place. On failure the message embeds
    /// `config_name` and `full_key`, and `self` holds the type's failure
    /// state.
    fn load_json_value(&mut self, value: &ValueNode, config_name: &String, full_key: &String) -> (r:
        Result<Unused, String>)
        ensures
            match Self::load_view(old(self).deep_view(), *value) {
                Option::Some(v) => r is Ok && final(self).deep_view() == v,
                Option::None => r matches Err(m) && m@ == Self::load_err_spec(
                    *value,
                    config_name@,
                    full_key@,
                ) && final(self).deep_view() == Self::fail_view(old(self).deep_view(), *value),
            },
    ;

    /// A human-readable rendering of the value, for startup diagnostics.
    fn get_info_str(&self) -> (r: Option<String>)
        ensures
            match Self::info_spec(self.deep_view()) {
                Option::Some(s) => r matches Some(i) && i@ == s,
                Option::None => r is None,
            },
    ;
}

/// What loading one field yields: the field's new value, or the first
/// error's message. Resolution failures are forgiven for optional fields,
/// which keep their prior value.
pub open spec fn load_field_spec<T: ConfigType>(
    prior: T::V,
    root: ValueNode,
    key: Seq<char>,
    optional: bool,
    config_name: Seq<char>,
    full_key: Seq<char>,
) -> Result<T::V, Seq<char>> {
    match resolve_spec(root, key) {
        PathOutcome::Found(node) => match T::load_view(prior, node) {
            Option::Some(v) => Ok(v),
            Option::None => Err(T::load_err_spec(node, config_name, full_key)),
        },
        PathOutcome::NotFound(pre) => if optional {
            Ok(prior)
        } else {
            Err(not_found_msg(pre))
        },
        PathOutcome::NotAnObject(pre) => if optional {
            Ok(prior)
        } else {
            Err(not_object_msg(pre))
        },
    }
}

/// The value a field holds after one load attempt, successful or not: the
/// loaded value when the resolved node converts, the type's failure state
/// when it does not, and the prior value when the key does not resolve
/// (whether or not the field is optional — a failed resolution never
/// touches the output).
pub open spec fn field_fail_state<T: ConfigType>(
    prior: T::V,
    root: ValueNode,
    key: Seq<char>,
) -> T::V {
    match resolve_spec(root, key) {
        PathOutcome::Found(node) => match T::load_view(prior, node) {
            Option::Some(v) => v,
            Option::None => T::fail_view(prior, node),
        },
        PathOutcome::NotFound(_) => prior,
        PathOutcome::NotAnObject(_) => prior,
    }
}

/// Loads one field: resolves `key` against `root` and converts the node it
/// leads to into `output`. A resolution failure is forgiven when `optional`
/// holds, leaving `output` unchanged; any other failure is reported with
/// `config_name` and `full_key` context, and `output` holds the state
/// [`field_fail_state`] gives — in particular, a failed resolution of a
/// required field leaves it unchanged.
pub fn load_json_config<T: ConfigType>(
    output: &mut T,
    root: &ValueNode,
    key: &String,
    optional: bool,
    config_name: &String,
    full_key: &String,
) -> (r: Result<Unused, String>)
    ensures
        match load_field_spec::<T>(
            old(output).deep_view(),
            *root,
            key@,
            optional,
            config_name@,
            full_key@,
        ) {
            Ok(v) => r is Ok && final(output).deep_view() == v,
            Err(m) => r matches Err(e) && e@ == m && final(output).deep_view()
                == field_fail_state::<T>(old(output).deep_view(), *root, key@),
        },
{
    match find_node_by_path(root, key) {
        Result::Ok(value) => match output.load_json_value(value, config_name, full_key) {
            Result::Ok(_) => Ok(Unused {  }),
            Result::Err(err_string) => Err(err_string),
        },
        Result::Err(err_string) => {
            if optional {
                Ok(Unused {  })
            } else {
                Err(err_string)
            }
        },
    }
}

} // verus!
