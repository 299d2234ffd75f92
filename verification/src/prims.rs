//! Conversions of the built-in primitive types: signed and unsigned
//! integers (narrower widths go through a 64-bit intermediate and truncate),
//! booleans, strings, and the optional wrapper.

use vstd::prelude::*;
use crate::convert::{
    make_load_err, not_boolean_msg, not_number_msg, not_string_msg, not_unsigned_msg, ConfigType,
};
use crate::text::{dec_digits, dec_int, i64_to_string, u64_to_string};
use crate::value::ValueNode;
use crate::Unused;

verus! {

impl ConfigType for i64 {
    open spec fn load_view(prior: i64, node: ValueNode) -> Option<i64> {
        match node {
            ValueNode::Number(n) => n.as_i64_spec(),
            _ => None,
        }
    }

    open spec fn load_err_spec(node: ValueNode, config_name: Seq<char>, full_key: Seq<char>) -> Seq<
        char,
    > {
        match node {
            ValueNode::Number(n) => not_unsigned_msg(config_name, full_key),
            _ => not_number_msg(config_name, full_key),
        }
    }

    open spec fn fail_view(prior: i64, node: ValueNode) -> i64 {
        prior
    }

    open spec fn default_view() -> i64 {
        0
    }

    open spec fn info_spec(v: i64) -> Option<Seq<char>> {
        Some(dec_int(v as int))
    }

    fn create_default() -> i64 {
        0
    }

    fn load_json_value(&mut self, value: &ValueNode, config_name: &String, full_key: &String) -> (r:
        Result<Unused, String>) {
        match value {
            ValueNode::Number(json_num) => match json_num.as_fixed_point_i64() {
                Option::Some(num) => {
                    *self = num;
                    Ok(Unused {  })
                },
                Option::None => Err(
                    make_load_err(config_name, full_key, "\", the value is not unsigned."),
                ),
            },
            _ => Err(make_load_err(config_name, full_key, "\", the value is not a number.")),
        }
    }

    fn get_info_str(&self) -> Option<String> {
        Some(i64_to_string(*self))
    }
}

impl ConfigType for u64 {
    open spec fn load_view(prior: u64, node: ValueNode) -> Option<u64> {
        match node {
            ValueNode::Number(n) => n.as_u64_spec(),
            _ => None,
        }
    }

    open spec fn load_err_spec(node: ValueNode, config_name: Seq<char>, full_key: Seq<char>) -> Seq<
        char,
    > {
        match node {
            ValueNode::Number(n) => not_unsigned_msg(config_name, full_key),
            _ => not_number_msg(config_name, full_key),
        }
    }

    open spec fn fail_view(prior: u64, node: ValueNode) -> u64 {
        prior
    }

    open spec fn default_view() -> u64 {
        0
    }

    open spec fn info_spec(v: u64) -> Option<Seq<char>> {
        Some(dec_digits(v as nat))
    }

    fn create_default() -> u64 {
        0
    }

    fn load_json_value(&mut self, value: &ValueNode, config_name: &String, full_key: &String) -> (r:
        Result<Unused, String>) {
        match value {
            ValueNode::Number(json_num) => match json_num.as_fixed_point_u64() {
                Option::Some(num) => {
                    *self = num;
                    Ok(Unused {  })
                },
                Option::None => Err(
                    make_load_err(config_name, full_key, "\", the value is not unsigned."),
                ),
            },
            _ => Err(make_load_err(config_name, full_key, "\", the value is not a number.")),
        }
    }

    fn get_info_str(&self) -> Option<String> {
        Some(u64_to_string(*self))
    }
}

impl ConfigType for i32 {
    open spec fn load_view(prior: i32, node: ValueNode) -> Option<i32> {
        match <i64 as ConfigType>::load_view(0, node) {
            Option::Some(v) => Some(v as i32),
            Option::None => None,
        }
    }

    open spec fn load_err_spec(node: ValueNode, config_name: Seq<char>, full_key: Seq<char>) -> Seq<
        char,
    > {
        <i64 as ConfigType>::load_err_spec(node, config_name, full_key)
    }

    open spec fn fail_view(prior: i32, node: ValueNode) -> i32 {
        0
    }

    open spec fn default_view() -> i32 {
        0
    }

    open spec fn info_spec(v: i32) -> Option<Seq<char>> {
        Some(dec_int(v as int))
    }

    fn create_default() -> i32 {
        0
    }

    fn load_json_value(&mut self, value: &ValueNode, config_name: &String, full_key: &String) -> (r:
        Result<Unused, String>) {
        let mut val: i64 = 0;
        let ret = val.load_json_value(value, config_name, full_key);
        *self = #[verifier::truncate] (val as i32);
        ret
    }

    fn get_info_str(&self) -> Option<String> {
        Some(i64_to_string(*self as i64))
    }
}

impl ConfigType for i16 {
    open spec fn load_view(prior: i16, node: ValueNode) -> Option<i16> {
        match <i64 as ConfigType>::load_view(0, node) {
            Option::Some(v) => Some(v as i16),
            Option::None => None,
        }
    }

    open spec fn load_err_spec(node: ValueNode, config_name: Seq<char>, full_key: Seq<char>) -> Seq<
        char,
    > {
        <i64 as ConfigType>::load_err_spec(node, config_name, full_key)
    }

    open spec fn fail_view(prior: i16, node: ValueNode) -> i16 {
        0
    }

    open spec fn default_view() -> i16 {
        0
    }

    open spec fn info_spec(v: i16) -> Option<Seq<char>> {
        Some(dec_int(v as int))
    }

    fn create_default() -> i16 {
        0
    }

    fn load_json_value(&mut self, value: &ValueNode, config_name: &String, full_key: &String) -> (r:
        Result<Unused, String>) {
        let mut val: i64 = 0;
        let ret = val.load_json_value(value, config_name, full_key);
        *self = #[verifier::truncate] (val as i16);
        ret
    }

    fn get_info_str(&self) -> Option<String> {
        Some(i64_to_string(*self as i64))
    }
}

impl ConfigType for i8 {
    open spec fn load_view(prior: i8, node: ValueNode) -> Option<i8> {
        match <i64 as ConfigType>::load_view(0, node) {
            Option::Some(v) => Some(v as i8),
            Option::None => None,
        }
    }

    open spec fn load_err_spec(node: ValueNode, config_name: Seq<char>, full_key: Seq<char>) -> Seq<
        char,
    > {
        <i64 as ConfigType>::load_err_spec(node, config_name, full_key)
    }

    open spec fn fail_view(prior: i8, node: ValueNode) -> i8 {
        0
    }

    open spec fn default_view() -> i8 {
        0
    }

    open spec fn info_spec(v: i8) -> Option<Seq<char>> {
        Some(dec_int(v as int))
    }

    fn create_default() -> i8 {
        0
    }

    fn load_json_value(&mut self, value: &ValueNode, config_name: &String, full_key: &String) -> (r:
        Result<Unused, String>) {
        let mut val: i64 = 0;
        let ret = val.load_json_value(value, config_name, full_key);
        *self = #[verifier::truncate] (val as i8);
        ret
    }

    fn get_info_str(&self) -> Option<String> {
        Some(i64_to_string(*self as i64))
    }
}

impl ConfigType for u32 {
    open spec fn load_view(prior: u32, node: ValueNode) -> Option<u32> {
        match <u64 as ConfigType>::load_view(0, node) {
            Option::Some(v) => Some(v as u32),
            Option::None => None,
        }
    }

    open spec fn load_err_spec(node: ValueNode, config_name: Seq<char>, full_key: Seq<char>) -> Seq<
        char,
    > {
        <u64 as ConfigType>::load_err_spec(node, config_name, full_key)
    }

    open spec fn fail_view(prior: u32, node: ValueNode) -> u32 {
        0
    }

    open spec fn default_view() -> u32 {
        0
    }

    open spec fn info_spec(v: u32) -> Option<Seq<char>> {
        Some(dec_digits(v as nat))
    }

    fn create_default() -> u32 {
        0
    }

    fn load_json_value(&mut self, value: &ValueNode, config_name: &String, full_key: &String) -> (r:
        Result<Unused, String>) {
        let mut val: u64 = 0;
        let ret = val.load_json_value(value, config_name, full_key);
        *self = #[verifier::truncate] (val as u32);
        ret
    }

    fn get_info_str(&self) -> Option<String> {
        Some(u64_to_string(*self as u64))
    }
}

impl ConfigType for u16 {
    open spec fn load_view(prior: u16, node: ValueNode) -> Option<u16> {
        match <u64 as ConfigType>::load_view(0, node) {
            Option::Some(v) => Some(v as u16),
            Option::None => None,
        }
    }

    open spec fn load_err_spec(node: ValueNode, config_name: Seq<char>, full_key: Seq<char>) -> Seq<
        char,
    > {
        <u64 as ConfigType>::load_err_spec(node, config_name, full_key)
    }

    open spec fn fail_view(prior: u16, node: ValueNode) -> u16 {
        0
    }

    open spec fn default_view() -> u16 {
        0
    }

    open spec fn info_spec(v: u16) -> Option<Seq<char>> {
        Some(dec_digits(v as nat))
    }

    fn create_default() -> u16 {
        0
    }

    fn load_json_value(&mut self, value: &ValueNode, config_name: &String, full_key: &String) -> (r:
        Result<Unused, String>) {
        let mut val: u64 = 0;
        let ret = val.load_json_value(value, config_name, full_key);
        *self = #[verifier::truncate] (val as u16);
        ret
    }

    fn get_info_str(&self) -> Option<String> {
        Some(u64_to_string(*self as u64))
    }
}

impl ConfigType for u8 {
    open spec fn load_view(prior: u8, node: ValueNode) -> Option<u8> {
        match <u64 as ConfigType>::load_view(0, node) {
            Option::Some(v) => Some(v as u8),
            Option::None => None,
        }
    }

    open spec fn load_err_spec(node: ValueNode, config_name: Seq<char>, full_key: Seq<char>) -> Seq<
        char,
    > {
        <u64 as ConfigType>::load_err_spec(node, config_name, full_key)
    }

    open spec fn fail_view(prior: u8, node: ValueNode) -> u8 {
        0
    }

    open spec fn default_view() -> u8 {
        0
    }

    open spec fn info_spec(v: u8) -> Option<Seq<char>> {
        Some(dec_digits(v as nat))
    }

    fn create_default() -> u8 {
        0
    }

    fn load_json_value(&mut self, value: &ValueNode, config_name: &String, full_key: &String) -> (r:
        Result<Unused, String>) {
        let mut val: u64 = 0;
        let ret = val.load_json_value(value, config_name, full_key);
        *self = #[verifier::truncate] (val as u8);
        ret
    }

    fn get_info_str(&self) -> Option<String> {
        Some(u64_to_string(*self as u64))
    }
}

impl ConfigType for bool {
    open spec fn load_view(prior: bool, node: ValueNode) -> Option<bool> {
        match node {
            ValueNode::Boolean(b) => Some(b),
            _ => None,
        }
    }

    open spec fn load_err_spec(node: ValueNode, config_name: Seq<char>, full_key: Seq<char>) -> Seq<
        char,
    > {
        not_boolean_msg(config_name, full_key)
    }

    open spec fn fail_view(prior: bool, node: ValueNode) -> bool {
        prior
    }

    open spec fn default_view() -> bool {
        false
    }

    open spec fn info_spec(v: bool) -> Option<Seq<char>> {
        Some(if v { "true"@ } else { "false"@ })
    }

    fn create_default() -> bool {
        false
    }

    fn load_json_value(&mut self, value: &ValueNode, config_name: &String, full_key: &String) -> (r:
        Result<Unused, String>) {
        match value {
            ValueNode::Boolean(json_bool) => {
                *self = *json_bool;
                Ok(Unused {  })
            },
            _ => Err(make_load_err(config_name, full_key, "\", the value is not boolean.")),
        }
    }

    fn get_info_str(&self) -> Option<String> {
        if *self {
            Some(String::from_str("true"))
        } else {
            Some(String::from_str("false"))
        }
    }
}

impl ConfigType for String {
    open spec fn load_view(prior: Seq<char>, node: ValueNode) -> Option<Seq<char>> {
        match node {
            ValueNode::Str(s) => Some(s@),
            _ => None,
        }
    }

    open spec fn load_err_spec(node: ValueNode, config_name: Seq<char>, full_key: Seq<char>) -> Seq<
        char,
    > {
        not_string_msg(config_name, full_key)
    }

    open spec fn fail_view(prior: Seq<char>, node: ValueNode) -> Seq<char> {
        prior
    }

    open spec fn default_view() -> Seq<char> {
        Seq::<char>::empty()
    }

    open spec fn info_spec(v: Seq<char>) -> Option<Seq<char>> {
        Some("\""@ + v + "\""@)
    }

    fn create_default() -> String {
        String::new()
    }

    fn load_json_value(&mut self, value: &ValueNode, config_name: &String, full_key: &String) -> (r:
        Result<Unused, String>) {
        match value {
            ValueNode::Str(value_string) => {
                *self = value_string.clone();
                Ok(Unused {  })
            },
            _ => Err(make_load_err(config_name, full_key, "\", the value is not a string.")),
        }
    }

    fn get_info_str(&self) -> Option<String> {
        let mut m = String::from_str("\"");
        m.append(self.as_str());
        m.append("\"");
        proof {
            assert(m@ =~= "\""@ + self@ + "\""@);
        }
        Some(m)
    }
}

impl<T: ConfigType> ConfigType for Option<T> {
    open spec fn load_view(prior: Option<T::V>, node: ValueNode) -> Option<Option<T::V>> {
        match T::load_view(T::default_view(), node) {
            Option::Some(v) => Some(Some(v)),
            Option::None => None,
        }
    }

    open spec fn load_err_spec(node: ValueNode, config_name: Seq<char>, full_key: Seq<char>) -> Seq<
        char,
    > {
        T::load_err_spec(node, config_name, full_key)
    }

    open spec fn fail_view(prior: Option<T::V>, node: ValueNode) -> Option<T::V> {
        Some(T::fail_view(T::default_view(), node))
    }

    open spec fn default_view() -> Option<T::V> {
        None
    }

    open spec fn info_spec(v: Option<T::V>) -> Option<Seq<char>> {
        match v {
            Option::Some(tv) => T::info_spec(tv),
            Option::None => Some("none"@),
        }
    }

    fn create_default() -> Option<T> {
        None
    }

    fn load_json_value(&mut self, value: &ValueNode, config_name: &String, full_key: &String) -> (r:
        Result<Unused, String>) {
        let mut val = T::create_default();
        let ret = val.load_json_value(value, config_name, full_key);
        *self = Some(val);
        ret
    }

    fn get_info_str(&self) -> Option<String> {
        match self {
            Option::Some(val) => val.get_info_str(),
            Option::None => Some(String::from_str("none")),
        }
    }
}

} // verus!
