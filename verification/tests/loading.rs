//! Tests of the value tree, the path resolver, the per-type conversions,
//! the loader, and whole-configuration loading.

use mirror_config::find_node_by_path;
use mirror_config::load_json_config;
use mirror_config::Config;
use mirror_config::ConfigPath;
use mirror_config::ConfigType;
use mirror_config::Group;
use mirror_config::Level;
use mirror_config::LogConfig;
use mirror_config::Number;
use mirror_config::ServiceConfig;
use mirror_config::User;
use mirror_config::ValueNode;

fn obj(entries: Vec<(&str, ValueNode)>) -> ValueNode {
    ValueNode::Object(entries.into_iter().map(|(k, v)| (k.to_string(), v)).collect())
}

fn s(text: &str) -> ValueNode {
    ValueNode::Str(text.to_string())
}

fn n(v: i64) -> ValueNode {
    ValueNode::Number(Number::from_i64(v))
}

fn name() -> String {
    "config".to_string()
}

fn key(k: &str) -> String {
    k.to_string()
}

#[test]
fn number_fixed_point_accessors() {
    assert_eq!(Number::from_u64(500).as_fixed_point_u64(), Some(500));
    assert_eq!(Number { positive: true, mantissa: 5, exponent: 2 }.as_fixed_point_u64(), Some(500));
    // 10.2 is not integral.
    assert_eq!(Number { positive: true, mantissa: 102, exponent: -1 }.as_fixed_point_u64(), None);
    // 1200 stored as 12e2, read back down-scaled exactly.
    assert_eq!(Number { positive: true, mantissa: 120, exponent: -1 }.as_fixed_point_u64(), Some(12));
    // Negative numbers have no unsigned reading.
    assert_eq!(Number::from_i64(-3).as_fixed_point_u64(), None);
    assert_eq!(Number::from_i64(-3).as_fixed_point_i64(), Some(-3));
    assert_eq!(Number::from_i64(i64::MIN).as_fixed_point_i64(), Some(i64::MIN));
    // Too large for the signed reading.
    assert_eq!(Number::from_u64(u64::MAX).as_fixed_point_i64(), None);
    assert_eq!(Number::from_u64(u64::MAX).as_fixed_point_u64(), Some(u64::MAX));
}

#[test]
fn resolver_empty_key_returns_root() {
    let root = ValueNode::Boolean(true);
    let r = find_node_by_path(&root, &String::new()).unwrap();
    assert_eq!(*r, ValueNode::Boolean(true));
}

#[test]
fn resolver_walks_nested_objects() {
    let root = obj(vec![("a", obj(vec![("b", obj(vec![("c", n(7))]))]))]);
    let r = find_node_by_path(&root, &key("a/b/c")).unwrap();
    assert_eq!(*r, n(7));
}

#[test]
fn resolver_missing_leaf_reports_full_prefix() {
    // `root.a.b` exists and is an object, but has no member `c`.
    let root = obj(vec![("a", obj(vec![("b", obj(vec![("d", n(1))]))]))]);
    let err = find_node_by_path(&root, &key("a/b/c")).unwrap_err();
    assert_eq!(err, "Key \"a/b/c\" not found.");
    assert!(err.contains("not found"));
}

#[test]
fn resolver_non_object_reports_consumed_prefix() {
    let root = obj(vec![("a", n(5))]);
    let err = find_node_by_path(&root, &key("a/b")).unwrap_err();
    assert_eq!(err, "Key \"a\" is not an object.");
}

#[test]
fn resolver_non_object_root_reports_empty_prefix() {
    let root = n(5);
    let err = find_node_by_path(&root, &key("a")).unwrap_err();
    assert_eq!(err, "Key \"\" is not an object.");
}

#[test]
fn round_trip_signed_integers() {
    let cn = name();
    let fk = key("k");
    let mut v64: i64 = 0;
    assert!(v64.load_json_value(&n(-123456789), &cn, &fk).is_ok());
    assert_eq!(v64, -123456789);
    let mut v32: i32 = 0;
    assert!(v32.load_json_value(&n(-12345), &cn, &fk).is_ok());
    assert_eq!(v32, -12345);
    let mut v16: i16 = 0;
    assert!(v16.load_json_value(&n(-1234), &cn, &fk).is_ok());
    assert_eq!(v16, -1234);
    let mut v8: i8 = 0;
    assert!(v8.load_json_value(&n(-12), &cn, &fk).is_ok());
    assert_eq!(v8, -12);
}

#[test]
fn round_trip_unsigned_integers() {
    let cn = name();
    let fk = key("k");
    let mut v64: u64 = 0;
    assert!(v64.load_json_value(&n(123456789), &cn, &fk).is_ok());
    assert_eq!(v64, 123456789);
    let mut v32: u32 = 0;
    assert!(v32.load_json_value(&n(12345), &cn, &fk).is_ok());
    assert_eq!(v32, 12345);
    let mut v16: u16 = 0;
    assert!(v16.load_json_value(&n(1234), &cn, &fk).is_ok());
    assert_eq!(v16, 1234);
    let mut v8: u8 = 0;
    assert!(v8.load_json_value(&n(12), &cn, &fk).is_ok());
    assert_eq!(v8, 12);
}

#[test]
fn failed_conversions_keep_the_prior_value() {
    let cn = name();
    let fk = key("k");
    let mut v64: i64 = 17;
    assert!(v64.load_json_value(&s("x"), &cn, &fk).is_err());
    assert_eq!(v64, 17);
    let mut u: u64 = 23;
    assert!(u.load_json_value(&ValueNode::Boolean(true), &cn, &fk).is_err());
    assert_eq!(u, 23);
    let mut b: bool = true;
    assert!(b.load_json_value(&n(1), &cn, &fk).is_err());
    assert!(b);
    let mut t: String = "kept".to_string();
    assert!(t.load_json_value(&n(1), &cn, &fk).is_err());
    assert_eq!(t, "kept");
    let mut lv = Level::Warn;
    assert!(lv.load_json_value(&s("Verbose"), &cn, &fk).is_err());
    assert_eq!(lv, Level::Warn);
    let mut p = ConfigPath { path: "/kept".to_string() };
    assert!(p.load_json_value(&n(1), &cn, &fk).is_err());
    assert_eq!(p.path, "/kept");
    let mut usr = User::Username("kept".to_string());
    assert!(usr.load_json_value(&ValueNode::Null, &cn, &fk).is_err());
    assert_eq!(usr, User::Username("kept".to_string()));
}

#[test]
fn failed_narrow_conversion_keeps_the_zeroed_intermediate() {
    let cn = name();
    let fk = key("k");
    let mut v: i32 = 7;
    assert!(v.load_json_value(&s("x"), &cn, &fk).is_err());
    assert_eq!(v, 0);
    let mut u: u16 = 7;
    assert!(u.load_json_value(&ValueNode::Null, &cn, &fk).is_err());
    assert_eq!(u, 0);
}

#[test]
fn failed_optional_inner_load_still_sets_the_wrapper() {
    // The optional wrapper always materialises a value: on inner failure
    // it holds the inner type's failure state, built from a fresh default.
    let cn = name();
    let fk = key("k");
    let mut v: Option<i64> = Some(9);
    assert!(v.load_json_value(&s("x"), &cn, &fk).is_err());
    assert_eq!(v, Some(0));
}

#[test]
fn failed_required_resolution_keeps_the_output() {
    let root = obj(vec![("present", n(1))]);
    let mut v: i64 = 17;
    assert!(
        load_json_config(&mut v, &root, &key("missing"), false, &name(), &key("missing")).is_err()
    );
    assert_eq!(v, 17);
}

#[test]
fn narrow_integers_truncate_like_a_cast() {
    // Narrower widths load through the 64-bit intermediate and narrow
    // with a truncating cast.
    let cn = name();
    let fk = key("k");
    let mut v32u: u32 = 7;
    assert!(v32u.load_json_value(&n(4294967296), &cn, &fk).is_ok());
    assert_eq!(v32u, 0);
    let mut v32i: i32 = 7;
    assert!(v32i.load_json_value(&n(2147483648), &cn, &fk).is_ok());
    assert_eq!(v32i, i32::MIN);
}

#[test]
fn round_trip_bool_and_string() {
    let cn = name();
    let fk = key("k");
    let mut b: bool = false;
    assert!(b.load_json_value(&ValueNode::Boolean(true), &cn, &fk).is_ok());
    assert!(b);
    let mut t: String = String::new();
    assert!(t.load_json_value(&s("byte-for-byte"), &cn, &fk).is_ok());
    assert_eq!(t, "byte-for-byte");
}

#[test]
fn integer_type_mismatch_messages() {
    let cn = name();
    let fk = key("days");
    let mut v: i64 = 0;
    let err = v.load_json_value(&s("x"), &cn, &fk).unwrap_err();
    assert_eq!(err, "Failed to load config \"config\", key = \"days\", the value is not a number.");
    let err = v
        .load_json_value(
            &ValueNode::Number(Number { positive: true, mantissa: 15, exponent: -1 }),
            &cn,
            &fk,
        )
        .unwrap_err();
    assert_eq!(err, "Failed to load config \"config\", key = \"days\", the value is not unsigned.");
}

#[test]
fn bool_and_string_mismatch_messages() {
    let cn = name();
    let fk = key("f");
    let mut b: bool = false;
    let err = b.load_json_value(&n(1), &cn, &fk).unwrap_err();
    assert_eq!(err, "Failed to load config \"config\", key = \"f\", the value is not boolean.");
    let mut t: String = String::new();
    let err = t.load_json_value(&n(1), &cn, &fk).unwrap_err();
    assert_eq!(err, "Failed to load config \"config\", key = \"f\", the value is not a string.");
}

#[test]
fn required_field_absent_fails_load() {
    let root = obj(vec![("present", n(1))]);
    let mut v: i64 = 0;
    let err = load_json_config(&mut v, &root, &key("missing"), false, &name(), &key("missing"))
        .unwrap_err();
    assert_eq!(err, "Key \"missing\" not found.");
}

#[test]
fn optional_field_absent_stays_absent() {
    let root = obj(vec![("present", n(1))]);
    let mut v: Option<i64> = Option::<i64>::create_default();
    assert_eq!(v, None);
    let r = load_json_config(&mut v, &root, &key("missing"), true, &name(), &key("missing"));
    assert!(r.is_ok());
    assert_eq!(v, None);
}

#[test]
fn optional_field_present_is_loaded() {
    let root = obj(vec![("present", n(42))]);
    let mut v: Option<i64> = None;
    let r = load_json_config(&mut v, &root, &key("present"), true, &name(), &key("present"));
    assert!(r.is_ok());
    assert_eq!(v, Some(42));
}

#[test]
fn identity_from_name_and_id() {
    let cn = name();
    let fk = key("user");
    let mut u = User::create_default();
    assert!(u.load_json_value(&s("alice"), &cn, &fk).is_ok());
    assert_eq!(u, User::Username("alice".to_string()));
    assert!(u.load_json_value(&n(1000), &cn, &fk).is_ok());
    assert_eq!(u, User::Uid(1000));
    let err = u.load_json_value(&ValueNode::Boolean(true), &cn, &fk).unwrap_err();
    assert_eq!(err, "The value is not a username or UID.");
}

#[test]
fn group_from_name_and_id() {
    let cn = name();
    let fk = key("group");
    let mut g = Group::create_default();
    assert_eq!(g, Group::Gid(0));
    assert!(g.load_json_value(&s("staff"), &cn, &fk).is_ok());
    assert_eq!(g, Group::GroupName("staff".to_string()));
    assert!(g.load_json_value(&n(100), &cn, &fk).is_ok());
    assert_eq!(g, Group::Gid(100));
    let err = g.load_json_value(&ValueNode::Null, &cn, &fk).unwrap_err();
    assert_eq!(err, "The value is not a username or UID.");
}

#[test]
fn severity_level_accepts_the_closed_set() {
    let cn = name();
    let fk = key("log_level");
    let mut lv = Level::create_default();
    assert_eq!(lv, Level::Info);
    for (text, want) in [
        ("Trace", Level::Trace),
        ("Debug", Level::Debug),
        ("Info", Level::Info),
        ("Warn", Level::Warn),
        ("Error", Level::Error),
    ] {
        assert!(lv.load_json_value(&s(text), &cn, &fk).is_ok());
        assert_eq!(lv, want);
    }
}

#[test]
fn severity_level_rejects_other_names() {
    let cn = name();
    let fk = key("log_level");
    let mut lv = Level::Info;
    let err = lv.load_json_value(&s("Verbose"), &cn, &fk).unwrap_err();
    assert_eq!(
        err,
        "Failed to load config \"config\", key = \"log_level\", illegale log level \"Verbose\", \
         the log level should be \"Trace\", \"Debug\", \"Info\", \"Warn\" or \"Error\"."
    );
    // Matching is case-sensitive.
    assert!(lv.load_json_value(&s("warn"), &cn, &fk).is_err());
}

#[test]
fn info_strings_render_values() {
    let v32: i32 = -5;
    assert_eq!(v32.get_info_str(), Some("-5".to_string()));
    let v64: u64 = u64::MAX;
    assert_eq!(v64.get_info_str(), Some("18446744073709551615".to_string()));
    let b: bool = true;
    assert_eq!(b.get_info_str(), Some("true".to_string()));
    let t: String = "hi".to_string();
    assert_eq!(t.get_info_str(), Some("\"hi\"".to_string()));
    let none: Option<i64> = None;
    assert_eq!(none.get_info_str(), Some("none".to_string()));
    let some: Option<i64> = Some(7);
    assert_eq!(some.get_info_str(), Some("7".to_string()));
    assert_eq!(User::Uid(1000).get_info_str(), Some("Uid(1000)".to_string()));
    assert_eq!(
        User::Username("alice".to_string()).get_info_str(),
        Some("Username(\"alice\")".to_string())
    );
    assert_eq!(Group::Gid(0).get_info_str(), Some("Gid(0)".to_string()));
    assert_eq!(Level::Warn.get_info_str(), Some("Warn".to_string()));
    let p = ConfigPath { path: "/tmp/x".to_string() };
    assert_eq!(p.get_info_str(), Some("Path(\"/tmp/x\")".to_string()));
}

#[test]
fn log_config_end_to_end() {
    let root = obj(vec![
        ("log_path", s("/var/log/app.log")),
        ("log_level", s("Info")),
        ("max_log_days", n(30)),
    ]);
    let mut lc = LogConfig::new();
    assert_eq!(lc.max_log_days, -1);
    let r = lc.load_json_value(&root, &name(), &String::new());
    assert!(r.is_ok());
    assert_eq!(lc.log_path.path, "/var/log/app.log");
    assert_eq!(lc.log_level, Level::Info);
    assert_eq!(lc.max_log_days, 30);
    assert_eq!(
        lc.get_info_str(),
        Some(
            "log_path = Path(\"/var/log/app.log\"), log_level = Info, max_log_days = 30"
                .to_string()
        )
    );
}

#[test]
fn log_config_missing_field_fails_whole_load() {
    let root = obj(vec![("log_path", s("/var/log/app.log")), ("log_level", s("Info"))]);
    let mut lc = LogConfig::new();
    let err = lc.load_json_value(&root, &name(), &String::new()).unwrap_err();
    assert_eq!(err, "Key \"max_log_days\" not found.");
}

#[test]
fn log_config_error_names_the_accumulated_key() {
    let root = obj(vec![
        ("log_path", s("/var/log/app.log")),
        ("log_level", n(3)),
        ("max_log_days", n(30)),
    ]);
    let mut lc = LogConfig::new();
    let err = lc.load_json_value(&root, &name(), &key("logging")).unwrap_err();
    assert_eq!(
        err,
        "Failed to load config \"config\", key = \"logging/log_level\", the value is not a string."
    );
}

#[test]
fn whole_config_from_document() {
    let root = obj(vec![
        ("user", s("alice")),
        ("group", n(100)),
        ("pid_file", s("/run/app.pid")),
        ("data_path", s("/srv/data")),
        ("log_path", s("/var/log/app.log")),
        ("log_level", s("Warn")),
        ("max_log_days", n(14)),
    ]);
    let cfg = Config::from_document(ConfigPath { path: "/etc/app.json".to_string() }, &root)
        .unwrap();
    assert_eq!(cfg.config_path.path, "/etc/app.json");
    assert_eq!(cfg.service_config.user, User::Username("alice".to_string()));
    assert_eq!(cfg.service_config.group, Group::Gid(100));
    assert_eq!(cfg.service_config.pid_file.path, "/run/app.pid");
    assert_eq!(cfg.service_config.data_path.path, "/srv/data");
    assert_eq!(cfg.log_config.log_level, Level::Warn);
    assert_eq!(cfg.log_config.max_log_days, 14);
}

#[test]
fn whole_config_failure_yields_no_config() {
    let root = obj(vec![
        ("user", s("alice")),
        ("group", n(100)),
        ("pid_file", s("/run/app.pid")),
        ("data_path", s("/srv/data")),
        ("log_path", s("/var/log/app.log")),
        ("log_level", s("Loud")),
        ("max_log_days", n(14)),
    ]);
    let err = Config::from_document(ConfigPath { path: "/etc/app.json".to_string() }, &root)
        .unwrap_err();
    assert!(err.contains("illegale log level \"Loud\""));
}

#[test]
fn whole_config_info_string() {
    let root = obj(vec![
        ("user", n(0)),
        ("group", n(0)),
        ("pid_file", s("/run/app.pid")),
        ("data_path", s("/srv/data")),
        ("log_path", s("/var/log/app.log")),
        ("log_level", s("Info")),
        ("max_log_days", n(30)),
    ]);
    let cfg = Config::from_document(ConfigPath { path: "/etc/app.json".to_string() }, &root)
        .unwrap();
    assert_eq!(
        cfg.get_info_str(),
        Some(
            "config_path = Path(\"/etc/app.json\"), user = Uid(0), group = Gid(0), \
             pid_file = Path(\"/run/app.pid\"), data_path = Path(\"/srv/data\"), \
             log_path = Path(\"/var/log/app.log\"), log_level = Info, max_log_days = 30"
                .to_string()
        )
    );
}

#[test]
fn service_config_defaults() {
    let sc = ServiceConfig::new();
    assert_eq!(sc.user, User::Uid(0));
    assert_eq!(sc.group, Group::Gid(0));
    assert_eq!(sc.pid_file.path, "");
    assert_eq!(sc.data_path.path, "");
}

#[test]
fn flattened_fields_resolve_independently() {
    // A struct's fields need not be siblings under one sub-object: each
    // key is resolved from the same root.
    let root = obj(vec![("present", n(1)), ("log_path", s("p")), ("log_level", s("Error")), (
        "max_log_days",
        n(2),
    )]);
    let mut lc = LogConfig::new();
    assert!(lc.load_json_value(&root, &name(), &String::new()).is_ok());
    assert_eq!(lc.log_level, Level::Error);
}
