//! The configuration structures: the log and service sub-configurations
//! and the whole-document configuration, each loaded field by field against
//! the same root node, stopping at the first failure.

use vstd::prelude::*;
use crate::convert::{field_fail_state, load_field_spec, load_json_config, ConfigType};
use crate::domain::{
    group_info, level_name, path_info, user_info, ConfigPath, Group, GroupView, Level, User,
    UserView,
};
use crate::text::{dec_int, i64_to_string};
use crate::value::ValueNode;
use crate::Unused;

verus! {

/// The full key of a field: the enclosing key and the field's own key,
/// joined with a slash; an empty side contributes nothing.
pub open spec fn combine_key(full_key: Seq<char>, key: Seq<char>) -> Seq<char> {
    if key.len() == 0 {
        full_key
    } else if full_key.len() == 0 {
        key
    } else {
        full_key + "/"@ + key
    }
}

/// Executable form of [`combine_key`].
pub fn combine_key_exec(full_key: &String, key: &str) -> (r: String)
    ensures
        r@ == combine_key(full_key@, key@),
{
    if key.unicode_len() == 0 {
        full_key.clone()
    } else if full_key.as_str().unicode_len() == 0 {
        String::from_str(key)
    } else {
        let mut r = full_key.clone();
        r.append("/");
        r.append(key);
        proof {
            assert(r@ =~= combine_key(full_key@, key@));
        }
        r
    }
}

/// The logging configuration.
#[derive(Clone, Debug, PartialEq)]
pub struct LogConfig {
    /// Path of the log file; bound at key `log_path`.
    pub log_path: ConfigPath,
    /// Severity threshold; bound at key `log_level`.
    pub log_level: Level,
    /// How many days of logs to keep; bound at key `max_log_days`.
    pub max_log_days: i32,
}

/// The mathematical value of a [`LogConfig`].
pub struct LogConfigView {
    /// Path of the log file.
    pub log_path: Seq<char>,
    /// Severity threshold.
    pub log_level: Level,
    /// How many days of logs to keep.
    pub max_log_days: i32,
}

impl DeepView for LogConfig {
    type V = LogConfigView;

    open spec fn deep_view(&self) -> LogConfigView {
        LogConfigView {
            log_path: self.log_path.deep_view(),
            log_level: self.log_level,
            max_log_days: self.max_log_days,
        }
    }
}

impl LogConfig {
    /// Create new config object.
    pub fn new() -> (r: LogConfig)
        ensures
            r.deep_view() == (LogConfigView {
                log_path: Seq::<char>::empty(),
                log_level: Level::Info,
                max_log_days: -1i32,
            }),
    {
        LogConfig { log_path: ConfigPath::new(), log_level: Level::Info, max_log_days: -1i32 }
    }
}

/// Sequential load of the log configuration's fields against `node`; the
/// first failure is surfaced.
pub open spec fn log_config_load(
    prior: LogConfigView,
    node: ValueNode,
    config_name: Seq<char>,
    full_key: Seq<char>,
) -> Result<LogConfigView, Seq<char>> {
    match load_field_spec::<ConfigPath>(
        prior.log_path,
        node,
        "log_path"@,
        false,
        config_name,
        combine_key(full_key, "log_path"@),
    ) {
        Err(m) => Err(m),
        Ok(lp) => match load_field_spec::<Level>(
            prior.log_level,
            node,
            "log_level"@,
            false,
            config_name,
            combine_key(full_key, "log_level"@),
        ) {
            Err(m) => Err(m),
            Ok(lv) => match load_field_spec::<i32>(
                prior.max_log_days,
                node,
                "max_log_days"@,
                false,
                config_name,
                combine_key(full_key, "max_log_days"@),
            ) {
                Err(m) => Err(m),
                Ok(d) => Ok(LogConfigView { log_path: lp, log_level: lv, max_log_days: d }),
            },
        },
    }
}

/// The rendering of a log configuration.
pub open spec fn log_config_info(v: LogConfigView) -> Seq<char> {
    "log_path = "@ + path_info(v.log_path) + ", log_level = "@ + level_name(v.log_level)
        + ", max_log_days = "@ + dec_int(v.max_log_days as int)
}

impl ConfigType for LogConfig {
    open spec fn load_view(prior: LogConfigView, node: ValueNode) -> Option<LogConfigView> {
        match log_config_load(prior, node, Seq::<char>::empty(), Seq::<char>::empty()) {
            Ok(v) => Some(v),
            Err(_) => None,
        }
    }

    open spec fn load_err_spec(node: ValueNode, config_name: Seq<char>, full_key: Seq<char>) -> Seq<
        char,
    > {
        match log_config_load(LogConfig::default_view(), node, config_name, full_key) {
            Err(m) => m,
            Ok(_) => Seq::<char>::empty(),
        }
    }

    open spec fn fail_view(prior: LogConfigView, node: ValueNode) -> LogConfigView {
        let lp = field_fail_state::<ConfigPath>(prior.log_path, node, "log_path"@);
        let lv = field_fail_state::<Level>(prior.log_level, node, "log_level"@);
        let d = field_fail_state::<i32>(prior.max_log_days, node, "max_log_days"@);
        if load_field_spec::<ConfigPath>(
            prior.log_path,
            node,
            "log_path"@,
            false,
            Seq::<char>::empty(),
            Seq::<char>::empty(),
        ) is Err {
            LogConfigView { log_path: lp, log_level: prior.log_level, max_log_days: prior.max_log_days }
        } else if load_field_spec::<Level>(
            prior.log_level,
            node,
            "log_level"@,
            false,
            Seq::<char>::empty(),
            Seq::<char>::empty(),
        ) is Err {
            LogConfigView { log_path: lp, log_level: lv, max_log_days: prior.max_log_days }
        } else {
            LogConfigView { log_path: lp, log_level: lv, max_log_days: d }
        }
    }

    open spec fn default_view() -> LogConfigView {
        LogConfigView { log_path: Seq::<char>::empty(), log_level: Level::Info, max_log_days: -1i32 }
    }

    open spec fn info_spec(v: LogConfigView) -> Option<Seq<char>> {
        Some(log_config_info(v))
    }

    fn create_default() -> LogConfig {
        LogConfig::new()
    }

    fn load_json_value(&mut self, value: &ValueNode, config_name: &String, full_key: &String) -> (r:
        Result<Unused, String>) {
        let key1 = String::from_str("log_path");
        let fk1 = combine_key_exec(full_key, "log_path");
        let ret = load_json_config(&mut self.log_path, value, &key1, false, config_name, &fk1);
        if let Result::Err(s) = ret {
            return Err(s);
        }
        let key2 = String::from_str("log_level");
        let fk2 = combine_key_exec(full_key, "log_level");
        let ret = load_json_config(&mut self.log_level, value, &key2, false, config_name, &fk2);
        if let Result::Err(s) = ret {
            return Err(s);
        }
        let key3 = String::from_str("max_log_days");
        let fk3 = combine_key_exec(full_key, "max_log_days");
        let ret = load_json_config(&mut self.max_log_days, value, &key3, false, config_name, &fk3);
        if let Result::Err(s) = ret {
            return Err(s);
        }
        Ok(Unused {  })
    }

    fn get_info_str(&self) -> Option<String> {
        let mut m = String::from_str("log_path = ");
        let p = self.log_path.info_string();
        m.append(p.as_str());
        m.append(", log_level = ");
        m.append(self.log_level.name_str());
        m.append(", max_log_days = ");
        let d = i64_to_string(self.max_log_days as i64);
        m.append(d.as_str());
        proof {
            assert(m@ =~= log_config_info(self.deep_view()));
        }
        Some(m)
    }
}

/// The service configuration: the identity the service runs as and the
/// places it writes to.
#[derive(Clone, Debug, PartialEq)]
pub struct ServiceConfig {
    /// User to run as; bound at key `user`.
    pub user: User,
    /// Group to run as; bound at key `group`.
    pub group: Group,
    /// Path of the pid file; bound at key `pid_file`.
    pub pid_file: ConfigPath,
    /// Path of the data directory; bound at key `data_path`.
    pub data_path: ConfigPath,
}

/// The mathematical value of a [`ServiceConfig`].
pub struct ServiceConfigView {
    /// User to run as.
    pub user: UserView,
    /// Group to run as.
    pub group: GroupView,
    /// Path of the pid file.
    pub pid_file: Seq<char>,
    /// Path of the data directory.
    pub data_path: Seq<char>,
}

impl DeepView for ServiceConfig {
    type V = ServiceConfigView;

    open spec fn deep_view(&self) -> ServiceConfigView {
        ServiceConfigView {
            user: self.user.deep_view(),
            group: self.group.deep_view(),
            pid_file: self.pid_file.deep_view(),
            data_path: self.data_path.deep_view(),
        }
    }
}

impl ServiceConfig {
    /// Create new config object.
    pub fn new() -> (r: ServiceConfig)
        ensures
            r.deep_view() == (ServiceConfigView {
                user: UserView::Uid(0),
                group: GroupView::Gid(0),
                pid_file: Seq::<char>::empty(),
                data_path: Seq::<char>::empty(),
            }),
    {
        ServiceConfig {
            user: User::Uid(0),
            group: Group::Gid(0),
            pid_file: ConfigPath::new(),
            data_path: ConfigPath::new(),
        }
    }
}

/// Sequential load of the service configuration's fields against `node`;
/// the first failure is surfaced.
pub open spec fn service_config_load(
    prior: ServiceConfigView,
    node: ValueNode,
    config_name: Seq<char>,
    full_key: Seq<char>,
) -> Result<ServiceConfigView, Seq<char>> {
    match load_field_spec::<User>(
        prior.user,
        node,
        "user"@,
        false,
        config_name,
        combine_key(full_key, "user"@),
    ) {
        Err(m) => Err(m),
        Ok(u) => match load_field_spec::<Group>(
            prior.group,
            node,
            "group"@,
            false,
            config_name,
            combine_key(full_key, "group"@),
        ) {
            Err(m) => Err(m),
            Ok(g) => match load_field_spec::<ConfigPath>(
                prior.pid_file,
                node,
                "pid_file"@,
                false,
                config_name,
                combine_key(full_key, "pid_file"@),
            ) {
                Err(m) => Err(m),
                Ok(pf) => match load_field_spec::<ConfigPath>(
                    prior.data_path,
                    node,
                    "data_path"@,
                    false,
                    config_name,
                    combine_key(full_key, "data_path"@),
                ) {
                    Err(m) => Err(m),
                    Ok(dp) => Ok(
                        ServiceConfigView { user: u, group: g, pid_file: pf, data_path: dp },
                    ),
                },
            },
        },
    }
}

/// The rendering of a service configuration.
pub open spec fn service_config_info(v: ServiceConfigView) -> Seq<char> {
    "user = "@ + user_info(v.user) + ", group = "@ + group_info(v.group) + ", pid_file = "@
        + path_info(v.pid_file) + ", data_path = "@ + path_info(v.data_path)
}

impl ConfigType for ServiceConfig {
    open spec fn load_view(prior: ServiceConfigView, node: ValueNode) -> Option<ServiceConfigView> {
        match service_config_load(prior, node, Seq::<char>::empty(), Seq::<char>::empty()) {
            Ok(v) => Some(v),
            Err(_) => None,
        }
    }

    open spec fn load_err_spec(node: ValueNode, config_name: Seq<char>, full_key: Seq<char>) -> Seq<
        char,
    > {
        match service_config_load(ServiceConfig::default_view(), node, config_name, full_key) {
            Err(m) => m,
            Ok(_) => Seq::<char>::empty(),
        }
    }

    open spec fn fail_view(prior: ServiceConfigView, node: ValueNode) -> ServiceConfigView {
        let u = field_fail_state::<User>(prior.user, node, "user"@);
        let g = field_fail_state::<Group>(prior.group, node, "group"@);
        let pf = field_fail_state::<ConfigPath>(prior.pid_file, node, "pid_file"@);
        let dp = field_fail_state::<ConfigPath>(prior.data_path, node, "data_path"@);
        if load_field_spec::<User>(
            prior.user,
            node,
            "user"@,
            false,
            Seq::<char>::empty(),
            Seq::<char>::empty(),
        ) is Err {
            ServiceConfigView { user: u, group: prior.group, pid_file: prior.pid_file, data_path: prior.data_path }
        } else if load_field_spec::<Group>(
            prior.group,
            node,
            "group"@,
            false,
            Seq::<char>::empty(),
            Seq::<char>::empty(),
        ) is Err {
            ServiceConfigView { user: u, group: g, pid_file: prior.pid_file, data_path: prior.data_path }
        } else if load_field_spec::<ConfigPath>(
            prior.pid_file,
            node,
            "pid_file"@,
            false,
            Seq::<char>::empty(),
            Seq::<char>::empty(),
        ) is Err {
            ServiceConfigView { user: u, group: g, pid_file: pf, data_path: prior.data_path }
        } else {
            ServiceConfigView { user: u, group: g, pid_file: pf, data_path: dp }
        }
    }

    open spec fn default_view() -> ServiceConfigView {
        ServiceConfigView {
            user: UserView::Uid(0),
            group: GroupView::Gid(0),
            pid_file: Seq::<char>::empty(),
            data_path: Seq::<char>::empty(),
        }
    }

    open spec fn info_spec(v: ServiceConfigView) -> Option<Seq<char>> {
        Some(service_config_info(v))
    }

    fn create_default() -> ServiceConfig {
        ServiceConfig::new()
    }

    fn load_json_value(&mut self, value: &ValueNode, config_name: &String, full_key: &String) -> (r:
        Result<Unused, String>) {
        let key1 = String::from_str("user");
        let fk1 = combine_key_exec(full_key, "user");
        let ret = load_json_config(&mut self.user, value, &key1, false, config_name, &fk1);
        if let Result::Err(s) = ret {
            return Err(s);
        }
        let key2 = String::from_str("group");
        let fk2 = combine_key_exec(full_key, "group");
        let ret = load_json_config(&mut self.group, value, &key2, false, config_name, &fk2);
        if let Result::Err(s) = ret {
            return Err(s);
        }
        let key3 = String::from_str("pid_file");
        let fk3 = combine_key_exec(full_key, "pid_file");
        let ret = load_json_config(&mut self.pid_file, value, &key3, false, config_name, &fk3);
        if let Result::Err(s) = ret {
            return Err(s);
        }
        let key4 = String::from_str("data_path");
        let fk4 = combine_key_exec(full_key, "data_path");
        let ret = load_json_config(&mut self.data_path, value, &key4, false, config_name, &fk4);
        if let Result::Err(s) = ret {
            return Err(s);
        }
        Ok(Unused {  })
    }

    fn get_info_str(&self) -> Option<String> {
        let mut m = String::from_str("user = ");
        let u = self.user.info_string();
        m.append(u.as_str());
        m.append(", group = ");
        let g = self.group.info_string();
        m.append(g.as_str());
        m.append(", pid_file = ");
        let pf = self.pid_file.info_string();
        m.append(pf.as_str());
        m.append(", data_path = ");
        let dp = self.data_path.info_string();
        m.append(dp.as_str());
        proof {
            assert(m@ =~= service_config_info(self.deep_view()));
        }
        Some(m)
    }
}

/// The whole configuration: where it was read from, and the service and
/// log sub-configurations, both flattened into the document's root
/// namespace by an empty path key.
#[derive(Clone, Debug, PartialEq)]
pub struct Config {
    /// Path of the config file; set by the caller, not loaded.
    pub config_path: ConfigPath,
    /// Service config; bound at the empty key, flattening it into the
    /// parent namespace.
    pub service_config: ServiceConfig,
    /// Log config; bound at the empty key, flattening it into the parent
    /// namespace.
    pub log_config: LogConfig,
}

/// The mathematical value of a [`Config`].
pub struct ConfigView {
    /// Path of the config file.
    pub config_path: Seq<char>,
    /// Service config.
    pub service_config: ServiceConfigView,
    /// Log config.
    pub log_config: LogConfigView,
}

impl DeepView for Config {
    type V = ConfigView;

    open spec fn deep_view(&self) -> ConfigView {
        ConfigView {
            config_path: self.config_path.deep_view(),
            service_config: self.service_config.deep_view(),
            log_config: self.log_config.deep_view(),
        }
    }
}

impl Config {
    /// Create new config object.
    pub fn new() -> (r: Config)
        ensures
            r.deep_view() == (ConfigView {
                config_path: Seq::<char>::empty(),
                service_config: ServiceConfig::default_view(),
                log_config: LogConfig::default_view(),
            }),
    {
        Config {
            config_path: ConfigPath::new(),
            service_config: ServiceConfig::new(),
            log_config: LogConfig::new(),
        }
    }
}

/// Sequential load of the whole configuration against `node`: both
/// sub-configurations are bound at the empty key; the config file's path is
/// not loaded and keeps its prior value.
pub open spec fn config_load(
    prior: ConfigView,
    node: ValueNode,
    config_name: Seq<char>,
    full_key: Seq<char>,
) -> Result<ConfigView, Seq<char>> {
    match load_field_spec::<ServiceConfig>(
        prior.service_config,
        node,
        Seq::<char>::empty(),
        false,
        config_name,
        combine_key(full_key, Seq::<char>::empty()),
    ) {
        Err(m) => Err(m),
        Ok(sc) => match load_field_spec::<LogConfig>(
            prior.log_config,
            node,
            Seq::<char>::empty(),
            false,
            config_name,
            combine_key(full_key, Seq::<char>::empty()),
        ) {
            Err(m) => Err(m),
            Ok(lc) => Ok(
                ConfigView {
                    config_path: prior.config_path,
                    service_config: sc,
                    log_config: lc,
                },
            ),
        },
    }
}

/// Whether a service-configuration load fails depends on the node alone,
/// not on the prior value or on the message context.
proof fn lemma_service_load_err_agree(
    p1: ServiceConfigView,
    p2: ServiceConfigView,
    node: ValueNode,
    n1: Seq<char>,
    f1: Seq<char>,
    n2: Seq<char>,
    f2: Seq<char>,
)
    ensures
        (service_config_load(p1, node, n1, f1) is Err) == (service_config_load(p2, node, n2, f2)
            is Err),
{
}

/// Whether a log-configuration load fails depends on the node alone, not
/// on the prior value or on the message context.
proof fn lemma_log_load_err_agree(
    p1: LogConfigView,
    p2: LogConfigView,
    node: ValueNode,
    n1: Seq<char>,
    f1: Seq<char>,
    n2: Seq<char>,
    f2: Seq<char>,
)
    ensures
        (log_config_load(p1, node, n1, f1) is Err) == (log_config_load(p2, node, n2, f2) is Err),
{
}

/// The rendering of a whole configuration.
pub open spec fn config_info(v: ConfigView) -> Seq<char> {
    "config_path = "@ + path_info(v.config_path) + ", "@ + service_config_info(v.service_config)
        + ", "@ + log_config_info(v.log_config)
}

impl ConfigType for Config {
    open spec fn load_view(prior: ConfigView, node: ValueNode) -> Option<ConfigView> {
        match config_load(prior, node, Seq::<char>::empty(), Seq::<char>::empty()) {
            Ok(v) => Some(v),
            Err(_) => None,
        }
    }

    open spec fn load_err_spec(node: ValueNode, config_name: Seq<char>, full_key: Seq<char>) -> Seq<
        char,
    > {
        match config_load(Config::default_view(), node, config_name, full_key) {
            Err(m) => m,
            Ok(_) => Seq::<char>::empty(),
        }
    }

    open spec fn fail_view(prior: ConfigView, node: ValueNode) -> ConfigView {
        let sc = field_fail_state::<ServiceConfig>(prior.service_config, node, Seq::<char>::empty());
        let lc = field_fail_state::<LogConfig>(prior.log_config, node, Seq::<char>::empty());
        if load_field_spec::<ServiceConfig>(
            prior.service_config,
            node,
            Seq::<char>::empty(),
            false,
            Seq::<char>::empty(),
            Seq::<char>::empty(),
        ) is Err {
            ConfigView {
                config_path: prior.config_path,
                service_config: sc,
                log_config: prior.log_config,
            }
        } else {
            ConfigView { config_path: prior.config_path, service_config: sc, log_config: lc }
        }
    }

    open spec fn default_view() -> ConfigView {
        ConfigView {
            config_path: Seq::<char>::empty(),
            service_config: ServiceConfig::default_view(),
            log_config: LogConfig::default_view(),
        }
    }

    open spec fn info_spec(v: ConfigView) -> Option<Seq<char>> {
        Some(config_info(v))
    }

    fn create_default() -> Config {
        Config::new()
    }

    fn load_json_value(&mut self, value: &ValueNode, config_name: &String, full_key: &String) -> (r:
        Result<Unused, String>) {
        let key1 = String::new();
        let fk1 = combine_key_exec(full_key, "");
        let ret = load_json_config(&mut self.service_config, value, &key1, false, config_name, &fk1);
        if let Result::Err(s) = ret {
            proof {
                reveal_strlit("");
                assert(""@ =~= Seq::<char>::empty());
                lemma_service_load_err_agree(
                    old(self).service_config.deep_view(),
                    ServiceConfig::default_view(),
                    *value,
                    Seq::<char>::empty(),
                    Seq::<char>::empty(),
                    Seq::<char>::empty(),
                    Seq::<char>::empty(),
                );
            }
            return Err(s);
        }
        let key2 = String::new();
        let fk2 = combine_key_exec(full_key, "");
        let ret = load_json_config(&mut self.log_config, value, &key2, false, config_name, &fk2);
        if let Result::Err(s) = ret {
            proof {
                reveal_strlit("");
                assert(""@ =~= Seq::<char>::empty());
                lemma_service_load_err_agree(
                    old(self).service_config.deep_view(),
                    ServiceConfig::default_view(),
                    *value,
                    Seq::<char>::empty(),
                    Seq::<char>::empty(),
                    Seq::<char>::empty(),
                    Seq::<char>::empty(),
                );
                lemma_log_load_err_agree(
                    old(self).log_config.deep_view(),
                    LogConfig::default_view(),
                    *value,
                    Seq::<char>::empty(),
                    Seq::<char>::empty(),
                    Seq::<char>::empty(),
                    Seq::<char>::empty(),
                );
            }
            return Err(s);
        }
        Ok(Unused {  })
    }

    fn get_info_str(&self) -> Option<String> {
        let mut m = String::from_str("config_path = ");
        let cp = self.config_path.info_string();
        m.append(cp.as_str());
        m.append(", ");
        match self.service_config.get_info_str() {
            Option::Some(s) => { m.append(s.as_str()); },
            Option::None => { proof { assert(false); } },
        }
        m.append(", ");
        match self.log_config.get_info_str() {
            Option::Some(s) => { m.append(s.as_str()); },
            Option::None => { proof { assert(false); } },
        }
        proof {
            assert(m@ =~= config_info(self.deep_view()));
        }
        Some(m)
    }
}

impl Config {
    /// Builds the configuration from a parsed document: a fresh default
    /// carrying the config file's path, with every bound field loaded from
    /// `root`. A failed load yields the first error and no configuration.
    pub fn from_document(path: ConfigPath, root: &ValueNode) -> (r: Result<Config, String>)
        ensures
            ({
                let prior = ConfigView {
                    config_path: path@,
                    service_config: ServiceConfig::default_view(),
                    log_config: LogConfig::default_view(),
                };
                match <Config as ConfigType>::load_view(prior, *root) {
                    Option::Some(v) => r matches Ok(c) && c.deep_view() == v,
                    Option::None => r matches Err(e) && e@ == <Config as ConfigType>::load_err_spec(
                        *root,
                        "config"@,
                        Seq::<char>::empty(),
                    ),
                }
            }),
    {
        let mut config = Config::new();
        config.config_path = path;
        let key = String::new();
        let name = String::from_str("config");
        let fk = String::new();
        match load_json_config(&mut config, root, &key, false, &name, &fk) {
            Result::Ok(_) => Ok(config),
            Result::Err(e) => Err(e),
        }
    }
}

} // verus!
