//! Semantic configuration values: filesystem paths, the severity-level
//! enumeration, and the name-or-numeric-id identity sum-types for users and
//! groups.

use vstd::prelude::*;
use crate::convert::{make_load_err, not_string_msg, ConfigType, fail_prefix};
use crate::text::{dec_digits, str_eq, u64_to_string};
use crate::value::ValueNode;
use crate::Unused;

verus! {

/// A filesystem path, held as its textual form. Loading a string node
/// replaces the whole path, directory component included.
#[derive(Clone, Debug, PartialEq)]
pub struct ConfigPath {
    /// The path's text.
    pub path: String,
}

/// The rendering of a path value: its text, quoted and tagged.
pub open spec fn path_info(v: Seq<char>) -> Seq<char> {
    "Path(\""@ + v + "\")"@
}

impl ConfigPath {
    /// An empty path.
    pub fn new() -> (r: ConfigPath)
        ensures
            r@ == Seq::<char>::empty(),
    {
        ConfigPath { path: String::new() }
    }

    /// The path's text.
    pub fn as_str(&self) -> (r: &str)
        ensures
            r@ == self@,
    {
        self.path.as_str()
    }

    /// Renders the path for diagnostics.
    pub fn info_string(&self) -> (r: String)
        ensures
            r@ == path_info(self@),
    {
        let mut m = String::from_str("Path(\"");
        m.append(self.path.as_str());
        m.append("\")");
        proof {
            assert(m@ =~= path_info(self@));
        }
        m
    }
}

impl View for ConfigPath {
    type V = Seq<char>;

    open spec fn view(&self) -> Seq<char> {
        self.path@
    }
}

impl DeepView for ConfigPath {
    type V = Seq<char>;

    open spec fn deep_view(&self) -> Seq<char> {
        self.path@
    }
}

impl ConfigType for ConfigPath {
    open spec fn load_view(prior: Seq<char>, node: ValueNode) -> Option<Seq<char>> {
        match node {
            ValueNode::Str(s) => Some(s@),
            _ => None,
        }
    }

    open spec fn load_err_spec(node: ValueNode, config_name: Seq<char>, full_key: Seq<char>) -> Seq<
        char,
    > {
        not_string_msg(config_name, full_key)
    }

    open spec fn fail_view(prior: Seq<char>, node: ValueNode) -> Seq<char> {
        prior
    }

    open spec fn default_view() -> Seq<char> {
        Seq::<char>::empty()
    }

    open spec fn info_spec(v: Seq<char>) -> Option<Seq<char>> {
        Some(path_info(v))
    }

    fn create_default() -> ConfigPath {
        ConfigPath::new()
    }

    fn load_json_value(&mut self, value: &ValueNode, config_name: &String, full_key: &String) -> (r:
        Result<Unused, String>) {
        match value {
            ValueNode::Str(value_string) => {
                self.path = value_string.clone();
                Ok(Unused {  })
            },
            _ => Err(make_load_err(config_name, full_key, "\", the value is not a string.")),
        }
    }

    fn get_info_str(&self) -> Option<String> {
        Some(self.info_string())
    }
}

/// Logging severity, from most to least verbose.
#[derive(Clone, Copy, Debug, PartialEq, Eq, Structural)]
pub enum Level {
    /// Finest-grained messages.
    Trace,
    /// Diagnostic messages.
    Debug,
    /// Informational messages.
    Info,
    /// Warnings.
    Warn,
    /// Errors.
    Error,
}

impl DeepView for Level {
    type V = Level;

    open spec fn deep_view(&self) -> Level {
        *self
    }
}

/// The name of a severity level, as it is written in a document.
pub open spec fn level_name(v: Level) -> Seq<char> {
    match v {
        Level::Trace => "Trace"@,
        Level::Debug => "Debug"@,
        Level::Info => "Info"@,
        Level::Warn => "Warn"@,
        Level::Error => "Error"@,
    }
}

impl Level {
    /// The level's name, as it is written in a document.
    pub fn name_str(&self) -> (r: &'static str)
        ensures
            r@ == level_name(*self),
    {
        match self {
            Level::Trace => "Trace",
            Level::Debug => "Debug",
            Level::Info => "Info",
            Level::Warn => "Warn",
            Level::Error => "Error",
        }
    }
}

/// The severity level a name denotes, if any; matching is case-sensitive
/// and exact.
pub open spec fn level_of_name(s: Seq<char>) -> Option<Level> {
    if s == "Trace"@ {
        Some(Level::Trace)
    } else if s == "Debug"@ {
        Some(Level::Debug)
    } else if s == "Info"@ {
        Some(Level::Info)
    } else if s == "Warn"@ {
        Some(Level::Warn)
    } else if s == "Error"@ {
        Some(Level::Error)
    } else {
        None
    }
}

/// The message reporting a string outside the severity-level set, listing
/// the allowed names.
pub open spec fn illegal_level_msg(
    config_name: Seq<char>,
    full_key: Seq<char>,
    level: Seq<char>,
) -> Seq<char> {
    fail_prefix(config_name, full_key) + "\", illegale log level \""@ + level
        + "\", the log level should be \"Trace\", \"Debug\", \"Info\", \"Warn\" or \"Error\"."@
}

impl ConfigType for Level {
    open spec fn load_view(prior: Level, node: ValueNode) -> Option<Level> {
        match node {
            ValueNode::Str(s) => level_of_name(s@),
            _ => None,
        }
    }

    open spec fn load_err_spec(node: ValueNode, config_name: Seq<char>, full_key: Seq<char>) -> Seq<
        char,
    > {
        match node {
            ValueNode::Str(s) => illegal_level_msg(config_name, full_key, s@),
            _ => not_string_msg(config_name, full_key),
        }
    }

    open spec fn fail_view(prior: Level, node: ValueNode) -> Level {
        prior
    }

    open spec fn default_view() -> Level {
        Level::Info
    }

    open spec fn info_spec(v: Level) -> Option<Seq<char>> {
        Some(level_name(v))
    }

    fn create_default() -> Level {
        Level::Info
    }

    fn load_json_value(&mut self, value: &ValueNode, config_name: &String, full_key: &String) -> (r:
        Result<Unused, String>) {
        match value {
            ValueNode::Str(level_string) => {
                if str_eq(level_string.as_str(), "Trace") {
                    *self = Level::Trace;
                    Ok(Unused {  })
                } else if str_eq(level_string.as_str(), "Debug") {
                    *self = Level::Debug;
                    Ok(Unused {  })
                } else if str_eq(level_string.as_str(), "Info") {
                    *self = Level::Info;
                    Ok(Unused {  })
                } else if str_eq(level_string.as_str(), "Warn") {
                    *self = Level::Warn;
                    Ok(Unused {  })
                } else if str_eq(level_string.as_str(), "Error") {
                    *self = Level::Error;
                    Ok(Unused {  })
                } else {
                    let mut m = make_load_err(config_name, full_key, "\", illegale log level \"");
                    m.append(level_string.as_str());
                    m.append(
                        "\", the log level should be \"Trace\", \"Debug\", \"Info\", \"Warn\" or \"Error\".",
                    );
                    proof {
                        assert(m@ =~= illegal_level_msg(config_name@, full_key@, level_string@));
                    }
                    Err(m)
                }
            },
            _ => Err(make_load_err(config_name, full_key, "\", the value is not a string.")),
        }
    }

    fn get_info_str(&self) -> Option<String> {
        Some(String::from_str(self.name_str()))
    }
}

/// The user a service runs as: a name to be looked up, or a numeric id.
#[derive(Clone, Debug, PartialEq)]
pub enum User {
    /// A user named in the account database.
    Username(String),
    /// A numeric user id.
    Uid(u32),
}

/// The mathematical value of a [`User`].
pub enum UserView {
    /// A user named in the account database.
    Username(Seq<char>),
    /// A numeric user id.
    Uid(u32),
}

impl DeepView for User {
    type V = UserView;

    open spec fn deep_view(&self) -> UserView {
        match self {
            User::Username(s) => UserView::Username(s@),
            User::Uid(v) => UserView::Uid(*v),
        }
    }
}

/// The message reporting a node that is neither a name nor a numeric id.
pub open spec fn not_identity_msg() -> Seq<char> {
    "The value is not a username or UID."@
}

/// The rendering of a user value: the variant and its contents.
pub open spec fn user_info(v: UserView) -> Seq<char> {
    match v {
        UserView::Username(s) => "Username(\""@ + s + "\")"@,
        UserView::Uid(id) => "Uid("@ + dec_digits(id as nat) + ")"@,
    }
}

impl User {
    /// Renders the user for diagnostics.
    pub fn info_string(&self) -> (r: String)
        ensures
            r@ == user_info(self.deep_view()),
    {
        match self {
            User::Username(value) => {
                let mut m = String::from_str("Username(\"");
                m.append(value.as_str());
                m.append("\")");
                proof {
                    assert(m@ =~= "Username(\""@ + value@ + "\")"@);
                }
                m
            },
            User::Uid(value) => {
                let mut m = String::from_str("Uid(");
                let digits = u64_to_string(*value as u64);
                m.append(digits.as_str());
                m.append(")");
                proof {
                    assert(m@ =~= "Uid("@ + dec_digits(*value as nat) + ")"@);
                }
                m
            },
        }
    }
}

impl ConfigType for User {
    open spec fn load_view(prior: UserView, node: ValueNode) -> Option<UserView> {
        match node {
            ValueNode::Str(s) => Some(UserView::Username(s@)),
            ValueNode::Number(n) => match n.as_u64_spec() {
                Option::Some(v) => Some(UserView::Uid(v as u32)),
                Option::None => None,
            },
            _ => None,
        }
    }

    open spec fn load_err_spec(node: ValueNode, config_name: Seq<char>, full_key: Seq<char>) -> Seq<
        char,
    > {
        not_identity_msg()
    }

    open spec fn fail_view(prior: UserView, node: ValueNode) -> UserView {
        prior
    }

    open spec fn default_view() -> UserView {
        UserView::Uid(0)
    }

    open spec fn info_spec(v: UserView) -> Option<Seq<char>> {
        Some(user_info(v))
    }

    fn create_default() -> User {
        User::Uid(0)
    }

    fn load_json_value(&mut self, value: &ValueNode, config_name: &String, full_key: &String) -> (r:
        Result<Unused, String>) {
        match value {
            ValueNode::Str(value_string) => {
                *self = User::Username(value_string.clone());
                Ok(Unused {  })
            },
            ValueNode::Number(value_num) => match value_num.as_fixed_point_u64() {
                Option::Some(v) => {
                    *self = User::Uid(#[verifier::truncate] (v as u32));
                    Ok(Unused {  })
                },
                Option::None => Err(String::from_str("The value is not a username or UID.")),
            },
            _ => Err(String::from_str("The value is not a username or UID.")),
        }
    }

    fn get_info_str(&self) -> Option<String> {
        Some(self.info_string())
    }
}

/// The group a service runs as: a name to be looked up, or a numeric id.
#[derive(Clone, Debug, PartialEq)]
pub enum Group {
    /// A group named in the account database.
    GroupName(String),
    /// A numeric group id.
    Gid(u32),
}

/// The mathematical value of a [`Group`].
pub enum GroupView {
    /// A group named in the account database.
    GroupName(Seq<char>),
    /// A numeric group id.
    Gid(u32),
}

impl DeepView for Group {
    type V = GroupView;

    open spec fn deep_view(&self) -> GroupView {
        match self {
            Group::GroupName(s) => GroupView::GroupName(s@),
            Group::Gid(v) => GroupView::Gid(*v),
        }
    }
}

/// The rendering of a group value: the variant and its contents.
pub open spec fn group_info(v: GroupView) -> Seq<char> {
    match v {
        GroupView::GroupName(s) => "GroupName(\""@ + s + "\")"@,
        GroupView::Gid(id) => "Gid("@ + dec_digits(id as nat) + ")"@,
    }
}

impl Group {
    /// Renders the group for diagnostics.
    pub fn info_string(&self) -> (r: String)
        ensures
            r@ == group_info(self.deep_view()),
    {
        match self {
            Group::GroupName(value) => {
                let mut m = String::from_str("GroupName(\"");
                m.append(value.as_str());
                m.append("\")");
                proof {
                    assert(m@ =~= "GroupName(\""@ + value@ + "\")"@);
                }
                m
            },
            Group::Gid(value) => {
                let mut m = String::from_str("Gid(");
                let digits = u64_to_string(*value as u64);
                m.append(digits.as_str());
                m.append(")");
                proof {
                    assert(m@ =~= "Gid("@ + dec_digits(*value as nat) + ")"@);
                }
                m
            },
        }
    }
}

impl ConfigType for Group {
    open spec fn load_view(prior: GroupView, node: ValueNode) -> Option<GroupView> {
        match node {
            ValueNode::Str(s) => Some(GroupView::GroupName(s@)),
            ValueNode::Number(n) => match n.as_u64_spec() {
                Option::Some(v) => Some(GroupView::Gid(v as u32)),
                Option::None => None,
            },
            _ => None,
        }
    }

    open spec fn load_err_spec(node: ValueNode, config_name: Seq<char>, full_key: Seq<char>) -> Seq<
        char,
    > {
        not_identity_msg()
    }

    open spec fn fail_view(prior: GroupView, node: ValueNode) -> GroupView {
        prior
    }

    open spec fn default_view() -> GroupView {
        GroupView::Gid(0)
    }

    open spec fn info_spec(v: GroupView) -> Option<Seq<char>> {
        Some(group_info(v))
    }

    fn create_default() -> Group {
        Group::Gid(0)
    }

    fn load_json_value(&mut self, value: &ValueNode, config_name: &String, full_key: &String) -> (r:
        Result<Unused, String>) {
        match value {
            ValueNode::Str(value_string) => {
                *self = Group::GroupName(value_string.clone());
                Ok(Unused {  })
            },
            ValueNode::Number(value_num) => match value_num.as_fixed_point_u64() {
                Option::Some(v) => {
                    *self = Group::Gid(#[verifier::truncate] (v as u32));
                    Ok(Unused {  })
                },
                Option::None => Err(String::from_str("The value is not a username or UID.")),
            },
            _ => Err(String::from_str("The value is not a username or UID.")),
        }
    }

    fn get_info_str(&self) -> Option<String> {
        Some(self.info_string())
    }
}

} // verus!
