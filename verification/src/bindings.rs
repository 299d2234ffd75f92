//! The binding parser: reads a parenthesised `key = value, ...` argument
//! list into keyed and positional literal entries, and assembles one field
//! binding (field identifier plus path key) from them.

use vstd::prelude::*;
use crate::literal::{parse_literal_spec, unsupported_format_msg, LiteralToken, LiteralTokenView, parse_value_str};
use crate::splitter::{illegal_argument_msg, split_arguments, split_spec};
use crate::text::{dec_int, i64_to_string, is_ident, is_ident_char, is_ident_start, is_ident_start_char, is_space, is_space_char, str_eq};

verus! {

/// One parsed entry of an argument list: a literal value, keyed by an
/// identifier when the entry was written `name = value`.
#[derive(Clone, Debug, PartialEq)]
pub struct AttributeArgument {
    /// The identifier before `=`, if the entry was keyed.
    pub key: Option<String>,
    /// The entry's literal value.
    pub value: LiteralToken,
}

/// The mathematical value of an [`AttributeArgument`].
pub struct AttributeArgumentView {
    /// The identifier before `=`, if the entry was keyed.
    pub key: Option<Seq<char>>,
    /// The entry's literal value.
    pub value: LiteralTokenView,
}

impl DeepView for AttributeArgument {
    type V = AttributeArgumentView;

    open spec fn deep_view(&self) -> AttributeArgumentView {
        AttributeArgumentView { key: self.key.deep_view(), value: self.value.deep_view() }
    }
}

/// The rendering of an argument entry: its key, quoted when present, and
/// its literal value.
pub open spec fn attr_arg_info(v: AttributeArgumentView) -> Seq<char> {
    (match v.key {
        Option::Some(k) => "key: \""@ + k + "\""@,
        Option::None => "key: None"@,
    }) + (match v.value {
        LiteralTokenView::StringLiteral(s) => ", value: \""@ + s + "\""@,
        LiteralTokenView::IntegerLiteral(n) => ", value: "@ + dec_int(n as int),
    })
}

impl AttributeArgument {
    /// Renders the entry for diagnostics.
    pub fn info_string(&self) -> (r: String)
        ensures
            r@ == attr_arg_info(self.deep_view()),
    {
        let mut m = match &self.key {
            Option::Some(k) => {
                let mut m = String::from_str("key: \"");
                m.append(k.as_str());
                m.append("\"");
                m
            },
            Option::None => String::from_str("key: None"),
        };
        match &self.value {
            LiteralToken::StringLiteral(s) => {
                m.append(", value: \"");
                m.append(s.as_str());
                m.append("\"");
            },
            LiteralToken::IntegerLiteral(n) => {
                m.append(", value: ");
                let digits = i64_to_string(*n);
                m.append(digits.as_str());
            },
        }
        proof {
            assert(m@ =~= attr_arg_info(self.deep_view()));
        }
        m
    }
}

/// Length of the run of identifier characters starting at `from`.
pub open spec fn ident_run(s: Seq<char>, from: int) -> int
    decreases s.len() - from,
    when 0 <= from <= s.len()
{
    if from < s.len() && is_ident_char(s[from]) {
        1 + ident_run(s, from + 1)
    } else {
        0
    }
}

/// Length of the run of whitespace characters starting at `from`.
pub open spec fn space_run(s: Seq<char>, from: int) -> int
    decreases s.len() - from,
    when 0 <= from <= s.len()
{
    if from < s.len() && is_space_char(s[from]) {
        1 + space_run(s, from + 1)
    } else {
        0
    }
}

proof fn lemma_ident_run_at(s: Seq<char>, from: int, end: int)
    requires
        0 <= from <= end <= s.len(),
        forall|j: int| from <= j < end ==> is_ident_char(s[j]),
        end == s.len() || !is_ident_char(s[end]),
    ensures
        ident_run(s, from) == end - from,
    decreases end - from,
{
    if from < end {
        lemma_ident_run_at(s, from + 1, end);
    }
}

proof fn lemma_space_run_at(s: Seq<char>, from: int, end: int)
    requires
        0 <= from <= end <= s.len(),
        forall|j: int| from <= j < end ==> is_space_char(s[j]),
        end == s.len() || !is_space_char(s[end]),
    ensures
        space_run(s, from) == end - from,
    decreases end - from,
{
    if from < end {
        lemma_space_run_at(s, from + 1, end);
    }
}

/// The `identifier = rest` grammar: an identifier (a letter or underscore,
/// then letters, digits or underscores), optional whitespace, `=`,
/// optional whitespace, and the rest of the token verbatim. Yields the
/// identifier and the rest, or `None` when the token has no such shape.
pub open spec fn kv_split(s: Seq<char>) -> Option<(Seq<char>, Seq<char>)> {
    if s.len() == 0 || !is_ident_start_char(s[0]) {
        None
    } else {
        let k = 1 + ident_run(s, 1);
        let e = k + space_run(s, k);
        if e < s.len() && s[e] == '=' {
            let v = e + 1 + space_run(s, e + 1);
            Some((s.subrange(0, k), s.subrange(v, s.len() as int)))
        } else {
            None
        }
    }
}

/// What one token of the argument list parses to: the keyed form when the
/// `identifier = rest` grammar matches, the positional form otherwise,
/// with the literal parser applied to the rest or to the whole token.
pub open spec fn parse_arg_spec(tok: Seq<char>) -> Result<AttributeArgumentView, Seq<char>> {
    match kv_split(tok) {
        Option::Some(kv) => match parse_literal_spec(kv.1) {
            Option::Some(lit) => Ok(AttributeArgumentView { key: Some(kv.0), value: lit }),
            Option::None => Err(unsupported_format_msg(kv.1)),
        },
        Option::None => match parse_literal_spec(tok) {
            Option::Some(lit) => Ok(AttributeArgumentView { key: None, value: lit }),
            Option::None => Err(unsupported_format_msg(tok)),
        },
    }
}

/// What a token list parses to: each token in order, stopping at the
/// first failure.
pub open spec fn parse_args_list(toks: Seq<Seq<char>>) -> Result<
    Seq<AttributeArgumentView>,
    Seq<char>,
>
    decreases toks.len(),
{
    if toks.len() == 0 {
        Ok(Seq::<AttributeArgumentView>::empty())
    } else {
        match parse_arg_spec(toks[0]) {
            Err(m) => Err(m),
            Ok(a) => match parse_args_list(toks.drop_first()) {
                Err(m) => Err(m),
                Ok(rest) => Ok(seq![a] + rest),
            },
        }
    }
}

/// The message reporting an argument list without its enclosing pair of
/// parentheses.
pub open spec fn illegal_attr_msg(s: Seq<char>) -> Seq<char> {
    "Illegal argument \""@ + s + "\"."@
}

/// What a whole raw argument list parses to: the empty list when it is
/// empty; otherwise one enclosing pair of parentheses is stripped, the
/// interior is split on top-level commas, and each token is parsed.
pub open spec fn parse_attr_args_spec(s: Seq<char>) -> Result<
    Seq<AttributeArgumentView>,
    Seq<char>,
> {
    if s.len() == 0 {
        Ok(Seq::<AttributeArgumentView>::empty())
    } else if !(s.len() >= 2 && s[0] == '(' && s[s.len() - 1] == ')') {
        Err(illegal_attr_msg(s))
    } else {
        let interior = s.subrange(1, s.len() - 1);
        match split_spec(interior) {
            Option::None => Err(illegal_argument_msg(interior)),
            Option::Some(toks) => parse_args_list(toks),
        }
    }
}

/// Matches the `identifier = rest` grammar against `tok`, yielding the
/// identifier and the rest of the token.
fn match_key_value(tok: &str) -> (r: Option<(String, String)>)
    ensures
        match kv_split(tok@) {
            Option::Some(kv) => r matches Some(p) && p.0@ == kv.0 && p.1@ == kv.1,
            Option::None => r is None,
        },
{
    let len: usize = tok.unicode_len();
    if len == 0 || !is_ident_start(tok.get_char(0)) {
        return None;
    }
    let mut k: usize = 1;
    while k < len && is_ident(tok.get_char(k))
        invariant
            1 <= k <= len,
            len == tok@.len(),
            forall|j: int| 1 <= j < k ==> is_ident_char(tok@[j]),
        decreases len - k,
    {
        k = k + 1;
    }
    proof {
        lemma_ident_run_at(tok@, 1, k as int);
    }
    let mut e: usize = k;
    while e < len && is_space(tok.get_char(e))
        invariant
            k <= e <= len,
            len == tok@.len(),
            forall|j: int| k <= j < e ==> is_space_char(tok@[j]),
        decreases len - e,
    {
        e = e + 1;
    }
    proof {
        lemma_space_run_at(tok@, k as int, e as int);
    }
    if e == len || tok.get_char(e) != '=' {
        return None;
    }
    let mut v: usize = e + 1;
    while v < len && is_space(tok.get_char(v))
        invariant
            e + 1 <= v <= len,
            len == tok@.len(),
            forall|j: int| e + 1 <= j < v ==> is_space_char(tok@[j]),
        decreases len - v,
    {
        v = v + 1;
    }
    proof {
        lemma_space_run_at(tok@, e + 1, v as int);
    }
    let key = String::from_str(tok.substring_char(0, k));
    let rest = String::from_str(tok.substring_char(v, len));
    Some((key, rest))
}

/// Parses a raw argument list: the empty list parses to no entries;
/// otherwise the enclosing parentheses are stripped, the interior is split
/// on top-level commas, and each token becomes a keyed or positional
/// literal entry. The first failure is surfaced.
pub fn parse_attr_args(input: &str) -> (r: Result<Vec<AttributeArgument>, String>)
    ensures
        match parse_attr_args_spec(input@) {
            Ok(args) => r matches Ok(v) && v.deep_view() == args,
            Err(m) => r matches Err(e) && e@ == m,
        },
{
    let len: usize = input.unicode_len();
    if len == 0 {
        let empty_args: Vec<AttributeArgument> = Vec::new();
        proof {
            assert(empty_args.deep_view() =~= Seq::<AttributeArgumentView>::empty());
        }
        return Ok(empty_args);
    }
    if !(len >= 2 && input.get_char(0) == '(' && input.get_char(len - 1) == ')') {
        let mut m = String::from_str("Illegal argument \"");
        m.append(input);
        m.append("\".");
        proof {
            assert(m@ =~= illegal_attr_msg(input@));
        }
        return Err(m);
    }
    let interior = String::from_str(input.substring_char(1, len - 1));
    let splitted = match split_arguments(&interior) {
        Result::Ok(v) => v,
        Result::Err(m) => {
            return Err(m);
        },
    };
    let ghost toks = splitted.deep_view();
    let n: usize = splitted.len();
    let mut ret: Vec<AttributeArgument> = Vec::new();
    let mut idx: usize = 0;
    proof {
        assert(toks.skip(0) =~= toks);
        assert(ret.deep_view() =~= Seq::<AttributeArgumentView>::empty());
    }
    while idx < n
        invariant
            0 <= idx <= n,
            n == toks.len(),
            toks == splitted.deep_view(),
            n == splitted@.len(),
            parse_attr_args_spec(input@) == parse_args_list(toks),
            match parse_args_list(toks.skip(idx as int)) {
                Ok(rest) => parse_args_list(toks) matches Ok(all) && all == ret.deep_view() + rest,
                Err(m) => parse_args_list(toks) matches Err(m2) && m2 == m,
            },
        decreases n - idx,
    {
        proof {
            assert(toks.skip(idx as int).drop_first() =~= toks.skip(idx + 1));
            assert(toks.skip(idx as int)[0] == toks[idx as int]);
            assert(splitted@[idx as int]@ == toks[idx as int]);
        }
        let tok: &String = &splitted[idx];
        let arg: AttributeArgument = match match_key_value(tok.as_str()) {
            Option::Some(kv) => {
                let (key, rest) = kv;
                match parse_value_str(rest.as_str()) {
                    Result::Ok(lit) => AttributeArgument { key: Some(key), value: lit },
                    Result::Err(m) => {
                        return Err(m);
                    },
                }
            },
            Option::None => match parse_value_str(tok.as_str()) {
                Result::Ok(lit) => AttributeArgument { key: None, value: lit },
                Result::Err(m) => {
                    return Err(m);
                },
            },
        };
        let ghost old_dv = ret.deep_view();
        ret.push(arg);
        proof {
            assert(ret.deep_view() =~= old_dv.push(arg.deep_view()));
            assert(old_dv.push(arg.deep_view()) + parse_args_list_rest(toks, idx + 1) =~= old_dv
                + (seq![arg.deep_view()] + parse_args_list_rest(toks, idx + 1)));
        }
        idx = idx + 1;
    }
    proof {
        assert(toks.skip(n as int) =~= Seq::<Seq<char>>::empty());
        assert(ret.deep_view() + Seq::<AttributeArgumentView>::empty() =~= ret.deep_view());
    }
    Ok(ret)
}

/// The entries a successful parse of the tokens from `i` on yields; empty
/// when it fails (used only to state associativity of accumulation).
pub open spec fn parse_args_list_rest(toks: Seq<Seq<char>>, i: int) -> Seq<AttributeArgumentView> {
    if 0 <= i <= toks.len() {
        match parse_args_list(toks.skip(i)) {
            Ok(rest) => rest,
            Err(_) => Seq::<AttributeArgumentView>::empty(),
        }
    } else {
        Seq::<AttributeArgumentView>::empty()
    }
}

/// The binding of one configuration field: the field's identifier and the
/// path key its value is read from.
#[derive(Clone, Debug, PartialEq)]
pub struct ConfigFieldInfo {
    /// The field's identifier.
    pub field_name: String,
    /// The slash-delimited key the field binds to.
    pub key: String,
}

/// The message reporting a keyword other than `key`.
pub open spec fn illegal_keyword_msg(name: Seq<char>) -> Seq<char> {
    "Illegal keyword argument \""@ + name + "\" of attribute \"config_field\"!"@
}

/// The message reporting a positional entry, which the binding form does
/// not take.
pub open spec fn illegal_position_msg() -> Seq<char> {
    "Illegal position argument of attribute \"config_field\"!"@
}

/// The message reporting an argument list without a `key` entry.
pub open spec fn missing_key_msg() -> Seq<char> {
    "Missing keyword argument \"key\" of attribute \"config_field\"!"@
}

/// The path key the entries from `i` on assemble to, starting from `cur`:
/// each `key = "<path>"` entry replaces it; any other keyed entry, any
/// positional entry, and a `key` entry whose value is not a string
/// literal are definition errors, as is reaching the end with no key.
pub open spec fn scan_binding(
    args: Seq<AttributeArgumentView>,
    i: int,
    cur: Option<Seq<char>>,
) -> Result<Seq<char>, Seq<char>>
    decreases args.len() - i,
    when 0 <= i <= args.len()
{
    if i == args.len() {
        match cur {
            Option::Some(k) => Ok(k),
            Option::None => Err(missing_key_msg()),
        }
    } else {
        match args[i].key {
            Option::Some(name) => if name == "key"@ {
                match args[i].value {
                    LiteralTokenView::StringLiteral(s) => scan_binding(args, i + 1, Some(s)),
                    LiteralTokenView::IntegerLiteral(_) => Err(illegal_keyword_msg("key"@)),
                }
            } else {
                Err(illegal_keyword_msg(name))
            },
            Option::None => Err(illegal_position_msg()),
        }
    }
}

/// The path key a whole entry list assembles to, or the first definition
/// error.
pub open spec fn binding_key_spec(args: Seq<AttributeArgumentView>) -> Result<Seq<char>, Seq<char>> {
    scan_binding(args, 0, None)
}

impl ConfigFieldInfo {
    /// Assembles one field binding from the parsed entries: exactly the
    /// `key = "<path>"` keyword form is accepted, and the last such entry
    /// names the path key.
    pub fn new(args: &Vec<AttributeArgument>, field_name: String) -> (r: Result<
        ConfigFieldInfo,
        String,
    >)
        ensures
            match binding_key_spec(args.deep_view()) {
                Ok(k) => r matches Ok(info) && info.key@ == k && info.field_name@ == field_name@,
                Err(m) => r matches Err(e) && e@ == m,
            },
    {
        let ghost argvs = args.deep_view();
        let n: usize = args.len();
        let mut key: Option<String> = None;
        let mut i: usize = 0;
        while i < n
            invariant
                0 <= i <= n,
                n == argvs.len(),
                argvs == args.deep_view(),
                n == args@.len(),
                binding_key_spec(argvs) == scan_binding(argvs, i as int, key.deep_view()),
            decreases n - i,
        {
            proof {
                assert(args@[i as int].deep_view() == argvs[i as int]);
            }
            let arg: &AttributeArgument = &args[i];
            match &arg.key {
                Option::Some(key_name) => {
                    if str_eq(key_name.as_str(), "key") {
                        match &arg.value {
                            LiteralToken::StringLiteral(s) => {
                                key = Some(s.clone());
                            },
                            LiteralToken::IntegerLiteral(_) => {
                                let mut m = String::from_str("Illegal keyword argument \"");
                                m.append("key");
                                m.append("\" of attribute \"config_field\"!");
                                proof {
                                    assert(m@ =~= illegal_keyword_msg("key"@));
                                }
                                return Err(m);
                            },
                        }
                    } else {
                        let mut m = String::from_str("Illegal keyword argument \"");
                        m.append(key_name.as_str());
                        m.append("\" of attribute \"config_field\"!");
                        proof {
                            assert(m@ =~= illegal_keyword_msg(key_name@));
                        }
                        return Err(m);
                    }
                },
                Option::None => {
                    return Err(
                        String::from_str("Illegal position argument of attribute \"config_field\"!"),
                    );
                },
            }
            i = i + 1;
        }
        match key {
            Option::Some(k) => Ok(ConfigFieldInfo { field_name, key: k }),
            Option::None => Err(
                String::from_str("Missing keyword argument \"key\" of attribute \"config_field\"!"),
            ),
        }
    }
}

} // verus!
