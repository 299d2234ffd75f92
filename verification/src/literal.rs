//! The literal parser: reads a single token as a signed-integer literal or
//! a quoted-string literal, the two forms the declarative binding syntax
//! accepts.

use vstd::prelude::*;
use crate::text::{digit_val, is_digit, is_digit_char};

verus! {

/// A parsed literal: a signed 64-bit integer or a string, the closed set
/// of value forms the binding syntax knows.
#[derive(Clone, Debug, PartialEq)]
pub enum LiteralToken {
    /// A signed integer literal.
    IntegerLiteral(i64),
    /// A quoted string literal, holding the inner text verbatim.
    StringLiteral(String),
}

/// The mathematical value of a [`LiteralToken`].
pub enum LiteralTokenView {
    /// A signed integer literal.
    IntegerLiteral(i64),
    /// A quoted string literal.
    StringLiteral(Seq<char>),
}

impl DeepView for LiteralToken {
    type V = LiteralTokenView;

    open spec fn deep_view(&self) -> LiteralTokenView {
        match self {
            LiteralToken::IntegerLiteral(v) => LiteralTokenView::IntegerLiteral(*v),
            LiteralToken::StringLiteral(s) => LiteralTokenView::StringLiteral(s@),
        }
    }
}

/// Whether every character of `s` is a decimal digit.
pub open spec fn all_digits(s: Seq<char>) -> bool {
    forall|i: int| 0 <= i < s.len() ==> is_digit_char(s[i])
}

/// The value of a sequence of decimal digits, most significant first.
pub open spec fn digits_val(s: Seq<char>) -> int
    decreases s.len(),
{
    if s.len() == 0 {
        0
    } else {
        digits_val(s.drop_last()) * 10 + digit_val(s.last())
    }
}

proof fn lemma_digits_val_nonneg(s: Seq<char>)
    requires
        all_digits(s),
    ensures
        digits_val(s) >= 0,
    decreases s.len(),
{
    if s.len() > 0 {
        assert(all_digits(s.drop_last()));
        lemma_digits_val_nonneg(s.drop_last());
    }
}

proof fn lemma_digits_val_take_grows(s: Seq<char>, i: int)
    requires
        all_digits(s),
        0 <= i <= s.len(),
    ensures
        digits_val(s) >= digits_val(s.take(i)),
    decreases s.len() - i,
{
    if i < s.len() {
        assert(s.take(i + 1).drop_last() =~= s.take(i));
        assert(all_digits(s.take(i)));
        lemma_digits_val_nonneg(s.take(i));
        assert(digits_val(s.take(i + 1)) >= digits_val(s.take(i)));
        lemma_digits_val_take_grows(s, i + 1);
        assert(s.take(s.len() as int) =~= s);
    } else {
        assert(s.take(i) =~= s);
    }
}

/// The body of an integer token: the characters after an optional sign.
pub open spec fn int_body(s: Seq<char>) -> Seq<char> {
    if s.len() > 0 && (s[0] == '+' || s[0] == '-') {
        s.drop_first()
    } else {
        s
    }
}

/// The signed-integer grammar: an optional leading sign followed by one or
/// more digits, matching the entire token.
pub open spec fn is_int_token(s: Seq<char>) -> bool {
    int_body(s).len() > 0 && all_digits(int_body(s))
}

/// The value an integer token denotes.
pub open spec fn int_token_val(s: Seq<char>) -> int {
    if s.len() > 0 && s[0] == '-' {
        0 - digits_val(int_body(s))
    } else {
        digits_val(int_body(s))
    }
}

/// The quoted-string grammar: the entire token enclosed in one pair of
/// double quotes; the inner text is taken verbatim, with no escapes.
pub open spec fn is_quoted_token(s: Seq<char>) -> bool {
    s.len() >= 2 && s[0] == '"' && s[s.len() - 1] == '"'
}

/// What a token parses to: the integer grammar is tried first against the
/// whole token, then the quoted-string grammar; `None` when neither
/// matches (a token like `"123"` is a string, since the integer grammar
/// demands digits only).
pub open spec fn parse_literal_spec(s: Seq<char>) -> Option<LiteralTokenView> {
    if is_int_token(s) && i64::MIN <= int_token_val(s) <= i64::MAX {
        Some(LiteralTokenView::IntegerLiteral(int_token_val(s) as i64))
    } else if is_quoted_token(s) {
        Some(LiteralTokenView::StringLiteral(s.subrange(1, s.len() - 1)))
    } else {
        None
    }
}

/// The message reporting a token in neither literal grammar.
pub open spec fn unsupported_format_msg(token: Seq<char>) -> Seq<char> {
    "Unsupported format \""@ + token + "\"."@
}

/// Reads the digits of `s` from `from` on: their value when they reach the
/// end of `s`, are at least one, and fit a `u64`.
fn parse_digits(s: &str, from: usize) -> (r: Option<u64>)
    requires
        from <= s@.len(),
    ensures
        ({
            let body = s@.subrange(from as int, s@.len() as int);
            match r {
                Option::Some(v) => body.len() > 0 && all_digits(body) && digits_val(body) == v,
                Option::None => body.len() == 0 || !all_digits(body) || digits_val(body)
                    > u64::MAX,
            }
        }),
{
    let ghost body = s@.subrange(from as int, s@.len() as int);
    let len: usize = s.unicode_len();
    if from == len {
        return None;
    }
    let mut acc: u64 = 0;
    let mut i: usize = from;
    while i < len
        invariant
            from <= i <= len,
            len == s@.len(),
            body == s@.subrange(from as int, s@.len() as int),
            all_digits(body.take(i - from)),
            acc == digits_val(body.take(i - from)),
        decreases len - i,
    {
        let c = s.get_char(i);
        proof {
            assert(body[i - from] == s@[i as int]);
        }
        if !is_digit(c) {
            proof {
                assert(!all_digits(body));
            }
            return None;
        }
        let d: u64 = (c as u32 as u64) - 48;
        proof {
            assert(body.take(i - from + 1).drop_last() =~= body.take(i - from));
            assert(body.take(i - from + 1).last() == body[i - from]);
            assert(all_digits(body.take(i - from + 1)));
        }
        if acc > (u64::MAX - d) / 10 {
            proof {
                if all_digits(body) {
                    lemma_digits_val_take_grows(body, i - from + 1);
                    assert(digits_val(body.take(i - from + 1)) == acc * 10 + d);
                    assert(acc * 10 + d > u64::MAX);
                }
            }
            return None;
        }
        acc = acc * 10 + d;
        i = i + 1;
    }
    proof {
        assert(body.take(len - from) =~= body);
    }
    Some(acc)
}

/// Parses one token as a literal: first the signed-integer grammar against
/// the entire token, then the quoted-string grammar; any other shape is
/// reported as an unsupported format naming the token.
pub fn parse_value_str(value_str: &str) -> (r: Result<LiteralToken, String>)
    ensures
        match parse_literal_spec(value_str@) {
            Option::Some(v) => r matches Ok(t) && t.deep_view() == v,
            Option::None => r matches Err(m) && m@ == unsupported_format_msg(value_str@),
        },
{
    let len: usize = value_str.unicode_len();
    let ghost sv = value_str@;

    // Signed-integer grammar.
    let has_sign: bool = len > 0 && (value_str.get_char(0) == '+' || value_str.get_char(0) == '-');
    let negative: bool = len > 0 && value_str.get_char(0) == '-';
    let body_start: usize = if has_sign {
        1
    } else {
        0
    };
    proof {
        assert(int_body(sv) =~= sv.subrange(body_start as int, sv.len() as int));
    }
    match parse_digits(value_str, body_start) {
        Option::Some(mag) => {
            proof {
                assert(is_int_token(sv));
            }
            if negative {
                if mag <= 9223372036854775808u64 {
                    let v: i64 = if mag == 9223372036854775808u64 {
                        i64::MIN
                    } else {
                        0 - (mag as i64)
                    };
                    return Ok(LiteralToken::IntegerLiteral(v));
                }
            } else {
                if mag <= 9223372036854775807u64 {
                    return Ok(LiteralToken::IntegerLiteral(mag as i64));
                }
            }
        },
        Option::None => {
        },
    }

    // Quoted-string grammar.
    if len >= 2 && value_str.get_char(0) == '"' && value_str.get_char(len - 1) == '"' {
        let inner = value_str.substring_char(1, len - 1);
        return Ok(LiteralToken::StringLiteral(String::from_str(inner)));
    }

    let mut m = String::from_str("Unsupported format \"");
    m.append(value_str);
    m.append("\".");
    proof {
        assert(m@ =~= unsupported_format_msg(sv));
    }
    Err(m)
}

} // verus!
