//! The argument splitter: cuts a flat, comma-separated argument list into
//! top-level tokens. A bracket of one of the three kinds starts a verbatim
//! copy that ends only at the single matching closer, so commas inside
//! brackets do not split; quotes are not treated specially.

use vstd::prelude::*;
use crate::text::{is_space, is_space_char};

verus! {

/// Whether `c` opens a bracket scope.
pub open spec fn is_opener(c: char) -> bool {
    c == '(' || c == '[' || c == '{'
}

/// The closing character matching an opener.
pub open spec fn closer_of(c: char) -> char {
    if c == '[' {
        ']'
    } else if c == '{' {
        '}'
    } else {
        ')'
    }
}

/// One step at a time over `s` from position `i`: `buf` is the token built
/// so far, `acc` the tokens already emitted, and `pending` the closing
/// character currently searched for, if a bracket is open. Yields the
/// token list, or `None` when the input ends inside a bracket.
///
/// Leading whitespace is skipped only while the token buffer is empty; a
/// comma outside brackets emits the buffer, even when it is empty; every
/// other character is copied verbatim. A non-empty trailing buffer is
/// emitted at the end of the input.
pub open spec fn scan_args(
    s: Seq<char>,
    i: int,
    buf: Seq<char>,
    acc: Seq<Seq<char>>,
    pending: Option<char>,
) -> Option<Seq<Seq<char>>>
    decreases s.len() - i,
    when 0 <= i <= s.len()
{
    if i == s.len() {
        match pending {
            Option::Some(_) => None,
            Option::None => Some(
                if buf.len() > 0 {
                    acc.push(buf)
                } else {
                    acc
                },
            ),
        }
    } else {
        let c = s[i];
        match pending {
            Option::Some(cl) => if c == cl {
                scan_args(s, i + 1, buf.push(c), acc, None)
            } else {
                scan_args(s, i + 1, buf.push(c), acc, Some(cl))
            },
            Option::None => if is_space_char(c) && buf.len() == 0 {
                scan_args(s, i + 1, buf, acc, None)
            } else if c == ',' {
                scan_args(s, i + 1, Seq::<char>::empty(), acc.push(buf), None)
            } else if is_opener(c) {
                scan_args(s, i + 1, buf.push(c), acc, Some(closer_of(c)))
            } else {
                scan_args(s, i + 1, buf.push(c), acc, None)
            },
        }
    }
}

/// The token list an argument list splits into, or `None` when the input
/// ends before an opened bracket is closed.
pub open spec fn split_spec(s: Seq<char>) -> Option<Seq<Seq<char>>> {
    scan_args(s, 0, Seq::<char>::empty(), Seq::<Seq<char>>::empty(), None)
}

/// The message reporting an argument list whose bracket never closes.
pub open spec fn illegal_argument_msg(s: Seq<char>) -> Seq<char> {
    "Illegal argument \"("@ + s + ")\"."@
}

/// Splits `input` on top-level commas. Leading whitespace before a token
/// is skipped; whitespace inside a started token is preserved. `()`, `[]`
/// and `{}` open verbatim scopes closed only by the one matching closer;
/// input that ends inside such a scope is an illegal argument list.
pub fn split_arguments(input: &String) -> (r: Result<Vec<String>, String>)
    ensures
        match split_spec(input@) {
            Option::Some(toks) => r matches Ok(v) && v.deep_view() == toks,
            Option::None => r matches Err(m) && m@ == illegal_argument_msg(input@),
        },
{
    let len: usize = input.as_str().unicode_len();
    let mut ret: Vec<String> = Vec::new();
    let mut start: usize = 0;
    let mut i: usize = 0;
    let mut pending: Option<char> = None;
    proof {
        assert(input@.subrange(0, 0) =~= Seq::<char>::empty());
        assert(ret.deep_view() =~= Seq::<Seq<char>>::empty());
    }
    while i < len
        invariant
            0 <= start <= i <= len,
            len == input@.len(),
            split_spec(input@) == scan_args(
                input@,
                i as int,
                input@.subrange(start as int, i as int),
                ret.deep_view(),
                pending,
            ),
        decreases len - i,
    {
        let c = input.as_str().get_char(i);
        let ghost buf = input@.subrange(start as int, i as int);
        proof {
            assert(input@.subrange(start as int, i + 1) =~= buf.push(c));
        }
        match pending {
            Option::Some(cl) => {
                if c == cl {
                    pending = None;
                }
                i = i + 1;
                proof {
                    assert(split_spec(input@) == scan_args(
                        input@,
                        i as int,
                        input@.subrange(start as int, i as int),
                        ret.deep_view(),
                        pending,
                    ));
                }
            },
            Option::None => {
                if is_space(c) && start == i {
                    proof {
                        assert(input@.subrange(i as int, i as int) =~= Seq::<char>::empty());
                        assert(input@.subrange(i + 1, i + 1) =~= Seq::<char>::empty());
                    }
                    start = i + 1;
                    i = i + 1;
                    proof {
                        assert(split_spec(input@) == scan_args(
                            input@,
                            i as int,
                            input@.subrange(start as int, i as int),
                            ret.deep_view(),
                            pending,
                        ));
                    }
                } else if c == ',' {
                    let tok = input.as_str().substring_char(start, i);
                    let ghost old_acc = ret.deep_view();
                    ret.push(String::from_str(tok));
                    proof {
                        assert(ret.deep_view() =~= old_acc.push(buf));
                        assert(input@.subrange(i + 1, i + 1) =~= Seq::<char>::empty());
                    }
                    start = i + 1;
                    i = i + 1;
                    proof {
                        assert(split_spec(input@) == scan_args(
                            input@,
                            i as int,
                            input@.subrange(start as int, i as int),
                            ret.deep_view(),
                            pending,
                        ));
                    }
                } else if c == '(' {
                    pending = Some(')');
                    i = i + 1;
                } else if c == '[' {
                    pending = Some(']');
                    i = i + 1;
                } else if c == '{' {
                    pending = Some('}');
                    i = i + 1;
                } else {
                    i = i + 1;
                }
            },
        }
    }
    match pending {
        Option::Some(_) => {
            let mut m = String::from_str("Illegal argument \"(");
            m.append(input.as_str());
            m.append(")\".");
            proof {
                assert(m@ =~= illegal_argument_msg(input@));
            }
            Err(m)
        },
        Option::None => {
            if start < len {
                let tok = input.as_str().substring_char(start, len);
                let ghost old_acc = ret.deep_view();
                ret.push(String::from_str(tok));
                proof {
                    assert(ret.deep_view() =~= old_acc.push(
                        input@.subrange(start as int, len as int),
                    ));
                }
            } else {
                proof {
                    assert(input@.subrange(start as int, len as int) =~= Seq::<char>::empty());
                }
            }
            Ok(ret)
        },
    }
}

} // verus!
