//! The JSON wire form of user rows: decimal rendering of the id, string
//! escaping, one object per row, and the array of all rows.

use vstd::prelude::*;
use vstd::string::*;
use crate::model::{User, UserView};

verus! {

/// The character for a decimal digit value.
pub open spec fn digit_char(d: int) -> char {
    if d == 0 {
        '0'
    } else if d == 1 {
        '1'
    } else if d == 2 {
        '2'
    } else if d == 3 {
        '3'
    } else if d == 4 {
        '4'
    } else if d == 5 {
        '5'
    } else if d == 6 {
        '6'
    } else if d == 7 {
        '7'
    } else if d == 8 {
        '8'
    } else {
        '9'
    }
}

/// The character for a hexadecimal digit value, lower case.
pub open spec fn hex_char(d: int) -> char {
    if d < 10 {
        digit_char(d)
    } else if d == 10 {
        'a'
    } else if d == 11 {
        'b'
    } else if d == 12 {
        'c'
    } else if d == 13 {
        'd'
    } else if d == 14 {
        'e'
    } else {
        'f'
    }
}

/// The decimal rendering of a nonnegative integer, no leading zeros.
pub open spec fn u64_dec_spec(n: int) -> Seq<char>
    decreases n when n >= 0
{
    if n < 10 {
        seq![digit_char(n)]
    } else {
        u64_dec_spec(n / 10).push(digit_char(n % 10))
    }
}

/// The decimal rendering of an `i32` value, `-` first when negative.
pub open spec fn i32_dec_spec(v: int) -> Seq<char> {
    if v < 0 {
        seq!['-'] + u64_dec_spec(-v)
    } else {
        u64_dec_spec(v)
    }
}

fn digit_str(d: u64) -> (r: &'static str)
    requires
        d < 10,
    ensures
        r@ == seq![digit_char(d as int)],
{
    if d == 0 {
        proof {
            reveal_strlit("0");
            assert("0"@ =~= seq![digit_char(0)]);
        }
        "0"
    } else if d == 1 {
        proof {
            reveal_strlit("1");
            assert("1"@ =~= seq![digit_char(1)]);
        }
        "1"
    } else if d == 2 {
        proof {
            reveal_strlit("2");
            assert("2"@ =~= seq![digit_char(2)]);
        }
        "2"
    } else if d == 3 {
        proof {
            reveal_strlit("3");
            assert("3"@ =~= seq![digit_char(3)]);
        }
        "3"
    } else if d == 4 {
        proof {
            reveal_strlit("4");
            assert("4"@ =~= seq![digit_char(4)]);
        }
        "4"
    } else if d == 5 {
        proof {
            reveal_strlit("5");
            assert("5"@ =~= seq![digit_char(5)]);
        }
        "5"
    } else if d == 6 {
        proof {
            reveal_strlit("6");
            assert("6"@ =~= seq![digit_char(6)]);
        }
        "6"
    } else if d == 7 {
        proof {
            reveal_strlit("7");
            assert("7"@ =~= seq![digit_char(7)]);
        }
        "7"
    } else if d == 8 {
        proof {
            reveal_strlit("8");
            assert("8"@ =~= seq![digit_char(8)]);
        }
        "8"
    } else {
        proof {
            reveal_strlit("9");
            assert("9"@ =~= seq![digit_char(9)]);
        }
        "9"
    }
}

fn hex_str(d: u64) -> (r: &'static str)
    requires
        d < 16,
    ensures
        r@ == seq![hex_char(d as int)],
{
    if d < 10 {
        digit_str(d)
    } else if d == 10 {
        proof {
            reveal_strlit("a");
            assert("a"@ =~= seq![hex_char(10)]);
        }
        "a"
    } else if d == 11 {
        proof {
            reveal_strlit("b");
            assert("b"@ =~= seq![hex_char(11)]);
        }
        "b"
    } else if d == 12 {
        proof {
            reveal_strlit("c");
            assert("c"@ =~= seq![hex_char(12)]);
        }
        "c"
    } else if d == 13 {
        proof {
            reveal_strlit("d");
            assert("d"@ =~= seq![hex_char(13)]);
        }
        "d"
    } else if d == 14 {
        proof {
            reveal_strlit("e");
            assert("e"@ =~= seq![hex_char(14)]);
        }
        "e"
    } else {
        proof {
            reveal_strlit("f");
            assert("f"@ =~= seq![hex_char(15)]);
        }
        "f"
    }
}

/// Renders a nonnegative integer in decimal.
pub fn u64_dec(n: u64) -> (r: String)
    ensures
        r@ == u64_dec_spec(n as int),
    decreases n,
{
    if n < 10 {
        digit_str(n).to_owned()
    } else {
        let mut s = u64_dec(n / 10);
        s.append(digit_str(n % 10));
        proof {
            assert(u64_dec_spec(n as int / 10) + seq![digit_char(n as int % 10)] =~= u64_dec_spec(
                n as int / 10,
            ).push(digit_char(n as int % 10)));
        }
        s
    }
}

/// Renders an `i32` in decimal, with a leading `-` when negative.
pub fn i32_dec(v: i32) -> (r: String)
    ensures
        r@ == i32_dec_spec(v as int),
{
    if v >= 0 {
        u64_dec(v as u64)
    } else {
        let m = -(v as i64);
        let mut s = "-".to_owned();
        let t = u64_dec(m as u64);
        s.append(t.as_str());
        proof {
            reveal_strlit("-");
            assert("-"@ =~= seq!['-']);
        }
        s
    }
}

/// How one character appears inside a JSON string literal: quote and
/// backslash escaped, control characters by their short escape or `\u00..`,
/// everything else as itself.
pub open spec fn esc_char(c: char) -> Seq<char> {
    if c == '"' {
        seq!['\\', '"']
    } else if c == '\\' {
        seq!['\\', '\\']
    } else if c == '\u{8}' {
        seq!['\\', 'b']
    } else if c == '\t' {
        seq!['\\', 't']
    } else if c == '\n' {
        seq!['\\', 'n']
    } else if c == '\u{c}' {
        seq!['\\', 'f']
    } else if c == '\r' {
        seq!['\\', 'r']
    } else if (c as u32) < 32 {
        seq!['\\', 'u', '0', '0', hex_char(c as u32 as int / 16), hex_char(c as u32 as int % 16)]
    } else {
        seq![c]
    }
}

/// The body of a JSON string literal for the given text.
pub open spec fn escape_spec(s: Seq<char>) -> Seq<char>
    decreases s.len(),
{
    if s.len() == 0 {
        Seq::empty()
    } else {
        escape_spec(s.drop_last()) + esc_char(s.last())
    }
}

/// Escapes text for inclusion inside a JSON string literal.
pub fn escape_json(s: &str) -> (r: String)
    ensures
        r@ == escape_spec(s@),
{
    let n = s.unicode_len();
    let mut out = String::new();
    let mut i: usize = 0;
    while i < n
        invariant
            i <= n,
            n == s@.len(),
            out@ == escape_spec(s@.subrange(0, i as int)),
        decreases n - i,
    {
        let c = s.get_char(i);
        if c == '"' {
            out.append("\\\"");
            proof {
                reveal_strlit("\\\"");
                assert("\\\""@ =~= esc_char('"'));
            }
        } else if c == '\\' {
            out.append("\\\\");
            proof {
                reveal_strlit("\\\\");
                assert("\\\\"@ =~= esc_char('\\'));
            }
        } else if c == '\u{8}' {
            out.append("\\b");
            proof {
                reveal_strlit("\\b");
                assert("\\b"@ =~= esc_char('\u{8}'));
            }
        } else if c == '\t' {
            out.append("\\t");
            proof {
                reveal_strlit("\\t");
                assert("\\t"@ =~= esc_char('\t'));
            }
        } else if c == '\n' {
            out.append("\\n");
            proof {
                reveal_strlit("\\n");
                assert("\\n"@ =~= esc_char('\n'));
            }
        } else if c == '\u{c}' {
            out.append("\\f");
            proof {
                reveal_strlit("\\f");
                assert("\\f"@ =~= esc_char('\u{c}'));
            }
        } else if c == '\r' {
            out.append("\\r");
            proof {
                reveal_strlit("\\r");
                assert("\\r"@ =~= esc_char('\r'));
            }
        } else if (c as u32) < 32 {
            out.append("\\u00");
            let hi = (c as u32) / 16;
            let lo = (c as u32) % 16;
            out.append(hex_str(hi as u64));
            out.append(hex_str(lo as u64));
            proof {
                reveal_strlit("\\u00");
                assert("\\u00"@ + seq![hex_char(hi as int)] + seq![hex_char(lo as int)]
                    =~= esc_char(c));
            }
        } else {
            let one = s.substring_char(i, i + 1);
            out.append(one);
            proof {
                assert(one@ =~= seq![c]);
                assert(seq![c] =~= esc_char(c));
            }
        }
        proof {
            assert(s@.subrange(0, i + 1 as int).drop_last() =~= s@.subrange(0, i as int));
            assert(s@.subrange(0, i + 1 as int).last() == s@[i as int]);
        }
        i += 1;
    }
    proof {
        assert(s@.subrange(0, n as int) =~= s@);
    }
    out
}

/// The JSON object for one user row.
pub open spec fn user_json_spec(u: UserView) -> Seq<char> {
    "{\"id\":"@ + i32_dec_spec(u.id) + ",\"name\":\""@ + escape_spec(u.name) + "\",\"email\":\""@
        + escape_spec(u.email) + "\"}"@
}

/// Renders one user row as a JSON object.
pub fn user_json(u: &User) -> (r: String)
    ensures
        r@ == user_json_spec(u@),
{
    let mut out = "{\"id\":".to_owned();
    let t_id = i32_dec(u.id);
    out.append(t_id.as_str());
    out.append(",\"name\":\"");
    let t_name = escape_json(u.name.as_str());
    out.append(t_name.as_str());
    out.append("\",\"email\":\"");
    let t_email = escape_json(u.email.as_str());
    out.append(t_email.as_str());
    out.append("\"}");
    out
}

/// The comma-separated JSON objects of the given rows, in order.
pub open spec fn users_json_items(s: Seq<UserView>) -> Seq<char>
    decreases s.len(),
{
    if s.len() == 0 {
        Seq::empty()
    } else if s.len() == 1 {
        user_json_spec(s[0])
    } else {
        users_json_items(s.drop_last()) + ","@ + user_json_spec(s.last())
    }
}

/// The JSON array of the given rows, in order.
pub open spec fn users_json_spec(s: Seq<UserView>) -> Seq<char> {
    "["@ + users_json_items(s) + "]"@
}

/// Renders all user rows as one JSON array, in the order given.
pub fn users_json(users: &Vec<User>) -> (r: String)
    ensures
        r@ == users_json_spec(users.deep_view()),
{
    let ghost dv = users.deep_view();
    let mut out = "[".to_owned();
    proof {
        assert(users_json_items(dv.subrange(0, 0)) == Seq::<char>::empty());
        assert("["@ + Seq::<char>::empty() =~= "["@);
    }
    let mut i: usize = 0;
    while i < users.len()
        invariant
            i <= users.len(),
            dv == users.deep_view(),
            dv.len() == users.len(),
            out@ == "["@ + users_json_items(dv.subrange(0, i as int)),
        decreases users.len() - i,
    {
        if i > 0 {
            out.append(",");
        }
        let t = user_json(&users[i]);
        out.append(t.as_str());
        proof {
            let pre = dv.subrange(0, i as int);
            let post = dv.subrange(0, i + 1 as int);
            assert(users[i as int]@ == dv[i as int]);
            if i == 0 {
                assert(post.len() == 1);
                assert(post[0] == dv[0]);
                assert(users_json_items(post) == user_json_spec(dv[0]));
            } else {
                assert(post.drop_last() =~= pre);
                assert(post.last() == dv[i as int]);
            }
            assert(out@ =~= "["@ + users_json_items(post));
        }
        i += 1;
    }
    out.append("]");
    proof {
        assert(dv.subrange(0, users.len() as int) =~= dv);
    }
    out
}

} // verus!
