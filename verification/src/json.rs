use vstd::prelude::*;

use crate::numbers::{dec_seq, digit_char, u32_to_dec};
use crate::text::push_char;
use crate::user::User;

verus! {

/// The hexadecimal digit character for `d`, lower case.
pub open spec fn hex_char(d: nat) -> char
    recommends
        d < 16,
{
    if d < 10 {
        digit_char(d)
    } else if d == 10 {
        'a'
    } else if d == 11 {
        'b'
    } else if d == 12 {
        'c'
    } else if d == 13 {
        'd'
    } else if d == 14 {
        'e'
    } else {
        'f'
    }
}

/// The rendering of one character inside a JSON string literal: quote,
/// backslash and the control characters are escaped, every other character
/// stands as itself.
pub open spec fn esc_char(c: char) -> Seq<char> {
    let v = c as u32;
    if v == 34 {
        seq!['\\', '"']
    } else if v == 92 {
        seq!['\\', '\\']
    } else if v == 8 {
        seq!['\\', 'b']
    } else if v == 9 {
        seq!['\\', 't']
    } else if v == 10 {
        seq!['\\', 'n']
    } else if v == 12 {
        seq!['\\', 'f']
    } else if v == 13 {
        seq!['\\', 'r']
    } else if v < 32 {
        seq!['\\', 'u', '0', '0', hex_char((v / 16) as nat), hex_char((v % 16) as nat)]
    } else {
        seq![c]
    }
}

/// The body of a JSON string literal for `s`: each character escaped in turn.
pub open spec fn esc_seq(s: Seq<char>) -> Seq<char>
    decreases s.len(),
{
    if s.len() == 0 {
        Seq::empty()
    } else {
        esc_seq(s.drop_last()) + esc_char(s.last())
    }
}

/// A complete JSON string literal for `s`, quotes included.
pub open spec fn json_str_seq(s: Seq<char>) -> Seq<char> {
    seq!['"'] + esc_seq(s) + seq!['"']
}

/// The hexadecimal digit character for `d`, lower case.
fn hex_char_exec(d: u32) -> (c: char)
    requires
        d < 16,
    ensures
        c == hex_char(d as nat),
{
    if d == 0 {
        '0'
    } else if d == 1 {
        '1'
    } else if d == 2 {
        '2'
    } else if d == 3 {
        '3'
    } else if d == 4 {
        '4'
    } else if d == 5 {
        '5'
    } else if d == 6 {
        '6'
    } else if d == 7 {
        '7'
    } else if d == 8 {
        '8'
    } else if d == 9 {
        '9'
    } else if d == 10 {
        'a'
    } else if d == 11 {
        'b'
    } else if d == 12 {
        'c'
    } else if d == 13 {
        'd'
    } else if d == 14 {
        'e'
    } else {
        'f'
    }
}

/// Appends the JSON escape of `c`.
fn push_escaped(out: &mut String, c: char)
    ensures
        final(out)@ == old(out)@ + esc_char(c),
{
    let v = c as u32;
    if v == 34 {
        proof {
            reveal_strlit("\\\"");
        }
        out.append("\\\"");
        proof {
            assert(out@ =~= old(out)@ + esc_char(c));
        }
    } else if v == 92 {
        proof {
            reveal_strlit("\\\\");
        }
        out.append("\\\\");
        proof {
            assert(out@ =~= old(out)@ + esc_char(c));
        }
    } else if v == 8 {
        proof {
            reveal_strlit("\\b");
        }
        out.append("\\b");
        proof {
            assert(out@ =~= old(out)@ + esc_char(c));
        }
    } else if v == 9 {
        proof {
            reveal_strlit("\\t");
        }
        out.append("\\t");
        proof {
            assert(out@ =~= old(out)@ + esc_char(c));
        }
    } else if v == 10 {
        proof {
            reveal_strlit("\\n");
        }
        out.append("\\n");
        proof {
            assert(out@ =~= old(out)@ + esc_char(c));
        }
    } else if v == 12 {
        proof {
            reveal_strlit("\\f");
        }
        out.append("\\f");
        proof {
            assert(out@ =~= old(out)@ + esc_char(c));
        }
    } else if v == 13 {
        proof {
            reveal_strlit("\\r");
        }
        out.append("\\r");
        proof {
            assert(out@ =~= old(out)@ + esc_char(c));
        }
    } else if v < 32 {
        proof {
            reveal_strlit("\\u00");
        }
        out.append("\\u00");
        push_char(out, hex_char_exec(v / 16));
        push_char(out, hex_char_exec(v % 16));
        proof {
            assert(out@ =~= old(out)@ + esc_char(c));
        }
    } else {
        push_char(out, c);
        proof {
            assert(out@ =~= old(out)@ + esc_char(c));
        }
    }
}

/// Appends `s` as a JSON string literal, quotes and escapes included.
pub fn append_json_string(out: &mut String, s: &str)
    ensures
        final(out)@ == old(out)@ + json_str_seq(s@),
{
    push_char(out, '"');
    let n = s.unicode_len();
    for i in 0..n
        invariant
            n == s@.len(),
            out@ == old(out)@ + seq!['"'] + esc_seq(s@.take(i as int)),
    {
        push_escaped(out, s.get_char(i));
        proof {
            assert(s@.take(i as int + 1).drop_last() =~= s@.take(i as int));
            assert(s@.take(i as int + 1).last() == s@[i as int]);
            assert(out@ =~= old(out)@ + seq!['"'] + esc_seq(s@.take(i as int + 1)));
        }
    }
    proof {
        assert(s@.take(n as int) =~= s@);
    }
    push_char(out, '"');
    proof {
        assert(out@ =~= old(out)@ + json_str_seq(s@));
    }
}

/// The JSON object for one user: `{"id":<id>,"name":"<name>"}`.
pub open spec fn user_json_seq(id: nat, name: Seq<char>) -> Seq<char> {
    seq!['{', '"', 'i', 'd', '"', ':'] + dec_seq(id) + seq![',', '"', 'n', 'a', 'm', 'e', '"', ':']
        + json_str_seq(name) + seq!['}']
}

/// Renders one user as a JSON object.
pub fn user_json(u: &User) -> (s: String)
    requires
        u.id >= 0,
    ensures
        s@ == user_json_seq(u.id as nat, u.name@),
{
    let mut s = String::new();
    proof {
        reveal_strlit("{\"id\":");
        assert(("{\"id\":")@ =~= seq!['{', '"', 'i', 'd', '"', ':']);
    }
    s.append("{\"id\":");
    let ds = u32_to_dec(u.id as u32);
    s.append(ds.as_str());
    proof {
        reveal_strlit(",\"name\":");
        assert((",\"name\":")@ =~= seq![',', '"', 'n', 'a', 'm', 'e', '"', ':']);
    }
    s.append(",\"name\":");
    append_json_string(&mut s, u.name.as_str());
    push_char(&mut s, '}');
    proof {
        assert(s@ =~= user_json_seq(u.id as nat, u.name@));
    }
    s
}

/// The comma-separated JSON objects for the first `n` users of the listing.
pub open spec fn users_items_seq(users: Seq<User>, n: int) -> Seq<char>
    decreases n,
{
    if n <= 0 {
        Seq::empty()
    } else if n == 1 {
        user_json_seq(users[0].id as nat, users[0].name@)
    } else {
        users_items_seq(users, n - 1) + seq![','] + user_json_seq(
            users[n - 1].id as nat,
            users[n - 1].name@,
        )
    }
}

/// The JSON array for a user listing, in the given order.
pub open spec fn users_json_seq(users: Seq<User>) -> Seq<char> {
    seq!['['] + users_items_seq(users, users.len() as int) + seq![']']
}

/// Renders a user listing as a JSON array, in the given order; an empty
/// listing renders as the empty array.
pub fn users_json(users: &Vec<User>) -> (s: String)
    requires
        forall|i: int| 0 <= i < users@.len() ==> users@[i].id >= 0,
    ensures
        s@ == users_json_seq(users@),
{
    let mut s = String::new();
    push_char(&mut s, '[');
    let n = users.len();
    for i in 0..n
        invariant
            n == users@.len(),
            forall|k: int| 0 <= k < n ==> users@[k].id >= 0,
            s@ == seq!['['] + users_items_seq(users@, i as int),
    {
        if i > 0 {
            push_char(&mut s, ',');
        }
        let uj = user_json(&users[i]);
        s.append(uj.as_str());
        proof {
            assert(s@ =~= seq!['['] + users_items_seq(users@, i as int + 1));
        }
    }
    push_char(&mut s, ']');
    proof {
        assert(s@ =~= users_json_seq(users@));
    }
    s
}

/// The JSON object for an error report: `{"error":"<message>"}`.
pub open spec fn error_body_seq(msg: Seq<char>) -> Seq<char> {
    seq!['{', '"', 'e', 'r', 'r', 'o', 'r', '"', ':'] + json_str_seq(msg) + seq!['}']
}

/// Renders the error body `{"error":"<message>"}`.
pub fn error_body(msg: &str) -> (s: String)
    ensures
        s@ == error_body_seq(msg@),
{
    let mut s = String::new();
    proof {
        reveal_strlit("{\"error\":");
        assert(("{\"error\":")@ =~= seq!['{', '"', 'e', 'r', 'r', 'o', 'r', '"', ':']);
    }
    s.append("{\"error\":");
    append_json_string(&mut s, msg);
    push_char(&mut s, '}');
    proof {
        assert(s@ =~= error_body_seq(msg@));
    }
    s
}

} // verus!
