//! Compact JSON text of a flat object whose members are all strings, as the
//! serialization of the request structs writes it. The quoting and escaping of
//! each string is done by `serde_json`, whose escaping is stated here.
use vstd::prelude::*;
use vstd::string::StringExecFns;

use crate::encoding::hex_digit;

verus! {

/// How `serde_json` writes one character inside a string literal: `"` and
/// `\` are escaped with a backslash; backspace, tab, line feed, form feed and
/// carriage return as `\b \t \n \f \r`; any other character below U+0020 as
/// `\u00` and two lowercase hex digits; every other character as itself.
pub open spec fn json_escape_char(c: char) -> Seq<char> {
    let v = c as int;
    if c == '"' {
        seq!['\\', '"']
    } else if c == '\\' {
        seq!['\\', '\\']
    } else if v == 8 {
        seq!['\\', 'b']
    } else if v == 9 {
        seq!['\\', 't']
    } else if v == 10 {
        seq!['\\', 'n']
    } else if v == 12 {
        seq!['\\', 'f']
    } else if v == 13 {
        seq!['\\', 'r']
    } else if v < 32 {
        seq!['\\', 'u', '0', '0', hex_digit(v / 16), hex_digit(v % 16)]
    } else {
        seq![c]
    }
}

/// The characters of `s`, each escaped by `json_escape_char`.
pub open spec fn json_escaped(s: Seq<char>) -> Seq<char>
    decreases s.len(),
{
    if s.len() == 0 {
        Seq::empty()
    } else {
        json_escaped(s.drop_last()) + json_escape_char(s.last())
    }
}

/// The JSON string literal of `s`: `s` escaped, in double quotes.
pub open spec fn json_string_literal(s: Seq<char>) -> Seq<char> {
    seq!['"'] + json_escaped(s) + seq!['"']
}

/// `serde_json::to_string(s)` for a `&str`: the quoted and escaped JSON string.
/// Claimed, as `format_escaped_str` and its `ESCAPE` table show it: the text in
/// double quotes, each character written as `json_escape_char` says (bytes of
/// multi-byte characters are never escaped). Serializing a string into the
/// in-memory buffer of `to_string` does not fail, so the error arm is never
/// taken.
#[verifier::external_body]
pub(crate) fn json_quote(s: &str) -> (quoted: String)
    ensures
        quoted@ == json_string_literal(s@),
{
    match serde_json::to_string(s) {
        Ok(quoted) => quoted,
        Err(_) => String::new(),
    }
}

/// One member `"key":"value"` of a JSON object.
pub open spec fn json_member(member: (Seq<char>, Seq<char>)) -> Seq<char> {
    json_string_literal(member.0) + ":"@ + json_string_literal(member.1)
}

/// The members of a JSON object, in order, separated by commas.
pub open spec fn json_members(members: Seq<(Seq<char>, Seq<char>)>) -> Seq<char>
    decreases members.len(),
{
    if members.len() == 0 {
        Seq::empty()
    } else if members.len() == 1 {
        json_member(members[0])
    } else {
        json_members(members.drop_last()) + ","@ + json_member(members.last())
    }
}

/// The compact JSON object text with the given string members, in order.
pub open spec fn json_object(members: Seq<(Seq<char>, Seq<char>)>) -> Seq<char> {
    "{"@ + json_members(members) + "}"@
}

/// The views of a sequence of string pairs.
pub open spec fn string_pairs_view(pairs: Seq<(String, String)>) -> Seq<(Seq<char>, Seq<char>)> {
    pairs.map_values(|p: (String, String)| (p.0@, p.1@))
}

/// The compact JSON object text whose members are `members`, in order.
pub fn json_object_text(members: &Vec<(String, String)>) -> (text: String)
    ensures
        text@ == json_object(string_pairs_view(members@)),
{
    let ghost view = string_pairs_view(members@);
    let mut text = String::from_str("{");
    let mut i: usize = 0;
    while i < members.len()
        invariant
            i <= members@.len(),
            view == string_pairs_view(members@),
            text@ == "{"@ + json_members(view.take(i as int)),
        decreases members@.len() - i,
    {
        let ghost before = text@;
        if i > 0 {
            text.append(",");
        }
        let key = json_quote(members[i].0.as_str());
        let value = json_quote(members[i].1.as_str());
        text.append(key.as_str());
        text.append(":");
        text.append(value.as_str());
        proof {
            assert(view.take(i + 1).drop_last() =~= view.take(i as int));
            assert(view.take(i + 1).last() == view[i as int]);
            assert(view[i as int] == (members@[i as int].0@, members@[i as int].1@));
            if i == 0 {
                assert(view.take(0) =~= Seq::<(Seq<char>, Seq<char>)>::empty());
                assert(text@ =~= "{"@ + json_members(view.take(i + 1)));
            } else {
                assert(text@ =~= "{"@ + json_members(view.take(i + 1)));
            }
        }
        i = i + 1;
    }
    text.append("}");
    assert(view.take(members@.len() as int) =~= view);
    text
}

} // verus!
