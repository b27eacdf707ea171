//! JSON text for request bodies.
//!
//! A body is modelled as a sequence of members, each a key and the JSON text
//! of its value. Only members that are present are listed: an unset optional
//! field gives no member at all, never a `null`.
use vstd::prelude::*;
use crate::text::{decimal, decimal_of};

verus! {

/// The JSON string literal that serde_json writes for `s`: the characters
/// between double quotes, with the escapes that JSON demands.
pub uninterp spec fn json_string_of(s: Seq<char>) -> Seq<char>;

/// Relies on `serde_json::to_string` on a `&str`: the escaped JSON string
/// literal, which depends on the characters alone. Serializing a string never
/// fails.
#[verifier::external_body]
fn quote(s: &str) -> (r: String)
    ensures
        r@ == json_string_of(s@),
{
    match serde_json::to_string(s) {
        Ok(t) => t,
        Err(_) => String::new(),
    }
}

/// A member of an object: a key and the JSON text of its value.
pub type MemberView = (Seq<char>, Seq<char>);

/// The texts in order, separated by commas.
pub open spec fn join_comma(items: Seq<Seq<char>>) -> Seq<char>
    decreases items.len(),
{
    if items.len() == 0 {
        Seq::empty()
    } else if items.len() == 1 {
        items[0]
    } else {
        join_comma(items.drop_last()) + seq![','] + items.last()
    }
}

/// The text of one member: the quoted key, a colon, the value.
pub open spec fn member_text(m: MemberView) -> Seq<char> {
    json_string_of(m.0) + seq![':'] + m.1
}

/// The JSON object that holds exactly these members, in this order.
pub open spec fn object_text(members: Seq<MemberView>) -> Seq<char> {
    seq!['{'] + join_comma(members.map_values(|m: MemberView| member_text(m))) + seq!['}']
}

/// The JSON array of these element texts.
pub open spec fn array_text(items: Seq<Seq<char>>) -> Seq<char> {
    seq!['['] + join_comma(items) + seq![']']
}

/// The JSON text of a string.
pub open spec fn string_value(s: Seq<char>) -> Seq<char> {
    json_string_of(s)
}

/// The JSON text of a boolean.
pub open spec fn bool_value(b: bool) -> Seq<char> {
    if b {
        seq!['t', 'r', 'u', 'e']
    } else {
        seq!['f', 'a', 'l', 's', 'e']
    }
}

/// The JSON array of strings.
pub open spec fn string_array_value(items: Seq<String>) -> Seq<char> {
    array_text(items.map_values(|s: String| json_string_of(s@)))
}

/// The keys of the members, in order.
pub open spec fn keys_of(members: Seq<MemberView>) -> Seq<Seq<char>> {
    members.map_values(|m: MemberView| m.0)
}

/// The member for a field that is always present.
pub open spec fn member(key: &str, value: Seq<char>) -> Seq<MemberView> {
    seq![(key@, value)]
}

/// The member for an optional string field: none when it is unset.
pub open spec fn opt_string_member(key: &str, value: Option<String>) -> Seq<MemberView> {
    match value {
        Some(s) => seq![(key@, json_string_of(s@))],
        None => Seq::empty(),
    }
}

/// The member for an optional count: none when it is unset.
pub open spec fn opt_count_member(key: &str, value: Option<usize>) -> Seq<MemberView> {
    match value {
        Some(n) => seq![(key@, decimal_of(n as nat))],
        None => Seq::empty(),
    }
}

/// The member for an optional small number: none when it is unset.
pub open spec fn opt_small_member(key: &str, value: Option<u8>) -> Seq<MemberView> {
    match value {
        Some(n) => seq![(key@, decimal_of(n as nat))],
        None => Seq::empty(),
    }
}

/// The member for an optional flag: none when it is unset.
pub open spec fn opt_bool_member(key: &str, value: Option<bool>) -> Seq<MemberView> {
    match value {
        Some(b) => seq![(key@, bool_value(b))],
        None => Seq::empty(),
    }
}

/// The view of members held as pairs of strings.
pub open spec fn members_view(members: Seq<(String, String)>) -> Seq<MemberView> {
    members.map_values(|m: (String, String)| (m.0@, m.1@))
}

/// The view of a list of strings.
pub open spec fn strings_view(items: Seq<String>) -> Seq<Seq<char>> {
    items.map_values(|s: String| s@)
}

/// Joins the texts with commas.
pub fn write_joined(items: &Vec<String>) -> (r: String)
    ensures
        r@ == join_comma(strings_view(items@)),
{
    let mut r = String::new();
    let mut i: usize = 0;
    while i < items.len()
        invariant
            i <= items@.len(),
            r@ == join_comma(strings_view(items@.subrange(0, i as int))),
        decreases items@.len() - i,
    {
        proof {
            let next = strings_view(items@.subrange(0, i + 1));
            assert(next.drop_last() =~= strings_view(items@.subrange(0, i as int)));
            assert(next.last() == items@[i as int]@);
        }
        if i > 0 {
            r.append(",");
            proof { reveal_strlit(","); }
        }
        r.append(items[i].as_str());
        proof {
            if i == 0 {
                assert(r@ =~= strings_view(items@.subrange(0, 1))[0]);
            }
        }
        i = i + 1;
    }
    assert(items@.subrange(0, items@.len() as int) =~= items@);
    r
}

/// Writes the object that holds these members, in order.
pub fn write_object(members: &Vec<(String, String)>) -> (r: String)
    ensures
        r@ == object_text(members_view(members@)),
{
    let mut texts: Vec<String> = Vec::new();
    let mut i: usize = 0;
    while i < members.len()
        invariant
            i <= members@.len(),
            strings_view(texts@) =~= members_view(members@.subrange(0, i as int)).map_values(
                |m: MemberView| member_text(m),
            ),
        decreases members@.len() - i,
    {
        let mut t = quote(members[i].0.as_str());
        t.append(":");
        t.append(members[i].1.as_str());
        proof { reveal_strlit(":"); }
        let ghost prev = texts@;
        texts.push(t);
        proof {
            let done = members_view(members@.subrange(0, i + 1));
            assert(done =~= members_view(members@.subrange(0, i as int)).push(done.last()));
            assert(strings_view(texts@) =~= strings_view(prev).push(t@));
            assert(t@ == member_text(done.last()));
        }
        i = i + 1;
    }
    assert(members@.subrange(0, members@.len() as int) =~= members@);
    let mut r = "{".to_owned();
    let inner = write_joined(&texts);
    r.append(inner.as_str());
    r.append("}");
    proof {
        reveal_strlit("{");
        reveal_strlit("}");
    }
    r
}

/// Writes the JSON array whose elements are these texts.
pub fn write_array(items: &Vec<String>) -> (r: String)
    ensures
        r@ == array_text(strings_view(items@)),
{
    let mut r = "[".to_owned();
    let inner = write_joined(items);
    r.append(inner.as_str());
    r.append("]");
    proof {
        reveal_strlit("[");
        reveal_strlit("]");
    }
    r
}

/// Writes a string value.
pub fn write_string(s: &str) -> (r: String)
    ensures
        r@ == string_value(s@),
{
    quote(s)
}

/// Writes a boolean value.
pub fn write_bool(b: bool) -> (r: String)
    ensures
        r@ == bool_value(b),
{
    proof {
        reveal_strlit("true");
        reveal_strlit("false");
    }
    let r = if b { "true".to_owned() } else { "false".to_owned() };
    assert(r@ =~= bool_value(b));
    r
}

/// Writes an array of strings.
pub fn write_string_array(items: &Vec<String>) -> (r: String)
    ensures
        r@ == string_array_value(items@),
{
    let mut texts: Vec<String> = Vec::new();
    let mut i: usize = 0;
    while i < items.len()
        invariant
            i <= items@.len(),
            strings_view(texts@) =~= items@.subrange(0, i as int).map_values(
                |s: String| json_string_of(s@),
            ),
        decreases items@.len() - i,
    {
        let q = quote(items[i].as_str());
        let ghost prev = texts@;
        texts.push(q);
        proof {
            let done = items@.subrange(0, i + 1);
            assert(done =~= items@.subrange(0, i as int).push(items@[i as int]));
            assert(strings_view(texts@) =~= strings_view(prev).push(q@));
        }
        i = i + 1;
    }
    assert(items@.subrange(0, items@.len() as int) =~= items@);
    write_array(&texts)
}

/// Appends the member for a field that is always present.
pub fn push_member(members: &mut Vec<(String, String)>, key: &str, value: String)
    ensures
        members_view(final(members)@) == members_view(old(members)@) + member(key, value@),
{
    members.push((key.to_owned(), value));
    assert(members_view(final(members)@) =~= members_view(old(members)@) + member(key, value@));
}

/// Appends the member for an optional string field, if it is set.
pub fn push_opt_string(members: &mut Vec<(String, String)>, key: &str, value: &Option<String>)
    ensures
        members_view(final(members)@) == members_view(old(members)@) + opt_string_member(key, *value),
{
    match value {
        Some(s) => push_member(members, key, quote(s.as_str())),
        None => {
            assert(members_view(final(members)@) =~= members_view(old(members)@) + opt_string_member(key, *value));
        },
    }
}

/// Appends the member for an optional count, if it is set.
pub fn push_opt_count(members: &mut Vec<(String, String)>, key: &str, value: Option<usize>)
    ensures
        members_view(final(members)@) == members_view(old(members)@) + opt_count_member(key, value),
{
    match value {
        Some(n) => push_member(members, key, decimal(n as u64)),
        None => {
            assert(members_view(final(members)@) =~= members_view(old(members)@) + opt_count_member(key, value));
        },
    }
}

/// Appends the member for an optional flag, if it is set.
pub fn push_opt_bool(members: &mut Vec<(String, String)>, key: &str, value: Option<bool>)
    ensures
        members_view(final(members)@) == members_view(old(members)@) + opt_bool_member(key, value),
{
    match value {
        Some(b) => push_member(members, key, write_bool(b)),
        None => {
            assert(members_view(final(members)@) =~= members_view(old(members)@) + opt_bool_member(key, value));
        },
    }
}

/// Appends the member for an optional small number, if it is set.
pub fn push_opt_small(members: &mut Vec<(String, String)>, key: &str, value: Option<u8>)
    ensures
        members_view(final(members)@) == members_view(old(members)@) + opt_small_member(key, value),
{
    match value {
        Some(n) => push_member(members, key, decimal(n as u64)),
        None => {
            assert(members_view(final(members)@) =~= members_view(old(members)@) + opt_small_member(key, value));
        },
    }
}

} // verus!
