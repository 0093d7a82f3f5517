//! JSON reading through serde_json.
//!
//! serde_json splits a document into its parts; this module names what each
//! split returns, so that the decoders of the library can state exactly what
//! they build from a given text.
use vstd::prelude::*;

verus! {

/// The members of the JSON object in `text`, each with the unparsed text of
/// its value, or `None` when `text` is not a JSON object.
pub uninterp spec fn json_object_of(text: Seq<char>) -> Option<Seq<(Seq<char>, Seq<char>)>>;

/// The unparsed texts of the elements of the JSON array in `text`, or `None`
/// when `text` is not a JSON array.
pub uninterp spec fn json_array_of(text: Seq<char>) -> Option<Seq<Seq<char>>>;

/// `Some(None)` when `text` is JSON `null`, `Some(Some(n))` when it is the
/// integer `n` within the range of `u64`, and `None` otherwise.
pub uninterp spec fn json_nullable_u64_of(text: Seq<char>) -> Option<Option<u64>>;

/// The characters of the JSON string in `text`, escapes resolved, or `None`
/// when `text` is not a JSON string.
pub uninterp spec fn json_string_of(text: Seq<char>) -> Option<Seq<char>>;

/// The JSON boolean in `text`, or `None` when `text` is not one.
pub uninterp spec fn json_bool_of(text: Seq<char>) -> Option<bool>;

/// No key occurs twice among the members.
pub open spec fn keys_distinct(members: Seq<(Seq<char>, Seq<char>)>) -> bool {
    forall|i: int, j: int|
        0 <= i < j < members.len() ==> #[trigger] members[i].0 != #[trigger] members[j].0
}

/// The value text of the first member named `key`.
pub open spec fn member_of(members: Seq<(Seq<char>, Seq<char>)>, key: Seq<char>) -> Option<
    Seq<char>,
>
    decreases members.len(),
{
    if members.len() == 0 {
        None
    } else if members[0].0 == key {
        Some(members[0].1)
    } else {
        member_of(members.drop_first(), key)
    }
}

/// Relies on serde_json::from_str into a BTreeMap of boxed RawValue: it reads
/// a JSON object and yields each member once, with the text of its value.
#[verifier::external_body]
pub(crate) fn parse_object(text: &str) -> (r: Option<Vec<(String, String)>>)
    ensures
        r is Some <==> json_object_of(text@) is Some,
        r matches Some(m) ==> json_object_of(text@) == Some(m.deep_view()),
        r matches Some(m) ==> keys_distinct(m.deep_view()),
        text@.len() == 0 ==> r is None,
{
    serde_json::from_str::<std::collections::BTreeMap<String, Box<serde_json::value::RawValue>>>(
        text,
    ).ok().map(|m| m.into_iter().map(|(k, v)| (k, v.get().to_string())).collect())
}

/// Relies on serde_json::from_str into a Vec of boxed RawValue: it reads a
/// JSON array and yields the text of each element, in order.
#[verifier::external_body]
pub(crate) fn parse_array(text: &str) -> (r: Option<Vec<String>>)
    ensures
        r is Some <==> json_array_of(text@) is Some,
        r matches Some(v) ==> json_array_of(text@) == Some(v.deep_view()),
        text@.len() == 0 ==> r is None,
{
    serde_json::from_str::<Vec<Box<serde_json::value::RawValue>>>(text).ok().map(
        |v| v.into_iter().map(|e| e.get().to_string()).collect(),
    )
}

/// Relies on serde_json::from_str::<Option<u64>>: `null` gives `None`, an
/// integer within `u64` gives it, anything else fails.
#[verifier::external_body]
pub(crate) fn parse_nullable_u64(text: &str) -> (r: Option<Option<u64>>)
    ensures
        r == json_nullable_u64_of(text@),
{
    serde_json::from_str::<Option<u64>>(text).ok()
}

/// Relies on serde_json::from_str::<String>: the characters of a JSON string.
#[verifier::external_body]
pub(crate) fn parse_string(text: &str) -> (r: Option<String>)
    ensures
        r is Some <==> json_string_of(text@) is Some,
        r matches Some(s) ==> json_string_of(text@) == Some(s@),
{
    serde_json::from_str::<String>(text).ok()
}

/// Relies on serde_json::from_str::<bool>: the JSON literals `true` and `false`.
#[verifier::external_body]
pub(crate) fn parse_bool(text: &str) -> (r: Option<bool>)
    ensures
        r == json_bool_of(text@),
{
    serde_json::from_str::<bool>(text).ok()
}

/// The position of the member named `key`, if there is one.
pub fn find_member(members: &Vec<(String, String)>, key: &str) -> (r: Option<usize>)
    ensures
        match r {
            None => member_of(members.deep_view(), key@) is None,
            Some(i) => i < members.len() && member_of(members.deep_view(), key@) == Some(
                members.deep_view()[i as int].1,
            ),
        },
{
    let ghost all = members.deep_view();
    let wanted = String::from_str(key);
    let mut i: usize = 0;
    assert(all.subrange(0, all.len() as int) =~= all);
    while i < members.len()
        invariant
            i <= members.len(),
            all == members.deep_view(),
            wanted@ == key@,
            member_of(all, key@) == member_of(all.subrange(i as int, all.len() as int), key@),
        decreases members.len() - i,
    {
        let ghost rest = all.subrange(i as int, all.len() as int);
        assert(rest[0] == all[i as int]);
        assert(all[i as int] == members@[i as int].deep_view());
        assert(rest.drop_first() =~= all.subrange(i + 1, all.len() as int));
        if members[i].0 == wanted {
            return Some(i);
        }
        i = i + 1;
    }
    assert(all.subrange(i as int, all.len() as int).len() == 0);
    None
}

} // verus!
