//! What the settings value, a `serde_json::Value`, holds under a key.

use vstd::prelude::*;

verus! {

/// `serde_json::Value`, carried through as an opaque value.
#[verifier::external_type_specification]
#[verifier::external_body]
pub struct ExValue(serde_json::Value);

/// What a key of a JSON object holds, as far as the settings care.
#[derive(Debug, Clone, PartialEq, Eq)]
pub enum Member {
    /// The JSON value `null`.
    Null,
    /// A JSON string.
    Text(String),
    /// A boolean, a number, an array or an object.
    Other,
}

/// The mathematical value of a [`Member`].
pub enum MemberView {
    Null,
    Text(Seq<char>),
    Other,
}

impl View for Member {
    type V = MemberView;

    open spec fn view(&self) -> MemberView {
        match self {
            Member::Null => MemberView::Null,
            Member::Text(text) => MemberView::Text(text@),
            Member::Other => MemberView::Other,
        }
    }
}

/// The mathematical value of a member that may be missing.
pub open spec fn member_view(member: Option<Member>) -> Option<MemberView> {
    match member {
        Some(m) => Some(m@),
        None => None,
    }
}

/// The members of the JSON object that `value` is, by key. A value that is
/// not an object has none.
pub uninterp spec fn members(value: serde_json::Value) -> Map<Seq<char>, MemberView>;

/// What `members` holds under `key`, if anything.
pub open spec fn member_at(members: Map<Seq<char>, MemberView>, key: Seq<char>) -> Option<
    MemberView,
> {
    if members.dom().contains(key) {
        Some(members[key])
    } else {
        None
    }
}

/// Calls `serde_json::Value::get` with a string key and tells the variants of
/// the value found apart. Believed, not proved: the result is what the
/// value's members hold under `key`, and `None` where the key is missing or
/// the value is not an object.
#[verifier::external_body]
pub(crate) fn lookup(value: &serde_json::Value, key: &str) -> (found: Option<Member>)
    ensures
        member_view(found) == member_at(members(*value), key@),
{
    match value.get(key) {
        None => None,
        Some(serde_json::Value::Null) => Some(Member::Null),
        Some(serde_json::Value::String(text)) => Some(Member::Text(text.clone())),
        Some(serde_json::Value::Bool(_)) => Some(Member::Other),
        Some(serde_json::Value::Number(_)) => Some(Member::Other),
        Some(serde_json::Value::Array(_)) => Some(Member::Other),
        Some(serde_json::Value::Object(_)) => Some(Member::Other),
    }
}

} // verus!
