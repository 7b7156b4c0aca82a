//! Whether an element carries a key that can be read off the source text.
//!
//! Only a name written out counts. A spread may or may not bring a key with
//! it, and a computed name may or may not evaluate to one: since neither can
//! be known without running the program, neither is taken as proof of a key.

use crate::syntax::{JsxAttribute, ObjectExpression, ObjectMember};
use crate::text::{is_name, names};
use vstd::prelude::*;

verus! {

/// An attribute written as `key` or `key=..`.
pub open spec fn is_key_attribute(attribute: JsxAttribute) -> bool {
    match attribute {
        JsxAttribute::Named(named) => names(named.name, "key"@),
        JsxAttribute::Spread => false,
    }
}

/// Some attribute of the list is a key attribute.
pub open spec fn key_attribute_present(attributes: Seq<JsxAttribute>) -> bool {
    exists|i: int| 0 <= i < attributes.len() && is_key_attribute(#[trigger] attributes[i])
}

/// A property `key: ..`, or the shorthand property `key`. The name is the
/// one that the attribute form looks for.
pub open spec fn is_key_member(member: ObjectMember) -> bool {
    match member {
        ObjectMember::Property { name } => names(name, "key"@),
        ObjectMember::ShorthandProperty { name } => names(name, "key"@),
        _ => false,
    }
}

/// Some member of the list is a key member.
pub open spec fn key_member_present(members: Seq<ObjectMember>) -> bool {
    exists|i: int| 0 <= i < members.len() && is_key_member(#[trigger] members[i])
}

/// Whether an attribute list names a `key` attribute.
pub fn has_key_attribute(attributes: &Vec<JsxAttribute>) -> (found: bool)
    ensures
        found == key_attribute_present(attributes@),
{
    let mut i: usize = 0;
    while i < attributes.len()
        invariant
            i <= attributes.len(),
            forall|j: int| 0 <= j < i ==> !is_key_attribute(#[trigger] attributes@[j]),
        decreases attributes.len() - i,
    {
        let is_key = match &attributes[i] {
            JsxAttribute::Named(named) => is_name(&named.name, "key"),
            JsxAttribute::Spread => false,
        };
        if is_key {
            return true;
        }
        i += 1;
    }
    false
}

/// Whether an object literal names a `key` property.
pub fn has_key_prop(props: &ObjectExpression) -> (found: bool)
    ensures
        found == key_member_present(props.members@),
{
    let mut i: usize = 0;
    while i < props.members.len()
        invariant
            i <= props.members.len(),
            forall|j: int| 0 <= j < i ==> !is_key_member(#[trigger] props.members@[j]),
        decreases props.members.len() - i,
    {
        let is_key = match &props.members[i] {
            ObjectMember::Property { name } => is_name(name, "key"),
            ObjectMember::ShorthandProperty { name } => is_name(name, "key"),
            _ => false,
        };
        if is_key {
            return true;
        }
        i += 1;
    }
    false
}

} // verus!
