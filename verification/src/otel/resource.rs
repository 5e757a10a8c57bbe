//! Resources: the attributes that a process reports about itself.
use opentelemetry::KeyValue;
use opentelemetry_sdk::Resource;
use vstd::prelude::*;

verus! {

/// One attribute: a key and its text.
#[derive(Debug, PartialEq, Eq)]
pub struct ResourceAttr {
    pub key: String,
    pub value: String,
}

/// Attributes in the order in which they were added.
#[derive(Debug)]
pub struct OwnedResourceAttrs {
    attrs: Vec<ResourceAttr>,
}

/// The keys and texts of some attributes.
pub open spec fn attr_views(attrs: Seq<ResourceAttr>) -> Seq<(Seq<char>, Seq<char>)> {
    attrs.map_values(|attr: ResourceAttr| (attr.key@, attr.value@))
}

impl View for OwnedResourceAttrs {
    type V = Seq<(Seq<char>, Seq<char>)>;

    closed spec fn view(&self) -> Seq<(Seq<char>, Seq<char>)> {
        attr_views(self.attrs@)
    }
}

impl OwnedResourceAttrs {
    /// No attributes.
    pub fn new() -> (attrs: OwnedResourceAttrs)
        ensures
            attrs@ == Seq::<(Seq<char>, Seq<char>)>::empty(),
    {
        OwnedResourceAttrs { attrs: Vec::new() }
    }

    /// Adds an attribute.
    pub fn push_owned(&mut self, key: &str, value: &str)
        ensures
            final(self)@ == old(self)@.push((key@, value@)),
    {
        self.attrs.push(ResourceAttr { key: key.to_owned(), value: value.to_owned() });
    }

    /// The attributes, in order.
    pub fn as_slice(&self) -> (attrs: &[ResourceAttr])
        ensures
            attr_views(attrs@) == self@,
    {
        self.attrs.as_slice()
    }
}

/// `opentelemetry_sdk::Resource`, an immutable set of attributes.
#[verifier::external_type_specification]
#[verifier::external_body]
pub struct ExResource(opentelemetry_sdk::Resource);

/// The attributes that a resource holds, each value as text.
pub uninterp spec fn resource_attributes(resource: Resource) -> Map<Seq<char>, Seq<char>>;

/// What is left of attributes that are added one after the other: a later value of a key takes
/// the place of an earlier one.
pub open spec fn last_values(attrs: Seq<(Seq<char>, Seq<char>)>) -> Map<Seq<char>, Seq<char>>
    decreases attrs.len(),
{
    if attrs.len() == 0 {
        Map::empty()
    } else {
        last_values(attrs.drop_last()).insert(attrs.last().0, attrs.last().1)
    }
}

/// `opentelemetry_sdk::Resource::new` on `KeyValue`s with string values: it inserts them into a
/// map one after the other.
#[verifier::external_body]
fn new_resource(attrs: &[ResourceAttr]) -> (resource: Resource)
    ensures
        resource_attributes(resource) == last_values(attr_views(attrs@)),
{
    Resource::new(attrs.iter().map(|a| KeyValue::new(a.key.clone(), a.value.clone())))
}

/// The resource that reports some attributes.
pub fn resource_from_attrs(attrs: &[ResourceAttr]) -> (resource: Resource)
    ensures
        resource_attributes(resource) == last_values(attr_views(attrs@)),
{
    new_resource(attrs)
}

/// An attribute whose key does not come again is in the resource, with its value; and nothing is
/// in the resource but what was given.
pub proof fn law_every_attribute_is_reported(attrs: Seq<(Seq<char>, Seq<char>)>)
    ensures
        forall|i: int|
            #![trigger attrs[i]]
            0 <= i < attrs.len() && (forall|j: int| i < j < attrs.len() ==> attrs[j].0 != attrs[i].0)
                ==> last_values(attrs).dom().contains(attrs[i].0) && last_values(
                attrs,
            )[attrs[i].0] == attrs[i].1,
        forall|key: Seq<char>| #[trigger]
            last_values(attrs).dom().contains(key) ==> exists|i: int|
                0 <= i < attrs.len() && #[trigger] attrs[i].0 == key && last_values(attrs)[key]
                    == attrs[i].1,
    decreases attrs.len(),
{
    if attrs.len() > 0 {
        let before = attrs.drop_last();
        law_every_attribute_is_reported(before);
        assert forall|i: int|
            #![trigger attrs[i]]
            0 <= i < attrs.len() && (forall|j: int|
                i < j < attrs.len() ==> attrs[j].0 != attrs[i].0) implies last_values(
            attrs,
        ).dom().contains(attrs[i].0) && last_values(attrs)[attrs[i].0] == attrs[i].1 by {
            if i < before.len() {
                assert(before[i] == attrs[i]);
                assert(attrs[attrs.len() - 1].0 != attrs[i].0);
                assert forall|j: int| i < j < before.len() implies before[j].0 != before[i].0 by {
                    assert(attrs[j].0 != attrs[i].0);
                }
            }
        }
        assert forall|key: Seq<char>| #[trigger] last_values(attrs).dom().contains(key) implies exists|
            i: int,
        |
            0 <= i < attrs.len() && #[trigger] attrs[i].0 == key && last_values(attrs)[key]
                == attrs[i].1 by {
            if key == attrs.last().0 {
                assert(attrs[attrs.len() - 1].0 == key);
            } else {
                assert(last_values(before).dom().contains(key));
                let i = choose|i: int|
                    0 <= i < before.len() && #[trigger] before[i].0 == key && last_values(
                        before,
                    )[key] == before[i].1;
                assert(attrs[i].0 == key);
            }
        }
    }
}

} // verus!
