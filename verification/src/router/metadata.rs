//! Typed attributes of routes and of routing requests.
use std::cmp::Ordering;

use vstd::prelude::*;
use vstd::std_specs::cmp::{PartialEqSpec, PartialOrdSpec};

use crate::text::{
    chars_of, compare_text, lemma_precedes_irreflexive, lemma_precedes_total,
    lemma_precedes_transitive, precedes, same_text, TextOrder,
};
use crate::text_map::{increasing, TextMap};

verus! {

/// The name of an attribute, such as `traffic.weight`.
#[derive(Debug, Eq, Ord, Hash)]
pub struct MetadataKey(String);

impl View for MetadataKey {
    type V = Seq<char>;

    closed spec fn view(&self) -> Seq<char> {
        self.0@
    }
}

impl MetadataKey {
    /// A key with the given name, which is taken as it is.
    pub fn new(key: String) -> (r: MetadataKey)
        ensures
            r@ == key@,
    {
        MetadataKey(key)
    }

    /// The name.
    pub fn as_str(&self) -> (name: &str)
        ensures
            name@ == self@,
    {
        self.0.as_str()
    }
}

impl PartialEq for MetadataKey {
    fn eq(&self, other: &MetadataKey) -> (same: bool) {
        same_text(self.0.as_str(), other.0.as_str())
    }
}

impl vstd::std_specs::cmp::PartialEqSpecImpl for MetadataKey {
    open spec fn obeys_eq_spec() -> bool {
        true
    }

    /// Keys are the same where their names are.
    open spec fn eq_spec(&self, other: &MetadataKey) -> bool {
        self@ == other@
    }
}

/// How one name stands to another.
pub open spec fn name_order(a: Seq<char>, b: Seq<char>) -> Ordering {
    if precedes(a, b) {
        Ordering::Less
    } else if precedes(b, a) {
        Ordering::Greater
    } else {
        Ordering::Equal
    }
}

impl PartialOrd for MetadataKey {
    fn partial_cmp(&self, other: &MetadataKey) -> (order: Option<Ordering>) {
        let (name, other_name) = (chars_of(self.0.as_str()), chars_of(other.0.as_str()));
        proof {
            lemma_precedes_total(self@, other@);
            lemma_precedes_irreflexive(self@);
        }
        match compare_text(&name, &other_name) {
            TextOrder::Before => Some(Ordering::Less),
            TextOrder::Same => Some(Ordering::Equal),
            TextOrder::After => Some(Ordering::Greater),
        }
    }
}

impl vstd::std_specs::cmp::PartialOrdSpecImpl for MetadataKey {
    open spec fn obeys_partial_cmp_spec() -> bool {
        true
    }

    /// Keys are ordered as their names are.
    open spec fn partial_cmp_spec(&self, other: &MetadataKey) -> Option<Ordering> {
        Some(name_order(self@, other@))
    }
}

/// Keys are equal and ordered exactly as their names: they are the same just where the names are,
/// neither comes before the other just then, and the order is total and transitive.
pub proof fn law_keys_are_ordered_as_their_names(a: MetadataKey, b: MetadataKey, c: MetadataKey)
    ensures
        a.eq_spec(&b) == (a@ == b@),
        a.partial_cmp_spec(&b) == Some(Ordering::Equal) <==> a@ == b@,
        a.partial_cmp_spec(&b) == Some(Ordering::Less) <==> precedes(a@, b@),
        a.partial_cmp_spec(&b) == Some(Ordering::Greater) <==> precedes(b@, a@),
        a.partial_cmp_spec(&b) == Some(Ordering::Less) && b.partial_cmp_spec(&c) == Some(
            Ordering::Less,
        ) ==> a.partial_cmp_spec(&c) == Some(Ordering::Less),
{
    lemma_precedes_total(a@, b@);
    lemma_precedes_irreflexive(a@);
    if precedes(a@, b@) && precedes(b@, a@) {
        lemma_precedes_transitive(a@, b@, a@);
    }
    if precedes(a@, b@) && precedes(b@, c@) {
        lemma_precedes_transitive(a@, b@, c@);
    }
}

/// The value of an attribute. A floating-point number is held as its bit pattern.
#[derive(Debug, PartialEq, Eq)]
pub enum MetadataValue {
    Boolean(bool),
    Integer(i64),
    Float(u64),
    Text(String),
    List(Vec<MetadataValue>),
}

/// What an attribute value says, for the contracts.
pub enum MetadataView {
    Boolean(bool),
    Integer(i64),
    Float(u64),
    Text(Seq<char>),
    List(Seq<MetadataView>),
}

/// What a list of attribute values says.
pub open spec fn views_of(values: Seq<MetadataValue>) -> Seq<MetadataView>
    decreases values,
{
    if values.len() == 0 {
        Seq::empty()
    } else {
        views_of(values.drop_last()).push(view_of(values.last()))
    }
}

/// What an attribute value says.
pub open spec fn view_of(value: MetadataValue) -> MetadataView
    decreases value,
{
    match value {
        MetadataValue::Boolean(b) => MetadataView::Boolean(b),
        MetadataValue::Integer(i) => MetadataView::Integer(i),
        MetadataValue::Float(bits) => MetadataView::Float(bits),
        MetadataValue::Text(text) => MetadataView::Text(text@),
        MetadataValue::List(items) => MetadataView::List(views_of(items@)),
    }
}

impl Clone for MetadataValue {
    /// A copy says the same.
    fn clone(&self) -> (copy: MetadataValue)
        ensures
            view_of(copy) == view_of(*self),
        decreases self,
    {
        match self {
            MetadataValue::Boolean(b) => MetadataValue::Boolean(*b),
            MetadataValue::Integer(i) => MetadataValue::Integer(*i),
            MetadataValue::Float(bits) => MetadataValue::Float(*bits),
            MetadataValue::Text(text) => MetadataValue::Text(text.clone()),
            MetadataValue::List(items) => {
                let mut copies: Vec<MetadataValue> = Vec::new();
                let mut i: usize = 0;
                while i < items.len()
                    invariant
                        i <= items.len(),
                        views_of(copies@) == views_of(items@.take(i as int)),
                        *self == MetadataValue::List(*items),
                    decreases items.len() - i,
                {
                    proof {
                        assert(decreases_to!(self => self->List_0));
                        assert(decreases_to!(items => items@));
                        assert(decreases_to!(items@ => items@[i as int]));
                    }
                    let copy = items[i].clone();
                    proof {
                        assert(copies@.push(copy).drop_last() == copies@);
                        assert(items@.take(i + 1).drop_last() == items@.take(i as int));
                    }
                    copies.push(copy);
                    i = i + 1;
                }
                proof {
                    assert(items@.take(i as int) == items@);
                }
                MetadataValue::List(copies)
            },
        }
    }
}

impl Clone for MetadataKey {
    /// A copy has the same name.
    fn clone(&self) -> (copy: MetadataKey)
        ensures
            copy@ == self@,
    {
        MetadataKey(self.0.clone())
    }
}

/// A set of attributes, walked in the order of their names.
#[derive(Debug)]
pub struct RouteMetadata {
    entries: TextMap<MetadataValue>,
}

impl View for RouteMetadata {
    type V = Map<Seq<char>, MetadataView>;

    closed spec fn view(&self) -> Map<Seq<char>, MetadataView> {
        self.entries@.map_values(|value: MetadataValue| view_of(value))
    }
}

impl RouteMetadata {
    /// The names in the order of a walk.
    pub closed spec fn names(&self) -> Seq<Seq<char>> {
        self.entries.keys()
    }

    /// No attributes.
    pub fn new() -> (metadata: RouteMetadata)
        ensures
            metadata@ == Map::<Seq<char>, MetadataView>::empty(),
            metadata.names() == Seq::<Seq<char>>::empty(),
    {
        let metadata = RouteMetadata { entries: TextMap::new() };
        proof {
            assert(metadata@ == Map::<Seq<char>, MetadataView>::empty());
        }
        metadata
    }

    /// Sets an attribute; one of the same name is replaced.
    pub fn insert(&mut self, key: MetadataKey, value: MetadataValue)
        ensures
            final(self)@ == old(self)@.insert(key@, view_of(value)),
    {
        self.entries.insert(key.0, value);
        proof {
            assert(self@ == old(self)@.insert(key@, view_of(value)));
        }
    }

    /// The value of an attribute, where it is set.
    pub fn get(&self, key: &MetadataKey) -> (value: Option<&MetadataValue>)
        ensures
            value is Some <==> self@.dom().contains(key@),
            value is Some ==> view_of(*value->0) == self@[key@],
    {
        self.entries.get(key.as_str())
    }

    /// Whether no attribute is set.
    pub fn is_empty(&self) -> (empty: bool)
        ensures
            empty <==> self@ == Map::<Seq<char>, MetadataView>::empty(),
    {
        let len: usize = self.entries.len();
        proof {
            if len == 0 {
                assert(self@ == Map::<Seq<char>, MetadataView>::empty());
            } else {
                assert(self.names().contains(self.names()[0]));
                assert(self.entries@.dom().contains(self.names()[0]));
                assert(self@.dom().contains(self.names()[0]));
            }
        }
        len == 0
    }

    /// All attributes, each once, in increasing order of their names.
    pub fn iter(&self) -> (walk: Vec<(&str, &MetadataValue)>)
        ensures
            increasing(self.names()),
            forall|name: Seq<char>|
                #[trigger] self@.dom().contains(name) <==> self.names().contains(name),
            walk@.len() == self.names().len(),
            forall|i: int|
                0 <= i < walk@.len() ==> (#[trigger] walk@[i]).0@ == self.names()[i] && view_of(
                    *walk@[i].1,
                ) == self@[self.names()[i]],
    {
        let len: usize = self.entries.len();
        let mut walk: Vec<(&str, &MetadataValue)> = Vec::new();
        let mut i: usize = 0;
        while i < len
            invariant
                i <= len == self.names().len(),
                walk@.len() == i,
                forall|k: int|
                    0 <= k < i ==> (#[trigger] walk@[k]).0@ == self.names()[k] && view_of(
                        *walk@[k].1,
                    ) == self@[self.names()[k]],
            decreases len - i,
        {
            walk.push((self.entries.key_at(i), self.entries.value_at(i)));
            i = i + 1;
        }
        proof {
            assert forall|name: Seq<char>|
                #[trigger] self@.dom().contains(name) <==> self.names().contains(name) by {
                assert(self.entries@.dom().contains(name) <==> self.entries.keys().contains(name));
            }
        }
        walk
    }
}

impl Clone for RouteMetadata {
    /// A copy holds the same attributes.
    fn clone(&self) -> (copy: RouteMetadata)
        ensures
            copy@ == self@,
    {
        let walk = self.iter();
        let mut copy = RouteMetadata::new();
        let mut i: usize = 0;
        while i < walk.len()
            invariant
                i <= walk@.len() == self.names().len(),
                forall|k: int|
                    0 <= k < walk@.len() ==> (#[trigger] walk@[k]).0@ == self.names()[k]
                        && view_of(*walk@[k].1) == self@[self.names()[k]],
                forall|name: Seq<char>|
                    #[trigger] copy@.dom().contains(name) <==> self.names().take(
                        i as int,
                    ).contains(name),
                forall|name: Seq<char>| #[trigger]
                    copy@.dom().contains(name) ==> copy@[name] == self@[name],
            decreases walk.len() - i,
        {
            let ghost before = copy@;
            let (name, value) = walk[i];
            copy.insert(MetadataKey::new(name.to_owned()), value.clone());
            proof {
                let all = self.names();
                assert(all.take(i + 1) == all.take(i as int).push(all[i as int]));
                assert forall|n: Seq<char>| #[trigger]
                    copy@.dom().contains(n) <==> all.take(i + 1).contains(n) by {
                    let part = all.take(i as int);
                    let longer = all.take(i + 1);
                    if longer.contains(n) {
                        let k = choose|k: int| 0 <= k < longer.len() && longer[k] == n;
                        if k < i {
                            assert(part[k] == n);
                            assert(part.contains(n));
                            assert(before.dom().contains(n));
                        }
                    }
                    if before.dom().contains(n) {
                        let k = choose|k: int| 0 <= k < part.len() && part[k] == n;
                        assert(all.take(i + 1)[k] == n);
                    }
                    assert(all.take(i + 1)[i as int] == all[i as int]);
                }
            }
            i = i + 1;
        }
        proof {
            assert(self.names().take(i as int) == self.names());
            assert(copy@ =~= self@);
        }
        copy
    }
}

impl Default for RouteMetadata {
    fn default() -> (metadata: RouteMetadata)
        ensures
            metadata@ == Map::<Seq<char>, MetadataView>::empty(),
    {
        RouteMetadata::new()
    }
}

/// An attribute that was set is read back, and setting it leaves all others alone.
pub proof fn law_attribute_is_read_back(
    attributes: Map<Seq<char>, MetadataView>,
    name: Seq<char>,
    value: MetadataView,
    other: Seq<char>,
)
    requires
        other != name,
    ensures
        attributes.insert(name, value).dom().contains(name),
        attributes.insert(name, value)[name] == value,
        attributes.insert(name, value).dom().contains(other) == attributes.dom().contains(other),
        attributes.dom().contains(other) ==> attributes.insert(name, value)[other]
            == attributes[other],
{
}

} // verus!
