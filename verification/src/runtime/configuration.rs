//! Configuration as the runtime reads it: the entries of the runtime's own name space, and the
//! changes that arrive for them.
use std::collections::VecDeque;

use vstd::prelude::*;

use crate::task::Poll;
use crate::text_map::TextMap;

verus! {

/// The value of a configuration entry.
#[derive(Debug, PartialEq, Eq)]
pub enum ConfigValue {
    Boolean(bool),
    Integer(i64),
    Text(String),
}

/// What a configuration value says, for the contracts.
pub enum ConfigView {
    Boolean(bool),
    Integer(i64),
    Text(Seq<char>),
}

impl View for ConfigValue {
    type V = ConfigView;

    open spec fn view(&self) -> ConfigView {
        match self {
            ConfigValue::Boolean(b) => ConfigView::Boolean(*b),
            ConfigValue::Integer(i) => ConfigView::Integer(*i),
            ConfigValue::Text(text) => ConfigView::Text(text@),
        }
    }
}

impl Clone for ConfigValue {
    /// A copy says the same.
    fn clone(&self) -> (copy: ConfigValue)
        ensures
            copy@ == self@,
    {
        match self {
            ConfigValue::Boolean(b) => ConfigValue::Boolean(*b),
            ConfigValue::Integer(i) => ConfigValue::Integer(*i),
            ConfigValue::Text(text) => ConfigValue::Text(text.clone()),
        }
    }
}

/// The merged entries of the runtime's name space, by name.
#[derive(Debug)]
pub struct ResolvedConfiguration {
    entries: TextMap<ConfigValue>,
}

impl View for ResolvedConfiguration {
    type V = Map<Seq<char>, ConfigView>;

    closed spec fn view(&self) -> Map<Seq<char>, ConfigView> {
        self.entries@.map_values(|value: ConfigValue| value@)
    }
}

/// An entry that was set to a new value.
#[derive(Debug, PartialEq, Eq)]
pub struct ConfigChange {
    pub name: String,
    pub value: ConfigValue,
}

/// The entries after some changes were made, one after the other.
pub open spec fn changed(
    entries: Map<Seq<char>, ConfigView>,
    changes: Seq<ConfigChange>,
) -> Map<Seq<char>, ConfigView>
    decreases changes.len(),
{
    if changes.len() == 0 {
        entries
    } else {
        changed(entries, changes.drop_last()).insert(
            changes.last().name@,
            changes.last().value@,
        )
    }
}

impl ResolvedConfiguration {
    /// No entries.
    pub fn new() -> (config: ResolvedConfiguration)
        ensures
            config@ == Map::<Seq<char>, ConfigView>::empty(),
    {
        let config = ResolvedConfiguration { entries: TextMap::new() };
        proof {
            assert(config@ =~= Map::<Seq<char>, ConfigView>::empty());
        }
        config
    }

    /// The value of an entry, where it is set.
    pub fn get(&self, name: &str) -> (value: Option<&ConfigValue>)
        ensures
            value is Some <==> self@.dom().contains(name@),
            value is Some ==> value->0@ == self@[name@],
    {
        self.entries.get(name)
    }

    /// Makes some changes, one after the other.
    pub fn apply(&mut self, changes: &Vec<ConfigChange>)
        ensures
            final(self)@ == changed(old(self)@, changes@),
    {
        let mut i: usize = 0;
        while i < changes.len()
            invariant
                i <= changes@.len(),
                self@ == changed(old(self)@, changes@.take(i as int)),
            decreases changes.len() - i,
        {
            let ghost before = self@;
            self.entries.insert(changes[i].name.clone(), changes[i].value.clone());
            proof {
                assert(changes@.take(i + 1).drop_last() == changes@.take(i as int));
                assert(self@ =~= before.insert(changes@[i as int].name@, changes@[i as int].value@));
            }
            i = i + 1;
        }
        proof {
            assert(changes@.take(i as int) == changes@);
        }
    }
}

/// A source of configuration that hands out prepared batches of changes, in order.
#[derive(Debug)]
pub struct ChangeQueue {
    batches: VecDeque<Vec<ConfigChange>>,
}

impl View for ChangeQueue {
    type V = Seq<Vec<ConfigChange>>;

    closed spec fn view(&self) -> Seq<Vec<ConfigChange>> {
        self.batches@
    }
}

impl ChangeQueue {
    /// No changes wait.
    pub fn new() -> (queue: ChangeQueue)
        ensures
            queue@ == Seq::<Vec<ConfigChange>>::empty(),
    {
        ChangeQueue { batches: VecDeque::new() }
    }

    /// Adds a batch of changes at the end.
    pub fn push(&mut self, batch: Vec<ConfigChange>)
        ensures
            final(self)@ == old(self)@.push(batch),
    {
        self.batches.push_back(batch);
    }

    /// The next batch of changes, where one waits.
    pub fn poll_next(&mut self) -> (polled: Poll<Vec<ConfigChange>>)
        ensures
            polled is Ready <==> old(self)@.len() > 0,
            polled is Ready ==> polled->Ready_0 == old(self)@[0] && final(self)@ == old(self)@.skip(1),
            polled is Pending ==> final(self)@ == old(self)@,
    {
        match self.batches.pop_front() {
            Some(batch) => {
                proof {
                    assert(self@ =~= old(self)@.skip(1));
                }
                Poll::Ready(batch)
            },
            None => Poll::Pending,
        }
    }
}

} // verus!
