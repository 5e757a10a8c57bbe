//! How a handler or an initializer shows up in a pipeline.
use vstd::prelude::*;

verus! {

/// A name, a category and a summary for people.
#[derive(Debug, PartialEq, Eq)]
pub struct InitializerDescriptor {
    name: String,
    category: String,
    summary: String,
}

/// What a descriptor says, for the contracts.
#[verifier::ext_equal]
pub struct InitializerView {
    pub name: Seq<char>,
    pub category: Seq<char>,
    pub summary: Seq<char>,
}

impl View for InitializerDescriptor {
    type V = InitializerView;

    closed spec fn view(&self) -> InitializerView {
        InitializerView { name: self.name@, category: self.category@, summary: self.summary@ }
    }
}

impl InitializerDescriptor {
    /// A descriptor made of the given texts.
    pub fn new(name: String, category: String, summary: String) -> (d: InitializerDescriptor)
        ensures
            d@ == (InitializerView { name: name@, category: category@, summary: summary@ }),
    {
        InitializerDescriptor { name, category, summary }
    }

    /// The name.
    pub fn name(&self) -> (name: &str)
        ensures
            name@ == self@.name,
    {
        self.name.as_str()
    }

    /// The category.
    pub fn category(&self) -> (category: &str)
        ensures
            category@ == self@.category,
    {
        self.category.as_str()
    }

    /// The summary.
    pub fn summary(&self) -> (summary: &str)
        ensures
            summary@ == self@.summary,
    {
        self.summary.as_str()
    }
}

impl Clone for InitializerDescriptor {
    /// A copy says the same.
    fn clone(&self) -> (copy: InitializerDescriptor)
        ensures
            copy@ == self@,
    {
        InitializerDescriptor {
            name: self.name.clone(),
            category: self.category.clone(),
            summary: self.summary.clone(),
        }
    }
}

} // verus!
