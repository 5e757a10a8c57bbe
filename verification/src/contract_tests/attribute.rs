//! Which suites an attribute on a test module asks for, and what is generated for each.
use vstd::prelude::*;

use crate::contract_tests::attribute_depth::{is_shallow, shallow};
use crate::contract_tests::attribute_parser::parse_meta;
use crate::contract_tests::comments::{blank, is_blank};
use crate::text::{chars_of, same_text, texts};

verus! {

/// One element of a list in an attribute, as far as it matters here.
#[derive(Debug, PartialEq, Eq)]
pub enum MetaItem {
    /// A single identifier.
    Ident(String),
    /// A path of several segments.
    Path,
    /// Anything else, such as a value or another list.
    Other,
}

/// The argument of the attribute, as far as it matters here.
#[derive(Debug, PartialEq, Eq)]
pub enum SuiteAttribute {
    /// No argument.
    Empty,
    /// `suites`, and nothing else.
    BareSuites,
    /// `suites(...)`, with its elements.
    Suites(Vec<MetaItem>),
    /// Anything else.
    Other,
}

/// One element of a list in an attribute, for the contracts.
pub enum ItemForm {
    Ident(Seq<char>),
    Path,
    Other,
}

impl View for MetaItem {
    type V = ItemForm;

    open spec fn view(&self) -> ItemForm {
        match self {
            MetaItem::Ident(name) => ItemForm::Ident(name@),
            MetaItem::Path => ItemForm::Path,
            MetaItem::Other => ItemForm::Other,
        }
    }
}

/// The argument of the attribute, for the contracts.
#[verifier::ext_equal]
pub enum AttributeForm {
    Empty,
    BareSuites,
    Suites(Seq<ItemForm>),
    Other,
}

/// The elements of a list, for the contracts.
pub open spec fn item_forms(items: Seq<MetaItem>) -> Seq<ItemForm> {
    items.map_values(|item: MetaItem| item@)
}

impl View for SuiteAttribute {
    type V = AttributeForm;

    open spec fn view(&self) -> AttributeForm {
        match self {
            SuiteAttribute::Empty => AttributeForm::Empty,
            SuiteAttribute::BareSuites => AttributeForm::BareSuites,
            SuiteAttribute::Suites(items) => AttributeForm::Suites(item_forms(items@)),
            SuiteAttribute::Other => AttributeForm::Other,
        }
    }
}

/// Why an attribute is refused, and on account of which element where there is one.
#[derive(Clone, Copy, Debug, PartialEq, Eq)]
pub struct AttributeError {
    pub element: Option<usize>,
    pub message: &'static str,
}

/// The suites that run where none were named.
pub open spec fn default_suites() -> Seq<Seq<char>> {
    seq![
        "backpressure"@,
        "cancellation"@,
        "errors"@,
        "state_machine"@,
        "hot_swap"@,
        "hot_reload"@,
        "observability"@,
    ]
}

/// The suites that run where none were named.
pub fn default_suite_idents() -> (names: Vec<String>)
    ensures
        texts(names@) == default_suites(),
{
    let mut names: Vec<String> = Vec::new();
    names.push("backpressure".to_owned());
    names.push("cancellation".to_owned());
    names.push("errors".to_owned());
    names.push("state_machine".to_owned());
    names.push("hot_swap".to_owned());
    names.push("hot_reload".to_owned());
    names.push("observability".to_owned());
    proof {
        assert(texts(names@) =~= default_suites());
    }
    names
}

/// What is said of an element that does not name a suite; nothing of one that does.
pub open spec fn element_objection(item: ItemForm) -> Option<&'static str> {
    match item {
        ItemForm::Ident(_) => None,
        ItemForm::Path => Some("suite 需为标识符"),
        ItemForm::Other => Some("suites(...) 仅接受标识符"),
    }
}

/// Whether `index` is the first element that does not name a suite.
pub open spec fn is_first_objection(items: Seq<ItemForm>, index: int) -> bool {
    &&& 0 <= index < items.len()
    &&& element_objection(items[index]) is Some
    &&& forall|k: int| 0 <= k < index ==> element_objection(#[trigger] items[k]) is None
}

/// Whether every element names a suite.
pub open spec fn all_named(items: Seq<ItemForm>) -> bool {
    forall|k: int| 0 <= k < items.len() ==> (#[trigger] items[k]) is Ident
}

/// The suites that a list names.
pub open spec fn named_suites(items: Seq<ItemForm>) -> Seq<Seq<char>> {
    items.map_values(|item: ItemForm| item->Ident_0)
}

/// Whether an outcome is what an attribute comes to: the suites that it names, in its order, or
/// the default ones where it names none. The first element that names no suite is what an
/// attribute is refused for.
pub open spec fn settles(
    attribute: AttributeForm,
    r: Result<Vec<String>, AttributeError>,
) -> bool {
    match attribute {
        AttributeForm::Empty | AttributeForm::BareSuites => r is Ok && texts(r->Ok_0@)
            == default_suites(),
        AttributeForm::Suites(items) => {
            &&& r is Ok <==> all_named(items)
            &&& r is Ok && items.len() == 0 ==> texts(r->Ok_0@) == default_suites()
            &&& r is Ok && items.len() > 0 ==> texts(r->Ok_0@) == named_suites(items)
            &&& r is Err ==> r->Err_0.element is Some && is_first_objection(
                items,
                r->Err_0.element->0 as int,
            ) && Some(r->Err_0.message) == element_objection(items[r->Err_0.element->0 as int])
        },
        AttributeForm::Other => r is Err && r->Err_0 == (AttributeError {
            element: None,
            message: "spark_tck 属性仅支持 suites(...)",
        }),
    }
}

/// Which suites an attribute comes to.
pub fn settle_suites(attribute: &SuiteAttribute) -> (r: Result<Vec<String>, AttributeError>)
    ensures
        settles(attribute@, r),
{
    match attribute {
        SuiteAttribute::Empty => Ok(default_suite_idents()),
        SuiteAttribute::BareSuites => Ok(default_suite_idents()),
        SuiteAttribute::Suites(items) => {
            let mut suites: Vec<String> = Vec::new();
            let mut i: usize = 0;
            while i < items.len()
                invariant
                    i <= items@.len(),
                    *attribute == SuiteAttribute::Suites(*items),
                    suites@.len() == i,
                    forall|k: int| 0 <= k < i ==> (#[trigger] item_forms(items@)[k]) is Ident,
                    forall|k: int|
                        0 <= k < i ==> (#[trigger] suites@[k])@ == item_forms(items@)[k]->Ident_0,
                decreases items.len() - i,
            {
                proof {
                    assert(item_forms(items@)[i as int] == items@[i as int]@);
                }
                match &items[i] {
                    MetaItem::Ident(name) => {
                        suites.push(name.clone());
                    },
                    MetaItem::Path => {
                        return Err(
                            AttributeError { element: Some(i), message: "suite 需为标识符" },
                        );
                    },
                    MetaItem::Other => {
                        return Err(
                            AttributeError {
                                element: Some(i),
                                message: "suites(...) 仅接受标识符",
                            },
                        );
                    },
                }
                i = i + 1;
            }
            if suites.len() == 0 {
                Ok(default_suite_idents())
            } else {
                proof {
                    assert(texts(suites@) =~= named_suites(item_forms(items@)));
                }
                Ok(suites)
            }
        },
        SuiteAttribute::Other => Err(
            AttributeError { element: None, message: "spark_tck 属性仅支持 suites(...)" },
        ),
    }
}

/// One element of a list, as the parser tells it: a path, with its identifier where it is one, a
/// list or a value.
#[derive(Debug, PartialEq, Eq)]
pub enum ElementForm {
    Path(Option<String>),
    List,
    NameValue,
}

/// An identifier, where there is one.
pub open spec fn ident_view(ident: Option<String>) -> Option<Seq<char>> {
    match ident {
        Some(ident) => Some(ident@),
        None => None,
    }
}

/// An attribute, as the parser tells it: a path, with its identifier where it is one; a list
/// behind a path, with its elements or what is said against them; or a path with a value.
#[derive(Debug, PartialEq, Eq)]
pub enum MetaForm {
    Path(Option<String>),
    List { ident: Option<String>, elements: Result<Vec<ElementForm>, String> },
    NameValue,
}

/// What an element of a list is to the attribute.
pub open spec fn item_of(element: ElementForm) -> ItemForm {
    match element {
        ElementForm::Path(ident) => match ident {
            Some(name) => ItemForm::Ident(name@),
            None => ItemForm::Path,
        },
        _ => ItemForm::Other,
    }
}

/// The elements of a list, given what the parser made of them.
pub fn list_items(elements: &Vec<ElementForm>) -> (items: Vec<MetaItem>)
    ensures
        item_forms(items@) == elements@.map_values(|e: ElementForm| item_of(e)),
{
    let mut items: Vec<MetaItem> = Vec::new();
    let mut i: usize = 0;
    while i < elements.len()
        invariant
            i <= elements@.len(),
            items@.len() == i,
            forall|k: int| 0 <= k < i ==> (#[trigger] items@[k])@ == item_of(elements@[k]),
        decreases elements.len() - i,
    {
        let item = match &elements[i] {
            ElementForm::Path(Some(name)) => MetaItem::Ident(name.clone()),
            ElementForm::Path(None) => MetaItem::Path,
            _ => MetaItem::Other,
        };
        items.push(item);
        i = i + 1;
    }
    proof {
        assert(item_forms(items@) =~= elements@.map_values(|e: ElementForm| item_of(e)));
    }
    items
}

/// The argument of the attribute, given what the parser made of it; or what the parser said
/// against the elements.
pub open spec fn attribute_of(meta: MetaForm) -> Result<AttributeForm, Seq<char>> {
    match meta {
        MetaForm::List { ident, elements } => if ident_view(ident) == Some("suites"@) {
            match elements {
                Ok(elements) => Ok(
                    AttributeForm::Suites(elements@.map_values(|e: ElementForm| item_of(e))),
                ),
                Err(fault) => Err(fault@),
            }
        } else {
            Ok(AttributeForm::Other)
        },
        MetaForm::Path(ident) => if ident_view(ident) == Some("suites"@) {
            Ok(AttributeForm::BareSuites)
        } else {
            Ok(AttributeForm::Other)
        },
        MetaForm::NameValue => Ok(AttributeForm::Other),
    }
}

/// Why the argument of an attribute comes to no suites: it is not written as one should be, or
/// it is refused.
#[derive(Debug, PartialEq, Eq)]
pub enum SuiteError {
    Syntax(String),
    Refused(AttributeError),
}

/// Whether an outcome is what the parser's answer comes to: what it said against the text or
/// against the elements, or what the attribute settles.
pub open spec fn comes_to(
    parsed: Result<MetaForm, String>,
    r: Result<Vec<String>, SuiteError>,
) -> bool {
    let read = match parsed {
        Ok(meta) => attribute_of(meta),
        Err(fault) => Err(fault@),
    };
    match read {
        Err(fault) => r is Err && r->Err_0 is Syntax && r->Err_0->Syntax_0@ == fault,
        Ok(form) => match r {
            Ok(suites) => settles(form, Ok(suites)),
            Err(SuiteError::Refused(error)) => settles(form, Err(error)),
            Err(SuiteError::Syntax(_)) => false,
        },
    }
}

fn is_suites(ident: &Option<String>) -> (answer: bool)
    ensures
        answer == (ident_view(*ident) == Some("suites"@)),
{
    match ident {
        Some(name) => same_text(name.as_str(), "suites"),
        None => false,
    }
}

/// Which suites the parser's answer comes to.
pub fn suites_of(parsed: Result<MetaForm, String>) -> (r: Result<Vec<String>, SuiteError>)
    ensures
        comes_to(parsed, r),
{
    let meta = match parsed {
        Ok(meta) => meta,
        Err(fault) => {
            return Err(SuiteError::Syntax(fault));
        },
    };
    let attribute = match meta {
        MetaForm::List { ident, elements } => if is_suites(&ident) {
            match elements {
                Ok(elements) => SuiteAttribute::Suites(list_items(&elements)),
                Err(fault) => {
                    return Err(SuiteError::Syntax(fault));
                },
            }
        } else {
            SuiteAttribute::Other
        },
        MetaForm::Path(ident) => if is_suites(&ident) {
            SuiteAttribute::BareSuites
        } else {
            SuiteAttribute::Other
        },
        MetaForm::NameValue => SuiteAttribute::Other,
    };
    match settle_suites(&attribute) {
        Ok(suites) => Ok(suites),
        Err(error) => Err(SuiteError::Refused(error)),
    }
}

/// Which suites the argument of an attribute comes to, as it is written. One that holds nothing
/// but white space and comments is none; anything else is what the parser's answer to this very
/// text comes to.
pub fn parse_suites(text: &str) -> (r: Result<Vec<String>, SuiteError>)
    requires
        shallow(text@),
    ensures
        blank(text@) ==> r is Ok && texts(r->Ok_0@) == default_suites(),
        !blank(text@) ==> exists|parsed: Result<MetaForm, String>|
            call_ensures(parse_meta, (text,), parsed) && #[trigger] comes_to(parsed, r),
{
    if is_blank(text) {
        return Ok(default_suite_idents());
    }
    let parsed = parse_meta(text);
    let ghost answer = parsed;
    let r = suites_of(parsed);
    proof {
        assert(comes_to(answer, r));
    }
    r
}

/// Which suites the argument of an attribute comes to, as it is written; nothing where it is too
/// deep to be parsed. One that is too deep names no suites.
pub fn read_suites(text: &str) -> (r: Option<Result<Vec<String>, SuiteError>>)
    ensures
        r is Some <==> shallow(text@),
        shallow(text@) && blank(text@) ==> r->0 is Ok && texts(r->0->Ok_0@) == default_suites(),
        shallow(text@) && !blank(text@) ==> exists|parsed: Result<MetaForm, String>|
            call_ensures(parse_meta, (text,), parsed) && #[trigger] comes_to(parsed, r->0),
{
    if is_shallow(text) {
        Some(parse_suites(text))
    } else {
        None
    }
}

/// A test that is generated: its name, and the path of the function that it calls.
#[derive(Debug, PartialEq, Eq)]
pub struct GeneratedTest {
    pub test_name: String,
    pub run_path: String,
}

/// The path of the function that runs a suite.
pub open spec fn run_path(suite: Seq<char>) -> Seq<char> {
    "spark_contract_tests::run_"@ + suite + "_suite"@
}

/// Whether a generated test runs the given suite.
pub open spec fn runs_suite(test: GeneratedTest, suite: Seq<char>) -> bool {
    &&& test.test_name@ == suite + "_suite"@
    &&& test.run_path@ == run_path(suite)
}

/// Whether an identifier is a raw one: nothing can be written before it, so it is no part of a
/// path's segment.
pub open spec fn raw(ident: Seq<char>) -> bool {
    ident.len() >= 2 && ident[0] == 'r' && ident[1] == '#'
}

fn is_raw(ident: &str) -> (answer: bool)
    ensures
        answer == raw(ident@),
{
    let chars = chars_of(ident);
    chars.len() >= 2 && chars[0] == 'r' && chars[1] == '#'
}

/// One test for each suite, in order; or the first path that cannot be written, which is that of
/// a suite with a raw identifier.
pub fn generate_tests(suites: &Vec<String>) -> (r: Result<Vec<GeneratedTest>, String>)
    ensures
        match r {
            Ok(tests) => {
                &&& tests@.len() == suites@.len()
                &&& forall|i: int|
                    0 <= i < suites@.len() ==> !raw((#[trigger] suites@[i])@) && runs_suite(
                        tests@[i],
                        suites@[i]@,
                    )
            },
            Err(path) => exists|i: int|
                {
                    &&& 0 <= i < suites@.len()
                    &&& raw((#[trigger] suites@[i])@)
                    &&& path@ == run_path(suites@[i]@)
                    &&& forall|k: int| 0 <= k < i ==> !raw((#[trigger] suites@[k])@)
                },
        },
{
    let mut tests: Vec<GeneratedTest> = Vec::new();
    let mut i: usize = 0;
    while i < suites.len()
        invariant
            i <= suites@.len(),
            tests@.len() == i,
            forall|k: int|
                0 <= k < i ==> !raw((#[trigger] suites@[k])@) && runs_suite(
                    tests@[k],
                    suites@[k]@,
                ),
        decreases suites.len() - i,
    {
        let mut run_path = "spark_contract_tests::run_".to_owned();
        run_path.append(suites[i].as_str());
        run_path.append("_suite");
        if is_raw(suites[i].as_str()) {
            return Err(run_path);
        }
        let mut test_name = suites[i].clone();
        test_name.append("_suite");
        tests.push(GeneratedTest { test_name, run_path });
        i = i + 1;
    }
    Ok(tests)
}

/// A module as it is written: its attributes, its visibility, its name, and its items where it
/// has a body.
#[derive(Debug, PartialEq, Eq)]
pub struct TestModule<A, V, N, I> {
    pub attributes: A,
    pub visibility: V,
    pub name: N,
    pub items: Option<Vec<I>>,
}

/// An item of a module that tests were put into.
#[derive(Debug, PartialEq, Eq)]
pub enum ModuleItem<I> {
    Kept(I),
    Test(GeneratedTest),
}

/// A module that tests were put into.
#[derive(Debug, PartialEq, Eq)]
pub struct InjectedModule<A, V, N, I> {
    pub attributes: A,
    pub visibility: V,
    pub name: N,
    pub items: Vec<ModuleItem<I>>,
}

/// The items of a module; none where it has no body.
pub open spec fn written_items<I>(items: Option<Vec<I>>) -> Seq<I> {
    match items {
        Some(items) => items@,
        None => Seq::empty(),
    }
}

/// Whether a module is another with a test for each suite put behind its items: everything that
/// was written stays as it was and where it was.
pub open spec fn is_injected<A, V, N, I>(
    suites: Seq<String>,
    module: TestModule<A, V, N, I>,
    injected: InjectedModule<A, V, N, I>,
) -> bool {
    let kept = written_items(module.items);
    &&& injected.attributes == module.attributes
    &&& injected.visibility == module.visibility
    &&& injected.name == module.name
    &&& injected.items@.len() == kept.len() + suites.len()
    &&& forall|i: int|
        0 <= i < kept.len() ==> #[trigger] injected.items@[i] == ModuleItem::Kept(kept[i])
    &&& forall|i: int|
        #![trigger suites[i]]
        0 <= i < suites.len() ==> {
            &&& injected.items@[kept.len() + i] is Test
            &&& runs_suite(injected.items@[kept.len() + i]->Test_0, suites[i]@)
        }
}

fn kept_items<I>(items: Option<Vec<I>>) -> (kept: Vec<ModuleItem<I>>)
    ensures
        kept@.len() == written_items(items).len(),
        forall|i: int|
            0 <= i < kept@.len() ==> #[trigger] kept@[i] == ModuleItem::Kept(
                written_items(items)[i],
            ),
{
    let mut kept: Vec<ModuleItem<I>> = Vec::new();
    if let Some(written) = items {
        for item in it: written
            invariant
                it.seq() == written_items(items),
                kept@.len() == it.index(),
                forall|k: int|
                    0 <= k < kept@.len() ==> #[trigger] kept@[k] == ModuleItem::Kept(it.seq()[k]),
        {
            kept.push(ModuleItem::Kept(item));
        }
    }
    kept
}

/// Puts a test for each suite behind the items of a module. A module without a body gets one
/// that holds the tests alone.
pub fn inject_tests<A, V, N, I>(
    suites: &Vec<String>,
    module: TestModule<A, V, N, I>,
) -> (r: Result<InjectedModule<A, V, N, I>, String>)
    ensures
        match r {
            Ok(injected) => {
                &&& forall|i: int| 0 <= i < suites@.len() ==> !raw((#[trigger] suites@[i])@)
                &&& is_injected(suites@, module, injected)
            },
            Err(path) => exists|i: int|
                {
                    &&& 0 <= i < suites@.len()
                    &&& raw((#[trigger] suites@[i])@)
                    &&& path@ == run_path(suites@[i]@)
                    &&& forall|k: int| 0 <= k < i ==> !raw((#[trigger] suites@[k])@)
                },
        },
{
    let tests = match generate_tests(suites) {
        Ok(tests) => tests,
        Err(path) => {
            return Err(path);
        },
    };
    let ghost kept = written_items(module.items);
    let mut items = kept_items(module.items);
    for test in it: tests
        invariant
            it.seq() == tests@,
            items@.len() == kept.len() + it.index(),
            forall|k: int|
                0 <= k < kept.len() ==> #[trigger] items@[k] == ModuleItem::Kept(kept[k]),
            forall|k: int|
                kept.len() <= k < items@.len() ==> #[trigger] items@[k] == ModuleItem::<I>::Test(
                    it.seq()[k - kept.len()],
                ),
    {
        items.push(ModuleItem::Test(test));
    }
    Ok(
        InjectedModule {
            attributes: module.attributes,
            visibility: module.visibility,
            name: module.name,
            items,
        },
    )
}

} // verus!
