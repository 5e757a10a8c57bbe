//! What an attribute on a test module comes to, and what is generated for it.
use vstd::prelude::*;

use crate::contract_tests::attribute::{
    default_suite_idents, generate_tests, inject_tests, item_forms, list_items, read_suites,
    settle_suites, suites_of, AttributeError, ElementForm, GeneratedTest, InjectedModule,
    MetaForm, MetaItem, ModuleItem, SuiteAttribute, SuiteError, TestModule,
};
use crate::contract_tests::attribute_depth::{depth_of, is_shallow, openers};
use crate::contract_tests::comments::{blank, is_blank};
use crate::scan::first_position;
use crate::text::texts;

verus! {

/// Whether some names are those of the suites that run where none were named.
pub open spec fn the_default_ones(names: Seq<String>) -> bool {
    &&& names.len() == 7
    &&& names[0]@ == "backpressure"@
    &&& names[1]@ == "cancellation"@
    &&& names[2]@ == "errors"@
    &&& names[3]@ == "state_machine"@
    &&& names[4]@ == "hot_swap"@
    &&& names[5]@ == "hot_reload"@
    &&& names[6]@ == "observability"@
}

proof fn lemma_default_ones(names: Seq<String>)
    requires
        texts(names) == crate::contract_tests::attribute::default_suites(),
    ensures
        the_default_ones(names),
{
    let all = texts(names);
    assert(all.len() == names.len());
    assert(all[0] == names[0]@ && all[1] == names[1]@ && all[2] == names[2]@ && all[3]
        == names[3]@ && all[4] == names[4]@ && all[5] == names[5]@ && all[6] == names[6]@);
}

/// Without a name the default suites run; with names exactly those run, in their order. The first
/// element that is no identifier is what an attribute is refused for, and anything but `suites` is
/// refused as a whole.
pub proof fn law_an_attribute_names_its_suites(
    attribute: &SuiteAttribute,
    r: Result<Vec<String>, AttributeError>,
    names: Vec<String>,
    k: int,
)
    requires
        call_ensures(settle_suites, (attribute,), r),
        call_ensures(default_suite_idents, (), names),
    ensures
        the_default_ones(names@),
        *attribute is Empty || *attribute is BareSuites ==> r is Ok && the_default_ones(
            r->Ok_0@,
        ),
        *attribute is Other ==> r is Err && r->Err_0.element is None && r->Err_0.message
            == "spark_tck 属性仅支持 suites(...)",
        *attribute is Suites ==> {
            let items = attribute->Suites_0@;
            &&& items.len() == 0 ==> r is Ok && the_default_ones(r->Ok_0@)
            &&& items.len() > 0 && (forall|i: int|
                0 <= i < items.len() ==> (#[trigger] items[i]) is Ident) ==> {
                &&& r is Ok
                &&& r->Ok_0@.len() == items.len()
                &&& forall|i: int|
                    0 <= i < items.len() ==> (#[trigger] r->Ok_0@[i])@ == items[i]->Ident_0@
            }
            &&& 0 <= k < items.len() && !(items[k] is Ident) && (forall|i: int|
                0 <= i < k ==> (#[trigger] items[i]) is Ident) ==> {
                &&& r is Err
                &&& r->Err_0.element == Some(k as usize)
                &&& items[k] is Path ==> r->Err_0.message == "suite 需为标识符"
                &&& items[k] is Other ==> r->Err_0.message == "suites(...) 仅接受标识符"
            }
        },
{
    lemma_default_ones(names@);
    if *attribute is Empty || *attribute is BareSuites {
        lemma_default_ones(r->Ok_0@);
    }
    if *attribute is Suites {
        let items = attribute->Suites_0@;
        let forms = item_forms(items);
        assert(forms.len() == items.len());
        assert forall|i: int| 0 <= i < items.len() implies forms[i] == (#[trigger] items[i])@ by {}
        if items.len() == 0 {
            lemma_default_ones(r->Ok_0@);
        } else if forall|i: int| 0 <= i < items.len() ==> (#[trigger] items[i]) is Ident {
            assert forall|i: int| 0 <= i < forms.len() implies (#[trigger] forms[i]) is Ident by {
                assert(items[i] is Ident);
            }
            let named = texts(r->Ok_0@);
            assert(named.len() == r->Ok_0@.len());
            assert forall|i: int| 0 <= i < items.len() implies (#[trigger] r->Ok_0@[i])@
                == items[i]->Ident_0@ by {
                assert(named[i] == r->Ok_0@[i]@);
                assert(forms[i] == items[i]@);
                assert(items[i] is Ident);
            }
        }
        if 0 <= k < items.len() && !(items[k] is Ident) && (forall|i: int|
            0 <= i < k ==> (#[trigger] items[i]) is Ident) {
            assert(!(forms[k] is Ident));
            assert(forms[k] == items[k]@);
            let e = r->Err_0.element->0 as int;
            if e < k {
                assert(items[e] is Ident);
                assert(forms[e] == items[e]@);
            }
            if e > k {
                assert(crate::contract_tests::attribute::element_objection(forms[k]) is None);
            }
        }
    }
}

/// What the parser says against a text, or against the elements of a list of suites, is passed on.
/// A bare `suites` stands for the default ones; a list of identifiers behind it names its suites;
/// any other path, any other list and any value is refused.
pub proof fn law_only_suites_are_understood(
    parsed: Result<MetaForm, String>,
    r: Result<Vec<String>, SuiteError>,
)
    requires
        call_ensures(suites_of, (parsed,), r),
    ensures
        parsed is Err ==> r is Err && r->Err_0 is Syntax && r->Err_0->Syntax_0@ == parsed->Err_0@,
        parsed is Ok ==> match parsed->Ok_0 {
            MetaForm::NameValue => refused_as_a_whole(r),
            MetaForm::Path(ident) => if ident is Some && ident->0@ == "suites"@ {
                r is Ok && the_default_ones(r->Ok_0@)
            } else {
                refused_as_a_whole(r)
            },
            MetaForm::List { ident, elements } => if ident is Some && ident->0@ == "suites"@ {
                &&& elements is Err ==> r is Err && r->Err_0 is Syntax && r->Err_0->Syntax_0@
                    == elements->Err_0@
                &&& elements is Ok && elements->Ok_0@.len() == 0 ==> r is Ok && the_default_ones(
                    r->Ok_0@,
                )
                &&& elements is Ok && elements->Ok_0@.len() > 0 && (forall|i: int|
                    0 <= i < elements->Ok_0@.len() ==> (#[trigger] elements->Ok_0@[i]) is Path
                        && elements->Ok_0@[i]->Path_0 is Some) ==> {
                    &&& r is Ok
                    &&& r->Ok_0@.len() == elements->Ok_0@.len()
                    &&& forall|i: int|
                        0 <= i < r->Ok_0@.len() ==> (#[trigger] r->Ok_0@[i])@
                            == elements->Ok_0@[i]->Path_0->0@
                }
            } else {
                refused_as_a_whole(r)
            },
        },
{
    if parsed is Ok && r is Ok {
        let named = texts(r->Ok_0@);
        assert(named.len() == r->Ok_0@.len());
        match parsed->Ok_0 {
            MetaForm::Path(_) => {
                lemma_default_ones(r->Ok_0@);
            },
            MetaForm::List { ident, elements } => {
                if elements is Ok {
                    let given = elements->Ok_0@;
                    let forms = given.map_values(
                        |e: ElementForm| crate::contract_tests::attribute::item_of(e),
                    );
                    if given.len() == 0 {
                        assert(forms.len() == 0);
                        lemma_default_ones(r->Ok_0@);
                    } else {
                        assert forall|i: int| 0 <= i < r->Ok_0@.len() && given[i] is Path
                            && given[i]->Path_0 is Some implies (#[trigger] r->Ok_0@[i])@
                            == given[i]->Path_0->0@ by {
                            assert(named[i] == r->Ok_0@[i]@);
                            assert(forms[i] == crate::contract_tests::attribute::item_of(given[i]));
                        }
                    }
                }
            },
            MetaForm::NameValue => {},
        }
    }
    if parsed is Ok && r is Err {
        match parsed->Ok_0 {
            MetaForm::List { ident, elements } => {
                if elements is Ok {
                    let given = elements->Ok_0@;
                    let forms = given.map_values(
                        |e: ElementForm| crate::contract_tests::attribute::item_of(e),
                    );
                    assert(forms.len() == given.len());
                    if ident is Some && ident->0@ == "suites"@ {
                        let error = r->Err_0->Refused_0;
                        let e = error.element->0 as int;
                        assert(forms[e] == crate::contract_tests::attribute::item_of(given[e]));
                    }
                }
            },
            _ => {},
        }
    }
}

/// Whether an attribute is refused for what it is, and not for one element.
pub open spec fn refused_as_a_whole(r: Result<Vec<String>, SuiteError>) -> bool {
    &&& r is Err
    &&& r->Err_0 is Refused
    &&& r->Err_0->Refused_0.element is None
    &&& r->Err_0->Refused_0.message == "spark_tck 属性仅支持 suites(...)"
}

/// An argument of nothing but white space and comments stands for the default suites.
pub proof fn law_an_empty_argument_stands_for_the_default_ones(
    text: &str,
    empty: bool,
    r: Option<Result<Vec<String>, SuiteError>>,
)
    requires
        call_ensures(is_blank, (text,), empty),
        call_ensures(read_suites, (text,), r),
        empty,
        r is Some,
    ensures
        r->0 is Ok,
        the_default_ones(r->0->Ok_0@),
{
    lemma_default_ones(r->0->Ok_0@);
}

/// Whether an identifier is a raw one.
pub open spec fn begins_raw(ident: Seq<char>) -> bool {
    ident.len() >= 2 && ident.subrange(0, 2) == seq!['r', '#']
}

proof fn lemma_raw(ident: Seq<char>)
    ensures
        begins_raw(ident) == crate::contract_tests::attribute::raw(ident),
{
    if crate::contract_tests::attribute::raw(ident) {
        assert(ident.subrange(0, 2) =~= seq!['r', '#']);
    }
    if begins_raw(ident) {
        let front = ident.subrange(0, 2);
        assert(front[0] == 'r' && front[1] == '#');
        assert(front[0] == ident[0] && front[1] == ident[1]);
    }
}

/// Whether a test is the one of a suite.
pub open spec fn is_test_of(test: GeneratedTest, suite: Seq<char>) -> bool {
    &&& test.test_name@ == suite + "_suite"@
    &&& test.run_path@ == "spark_contract_tests::run_"@ + suite + "_suite"@
}

/// There is one test for each suite, in order, named after it and running it. The first suite with
/// a raw identifier is what generation fails for, with the path that cannot be written.
pub proof fn law_each_suite_has_its_test(
    suites: &Vec<String>,
    r: Result<Vec<GeneratedTest>, String>,
    k: int,
)
    requires
        call_ensures(generate_tests, (suites,), r),
    ensures
        (forall|i: int| 0 <= i < suites@.len() ==> !begins_raw((#[trigger] suites@[i])@)) ==> {
            &&& r is Ok
            &&& r->Ok_0@.len() == suites@.len()
            &&& forall|i: int|
                #![trigger suites@[i]]
                0 <= i < suites@.len() ==> is_test_of(r->Ok_0@[i], suites@[i]@)
        },
        0 <= k < suites@.len() && begins_raw(suites@[k]@) && (forall|i: int|
            0 <= i < k ==> !begins_raw((#[trigger] suites@[i])@)) ==> r is Err && r->Err_0@
            == "spark_contract_tests::run_"@ + suites@[k]@ + "_suite"@,
{
    assert forall|i: int| 0 <= i < suites@.len() implies begins_raw((#[trigger] suites@[i])@)
        == crate::contract_tests::attribute::raw(suites@[i]@) by {
        lemma_raw(suites@[i]@);
    }
    if 0 <= k < suites@.len() && begins_raw(suites@[k]@) && (forall|i: int|
        0 <= i < k ==> !begins_raw((#[trigger] suites@[i])@)) {
        assert(crate::contract_tests::attribute::raw(suites@[k]@));
        if r is Err {
            let n = choose|n: int|
                {
                    &&& 0 <= n < suites@.len()
                    &&& crate::contract_tests::attribute::raw((#[trigger] suites@[n])@)
                    &&& r->Err_0@ == crate::contract_tests::attribute::run_path(suites@[n]@)
                    &&& forall|i: int|
                        0 <= i < n ==> !crate::contract_tests::attribute::raw(
                            (#[trigger] suites@[i])@,
                        )
                };
            if n < k {
                assert(!begins_raw(suites@[n]@));
            }
            if n > k {
                assert(!crate::contract_tests::attribute::raw(suites@[k]@));
            }
        }
    }
}

/// Tests are put behind what a module holds: its attributes, visibility and name stay, its items
/// stay where they were, and one test for each suite follows, in order. A module without a body
/// gets the tests alone.
pub proof fn law_tests_are_put_behind_the_items<A, V, N, I>(
    suites: &Vec<String>,
    module: TestModule<A, V, N, I>,
    r: Result<InjectedModule<A, V, N, I>, String>,
    i: int,
)
    requires
        call_ensures(inject_tests::<A, V, N, I>, (suites, module), r),
        forall|i: int| 0 <= i < suites@.len() ==> !begins_raw((#[trigger] suites@[i])@),
    ensures
        r is Ok,
        r->Ok_0.attributes == module.attributes,
        r->Ok_0.visibility == module.visibility,
        r->Ok_0.name == module.name,
        module.items is Some ==> {
            let kept = module.items->0@;
            &&& r->Ok_0.items@.len() == kept.len() + suites@.len()
            &&& 0 <= i < kept.len() ==> r->Ok_0.items@[i] == ModuleItem::Kept(kept[i])
            &&& 0 <= i < suites@.len() ==> r->Ok_0.items@[kept.len() + i] is Test && is_test_of(
                r->Ok_0.items@[kept.len() + i]->Test_0,
                suites@[i]@,
            )
        },
        module.items is None ==> {
            &&& r->Ok_0.items@.len() == suites@.len()
            &&& 0 <= i < suites@.len() ==> r->Ok_0.items@[i] is Test && is_test_of(
                r->Ok_0.items@[i]->Test_0,
                suites@[i]@,
            )
        },
{
    assert forall|i: int| 0 <= i < suites@.len() implies
        !crate::contract_tests::attribute::raw((#[trigger] suites@[i])@) by {
        lemma_raw(suites@[i]@);
    }
    if 0 <= i < suites@.len() {
        let suite = suites@[i];
    }
}

/// Whether a character is white space to a lexer.
pub open spec fn white(c: char) -> bool {
    c == ' ' || c == '\t' || c == '\n' || c == '\r' || c == '\u{b}' || c == '\u{c}' || c == '\u{85}'
        || c == '\u{200e}' || c == '\u{200f}' || c == '\u{2028}' || c == '\u{2029}'
}

/// White space at the front changes nothing about whether a text is blank, and neither does a
/// comment to the end of the line or one between marks that documents nothing. A text that begins
/// with anything else than white space or a comment is not blank; an empty one is.
pub proof fn law_comments_are_passed_over(
    c: char,
    comment: Seq<char>,
    rest: &str,
    text: &str,
    rest_blank: bool,
    text_blank: bool,
)
    requires
        call_ensures(is_blank, (rest,), rest_blank),
        call_ensures(is_blank, (text,), text_blank),
    ensures
        text@.len() == 0 ==> text_blank,
        text@.len() > 0 && !white(text@[0]) && text@[0] != '/' ==> !text_blank,
        white(c) && text@ == seq![c] + rest@ ==> text_blank == rest_blank,
        !comment.contains('\n') && (comment.len() > 0 ==> comment[0] != '!' && comment[0] != '/')
            && text@ == seq!['/', '/'] + comment + (seq!['\n'] + rest@) ==> text_blank
            == rest_blank,
        !comment.contains('*') && !comment.contains('/') && (comment.len() > 0 ==> comment[0]
            != '!') && text@ == seq!['/', '*'] + comment + (seq!['*', '/'] + rest@) ==> text_blank
            == rest_blank,
{
    if white(c) && text@ == seq![c] + rest@ {
        assert(text@.skip(1) =~= rest@);
        assert(text@[0] == c);
    }
    if !comment.contains('\n') && (comment.len() > 0 ==> comment[0] != '!' && comment[0] != '/')
        && text@ == seq!['/', '/'] + comment + (seq!['\n'] + rest@) {
        let behind = text@.skip(2);
        assert(behind =~= comment.push('\n') + rest@);
        lemma_line_end(comment, rest@);
        assert(behind.skip(comment.len() as int) =~= seq!['\n'] + rest@);
        assert((seq!['\n'] + rest@).skip(1) =~= rest@);
        assert((seq!['\n'] + rest@)[0] == '\n');
        assert(text@[0] == '/' && text@[1] == '/');
        if comment.len() > 0 {
            assert(text@[2] == comment[0]);
        } else {
            assert(text@[2] == '\n');
        }
        assert(blank(seq!['\n'] + rest@) == blank(rest@));
    }
    if !comment.contains('*') && !comment.contains('/') && (comment.len() > 0 ==> comment[0] != '!')
        && text@ == seq!['/', '*'] + comment + (seq!['*', '/'] + rest@) {
        let behind = text@.skip(2);
        assert(behind =~= comment + (seq!['*', '/'] + rest@));
        lemma_block_end(comment, rest@);
        assert(text@[0] == '/' && text@[1] == '*');
        if comment.len() > 0 {
            assert(text@[2] == comment[0]);
            assert(comment.contains(comment[0]));
        } else {
            assert(text@[2] == '*' && text@[3] == '/');
        }
    }
}

proof fn lemma_line_end(comment: Seq<char>, rest: Seq<char>)
    requires
        !comment.contains('\n'),
    ensures
        first_position(comment.push('\n') + rest, '\n') == comment.len(),
{
    crate::otel::context::lemma_first_position(comment, '\n', rest);
}

proof fn lemma_block_end(comment: Seq<char>, rest: Seq<char>)
    requires
        !comment.contains('*'),
        !comment.contains('/'),
    ensures
        crate::contract_tests::comments::after_block(comment + (seq!['*', '/'] + rest), 1) == Some(
            rest,
        ),
    decreases comment.len(),
{
    let s = comment + (seq!['*', '/'] + rest);
    if comment.len() == 0 {
        assert(s[0] == '*' && s[1] == '/');
        assert(s.skip(2) =~= rest);
        assert(crate::contract_tests::comments::after_block(s.skip(2), 0) == Some(rest));
    } else {
        assert(comment.contains(comment[0]));
        assert(s[0] == comment[0]);
        let shorter = comment.skip(1);
        assert(s.skip(1) =~= shorter + (seq!['*', '/'] + rest));
        assert(!shorter.contains('*') && !shorter.contains('/')) by {
            if shorter.contains('*') {
                let k = choose|k: int| 0 <= k < shorter.len() && shorter[k] == '*';
                assert(comment[k + 1] == '*');
            }
            if shorter.contains('/') {
                let k = choose|k: int| 0 <= k < shorter.len() && shorter[k] == '/';
                assert(comment[k + 1] == '/');
            }
        }
        lemma_block_end(shorter, rest);
    }
}

/// Whether a character opens a bracket.
pub open spec fn a_bracket(c: char) -> bool {
    c == '(' || c == '[' || c == '{'
}

/// A text without a value is read exactly where it opens at most 256 brackets.
pub proof fn law_brackets_are_counted(text: &str, answer: bool)
    requires
        call_ensures(is_shallow, (text,), answer),
    ensures
        !text@.contains('=') ==> answer == (text@.filter(|c: char| a_bracket(c)).len() <= 256),
        text@.filter(|c: char| a_bracket(c)).len() > 256 ==> !answer,
{
    lemma_brackets(text@);
}

proof fn lemma_brackets(text: Seq<char>)
    ensures
        openers(text) == text.filter(|c: char| a_bracket(c)).len(),
    decreases text.len(),
{
    reveal(Seq::filter);
    if text.len() > 0 {
        lemma_brackets(text.drop_last());
    }
}

/// Whether a character is an operator that goes one deeper by itself.
pub open spec fn an_operator(c: char) -> bool {
    c == '=' || c == '-' || c == '!' || c == '&' || c == '*' || c == '+'
}

/// A text of nothing but operators, with a value, is read exactly where it has at most 32.
pub proof fn law_operators_are_counted(text: &str, answer: bool)
    requires
        call_ensures(is_shallow, (text,), answer),
        text@.contains('='),
        forall|i: int| 0 <= i < text@.len() ==> an_operator(#[trigger] text@[i]),
    ensures
        answer == (text@.len() <= 32),
{
    lemma_operators(text@);
}

proof fn lemma_operators(text: Seq<char>)
    requires
        forall|i: int| 0 <= i < text.len() ==> an_operator(#[trigger] text[i]),
    ensures
        openers(text) == 0,
        depth_of(text).kept == 0,
        depth_of(text).piece == text.len(),
        depth_of(text).most == text.len(),
        !depth_of(text).word,
    decreases text.len(),
{
    if text.len() > 0 {
        let before = text.drop_last();
        assert forall|i: int| 0 <= i < before.len() implies an_operator(#[trigger] before[i]) by {
            assert(text[i] == before[i]);
        }
        lemma_operators(before);
        assert(an_operator(text[text.len() - 1]));
        assert(text.last() == text[text.len() - 1]);
    }
}

/// Comments that document something count as text: those that begin with three slashes and no
/// fourth, with two stars and neither a third nor the end, or with a `!` behind the mark.
pub proof fn law_documentation_counts_as_text(text: &str, empty: bool)
    requires
        call_ensures(is_blank, (text,), empty),
        text@.len() >= 3,
        text@[0] == '/',
    ensures
        text@[1] == '/' && text@[2] == '!' ==> !empty,
        text@[1] == '*' && text@[2] == '!' ==> !empty,
        text@[1] == '/' && text@[2] == '/' && (text@.len() == 3 || text@[3] != '/') ==> !empty,
        text@[1] == '*' && text@[2] == '*' && (text@.len() == 3 || (text@[3] != '*' && text@[3]
            != '/')) ==> !empty,
        text@[1] != '/' && text@[1] != '*' ==> !empty,
{
}

/// A comment between marks that is not closed is no comment.
pub proof fn law_an_open_comment_counts_as_text(text: &str, empty: bool)
    requires
        call_ensures(is_blank, (text,), empty),
        text@.len() >= 2,
        text@[0] == '/' && text@[1] == '*',
        forall|i: int| 2 <= i < text@.len() ==> text@[i] != '*' && text@[i] != '/',
    ensures
        !empty,
{
    lemma_not_closed(text@.skip(2));
}

proof fn lemma_not_closed(s: Seq<char>)
    requires
        forall|i: int| 0 <= i < s.len() ==> s[i] != '*' && s[i] != '/',
    ensures
        crate::contract_tests::comments::after_block(s, 1) is None,
    decreases s.len(),
{
    if s.len() >= 2 {
        lemma_not_closed(s.skip(1));
    }
}

/// The first element of a list of suites that is no identifier is what an attribute is refused for:
/// a path of several segments with one text, anything else with another.
pub proof fn law_the_first_wrong_element_is_told(
    parsed: Result<MetaForm, String>,
    r: Result<Vec<String>, SuiteError>,
    elements: Seq<ElementForm>,
    k: int,
)
    requires
        call_ensures(suites_of, (parsed,), r),
        parsed is Ok && parsed->Ok_0 is List,
        parsed->Ok_0->ident is Some && parsed->Ok_0->ident->0@ == "suites"@,
        parsed->Ok_0->elements is Ok && parsed->Ok_0->elements->Ok_0@ == elements,
        0 <= k < elements.len(),
        !(elements[k] is Path && elements[k]->Path_0 is Some),
        forall|i: int|
            0 <= i < k ==> (#[trigger] elements[i]) is Path && elements[i]->Path_0 is Some,
    ensures
        r is Err,
        r->Err_0 is Refused,
        r->Err_0->Refused_0.element == Some(k as usize),
        elements[k] is Path ==> r->Err_0->Refused_0.message == "suite 需为标识符",
        !(elements[k] is Path) ==> r->Err_0->Refused_0.message == "suites(...) 仅接受标识符",
{
    let forms = elements.map_values(|e: ElementForm| crate::contract_tests::attribute::item_of(e));
    assert(forms.len() == elements.len());
    assert(forms[k] == crate::contract_tests::attribute::item_of(elements[k]));
    assert(!(forms[k] is Ident));
    let error = r->Err_0->Refused_0;
    let e = error.element->0 as int;
    assert(forms[e] == crate::contract_tests::attribute::item_of(elements[e]));
    if e < k {
        assert(elements[e] is Path);
    }
    if e > k {
        assert(crate::contract_tests::attribute::element_objection(forms[k]) is None);
    }
}

/// The elements of a list are taken one for one: an identifier by its name, a longer path as a
/// path, anything else as something else.
pub proof fn law_elements_are_taken_one_for_one(
    elements: &Vec<ElementForm>,
    items: Vec<MetaItem>,
    i: int,
)
    requires
        call_ensures(list_items, (elements,), items),
        0 <= i < elements@.len(),
    ensures
        items@.len() == elements@.len(),
        elements@[i] is Path && elements@[i]->Path_0 is Some ==> items@[i] is Ident
            && items@[i]->Ident_0@ == elements@[i]->Path_0->0@,
        elements@[i] is Path && elements@[i]->Path_0 is None ==> items@[i] is Path,
        !(elements@[i] is Path) ==> items@[i] is Other,
{
    let forms = item_forms(items@);
    assert(forms.len() == items@.len());
    let given = elements@.map_values(
        |e: ElementForm| crate::contract_tests::attribute::item_of(e),
    );
    assert(given[i] == crate::contract_tests::attribute::item_of(elements@[i]));
    assert(forms[i] == items@[i]@);
}

} // verus!
