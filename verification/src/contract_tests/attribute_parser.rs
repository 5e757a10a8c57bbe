//! The parser of attributes.
use syn::punctuated::Punctuated;
use syn::token::Comma;
use syn::{Error, Meta, Path};
use vstd::prelude::*;

use crate::contract_tests::attribute::{ElementForm, MetaForm};
use crate::contract_tests::attribute_depth::shallow;

verus! {

/// `syn::parse_str` for a `syn::Meta` and, where that is a list, its `parse_args_with` for
/// `syn::Meta`s with commas between them; of an error, its display form. Nothing is stated of
/// what comes back: inside a procedural macro the compiler reads the text, elsewhere the crate
/// does, and the two differ in places. The parser descends with each bracket, and inside a value
/// with each operator, so a deep text is left out.
#[verifier::external_body]
pub fn parse_meta(text: &str) -> (parsed: Result<MetaForm, String>)
    requires
        shallow(text@),
{
    let name = |path: &Path| path.get_ident().map(|ident| ident.to_string());
    let said = |error: Error| error.to_string();
    Ok(match syn::parse_str(text).map_err(said)? {
        Meta::Path(path) => MetaForm::Path(name(&path)),
        Meta::NameValue(_) => MetaForm::NameValue,
        Meta::List(list) => MetaForm::List {
            ident: name(&list.path),
            elements: list.parse_args_with(Punctuated::<Meta, Comma>::parse_terminated)
                .map_err(said).map(|metas| metas.iter().map(|meta| match meta {
                Meta::Path(path) => ElementForm::Path(name(path)),
                Meta::List(_) => ElementForm::List,
                Meta::NameValue(_) => ElementForm::NameValue,
            }).collect()),
        },
    })
}

} // verus!
