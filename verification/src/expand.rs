//! The whole pass: validate a declaration, generate its artifacts, render
//! them. A declaration that breaks a rule yields its diagnostic and no
//! output at all.

use vstd::prelude::*;
use crate::artifact::Generated;
use crate::decl::FnDecl;
use crate::diag::Diagnostic;
use crate::generate::{generate_all, generated_of};
use crate::render::{generated_text, render_all};
use crate::validate::{command_of, first_violation, validate};

verus! {

/// Validates a declaration and generates its artifacts.
///
/// A declaration that breaks a rule yields the first rule broken and
/// nothing else; any other yields the artifacts of the command that it
/// describes.
pub fn expand_command(func: &FnDecl) -> (res: Result<Generated, Diagnostic>)
    ensures
        match res {
            Ok(all) => first_violation(func@) is None && all@ == generated_of(command_of(func@)),
            Err(d) => first_violation(func@) == Some(d),
        },
{
    match validate(func) {
        Ok(def) => Ok(generate_all(&def)),
        Err(d) => Err(d),
    }
}

/// Turns a declaration into the source text of its inner function and its
/// two wrappers, or into the diagnostic of the first rule that it breaks.
pub fn command(func: &FnDecl) -> (res: Result<String, Diagnostic>)
    ensures
        match res {
            Ok(text) => first_violation(func@) is None && text@ == generated_text(
                generated_of(command_of(func@)),
            ),
            Err(d) => first_violation(func@) == Some(d),
        },
{
    match expand_command(func) {
        Ok(all) => Ok(render_all(&all)),
        Err(d) => Err(d),
    }
}

} // verus!
