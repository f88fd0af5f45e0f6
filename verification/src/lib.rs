//! Rewriting of numeric literals into caller-supplied expressions.
//!
//! Generic numeric code tends to drown in explicit conversion calls
//! around every constant. This library takes a declaration — a free
//! function, a trait, or an implementation block — together with a
//! replacement template, and rewrites every integer or float literal in
//! the declaration into a copy of the template in which the reserved
//! placeholder identifier `literal` has been replaced by that literal.
//! With the template `T::from(literal)`, the body `3 / 2` becomes
//! `T::from(3) / T::from(2)`.
//!
//! Three entry points differ only in which literal kinds they touch:
//! [`replace_numeric_literals`] rewrites integer and float literals with
//! one shared template, [`replace_float_literals`] rewrites float
//! literals only, and [`replace_int_literals`] integer literals only.
//! Each takes the attribute arguments as an expression list: the first
//! expression is the mandatory template, and each further expression of
//! the shape `name = bool` sets a flag. The one recognized flag is
//! `visit_macros` (default `true`): whether literals inside call-like
//! invocations are rewritten too.
//!
//! The host language's parser and printer are outside this library: a
//! thin adapter turns source text into the tree of [`ast`] and back.
//! Literals whose magnitude exceeds the natively representable range are
//! not given any special handling.

use vstd::prelude::*;

pub mod ast;
pub mod attribute;
pub mod laws;
pub mod literal;
pub mod rewrite;
pub mod substitute;

use crate::ast::{clone_expr, expr_model, exprs_model, Expr, ExprModel, Item};
use crate::attribute::{attr_params_model, parse_macro_attribute, AttributeError, MacroParameters};
use crate::rewrite::{rewrite_item, rewrite_item_model, Rewriter, RewriterModel};

verus! {

/// The configuration that rewrites both numeric kinds with one template.
pub open spec fn numeric_rewriter(template: ExprModel, parameters: MacroParameters) -> RewriterModel {
    RewriterModel {
        parameters,
        int_template: Some(template),
        float_template: Some(template),
    }
}

/// The configuration that rewrites float literals only.
pub open spec fn float_rewriter(template: ExprModel, parameters: MacroParameters) -> RewriterModel {
    RewriterModel { parameters, int_template: None, float_template: Some(template) }
}

/// The configuration that rewrites integer literals only.
pub open spec fn int_rewriter(template: ExprModel, parameters: MacroParameters) -> RewriterModel {
    RewriterModel { parameters, int_template: Some(template), float_template: None }
}

/// Rewrite every integer and float literal of the declaration through
/// the template given as the first attribute argument. Fails exactly
/// when the argument list is empty, and then produces no output item.
pub fn replace_numeric_literals(args: Vec<Expr>, item: &Item) -> (r: Result<Item, AttributeError>)
    ensures
        r is Err <==> args@.len() == 0,
        r is Err ==> r->Err_0 == AttributeError::MissingReplacement,
        r matches Ok(out) ==> out@ == rewrite_item_model(
            numeric_rewriter(expr_model(args@[0]), attr_params_model(exprs_model(args@).skip(1))),
            item@,
        ),
{
    let (template, parameters) = match parse_macro_attribute(args) {
        Ok(tp) => tp,
        Err(e) => {
            return Err(e);
        }
    };
    let int_copy = clone_expr(&template);
    let cfg = Rewriter {
        parameters,
        int_template: Some(int_copy),
        float_template: Some(template),
    };
    proof {
        assert(cfg@ =~~= numeric_rewriter(
            expr_model(args@[0]),
            attr_params_model(exprs_model(args@).skip(1)),
        ));
    }
    Ok(rewrite_item(&cfg, item))
}

/// Rewrite every float literal of the declaration through the template
/// given as the first attribute argument; integer literals and all other
/// literal kinds stay as they are. Fails exactly when the argument list
/// is empty, and then produces no output item.
pub fn replace_float_literals(args: Vec<Expr>, item: &Item) -> (r: Result<Item, AttributeError>)
    ensures
        r is Err <==> args@.len() == 0,
        r is Err ==> r->Err_0 == AttributeError::MissingReplacement,
        r matches Ok(out) ==> out@ == rewrite_item_model(
            float_rewriter(expr_model(args@[0]), attr_params_model(exprs_model(args@).skip(1))),
            item@,
        ),
{
    let (template, parameters) = match parse_macro_attribute(args) {
        Ok(tp) => tp,
        Err(e) => {
            return Err(e);
        }
    };
    let cfg = Rewriter { parameters, int_template: None, float_template: Some(template) };
    proof {
        assert(cfg@ =~~= float_rewriter(
            expr_model(args@[0]),
            attr_params_model(exprs_model(args@).skip(1)),
        ));
    }
    Ok(rewrite_item(&cfg, item))
}

/// Rewrite every integer literal of the declaration through the template
/// given as the first attribute argument; float literals and all other
/// literal kinds stay as they are. Fails exactly when the argument list
/// is empty, and then produces no output item.
pub fn replace_int_literals(args: Vec<Expr>, item: &Item) -> (r: Result<Item, AttributeError>)
    ensures
        r is Err <==> args@.len() == 0,
        r is Err ==> r->Err_0 == AttributeError::MissingReplacement,
        r matches Ok(out) ==> out@ == rewrite_item_model(
            int_rewriter(expr_model(args@[0]), attr_params_model(exprs_model(args@).skip(1))),
            item@,
        ),
{
    let (template, parameters) = match parse_macro_attribute(args) {
        Ok(tp) => tp,
        Err(e) => {
            return Err(e);
        }
    };
    let cfg = Rewriter { parameters, int_template: Some(template), float_template: None };
    proof {
        assert(cfg@ =~~= int_rewriter(
            expr_model(args@[0]),
            attr_params_model(exprs_model(args@).skip(1)),
        ));
    }
    Ok(rewrite_item(&cfg, item))
}

} // verus!
