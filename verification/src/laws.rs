//! Laws of the rewriter, stated and proved over the models.

use vstd::prelude::*;

use crate::ast::{
    ExprModel, FieldValueModel, ItemModel, MacroBodyModel, MacroCallModel, MatchArmModel,
    MemberModel, StmtModel,
};
use crate::literal::{LitKind, LiteralModel};
use crate::rewrite::{
    rewrite_arm_model, rewrite_arms_model, rewrite_expr_model, rewrite_exprs_model,
    rewrite_field_model, rewrite_fields_model, rewrite_item_model, rewrite_macro_body_model,
    rewrite_member_model, rewrite_members_model, rewrite_stmt_model, rewrite_stmts_model,
    template_for, RewriterModel,
};
use crate::substitute::subst_expr_model;

verus! {

/// Whether an optional child expression holds a matching literal.
pub open spec fn opt_expr_has_matching_literal(
    cfg: RewriterModel,
    opt: Option<Box<ExprModel>>,
) -> bool
    decreases opt,
{
    match opt {
        Some(e) => expr_has_matching_literal(cfg, *e),
        None => false,
    }
}

/// Whether the expression holds, anywhere the rewriter looks, a literal
/// of a kind the configuration has a template for. Content of call-like
/// invocations counts only while `visit_macros` is on, and verbatim
/// token text never counts: the rewriter does not look there.
pub open spec fn expr_has_matching_literal(cfg: RewriterModel, e: ExprModel) -> bool
    decreases e,
{
    match e {
        ExprModel::Lit(l) => template_for(cfg, l.kind) is Some,
        ExprModel::Path(_) => false,
        ExprModel::Call { func, args } => expr_has_matching_literal(cfg, *func)
            || exprs_have_matching_literal(cfg, args),
        ExprModel::MethodCall { receiver, args, .. } => expr_has_matching_literal(cfg, *receiver)
            || exprs_have_matching_literal(cfg, args),
        ExprModel::If { cond, then_branch, else_branch } => expr_has_matching_literal(cfg, *cond)
            || stmts_have_matching_literal(cfg, then_branch.stmts)
            || opt_expr_has_matching_literal(cfg, else_branch),
        ExprModel::Match { scrutinee, arms } => expr_has_matching_literal(cfg, *scrutinee)
            || arms_have_matching_literal(cfg, arms),
        ExprModel::While { cond, body } => expr_has_matching_literal(cfg, *cond)
            || stmts_have_matching_literal(cfg, body.stmts),
        ExprModel::ForLoop { iterator, body, .. } => expr_has_matching_literal(cfg, *iterator)
            || stmts_have_matching_literal(cfg, body.stmts),
        ExprModel::Loop { body } => stmts_have_matching_literal(cfg, body.stmts),
        ExprModel::Struct { fields, rest, .. } => fields_have_matching_literal(cfg, fields)
            || opt_expr_has_matching_literal(cfg, rest),
        ExprModel::Range { start, end, .. } => opt_expr_has_matching_literal(cfg, start)
            || opt_expr_has_matching_literal(cfg, end),
        ExprModel::Binary { left, right, .. } => expr_has_matching_literal(cfg, *left)
            || expr_has_matching_literal(cfg, *right),
        ExprModel::Unary { operand, .. } => expr_has_matching_literal(cfg, *operand),
        ExprModel::Cast { operand, .. } => expr_has_matching_literal(cfg, *operand),
        ExprModel::Paren(inner) => expr_has_matching_literal(cfg, *inner),
        ExprModel::Array(elems) => exprs_have_matching_literal(cfg, elems),
        ExprModel::Repeat { value, len } => expr_has_matching_literal(cfg, *value)
            || expr_has_matching_literal(cfg, *len),
        ExprModel::Tuple(elems) => exprs_have_matching_literal(cfg, elems),
        ExprModel::Index { base, index } => expr_has_matching_literal(cfg, *base)
            || expr_has_matching_literal(cfg, *index),
        ExprModel::Field { base, .. } => expr_has_matching_literal(cfg, *base),
        ExprModel::Assign { left, right } => expr_has_matching_literal(cfg, *left)
            || expr_has_matching_literal(cfg, *right),
        ExprModel::Reference { operand, .. } => expr_has_matching_literal(cfg, *operand),
        ExprModel::Closure { body, .. } => expr_has_matching_literal(cfg, *body),
        ExprModel::Block(b) => stmts_have_matching_literal(cfg, b.stmts),
        ExprModel::Return(opt) => match opt {
            Some(inner) => expr_has_matching_literal(cfg, *inner),
            None => false,
        },
        ExprModel::Macro(m) => cfg.parameters.visit_macros && macro_body_has_matching_literal(
            cfg,
            m.body,
        ),
        ExprModel::Verbatim(_) => false,
    }
}

/// Whether any element of the list holds a matching literal.
pub open spec fn exprs_have_matching_literal(cfg: RewriterModel, es: Seq<ExprModel>) -> bool
    decreases es,
{
    exists|i: int| 0 <= i < es.len() && expr_has_matching_literal(cfg, es[i])
}

/// Whether the arm's guard or body holds a matching literal.
pub open spec fn arm_has_matching_literal(cfg: RewriterModel, a: MatchArmModel) -> bool
    decreases a,
{
    (match a.guard {
        Some(g) => expr_has_matching_literal(cfg, g),
        None => false,
    }) || expr_has_matching_literal(cfg, a.body)
}

/// Whether any arm of the list holds a matching literal.
pub open spec fn arms_have_matching_literal(cfg: RewriterModel, arms: Seq<MatchArmModel>) -> bool
    decreases arms,
{
    exists|i: int| 0 <= i < arms.len() && arm_has_matching_literal(cfg, arms[i])
}

/// Whether the field's value holds a matching literal.
pub open spec fn field_has_matching_literal(cfg: RewriterModel, f: FieldValueModel) -> bool
    decreases f,
{
    expr_has_matching_literal(cfg, f.value)
}

/// Whether any field of the list holds a matching literal.
pub open spec fn fields_have_matching_literal(
    cfg: RewriterModel,
    fields: Seq<FieldValueModel>,
) -> bool
    decreases fields,
{
    exists|i: int| 0 <= i < fields.len() && field_has_matching_literal(cfg, fields[i])
}

/// Whether the statement holds a matching literal.
pub open spec fn stmt_has_matching_literal(cfg: RewriterModel, s: StmtModel) -> bool
    decreases s,
{
    match s {
        StmtModel::Let { init, .. } => match init {
            Some(e) => expr_has_matching_literal(cfg, e),
            None => false,
        },
        StmtModel::Expr { expr, .. } => expr_has_matching_literal(cfg, expr),
        StmtModel::Item(it) => item_has_matching_literal(cfg, *it),
        StmtModel::Verbatim(_) => false,
    }
}

/// Whether any statement of the list holds a matching literal.
pub open spec fn stmts_have_matching_literal(cfg: RewriterModel, ss: Seq<StmtModel>) -> bool
    decreases ss,
{
    exists|i: int| 0 <= i < ss.len() && stmt_has_matching_literal(cfg, ss[i])
}

/// Whether recognized call-like content holds a matching literal.
pub open spec fn macro_body_has_matching_literal(cfg: RewriterModel, b: MacroBodyModel) -> bool
    decreases b,
{
    match b {
        MacroBodyModel::Unparsed(_) => false,
        MacroBodyModel::Single(e) => expr_has_matching_literal(cfg, *e),
        MacroBodyModel::CommaList { elems, .. } => exprs_have_matching_literal(cfg, elems),
        MacroBodyModel::SemiPair { value, count } => expr_has_matching_literal(cfg, *value)
            || expr_has_matching_literal(cfg, *count),
    }
}

/// Whether the member holds a matching literal.
pub open spec fn member_has_matching_literal(cfg: RewriterModel, m: MemberModel) -> bool
    decreases m,
{
    match m {
        MemberModel::Fn { body, .. } => stmts_have_matching_literal(cfg, body.stmts),
        MemberModel::FnDecl { .. } => false,
        MemberModel::Const { value, .. } => expr_has_matching_literal(cfg, value),
        MemberModel::Verbatim(_) => false,
    }
}

/// Whether any member of the list holds a matching literal.
pub open spec fn members_have_matching_literal(cfg: RewriterModel, ms: Seq<MemberModel>) -> bool
    decreases ms,
{
    exists|i: int| 0 <= i < ms.len() && member_has_matching_literal(cfg, ms[i])
}

/// Whether the declaration holds a matching literal.
pub open spec fn item_has_matching_literal(cfg: RewriterModel, it: ItemModel) -> bool
    decreases it,
{
    match it {
        ItemModel::Fn { body, .. } => stmts_have_matching_literal(cfg, body.stmts),
        ItemModel::Trait { members, .. } => members_have_matching_literal(cfg, members),
        ItemModel::Impl { members, .. } => members_have_matching_literal(cfg, members),
    }
}

/// Law: a literal whose lexical kind has a template under the active
/// configuration is rewritten into exactly the substitution engine's
/// output: the template with every placeholder replaced by the literal.
pub proof fn law_matching_literal_becomes_filled_template(cfg: RewriterModel, l: LiteralModel)
    requires
        template_for(cfg, l.kind) is Some,
    ensures
        rewrite_expr_model(cfg, ExprModel::Lit(l)) == subst_expr_model(
            template_for(cfg, l.kind)->Some_0,
            l,
        ),
{
}

/// Law: the elements of a list are rewritten independently, each exactly
/// as it would be in ordinary expression position; in particular several
/// distinct literals in one list each get their own substitution.
pub proof fn law_elements_rewritten_independently(cfg: RewriterModel, es: Seq<ExprModel>)
    ensures
        rewrite_exprs_model(cfg, es).len() == es.len(),
        forall|i: int|
            0 <= i < es.len() ==> rewrite_exprs_model(cfg, es)[i] == rewrite_expr_model(
                cfg,
                es[i],
            ),
{
}

/// Law: a literal of a non-numeric kind — boolean, string, byte string,
/// byte, or character — is never altered, whatever the mode, templates
/// and flags.
pub proof fn law_nonnumeric_literal_kept(cfg: RewriterModel, l: LiteralModel)
    requires
        !(l.kind matches LitKind::Int),
        !(l.kind matches LitKind::Float),
    ensures
        rewrite_expr_model(cfg, ExprModel::Lit(l)) == ExprModel::Lit(l),
{
}

/// Law: a configuration without an integer template — float-only
/// rewriting — leaves every integer literal unchanged.
pub proof fn law_without_int_template_integer_literal_kept(cfg: RewriterModel, l: LiteralModel)
    requires
        cfg.int_template is None,
        l.kind matches LitKind::Int,
    ensures
        rewrite_expr_model(cfg, ExprModel::Lit(l)) == ExprModel::Lit(l),
{
}

/// Law: a configuration without a float template — integer-only
/// rewriting — leaves every float literal unchanged.
pub proof fn law_without_float_template_float_literal_kept(cfg: RewriterModel, l: LiteralModel)
    requires
        cfg.float_template is None,
        l.kind matches LitKind::Float,
    ensures
        rewrite_expr_model(cfg, ExprModel::Lit(l)) == ExprModel::Lit(l),
{
}

/// Law: with `visit_macros` on, recognized call-like content is
/// rewritten element by element exactly as ordinary expressions are, in
/// its own separator style, and unrecognized content passes through.
pub proof fn law_visited_macro_rewritten_as_expressions(cfg: RewriterModel, m: MacroCallModel)
    requires
        cfg.parameters.visit_macros,
    ensures
        rewrite_expr_model(cfg, ExprModel::Macro(m)) == ExprModel::Macro(
            MacroCallModel {
                path: m.path,
                delimiter: m.delimiter,
                body: rewrite_macro_body_model(cfg, m.body),
            },
        ),
        m.body matches MacroBodyModel::Single(e) ==> rewrite_macro_body_model(cfg, m.body)
            == MacroBodyModel::Single(Box::new(rewrite_expr_model(cfg, *e))),
        m.body matches MacroBodyModel::CommaList { elems, trailing_comma }
            ==> rewrite_macro_body_model(cfg, m.body) == (MacroBodyModel::CommaList {
            elems: rewrite_exprs_model(cfg, elems),
            trailing_comma,
        }),
        m.body matches MacroBodyModel::SemiPair { value, count } ==> rewrite_macro_body_model(
            cfg,
            m.body,
        ) == (MacroBodyModel::SemiPair {
            value: Box::new(rewrite_expr_model(cfg, *value)),
            count: Box::new(rewrite_expr_model(cfg, *count)),
        }),
        m.body matches MacroBodyModel::Unparsed(_) ==> rewrite_macro_body_model(cfg, m.body)
            == m.body,
{
}

/// Law: with `visit_macros` off, a call-like invocation is an opaque
/// leaf: the whole node, content included, is left exactly as it was —
/// while literals elsewhere in the same declaration are still rewritten,
/// since every other node form is rewritten independently of this one.
pub proof fn law_unvisited_macro_left_untouched(cfg: RewriterModel, m: MacroCallModel)
    requires
        !cfg.parameters.visit_macros,
    ensures
        rewrite_expr_model(cfg, ExprModel::Macro(m)) == ExprModel::Macro(m),
{
    reveal_with_fuel(rewrite_expr_model, 2);
    assert(rewrite_expr_model(cfg, ExprModel::Macro(m)) =~~= ExprModel::Macro(m));
}

/// A rewrite that finds no matching literal in an expression gives the
/// expression back unchanged.
pub proof fn lemma_rewrite_expr_identity(cfg: RewriterModel, e: ExprModel)
    requires
        !expr_has_matching_literal(cfg, e),
    ensures
        rewrite_expr_model(cfg, e) == e,
    decreases e,
{
    reveal_with_fuel(expr_has_matching_literal, 2);
    match e {
        ExprModel::Lit(_) => {}
        ExprModel::Path(_) => {}
        ExprModel::Call { func, args } => {
            lemma_rewrite_expr_identity(cfg, *func);
            lemma_rewrite_exprs_identity(cfg, args);
        }
        ExprModel::MethodCall { receiver, args, .. } => {
            lemma_rewrite_expr_identity(cfg, *receiver);
            lemma_rewrite_exprs_identity(cfg, args);
        }
        ExprModel::Binary { left, right, .. } => {
            lemma_rewrite_expr_identity(cfg, *left);
            lemma_rewrite_expr_identity(cfg, *right);
        }
        ExprModel::Unary { operand, .. } => {
            lemma_rewrite_expr_identity(cfg, *operand);
        }
        ExprModel::Cast { operand, .. } => {
            lemma_rewrite_expr_identity(cfg, *operand);
        }
        ExprModel::Paren(inner) => {
            lemma_rewrite_expr_identity(cfg, *inner);
        }
        ExprModel::Array(elems) => {
            lemma_rewrite_exprs_identity(cfg, elems);
        }
        ExprModel::Repeat { value, len } => {
            lemma_rewrite_expr_identity(cfg, *value);
            lemma_rewrite_expr_identity(cfg, *len);
        }
        ExprModel::Tuple(elems) => {
            lemma_rewrite_exprs_identity(cfg, elems);
        }
        ExprModel::Index { base, index } => {
            lemma_rewrite_expr_identity(cfg, *base);
            lemma_rewrite_expr_identity(cfg, *index);
        }
        ExprModel::Field { base, .. } => {
            lemma_rewrite_expr_identity(cfg, *base);
        }
        ExprModel::Assign { left, right } => {
            lemma_rewrite_expr_identity(cfg, *left);
            lemma_rewrite_expr_identity(cfg, *right);
        }
        ExprModel::Reference { operand, .. } => {
            lemma_rewrite_expr_identity(cfg, *operand);
        }
        ExprModel::Closure { body, .. } => {
            lemma_rewrite_expr_identity(cfg, *body);
        }
        ExprModel::If { cond, then_branch, else_branch } => {
            lemma_rewrite_expr_identity(cfg, *cond);
            lemma_rewrite_stmts_identity(cfg, then_branch.stmts);
            match else_branch {
                Some(e) => {
                    lemma_rewrite_expr_identity(cfg, *e);
                }
                None => {}
            }
        }
        ExprModel::Match { scrutinee, arms } => {
            lemma_rewrite_expr_identity(cfg, *scrutinee);
            lemma_rewrite_arms_identity(cfg, arms);
        }
        ExprModel::While { cond, body } => {
            lemma_rewrite_expr_identity(cfg, *cond);
            lemma_rewrite_stmts_identity(cfg, body.stmts);
        }
        ExprModel::ForLoop { iterator, body, .. } => {
            lemma_rewrite_expr_identity(cfg, *iterator);
            lemma_rewrite_stmts_identity(cfg, body.stmts);
        }
        ExprModel::Loop { body } => {
            lemma_rewrite_stmts_identity(cfg, body.stmts);
        }
        ExprModel::Struct { fields, rest, .. } => {
            lemma_rewrite_fields_identity(cfg, fields);
            match rest {
                Some(e) => {
                    lemma_rewrite_expr_identity(cfg, *e);
                }
                None => {}
            }
        }
        ExprModel::Range { start, end, .. } => {
            match start {
                Some(e) => {
                    lemma_rewrite_expr_identity(cfg, *e);
                }
                None => {}
            }
            match end {
                Some(e) => {
                    lemma_rewrite_expr_identity(cfg, *e);
                }
                None => {}
            }
        }
        ExprModel::Block(b) => {
            lemma_rewrite_stmts_identity(cfg, b.stmts);
        }
        ExprModel::Return(opt) => {
            match opt {
                Some(inner) => {
                    lemma_rewrite_expr_identity(cfg, *inner);
                }
                None => {}
            }
        }
        ExprModel::Macro(m) => {
            if cfg.parameters.visit_macros {
                lemma_rewrite_macro_body_identity(cfg, m.body);
            }
        }
        ExprModel::Verbatim(_) => {}
    }
    reveal_with_fuel(rewrite_expr_model, 2);
    assert(rewrite_expr_model(cfg, e) =~~= e);
}

/// A rewrite that finds no matching literal in a list gives the list
/// back unchanged.
pub proof fn lemma_rewrite_exprs_identity(cfg: RewriterModel, es: Seq<ExprModel>)
    requires
        !exprs_have_matching_literal(cfg, es),
    ensures
        rewrite_exprs_model(cfg, es) == es,
    decreases es,
{
    assert forall|i: int| 0 <= i < es.len() implies rewrite_exprs_model(cfg, es)[i] == es[i] by {
        assert(!expr_has_matching_literal(cfg, es[i]));
        lemma_rewrite_expr_identity(cfg, es[i]);
    }
    assert(rewrite_exprs_model(cfg, es) =~= es);
}

/// A rewrite that finds no matching literal in a match arm gives the
/// arm back unchanged.
pub proof fn lemma_rewrite_arm_identity(cfg: RewriterModel, a: MatchArmModel)
    requires
        !arm_has_matching_literal(cfg, a),
    ensures
        rewrite_arm_model(cfg, a) == a,
    decreases a,
{
    match a.guard {
        Some(g) => {
            lemma_rewrite_expr_identity(cfg, g);
        }
        None => {}
    }
    lemma_rewrite_expr_identity(cfg, a.body);
    assert(rewrite_arm_model(cfg, a) =~~= a);
}

/// A rewrite that finds no matching literal in an arm list gives the
/// list back unchanged.
pub proof fn lemma_rewrite_arms_identity(cfg: RewriterModel, arms: Seq<MatchArmModel>)
    requires
        !arms_have_matching_literal(cfg, arms),
    ensures
        rewrite_arms_model(cfg, arms) == arms,
    decreases arms,
{
    assert forall|i: int| 0 <= i < arms.len() implies rewrite_arms_model(cfg, arms)[i]
        == arms[i] by {
        assert(!arm_has_matching_literal(cfg, arms[i]));
        lemma_rewrite_arm_identity(cfg, arms[i]);
    }
    assert(rewrite_arms_model(cfg, arms) =~= arms);
}

/// A rewrite that finds no matching literal in a field list gives the
/// list back unchanged.
pub proof fn lemma_rewrite_fields_identity(cfg: RewriterModel, fields: Seq<FieldValueModel>)
    requires
        !fields_have_matching_literal(cfg, fields),
    ensures
        rewrite_fields_model(cfg, fields) == fields,
    decreases fields,
{
    assert forall|i: int| 0 <= i < fields.len() implies rewrite_fields_model(cfg, fields)[i]
        == fields[i] by {
        assert(!field_has_matching_literal(cfg, fields[i]));
        lemma_rewrite_expr_identity(cfg, fields[i].value);
        assert(rewrite_field_model(cfg, fields[i]) =~~= fields[i]);
    }
    assert(rewrite_fields_model(cfg, fields) =~= fields);
}

/// A rewrite that finds no matching literal in a statement gives the
/// statement back unchanged.
pub proof fn lemma_rewrite_stmt_identity(cfg: RewriterModel, s: StmtModel)
    requires
        !stmt_has_matching_literal(cfg, s),
    ensures
        rewrite_stmt_model(cfg, s) == s,
    decreases s,
{
    match s {
        StmtModel::Let { init, .. } => {
            match init {
                Some(e) => {
                    lemma_rewrite_expr_identity(cfg, e);
                }
                None => {}
            }
        }
        StmtModel::Expr { expr, .. } => {
            lemma_rewrite_expr_identity(cfg, expr);
        }
        StmtModel::Item(it) => {
            law_rewrite_without_matching_literal_is_identity(cfg, *it);
        }
        StmtModel::Verbatim(_) => {}
    }
    assert(rewrite_stmt_model(cfg, s) =~~= s);
}

/// A rewrite that finds no matching literal in a statement list gives
/// the list back unchanged.
pub proof fn lemma_rewrite_stmts_identity(cfg: RewriterModel, ss: Seq<StmtModel>)
    requires
        !stmts_have_matching_literal(cfg, ss),
    ensures
        rewrite_stmts_model(cfg, ss) == ss,
    decreases ss,
{
    assert forall|i: int| 0 <= i < ss.len() implies rewrite_stmts_model(cfg, ss)[i] == ss[i] by {
        assert(!stmt_has_matching_literal(cfg, ss[i]));
        lemma_rewrite_stmt_identity(cfg, ss[i]);
    }
    assert(rewrite_stmts_model(cfg, ss) =~= ss);
}

/// A rewrite that finds no matching literal in recognized call-like
/// content gives the content back unchanged.
pub proof fn lemma_rewrite_macro_body_identity(cfg: RewriterModel, b: MacroBodyModel)
    requires
        !macro_body_has_matching_literal(cfg, b),
    ensures
        rewrite_macro_body_model(cfg, b) == b,
    decreases b,
{
    if cfg.parameters.visit_macros {
        match b {
            MacroBodyModel::Unparsed(_) => {}
            MacroBodyModel::Single(e) => {
                lemma_rewrite_expr_identity(cfg, *e);
            }
            MacroBodyModel::CommaList { elems, .. } => {
                lemma_rewrite_exprs_identity(cfg, elems);
            }
            MacroBodyModel::SemiPair { value, count } => {
                lemma_rewrite_expr_identity(cfg, *value);
                lemma_rewrite_expr_identity(cfg, *count);
            }
        }
        assert(rewrite_macro_body_model(cfg, b) =~~= b);
    }
}

/// A rewrite that finds no matching literal in a member gives the
/// member back unchanged.
pub proof fn lemma_rewrite_member_identity(cfg: RewriterModel, m: MemberModel)
    requires
        !member_has_matching_literal(cfg, m),
    ensures
        rewrite_member_model(cfg, m) == m,
    decreases m,
{
    match m {
        MemberModel::Fn { body, .. } => {
            lemma_rewrite_stmts_identity(cfg, body.stmts);
        }
        MemberModel::FnDecl { .. } => {}
        MemberModel::Const { value, .. } => {
            lemma_rewrite_expr_identity(cfg, value);
        }
        MemberModel::Verbatim(_) => {}
    }
    assert(rewrite_member_model(cfg, m) =~~= m);
}

/// Law: a rewrite that finds no literal of a kind it has a template for
/// gives the whole declaration back unchanged. In particular, a
/// declaration whose literals are all non-numeric is never altered; one
/// without float literals is untouched by float-only rewriting, and one
/// without integer literals by integer-only rewriting; and with
/// `visit_macros` off, call-like content never counts as a match.
pub proof fn law_rewrite_without_matching_literal_is_identity(cfg: RewriterModel, it: ItemModel)
    requires
        !item_has_matching_literal(cfg, it),
    ensures
        rewrite_item_model(cfg, it) == it,
    decreases it,
{
    match it {
        ItemModel::Fn { body, .. } => {
            lemma_rewrite_stmts_identity(cfg, body.stmts);
        }
        ItemModel::Trait { members, .. } => {
            lemma_rewrite_members_identity(cfg, members);
        }
        ItemModel::Impl { members, .. } => {
            lemma_rewrite_members_identity(cfg, members);
        }
    }
    assert(rewrite_item_model(cfg, it) =~~= it);
}

/// A rewrite that finds no matching literal in a member list gives the
/// list back unchanged.
pub proof fn lemma_rewrite_members_identity(cfg: RewriterModel, ms: Seq<MemberModel>)
    requires
        !members_have_matching_literal(cfg, ms),
    ensures
        rewrite_members_model(cfg, ms) == ms,
    decreases ms,
{
    assert forall|i: int| 0 <= i < ms.len() implies rewrite_members_model(cfg, ms)[i] == ms[i] by {
        assert(!member_has_matching_literal(cfg, ms[i]));
        lemma_rewrite_member_identity(cfg, ms[i]);
    }
    assert(rewrite_members_model(cfg, ms) =~= ms);
}

} // verus!
