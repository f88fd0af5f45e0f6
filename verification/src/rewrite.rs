//! The literal classifier and tree rewriter.
//!
//! The rewriter walks a declaration depth first. At each expression it
//! first asks whether the node is a literal whose lexical kind has a
//! replacement template under the active mode; if so, the node becomes
//! the substitution engine's output for that literal, and nothing inside
//! that output is looked at again. A literal of any other kind — boolean,
//! string, byte string, byte, character, or a numeric kind without a
//! template — stays exactly as it is. Every other node keeps its shape
//! and has its child expressions rewritten in order.
//!
//! Call-like invocations are handled by the `visit_macros` flag. With the
//! flag on, content that fits one of the recognized argument grammars is
//! rewritten expression by expression and keeps its separator style;
//! content that fits none of them passes through verbatim. With the flag
//! off, every call-like invocation is an opaque leaf: nothing inside it
//! is touched, while literals elsewhere in the same declaration are still
//! rewritten.
//!
//! A second application of the rewriter is not in general a no-op: a
//! template may itself hold literals of a kind it rewrites, and a later
//! pass would match the literals the first pass embedded.

use vstd::prelude::*;

use crate::ast::{
    arm_model, arms_model, clone_macro_call, expr_model, exprs_model, field_value_model,
    fields_model, members_model, stmts_model, Block, BlockModel, Expr, ExprModel, FieldValue,
    FieldValueModel, Item, ItemModel, MacroBody, MacroBodyModel, MacroCall, MacroCallModel,
    MatchArm, MatchArmModel, Member, MemberModel, Stmt, StmtModel,
};
use crate::attribute::MacroParameters;
use crate::literal::LitKind;
use crate::substitute::{subst_expr_model, substitute_expr};

verus! {

/// A configured rewriter: the flag set and the replacement template, if
/// any, for each numeric kind. The two templates may be the same
/// expression, distinct expressions, or absent on either side.
pub struct Rewriter {
    pub parameters: MacroParameters,
    pub int_template: Option<Expr>,
    pub float_template: Option<Expr>,
}

/// Mathematical image of a `Rewriter`.
#[verifier::ext_equal]
pub ghost struct RewriterModel {
    pub parameters: MacroParameters,
    pub int_template: Option<ExprModel>,
    pub float_template: Option<ExprModel>,
}

impl View for Rewriter {
    type V = RewriterModel;

    open spec fn view(&self) -> RewriterModel {
        RewriterModel {
            parameters: self.parameters,
            int_template: match self.int_template {
                Some(t) => Some(expr_model(t)),
                None => None,
            },
            float_template: match self.float_template {
                Some(t) => Some(expr_model(t)),
                None => None,
            },
        }
    }
}

/// The template that applies to a literal of the given lexical kind:
/// the integer template for integer literals, the float template for
/// float literals, and none for every other kind.
pub open spec fn template_for(cfg: RewriterModel, kind: LitKind) -> Option<ExprModel> {
    match kind {
        LitKind::Int => cfg.int_template,
        LitKind::Float => cfg.float_template,
        _ => None,
    }
}

/// The rewritten form of one expression.
pub open spec fn rewrite_expr_model(cfg: RewriterModel, e: ExprModel) -> ExprModel
    decreases e,
{
    match e {
        ExprModel::Lit(l) => match template_for(cfg, l.kind) {
            Some(t) => subst_expr_model(t, l),
            None => e,
        },
        ExprModel::Path(_) => e,
        ExprModel::Call { func, args } => ExprModel::Call {
            func: Box::new(rewrite_expr_model(cfg, *func)),
            args: rewrite_exprs_model(cfg, args),
        },
        ExprModel::MethodCall { receiver, method, turbofish, args } => ExprModel::MethodCall {
            receiver: Box::new(rewrite_expr_model(cfg, *receiver)),
            method,
            turbofish,
            args: rewrite_exprs_model(cfg, args),
        },
        ExprModel::Binary { op, left, right } => ExprModel::Binary {
            op,
            left: Box::new(rewrite_expr_model(cfg, *left)),
            right: Box::new(rewrite_expr_model(cfg, *right)),
        },
        ExprModel::Unary { op, operand } => ExprModel::Unary {
            op,
            operand: Box::new(rewrite_expr_model(cfg, *operand)),
        },
        ExprModel::Cast { operand, ty } => ExprModel::Cast {
            operand: Box::new(rewrite_expr_model(cfg, *operand)),
            ty,
        },
        ExprModel::Paren(inner) => ExprModel::Paren(Box::new(rewrite_expr_model(cfg, *inner))),
        ExprModel::Array(elems) => ExprModel::Array(rewrite_exprs_model(cfg, elems)),
        ExprModel::Repeat { value, len } => ExprModel::Repeat {
            value: Box::new(rewrite_expr_model(cfg, *value)),
            len: Box::new(rewrite_expr_model(cfg, *len)),
        },
        ExprModel::Tuple(elems) => ExprModel::Tuple(rewrite_exprs_model(cfg, elems)),
        ExprModel::Index { base, index } => ExprModel::Index {
            base: Box::new(rewrite_expr_model(cfg, *base)),
            index: Box::new(rewrite_expr_model(cfg, *index)),
        },
        ExprModel::Field { base, member } => ExprModel::Field {
            base: Box::new(rewrite_expr_model(cfg, *base)),
            member,
        },
        ExprModel::Assign { left, right } => ExprModel::Assign {
            left: Box::new(rewrite_expr_model(cfg, *left)),
            right: Box::new(rewrite_expr_model(cfg, *right)),
        },
        ExprModel::Reference { mutable, operand } => ExprModel::Reference {
            mutable,
            operand: Box::new(rewrite_expr_model(cfg, *operand)),
        },
        ExprModel::Closure { capture, params, body } => ExprModel::Closure {
            capture,
            params,
            body: Box::new(rewrite_expr_model(cfg, *body)),
        },
        ExprModel::If { cond, then_branch, else_branch } => ExprModel::If {
            cond: Box::new(rewrite_expr_model(cfg, *cond)),
            then_branch: BlockModel { stmts: rewrite_stmts_model(cfg, then_branch.stmts) },
            else_branch: match else_branch {
                Some(e) => Some(Box::new(rewrite_expr_model(cfg, *e))),
                None => None,
            },
        },
        ExprModel::Match { scrutinee, arms } => ExprModel::Match {
            scrutinee: Box::new(rewrite_expr_model(cfg, *scrutinee)),
            arms: rewrite_arms_model(cfg, arms),
        },
        ExprModel::While { cond, body } => ExprModel::While {
            cond: Box::new(rewrite_expr_model(cfg, *cond)),
            body: BlockModel { stmts: rewrite_stmts_model(cfg, body.stmts) },
        },
        ExprModel::ForLoop { pattern, iterator, body } => ExprModel::ForLoop {
            pattern,
            iterator: Box::new(rewrite_expr_model(cfg, *iterator)),
            body: BlockModel { stmts: rewrite_stmts_model(cfg, body.stmts) },
        },
        ExprModel::Loop { body } => ExprModel::Loop {
            body: BlockModel { stmts: rewrite_stmts_model(cfg, body.stmts) },
        },
        ExprModel::Struct { path, fields, rest } => ExprModel::Struct {
            path,
            fields: rewrite_fields_model(cfg, fields),
            rest: match rest {
                Some(e) => Some(Box::new(rewrite_expr_model(cfg, *e))),
                None => None,
            },
        },
        ExprModel::Range { start, limits, end } => ExprModel::Range {
            start: match start {
                Some(e) => Some(Box::new(rewrite_expr_model(cfg, *e))),
                None => None,
            },
            limits,
            end: match end {
                Some(e) => Some(Box::new(rewrite_expr_model(cfg, *e))),
                None => None,
            },
        },
        ExprModel::Block(b) => ExprModel::Block(
            BlockModel { stmts: rewrite_stmts_model(cfg, b.stmts) },
        ),
        ExprModel::Return(opt) => ExprModel::Return(
            match opt {
                Some(inner) => Some(Box::new(rewrite_expr_model(cfg, *inner))),
                None => None,
            },
        ),
        ExprModel::Macro(m) => ExprModel::Macro(
            MacroCallModel {
                path: m.path,
                delimiter: m.delimiter,
                body: rewrite_macro_body_model(cfg, m.body),
            },
        ),
        ExprModel::Verbatim(_) => e,
    }
}

/// Rewriting over an expression list, element by element.
pub open spec fn rewrite_exprs_model(cfg: RewriterModel, es: Seq<ExprModel>) -> Seq<ExprModel>
    decreases es,
{
    Seq::new(
        es.len(),
        |i: int|
            if 0 <= i < es.len() {
                rewrite_expr_model(cfg, es[i])
            } else {
                ExprModel::Verbatim(Seq::empty())
            },
    )
}

/// The rewritten form of one match arm: its guard and its body; the
/// pattern is not an expression and stays as it is.
pub open spec fn rewrite_arm_model(cfg: RewriterModel, a: MatchArmModel) -> MatchArmModel
    decreases a,
{
    MatchArmModel {
        pattern: a.pattern,
        guard: match a.guard {
            Some(g) => Some(rewrite_expr_model(cfg, g)),
            None => None,
        },
        body: rewrite_expr_model(cfg, a.body),
    }
}

/// Rewriting over an arm list, element by element.
pub open spec fn rewrite_arms_model(cfg: RewriterModel, arms: Seq<MatchArmModel>) -> Seq<
    MatchArmModel,
>
    decreases arms,
{
    Seq::new(
        arms.len(),
        |i: int|
            if 0 <= i < arms.len() {
                rewrite_arm_model(cfg, arms[i])
            } else {
                MatchArmModel {
                    pattern: Seq::empty(),
                    guard: None,
                    body: ExprModel::Verbatim(Seq::empty()),
                }
            },
    )
}

/// The rewritten form of one struct-literal field: its value.
pub open spec fn rewrite_field_model(cfg: RewriterModel, f: FieldValueModel) -> FieldValueModel
    decreases f,
{
    FieldValueModel { member: f.member, value: rewrite_expr_model(cfg, f.value) }
}

/// Rewriting over a field list, element by element.
pub open spec fn rewrite_fields_model(cfg: RewriterModel, fields: Seq<FieldValueModel>) -> Seq<
    FieldValueModel,
>
    decreases fields,
{
    Seq::new(
        fields.len(),
        |i: int|
            if 0 <= i < fields.len() {
                rewrite_field_model(cfg, fields[i])
            } else {
                FieldValueModel { member: Seq::empty(), value: ExprModel::Verbatim(Seq::empty()) }
            },
    )
}

/// The rewritten content of a call-like invocation. With `visit_macros`
/// off the content is an opaque leaf; with it on, content under a
/// recognized grammar is rewritten element by element in its separator
/// style, and unrecognized content passes through verbatim.
pub open spec fn rewrite_macro_body_model(cfg: RewriterModel, b: MacroBodyModel) -> MacroBodyModel
    decreases b,
{
    if !cfg.parameters.visit_macros {
        b
    } else {
        match b {
            MacroBodyModel::Unparsed(_) => b,
            MacroBodyModel::Single(e) => MacroBodyModel::Single(
                Box::new(rewrite_expr_model(cfg, *e)),
            ),
            MacroBodyModel::CommaList { elems, trailing_comma } => MacroBodyModel::CommaList {
                elems: rewrite_exprs_model(cfg, elems),
                trailing_comma,
            },
            MacroBodyModel::SemiPair { value, count } => MacroBodyModel::SemiPair {
                value: Box::new(rewrite_expr_model(cfg, *value)),
                count: Box::new(rewrite_expr_model(cfg, *count)),
            },
        }
    }
}

/// The rewritten form of one statement.
pub open spec fn rewrite_stmt_model(cfg: RewriterModel, s: StmtModel) -> StmtModel
    decreases s,
{
    match s {
        StmtModel::Let { pattern, ty, init } => StmtModel::Let {
            pattern,
            ty,
            init: match init {
                Some(e) => Some(rewrite_expr_model(cfg, e)),
                None => None,
            },
        },
        StmtModel::Expr { expr, semicolon } => StmtModel::Expr {
            expr: rewrite_expr_model(cfg, expr),
            semicolon,
        },
        StmtModel::Item(it) => StmtModel::Item(Box::new(rewrite_item_model(cfg, *it))),
        StmtModel::Verbatim(_) => s,
    }
}

/// Rewriting over a statement list, element by element.
pub open spec fn rewrite_stmts_model(cfg: RewriterModel, ss: Seq<StmtModel>) -> Seq<StmtModel>
    decreases ss,
{
    Seq::new(
        ss.len(),
        |i: int|
            if 0 <= i < ss.len() {
                rewrite_stmt_model(cfg, ss[i])
            } else {
                StmtModel::Verbatim(Seq::empty())
            },
    )
}

/// The rewritten form of one trait or implementation member.
pub open spec fn rewrite_member_model(cfg: RewriterModel, m: MemberModel) -> MemberModel
    decreases m,
{
    match m {
        MemberModel::Fn { signature, body } => MemberModel::Fn {
            signature,
            body: BlockModel { stmts: rewrite_stmts_model(cfg, body.stmts) },
        },
        MemberModel::FnDecl { .. } => m,
        MemberModel::Const { header, value } => MemberModel::Const {
            header,
            value: rewrite_expr_model(cfg, value),
        },
        MemberModel::Verbatim(_) => m,
    }
}

/// Rewriting over a member list, element by element.
pub open spec fn rewrite_members_model(cfg: RewriterModel, ms: Seq<MemberModel>) -> Seq<
    MemberModel,
>
    decreases ms,
{
    Seq::new(
        ms.len(),
        |i: int|
            if 0 <= i < ms.len() {
                rewrite_member_model(cfg, ms[i])
            } else {
                MemberModel::Verbatim(Seq::empty())
            },
    )
}

/// The rewritten form of a whole declaration.
pub open spec fn rewrite_item_model(cfg: RewriterModel, it: ItemModel) -> ItemModel
    decreases it,
{
    match it {
        ItemModel::Fn { signature, body } => ItemModel::Fn {
            signature,
            body: BlockModel { stmts: rewrite_stmts_model(cfg, body.stmts) },
        },
        ItemModel::Trait { header, members } => ItemModel::Trait {
            header,
            members: rewrite_members_model(cfg, members),
        },
        ItemModel::Impl { header, members } => ItemModel::Impl {
            header,
            members: rewrite_members_model(cfg, members),
        },
    }
}

/// Rewrite one expression.
#[verifier::rlimit(60)]
pub fn rewrite_expr(cfg: &Rewriter, e: &Expr) -> (r: Expr)
    ensures
        r@ == rewrite_expr_model(cfg@, e@),
    decreases *e,
{
    let r = match e {
        Expr::Lit(l) => match l.kind {
            LitKind::Int => match &cfg.int_template {
                Some(t) => substitute_expr(t, l),
                None => Expr::Lit(l.duplicate()),
            },
            LitKind::Float => match &cfg.float_template {
                Some(t) => substitute_expr(t, l),
                None => Expr::Lit(l.duplicate()),
            },
            _ => Expr::Lit(l.duplicate()),
        },
        Expr::Path(p) => Expr::Path(p.duplicate()),
        Expr::Call { func, args } => Expr::Call {
            func: Box::new(rewrite_expr(cfg, func)),
            args: rewrite_exprs(cfg, args),
        },
        Expr::MethodCall { receiver, method, turbofish, args } => Expr::MethodCall {
            receiver: Box::new(rewrite_expr(cfg, receiver)),
            method: method.clone(),
            turbofish: match turbofish {
                Some(t) => Some(t.clone()),
                None => None,
            },
            args: rewrite_exprs(cfg, args),
        },
        Expr::Binary { op, left, right } => Expr::Binary {
            op: op.clone(),
            left: Box::new(rewrite_expr(cfg, left)),
            right: Box::new(rewrite_expr(cfg, right)),
        },
        Expr::Unary { op, operand } => Expr::Unary {
            op: op.clone(),
            operand: Box::new(rewrite_expr(cfg, operand)),
        },
        Expr::Cast { operand, ty } => Expr::Cast {
            operand: Box::new(rewrite_expr(cfg, operand)),
            ty: ty.clone(),
        },
        Expr::Paren(inner) => Expr::Paren(Box::new(rewrite_expr(cfg, inner))),
        Expr::Array(elems) => Expr::Array(rewrite_exprs(cfg, elems)),
        Expr::Repeat { value, len } => Expr::Repeat {
            value: Box::new(rewrite_expr(cfg, value)),
            len: Box::new(rewrite_expr(cfg, len)),
        },
        Expr::Tuple(elems) => Expr::Tuple(rewrite_exprs(cfg, elems)),
        Expr::Index { base, index } => Expr::Index {
            base: Box::new(rewrite_expr(cfg, base)),
            index: Box::new(rewrite_expr(cfg, index)),
        },
        Expr::Field { base, member } => Expr::Field {
            base: Box::new(rewrite_expr(cfg, base)),
            member: member.clone(),
        },
        Expr::Assign { left, right } => Expr::Assign {
            left: Box::new(rewrite_expr(cfg, left)),
            right: Box::new(rewrite_expr(cfg, right)),
        },
        Expr::Reference { mutable, operand } => Expr::Reference {
            mutable: *mutable,
            operand: Box::new(rewrite_expr(cfg, operand)),
        },
        Expr::Closure { capture, params, body } => Expr::Closure {
            capture: *capture,
            params: params.clone(),
            body: Box::new(rewrite_expr(cfg, body)),
        },
        Expr::If { cond, then_branch, else_branch } => Expr::If {
            cond: Box::new(rewrite_expr(cfg, cond)),
            then_branch: Block { stmts: rewrite_stmts(cfg, &then_branch.stmts) },
            else_branch: match else_branch {
                Some(e) => Some(Box::new(rewrite_expr(cfg, e))),
                None => None,
            },
        },
        Expr::Match { scrutinee, arms } => Expr::Match {
            scrutinee: Box::new(rewrite_expr(cfg, scrutinee)),
            arms: rewrite_arms(cfg, arms),
        },
        Expr::While { cond, body } => Expr::While {
            cond: Box::new(rewrite_expr(cfg, cond)),
            body: Block { stmts: rewrite_stmts(cfg, &body.stmts) },
        },
        Expr::ForLoop { pattern, iterator, body } => Expr::ForLoop {
            pattern: pattern.clone(),
            iterator: Box::new(rewrite_expr(cfg, iterator)),
            body: Block { stmts: rewrite_stmts(cfg, &body.stmts) },
        },
        Expr::Loop { body } => Expr::Loop {
            body: Block { stmts: rewrite_stmts(cfg, &body.stmts) },
        },
        Expr::Struct { path, fields, rest } => Expr::Struct {
            path: path.duplicate(),
            fields: rewrite_fields(cfg, fields),
            rest: match rest {
                Some(e) => Some(Box::new(rewrite_expr(cfg, e))),
                None => None,
            },
        },
        Expr::Range { start, limits, end } => Expr::Range {
            start: match start {
                Some(e) => Some(Box::new(rewrite_expr(cfg, e))),
                None => None,
            },
            limits: limits.clone(),
            end: match end {
                Some(e) => Some(Box::new(rewrite_expr(cfg, e))),
                None => None,
            },
        },
        Expr::Block(b) => Expr::Block(Block { stmts: rewrite_stmts(cfg, &b.stmts) }),
        Expr::Return(opt) => Expr::Return(
            match opt {
                Some(inner) => Some(Box::new(rewrite_expr(cfg, inner))),
                None => None,
            },
        ),
        Expr::Macro(m) => Expr::Macro(rewrite_macro_call(cfg, m)),
        Expr::Verbatim(text) => Expr::Verbatim(text.clone()),
    };
    proof {
        reveal_with_fuel(expr_model, 3);
        reveal_with_fuel(rewrite_expr_model, 2);
        assert(r@ =~~= rewrite_expr_model(cfg@, e@));
    }
    r
}

/// Rewrite an expression list.
#[verifier::loop_isolation(false)]
fn rewrite_exprs(cfg: &Rewriter, es: &Vec<Expr>) -> (r: Vec<Expr>)
    ensures
        exprs_model(r@) == rewrite_exprs_model(cfg@, exprs_model(es@)),
    decreases *es,
{
    let mut out: Vec<Expr> = Vec::new();
    let mut i: usize = 0;
    while i < es.len()
        invariant
            i <= es@.len(),
            out@.len() == i as nat,
            forall|j: int| 0 <= j < i ==> out@[j]@ == rewrite_expr_model(cfg@, es@[j]@),
        decreases es@.len() - i,
    {
        proof {
            assert(decreases_to!(*es => es@));
            assert(decreases_to!(es@ => es@[i as int]));
        }
        let c = rewrite_expr(cfg, &es[i]);
        out.push(c);
        i += 1;
    }
    proof {
        assert(exprs_model(out@) =~= rewrite_exprs_model(cfg@, exprs_model(es@)));
    }
    out
}

/// Rewrite an arm list.
#[verifier::loop_isolation(false)]
fn rewrite_arms(cfg: &Rewriter, arms: &Vec<MatchArm>) -> (r: Vec<MatchArm>)
    ensures
        arms_model(r@) == rewrite_arms_model(cfg@, arms_model(arms@)),
    decreases *arms,
{
    let mut out: Vec<MatchArm> = Vec::new();
    let mut i: usize = 0;
    while i < arms.len()
        invariant
            i <= arms@.len(),
            out@.len() == i as nat,
            forall|j: int| 0 <= j < i ==> arm_model(out@[j]) == rewrite_arm_model(
                cfg@,
                arm_model(arms@[j]),
            ),
        decreases arms@.len() - i,
    {
        proof {
            assert(decreases_to!(*arms => arms@));
            assert(decreases_to!(arms@ => arms@[i as int]));
        }
        let a = &arms[i];
        let c = MatchArm {
            pattern: a.pattern.clone(),
            guard: match &a.guard {
                Some(g) => Some(rewrite_expr(cfg, g)),
                None => None,
            },
            body: rewrite_expr(cfg, &a.body),
        };
        proof {
            assert(arm_model(c) =~= rewrite_arm_model(cfg@, arm_model(arms@[i as int])));
        }
        out.push(c);
        i += 1;
    }
    proof {
        assert(arms_model(out@) =~= rewrite_arms_model(cfg@, arms_model(arms@)));
    }
    out
}

/// Rewrite a field list.
#[verifier::loop_isolation(false)]
fn rewrite_fields(cfg: &Rewriter, fields: &Vec<FieldValue>) -> (r: Vec<FieldValue>)
    ensures
        fields_model(r@) == rewrite_fields_model(cfg@, fields_model(fields@)),
    decreases *fields,
{
    let mut out: Vec<FieldValue> = Vec::new();
    let mut i: usize = 0;
    while i < fields.len()
        invariant
            i <= fields@.len(),
            out@.len() == i as nat,
            forall|j: int| 0 <= j < i ==> field_value_model(out@[j]) == rewrite_field_model(
                cfg@,
                field_value_model(fields@[j]),
            ),
        decreases fields@.len() - i,
    {
        proof {
            assert(decreases_to!(*fields => fields@));
            assert(decreases_to!(fields@ => fields@[i as int]));
        }
        let f = &fields[i];
        let c = FieldValue { member: f.member.clone(), value: rewrite_expr(cfg, &f.value) };
        proof {
            assert(field_value_model(c) =~= rewrite_field_model(
                cfg@,
                field_value_model(fields@[i as int]),
            ));
        }
        out.push(c);
        i += 1;
    }
    proof {
        assert(fields_model(out@) =~= rewrite_fields_model(cfg@, fields_model(fields@)));
    }
    out
}

/// Rewrite a statement list.
#[verifier::loop_isolation(false)]
fn rewrite_stmts(cfg: &Rewriter, ss: &Vec<Stmt>) -> (r: Vec<Stmt>)
    ensures
        stmts_model(r@) == rewrite_stmts_model(cfg@, stmts_model(ss@)),
    decreases *ss,
{
    let mut out: Vec<Stmt> = Vec::new();
    let mut i: usize = 0;
    while i < ss.len()
        invariant
            i <= ss@.len(),
            out@.len() == i as nat,
            forall|j: int| 0 <= j < i ==> out@[j]@ == rewrite_stmt_model(cfg@, ss@[j]@),
        decreases ss@.len() - i,
    {
        proof {
            assert(decreases_to!(*ss => ss@));
            assert(decreases_to!(ss@ => ss@[i as int]));
        }
        let c = rewrite_stmt(cfg, &ss[i]);
        out.push(c);
        i += 1;
    }
    proof {
        assert(stmts_model(out@) =~= rewrite_stmts_model(cfg@, stmts_model(ss@)));
    }
    out
}

/// Rewrite one statement.
fn rewrite_stmt(cfg: &Rewriter, s: &Stmt) -> (r: Stmt)
    ensures
        r@ == rewrite_stmt_model(cfg@, s@),
    decreases *s,
{
    match s {
        Stmt::Let { pattern, ty, init } => {
            let ty2 = match ty {
                Some(t) => Some(t.clone()),
                None => None,
            };
            let init2 = match init {
                Some(e) => Some(rewrite_expr(cfg, e)),
                None => None,
            };
            let r = Stmt::Let { pattern: pattern.clone(), ty: ty2, init: init2 };
            proof {
                assert(r@ =~~= rewrite_stmt_model(cfg@, s@));
            }
            r
        }
        Stmt::Expr { expr, semicolon } => {
            let r = Stmt::Expr { expr: rewrite_expr(cfg, expr), semicolon: *semicolon };
            proof {
                assert(r@ =~~= rewrite_stmt_model(cfg@, s@));
            }
            r
        }
        Stmt::Item(it) => Stmt::Item(Box::new(rewrite_item(cfg, it))),
        Stmt::Verbatim(text) => Stmt::Verbatim(text.clone()),
    }
}

/// Rewrite the content of a call-like invocation, honouring the
/// `visit_macros` flag.
fn rewrite_macro_call(cfg: &Rewriter, m: &MacroCall) -> (r: MacroCall)
    ensures
        r@ == (MacroCallModel {
            path: m@.path,
            delimiter: m@.delimiter,
            body: rewrite_macro_body_model(cfg@, m@.body),
        }),
    decreases *m,
{
    if !cfg.parameters.visit_macros {
        let r = clone_macro_call(m);
        return r;
    }
    let body = match &m.body {
        MacroBody::Unparsed(text) => MacroBody::Unparsed(text.clone()),
        MacroBody::Single(e) => MacroBody::Single(Box::new(rewrite_expr(cfg, e))),
        MacroBody::CommaList { elems, trailing_comma } => MacroBody::CommaList {
            elems: rewrite_exprs(cfg, elems),
            trailing_comma: *trailing_comma,
        },
        MacroBody::SemiPair { value, count } => MacroBody::SemiPair {
            value: Box::new(rewrite_expr(cfg, value)),
            count: Box::new(rewrite_expr(cfg, count)),
        },
    };
    let r = MacroCall { path: m.path.duplicate(), delimiter: m.delimiter, body };
    proof {
        assert(r@ =~~= (MacroCallModel {
            path: m@.path,
            delimiter: m@.delimiter,
            body: rewrite_macro_body_model(cfg@, m@.body),
        }));
    }
    r
}

/// Rewrite one trait or implementation member.
fn rewrite_member(cfg: &Rewriter, m: &Member) -> (r: Member)
    ensures
        r@ == rewrite_member_model(cfg@, m@),
    decreases *m,
{
    match m {
        Member::Fn { signature, body } => {
            let r = Member::Fn {
                signature: signature.clone(),
                body: Block { stmts: rewrite_stmts(cfg, &body.stmts) },
            };
            proof {
                assert(r@ =~~= rewrite_member_model(cfg@, m@));
            }
            r
        }
        Member::FnDecl { signature } => Member::FnDecl { signature: signature.clone() },
        Member::Const { header, value } => {
            let r = Member::Const { header: header.clone(), value: rewrite_expr(cfg, value) };
            proof {
                assert(r@ =~~= rewrite_member_model(cfg@, m@));
            }
            r
        }
        Member::Verbatim(text) => Member::Verbatim(text.clone()),
    }
}

/// Rewrite a member list.
#[verifier::loop_isolation(false)]
fn rewrite_members(cfg: &Rewriter, ms: &Vec<Member>) -> (r: Vec<Member>)
    ensures
        members_model(r@) == rewrite_members_model(cfg@, members_model(ms@)),
    decreases *ms,
{
    let mut out: Vec<Member> = Vec::new();
    let mut i: usize = 0;
    while i < ms.len()
        invariant
            i <= ms@.len(),
            out@.len() == i as nat,
            forall|j: int| 0 <= j < i ==> out@[j]@ == rewrite_member_model(cfg@, ms@[j]@),
        decreases ms@.len() - i,
    {
        proof {
            assert(decreases_to!(*ms => ms@));
            assert(decreases_to!(ms@ => ms@[i as int]));
        }
        let c = rewrite_member(cfg, &ms[i]);
        out.push(c);
        i += 1;
    }
    proof {
        assert(members_model(out@) =~= rewrite_members_model(cfg@, members_model(ms@)));
    }
    out
}

/// Rewrite a whole declaration: every literal of a kind the rewriter has
/// a template for, in every body, initializer and recognized call-like
/// content, becomes the template with the placeholder replaced by that
/// literal; everything else keeps its shape.
pub fn rewrite_item(cfg: &Rewriter, it: &Item) -> (r: Item)
    ensures
        r@ == rewrite_item_model(cfg@, it@),
    decreases *it,
{
    let r = match it {
        Item::Fn { signature, body } => Item::Fn {
            signature: signature.clone(),
            body: Block { stmts: rewrite_stmts(cfg, &body.stmts) },
        },
        Item::Trait { header, members } => Item::Trait {
            header: header.clone(),
            members: rewrite_members(cfg, members),
        },
        Item::Impl { header, members } => Item::Impl {
            header: header.clone(),
            members: rewrite_members(cfg, members),
        },
    };
    proof {
        assert(r@ =~~= rewrite_item_model(cfg@, it@));
    }
    r
}

} // verus!
