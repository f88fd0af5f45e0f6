//! The placeholder substitution engine.
//!
//! A replacement template is an ordinary expression in which every path
//! reference whose trailing segment is the reserved identifier `literal`
//! acts as a hole. Substitution walks the template depth first and builds
//! a fresh expression in which every such hole holds its own copy of the
//! given literal; the template itself is never changed. A matching path
//! is a terminal rewrite: nothing inside the substituted literal is
//! looked at again. The matching goes by the identifier's name alone, so
//! a symbol that happens to be called `literal` in the surrounding code
//! cannot be told apart from the placeholder.
//!
//! The content of a call-like invocation inside the template is kept as
//! it stands: such content is not an ordinary child expression, and the
//! engine does not look into it.

use vstd::prelude::*;

use crate::ast::{
    arm_model, arms_model, clone_macro_call, expr_model, exprs_model, field_value_model,
    fields_model, members_model, stmts_model, Block, BlockModel, Expr, ExprModel, FieldValue,
    FieldValueModel, Item, ItemModel, MatchArm, MatchArmModel, Member, MemberModel, Path, PathModel, Stmt,
    StmtModel,
};
use crate::literal::{Literal, LiteralModel};

verus! {

/// The reserved placeholder identifier.
pub open spec fn placeholder() -> Seq<char> {
    "literal"@
}

/// Whether a path stands for the placeholder: its trailing segment is
/// the reserved identifier.
pub open spec fn path_is_placeholder(p: PathModel) -> bool {
    p.segments.len() > 0 && p.segments.last() == placeholder()
}

/// The template with every placeholder hole filled by the literal.
pub open spec fn subst_expr_model(t: ExprModel, lit: LiteralModel) -> ExprModel
    decreases t,
{
    match t {
        ExprModel::Lit(_) => t,
        ExprModel::Path(p) => if path_is_placeholder(p) {
            ExprModel::Lit(lit)
        } else {
            t
        },
        ExprModel::Call { func, args } => ExprModel::Call {
            func: Box::new(subst_expr_model(*func, lit)),
            args: subst_exprs_model(args, lit),
        },
        ExprModel::MethodCall { receiver, method, turbofish, args } => ExprModel::MethodCall {
            receiver: Box::new(subst_expr_model(*receiver, lit)),
            method,
            turbofish,
            args: subst_exprs_model(args, lit),
        },
        ExprModel::Binary { op, left, right } => ExprModel::Binary {
            op,
            left: Box::new(subst_expr_model(*left, lit)),
            right: Box::new(subst_expr_model(*right, lit)),
        },
        ExprModel::Unary { op, operand } => ExprModel::Unary {
            op,
            operand: Box::new(subst_expr_model(*operand, lit)),
        },
        ExprModel::Cast { operand, ty } => ExprModel::Cast {
            operand: Box::new(subst_expr_model(*operand, lit)),
            ty,
        },
        ExprModel::Paren(inner) => ExprModel::Paren(Box::new(subst_expr_model(*inner, lit))),
        ExprModel::Array(elems) => ExprModel::Array(subst_exprs_model(elems, lit)),
        ExprModel::Repeat { value, len } => ExprModel::Repeat {
            value: Box::new(subst_expr_model(*value, lit)),
            len: Box::new(subst_expr_model(*len, lit)),
        },
        ExprModel::Tuple(elems) => ExprModel::Tuple(subst_exprs_model(elems, lit)),
        ExprModel::Index { base, index } => ExprModel::Index {
            base: Box::new(subst_expr_model(*base, lit)),
            index: Box::new(subst_expr_model(*index, lit)),
        },
        ExprModel::Field { base, member } => ExprModel::Field {
            base: Box::new(subst_expr_model(*base, lit)),
            member,
        },
        ExprModel::Assign { left, right } => ExprModel::Assign {
            left: Box::new(subst_expr_model(*left, lit)),
            right: Box::new(subst_expr_model(*right, lit)),
        },
        ExprModel::Reference { mutable, operand } => ExprModel::Reference {
            mutable,
            operand: Box::new(subst_expr_model(*operand, lit)),
        },
        ExprModel::Closure { capture, params, body } => ExprModel::Closure {
            capture,
            params,
            body: Box::new(subst_expr_model(*body, lit)),
        },
        ExprModel::If { cond, then_branch, else_branch } => ExprModel::If {
            cond: Box::new(subst_expr_model(*cond, lit)),
            then_branch: BlockModel { stmts: subst_stmts_model(then_branch.stmts, lit) },
            else_branch: match else_branch {
                Some(e) => Some(Box::new(subst_expr_model(*e, lit))),
                None => None,
            },
        },
        ExprModel::Match { scrutinee, arms } => ExprModel::Match {
            scrutinee: Box::new(subst_expr_model(*scrutinee, lit)),
            arms: subst_arms_model(arms, lit),
        },
        ExprModel::While { cond, body } => ExprModel::While {
            cond: Box::new(subst_expr_model(*cond, lit)),
            body: BlockModel { stmts: subst_stmts_model(body.stmts, lit) },
        },
        ExprModel::ForLoop { pattern, iterator, body } => ExprModel::ForLoop {
            pattern,
            iterator: Box::new(subst_expr_model(*iterator, lit)),
            body: BlockModel { stmts: subst_stmts_model(body.stmts, lit) },
        },
        ExprModel::Loop { body } => ExprModel::Loop {
            body: BlockModel { stmts: subst_stmts_model(body.stmts, lit) },
        },
        ExprModel::Struct { path, fields, rest } => ExprModel::Struct {
            path,
            fields: subst_fields_model(fields, lit),
            rest: match rest {
                Some(e) => Some(Box::new(subst_expr_model(*e, lit))),
                None => None,
            },
        },
        ExprModel::Range { start, limits, end } => ExprModel::Range {
            start: match start {
                Some(e) => Some(Box::new(subst_expr_model(*e, lit))),
                None => None,
            },
            limits,
            end: match end {
                Some(e) => Some(Box::new(subst_expr_model(*e, lit))),
                None => None,
            },
        },
        ExprModel::Block(b) => ExprModel::Block(
            BlockModel { stmts: subst_stmts_model(b.stmts, lit) },
        ),
        ExprModel::Return(opt) => ExprModel::Return(
            match opt {
                Some(inner) => Some(Box::new(subst_expr_model(*inner, lit))),
                None => None,
            },
        ),
        ExprModel::Macro(_) => t,
        ExprModel::Verbatim(_) => t,
    }
}

/// Substitution over an expression list, element by element.
pub open spec fn subst_exprs_model(ts: Seq<ExprModel>, lit: LiteralModel) -> Seq<ExprModel>
    decreases ts,
{
    Seq::new(
        ts.len(),
        |i: int|
            if 0 <= i < ts.len() {
                subst_expr_model(ts[i], lit)
            } else {
                ExprModel::Verbatim(Seq::empty())
            },
    )
}

/// Substitution over one match arm: its guard and its body.
pub open spec fn subst_arm_model(a: MatchArmModel, lit: LiteralModel) -> MatchArmModel
    decreases a,
{
    MatchArmModel {
        pattern: a.pattern,
        guard: match a.guard {
            Some(g) => Some(subst_expr_model(g, lit)),
            None => None,
        },
        body: subst_expr_model(a.body, lit),
    }
}

/// Substitution over an arm list, element by element.
pub open spec fn subst_arms_model(arms: Seq<MatchArmModel>, lit: LiteralModel) -> Seq<
    MatchArmModel,
>
    decreases arms,
{
    Seq::new(
        arms.len(),
        |i: int|
            if 0 <= i < arms.len() {
                subst_arm_model(arms[i], lit)
            } else {
                MatchArmModel {
                    pattern: Seq::empty(),
                    guard: None,
                    body: ExprModel::Verbatim(Seq::empty()),
                }
            },
    )
}

/// Substitution over one struct-literal field: its value.
pub open spec fn subst_field_model(f: FieldValueModel, lit: LiteralModel) -> FieldValueModel
    decreases f,
{
    FieldValueModel { member: f.member, value: subst_expr_model(f.value, lit) }
}

/// Substitution over a field list, element by element.
pub open spec fn subst_fields_model(fields: Seq<FieldValueModel>, lit: LiteralModel) -> Seq<
    FieldValueModel,
>
    decreases fields,
{
    Seq::new(
        fields.len(),
        |i: int|
            if 0 <= i < fields.len() {
                subst_field_model(fields[i], lit)
            } else {
                FieldValueModel { member: Seq::empty(), value: ExprModel::Verbatim(Seq::empty()) }
            },
    )
}

/// Substitution over a nested declaration.
pub open spec fn subst_item_model(it: ItemModel, lit: LiteralModel) -> ItemModel
    decreases it,
{
    match it {
        ItemModel::Fn { signature, body } => ItemModel::Fn {
            signature,
            body: BlockModel { stmts: subst_stmts_model(body.stmts, lit) },
        },
        ItemModel::Trait { header, members } => ItemModel::Trait {
            header,
            members: subst_members_model(members, lit),
        },
        ItemModel::Impl { header, members } => ItemModel::Impl {
            header,
            members: subst_members_model(members, lit),
        },
    }
}

/// Substitution over a trait or implementation member.
pub open spec fn subst_member_model(m: MemberModel, lit: LiteralModel) -> MemberModel
    decreases m,
{
    match m {
        MemberModel::Fn { signature, body } => MemberModel::Fn {
            signature,
            body: BlockModel { stmts: subst_stmts_model(body.stmts, lit) },
        },
        MemberModel::FnDecl { .. } => m,
        MemberModel::Const { header, value } => MemberModel::Const {
            header,
            value: subst_expr_model(value, lit),
        },
        MemberModel::Verbatim(_) => m,
    }
}

/// Substitution over a member list, element by element.
pub open spec fn subst_members_model(ms: Seq<MemberModel>, lit: LiteralModel) -> Seq<MemberModel>
    decreases ms,
{
    Seq::new(
        ms.len(),
        |i: int|
            if 0 <= i < ms.len() {
                subst_member_model(ms[i], lit)
            } else {
                MemberModel::Verbatim(Seq::empty())
            },
    )
}

/// Substitution over a statement.
pub open spec fn subst_stmt_model(s: StmtModel, lit: LiteralModel) -> StmtModel
    decreases s,
{
    match s {
        StmtModel::Let { pattern, ty, init } => StmtModel::Let {
            pattern,
            ty,
            init: match init {
                Some(e) => Some(subst_expr_model(e, lit)),
                None => None,
            },
        },
        StmtModel::Expr { expr, semicolon } => StmtModel::Expr {
            expr: subst_expr_model(expr, lit),
            semicolon,
        },
        StmtModel::Item(it) => StmtModel::Item(Box::new(subst_item_model(*it, lit))),
        StmtModel::Verbatim(_) => s,
    }
}

/// Substitution over a statement list, element by element.
pub open spec fn subst_stmts_model(ss: Seq<StmtModel>, lit: LiteralModel) -> Seq<StmtModel>
    decreases ss,
{
    Seq::new(
        ss.len(),
        |i: int|
            if 0 <= i < ss.len() {
                subst_stmt_model(ss[i], lit)
            } else {
                StmtModel::Verbatim(Seq::empty())
            },
    )
}

/// Whether this path stands for the placeholder.
pub fn path_matches_placeholder(p: &Path) -> (r: bool)
    ensures
        r == path_is_placeholder(p@),
{
    if p.segments.len() == 0 {
        return false;
    }
    let last = &p.segments[p.segments.len() - 1];
    let name: String = "literal".to_owned();
    let r = *last == name;
    proof {
        assert(p@.segments.last() == p.segments@.last()@);
    }
    r
}

/// Substitution over an expression list.
#[verifier::loop_isolation(false)]
fn substitute_exprs(ts: &Vec<Expr>, lit: &Literal) -> (r: Vec<Expr>)
    ensures
        exprs_model(r@) == subst_exprs_model(exprs_model(ts@), lit@),
    decreases *ts,
{
    let mut out: Vec<Expr> = Vec::new();
    let mut i: usize = 0;
    while i < ts.len()
        invariant
            i <= ts@.len(),
            out@.len() == i as nat,
            forall|j: int| 0 <= j < i ==> out@[j]@ == subst_expr_model(ts@[j]@, lit@),
        decreases ts@.len() - i,
    {
        proof {
            assert(decreases_to!(*ts => ts@));
            assert(decreases_to!(ts@ => ts@[i as int]));
        }
        let c = substitute_expr(&ts[i], lit);
        out.push(c);
        i += 1;
    }
    proof {
        assert(exprs_model(out@) =~= subst_exprs_model(exprs_model(ts@), lit@));
    }
    out
}

/// Substitution over a statement list.
#[verifier::loop_isolation(false)]
fn substitute_stmts(ss: &Vec<Stmt>, lit: &Literal) -> (r: Vec<Stmt>)
    ensures
        stmts_model(r@) == subst_stmts_model(stmts_model(ss@), lit@),
    decreases *ss,
{
    let mut out: Vec<Stmt> = Vec::new();
    let mut i: usize = 0;
    while i < ss.len()
        invariant
            i <= ss@.len(),
            out@.len() == i as nat,
            forall|j: int| 0 <= j < i ==> out@[j]@ == subst_stmt_model(ss@[j]@, lit@),
        decreases ss@.len() - i,
    {
        proof {
            assert(decreases_to!(*ss => ss@));
            assert(decreases_to!(ss@ => ss@[i as int]));
        }
        let c = substitute_stmt(&ss[i], lit);
        out.push(c);
        i += 1;
    }
    proof {
        assert(stmts_model(out@) =~= subst_stmts_model(stmts_model(ss@), lit@));
    }
    out
}

/// Substitution over a statement.
fn substitute_stmt(s: &Stmt, lit: &Literal) -> (r: Stmt)
    ensures
        r@ == subst_stmt_model(s@, lit@),
    decreases *s,
{
    match s {
        Stmt::Let { pattern, ty, init } => {
            let ty2 = match ty {
                Some(t) => Some(t.clone()),
                None => None,
            };
            let init2 = match init {
                Some(e) => Some(substitute_expr(e, lit)),
                None => None,
            };
            let r = Stmt::Let { pattern: pattern.clone(), ty: ty2, init: init2 };
            proof {
                assert(r@ =~= subst_stmt_model(s@, lit@));
            }
            r
        }
        Stmt::Expr { expr, semicolon } => {
            let r = Stmt::Expr { expr: substitute_expr(expr, lit), semicolon: *semicolon };
            proof {
                assert(r@ =~= subst_stmt_model(s@, lit@));
            }
            r
        }
        Stmt::Item(it) => Stmt::Item(Box::new(substitute_item(it, lit))),
        Stmt::Verbatim(text) => Stmt::Verbatim(text.clone()),
    }
}

/// Substitution over an arm list.
#[verifier::loop_isolation(false)]
fn substitute_arms(arms: &Vec<MatchArm>, lit: &Literal) -> (r: Vec<MatchArm>)
    ensures
        arms_model(r@) == subst_arms_model(arms_model(arms@), lit@),
    decreases *arms,
{
    let mut out: Vec<MatchArm> = Vec::new();
    let mut i: usize = 0;
    while i < arms.len()
        invariant
            i <= arms@.len(),
            out@.len() == i as nat,
            forall|j: int| 0 <= j < i ==> arm_model(out@[j]) == subst_arm_model(
                arm_model(arms@[j]),
                lit@,
            ),
        decreases arms@.len() - i,
    {
        proof {
            assert(decreases_to!(*arms => arms@));
            assert(decreases_to!(arms@ => arms@[i as int]));
        }
        let a = &arms[i];
        let c = MatchArm {
            pattern: a.pattern.clone(),
            guard: match &a.guard {
                Some(g) => Some(substitute_expr(g, lit)),
                None => None,
            },
            body: substitute_expr(&a.body, lit),
        };
        proof {
            assert(arm_model(c) =~= subst_arm_model(arm_model(arms@[i as int]), lit@));
        }
        out.push(c);
        i += 1;
    }
    proof {
        assert(arms_model(out@) =~= subst_arms_model(arms_model(arms@), lit@));
    }
    out
}

/// Substitution over a field list.
#[verifier::loop_isolation(false)]
fn substitute_fields(fields: &Vec<FieldValue>, lit: &Literal) -> (r: Vec<FieldValue>)
    ensures
        fields_model(r@) == subst_fields_model(fields_model(fields@), lit@),
    decreases *fields,
{
    let mut out: Vec<FieldValue> = Vec::new();
    let mut i: usize = 0;
    while i < fields.len()
        invariant
            i <= fields@.len(),
            out@.len() == i as nat,
            forall|j: int| 0 <= j < i ==> field_value_model(out@[j]) == subst_field_model(
                field_value_model(fields@[j]),
                lit@,
            ),
        decreases fields@.len() - i,
    {
        proof {
            assert(decreases_to!(*fields => fields@));
            assert(decreases_to!(fields@ => fields@[i as int]));
        }
        let f = &fields[i];
        let c = FieldValue { member: f.member.clone(), value: substitute_expr(&f.value, lit) };
        proof {
            assert(field_value_model(c) =~= subst_field_model(
                field_value_model(fields@[i as int]),
                lit@,
            ));
        }
        out.push(c);
        i += 1;
    }
    proof {
        assert(fields_model(out@) =~= subst_fields_model(fields_model(fields@), lit@));
    }
    out
}

/// Substitution over a nested declaration.
fn substitute_item(it: &Item, lit: &Literal) -> (r: Item)
    ensures
        r@ == subst_item_model(it@, lit@),
    decreases *it,
{
    let r = match it {
        Item::Fn { signature, body } => Item::Fn {
            signature: signature.clone(),
            body: Block { stmts: substitute_stmts(&body.stmts, lit) },
        },
        Item::Trait { header, members } => Item::Trait {
            header: header.clone(),
            members: substitute_members(members, lit),
        },
        Item::Impl { header, members } => Item::Impl {
            header: header.clone(),
            members: substitute_members(members, lit),
        },
    };
    proof {
        assert(r@ =~~= subst_item_model(it@, lit@));
    }
    r
}

/// Substitution over a trait or implementation member.
fn substitute_member(m: &Member, lit: &Literal) -> (r: Member)
    ensures
        r@ == subst_member_model(m@, lit@),
    decreases *m,
{
    let r = match m {
        Member::Fn { signature, body } => Member::Fn {
            signature: signature.clone(),
            body: Block { stmts: substitute_stmts(&body.stmts, lit) },
        },
        Member::FnDecl { signature } => Member::FnDecl { signature: signature.clone() },
        Member::Const { header, value } => Member::Const {
            header: header.clone(),
            value: substitute_expr(value, lit),
        },
        Member::Verbatim(text) => Member::Verbatim(text.clone()),
    };
    proof {
        assert(r@ =~~= subst_member_model(m@, lit@));
    }
    r
}

/// Substitution over a member list.
#[verifier::loop_isolation(false)]
fn substitute_members(ms: &Vec<Member>, lit: &Literal) -> (r: Vec<Member>)
    ensures
        members_model(r@) == subst_members_model(members_model(ms@), lit@),
    decreases *ms,
{
    let mut out: Vec<Member> = Vec::new();
    let mut i: usize = 0;
    while i < ms.len()
        invariant
            i <= ms@.len(),
            out@.len() == i as nat,
            forall|j: int| 0 <= j < i ==> out@[j]@ == subst_member_model(ms@[j]@, lit@),
        decreases ms@.len() - i,
    {
        proof {
            assert(decreases_to!(*ms => ms@));
            assert(decreases_to!(ms@ => ms@[i as int]));
        }
        let c = substitute_member(&ms[i], lit);
        out.push(c);
        i += 1;
    }
    proof {
        assert(members_model(out@) =~= subst_members_model(members_model(ms@), lit@));
    }
    out
}

/// Build the concrete replacement for one literal: a fresh copy of the
/// template in which every placeholder hole holds a copy of the literal.
/// The template is left as it was and can be used again; each literal
/// substituted through it gets its own independent copy.
#[verifier::rlimit(60)]
pub fn substitute_expr(template: &Expr, lit: &Literal) -> (r: Expr)
    ensures
        r@ == subst_expr_model(template@, lit@),
    decreases *template,
{
    let r = match template {
        Expr::Lit(l) => Expr::Lit(l.duplicate()),
        Expr::Path(p) => {
            if path_matches_placeholder(p) {
                Expr::Lit(lit.duplicate())
            } else {
                Expr::Path(p.duplicate())
            }
        }
        Expr::Call { func, args } => Expr::Call {
            func: Box::new(substitute_expr(func, lit)),
            args: substitute_exprs(args, lit),
        },
        Expr::MethodCall { receiver, method, turbofish, args } => Expr::MethodCall {
            receiver: Box::new(substitute_expr(receiver, lit)),
            method: method.clone(),
            turbofish: match turbofish {
                Some(t) => Some(t.clone()),
                None => None,
            },
            args: substitute_exprs(args, lit),
        },
        Expr::Binary { op, left, right } => Expr::Binary {
            op: op.clone(),
            left: Box::new(substitute_expr(left, lit)),
            right: Box::new(substitute_expr(right, lit)),
        },
        Expr::Unary { op, operand } => Expr::Unary {
            op: op.clone(),
            operand: Box::new(substitute_expr(operand, lit)),
        },
        Expr::Cast { operand, ty } => Expr::Cast {
            operand: Box::new(substitute_expr(operand, lit)),
            ty: ty.clone(),
        },
        Expr::Paren(inner) => Expr::Paren(Box::new(substitute_expr(inner, lit))),
        Expr::Array(elems) => Expr::Array(substitute_exprs(elems, lit)),
        Expr::Repeat { value, len } => Expr::Repeat {
            value: Box::new(substitute_expr(value, lit)),
            len: Box::new(substitute_expr(len, lit)),
        },
        Expr::Tuple(elems) => Expr::Tuple(substitute_exprs(elems, lit)),
        Expr::Index { base, index } => Expr::Index {
            base: Box::new(substitute_expr(base, lit)),
            index: Box::new(substitute_expr(index, lit)),
        },
        Expr::Field { base, member } => Expr::Field {
            base: Box::new(substitute_expr(base, lit)),
            member: member.clone(),
        },
        Expr::Assign { left, right } => Expr::Assign {
            left: Box::new(substitute_expr(left, lit)),
            right: Box::new(substitute_expr(right, lit)),
        },
        Expr::Reference { mutable, operand } => Expr::Reference {
            mutable: *mutable,
            operand: Box::new(substitute_expr(operand, lit)),
        },
        Expr::Closure { capture, params, body } => Expr::Closure {
            capture: *capture,
            params: params.clone(),
            body: Box::new(substitute_expr(body, lit)),
        },
        Expr::If { cond, then_branch, else_branch } => Expr::If {
            cond: Box::new(substitute_expr(cond, lit)),
            then_branch: Block { stmts: substitute_stmts(&then_branch.stmts, lit) },
            else_branch: match else_branch {
                Some(e) => Some(Box::new(substitute_expr(e, lit))),
                None => None,
            },
        },
        Expr::Match { scrutinee, arms } => Expr::Match {
            scrutinee: Box::new(substitute_expr(scrutinee, lit)),
            arms: substitute_arms(arms, lit),
        },
        Expr::While { cond, body } => Expr::While {
            cond: Box::new(substitute_expr(cond, lit)),
            body: Block { stmts: substitute_stmts(&body.stmts, lit) },
        },
        Expr::ForLoop { pattern, iterator, body } => Expr::ForLoop {
            pattern: pattern.clone(),
            iterator: Box::new(substitute_expr(iterator, lit)),
            body: Block { stmts: substitute_stmts(&body.stmts, lit) },
        },
        Expr::Loop { body } => Expr::Loop {
            body: Block { stmts: substitute_stmts(&body.stmts, lit) },
        },
        Expr::Struct { path, fields, rest } => Expr::Struct {
            path: path.duplicate(),
            fields: substitute_fields(fields, lit),
            rest: match rest {
                Some(e) => Some(Box::new(substitute_expr(e, lit))),
                None => None,
            },
        },
        Expr::Range { start, limits, end } => Expr::Range {
            start: match start {
                Some(e) => Some(Box::new(substitute_expr(e, lit))),
                None => None,
            },
            limits: limits.clone(),
            end: match end {
                Some(e) => Some(Box::new(substitute_expr(e, lit))),
                None => None,
            },
        },
        Expr::Block(b) => Expr::Block(Block { stmts: substitute_stmts(&b.stmts, lit) }),
        Expr::Return(opt) => Expr::Return(
            match opt {
                Some(inner) => Some(Box::new(substitute_expr(inner, lit))),
                None => None,
            },
        ),
        Expr::Macro(m) => Expr::Macro(clone_macro_call(m)),
        Expr::Verbatim(text) => Expr::Verbatim(text.clone()),
    };
    proof {
        reveal_with_fuel(expr_model, 3);
        assert(r@ =~~= subst_expr_model(template@, lit@));
    }
    r
}

} // verus!
