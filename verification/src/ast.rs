//! The syntax tree that the rewriter walks.
//!
//! The tree is a closed set of expression, statement and item forms. Every
//! node owns its children outright, so a rewrite can replace a child
//! wholesale by building a new subtree. Constructs outside this set are
//! carried through as verbatim token text and are never looked into.
//!
//! A call-like invocation (`vec![..]`, `assert!(..)`) does not carry
//! ordinary child expressions: its content arrives either already read
//! under one of the recognized argument grammars — a single expression, a
//! comma-separated list, or a semicolon-separated value-and-count pair —
//! or as verbatim token text when none of those grammars fits.
//!
//! Each type has a mathematical image (its model) made of `Seq` values,
//! and every executable operation on the tree is specified against those
//! models.

use vstd::prelude::*;

use crate::literal::{Literal, LiteralModel};

verus! {

/// A path reference such as `T::from` or `literal`.
#[derive(Clone, Debug, PartialEq, Eq)]
pub struct Path {
    pub leading_colon: bool,
    pub segments: Vec<String>,
}

/// Mathematical image of a `Path`.
#[verifier::ext_equal]
pub ghost struct PathModel {
    pub leading_colon: bool,
    pub segments: Seq<Seq<char>>,
}

/// The bracket style of a call-like invocation.
#[derive(Clone, Copy, Debug, PartialEq, Eq, Structural)]
pub enum MacroDelimiter {
    Paren,
    Bracket,
    Brace,
}

/// The content of a call-like invocation, under whichever of the
/// recognized argument grammars fits it, or as verbatim token text.
#[derive(Debug, PartialEq, Eq)]
pub enum MacroBody {
    /// Content that none of the recognized grammars fits; never looked into.
    Unparsed(String),
    /// A single expression, e.g. `assert!(a == b)`.
    Single(Box<Expr>),
    /// A comma-separated, non-empty expression list, e.g. `vec![1, 2]`.
    CommaList { elems: Vec<Expr>, trailing_comma: bool },
    /// A value-and-repeat-count pair, e.g. `vec![0; 4]`.
    SemiPair { value: Box<Expr>, count: Box<Expr> },
}

/// A call-like invocation: path, bracket style and content.
#[derive(Debug, PartialEq, Eq)]
pub struct MacroCall {
    pub path: Path,
    pub delimiter: MacroDelimiter,
    pub body: MacroBody,
}

/// One arm of a `match`; the pattern is kept as token text.
#[derive(Debug, PartialEq, Eq)]
pub struct MatchArm {
    pub pattern: String,
    pub guard: Option<Expr>,
    pub body: Expr,
}

/// One field of a struct literal; the member name is kept as token text.
#[derive(Debug, PartialEq, Eq)]
pub struct FieldValue {
    pub member: String,
    pub value: Expr,
}

/// One expression node.
#[derive(Debug, PartialEq, Eq)]
pub enum Expr {
    /// A literal token.
    Lit(Literal),
    /// A path reference; a bare identifier is a one-segment path.
    Path(Path),
    /// A function call `f(a, b)`.
    Call { func: Box<Expr>, args: Vec<Expr> },
    /// A method call `r.m(a, b)`, with the turbofish kept as token text.
    MethodCall { receiver: Box<Expr>, method: String, turbofish: Option<String>, args: Vec<Expr> },
    /// A binary operation; the operator is kept as its token text.
    Binary { op: String, left: Box<Expr>, right: Box<Expr> },
    /// A unary operation such as `-x` or `!x`.
    Unary { op: String, operand: Box<Expr> },
    /// A cast `x as T`; the target type is kept as token text.
    Cast { operand: Box<Expr>, ty: String },
    /// A parenthesized expression.
    Paren(Box<Expr>),
    /// An array literal `[a, b, c]`.
    Array(Vec<Expr>),
    /// An array repeat `[v; n]`.
    Repeat { value: Box<Expr>, len: Box<Expr> },
    /// A tuple `(a, b)`; the empty tuple `()` has no elements.
    Tuple(Vec<Expr>),
    /// An indexing `a[i]`.
    Index { base: Box<Expr>, index: Box<Expr> },
    /// A field access `a.b`; the member is kept as token text.
    Field { base: Box<Expr>, member: String },
    /// An assignment `a = b`.
    Assign { left: Box<Expr>, right: Box<Expr> },
    /// A reference `&x` or `&mut x`.
    Reference { mutable: bool, operand: Box<Expr> },
    /// A closure, `move` or not; its parameter list is kept as token text.
    Closure { capture: bool, params: String, body: Box<Expr> },
    /// An `if`; the else branch, where there is one, is a block or a
    /// further `if`.
    If { cond: Box<Expr>, then_branch: Block, else_branch: Option<Box<Expr>> },
    /// A `match`; arm patterns are kept as token text.
    Match { scrutinee: Box<Expr>, arms: Vec<MatchArm> },
    /// A `while` loop.
    While { cond: Box<Expr>, body: Block },
    /// A `for` loop; the binding pattern is kept as token text.
    ForLoop { pattern: String, iterator: Box<Expr>, body: Block },
    /// A plain `loop`.
    Loop { body: Block },
    /// A struct literal `S { a: 1, ..rest }`.
    Struct { path: Path, fields: Vec<FieldValue>, rest: Option<Box<Expr>> },
    /// A range; the operator (`..` or `..=`) is kept as its token text.
    Range { start: Option<Box<Expr>>, limits: String, end: Option<Box<Expr>> },
    /// A block expression `{ ... }`.
    Block(Block),
    /// A `return`, with or without a value.
    Return(Option<Box<Expr>>),
    /// A call-like invocation.
    Macro(MacroCall),
    /// A construct outside the modeled forms, as token text; a leaf.
    Verbatim(String),
}

/// One statement of a block.
#[derive(Debug, PartialEq, Eq)]
pub enum Stmt {
    /// A `let` binding; pattern and type annotation are kept as token text.
    Let { pattern: String, ty: Option<String>, init: Option<Expr> },
    /// An expression statement, with or without a closing semicolon.
    Expr { expr: Expr, semicolon: bool },
    /// A nested declaration in statement position.
    Item(Box<Item>),
    /// A statement outside the modeled forms, as token text; a leaf.
    Verbatim(String),
}

/// A brace-delimited sequence of statements.
#[derive(Debug, PartialEq, Eq)]
pub struct Block {
    pub stmts: Vec<Stmt>,
}

/// One member of a trait or an implementation block.
#[derive(Debug, PartialEq, Eq)]
pub enum Member {
    /// A method with a body; the signature is kept as token text.
    Fn { signature: String, body: Block },
    /// A method signature without a body (a trait requirement).
    FnDecl { signature: String },
    /// An associated constant with its value expression.
    Const { header: String, value: Expr },
    /// A member outside the modeled forms, as token text; a leaf.
    Verbatim(String),
}

/// A top-level declaration the rewrite applies to.
#[derive(Debug, PartialEq, Eq)]
pub enum Item {
    /// A free function; the signature is kept as token text.
    Fn { signature: String, body: Block },
    /// A trait declaration.
    Trait { header: String, members: Vec<Member> },
    /// An inherent or trait implementation block.
    Impl { header: String, members: Vec<Member> },
}

/// Mathematical image of a `MacroBody`.
#[verifier::ext_equal]
pub ghost enum MacroBodyModel {
    Unparsed(Seq<char>),
    Single(Box<ExprModel>),
    CommaList { elems: Seq<ExprModel>, trailing_comma: bool },
    SemiPair { value: Box<ExprModel>, count: Box<ExprModel> },
}

/// Mathematical image of a `MacroCall`.
#[verifier::ext_equal]
pub ghost struct MacroCallModel {
    pub path: PathModel,
    pub delimiter: MacroDelimiter,
    pub body: MacroBodyModel,
}

/// Mathematical image of a `MatchArm`.
#[verifier::ext_equal]
pub ghost struct MatchArmModel {
    pub pattern: Seq<char>,
    pub guard: Option<ExprModel>,
    pub body: ExprModel,
}

/// Mathematical image of a `FieldValue`.
#[verifier::ext_equal]
pub ghost struct FieldValueModel {
    pub member: Seq<char>,
    pub value: ExprModel,
}

/// Mathematical image of an `Expr`.
#[verifier::ext_equal]
pub ghost enum ExprModel {
    Lit(LiteralModel),
    Path(PathModel),
    Call { func: Box<ExprModel>, args: Seq<ExprModel> },
    MethodCall {
        receiver: Box<ExprModel>,
        method: Seq<char>,
        turbofish: Option<Seq<char>>,
        args: Seq<ExprModel>,
    },
    Binary { op: Seq<char>, left: Box<ExprModel>, right: Box<ExprModel> },
    Unary { op: Seq<char>, operand: Box<ExprModel> },
    Cast { operand: Box<ExprModel>, ty: Seq<char> },
    Paren(Box<ExprModel>),
    Array(Seq<ExprModel>),
    Repeat { value: Box<ExprModel>, len: Box<ExprModel> },
    Tuple(Seq<ExprModel>),
    Index { base: Box<ExprModel>, index: Box<ExprModel> },
    Field { base: Box<ExprModel>, member: Seq<char> },
    Assign { left: Box<ExprModel>, right: Box<ExprModel> },
    Reference { mutable: bool, operand: Box<ExprModel> },
    Closure { capture: bool, params: Seq<char>, body: Box<ExprModel> },
    If { cond: Box<ExprModel>, then_branch: BlockModel, else_branch: Option<Box<ExprModel>> },
    Match { scrutinee: Box<ExprModel>, arms: Seq<MatchArmModel> },
    While { cond: Box<ExprModel>, body: BlockModel },
    ForLoop { pattern: Seq<char>, iterator: Box<ExprModel>, body: BlockModel },
    Loop { body: BlockModel },
    Struct { path: PathModel, fields: Seq<FieldValueModel>, rest: Option<Box<ExprModel>> },
    Range { start: Option<Box<ExprModel>>, limits: Seq<char>, end: Option<Box<ExprModel>> },
    Block(BlockModel),
    Return(Option<Box<ExprModel>>),
    Macro(MacroCallModel),
    Verbatim(Seq<char>),
}

/// Mathematical image of a `Stmt`.
#[verifier::ext_equal]
pub ghost enum StmtModel {
    Let { pattern: Seq<char>, ty: Option<Seq<char>>, init: Option<ExprModel> },
    Expr { expr: ExprModel, semicolon: bool },
    Item(Box<ItemModel>),
    Verbatim(Seq<char>),
}

/// Mathematical image of a `Block`.
#[verifier::ext_equal]
pub ghost struct BlockModel {
    pub stmts: Seq<StmtModel>,
}

/// Mathematical image of a `Member`.
#[verifier::ext_equal]
pub ghost enum MemberModel {
    Fn { signature: Seq<char>, body: BlockModel },
    FnDecl { signature: Seq<char> },
    Const { header: Seq<char>, value: ExprModel },
    Verbatim(Seq<char>),
}

/// Mathematical image of an `Item`.
#[verifier::ext_equal]
pub ghost enum ItemModel {
    Fn { signature: Seq<char>, body: BlockModel },
    Trait { header: Seq<char>, members: Seq<MemberModel> },
    Impl { header: Seq<char>, members: Seq<MemberModel> },
}

/// Image of a segment list.
pub open spec fn segments_model(segments: Seq<String>) -> Seq<Seq<char>> {
    Seq::new(segments.len(), |i: int| segments[i]@)
}

/// Image of a `Path`.
pub open spec fn path_model(p: Path) -> PathModel {
    PathModel { leading_colon: p.leading_colon, segments: segments_model(p.segments@) }
}

/// Image of an `Expr`.
pub open spec fn expr_model(e: Expr) -> ExprModel
    decreases e,
{
    match e {
        Expr::Lit(l) => ExprModel::Lit(l@),
        Expr::Path(p) => ExprModel::Path(path_model(p)),
        Expr::Call { func, args } => ExprModel::Call {
            func: Box::new(expr_model(*func)),
            args: exprs_model(args@),
        },
        Expr::MethodCall { receiver, method, turbofish, args } => ExprModel::MethodCall {
            receiver: Box::new(expr_model(*receiver)),
            method: method@,
            turbofish: match turbofish {
                Some(t) => Some(t@),
                None => None,
            },
            args: exprs_model(args@),
        },
        Expr::Binary { op, left, right } => ExprModel::Binary {
            op: op@,
            left: Box::new(expr_model(*left)),
            right: Box::new(expr_model(*right)),
        },
        Expr::Unary { op, operand } => ExprModel::Unary {
            op: op@,
            operand: Box::new(expr_model(*operand)),
        },
        Expr::Cast { operand, ty } => ExprModel::Cast {
            operand: Box::new(expr_model(*operand)),
            ty: ty@,
        },
        Expr::Paren(inner) => ExprModel::Paren(Box::new(expr_model(*inner))),
        Expr::Array(elems) => ExprModel::Array(exprs_model(elems@)),
        Expr::Repeat { value, len } => ExprModel::Repeat {
            value: Box::new(expr_model(*value)),
            len: Box::new(expr_model(*len)),
        },
        Expr::Tuple(elems) => ExprModel::Tuple(exprs_model(elems@)),
        Expr::Index { base, index } => ExprModel::Index {
            base: Box::new(expr_model(*base)),
            index: Box::new(expr_model(*index)),
        },
        Expr::Field { base, member } => ExprModel::Field {
            base: Box::new(expr_model(*base)),
            member: member@,
        },
        Expr::Assign { left, right } => ExprModel::Assign {
            left: Box::new(expr_model(*left)),
            right: Box::new(expr_model(*right)),
        },
        Expr::Reference { mutable, operand } => ExprModel::Reference {
            mutable,
            operand: Box::new(expr_model(*operand)),
        },
        Expr::Closure { capture, params, body } => ExprModel::Closure {
            capture,
            params: params@,
            body: Box::new(expr_model(*body)),
        },
        Expr::If { cond, then_branch, else_branch } => ExprModel::If {
            cond: Box::new(expr_model(*cond)),
            then_branch: block_model(then_branch),
            else_branch: match else_branch {
                Some(e) => Some(Box::new(expr_model(*e))),
                None => None,
            },
        },
        Expr::Match { scrutinee, arms } => ExprModel::Match {
            scrutinee: Box::new(expr_model(*scrutinee)),
            arms: arms_model(arms@),
        },
        Expr::While { cond, body } => ExprModel::While {
            cond: Box::new(expr_model(*cond)),
            body: block_model(body),
        },
        Expr::ForLoop { pattern, iterator, body } => ExprModel::ForLoop {
            pattern: pattern@,
            iterator: Box::new(expr_model(*iterator)),
            body: block_model(body),
        },
        Expr::Loop { body } => ExprModel::Loop { body: block_model(body) },
        Expr::Struct { path, fields, rest } => ExprModel::Struct {
            path: path_model(path),
            fields: fields_model(fields@),
            rest: match rest {
                Some(e) => Some(Box::new(expr_model(*e))),
                None => None,
            },
        },
        Expr::Range { start, limits, end } => ExprModel::Range {
            start: match start {
                Some(e) => Some(Box::new(expr_model(*e))),
                None => None,
            },
            limits: limits@,
            end: match end {
                Some(e) => Some(Box::new(expr_model(*e))),
                None => None,
            },
        },
        Expr::Block(b) => ExprModel::Block(block_model(b)),
        Expr::Return(opt) => ExprModel::Return(
            match opt {
                Some(inner) => Some(Box::new(expr_model(*inner))),
                None => None,
            },
        ),
        Expr::Macro(m) => ExprModel::Macro(macro_call_model(m)),
        Expr::Verbatim(s) => ExprModel::Verbatim(s@),
    }
}

/// Image of an expression list, element by element.
pub open spec fn exprs_model(es: Seq<Expr>) -> Seq<ExprModel>
    decreases es,
{
    Seq::new(
        es.len(),
        |i: int|
            if 0 <= i < es.len() {
                expr_model(es[i])
            } else {
                ExprModel::Verbatim(Seq::empty())
            },
    )
}

/// Image of a `MatchArm`.
pub open spec fn arm_model(a: MatchArm) -> MatchArmModel
    decreases a,
{
    MatchArmModel {
        pattern: a.pattern@,
        guard: match a.guard {
            Some(g) => Some(expr_model(g)),
            None => None,
        },
        body: expr_model(a.body),
    }
}

/// Image of an arm list, element by element.
pub open spec fn arms_model(arms: Seq<MatchArm>) -> Seq<MatchArmModel>
    decreases arms,
{
    Seq::new(
        arms.len(),
        |i: int|
            if 0 <= i < arms.len() {
                arm_model(arms[i])
            } else {
                MatchArmModel {
                    pattern: Seq::empty(),
                    guard: None,
                    body: ExprModel::Verbatim(Seq::empty()),
                }
            },
    )
}

/// Image of a `FieldValue`.
pub open spec fn field_value_model(f: FieldValue) -> FieldValueModel
    decreases f,
{
    FieldValueModel { member: f.member@, value: expr_model(f.value) }
}

/// Image of a field list, element by element.
pub open spec fn fields_model(fields: Seq<FieldValue>) -> Seq<FieldValueModel>
    decreases fields,
{
    Seq::new(
        fields.len(),
        |i: int|
            if 0 <= i < fields.len() {
                field_value_model(fields[i])
            } else {
                FieldValueModel { member: Seq::empty(), value: ExprModel::Verbatim(Seq::empty()) }
            },
    )
}

/// Image of a `MacroCall`.
pub open spec fn macro_call_model(m: MacroCall) -> MacroCallModel
    decreases m,
{
    MacroCallModel {
        path: path_model(m.path),
        delimiter: m.delimiter,
        body: macro_body_model(m.body),
    }
}

/// Image of a `MacroBody`.
pub open spec fn macro_body_model(b: MacroBody) -> MacroBodyModel
    decreases b,
{
    match b {
        MacroBody::Unparsed(s) => MacroBodyModel::Unparsed(s@),
        MacroBody::Single(e) => MacroBodyModel::Single(Box::new(expr_model(*e))),
        MacroBody::CommaList { elems, trailing_comma } => MacroBodyModel::CommaList {
            elems: exprs_model(elems@),
            trailing_comma,
        },
        MacroBody::SemiPair { value, count } => MacroBodyModel::SemiPair {
            value: Box::new(expr_model(*value)),
            count: Box::new(expr_model(*count)),
        },
    }
}

/// Image of a `Stmt`.
pub open spec fn stmt_model(s: Stmt) -> StmtModel
    decreases s,
{
    match s {
        Stmt::Let { pattern, ty, init } => StmtModel::Let {
            pattern: pattern@,
            ty: match ty {
                Some(t) => Some(t@),
                None => None,
            },
            init: match init {
                Some(e) => Some(expr_model(e)),
                None => None,
            },
        },
        Stmt::Expr { expr, semicolon } => StmtModel::Expr { expr: expr_model(expr), semicolon },
        Stmt::Item(it) => StmtModel::Item(Box::new(item_model(*it))),
        Stmt::Verbatim(s) => StmtModel::Verbatim(s@),
    }
}

/// Image of a statement list, element by element.
pub open spec fn stmts_model(ss: Seq<Stmt>) -> Seq<StmtModel>
    decreases ss,
{
    Seq::new(
        ss.len(),
        |i: int|
            if 0 <= i < ss.len() {
                stmt_model(ss[i])
            } else {
                StmtModel::Verbatim(Seq::empty())
            },
    )
}

/// Image of a `Block`.
pub open spec fn block_model(b: Block) -> BlockModel
    decreases b,
{
    BlockModel { stmts: stmts_model(b.stmts@) }
}

/// Image of a `Member`.
pub open spec fn member_model(m: Member) -> MemberModel
    decreases m,
{
    match m {
        Member::Fn { signature, body } => MemberModel::Fn {
            signature: signature@,
            body: block_model(body),
        },
        Member::FnDecl { signature } => MemberModel::FnDecl { signature: signature@ },
        Member::Const { header, value } => MemberModel::Const {
            header: header@,
            value: expr_model(value),
        },
        Member::Verbatim(s) => MemberModel::Verbatim(s@),
    }
}

/// Image of a member list, element by element.
pub open spec fn members_model(ms: Seq<Member>) -> Seq<MemberModel>
    decreases ms,
{
    Seq::new(
        ms.len(),
        |i: int|
            if 0 <= i < ms.len() {
                member_model(ms[i])
            } else {
                MemberModel::Verbatim(Seq::empty())
            },
    )
}

/// Image of an `Item`.
pub open spec fn item_model(it: Item) -> ItemModel
    decreases it,
{
    match it {
        Item::Fn { signature, body } => ItemModel::Fn {
            signature: signature@,
            body: block_model(body),
        },
        Item::Trait { header, members } => ItemModel::Trait {
            header: header@,
            members: members_model(members@),
        },
        Item::Impl { header, members } => ItemModel::Impl {
            header: header@,
            members: members_model(members@),
        },
    }
}

impl View for Path {
    type V = PathModel;

    open spec fn view(&self) -> PathModel {
        path_model(*self)
    }
}

impl View for Expr {
    type V = ExprModel;

    open spec fn view(&self) -> ExprModel {
        expr_model(*self)
    }
}

impl View for MacroCall {
    type V = MacroCallModel;

    open spec fn view(&self) -> MacroCallModel {
        macro_call_model(*self)
    }
}

impl View for MacroBody {
    type V = MacroBodyModel;

    open spec fn view(&self) -> MacroBodyModel {
        macro_body_model(*self)
    }
}

impl View for Stmt {
    type V = StmtModel;

    open spec fn view(&self) -> StmtModel {
        stmt_model(*self)
    }
}

impl View for Block {
    type V = BlockModel;

    open spec fn view(&self) -> BlockModel {
        block_model(*self)
    }
}

impl View for Member {
    type V = MemberModel;

    open spec fn view(&self) -> MemberModel {
        member_model(*self)
    }
}

impl View for Item {
    type V = ItemModel;

    open spec fn view(&self) -> ItemModel {
        item_model(*self)
    }
}

/// Deep copy of a segment list.
fn clone_segments(segments: &Vec<String>) -> (r: Vec<String>)
    ensures
        segments_model(r@) == segments_model(segments@),
{
    let mut out: Vec<String> = Vec::new();
    let mut i: usize = 0;
    while i < segments.len()
        invariant
            i <= segments@.len(),
            out@.len() == i as nat,
            forall|j: int| 0 <= j < i ==> out@[j]@ == segments@[j]@,
        decreases segments@.len() - i,
    {
        out.push(segments[i].clone());
        i += 1;
    }
    proof {
        assert(segments_model(out@) =~= segments_model(segments@));
    }
    out
}

impl Path {
    /// Deep copy.
    pub fn duplicate(&self) -> (r: Path)
        ensures
            r@ == self@,
    {
        let r = Path { leading_colon: self.leading_colon, segments: clone_segments(&self.segments) };
        proof {
            assert(r@ =~= self@);
        }
        r
    }
}

impl Literal {
    /// Deep copy.
    pub fn duplicate(&self) -> (r: Literal)
        ensures
            r@ == self@,
    {
        Literal { kind: self.kind, text: self.text.clone() }
    }
}

/// Deep copy of an expression list.
#[verifier::loop_isolation(false)]
fn clone_exprs(es: &Vec<Expr>) -> (r: Vec<Expr>)
    ensures
        exprs_model(r@) == exprs_model(es@),
    decreases *es,
{
    let mut out: Vec<Expr> = Vec::new();
    let mut i: usize = 0;
    while i < es.len()
        invariant
            i <= es@.len(),
            out@.len() == i as nat,
            forall|j: int| 0 <= j < i ==> out@[j]@ == es@[j]@,
        decreases es@.len() - i,
    {
        proof {
            assert(decreases_to!(*es => es@));
            assert(decreases_to!(es@ => es@[i as int]));
        }
        let c = clone_expr(&es[i]);
        out.push(c);
        i += 1;
    }
    proof {
        assert(exprs_model(out@) =~= exprs_model(es@));
    }
    out
}

/// Deep copy of a statement list.
#[verifier::loop_isolation(false)]
fn clone_stmts(ss: &Vec<Stmt>) -> (r: Vec<Stmt>)
    ensures
        stmts_model(r@) == stmts_model(ss@),
    decreases *ss,
{
    let mut out: Vec<Stmt> = Vec::new();
    let mut i: usize = 0;
    while i < ss.len()
        invariant
            i <= ss@.len(),
            out@.len() == i as nat,
            forall|j: int| 0 <= j < i ==> out@[j]@ == ss@[j]@,
        decreases ss@.len() - i,
    {
        proof {
            assert(decreases_to!(*ss => ss@));
            assert(decreases_to!(ss@ => ss@[i as int]));
        }
        let c = clone_stmt(&ss[i]);
        out.push(c);
        i += 1;
    }
    proof {
        assert(stmts_model(out@) =~= stmts_model(ss@));
    }
    out
}

/// Deep copy of a statement.
fn clone_stmt(s: &Stmt) -> (r: Stmt)
    ensures
        r@ == s@,
    decreases *s,
{
    match s {
        Stmt::Let { pattern, ty, init } => {
            let ty2 = match ty {
                Some(t) => Some(t.clone()),
                None => None,
            };
            let init2 = match init {
                Some(e) => Some(clone_expr(e)),
                None => None,
            };
            let r = Stmt::Let { pattern: pattern.clone(), ty: ty2, init: init2 };
            proof {
                assert(r@ =~= s@);
            }
            r
        }
        Stmt::Expr { expr, semicolon } => {
            let r = Stmt::Expr { expr: clone_expr(expr), semicolon: *semicolon };
            proof {
                assert(r@ =~= s@);
            }
            r
        }
        Stmt::Item(it) => Stmt::Item(Box::new(clone_item(it))),
        Stmt::Verbatim(text) => Stmt::Verbatim(text.clone()),
    }
}

/// Deep copy of an arm list.
#[verifier::loop_isolation(false)]
fn clone_arms(arms: &Vec<MatchArm>) -> (r: Vec<MatchArm>)
    ensures
        arms_model(r@) == arms_model(arms@),
    decreases *arms,
{
    let mut out: Vec<MatchArm> = Vec::new();
    let mut i: usize = 0;
    while i < arms.len()
        invariant
            i <= arms@.len(),
            out@.len() == i as nat,
            forall|j: int| 0 <= j < i ==> arm_model(out@[j]) == arm_model(arms@[j]),
        decreases arms@.len() - i,
    {
        proof {
            assert(decreases_to!(*arms => arms@));
            assert(decreases_to!(arms@ => arms@[i as int]));
        }
        let a = &arms[i];
        let c = MatchArm {
            pattern: a.pattern.clone(),
            guard: match &a.guard {
                Some(g) => Some(clone_expr(g)),
                None => None,
            },
            body: clone_expr(&a.body),
        };
        proof {
            assert(arm_model(c) =~= arm_model(arms@[i as int]));
        }
        out.push(c);
        i += 1;
    }
    proof {
        assert(arms_model(out@) =~= arms_model(arms@));
    }
    out
}

/// Deep copy of a field list.
#[verifier::loop_isolation(false)]
fn clone_fields(fields: &Vec<FieldValue>) -> (r: Vec<FieldValue>)
    ensures
        fields_model(r@) == fields_model(fields@),
    decreases *fields,
{
    let mut out: Vec<FieldValue> = Vec::new();
    let mut i: usize = 0;
    while i < fields.len()
        invariant
            i <= fields@.len(),
            out@.len() == i as nat,
            forall|j: int| 0 <= j < i ==> field_value_model(out@[j]) == field_value_model(
                fields@[j],
            ),
        decreases fields@.len() - i,
    {
        proof {
            assert(decreases_to!(*fields => fields@));
            assert(decreases_to!(fields@ => fields@[i as int]));
        }
        let f = &fields[i];
        let c = FieldValue { member: f.member.clone(), value: clone_expr(&f.value) };
        proof {
            assert(field_value_model(c) =~= field_value_model(fields@[i as int]));
        }
        out.push(c);
        i += 1;
    }
    proof {
        assert(fields_model(out@) =~= fields_model(fields@));
    }
    out
}

/// Deep copy of a member.
fn clone_member(m: &Member) -> (r: Member)
    ensures
        r@ == m@,
    decreases *m,
{
    let r = match m {
        Member::Fn { signature, body } => Member::Fn {
            signature: signature.clone(),
            body: clone_block(body),
        },
        Member::FnDecl { signature } => Member::FnDecl { signature: signature.clone() },
        Member::Const { header, value } => Member::Const {
            header: header.clone(),
            value: clone_expr(value),
        },
        Member::Verbatim(text) => Member::Verbatim(text.clone()),
    };
    proof {
        assert(r@ =~= m@);
    }
    r
}

/// Deep copy of a member list.
#[verifier::loop_isolation(false)]
fn clone_members(ms: &Vec<Member>) -> (r: Vec<Member>)
    ensures
        members_model(r@) == members_model(ms@),
    decreases *ms,
{
    let mut out: Vec<Member> = Vec::new();
    let mut i: usize = 0;
    while i < ms.len()
        invariant
            i <= ms@.len(),
            out@.len() == i as nat,
            forall|j: int| 0 <= j < i ==> out@[j]@ == ms@[j]@,
        decreases ms@.len() - i,
    {
        proof {
            assert(decreases_to!(*ms => ms@));
            assert(decreases_to!(ms@ => ms@[i as int]));
        }
        let c = clone_member(&ms[i]);
        out.push(c);
        i += 1;
    }
    proof {
        assert(members_model(out@) =~= members_model(ms@));
    }
    out
}

/// Deep copy of a declaration.
fn clone_item(it: &Item) -> (r: Item)
    ensures
        r@ == it@,
    decreases *it,
{
    let r = match it {
        Item::Fn { signature, body } => Item::Fn {
            signature: signature.clone(),
            body: clone_block(body),
        },
        Item::Trait { header, members } => Item::Trait {
            header: header.clone(),
            members: clone_members(members),
        },
        Item::Impl { header, members } => Item::Impl {
            header: header.clone(),
            members: clone_members(members),
        },
    };
    proof {
        assert(r@ =~= it@);
    }
    r
}

/// Deep copy of a block.
fn clone_block(b: &Block) -> (r: Block)
    ensures
        r@ == b@,
    decreases *b,
{
    let r = Block { stmts: clone_stmts(&b.stmts) };
    proof {
        assert(r@ =~= b@);
    }
    r
}

/// Deep copy of a call-like invocation.
pub(crate) fn clone_macro_call(m: &MacroCall) -> (r: MacroCall)
    ensures
        r@ == m@,
    decreases *m,
{
    let body = match &m.body {
        MacroBody::Unparsed(text) => MacroBody::Unparsed(text.clone()),
        MacroBody::Single(e) => MacroBody::Single(Box::new(clone_expr(e))),
        MacroBody::CommaList { elems, trailing_comma } => MacroBody::CommaList {
            elems: clone_exprs(elems),
            trailing_comma: *trailing_comma,
        },
        MacroBody::SemiPair { value, count } => MacroBody::SemiPair {
            value: Box::new(clone_expr(value)),
            count: Box::new(clone_expr(count)),
        },
    };
    let r = MacroCall { path: m.path.duplicate(), delimiter: m.delimiter, body };
    proof {
        assert(r@ =~= m@);
    }
    r
}

/// Deep copy of an expression.
pub fn clone_expr(e: &Expr) -> (r: Expr)
    ensures
        r@ == e@,
    decreases *e,
{
    let r = match e {
        Expr::Lit(l) => Expr::Lit(l.duplicate()),
        Expr::Path(p) => Expr::Path(p.duplicate()),
        Expr::Call { func, args } => Expr::Call {
            func: Box::new(clone_expr(func)),
            args: clone_exprs(args),
        },
        Expr::MethodCall { receiver, method, turbofish, args } => Expr::MethodCall {
            receiver: Box::new(clone_expr(receiver)),
            method: method.clone(),
            turbofish: match turbofish {
                Some(t) => Some(t.clone()),
                None => None,
            },
            args: clone_exprs(args),
        },
        Expr::Binary { op, left, right } => Expr::Binary {
            op: op.clone(),
            left: Box::new(clone_expr(left)),
            right: Box::new(clone_expr(right)),
        },
        Expr::Unary { op, operand } => Expr::Unary {
            op: op.clone(),
            operand: Box::new(clone_expr(operand)),
        },
        Expr::Cast { operand, ty } => Expr::Cast {
            operand: Box::new(clone_expr(operand)),
            ty: ty.clone(),
        },
        Expr::Paren(inner) => Expr::Paren(Box::new(clone_expr(inner))),
        Expr::Array(elems) => Expr::Array(clone_exprs(elems)),
        Expr::Repeat { value, len } => Expr::Repeat {
            value: Box::new(clone_expr(value)),
            len: Box::new(clone_expr(len)),
        },
        Expr::Tuple(elems) => Expr::Tuple(clone_exprs(elems)),
        Expr::Index { base, index } => Expr::Index {
            base: Box::new(clone_expr(base)),
            index: Box::new(clone_expr(index)),
        },
        Expr::Field { base, member } => Expr::Field {
            base: Box::new(clone_expr(base)),
            member: member.clone(),
        },
        Expr::Assign { left, right } => Expr::Assign {
            left: Box::new(clone_expr(left)),
            right: Box::new(clone_expr(right)),
        },
        Expr::Reference { mutable, operand } => Expr::Reference {
            mutable: *mutable,
            operand: Box::new(clone_expr(operand)),
        },
        Expr::Closure { capture, params, body } => Expr::Closure {
            capture: *capture,
            params: params.clone(),
            body: Box::new(clone_expr(body)),
        },
        Expr::If { cond, then_branch, else_branch } => Expr::If {
            cond: Box::new(clone_expr(cond)),
            then_branch: clone_block(then_branch),
            else_branch: match else_branch {
                Some(e) => Some(Box::new(clone_expr(e))),
                None => None,
            },
        },
        Expr::Match { scrutinee, arms } => Expr::Match {
            scrutinee: Box::new(clone_expr(scrutinee)),
            arms: clone_arms(arms),
        },
        Expr::While { cond, body } => Expr::While {
            cond: Box::new(clone_expr(cond)),
            body: clone_block(body),
        },
        Expr::ForLoop { pattern, iterator, body } => Expr::ForLoop {
            pattern: pattern.clone(),
            iterator: Box::new(clone_expr(iterator)),
            body: clone_block(body),
        },
        Expr::Loop { body } => Expr::Loop { body: clone_block(body) },
        Expr::Struct { path, fields, rest } => Expr::Struct {
            path: path.duplicate(),
            fields: clone_fields(fields),
            rest: match rest {
                Some(e) => Some(Box::new(clone_expr(e))),
                None => None,
            },
        },
        Expr::Range { start, limits, end } => Expr::Range {
            start: match start {
                Some(e) => Some(Box::new(clone_expr(e))),
                None => None,
            },
            limits: limits.clone(),
            end: match end {
                Some(e) => Some(Box::new(clone_expr(e))),
                None => None,
            },
        },
        Expr::Block(b) => Expr::Block(clone_block(b)),
        Expr::Return(opt) => Expr::Return(
            match opt {
                Some(inner) => Some(Box::new(clone_expr(inner))),
                None => None,
            },
        ),
        Expr::Macro(m) => Expr::Macro(clone_macro_call(m)),
        Expr::Verbatim(text) => Expr::Verbatim(text.clone()),
    };
    proof {
        assert(r@ =~= e@);
    }
    r
}

impl Clone for Expr {
    /// Deep copy; the copy has the same mathematical image.
    fn clone(&self) -> (r: Expr)
        ensures
            r@ == self@,
    {
        clone_expr(self)
    }
}

} // verus!
