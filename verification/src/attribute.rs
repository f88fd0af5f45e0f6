//! The attribute-argument parser.
//!
//! The attribute arguments arrive as a comma-separated expression list,
//! already read by the host parser. The first expression is the
//! replacement template and is mandatory: an empty argument list is the
//! one error this component reports. Every further expression is read as
//! a flag assignment of the exact shape `name = boolean-literal`; an
//! expression of any other shape is silently dropped, so unknown or
//! malformed trailing arguments never break a caller. Later assignments
//! to the same flag override earlier ones.
//!
//! One flag is recognized: `visit_macros` (default `true`), which governs
//! whether the rewriter looks inside call-like invocations. Assignments
//! to unknown names are accepted and ignored.

use vstd::prelude::*;

use crate::ast::{expr_model, exprs_model, Expr, ExprModel, Path, PathModel};
use crate::literal::LitKind;

verus! {

/// The value of one flag assignment.
#[derive(Clone, Copy, Debug, PartialEq, Eq, Structural)]
pub enum ParameterValue {
    Bool(bool),
}

/// The configuration flags of one expansion.
#[derive(Clone, Copy, Debug, PartialEq, Eq, Structural)]
pub struct MacroParameters {
    pub visit_macros: bool,
}

/// The flag values an expansion starts from.
pub open spec fn default_parameters() -> MacroParameters {
    MacroParameters { visit_macros: true }
}

/// One flag assignment applied to a flag set: a recognized name changes
/// its flag, an unknown name changes nothing.
pub open spec fn apply_flag(p: MacroParameters, name: Seq<char>, value: ParameterValue) -> MacroParameters {
    if name == "visit_macros"@ {
        match value {
            ParameterValue::Bool(b) => MacroParameters { visit_macros: b },
        }
    } else {
        p
    }
}

impl Default for MacroParameters {
    /// The default flag set: call-like invocations are visited.
    fn default() -> (r: MacroParameters)
        ensures
            r == default_parameters(),
    {
        MacroParameters { visit_macros: true }
    }
}

impl MacroParameters {
    /// Set one flag by name; an unknown name is silently ignored.
    pub fn set(&mut self, name: &str, value: ParameterValue)
        ensures
            *final(self) == apply_flag(*old(self), name@, value),
    {
        let known: String = "visit_macros".to_owned();
        let given: String = name.to_owned();
        if given == known {
            match value {
                ParameterValue::Bool(b) => {
                    self.visit_macros = b;
                }
            }
        }
    }
}

/// The name of a path, written with `::` between its segments, as the
/// flag parser reads it.
pub open spec fn joined_from(segments: Seq<Seq<char>>, i: int) -> Seq<char>
    recommends
        0 <= i <= segments.len(),
    decreases segments.len() - i when 0 <= i <= segments.len()
{
    if i >= segments.len() {
        Seq::empty()
    } else if i == segments.len() - 1 {
        segments[i]
    } else {
        segments[i] + "::"@ + joined_from(segments, i + 1)
    }
}

/// The flag name a path stands for: its segments joined with `::`, with
/// a leading `::` where the path has one.
pub open spec fn flag_name_model(p: PathModel) -> Seq<char> {
    if p.leading_colon {
        "::"@ + joined_from(p.segments, 0)
    } else {
        joined_from(p.segments, 0)
    }
}

/// Write out the flag name a path stands for.
#[verifier::loop_isolation(false)]
pub fn path_flag_name(p: &Path) -> (r: String)
    ensures
        r@ == flag_name_model(p@),
{
    let mut acc: String = if p.leading_colon {
        "::".to_owned()
    } else {
        String::new()
    };
    proof {
        assert(acc@ + joined_from(p@.segments, 0) =~= flag_name_model(p@));
    }
    let n = p.segments.len();
    let mut i: usize = 0;
    while i < n
        invariant
            i <= n,
            n == p.segments@.len(),
            flag_name_model(p@) == acc@ + joined_from(p@.segments, i as int),
        decreases n - i,
    {
        let before = i;
        acc.append(p.segments[i].as_str());
        if i + 1 < n {
            acc.append("::");
        }
        proof {
            assert(p@.segments[before as int] == p.segments@[before as int]@);
            if before + 1 < n {
                assert(acc@ + joined_from(p@.segments, before + 1 as int) =~= flag_name_model(
                    p@,
                ));
            } else {
                assert(acc@ + joined_from(p@.segments, before + 1 as int) =~= flag_name_model(
                    p@,
                ));
            }
        }
        i += 1;
    }
    proof {
        assert(acc@ =~= acc@ + joined_from(p@.segments, n as int));
    }
    acc
}

/// What one trailing attribute argument means: `Some` with the flag's
/// name and value where the expression has the exact shape
/// `name = boolean-literal`, and `None` for every other shape.
pub open spec fn parse_flag_model(e: ExprModel) -> Option<(Seq<char>, ParameterValue)> {
    match e {
        ExprModel::Assign { left, right } => match (*left, *right) {
            (ExprModel::Path(p), ExprModel::Lit(l)) => if l.kind == LitKind::Bool {
                Some((flag_name_model(p), ParameterValue::Bool(l.text == "true"@)))
            } else {
                None
            },
            _ => None,
        },
        _ => None,
    }
}

/// Read one trailing attribute argument as a flag assignment; any
/// expression not of that exact shape yields `None`.
pub fn parse_flag(e: &Expr) -> (r: Option<(String, ParameterValue)>)
    ensures
        (r is Some) == (parse_flag_model(e@) is Some),
        r matches Some(nv) ==> parse_flag_model(e@) == Some((nv.0@, nv.1)),
{
    proof {
        reveal_with_fuel(expr_model, 3);
    }
    match e {
        Expr::Assign { left, right } => match (&**left, &**right) {
            (Expr::Path(p), Expr::Lit(l)) => {
                if l.kind == LitKind::Bool {
                    let truth: String = "true".to_owned();
                    let value = l.text == truth;
                    Some((path_flag_name(p), ParameterValue::Bool(value)))
                } else {
                    None
                }
            }
            _ => None,
        },
        _ => None,
    }
}

/// The flag set that a list of trailing attribute arguments builds up
/// from the defaults, applied first to last.
pub open spec fn attr_params_model(rest: Seq<ExprModel>) -> MacroParameters
    decreases rest.len(),
{
    if rest.len() == 0 {
        default_parameters()
    } else {
        let prev = attr_params_model(rest.drop_last());
        match parse_flag_model(rest.last()) {
            Some(nv) => apply_flag(prev, nv.0, nv.1),
            None => prev,
        }
    }
}

/// The error of the attribute-argument parser.
#[derive(Clone, Copy, Debug, PartialEq, Eq, Structural)]
pub enum AttributeError {
    /// The argument list was empty: no replacement template was given.
    MissingReplacement,
}

impl AttributeError {
    /// The diagnostic text for this error.
    pub fn message(&self) -> (m: String)
        ensures
            m@ == "No replacement provided"@,
    {
        "No replacement provided".to_owned()
    }
}

/// Split the attribute arguments into the replacement template (the
/// mandatory first expression) and the flag set built from the rest.
/// Fails exactly when the argument list is empty.
#[verifier::loop_isolation(false)]
pub fn parse_macro_attribute(args: Vec<Expr>) -> (r: Result<(Expr, MacroParameters), AttributeError>)
    ensures
        r is Err <==> args@.len() == 0,
        r is Err ==> r->Err_0 == AttributeError::MissingReplacement,
        r matches Ok(tp) ==> tp.0@ == args@[0]@ && tp.1 == attr_params_model(
            exprs_model(args@).skip(1),
        ),
{
    let ghost all = args@;
    let mut args = args;
    if args.len() == 0 {
        return Err(AttributeError::MissingReplacement);
    }
    let template = args.remove(0);
    proof {
        assert(args@ =~= all.skip(1));
    }
    let ghost rest = exprs_model(all).skip(1);
    proof {
        assert(rest =~= exprs_model(args@));
    }
    let mut params = MacroParameters::default();
    let n = args.len();
    let mut i: usize = 0;
    while i < n
        invariant
            i <= n,
            n == args@.len(),
            rest == exprs_model(args@),
            params == attr_params_model(rest.take(i as int)),
        decreases n - i,
    {
        let before = i;
        match parse_flag(&args[i]) {
            Some((name, value)) => {
                params.set(name.as_str(), value);
            }
            None => {}
        }
        proof {
            assert(rest.take(before + 1 as int).drop_last() =~= rest.take(before as int));
            assert(rest.take(before + 1 as int).last() == rest[before as int]);
            assert(rest[before as int] == args@[before as int]@);
            assert(params == attr_params_model(rest.take(before + 1 as int)));
        }
        i += 1;
    }
    proof {
        assert(rest.take(n as int) =~= rest);
    }
    Ok((template, params))
}

} // verus!
