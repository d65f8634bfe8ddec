//! The rewrite rules: for each, the pattern that finds its matches and the
//! text that replaces one match.

use crate::engine::{group, group_text, Hit};
use crate::text::{
    argument_lines, chars_of, lines_of_arguments, push_all, push_str, same_text, trim, trimmed,
};
use vstd::prelude::*;

verus! {

/// An inline call whose argument list holds another inline call.
pub const NESTED_CALL_PATTERN: &'static str =
    r"call \$[0-9A-Za-z!#$%&'*+\-./:<=>?@\\^_`|~]*\(.*call \$[0-9A-Za-z!#$%&'*+\-./:<=>?@\\^_`|~]*.*\)";

/// An inline call: the callee, then the argument list in parentheses.
pub const CALL_PATTERN: &'static str =
    r"call (\$[0-9A-Za-z!#$%&'*+\-./:<=>?@\\^_`|~]*) *\((.*)\)";

/// A parameter in shorthand: a name and a type in parentheses.
pub const PARAM_PATTERN: &'static str =
    r"\((?P<var_name>\$[0-9A-Za-z!#$%&'*+\-./:<=>?@\\^_`|~]*) (?P<var_type>i32|i64|f32|f64)\)";

/// A local in shorthand: `l`, a name and a type in parentheses.
pub const LOCAL_PATTERN: &'static str =
    r"\(l ?(?P<var_name>\$[0-9A-Za-z!#$%&'*+\-./:<=>?@\\^_`|~]*) (?P<var_type>i32|i64|f32|f64)\)";

/// A number with its type behind it.
pub const LITERAL_PATTERN: &'static str = r"(?P<num>\d*\.?\d+)(?P<type>(?:i|f)(?:32|64))";

/// A name, with the instruction or binder before it and the `=` behind it,
/// where there is one.
pub const GET_PATTERN: &'static str =
    r"((?:global|local)\.(?:set|get) |call |call_indirect |br |br_if |br_table |block |loop |if |\(\w+ )?(\$[0-9A-Za-z!#$%&'*+\-./:<=>?@\\^_`|~]+)( *=)?";

/// An assignment: a name, `=`, and what stands behind it.
pub const SET_PATTERN: &'static str = r"(\$[0-9A-Za-z!#$%&'*+\-./:<=>?@\\^_`|~]+) *= *(.+)";

/// A rewrite rule of the pipeline.
#[derive(Clone, Copy, PartialEq, Eq, Debug)]
pub enum Rule {
    /// Flattens an inline call into its arguments and a plain call.
    Call,
    /// Expands a parameter in shorthand.
    Param,
    /// Expands a local in shorthand.
    Local,
    /// Turns a number with a type suffix into a typed constant.
    Literal,
    /// Wraps a name that is read.
    Read,
    /// Expands an assignment.
    Assign,
}

impl Rule {
    /// The pattern that finds the rule's matches.
    pub open spec fn pattern_text(self) -> Seq<char> {
        match self {
            Rule::Call => CALL_PATTERN@,
            Rule::Param => PARAM_PATTERN@,
            Rule::Local => LOCAL_PATTERN@,
            Rule::Literal => LITERAL_PATTERN@,
            Rule::Read => GET_PATTERN@,
            Rule::Assign => SET_PATTERN@,
        }
    }

    /// The pattern that finds the rule's matches.
    pub fn pattern(self) -> (p: &'static str)
        ensures
            p@ == self.pattern_text(),
    {
        match self {
            Rule::Call => CALL_PATTERN,
            Rule::Param => PARAM_PATTERN,
            Rule::Local => LOCAL_PATTERN,
            Rule::Literal => LITERAL_PATTERN,
            Rule::Read => GET_PATTERN,
            Rule::Assign => SET_PATTERN,
        }
    }

    /// The text that replaces one match.
    pub open spec fn replacement(self, hit: Seq<Option<Seq<char>>>) -> Seq<char> {
        match self {
            Rule::Call => call_text(hit),
            Rule::Param => declaration_text("(param "@, hit),
            Rule::Local => declaration_text("(local "@, hit),
            Rule::Literal => literal_text(hit),
            Rule::Read => get_text(hit),
            Rule::Assign => set_text(hit),
        }
    }

    /// Builds the text that replaces one match.
    pub fn replace(self, hit: &Hit) -> (r: Vec<char>)
        ensures
            r@ == self.replacement(hit@),
    {
        match self {
            Rule::Call => flatten_call(hit),
            Rule::Param => expand_declaration("(param ", hit),
            Rule::Local => expand_declaration("(local ", hit),
            Rule::Literal => annotate_literal(hit),
            Rule::Read => expand_get(hit),
            Rule::Assign => expand_set(hit),
        }
    }
}

/// The argument list of an inline call: the second group, or `()` where it is
/// missing.
pub open spec fn call_arguments(hit: Seq<Option<Seq<char>>>) -> Seq<char> {
    match group(hit, 2) {
        Some(args) => args,
        None => "()"@,
    }
}

/// An inline call, flattened: each argument trimmed and on a line of its
/// own, from left to right, then the plain call of the callee.
pub open spec fn call_text(hit: Seq<Option<Seq<char>>>) -> Seq<char> {
    argument_lines(call_arguments(hit)) + "\ncall "@ + group_text(hit, 1)
}

/// Flattens one inline call.
pub fn flatten_call(hit: &Hit) -> (r: Vec<char>)
    ensures
        r@ == call_text(hit@),
{
    let mut out = match hit.get(2) {
        Some(args) => lines_of_arguments(args),
        None => {
            let args = chars_of("()");
            lines_of_arguments(&args)
        },
    };
    push_str(&mut out, "\ncall ");
    hit.push_group(&mut out, 1);
    out
}

/// A declaration in canonical form: the opening word, the name, the type.
pub open spec fn declaration_text(opening: Seq<char>, hit: Seq<Option<Seq<char>>>) -> Seq<char> {
    opening + group_text(hit, 1) + " "@ + group_text(hit, 2) + ")"@
}

/// Expands one declaration in shorthand.
pub fn expand_declaration(opening: &str, hit: &Hit) -> (r: Vec<char>)
    ensures
        r@ == declaration_text(opening@, hit@),
{
    let mut out = chars_of(opening);
    hit.push_group(&mut out, 1);
    push_str(&mut out, " ");
    hit.push_group(&mut out, 2);
    push_str(&mut out, ")");
    out
}

/// A typed constant: the type (second group), `.const`, the number (first
/// group).
pub open spec fn literal_text(hit: Seq<Option<Seq<char>>>) -> Seq<char> {
    "("@ + group_text(hit, 2) + ".const "@ + group_text(hit, 1) + ")"@
}

/// Annotates one number.
pub fn annotate_literal(hit: &Hit) -> (r: Vec<char>)
    ensures
        r@ == literal_text(hit@),
{
    let mut out = chars_of("(");
    hit.push_group(&mut out, 2);
    push_str(&mut out, ".const ");
    hit.push_group(&mut out, 1);
    push_str(&mut out, ")");
    out
}

/// Whether a match of the get pattern is a read: nothing before the name
/// makes it an operand, and no `=` behind it makes it a target.
pub open spec fn is_read(hit: Seq<Option<Seq<char>>>) -> bool {
    group(hit, 1).is_none() && group(hit, 3).is_none()
}

/// A name that is read is wrapped; any other match stands as it was found.
pub open spec fn get_text(hit: Seq<Option<Seq<char>>>) -> Seq<char> {
    if is_read(hit) {
        "(local.get "@ + group_text(hit, 2) + ")"@
    } else {
        group_text(hit, 1) + group_text(hit, 2) + group_text(hit, 3)
    }
}

/// Reading and assigning exclude each other: a name that an `=` follows, or
/// that stands behind an instruction or a binder, is kept as it was found,
/// and only a name with neither is wrapped.
pub proof fn lemma_target_is_not_read(hit: Seq<Option<Seq<char>>>)
    ensures
        group(hit, 1).is_some() || group(hit, 3).is_some() ==> get_text(hit) == group_text(hit, 1)
            + group_text(hit, 2) + group_text(hit, 3),
        group(hit, 1).is_none() && group(hit, 3).is_none() ==> get_text(hit) == "(local.get "@
            + group_text(hit, 2) + ")"@,
{
}

/// Expands one name, if it is read.
pub fn expand_get(hit: &Hit) -> (r: Vec<char>)
    ensures
        r@ == get_text(hit@),
{
    let mut out: Vec<char> = Vec::new();
    if hit.get(1).is_none() && hit.get(3).is_none() {
        push_str(&mut out, "(local.get ");
        hit.push_group(&mut out, 2);
        push_str(&mut out, ")");
    } else {
        hit.push_group(&mut out, 1);
        hit.push_group(&mut out, 2);
        hit.push_group(&mut out, 3);
    }
    out
}

/// An assignment of `stack` sets the name from the stack; any other
/// assignment carries its right-hand side as the operand.
pub open spec fn set_text(hit: Seq<Option<Seq<char>>>) -> Seq<char> {
    if trimmed(group_text(hit, 2)) == "stack"@ {
        "local.set "@ + group_text(hit, 1)
    } else {
        "(local.set "@ + group_text(hit, 1) + " "@ + group_text(hit, 2) + ")"@
    }
}

/// Expands one assignment.
pub fn expand_set(hit: &Hit) -> (r: Vec<char>)
    ensures
        r@ == set_text(hit@),
{
    let mut value: Vec<char> = Vec::new();
    hit.push_group(&mut value, 2);
    let from_stack = same_text(&trim(&value), &chars_of("stack"));
    let mut out: Vec<char> = Vec::new();
    if from_stack {
        push_str(&mut out, "local.set ");
        hit.push_group(&mut out, 1);
    } else {
        push_str(&mut out, "(local.set ");
        hit.push_group(&mut out, 1);
        push_str(&mut out, " ");
        push_all(&mut out, &value);
        push_str(&mut out, ")");
    }
    out
}

} // verus!
