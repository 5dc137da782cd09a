//! The invocation parser.
//!
//! A macro invocation is a sequence of token trees: a builder-producing
//! expression, a separator, and then the query specification.  The parser
//! splits the sequence at the first top-level separator; the builder part
//! must be non-empty, and the query part is opaque at this level (its
//! grammar is owned by the external query compiler).

use vstd::prelude::*;

use crate::Diagnostic;

verus! {

/// One token tree of a macro invocation, as the host language delivers it:
/// delimited groups arrive as single trees, so a separator in this sequence
/// is by construction a top-level separator.
#[derive(Clone, Copy, PartialEq, Eq, Structural, Debug)]
pub enum Token {
    /// The separator between the builder expression and the query
    /// specification (and between later parts of the specification).
    Sep,
    /// A delimited group; its interior is opaque at this level.
    Group,
    /// Any other single token.
    Word,
}

/// A parsed invocation: the builder-construction expression's tokens and
/// the query specification's tokens.
#[derive(PartialEq, Eq, Debug)]
pub struct BuilderQueryInput {
    pub builder_expr: Vec<Token>,
    pub query_input: Vec<Token>,
}

/// Whether position `i` holds the first separator of `toks`.
pub open spec fn first_sep_at(toks: Seq<Token>, i: int) -> bool {
    &&& 0 <= i < toks.len()
    &&& toks[i] is Sep
    &&& forall|j: int| 0 <= j < i ==> !(toks[j] is Sep)
}

/// Whether `toks` is a well-formed invocation: it has a top-level
/// separator, and at least one token of builder expression before it.
pub open spec fn well_formed_invocation(toks: Seq<Token>) -> bool {
    exists|i: int| first_sep_at(toks, i) && i >= 1
}

/// Finds the first separator, if any.
fn find_sep(input: &Vec<Token>) -> (r: Option<usize>)
    ensures
        r matches Some(i) ==> first_sep_at(input@, i as int),
        r is None ==> forall|j: int| 0 <= j < input@.len() ==> !(input@[j] is Sep),
{
    let mut i: usize = 0;
    while i < input.len()
        invariant
            i <= input@.len(),
            forall|j: int| 0 <= j < i ==> !(input@[j] is Sep),
        decreases input@.len() - i,
    {
        if input[i] == Token::Sep {
            return Some(i);
        }
        i = i + 1;
    }
    None
}

/// Copies `input[from..to]` into a fresh vector.
fn copy_range(input: &Vec<Token>, from: usize, to: usize) -> (r: Vec<Token>)
    requires
        from <= to <= input@.len(),
    ensures
        r@ == input@.subrange(from as int, to as int),
{
    let mut out: Vec<Token> = Vec::new();
    let mut k: usize = from;
    while k < to
        invariant
            from <= k <= to <= input@.len(),
            out@ == input@.subrange(from as int, k as int),
        decreases to - k,
    {
        out.push(input[k]);
        k = k + 1;
        proof {
            assert(input@.subrange(from as int, k as int) =~= input@.subrange(
                from as int,
                k - 1,
            ).push(input@[k - 1]));
        }
    }
    out
}

impl BuilderQueryInput {
    /// Splits an invocation at its first top-level separator into the
    /// builder expression and the query specification.  An invocation with
    /// no top-level separator, or with nothing before it, is rejected with
    /// [`Diagnostic::MalformedInvocation`]; the query specification is not
    /// inspected at all, so no part of it ever reaches the query compiler
    /// when the invocation is malformed.
    pub fn parse(input: &Vec<Token>) -> (r: Result<BuilderQueryInput, Diagnostic>)
        ensures
            r is Ok <==> well_formed_invocation(input@),
            r matches Ok(inv) ==> forall|i: int|
                first_sep_at(input@, i) ==> inv.builder_expr@ == input@.subrange(0, i)
                    && inv.query_input@ == input@.subrange(i + 1, input@.len() as int),
            r is Err ==> r == Err::<BuilderQueryInput, Diagnostic>(Diagnostic::MalformedInvocation),
    {
        match find_sep(input) {
            Option::None => {
                proof {
                    assert(forall|i: int| !first_sep_at(input@, i));
                }
                Err(Diagnostic::MalformedInvocation)
            },
            Option::Some(i) => {
                if i == 0 {
                    proof {
                        assert(forall|k: int| first_sep_at(input@, k) ==> k == 0);
                    }
                    Err(Diagnostic::MalformedInvocation)
                } else {
                    let n: usize = input.len();
                    proof {
                        assert(i < input@.len());
                    }
                    let builder_expr = copy_range(input, 0, i);
                    let query_input = copy_range(input, i + 1, n);
                    proof {
                        assert(forall|k: int| first_sep_at(input@, k) ==> k == i as int);
                    }
                    Ok(BuilderQueryInput { builder_expr, query_input })
                }
            },
        }
    }
}

} // verus!
