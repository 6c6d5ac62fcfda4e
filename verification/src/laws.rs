//! What holds of every compilation, proved from the contract of `compile`.
//!
//! The collaborators are closures, and all that is known of a closure is its
//! own contract. Each statement below is therefore over the outcomes that the
//! contracts of `parse` and `lower` allow.

use crate::bytecode::{assembles_to, list_cells, InstructionList};
use crate::scope::{is_fresh, ScopeTable};
use crate::{can_compile, compiles_to, lowers_to, parses_to, Diagnostic};
use seax_util::cell::SVMCell;
use vstd::prelude::*;

verus! {

/// The parser fails on `program`, whatever else it does.
pub open spec fn parser_rejects<T, P>(parse: P, program: &str) -> bool where
    P: FnOnce(&str) -> Result<T, Diagnostic>,
 {
    forall|parsed: Result<T, Diagnostic>| #[trigger]
        parses_to(parse, program, parsed) ==> parsed is Err
}

/// The parser returns a tree for `program`, whatever else it does.
pub open spec fn parser_accepts<T, P>(parse: P, program: &str) -> bool where
    P: FnOnce(&str) -> Result<T, Diagnostic>,
 {
    forall|parsed: Result<T, Diagnostic>| #[trigger]
        parses_to(parse, program, parsed) ==> parsed is Ok
}

/// Two parse outcomes agree: the same tree, or diagnostics of the same text.
pub open spec fn same_parse<T>(first: Result<T, Diagnostic>, second: Result<T, Diagnostic>) -> bool {
    match (first, second) {
        (Ok(a), Ok(b)) => a == b,
        (Err(a), Err(b)) => a@ == b@,
        _ => false,
    }
}

/// Two lowering outcomes agree: the same cells in the same order, or
/// diagnostics of the same text.
pub open spec fn same_lowering(
    first: Result<Vec<SVMCell>, Diagnostic>,
    second: Result<Vec<SVMCell>, Diagnostic>,
) -> bool {
    match (first, second) {
        (Ok(a), Ok(b)) => a@ == b@,
        (Err(a), Err(b)) => a@ == b@,
        _ => false,
    }
}

/// Two compilation results agree: lists of the same cells in the same order,
/// or diagnostics of the same text.
pub open spec fn same_result(
    first: Result<InstructionList, Diagnostic>,
    second: Result<InstructionList, Diagnostic>,
) -> bool {
    match (first, second) {
        (Ok(a), Ok(b)) => list_cells(a) == list_cells(b),
        (Err(a), Err(b)) => a@ == b@,
        _ => false,
    }
}

/// The parser has one outcome on `program`.
pub open spec fn parser_is_deterministic<T, P>(parse: P, program: &str) -> bool where
    P: FnOnce(&str) -> Result<T, Diagnostic>,
 {
    forall|first: Result<T, Diagnostic>, second: Result<T, Diagnostic>|
        #![trigger parses_to(parse, program, first), parses_to(parse, program, second)]
        parses_to(parse, program, first) && parses_to(parse, program, second) ==> same_parse(
            first,
            second,
        )
}

/// Lowering has one outcome on each tree when it starts from a fresh scope
/// table, whichever fresh table that is.
pub open spec fn lowering_is_deterministic<T, L>(lower: L) -> bool where
    L: FnOnce(&T, &ScopeTable) -> Result<Vec<SVMCell>, Diagnostic>,
 {
    forall|
        tree: T,
        scope: ScopeTable,
        other: ScopeTable,
        first: Result<Vec<SVMCell>, Diagnostic>,
        second: Result<Vec<SVMCell>, Diagnostic>,
    |
        #![trigger lowers_to(lower, tree, scope, first), lowers_to(lower, tree, other, second)]
        is_fresh(scope) && is_fresh(other) && lowers_to(lower, tree, scope, first) && lowers_to(
            lower,
            tree,
            other,
            second,
        ) ==> same_lowering(first, second)
}

/// Every program can be compiled. With a parser that takes every text and a
/// lowering stage that takes every tree on a fresh scope table, `compile`
/// asks nothing of the program: not of its length, not of its content.
pub proof fn every_program_can_be_compiled<T, P, L>(parse: P, lower: L, program: &str) where
    P: FnOnce(&str) -> Result<T, Diagnostic>,
    L: FnOnce(&T, &ScopeTable) -> Result<Vec<SVMCell>, Diagnostic>,

    requires
        forall|text: &str| call_requires(parse, (text,)),
        forall|tree: T, scope: ScopeTable|
            is_fresh(scope) ==> call_requires(lower, (&tree, &scope)),
    ensures
        can_compile(parse, lower, program),
{
}

/// A program that the parser rejects is not lowered. Such a program can be
/// compiled whatever the lowering stage is, also with one that can never be
/// called; and the result is a diagnostic of the parser.
pub proof fn rejected_program_is_not_lowered<T, P, L>(
    parse: P,
    lower: L,
    program: &str,
    result: Result<InstructionList, Diagnostic>,
) where
    P: FnOnce(&str) -> Result<T, Diagnostic>,
    L: FnOnce(&T, &ScopeTable) -> Result<Vec<SVMCell>, Diagnostic>,

    requires
        call_requires(parse, (program,)),
        parser_rejects(parse, program),
    ensures
        can_compile(parse, lower, program),
        compiles_to(parse, lower, program, result) ==> result is Err && parses_to(
            parse,
            program,
            Err::<T, Diagnostic>(result->Err_0),
        ),
{
}

/// Lowering starts from a fresh scope table in every compilation. Where the
/// parser accepts the program, the result is what assembling makes of a
/// lowering that began with a root layer and no name bound, whatever was
/// compiled before.
pub proof fn lowering_starts_fresh<T, P, L>(
    parse: P,
    lower: L,
    program: &str,
    result: Result<InstructionList, Diagnostic>,
) where
    P: FnOnce(&str) -> Result<T, Diagnostic>,
    L: FnOnce(&T, &ScopeTable) -> Result<Vec<SVMCell>, Diagnostic>,

    requires
        parser_accepts(parse, program),
        compiles_to(parse, lower, program, result),
    ensures
        exists|tree: T, scope: ScopeTable, lowered: Result<Vec<SVMCell>, Diagnostic>|
            parses_to(parse, program, Ok::<T, Diagnostic>(tree)) && is_fresh(scope)
                && #[trigger] lowers_to(lower, tree, scope, lowered) && assembles_to(
                lowered,
                result,
            ),
{
}

/// The order of the cells is kept. If lowering emits `cells` for the trees of
/// `program`, a list that comes out of the compilation holds exactly `cells`,
/// the first emitted at its head.
pub proof fn emitted_order_is_kept<T, P, L>(
    parse: P,
    lower: L,
    program: &str,
    cells: Seq<SVMCell>,
    result: Result<InstructionList, Diagnostic>,
) where
    P: FnOnce(&str) -> Result<T, Diagnostic>,
    L: FnOnce(&T, &ScopeTable) -> Result<Vec<SVMCell>, Diagnostic>,

    requires
        forall|tree: T, scope: ScopeTable, lowered: Result<Vec<SVMCell>, Diagnostic>|
            parses_to(parse, program, Ok::<T, Diagnostic>(tree)) && is_fresh(scope)
                && #[trigger] lowers_to(lower, tree, scope, lowered) ==> lowered is Ok
                && lowered->Ok_0@ == cells,
        compiles_to(parse, lower, program, result),
    ensures
        result is Ok ==> list_cells(result->Ok_0) == cells,
{
}

/// A failure is the failure of a stage. A diagnostic that comes out of a
/// compilation is the parser's, or it is that of lowering a tree of the
/// parser from a fresh scope table: sequencing and assembling add no failure
/// of their own, and the text is handed on as it was.
pub proof fn failure_comes_from_a_stage<T, P, L>(
    parse: P,
    lower: L,
    program: &str,
    diagnostic: Diagnostic,
) where
    P: FnOnce(&str) -> Result<T, Diagnostic>,
    L: FnOnce(&T, &ScopeTable) -> Result<Vec<SVMCell>, Diagnostic>,

    requires
        compiles_to(parse, lower, program, Err::<InstructionList, Diagnostic>(diagnostic)),
    ensures
        parses_to(parse, program, Err::<T, Diagnostic>(diagnostic)) || exists|
            tree: T,
            scope: ScopeTable,
        |
            parses_to(parse, program, Ok::<T, Diagnostic>(tree)) && is_fresh(scope)
                && #[trigger] lowers_to(
                lower,
                tree,
                scope,
                Err::<Vec<SVMCell>, Diagnostic>(diagnostic),
            ),
{
}

/// A program that passes both stages gets its list. Where the parser accepts
/// the program and lowering succeeds on its trees, the compilation succeeds:
/// there is no third way to fail.
pub proof fn accepted_program_gets_a_list<T, P, L>(
    parse: P,
    lower: L,
    program: &str,
    result: Result<InstructionList, Diagnostic>,
) where
    P: FnOnce(&str) -> Result<T, Diagnostic>,
    L: FnOnce(&T, &ScopeTable) -> Result<Vec<SVMCell>, Diagnostic>,

    requires
        parser_accepts(parse, program),
        forall|tree: T, scope: ScopeTable, lowered: Result<Vec<SVMCell>, Diagnostic>|
            parses_to(parse, program, Ok::<T, Diagnostic>(tree)) && is_fresh(scope)
                && #[trigger] lowers_to(lower, tree, scope, lowered) ==> lowered is Ok,
        compiles_to(parse, lower, program, result),
    ensures
        result is Ok,
{
}

/// Compiling is deterministic. With a parser and a lowering stage that each
/// have one outcome, two compilations of the same program agree: both give
/// lists of the same cells in the same order, or both fail with the same
/// text.
pub proof fn compilation_is_deterministic<T, P, L>(
    parse: P,
    lower: L,
    program: &str,
    first: Result<InstructionList, Diagnostic>,
    second: Result<InstructionList, Diagnostic>,
) where
    P: FnOnce(&str) -> Result<T, Diagnostic>,
    L: FnOnce(&T, &ScopeTable) -> Result<Vec<SVMCell>, Diagnostic>,

    requires
        parser_is_deterministic(parse, program),
        lowering_is_deterministic(lower),
        compiles_to(parse, lower, program, first),
        compiles_to(parse, lower, program, second),
    ensures
        same_result(first, second),
{
}

} // verus!
