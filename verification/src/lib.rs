//! Compiles Scheme programs to bytecode for the Seax virtual machine.
//!
//! A compilation is a pipeline of three stages that run one after the other:
//! the program text is parsed into a syntax tree, the tree is lowered to
//! bytecode cells, and the cells are assembled into the list that the machine
//! takes as its control stack. Parsing and lowering are the work of two
//! collaborators that the caller hands in; this crate sequences them, gives
//! the lowering stage its scope table, passes the first failure on and builds
//! the list.

use crate::bytecode::{assemble, assembles_to, InstructionList};
use crate::scope::{is_fresh, with_fresh_scope, ScopeTable};
use seax_util::cell::SVMCell;
use vstd::prelude::*;

pub mod bytecode;
pub mod laws;
pub mod scope;

verus! {

/// Why a program could not be compiled, in words. The text is that of the
/// stage that failed; nothing is added to it.
pub type Diagnostic = String;

/// `parsed` is an outcome that the parser can have on `program`.
pub open spec fn parses_to<T, P>(parse: P, program: &str, parsed: Result<T, Diagnostic>) -> bool
    where P: FnOnce(&str) -> Result<T, Diagnostic> {
    call_ensures(parse, (program,), parsed)
}

/// `lowered` is an outcome that lowering `tree` can have when it starts from
/// `scope`.
pub open spec fn lowers_to<T, L>(
    lower: L,
    tree: T,
    scope: ScopeTable,
    lowered: Result<Vec<SVMCell>, Diagnostic>,
) -> bool where L: FnOnce(&T, &ScopeTable) -> Result<Vec<SVMCell>, Diagnostic> {
    call_ensures(lower, (&tree, &scope), lowered)
}

/// What the collaborators must allow for `program` to be compiled: the parser
/// takes the program, and the lowering stage takes every tree that the parser
/// can return for it, together with a fresh scope table. Nothing is asked of
/// the lowering stage for trees that the parser cannot return, nor for scope
/// tables that are not fresh.
pub open spec fn can_compile<T, P, L>(parse: P, lower: L, program: &str) -> bool where
    P: FnOnce(&str) -> Result<T, Diagnostic>,
    L: FnOnce(&T, &ScopeTable) -> Result<Vec<SVMCell>, Diagnostic>,
 {
    &&& call_requires(parse, (program,))
    &&& forall|tree: T, scope: ScopeTable|
        parses_to(parse, program, Ok::<T, Diagnostic>(tree)) && is_fresh(scope)
            ==> #[trigger] call_requires(lower, (&tree, &scope))
}

/// `result` is an outcome that compiling `program` can have. Either the
/// parser fails, and `result` is its diagnostic; or it returns a tree, the
/// tree is lowered from a fresh scope table, and `result` is what assembling
/// makes of the lowering outcome: the diagnostic of a failed lowering, or the
/// list of the lowered cells in their order.
pub open spec fn compiles_to<T, P, L>(
    parse: P,
    lower: L,
    program: &str,
    result: Result<InstructionList, Diagnostic>,
) -> bool where
    P: FnOnce(&str) -> Result<T, Diagnostic>,
    L: FnOnce(&T, &ScopeTable) -> Result<Vec<SVMCell>, Diagnostic>,
 {
    exists|parsed: Result<T, Diagnostic>| #[trigger]
        parses_to(parse, program, parsed) && match parsed {
            Err(diagnostic) => result == Err::<InstructionList, Diagnostic>(diagnostic),
            Ok(tree) => exists|scope: ScopeTable, lowered: Result<Vec<SVMCell>, Diagnostic>|
                is_fresh(scope) && #[trigger] lowers_to(lower, tree, scope, lowered)
                    && assembles_to(lowered, result),
        }
}

/// Compiles a Scheme program into the list of cells that the Seax virtual
/// machine runs as its control stack.
///
/// `parse` turns the program text into a syntax tree and `lower` turns a tree
/// into bytecode cells, resolving names in the scope table it is handed. The
/// program goes to `parse` as it is; an empty program is no special case, and
/// what becomes of it is for the parser to say. If parsing fails, its
/// diagnostic is returned and `lower` is not called: a tree can only come
/// from `parse`, so there is nothing to call it on. Otherwise `lower` is
/// called once, on the tree and on a scope table made for this call: a root
/// layer with nothing bound in it. If lowering fails, its diagnostic is
/// returned and no list is built. Otherwise the cells are assembled into a
/// list in the order in which `lower` emitted them.
///
/// Nothing is kept from one call to the next.
pub fn compile<T, P, L>(parse: P, lower: L, program: &str) -> (result: Result<
    InstructionList,
    Diagnostic,
>) where
    P: FnOnce(&str) -> Result<T, Diagnostic>,
    L: FnOnce(&T, &ScopeTable) -> Result<Vec<SVMCell>, Diagnostic>,

    requires
        can_compile(parse, lower, program),
    ensures
        compiles_to(parse, lower, program, result),
{
    let parsed = parse(program);
    assert(parses_to(parse, program, parsed));
    match with_fresh_scope(parsed) {
        Err(diagnostic) => Err(diagnostic),
        Ok((tree, scope)) => {
            let lowered = lower(&tree, &scope);
            assert(lowers_to(lower, tree, scope, lowered));
            assemble(lowered)
        },
    }
}

} // verus!
