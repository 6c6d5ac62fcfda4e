//! The scope table that lowering starts from.

use crate::Diagnostic;
use seax_util::compiler_tools::ForkTable;
use std::hash::Hash;
use vstd::prelude::*;

verus! {

/// `seax_util::compiler_tools::ForkTable`, a symbol table made of layers: a
/// table forked from another sees its parent's entries and shadows them with
/// its own.
#[verifier::external_type_specification]
#[verifier::external_body]
#[verifier::reject_recursive_types(K)]
#[verifier::reject_recursive_types(V)]
pub struct ExForkTable<'a, K: Eq + Hash + 'a, V: 'a>(ForkTable<'a, K, V>);

/// The table in which lowering resolves names: each bound name with the pair
/// of indices at which the target machine finds its value when it runs.
pub type ScopeTable<'a> = ForkTable<'a, &'a str, (u64, u64)>;

/// What a scope table binds, as a map: a name to the indices of its value.
pub type Bindings = Map<Seq<char>, (u64, u64)>;

/// Every name that a lookup in the table finds, in this layer or in one of
/// its ancestors, with the indices it is bound to.
pub uninterp spec fn scope_bindings(table: ScopeTable) -> Map<Seq<char>, (u64, u64)>;

/// The number of layers between the table and the root of its chain: 0 for a
/// root, one more for each fork.
pub uninterp spec fn scope_level(table: ScopeTable) -> nat;

/// A table as a compilation starts with it: a root layer alone, with no name
/// bound in it.
pub open spec fn is_fresh(table: ScopeTable) -> bool {
    &&& scope_level(table) == 0
    &&& scope_bindings(table) == Bindings::empty()
}

/// `ForkTable::new` of `seax_util`. It returns a table with an empty map of
/// its own, nothing whited out, no parent and level 0, so no lookup in it
/// finds anything. Not proved: taken from the source of `seax_util`.
#[verifier::external_body]
fn fresh_scope<'a>() -> (table: ScopeTable<'a>)
    ensures
        scope_level(table) == 0,
        scope_bindings(table) == Bindings::empty(),
{
    ForkTable::new()
}

/// What the step from parsing to lowering makes of a parse outcome: the
/// parser's diagnostic unchanged, or the parsed tree together with a fresh
/// scope table to lower it from.
pub open spec fn scoped_as<T>(
    parsed: Result<T, Diagnostic>,
    next: Result<(T, ScopeTable), Diagnostic>,
) -> bool {
    match parsed {
        Ok(tree) => next is Ok && next->Ok_0.0 == tree && is_fresh(next->Ok_0.1),
        Err(diagnostic) => next == Err::<(T, ScopeTable), Diagnostic>(diagnostic),
    }
}

/// Goes from parsing to lowering. A parse failure is passed on as it is:
/// there is nothing to lower, and no scope table is made. A parsed tree is
/// returned with the scope table that its lowering starts from, made here and
/// now: a root layer with no name bound, whatever was compiled before.
pub fn with_fresh_scope<'a, T>(parsed: Result<T, Diagnostic>) -> (next: Result<
    (T, ScopeTable<'a>),
    Diagnostic,
>)
    ensures
        scoped_as(parsed, next),
{
    match parsed {
        Ok(tree) => Ok((tree, fresh_scope())),
        Err(diagnostic) => Err(diagnostic),
    }
}

} // verus!
