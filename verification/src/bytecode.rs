//! The target machine's instruction list and the cells it is made of.

use crate::Diagnostic;
use seax_util::cell::SVMCell;
use seax_util::list::List;
use std::iter::FromIterator;
use vstd::prelude::*;

verus! {

/// `seax_util::cell::SVMCell`, one cell of the target machine's bytecode: an
/// atom, an instruction or a nested list of cells. Nothing here looks inside
/// a cell; cells are only carried from the lowering stage into the list.
#[verifier::external_type_specification]
#[verifier::external_body]
pub struct ExSVMCell(SVMCell);

/// `seax_util::list::List`, the singly linked `cons` list in which the target
/// machine holds its control stack.
#[verifier::external_type_specification]
#[verifier::external_body]
#[verifier::reject_recursive_types(T)]
pub struct ExList<T>(List<T>);

/// The list that a successful compilation returns: the bytecode cells of the
/// program, to be executed from the head on.
pub type InstructionList = List<SVMCell>;

/// The cells of an instruction list, from the head of the list to its end:
/// the order in which the target machine executes them.
pub uninterp spec fn list_cells(list: List<SVMCell>) -> Seq<SVMCell>;

/// `List::from_iter` of `seax_util`, on a vector of cells. It starts from the
/// empty list and appends the items one by one at the tail, so the list holds
/// exactly the cells of the vector, in the vector's order. Not proved: taken
/// from the source of `seax_util`.
#[verifier::external_body]
fn list_from_cells(cells: Vec<SVMCell>) -> (list: List<SVMCell>)
    ensures
        list_cells(list) == cells@,
{
    List::from_iter(cells)
}

/// What the assembling stage makes of a lowering outcome: a list with the
/// lowered cells in the order they were emitted, or the lowering diagnostic
/// unchanged.
pub open spec fn assembles_to(
    lowered: Result<Vec<SVMCell>, Diagnostic>,
    result: Result<InstructionList, Diagnostic>,
) -> bool {
    match lowered {
        Ok(cells) => result is Ok && list_cells(result->Ok_0) == cells@,
        Err(diagnostic) => result == Err::<InstructionList, Diagnostic>(diagnostic),
    }
}

/// Ends a compilation. A lowering failure is passed on as it is, and no list
/// is built. Lowered cells are assembled into the target machine's list, in
/// the same order, none dropped, repeated or moved; assembling cannot fail.
pub fn assemble(lowered: Result<Vec<SVMCell>, Diagnostic>) -> (result: Result<
    InstructionList,
    Diagnostic,
>)
    ensures
        assembles_to(lowered, result),
{
    match lowered {
        Ok(cells) => Ok(list_from_cells(cells)),
        Err(diagnostic) => Err(diagnostic),
    }
}

} // verus!
