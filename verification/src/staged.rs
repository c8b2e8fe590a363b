//! The single-assignment slot through which the primary script reaches the
//! run that evaluates it.

use once_cell::sync::OnceCell;
use vstd::prelude::*;

verus! {

/// `once_cell::sync::OnceCell`, a cell that can be written to once. Nothing
/// inside it is visible here; what it holds goes by the name `cell_texts`.
#[verifier::external_type_specification]
#[verifier::external_body]
#[verifier::reject_recursive_types(T)]
pub struct ExOnceCell<T>(OnceCell<T>);

/// The texts that a cell holds: none, or the one that it was set to.
pub uninterp spec fn cell_texts(cell: OnceCell<String>) -> Seq<Seq<char>>;

/// `OnceCell::new`: the new cell holds nothing.
#[verifier::external_body]
fn cell_new() -> (cell: OnceCell<String>)
    ensures
        cell_texts(cell).len() == 0,
{
    OnceCell::new()
}

/// `OnceCell::set`: an empty cell takes the text, and nothing comes back; a
/// cell that holds a text keeps it, and the new text comes back.
#[verifier::external_body]
fn cell_set(cell: &mut OnceCell<String>, text: String) -> (rejected: Option<String>)
    ensures
        rejected is None <==> cell_texts(*old(cell)).len() == 0,
        rejected is None ==> cell_texts(*final(cell)) == seq![text@],
        rejected is Some ==> rejected == Some(text) && cell_texts(*final(cell)) == cell_texts(
            *old(cell),
        ),
{
    cell.set(text).err()
}

/// `OnceCell::get`: the text that the cell holds, if it holds one.
#[verifier::external_body]
fn cell_get(cell: &OnceCell<String>) -> (r: Option<&String>)
    ensures
        r is Some <==> cell_texts(*cell).len() != 0,
        r matches Some(text) ==> text@ == cell_texts(*cell)[0],
{
    cell.get()
}

/// The staged input: empty, or staged with the script's text. It is staged
/// at most once and never emptied.
pub struct StagedInput {
    cell: OnceCell<String>,
}

impl View for StagedInput {
    type V = Option<Seq<char>>;

    /// `None` while empty, else the staged text.
    closed spec fn view(&self) -> Option<Seq<char>> {
        if cell_texts(self.cell).len() == 0 {
            None
        } else {
            Some(cell_texts(self.cell)[0])
        }
    }
}

impl StagedInput {
    /// The empty slot.
    pub fn new() -> (slot: StagedInput)
        ensures
            slot@ is None,
    {
        StagedInput { cell: cell_new() }
    }

    /// Stages `text`. An empty slot takes it. A slot that is staged keeps
    /// what it has and hands `text` back as the error.
    pub fn stage(&mut self, text: String) -> (r: Result<(), String>)
        ensures
            old(self)@ is None ==> r is Ok && final(self)@ == Some(text@),
            old(self)@ is Some ==> r == Err::<(), String>(text) && final(self)@ == old(self)@,
    {
        match cell_set(&mut self.cell, text) {
            None => Ok(()),
            Some(text) => Err(text),
        }
    }

    /// The staged text, where there is one.
    pub fn staged(&self) -> (r: Option<&String>)
        ensures
            r is Some <==> self@ is Some,
            r matches Some(text) ==> self@ == Some(text@),
    {
        cell_get(&self.cell)
    }
}

} // verus!
