use vstd::prelude::*;

verus! {

/// A stable, generation-checked reference to one entry of the handle table.
///
/// A handle stays valid for exactly as long as its entry is stored. Once the
/// entry is removed, the slot's generation moves past `generation`, so the
/// handle can never again resolve — not even to a later entry that reuses the
/// same slot.
#[derive(Clone, Copy, PartialEq, Eq, Structural, Debug, Hash)]
pub struct Handle {
    /// Position of the entry's slot in the table.
    pub index: usize,
    /// Generation the slot carried when the entry was stored.
    pub generation: u64,
}

} // verus!
