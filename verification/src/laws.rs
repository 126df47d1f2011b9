//! The sharing and relocation laws of the handle layer, proved over the same
//! model the handle contracts speak of: the store's cell sequence and the
//! handles' cell indices.

use crate::handle::Pass;
use crate::handle::PassMut;
use crate::storage::Locator;
use vstd::prelude::*;

verus! {

/// What a handle bound to cell `i` observes through its read path when the
/// store's cells are `s`: the value wrapped by that cell.
pub open spec fn observed<T>(s: Seq<Locator<T>>, i: nat) -> T {
    s[i as int].spec_value()
}

/// Law: for every construction source, a freshly constructed handle's read
/// path returns the source value. Construction appends the source's cell to
/// the store and binds the handle to it, so what the handle observes is
/// exactly what the cell wraps.
pub proof fn law_fresh_handle_reads_source<T>(s: Seq<Locator<T>>, locator: Locator<T>)
    ensures
        observed(s.push(locator), s.len()) == locator.spec_value(),
{
}

/// Law: a write through a read-write handle is observed by every clone that
/// shares its cell, whichever of the three mutation-capable variants is
/// active. The write replaces the shared cell's wrapped value, so the clone's
/// next read returns the written value.
pub proof fn law_clone_observes_write<T>(s: Seq<Locator<T>>, writer: PassMut, sibling: PassMut, v: T)
    requires
        sibling.cell_index() == writer.cell_index(),
        writer.cell_index() < s.len(),
        s[writer.cell_index() as int].mut_capable(),
    ensures
        observed(
            s.update(writer.cell_index() as int, s[writer.cell_index() as int].with_value(v)),
            sibling.cell_index(),
        ) == v,
{
}

/// Law: a downgraded handle shares its origin's cell, so a write through the
/// origin read-write handle is visible through the downgraded read-only
/// handle's next read — until either handle is relocated away from that cell.
pub proof fn law_downgraded_observes_write<T>(s: Seq<Locator<T>>, writer: PassMut, reader: Pass, v: T)
    requires
        reader.cell_index() == writer.cell_index(),
        writer.cell_index() < s.len(),
        s[writer.cell_index() as int].mut_capable(),
    ensures
        observed(
            s.update(writer.cell_index() as int, s[writer.cell_index() as int].with_value(v)),
            reader.cell_index(),
        ) == v,
{
}

/// Law: relocation is local to the relocating handle. Rebinding a handle to a
/// fresh cell makes that handle observe the new source, while a handle still
/// bound to any prior cell — a clone taken before the relocation among them —
/// observes exactly what it observed before.
pub proof fn law_relocation_is_local<T>(s: Seq<Locator<T>>, prior: nat, locator: Locator<T>)
    requires
        prior < s.len(),
    ensures
        observed(s.push(locator), s.len()) == locator.spec_value(),
        observed(s.push(locator), prior) == observed(s, prior),
{
}

/// Law: a write changes the wrapped value of the written cell alone. Every
/// other cell is untouched, and the written cell keeps its active variant —
/// a cell's variant never changes in place — so the cell's mutation
/// capability is kept as well.
pub proof fn law_write_is_local_and_keeps_variant<T>(s: Seq<Locator<T>>, i: nat, other: nat, v: T)
    requires
        i < s.len(),
        other < s.len(),
        other != i,
    ensures
        s.update(i as int, s[i as int].with_value(v))[i as int].same_variant(s[i as int]),
        s.update(i as int, s[i as int].with_value(v))[i as int].mut_capable() == s[
            i as int
        ].mut_capable(),
        s.update(i as int, s[i as int].with_value(v))[other as int] == s[other as int],
{
}

} // verus!
