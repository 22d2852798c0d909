//! The shared bus and its rule for units that drive at the same time.

use vstd::prelude::*;
use crate::register::Register;

verus! {

/// The value on the bus while the given units are connected to it: the
/// bitwise OR of what each of them drives. With no driver at all every line
/// stays low.
pub open spec fn bus_of(units: Seq<Register>) -> u16
    decreases units.len(),
{
    if units.len() == 0 {
        0
    } else {
        bus_of(units.drop_last()) | units.last().driven()
    }
}

/// Settles the bus for one pulse.
///
/// Two drivers at once would be a short circuit in hardware. Here the bus
/// shows the bitwise OR of all driven values instead, so a control table
/// that breaks the one-driver rule degrades and does not break the engine.
pub fn compute(units: &[Register]) -> (bus: u16)
    ensures
        bus == bus_of(units@),
{
    let mut bus: u16 = 0;
    let mut i: usize = 0;
    while i < units.len()
        invariant
            i <= units@.len(),
            bus == bus_of(units@.subrange(0, i as int)),
        decreases units@.len() - i,
    {
        let unit = units[i];
        assert(units@.subrange(0, i + 1).drop_last() =~= units@.subrange(0, i as int));
        if unit.value_out {
            bus = bus | unit.value;
        } else {
            assert(bus | 0u16 == bus) by (bit_vector);
        }
        i = i + 1;
    }
    assert(units@.subrange(0, i as int) =~= units@);
    bus
}

/// While no unit drives, every line of the bus is low.
pub proof fn law_bus_idle(units: Seq<Register>)
    requires
        forall|k: int| 0 <= k < units.len() ==> !(#[trigger] units[k]).value_out,
    ensures
        bus_of(units) == 0,
    decreases units.len(),
{
    if units.len() > 0 {
        law_bus_idle(units.drop_last());
        assert(0u16 | 0u16 == 0u16) by (bit_vector);
    }
}

/// A single driver has the bus to itself, however many idle units are
/// connected besides it.
pub proof fn law_bus_single_driver(units: Seq<Register>, driver: int)
    requires
        0 <= driver < units.len(),
        units[driver].value_out,
        forall|k: int| 0 <= k < units.len() && k != driver ==> !(#[trigger] units[k]).value_out,
    ensures
        bus_of(units) == units[driver].value,
    decreases units.len(),
{
    let value = units[driver].value;
    if driver == units.len() - 1 {
        law_bus_idle(units.drop_last());
        assert(0u16 | value == value) by (bit_vector);
    } else {
        law_bus_single_driver(units.drop_last(), driver);
        assert(value | 0u16 == value) by (bit_vector);
    }
}

/// The bus conflict law: while exactly two of the connected units drive, the
/// bus shows the bitwise OR of their two values.
pub proof fn law_bus_two_drivers(units: Seq<Register>, first: int, second: int)
    requires
        0 <= first < second < units.len(),
        units[first].value_out,
        units[second].value_out,
        forall|k: int|
            0 <= k < units.len() && k != first && k != second ==> !(#[trigger] units[k]).value_out,
    ensures
        bus_of(units) == units[first].value | units[second].value,
    decreases units.len(),
{
    if second == units.len() - 1 {
        law_bus_single_driver(units.drop_last(), first);
    } else {
        law_bus_two_drivers(units.drop_last(), first, second);
        let both = units[first].value | units[second].value;
        assert(both | 0u16 == both) by (bit_vector);
    }
}

/// The bus conflict law for two registers: if they drive `a` and `b` in the
/// same pulse, the bus shows `a | b`.
pub proof fn law_bus_conflict(first: Register, second: Register)
    requires
        first.value_out,
        second.value_out,
    ensures
        bus_of(seq![first, second]) == first.value | second.value,
{
    law_bus_two_drivers(seq![first, second], 0, 1);
}

} // verus!
