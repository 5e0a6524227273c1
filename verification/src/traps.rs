//! The trap allocator: which address holds which of the simulator's
//! numbered trap slots, and which slots are taken.
//!
//! The simulator offers slots `0` to `254`. The table hands out the
//! lowest free slot, remembers the slot of each address, and frees a slot
//! when its trap is removed. A slot that is marked used is one the
//! simulator holds a trap in.

use std::collections::HashMap;
use vstd::prelude::*;
use crate::command::{
    define_trap_command,
    encode_define_trap,
    encode_remove_trap,
    remove_trap_command,
};
use crate::error::LibiguanaError;

verus! {

/// Number of trap slots. The value `255` itself is never a slot.
pub const TRAP_SLOTS: usize = 255;

/// The first free position of `used` at or after `from`, or the length of
/// `used` when every position from there on is taken.
pub open spec fn first_free(used: Seq<bool>, from: int) -> int
    decreases used.len() - from,
{
    if from < 0 || from >= used.len() {
        used.len() as int
    } else if !used[from] {
        from
    } else {
        first_free(used, from + 1)
    }
}

/// What the table holds, as mathematics: the slot of each address that
/// has a trap, and one flag per slot that says whether it is taken.
pub struct TrapModel {
    pub slots: Map<u32, u8>,
    pub used: Seq<bool>,
}

impl TrapModel {
    /// The table without any trap.
    pub open spec fn empty() -> TrapModel {
        TrapModel { slots: Map::empty(), used: Seq::new(255, |slot: int| false) }
    }

    /// What always holds of a table: there are 255 flags, the slot of
    /// every address is a real slot that is marked used, and no two
    /// addresses share a slot.
    pub open spec fn wf(self) -> bool {
        &&& self.used.len() == 255
        &&& forall|address: u32| #[trigger]
            self.slots.contains_key(address) ==> self.slots[address] < 255
                && self.used[self.slots[address] as int]
        &&& forall|a: u32, b: u32|
            #![trigger self.slots[a], self.slots[b]]
            self.slots.contains_key(a) && self.slots.contains_key(b) && a != b
                ==> self.slots[a] != self.slots[b]
    }

    /// Whether some address holds `slot`.
    pub open spec fn holds(self, slot: int) -> bool {
        exists|address: u32| #[trigger]
            self.slots.contains_key(address) && self.slots[address] == slot
    }

    /// Whether every slot that is marked used is held by some address.
    /// Together with `wf` this says that a slot is marked used exactly
    /// when an address holds it.
    pub open spec fn exact(self) -> bool {
        forall|slot: int| 0 <= slot < 255 && self.used[slot] ==> #[trigger] self.holds(slot)
    }

    /// The lowest free slot, if there is one.
    pub open spec fn lowest_free(self) -> Option<u8> {
        if first_free(self.used, 0) < 255 {
            Some(first_free(self.used, 0) as u8)
        } else {
            None
        }
    }

    /// The slot of `address`, if it has a trap.
    pub open spec fn slot_of(self, address: u32) -> Option<u8> {
        if self.slots.contains_key(address) {
            Some(self.slots[address])
        } else {
            None
        }
    }

    /// The table after `address` has been given `slot`.
    pub open spec fn with_trap(self, address: u32, slot: u8) -> TrapModel {
        TrapModel {
            slots: self.slots.insert(address, slot),
            used: self.used.update(slot as int, true),
        }
    }

    /// The table after a trap has been defined at `address`: the address
    /// holds the lowest free slot. A full table stays as it is. An
    /// address that held a slot before gets a new one; the old slot
    /// stays taken, because the simulator still holds a trap in it.
    pub open spec fn define(self, address: u32) -> TrapModel {
        match self.lowest_free() {
            Some(slot) => self.with_trap(address, slot),
            None => self,
        }
    }

    /// The table after the trap at `address` has been removed: the
    /// address holds no slot and its slot is free. A table without a trap
    /// at `address` stays as it is.
    pub open spec fn remove(self, address: u32) -> TrapModel {
        if self.slots.contains_key(address) {
            TrapModel {
                slots: self.slots.remove(address),
                used: self.used.update(self.slots[address] as int, false),
            }
        } else {
            self
        }
    }

    /// The table after a trap has been defined at each of `addresses`,
    /// in order.
    pub open spec fn define_all(self, addresses: Seq<u32>) -> TrapModel
        decreases addresses.len(),
    {
        if addresses.len() == 0 {
            self
        } else {
            self.define_all(addresses.drop_last()).define(addresses.last())
        }
    }
}

/// `first_free` finds the first free position: everything between `from`
/// and the result is taken, and the result is free unless it is the end.
pub proof fn lemma_first_free(used: Seq<bool>, from: int)
    requires
        0 <= from <= used.len(),
    ensures
        from <= first_free(used, from) <= used.len(),
        forall|slot: int| from <= slot < first_free(used, from) ==> used[slot],
        first_free(used, from) < used.len() ==> !used[first_free(used, from)],
    decreases used.len() - from,
{
    if from < used.len() && used[from] {
        lemma_first_free(used, from + 1);
    }
}

/// A position that is free and has only taken positions between `from`
/// and itself is the one `first_free` finds.
pub proof fn lemma_first_free_is(used: Seq<bool>, from: int, slot: int)
    requires
        0 <= from <= slot < used.len(),
        !used[slot],
        forall|other: int| from <= other < slot ==> used[other],
    ensures
        first_free(used, from) == slot,
    decreases slot - from,
{
    if from < slot {
        lemma_first_free_is(used, from + 1, slot);
    }
}

/// The lowest free slot is free, every lower slot is taken, and there is
/// none exactly when all 255 slots are taken.
pub proof fn lemma_lowest_free(table: TrapModel)
    requires
        table.used.len() == 255,
    ensures
        match table.lowest_free() {
            Some(slot) => slot < 255 && !table.used[slot as int] && forall|lower: int|
                0 <= lower < slot ==> table.used[lower],
            None => forall|slot: int| 0 <= slot < 255 ==> table.used[slot],
        },
{
    lemma_first_free(table.used, 0);
}

/// Defining a trap keeps a table well formed.
pub proof fn lemma_define_preserves_wf(table: TrapModel, address: u32)
    requires
        table.wf(),
    ensures
        table.define(address).wf(),
{
    lemma_lowest_free(table);
}

/// Removing a trap keeps a table well formed.
pub proof fn lemma_remove_preserves_wf(table: TrapModel, address: u32)
    requires
        table.wf(),
    ensures
        table.remove(address).wf(),
{
}

/// Defining a trap at an address that has none keeps the flags exact:
/// afterwards, too, a slot is marked used only if an address holds it.
pub proof fn lemma_define_preserves_exact(table: TrapModel, address: u32)
    requires
        table.wf(),
        table.exact(),
        !table.slots.contains_key(address),
    ensures
        table.define(address).exact(),
{
    lemma_lowest_free(table);
    let after = table.define(address);
    assert forall|slot: int| 0 <= slot < 255 && after.used[slot] implies #[trigger] after.holds(
        slot,
    ) by {
        if table.lowest_free() == Some(slot as u8) {
            assert(after.slots.contains_key(address) && after.slots[address] == slot);
        } else {
            assert(table.holds(slot));
            let holder = choose|holder: u32| #[trigger]
                table.slots.contains_key(holder) && table.slots[holder] == slot;
            assert(after.slots.contains_key(holder) && after.slots[holder] == slot);
        }
    }
}

/// Removing a trap keeps the flags exact.
pub proof fn lemma_remove_preserves_exact(table: TrapModel, address: u32)
    requires
        table.wf(),
        table.exact(),
    ensures
        table.remove(address).exact(),
{
    let after = table.remove(address);
    assert forall|slot: int| 0 <= slot < 255 && after.used[slot] implies #[trigger] after.holds(
        slot,
    ) by {
        assert(table.holds(slot));
        let holder = choose|holder: u32| #[trigger]
            table.slots.contains_key(holder) && table.slots[holder] == slot;
        assert(after.slots.contains_key(holder) && after.slots[holder] == slot);
    }
}

/// Defining a trap at an address and then removing the trap at that
/// address leaves every flag as it was before the definition, whatever
/// the address, provided the definition found a free slot.
pub proof fn lemma_define_then_remove(table: TrapModel, address: u32)
    requires
        table.wf(),
        table.lowest_free() is Some,
    ensures
        table.define(address).remove(address).used == table.used,
{
    lemma_lowest_free(table);
    assert(table.define(address).remove(address).used =~= table.used);
}

/// Removing a trap at an address that has none changes nothing.
pub proof fn lemma_remove_absent(table: TrapModel, address: u32)
    requires
        !table.slots.contains_key(address),
    ensures
        table.remove(address) == table,
{
}

/// After any number of definitions on an empty table, the first slots
/// are taken, one for each definition up to 255, and the rest are free.
pub proof fn lemma_define_all_fills_in_order(addresses: Seq<u32>)
    ensures
        TrapModel::empty().define_all(addresses).wf(),
        forall|slot: int|
            0 <= slot < 255 ==> (#[trigger] TrapModel::empty().define_all(addresses).used[slot]
                <==> slot < addresses.len()),
    decreases addresses.len(),
{
    if addresses.len() > 0 {
        let before = TrapModel::empty().define_all(addresses.drop_last());
        lemma_define_all_fills_in_order(addresses.drop_last());
        lemma_lowest_free(before);
        lemma_define_preserves_wf(before, addresses.last());
        if addresses.len() - 1 < 255 {
            lemma_first_free_is(before.used, 0, addresses.len() - 1);
        }
    }
}

/// Starting from an empty table, a definition finds a free slot exactly
/// when fewer than 255 definitions came before it, whatever addresses
/// they and it name: each of the first 255 succeeds and the next fails.
pub proof fn lemma_capacity(addresses: Seq<u32>)
    ensures
        TrapModel::empty().define_all(addresses).lowest_free() is Some <==> addresses.len() < 255,
{
    let table = TrapModel::empty().define_all(addresses);
    lemma_define_all_fills_in_order(addresses);
    lemma_lowest_free(table);
    if addresses.len() < 255 {
        assert(!table.used[addresses.len() as int]);
    }
}

/// The trap table of one session.
pub struct TrapTable {
    slots: HashMap<u32, u8>,
    used: [bool; 255],
}

impl View for TrapTable {
    type V = TrapModel;

    closed spec fn view(&self) -> TrapModel {
        TrapModel { slots: self.slots@, used: self.used@ }
    }
}

impl TrapTable {
    #[verifier::type_invariant]
    spec fn inv(self) -> bool {
        self@.wf()
    }

    /// A table without any trap.
    pub fn new() -> (table: TrapTable)
        ensures
            table@ == TrapModel::empty(),
            table@.wf(),
            table@.exact(),
    {
        let used: [bool; 255] = [false; 255];
        let slots: HashMap<u32, u8> = HashMap::new();
        assert(used@ =~= TrapModel::empty().used);
        TrapTable { slots, used }
    }

    /// The slot of the trap at `address`, if there is one.
    pub fn lookup(&self, address: u32) -> (slot: Option<u8>)
        ensures
            self@.wf(),
            slot == self@.slot_of(address),
    {
        proof {
            use_type_invariant(self);
        }
        match self.slots.get(&address) {
            Some(slot) => Some(*slot),
            None => None,
        }
    }

    /// Whether `slot` is taken. The value `255` is no slot and is never
    /// taken.
    pub fn is_used(&self, slot: u8) -> (used: bool)
        ensures
            used == (slot < 255 && self@.used[slot as int]),
    {
        proof {
            use_type_invariant(self);
        }
        (slot as usize) < TRAP_SLOTS && self.used[slot as usize]
    }

    /// The traps that are defined: the slot of each address that has one.
    pub fn traps(&self) -> (traps: HashMap<u32, u8>)
        ensures
            traps@ == self@.slots,
    {
        self.slots.clone()
    }

    /// The lowest free slot. Fails for want of capacity exactly when all
    /// 255 slots are taken.
    pub fn lowest_free_slot(&self) -> (result: Result<u8, LibiguanaError>)
        ensures
            self@.wf(),
            match result {
                Ok(slot) => self@.lowest_free() == Some(slot),
                Err(error) => self@.lowest_free() is None && error
                    == LibiguanaError::TooManyTraps,
            },
    {
        proof {
            use_type_invariant(self);
        }
        let mut slot: usize = 0;
        while slot < TRAP_SLOTS
            invariant
                slot <= TRAP_SLOTS,
                self@.wf(),
                first_free(self@.used, 0) == first_free(self@.used, slot as int),
            decreases TRAP_SLOTS - slot,
        {
            if !self.used[slot] {
                return Ok(slot as u8);
            }
            slot += 1;
        }
        Err(LibiguanaError::TooManyTraps)
    }

    /// Defines a trap at `address` in the lowest free slot and returns
    /// that slot. Fails for want of capacity, and changes nothing,
    /// exactly when all 255 slots are taken. Every successful call takes
    /// a slot of its own, also for an address that holds one already.
    pub fn define(&mut self, address: u32) -> (result: Result<u8, LibiguanaError>)
        ensures
            final(self)@.wf(),
            final(self)@ == old(self)@.define(address),
            old(self)@.exact() && old(self)@.slot_of(address) is None ==> final(self)@.exact(),
            match result {
                Ok(slot) => old(self)@.lowest_free() == Some(slot),
                Err(error) => old(self)@.lowest_free() is None && error
                    == LibiguanaError::TooManyTraps,
            },
    {
        proof {
            use_type_invariant(&*self);
            lemma_lowest_free(self@);
            if self@.exact() && self@.slot_of(address) is None {
                lemma_define_preserves_exact(self@, address);
            }
        }
        let slot = match self.lowest_free_slot() {
            Ok(slot) => slot,
            Err(error) => {
                return Err(error);
            },
        };
        assert(forall|other: u32| #[trigger]
            self@.slots.contains_key(other) ==> self@.slots[other] != slot);
        let mut used = self.used;
        used[slot as usize] = true;
        assert(TrapModel { slots: self@.slots, used: used@ }.wf());
        self.used = used;
        let mut slots: HashMap<u32, u8> = HashMap::new();
        core::mem::swap(&mut self.slots, &mut slots);
        slots.insert(address, slot);
        assert(TrapModel { slots: slots@, used: self@.used }.wf());
        core::mem::swap(&mut self.slots, &mut slots);
        Ok(slot)
    }

    /// Removes the trap at `address` and returns the slot it held, which
    /// is free afterwards. Fails, and changes nothing, exactly when no
    /// trap is defined at `address`.
    pub fn remove(&mut self, address: u32) -> (result: Result<u8, LibiguanaError>)
        ensures
            final(self)@.wf(),
            final(self)@ == old(self)@.remove(address),
            old(self)@.exact() ==> final(self)@.exact(),
            match result {
                Ok(slot) => old(self)@.slot_of(address) == Some(slot),
                Err(error) => old(self)@.slot_of(address) is None && error
                    == LibiguanaError::NoTrapForAddress(address),
            },
    {
        proof {
            use_type_invariant(&*self);
            if self@.exact() {
                lemma_remove_preserves_exact(self@, address);
            }
        }
        let mut slots: HashMap<u32, u8> = HashMap::new();
        core::mem::swap(&mut self.slots, &mut slots);
        let removed = slots.remove(&address);
        assert(TrapModel { slots: slots@, used: self@.used }.wf());
        core::mem::swap(&mut self.slots, &mut slots);
        match removed {
            Some(slot) => {
                let mut used = self.used;
                used[slot as usize] = false;
                assert(TrapModel { slots: self@.slots, used: used@ }.wf());
                self.used = used;
                Ok(slot)
            },
            None => {
                assert(self.slots@ =~= old(self).slots@);
                Err(LibiguanaError::NoTrapForAddress(address))
            },
        }
    }

    /// The command that defines a trap at `address` in the slot that
    /// `define` would give it. Fails for want of capacity exactly when
    /// all 255 slots are taken. The table is left as it is: the trap is
    /// recorded by `commit_define` once the command has been sent.
    pub fn plan_define(&self, address: u32) -> (result: Result<Vec<u8>, LibiguanaError>)
        ensures
            match result {
                Ok(command) => self@.lowest_free() matches Some(slot) && command@
                    == define_trap_command(slot, address),
                Err(error) => self@.lowest_free() is None && error
                    == LibiguanaError::TooManyTraps,
            },
    {
        match self.lowest_free_slot() {
            Ok(slot) => Ok(encode_define_trap(slot, address)),
            Err(error) => Err(error),
        }
    }

    /// Records the outcome of sending the command of `plan_define`. A
    /// command that was sent defines the trap; one that failed to send
    /// leaves the table as it is and its failure is handed on.
    pub fn commit_define(&mut self, address: u32, sent: Result<(), LibiguanaError>) -> (result:
        Result<(), LibiguanaError>)
        ensures
            final(self)@.wf(),
            match sent {
                Ok(_) => final(self)@ == old(self)@.define(address) && match result {
                    Ok(_) => old(self)@.lowest_free() is Some,
                    Err(error) => old(self)@.lowest_free() is None && error
                        == LibiguanaError::TooManyTraps,
                },
                Err(failure) => final(self)@ == old(self)@ && result == Err::<
                    (),
                    LibiguanaError,
                >(failure),
            },
    {
        proof {
            use_type_invariant(&*self);
        }
        match sent {
            Ok(_) => match self.define(address) {
                Ok(_) => Ok(()),
                Err(error) => Err(error),
            },
            Err(failure) => Err(failure),
        }
    }

    /// The command that removes the trap at `address`. Fails exactly when
    /// no trap is defined there. The table is left as it is: the trap is
    /// forgotten by `commit_remove` once the command has been sent.
    pub fn plan_remove(&self, address: u32) -> (result: Result<Vec<u8>, LibiguanaError>)
        ensures
            match result {
                Ok(command) => self@.slot_of(address) matches Some(slot) && command@
                    == remove_trap_command(slot),
                Err(error) => self@.slot_of(address) is None && error
                    == LibiguanaError::NoTrapForAddress(address),
            },
    {
        match self.lookup(address) {
            Some(slot) => Ok(encode_remove_trap(slot)),
            None => Err(LibiguanaError::NoTrapForAddress(address)),
        }
    }

    /// Records the outcome of sending the command of `plan_remove`. A
    /// command that was sent removes the trap and frees its slot; one
    /// that failed to send leaves the table as it is and its failure is
    /// handed on.
    pub fn commit_remove(&mut self, address: u32, sent: Result<(), LibiguanaError>) -> (result:
        Result<(), LibiguanaError>)
        ensures
            final(self)@.wf(),
            match sent {
                Ok(_) => final(self)@ == old(self)@.remove(address) && match result {
                    Ok(_) => old(self)@.slot_of(address) is Some,
                    Err(error) => old(self)@.slot_of(address) is None && error
                        == LibiguanaError::NoTrapForAddress(address),
                },
                Err(failure) => final(self)@ == old(self)@ && result == Err::<
                    (),
                    LibiguanaError,
                >(failure),
            },
    {
        proof {
            use_type_invariant(&*self);
        }
        match sent {
            Ok(_) => match self.remove(address) {
                Ok(_) => Ok(()),
                Err(error) => Err(error),
            },
            Err(failure) => Err(failure),
        }
    }

    /// Records the outcome of sending the reset command. The simulator
    /// drops its traps on every reset, so the table is emptied whether or
    /// not the command was sent; the outcome is handed on unchanged.
    pub fn commit_reset(&mut self, sent: Result<(), LibiguanaError>) -> (result: Result<
        (),
        LibiguanaError,
    >)
        ensures
            final(self)@ == TrapModel::empty(),
            result == sent,
    {
        self.reset();
        sent
    }

    /// Forgets every trap and frees every slot.
    pub fn reset(&mut self)
        ensures
            final(self)@ == TrapModel::empty(),
            final(self)@.wf(),
            final(self)@.exact(),
    {
        proof {
            use_type_invariant(&*self);
        }
        let mut slots: HashMap<u32, u8> = HashMap::new();
        core::mem::swap(&mut self.slots, &mut slots);
        self.used = [false; 255];
        assert(self.used@ =~= TrapModel::empty().used);
    }
}

} // verus!
