//! What a list of actions leaves in the registers and in shared memory.

use vstd::prelude::*;

use crate::action::{modified, store_words, Action, Buffer, DmaSlot, Register};

verus! {

/// The values that the registers were last written, and what the shared memory
/// holds.
#[verifier::ext_equal]
pub struct Bank {
    pub registers: Map<Register, u32>,
    pub flags: Map<DmaSlot, u32>,
    pub addrs: Map<DmaSlot, u32>,
    pub ep0_in: Seq<u32>,
    pub ep1_in: Seq<u32>,
}

impl Bank {
    /// The bank after an action. Waiting changes nothing here: what a soft reset
    /// of the core does to the registers is left open.
    pub open spec fn after(self, action: Action) -> Bank {
        match action {
            Action::Write { register, value } => Bank {
                registers: self.registers.insert(register, value),
                ..self
            },
            Action::Modify { register, clear, set } => Bank {
                registers: self.registers.insert(
                    register,
                    modified(self.registers[register], clear, set),
                ),
                ..self
            },
            Action::SetFlags { slot, flags } => Bank {
                flags: self.flags.insert(slot, flags),
                ..self
            },
            Action::SetAddr { slot, addr } => Bank { addrs: self.addrs.insert(slot, addr), ..self },
            Action::StoreWord { buffer, index, value } => self.with_words(
                buffer,
                self.words(buffer).update(index as int, value),
            ),
            _ => self,
        }
    }

    /// The bank after the first `n` actions of a list, carried out in order.
    pub open spec fn run_first(self, actions: Seq<Action>, n: int) -> Bank
        decreases n,
    {
        if n <= 0 {
            self
        } else {
            self.run_first(actions, n - 1).after(actions[n - 1])
        }
    }

    /// The bank after a list of actions, carried out in order.
    pub open spec fn run(self, actions: Seq<Action>) -> Bank {
        self.run_first(actions, actions.len() as int)
    }

    /// What a buffer holds.
    pub open spec fn words(self, buffer: Buffer) -> Seq<u32> {
        match buffer {
            Buffer::Ep0In => self.ep0_in,
            Buffer::Ep1In => self.ep1_in,
        }
    }

    /// The bank with other contents of a buffer.
    pub open spec fn with_words(self, buffer: Buffer, words: Seq<u32>) -> Bank {
        match buffer {
            Buffer::Ep0In => Bank { ep0_in: words, ..self },
            Buffer::Ep1In => Bank { ep1_in: words, ..self },
        }
    }

    /// The bank with another value in a register.
    pub open spec fn with_register(self, register: Register, value: u32) -> Bank {
        Bank { registers: self.registers.insert(register, value), ..self }
    }

    /// The bank with other flags of a DMA descriptor.
    pub open spec fn with_flags(self, slot: DmaSlot, flags: u32) -> Bank {
        Bank { flags: self.flags.insert(slot, flags), ..self }
    }

    /// The bank with another address in a DMA descriptor.
    pub open spec fn with_addr(self, slot: DmaSlot, addr: u32) -> Bank {
        Bank { addrs: self.addrs.insert(slot, addr), ..self }
    }

    /// The buffers of the IN endpoints have their sizes.
    pub open spec fn wf(self) -> bool {
        self.ep0_in.len() == 64 && self.ep1_in.len() == 16
    }
}

/// An action neither writes nor modifies a register.
pub open spec fn spares(action: Action, register: Register) -> bool {
    match action {
        Action::Write { register: written, value: _ } => written != register,
        Action::Modify { register: written, clear: _, set: _ } => written != register,
        _ => true,
    }
}

/// No action of a list writes or modifies a register.
pub open spec fn all_spare(actions: Seq<Action>, register: Register) -> bool {
    forall|i: int| 0 <= i < actions.len() ==> spares(#[trigger] actions[i], register)
}

/// Lists that agree on their first actions leave the same bank after them.
proof fn lemma_run_first_same(bank: Bank, one: Seq<Action>, other: Seq<Action>, n: int)
    requires
        forall|i: int| 0 <= i < n ==> one[i] == other[i],
    ensures
        bank.run_first(one, n) == bank.run_first(other, n),
    decreases n,
{
    if n > 0 {
        lemma_run_first_same(bank, one, other, n - 1);
    }
}

/// Carrying out two lists one after the other is carrying out their
/// concatenation.
pub proof fn law_run_concat(bank: Bank, first: Seq<Action>, second: Seq<Action>)
    ensures
        bank.run(first + second) == bank.run(first).run(second),
{
    lemma_run_first_same(bank, first, first + second, first.len() as int);
    lemma_run_rest(bank, first, second, second.len() as int);
}

proof fn lemma_run_rest(bank: Bank, first: Seq<Action>, second: Seq<Action>, n: int)
    requires
        0 <= n <= second.len(),
        bank.run_first(first + second, first.len() as int) == bank.run(first),
    ensures
        bank.run_first(first + second, first.len() + n) == bank.run(first).run_first(second, n),
    decreases n,
{
    if n > 0 {
        lemma_run_rest(bank, first, second, n - 1);
        assert((first + second)[first.len() + n - 1] == second[n - 1]);
    }
}

/// A register that no action writes keeps its value.
pub proof fn law_run_spares(bank: Bank, actions: Seq<Action>, register: Register)
    requires
        all_spare(actions, register),
    ensures
        bank.run(actions).registers[register] == bank.registers[register],
{
    lemma_run_first_spares(bank, actions, register, actions.len() as int);
}

proof fn lemma_run_first_spares(bank: Bank, actions: Seq<Action>, register: Register, n: int)
    requires
        all_spare(actions, register),
        n <= actions.len(),
    ensures
        bank.run_first(actions, n).registers[register] == bank.registers[register],
    decreases n,
{
    if n > 0 {
        lemma_run_first_spares(bank, actions, register, n - 1);
        assert(spares(actions[n - 1], register));
    }
}

/// Storing words puts them at the start of the buffer and changes nothing else.
pub proof fn law_run_store_words(bank: Bank, buffer: Buffer, words: Seq<u32>)
    requires
        words.len() <= bank.words(buffer).len(),
        words.len() <= usize::MAX,
    ensures
        bank.run(store_words(buffer, words)) == bank.with_words(
            buffer,
            words + bank.words(buffer).skip(words.len() as int),
        ),
{
    lemma_store_first(bank, buffer, words, words.len() as int);
    assert(words.take(words.len() as int) =~= words);
}

proof fn lemma_store_first(bank: Bank, buffer: Buffer, words: Seq<u32>, n: int)
    requires
        0 <= n <= words.len() <= bank.words(buffer).len(),
        words.len() <= usize::MAX,
    ensures
        bank.run_first(store_words(buffer, words), n) == bank.with_words(
            buffer,
            words.take(n) + bank.words(buffer).skip(n),
        ),
    decreases n,
{
    let old_words = bank.words(buffer);
    if n == 0 {
        assert(words.take(0) + old_words.skip(0) =~= old_words);
    } else {
        lemma_store_first(bank, buffer, words, n - 1);
        assert((words.take(n - 1) + old_words.skip(n - 1)).update(n - 1, words[n - 1])
            =~= words.take(n) + old_words.skip(n));
    }
}

} // verus!
