//! Instructions, and the compiled form in which the task scheduler stores them.

use crate::address::Address;
use anchor_lang::error::Error;
use anchor_lang::solana_program::instruction::AccountMeta as OutsideAccountMeta;
use anchor_lang::solana_program::instruction::Instruction as OutsideInstruction;
use tuktuk_program::types::CompiledTransactionV0;
use vstd::prelude::*;

verus! {

/// One account that an instruction touches, and what it may do with it.
#[derive(Clone, Debug, PartialEq, Eq)]
pub struct AccountMeta {
    pub pubkey: Address,
    pub is_signer: bool,
    pub is_writable: bool,
}

/// What an [`AccountMeta`] holds, as mathematical values.
pub struct AccountMetaView {
    pub pubkey: Seq<u8>,
    pub is_signer: bool,
    pub is_writable: bool,
}

impl View for AccountMeta {
    type V = AccountMetaView;

    open spec fn view(&self) -> AccountMetaView {
        AccountMetaView {
            pubkey: self.pubkey@,
            is_signer: self.is_signer,
            is_writable: self.is_writable,
        }
    }
}

/// A call of a program: the program, the accounts it is given, and its input.
#[derive(Clone, Debug, PartialEq, Eq)]
pub struct Instruction {
    pub program_id: Address,
    pub accounts: Vec<AccountMeta>,
    pub data: Vec<u8>,
}

/// What an [`Instruction`] holds, as mathematical values.
pub struct InstructionView {
    pub program_id: Seq<u8>,
    pub accounts: Seq<AccountMetaView>,
    pub data: Seq<u8>,
}

impl View for Instruction {
    type V = InstructionView;

    open spec fn view(&self) -> InstructionView {
        InstructionView {
            program_id: self.program_id@,
            accounts: self.accounts.deep_view(),
            data: self.data@,
        }
    }
}

impl DeepView for Instruction {
    type V = InstructionView;

    open spec fn deep_view(&self) -> InstructionView {
        self@
    }
}

impl DeepView for AccountMeta {
    type V = AccountMetaView;

    open spec fn deep_view(&self) -> AccountMetaView {
        self@
    }
}

/// An instruction whose program and accounts are indices into the account list of its
/// transaction.
#[derive(Clone, Debug, PartialEq, Eq)]
pub struct CompiledInstruction {
    pub program_id_index: u8,
    pub accounts: Vec<u8>,
    pub data: Vec<u8>,
}

/// What a [`CompiledInstruction`] holds, as mathematical values.
pub struct CompiledInstructionView {
    pub program_id_index: u8,
    pub accounts: Seq<u8>,
    pub data: Seq<u8>,
}

impl View for CompiledInstruction {
    type V = CompiledInstructionView;

    open spec fn view(&self) -> CompiledInstructionView {
        CompiledInstructionView {
            program_id_index: self.program_id_index,
            accounts: self.accounts@,
            data: self.data@,
        }
    }
}

impl DeepView for CompiledInstruction {
    type V = CompiledInstructionView;

    open spec fn deep_view(&self) -> CompiledInstructionView {
        self@
    }
}

/// A transaction in the scheduler's compact form. The accounts come in four runs: writable
/// signers, read-only signers, writable non-signers, read-only non-signers; the three counts
/// give the lengths of the first three runs.
#[derive(Clone, Debug, PartialEq, Eq)]
pub struct CompiledTransaction {
    pub num_rw_signers: u8,
    pub num_ro_signers: u8,
    pub num_rw: u8,
    pub accounts: Vec<Address>,
    pub instructions: Vec<CompiledInstruction>,
    pub signer_seeds: Vec<Vec<Vec<u8>>>,
}

/// What a [`CompiledTransaction`] holds, as mathematical values.
pub struct CompiledTransactionView {
    pub num_rw_signers: u8,
    pub num_ro_signers: u8,
    pub num_rw: u8,
    pub accounts: Seq<Seq<u8>>,
    pub instructions: Seq<CompiledInstructionView>,
    pub signer_seeds: Seq<Seq<Seq<u8>>>,
}

impl View for CompiledTransaction {
    type V = CompiledTransactionView;

    open spec fn view(&self) -> CompiledTransactionView {
        CompiledTransactionView {
            num_rw_signers: self.num_rw_signers,
            num_ro_signers: self.num_ro_signers,
            num_rw: self.num_rw,
            accounts: self.accounts.deep_view(),
            instructions: self.instructions.deep_view(),
            signer_seeds: self.signer_seeds.deep_view(),
        }
    }
}

/// What a compiled transaction holds, if there is one.
pub open spec fn compiled_view(compiled: Option<CompiledTransaction>) -> Option<
    CompiledTransactionView,
> {
    match compiled {
        Some(transaction) => Some(transaction@),
        None => None,
    }
}

impl CompiledTransactionView {
    /// The account at `index` signs the transaction.
    pub open spec fn signer_at(self, index: int) -> bool {
        0 <= index < self.num_rw_signers + self.num_ro_signers
    }

    /// The account at `index` may be written to.
    pub open spec fn writable_at(self, index: int) -> bool {
        ||| 0 <= index < self.num_rw_signers
        ||| self.num_rw_signers + self.num_ro_signers <= index < self.num_rw_signers
            + self.num_ro_signers + self.num_rw
    }

    /// The account at `index` is the one that `meta` names, and has at least the rights
    /// that `meta` asks for.
    pub open spec fn grants(self, index: int, meta: AccountMetaView) -> bool {
        &&& 0 <= index < self.accounts.len()
        &&& self.accounts[index] == meta.pubkey
        &&& meta.is_signer ==> self.signer_at(index)
        &&& meta.is_writable ==> self.writable_at(index)
    }

    /// The compiled instruction at `position` stands for `instruction`: the same program,
    /// the same accounts in the same order with the rights asked for, the same input.
    pub open spec fn carries(self, position: int, instruction: InstructionView) -> bool {
        let compiled = self.instructions[position];
        &&& 0 <= position < self.instructions.len()
        &&& compiled.program_id_index < self.accounts.len()
        &&& self.accounts[compiled.program_id_index as int] == instruction.program_id
        &&& compiled.data == instruction.data
        &&& compiled.accounts.len() == instruction.accounts.len()
        &&& forall|j: int|
            0 <= j < instruction.accounts.len() ==> self.grants(
                #[trigger] compiled.accounts[j] as int,
                instruction.accounts[j],
            )
    }

    /// The transaction runs `instructions`, in their order and nothing else, and signs with
    /// no seeds of its own.
    pub open spec fn runs(self, instructions: Seq<InstructionView>) -> bool {
        &&& self.num_rw_signers + self.num_ro_signers + self.num_rw <= self.accounts.len()
        &&& self.signer_seeds.len() == 0
        &&& self.instructions.len() == instructions.len()
        &&& forall|k: int|
            0 <= k < instructions.len() ==> #[trigger] self.carries(k, instructions[k])
    }
}

#[verifier::external_type_specification]
#[verifier::external_body]
pub struct ExCompiledTransactionV0(tuktuk_program::types::CompiledTransactionV0);

#[verifier::external_type_specification]
#[verifier::external_body]
pub struct ExAnchorError(anchor_lang::error::Error);

/// Most accounts that the instructions of one transaction may name, see [`named_accounts`].
pub const MAX_NAMED_ACCOUNTS: usize = 255;

/// How many accounts the instructions name, each instruction's program included and each
/// account counted as often as it is named.
pub open spec fn named_accounts(instructions: Seq<InstructionView>) -> nat
    decreases instructions.len(),
{
    if instructions.len() == 0 {
        0
    } else {
        named_accounts(instructions.drop_last()) + 1 + instructions.last().accounts.len()
    }
}

/// Calls `tuktuk_program::compile_transaction` on the instructions and signer seeds, and keeps
/// the compiled transaction of what it returns. Nothing is claimed of the result: the order
/// of its accounts is not fixed by the arguments. The bound keeps the outside function's
/// `u8` counters and indices in range: it counts and numbers the distinct accounts, of
/// which there are no more than are named.
#[verifier::external_body]
fn compile_transaction(
    instructions: &Vec<Instruction>,
    signer_seeds: Vec<Vec<Vec<u8>>>,
) -> (compiled: Result<CompiledTransactionV0, Error>)
    requires
        named_accounts(instructions.deep_view()) <= MAX_NAMED_ACCOUNTS,
{
    let outside = instructions.iter().map(|ix| OutsideInstruction {
        program_id: ix.program_id.bytes.into(),
        accounts: ix.accounts.iter().map(|m| OutsideAccountMeta {
            pubkey: m.pubkey.bytes.into(),
            is_signer: m.is_signer,
            is_writable: m.is_writable,
        }).collect(),
        data: ix.data.clone(),
    }).collect();
    tuktuk_program::compile_transaction(outside, signer_seeds).map(|(tx, _)| tx)
}

/// Moves the fields of a `tuktuk_program::types::CompiledTransactionV0` into a
/// [`CompiledTransaction`], each account through `Pubkey::to_bytes`. Nothing is claimed of
/// the result.
#[verifier::external_body]
fn compiled_parts(tx: CompiledTransactionV0) -> (parts: CompiledTransaction) {
    CompiledTransaction {
        num_rw_signers: tx.num_rw_signers,
        num_ro_signers: tx.num_ro_signers,
        num_rw: tx.num_rw,
        accounts: tx.accounts.iter().map(|k| Address { bytes: k.to_bytes() }).collect(),
        instructions: tx.instructions.into_iter().map(|c| CompiledInstruction {
            program_id_index: c.program_id_index,
            accounts: c.accounts,
            data: c.data,
        }).collect(),
        signer_seeds: tx.signer_seeds,
    }
}

/// A part of the instructions names no more accounts than all of them.
pub proof fn lemma_named_accounts_grow(instructions: Seq<InstructionView>, k: int)
    requires
        0 <= k <= instructions.len(),
    ensures
        named_accounts(instructions.take(k)) <= named_accounts(instructions),
    decreases instructions.len(),
{
    if k == instructions.len() {
        assert(instructions.take(k) =~= instructions);
    } else {
        lemma_named_accounts_grow(instructions.drop_last(), k);
        assert(instructions.drop_last().take(k) =~= instructions.take(k));
    }
}

/// Whether the instructions name at most [`MAX_NAMED_ACCOUNTS`] accounts.
pub fn within_account_limit(instructions: &Vec<Instruction>) -> (within: bool)
    ensures
        within == (named_accounts(instructions.deep_view()) <= MAX_NAMED_ACCOUNTS),
{
    let ghost all = instructions.deep_view();
    let mut named: usize = 0;
    let mut k: usize = 0;
    while k < instructions.len()
        invariant
            k <= instructions.len(),
            all == instructions.deep_view(),
            named == named_accounts(all.take(k as int)),
            named <= MAX_NAMED_ACCOUNTS,
        decreases instructions.len() - k,
    {
        let more: usize = instructions[k].accounts.len();
        proof {
            assert(all.take(k + 1).drop_last() =~= all.take(k as int));
            assert(all.take(k + 1).last() == instructions[k as int]@);
            assert(instructions[k as int]@.accounts.len() == more);
            lemma_named_accounts_grow(all, k + 1);
        }
        if more >= MAX_NAMED_ACCOUNTS - named {
            return false;
        }
        named = named + 1 + more;
        k = k + 1;
    }
    assert(all.take(k as int) =~= all);
    true
}

/// Whether two byte strings are the same.
pub fn same_bytes(a: &Vec<u8>, b: &Vec<u8>) -> (same: bool)
    ensures
        same == (a@ == b@),
{
    if a.len() != b.len() {
        return false;
    }
    let mut i: usize = 0;
    while i < a.len()
        invariant
            i <= a.len(),
            a.len() == b.len(),
            forall|j: int| 0 <= j < i ==> a@[j] == b@[j],
        decreases a.len() - i,
    {
        if a[i] != b[i] {
            return false;
        }
        i = i + 1;
    }
    assert(a@ =~= b@);
    true
}

impl CompiledTransaction {
    /// Whether the account at `index` signs the transaction.
    pub fn signer_at(&self, index: usize) -> (signs: bool)
        ensures
            signs == self@.signer_at(index as int),
    {
        let signers: usize = self.num_rw_signers as usize + self.num_ro_signers as usize;
        index < signers
    }

    /// Whether the account at `index` may be written to.
    pub fn writable_at(&self, index: usize) -> (writable: bool)
        ensures
            writable == self@.writable_at(index as int),
    {
        let signers: usize = self.num_rw_signers as usize + self.num_ro_signers as usize;
        index < self.num_rw_signers as usize || (signers <= index && index < signers
            + self.num_rw as usize)
    }

    /// Whether the account at `index` is the one that `meta` names, with at least the rights
    /// that `meta` asks for.
    pub fn grants(&self, index: usize, meta: &AccountMeta) -> (granted: bool)
        ensures
            granted == self@.grants(index as int, meta@),
    {
        if index >= self.accounts.len() {
            return false;
        }
        if !self.accounts[index].same_as(&meta.pubkey) {
            return false;
        }
        if meta.is_signer && !self.signer_at(index) {
            return false;
        }
        if meta.is_writable && !self.writable_at(index) {
            return false;
        }
        true
    }

    /// Whether the compiled instruction at `position` stands for `instruction`.
    pub fn carries(&self, position: usize, instruction: &Instruction) -> (carried: bool)
        ensures
            carried == self@.carries(position as int, instruction@),
    {
        if position >= self.instructions.len() {
            return false;
        }
        let compiled = &self.instructions[position];
        assert(self@.instructions[position as int] == compiled@);
        let program: usize = compiled.program_id_index as usize;
        if program >= self.accounts.len() {
            return false;
        }
        if !self.accounts[program].same_as(&instruction.program_id) {
            return false;
        }
        if !same_bytes(&compiled.data, &instruction.data) {
            return false;
        }
        if compiled.accounts.len() != instruction.accounts.len() {
            return false;
        }
        let mut j: usize = 0;
        while j < instruction.accounts.len()
            invariant
                j <= instruction.accounts.len(),
                compiled.accounts.len() == instruction.accounts.len(),
                self@.instructions[position as int] == compiled@,
                forall|i: int|
                    0 <= i < j ==> self@.grants(
                        #[trigger] compiled@.accounts[i] as int,
                        instruction@.accounts[i],
                    ),
            decreases instruction.accounts.len() - j,
        {
            if !self.grants(compiled.accounts[j] as usize, &instruction.accounts[j]) {
                assert(!self@.grants(
                    compiled@.accounts[j as int] as int,
                    instruction@.accounts[j as int],
                ));
                return false;
            }
            j = j + 1;
        }
        true
    }

    /// Whether the transaction runs `instructions`, in their order and nothing else, and
    /// signs with no seeds of its own.
    pub fn runs(&self, instructions: &Vec<Instruction>) -> (faithful: bool)
        ensures
            faithful == self@.runs(instructions.deep_view()),
    {
        let marked: usize = self.num_rw_signers as usize + self.num_ro_signers as usize
            + self.num_rw as usize;
        if marked > self.accounts.len() {
            return false;
        }
        if self.signer_seeds.len() != 0 {
            return false;
        }
        if self.instructions.len() != instructions.len() {
            return false;
        }
        let mut k: usize = 0;
        while k < instructions.len()
            invariant
                k <= instructions.len(),
                self.instructions.len() == instructions.len(),
                forall|i: int|
                    0 <= i < k ==> #[trigger] self@.carries(i, instructions.deep_view()[i]),
            decreases instructions.len() - k,
        {
            assert(instructions.deep_view()[k as int] == instructions[k as int]@);
            if !self.carries(k, &instructions[k]) {
                return false;
            }
            k = k + 1;
        }
        true
    }
}

/// A transaction runs one instruction and nothing else exactly if it holds one compiled
/// instruction, which stands for it, its counts stay within its accounts, and it signs with
/// no seeds of its own.
pub proof fn lemma_runs_one(transaction: CompiledTransactionView, instruction: InstructionView)
    ensures
        transaction.runs(seq![instruction]) <==> {
            &&& transaction.num_rw_signers + transaction.num_ro_signers + transaction.num_rw
                <= transaction.accounts.len()
            &&& transaction.signer_seeds.len() == 0
            &&& transaction.instructions.len() == 1
            &&& transaction.carries(0, instruction)
        },
{
    let one = seq![instruction];
    assert(one[0] == instruction);
    if transaction.runs(one) {
        assert(transaction.carries(0, one[0]));
    }
}

/// Brings `instructions` into the scheduler's form, with no signer seeds of their own.
/// What the scheduler's compiler returns is kept only if it runs exactly `instructions`.
/// There is no result where they name more than [`MAX_NAMED_ACCOUNTS`] accounts, where the
/// compiler fails, or where what it returns does not run them.
pub fn compile(instructions: &Vec<Instruction>) -> (compiled: Option<CompiledTransaction>)
    ensures
        compiled matches Some(transaction) ==> transaction@.runs(instructions.deep_view()),
        named_accounts(instructions.deep_view()) > MAX_NAMED_ACCOUNTS ==> compiled is None,
{
    if !within_account_limit(instructions) {
        return None;
    }
    match compile_transaction(instructions, Vec::new()) {
        Ok(raw) => {
            let transaction = compiled_parts(raw);
            if transaction.runs(instructions) {
                Some(transaction)
            } else {
                None
            }
        },
        Err(_) => None,
    }
}

} // verus!
