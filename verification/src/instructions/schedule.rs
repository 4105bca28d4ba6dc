//! The scheduler client: has the task scheduler call the request dispatcher later.

use crate::address::{signer_of, signer_seeds, Address, PROGRAM_ID};
use crate::error::SolanaGptOracleError;
use crate::state::OracleState;
use crate::transaction::{
    compile, compiled_view, AccountMeta, AccountMetaView, CompiledTransaction,
    CompiledTransactionView, Instruction, InstructionView,
};
use vstd::prelude::*;
use vstd::slice::slice_to_vec;

verus! {

/// The seed of the address that queues tasks for this program: the bytes of
/// `queue_authority`.
pub const QUEUE_AUTHORITY_SEED: [u8; 15] = [
    113, 117, 101, 117, 101, 95, 97, 117, 116, 104, 111, 114, 105, 116, 121,
];

/// What selects the request dispatcher among this program's operations: the first eight
/// bytes of the SHA-256 digest of `global:request_gpt`.
pub const REQUEST_GPT_DISCRIMINATOR: [u8; 8] = [117, 254, 168, 109, 124, 157, 31, 134];

/// What the scheduler is paid for running the task.
pub const CRANK_REWARD: u64 = 1000001;

/// How many slots for follow-up tasks are reserved.
pub const FREE_TASKS: u8 = 1;

/// How the task describes itself.
pub const TASK_DESCRIPTION: &'static str = "solana-gpt-oracle request";

/// Bump of the address that scheduling derives.
#[derive(Clone, Copy, Debug, PartialEq, Eq)]
pub struct ScheduleBumps {
    pub queue_authority: u8,
}

/// What the scheduler client works on.
#[derive(Clone, Debug, PartialEq, Eq)]
pub struct Schedule {
    /// Who pays for the task.
    pub payer: Address,
    /// The state record.
    pub oracle_state: OracleState,
    /// The address of the state record.
    pub oracle_state_key: Address,
    /// The treasury.
    pub treasury: Address,
    /// The record that the oracle will keep of the request.
    pub interaction: Address,
    /// The queue that takes the task.
    pub task_queue: Address,
    /// The account of the new task.
    pub task: Address,
    /// The address that queues tasks for this program.
    pub queue_authority: Address,
    pub oracle_program: Address,
    pub system_program: Address,
    pub tuktuk_program: Address,
}

/// When a task is to run.
#[derive(Clone, Copy, Debug, PartialEq, Eq, Structural)]
pub enum Trigger {
    /// As soon as possible.
    Now,
    /// At or after a point in time, in seconds since the epoch.
    Timestamp(i64),
}

/// What the scheduler is told of a task.
#[derive(Clone, Debug, PartialEq, Eq)]
pub struct QueueTaskArgs {
    pub trigger: Trigger,
    /// The call to make when the task runs.
    pub transaction: CompiledTransaction,
    pub crank_reward: Option<u64>,
    pub free_tasks: u8,
    pub id: u16,
    pub description: String,
}

/// A request to the scheduler to queue a task.
#[derive(Clone, Debug, PartialEq, Eq)]
pub struct QueueTask {
    /// The program to call.
    pub tuktuk_program: Address,
    pub payer: Address,
    pub queue_authority: Address,
    pub task_queue: Address,
    pub task_queue_authority: Address,
    pub task: Address,
    pub system_program: Address,
    /// For each derived address that signs, the seeds it is derived from.
    pub signer_seeds: Vec<Vec<Vec<u8>>>,
    pub args: QueueTaskArgs,
}

/// What a [`QueueTaskArgs`] holds, as mathematical values.
pub struct QueueTaskArgsView {
    pub trigger: Trigger,
    pub transaction: CompiledTransactionView,
    pub crank_reward: Option<u64>,
    pub free_tasks: u8,
    pub id: u16,
    pub description: Seq<char>,
}

/// What a [`QueueTask`] holds, as mathematical values.
pub struct QueueTaskView {
    pub tuktuk_program: Seq<u8>,
    pub payer: Seq<u8>,
    pub queue_authority: Seq<u8>,
    pub task_queue: Seq<u8>,
    pub task_queue_authority: Seq<u8>,
    pub task: Seq<u8>,
    pub system_program: Seq<u8>,
    pub signer_seeds: Seq<Seq<Seq<u8>>>,
    pub args: QueueTaskArgsView,
}

impl View for QueueTaskArgs {
    type V = QueueTaskArgsView;

    open spec fn view(&self) -> QueueTaskArgsView {
        QueueTaskArgsView {
            trigger: self.trigger,
            transaction: self.transaction@,
            crank_reward: self.crank_reward,
            free_tasks: self.free_tasks,
            id: self.id,
            description: self.description@,
        }
    }
}

impl View for QueueTask {
    type V = QueueTaskView;

    open spec fn view(&self) -> QueueTaskView {
        QueueTaskView {
            tuktuk_program: self.tuktuk_program@,
            payer: self.payer@,
            queue_authority: self.queue_authority@,
            task_queue: self.task_queue@,
            task_queue_authority: self.task_queue_authority@,
            task: self.task@,
            system_program: self.system_program@,
            signer_seeds: self.signer_seeds.deep_view(),
            args: self.args@,
        }
    }
}

/// An account that is written to and does not sign.
pub open spec fn writable(pubkey: Seq<u8>) -> AccountMetaView {
    AccountMetaView { pubkey, is_signer: false, is_writable: true }
}

/// An account that is only read and does not sign.
pub open spec fn readonly(pubkey: Seq<u8>) -> AccountMetaView {
    AccountMetaView { pubkey, is_signer: false, is_writable: false }
}

/// An account that signs and is only read.
pub open spec fn signer(pubkey: Seq<u8>) -> AccountMetaView {
    AccountMetaView { pubkey, is_signer: true, is_writable: false }
}

impl Schedule {
    /// The deferred call: one call of this program's request dispatcher, on the state
    /// record, the treasury, the interaction and the registered context, all four to be
    /// written to, signed by the scheduler authority, with the system program and the
    /// oracle program to call into.
    pub open spec fn dispatch(&self) -> InstructionView {
        InstructionView {
            program_id: PROGRAM_ID@,
            accounts: seq![
                writable(self.oracle_state_key@),
                writable(self.treasury@),
                writable(self.interaction@),
                writable(self.oracle_state@.context_ref),
                signer(self.oracle_state@.scheduler_authority),
                readonly(self.system_program@),
                readonly(self.oracle_program@),
            ],
            data: REQUEST_GPT_DISCRIMINATOR@,
        }
    }

    /// The request that queues `transaction` as task `task_id`: to run as soon as possible,
    /// for the fixed reward, with one slot reserved, signed by the queue authority.
    pub open spec fn queueing(
        &self,
        task_id: u16,
        bumps: ScheduleBumps,
        transaction: CompiledTransactionView,
    ) -> QueueTaskView {
        QueueTaskView {
            tuktuk_program: self.tuktuk_program@,
            payer: self.payer@,
            queue_authority: self.queue_authority@,
            task_queue: self.task_queue@,
            task_queue_authority: self.oracle_state@.scheduler_authority,
            task: self.task@,
            system_program: self.system_program@,
            signer_seeds: signer_of(QUEUE_AUTHORITY_SEED@, bumps.queue_authority),
            args: QueueTaskArgsView {
                trigger: Trigger::Now,
                transaction,
                crank_reward: Some(CRANK_REWARD),
                free_tasks: FREE_TASKS,
                id: task_id,
                description: TASK_DESCRIPTION@,
            },
        }
    }

    /// The deferred call, see [`Schedule::dispatch`].
    pub fn dispatch_instruction(&self) -> (instruction: Instruction)
        ensures
            instruction@ == self.dispatch(),
    {
        let mut accounts: Vec<AccountMeta> = Vec::new();
        accounts.push(
            AccountMeta { pubkey: self.oracle_state_key, is_signer: false, is_writable: true },
        );
        accounts.push(AccountMeta { pubkey: self.treasury, is_signer: false, is_writable: true });
        accounts.push(
            AccountMeta { pubkey: self.interaction, is_signer: false, is_writable: true },
        );
        accounts.push(
            AccountMeta {
                pubkey: self.oracle_state.context_ref,
                is_signer: false,
                is_writable: true,
            },
        );
        accounts.push(
            AccountMeta {
                pubkey: self.oracle_state.scheduler_authority,
                is_signer: true,
                is_writable: false,
            },
        );
        accounts.push(
            AccountMeta { pubkey: self.system_program, is_signer: false, is_writable: false },
        );
        accounts.push(
            AccountMeta { pubkey: self.oracle_program, is_signer: false, is_writable: false },
        );
        assert(accounts.deep_view() =~= self.dispatch().accounts);
        Instruction {
            program_id: Address::program(),
            accounts,
            data: slice_to_vec(REQUEST_GPT_DISCRIMINATOR.as_slice()),
        }
    }

    /// What queueing comes to, where `compiled` is what the scheduler's compiler made of
    /// the deferred call. Scheduling before any context is registered is refused first.
    /// The compiled call is refused where there is none, and where it does not run exactly
    /// the deferred call. Otherwise the request that queues it as task `task_id` is
    /// returned.
    pub open spec fn queue_outcome(
        &self,
        task_id: u16,
        bumps: ScheduleBumps,
        compiled: Option<CompiledTransactionView>,
        sent: Result<QueueTask, SolanaGptOracleError>,
    ) -> bool {
        match sent {
            Ok(request) => {
                &&& self.oracle_state@.context_set()
                &&& compiled matches Some(transaction)
                &&& transaction.runs(seq![self.dispatch()])
                &&& request@ == self.queueing(task_id, bumps, transaction)
            },
            Err(e) => if !self.oracle_state@.context_set() {
                e == SolanaGptOracleError::ContextNotInitialized
            } else {
                &&& e == SolanaGptOracleError::TaskCompilationFailed
                &&& !(compiled matches Some(transaction) && transaction.runs(
                    seq![self.dispatch()],
                ))
            },
        }
    }

    /// What scheduling comes to. Scheduling before any context is registered is refused.
    /// Otherwise either the compilation of the deferred call has failed, or a request is
    /// returned that queues, as task `task_id`, a transaction that runs exactly the
    /// deferred call. The accounts are never changed.
    pub open spec fn outcome(
        before: Schedule,
        after: Schedule,
        task_id: u16,
        bumps: ScheduleBumps,
        sent: Result<QueueTask, SolanaGptOracleError>,
    ) -> bool {
        &&& after == before
        &&& match sent {
            Ok(request) => {
                &&& before.oracle_state@.context_set()
                &&& request@.args.transaction.runs(seq![before.dispatch()])
                &&& request@ == before.queueing(task_id, bumps, request@.args.transaction)
            },
            Err(e) => e == if !before.oracle_state@.context_set() {
                SolanaGptOracleError::ContextNotInitialized
            } else {
                SolanaGptOracleError::TaskCompilationFailed
            },
        }
    }

    /// Given what the scheduler's compiler made of the deferred call, the request that
    /// queues it as task `task_id`, see [`Schedule::queue_outcome`].
    pub fn queue_task(
        &self,
        task_id: u16,
        bumps: ScheduleBumps,
        compiled: Option<CompiledTransaction>,
    ) -> (sent: Result<QueueTask, SolanaGptOracleError>)
        ensures
            self.queue_outcome(task_id, bumps, compiled_view(compiled), sent),
    {
        if !self.oracle_state.context_set() {
            return Err(SolanaGptOracleError::ContextNotInitialized);
        }
        let transaction = match compiled {
            Some(transaction) => transaction,
            None => {
                return Err(SolanaGptOracleError::TaskCompilationFailed);
            },
        };
        let mut instructions: Vec<Instruction> = Vec::new();
        instructions.push(self.dispatch_instruction());
        assert(instructions.deep_view() =~= seq![self.dispatch()]);
        if !transaction.runs(&instructions) {
            return Err(SolanaGptOracleError::TaskCompilationFailed);
        }
        Ok(
            QueueTask {
                tuktuk_program: self.tuktuk_program,
                payer: self.payer,
                queue_authority: self.queue_authority,
                task_queue: self.task_queue,
                task_queue_authority: self.oracle_state.scheduler_authority,
                task: self.task,
                system_program: self.system_program,
                signer_seeds: signer_seeds(
                    QUEUE_AUTHORITY_SEED.as_slice(),
                    bumps.queue_authority,
                ),
                args: QueueTaskArgs {
                    trigger: Trigger::Now,
                    transaction,
                    crank_reward: Some(CRANK_REWARD),
                    free_tasks: FREE_TASKS,
                    id: task_id,
                    description: TASK_DESCRIPTION.to_owned(),
                },
            },
        )
    }

    /// Schedules one dispatch: hands the deferred call to the scheduler's compiler, and
    /// returns the request that queues what comes back as task `task_id`. What comes back
    /// is not known beforehand, so neither is whether the compilation fails; see
    /// [`Schedule::outcome`] for what holds either way, and [`Schedule::queue_task`] for
    /// what is made of each compiled call.
    pub fn schedule(&mut self, task_id: u16, bumps: ScheduleBumps) -> (sent: Result<
        QueueTask,
        SolanaGptOracleError,
    >)
        ensures
            Schedule::outcome(*old(self), *final(self), task_id, bumps, sent),
    {
        if !self.oracle_state.context_set() {
            return Err(SolanaGptOracleError::ContextNotInitialized);
        }
        let mut instructions: Vec<Instruction> = Vec::new();
        instructions.push(self.dispatch_instruction());
        let compiled = compile(&instructions);
        self.queue_task(task_id, bumps, compiled)
    }
}

} // verus!
