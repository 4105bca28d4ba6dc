use anchor_lang::prelude::Pubkey;
use anchor_lang::solana_program::instruction::{
    AccountMeta as OutsideMeta, Instruction as OutsideInstruction,
};
use tuktuk_counter::instructions::schedule::{
    CRANK_REWARD, FREE_TASKS, REQUEST_GPT_DISCRIMINATOR,
};
use tuktuk_counter::transaction::{
    compile, AccountMeta, CompiledInstruction, CompiledTransaction, Instruction,
};
use tuktuk_counter::{
    schedule, Address, OracleState, Schedule, ScheduleBumps, SolanaGptOracleError, Trigger,
};

fn key(byte: u8) -> Address {
    Address { bytes: [byte; 32] }
}

fn accounts() -> Schedule {
    Schedule {
        payer: key(10),
        oracle_state: OracleState {
            owner_bump: 254,
            treasury_bump: 253,
            requests: 4,
            context_ref: key(12),
            default_prompt: String::from("agent"),
            last_response: String::new(),
            scheduler_authority: key(1),
        },
        oracle_state_key: key(30),
        treasury: key(21),
        interaction: key(31),
        task_queue: key(40),
        task: key(41),
        queue_authority: key(42),
        oracle_program: Address::oracle_program(),
        system_program: Address::unset(),
        tuktuk_program: key(43),
    }
}

fn bumps() -> ScheduleBumps {
    ScheduleBumps { queue_authority: 252 }
}

/// The deferred call of `accounts()`, compiled by hand: the authority first, as the only
/// signer, then the four accounts to write to, then the three that are only read.
fn by_hand() -> CompiledTransaction {
    CompiledTransaction {
        num_rw_signers: 0,
        num_ro_signers: 1,
        num_rw: 4,
        accounts: vec![
            key(1),
            key(30),
            key(21),
            key(31),
            key(12),
            Address::unset(),
            Address::oracle_program(),
            Address::program(),
        ],
        instructions: vec![CompiledInstruction {
            program_id_index: 7,
            accounts: vec![1, 2, 3, 4, 0, 5, 6],
            data: REQUEST_GPT_DISCRIMINATOR.to_vec(),
        }],
        signer_seeds: vec![],
    }
}

#[test]
fn schedule_refuses_without_a_context() {
    let mut scheduler = accounts();
    scheduler.oracle_state.context_ref = Address::unset();
    let before = scheduler.clone();
    assert_eq!(scheduler.schedule(1, bumps()), Err(SolanaGptOracleError::ContextNotInitialized));
    assert_eq!(scheduler, before);
}

#[test]
fn schedule_refuses_without_a_context_whatever_else_is_given() {
    for task_id in [0u16, 1, 500, u16::MAX] {
        for bump in [0u8, 7, 255] {
            let mut scheduler = accounts();
            scheduler.oracle_state.context_ref = Address::unset();
            scheduler.payer = key(bump);
            scheduler.oracle_state.requests = task_id as u64;
            assert_eq!(
                scheduler.schedule(task_id, ScheduleBumps { queue_authority: bump }),
                Err(SolanaGptOracleError::ContextNotInitialized)
            );
            assert_eq!(
                scheduler.queue_task(
                    task_id,
                    ScheduleBumps { queue_authority: bump },
                    Some(by_hand())
                ),
                Err(SolanaGptOracleError::ContextNotInitialized)
            );
        }
    }
}

#[test]
fn schedule_queues_a_call_of_the_dispatcher() {
    let mut scheduler = accounts();
    let sent = scheduler.schedule(1, bumps()).unwrap();
    assert_eq!(scheduler, accounts());
    assert_eq!(sent.tuktuk_program, key(43));
    assert_eq!(sent.payer, key(10));
    assert_eq!(sent.queue_authority, key(42));
    assert_eq!(sent.task_queue, key(40));
    assert_eq!(sent.task_queue_authority, key(1));
    assert_eq!(sent.task, key(41));
    assert_eq!(sent.system_program, Address::unset());
    assert_eq!(sent.signer_seeds, vec![vec![b"queue_authority".to_vec(), vec![252u8]]]);
    assert_eq!(sent.args.trigger, Trigger::Now);
    assert_eq!(sent.args.crank_reward, Some(1_000_001));
    assert_eq!(sent.args.free_tasks, 1);
    assert_eq!(sent.args.id, 1);
    assert_eq!(sent.args.description, "solana-gpt-oracle request");

    let transaction = &sent.args.transaction;
    assert!(transaction.runs(&vec![scheduler.dispatch_instruction()]));
    assert_eq!(transaction.num_rw_signers, 0);
    assert_eq!(transaction.num_ro_signers, 1);
    assert_eq!(transaction.num_rw, 4);
    assert_eq!(transaction.accounts.len(), 8);
    assert_eq!(transaction.accounts[0], key(1));
    assert!(transaction.signer_seeds.is_empty());
    assert_eq!(transaction.instructions.len(), 1);
    let compiled = &transaction.instructions[0];
    assert_eq!(compiled.data, REQUEST_GPT_DISCRIMINATOR.to_vec());
    assert_eq!(transaction.accounts[compiled.program_id_index as usize], Address::program());
    let named: Vec<Address> =
        compiled.accounts.iter().map(|index| transaction.accounts[*index as usize]).collect();
    assert_eq!(
        named,
        vec![
            key(30),
            key(21),
            key(31),
            key(12),
            key(1),
            Address::unset(),
            Address::oracle_program()
        ]
    );
}

#[test]
fn schedule_does_not_touch_the_counter() {
    let mut scheduler = accounts();
    for task_id in 0..5u16 {
        assert_eq!(scheduler.schedule(task_id, bumps()).unwrap().args.id, task_id);
        assert_eq!(scheduler.oracle_state.requests, 4);
    }
    assert_eq!(scheduler, accounts());
}

#[test]
fn schedule_entry_point_does_the_same() {
    let mut scheduler = accounts();
    let sent = schedule(&mut scheduler, 9, bumps()).unwrap();
    assert_eq!(sent.args.id, 9);
    assert!(sent.args.transaction.runs(&vec![scheduler.dispatch_instruction()]));
    scheduler.oracle_state.context_ref = Address::unset();
    assert_eq!(
        schedule(&mut scheduler, 9, bumps()),
        Err(SolanaGptOracleError::ContextNotInitialized)
    );
}

#[test]
fn dispatch_instruction_names_the_fixed_accounts() {
    let scheduler = accounts();
    assert_eq!(
        scheduler.dispatch_instruction(),
        Instruction {
            program_id: Address::program(),
            accounts: vec![
                AccountMeta { pubkey: key(30), is_signer: false, is_writable: true },
                AccountMeta { pubkey: key(21), is_signer: false, is_writable: true },
                AccountMeta { pubkey: key(31), is_signer: false, is_writable: true },
                AccountMeta { pubkey: key(12), is_signer: false, is_writable: true },
                AccountMeta { pubkey: key(1), is_signer: true, is_writable: false },
                AccountMeta { pubkey: Address::unset(), is_signer: false, is_writable: false },
                AccountMeta {
                    pubkey: Address::oracle_program(),
                    is_signer: false,
                    is_writable: false,
                },
            ],
            data: vec![117, 254, 168, 109, 124, 157, 31, 134],
        }
    );
}

#[test]
fn queue_task_takes_a_faithful_compilation() {
    let scheduler = accounts();
    let sent = scheduler.queue_task(3, bumps(), Some(by_hand())).unwrap();
    assert_eq!(sent.args.transaction, by_hand());
    assert_eq!(sent.args.id, 3);
    assert_eq!(sent.args.trigger, Trigger::Now);
    assert_eq!(sent.args.crank_reward, Some(CRANK_REWARD));
    assert_eq!(sent.args.free_tasks, FREE_TASKS);
    assert_eq!(sent.signer_seeds, vec![vec![b"queue_authority".to_vec(), vec![252u8]]]);
    assert_eq!(sent.task_queue_authority, key(1));
}

#[test]
fn queue_task_fails_where_nothing_was_compiled() {
    let scheduler = accounts();
    assert_eq!(
        scheduler.queue_task(3, bumps(), None),
        Err(SolanaGptOracleError::TaskCompilationFailed)
    );
}

#[test]
fn queue_task_fails_where_the_compilation_calls_something_else() {
    let scheduler = accounts();
    let mut other_data = by_hand();
    other_data.instructions[0].data[0] ^= 1;
    let mut other_program = by_hand();
    other_program.instructions[0].program_id_index = 6;
    let mut other_account = by_hand();
    other_account.instructions[0].accounts[0] = 2;
    let mut fewer_accounts = by_hand();
    fewer_accounts.instructions[0].accounts.pop();
    let mut twice = by_hand();
    twice.instructions.push(by_hand().instructions[0].clone());
    let mut none = by_hand();
    none.instructions.clear();
    let mut authority_does_not_sign = by_hand();
    authority_does_not_sign.num_ro_signers = 0;
    let mut state_is_read_only = by_hand();
    state_is_read_only.num_rw = 0;
    let mut out_of_range = by_hand();
    out_of_range.instructions[0].accounts[6] = 8;
    let mut counts_beyond_accounts = by_hand();
    counts_beyond_accounts.num_rw = 8;
    let mut own_seeds = by_hand();
    own_seeds.signer_seeds = vec![vec![vec![1]]];
    for unfaithful in [
        other_data,
        other_program,
        other_account,
        fewer_accounts,
        twice,
        none,
        authority_does_not_sign,
        state_is_read_only,
        out_of_range,
        counts_beyond_accounts,
        own_seeds,
    ] {
        assert!(!unfaithful.runs(&vec![scheduler.dispatch_instruction()]));
        assert_eq!(
            scheduler.queue_task(3, bumps(), Some(unfaithful)),
            Err(SolanaGptOracleError::TaskCompilationFailed)
        );
    }
}

#[test]
fn compile_agrees_with_the_schedulers_compiler() {
    let scheduler = accounts();
    let instruction = scheduler.dispatch_instruction();
    let ours = compile(&vec![instruction.clone()]).unwrap();

    let outside = OutsideInstruction {
        program_id: Pubkey::new_from_array(instruction.program_id.bytes),
        accounts: instruction
            .accounts
            .iter()
            .map(|meta| OutsideMeta {
                pubkey: Pubkey::new_from_array(meta.pubkey.bytes),
                is_signer: meta.is_signer,
                is_writable: meta.is_writable,
            })
            .collect(),
        data: instruction.data.clone(),
    };
    let (theirs, _) = tuktuk_program::compile_transaction(vec![outside], vec![]).unwrap();
    assert_eq!(ours.num_rw_signers, theirs.num_rw_signers);
    assert_eq!(ours.num_ro_signers, theirs.num_ro_signers);
    assert_eq!(ours.num_rw, theirs.num_rw);
    assert_eq!(ours.accounts.len(), theirs.accounts.len());
    assert_eq!(ours.instructions.len(), theirs.instructions.len());
    assert_eq!(ours.instructions[0].data, theirs.instructions[0].data);
    assert_eq!(ours.signer_seeds, theirs.signer_seeds);
    // Both name the same accounts, whatever the order within a run.
    for (position, index) in ours.instructions[0].accounts.iter().enumerate() {
        let their_index = theirs.instructions[0].accounts[position];
        assert_eq!(
            ours.accounts[*index as usize].bytes,
            theirs.accounts[their_index as usize].to_bytes()
        );
    }
}

#[test]
fn compile_refuses_more_accounts_than_can_be_numbered() {
    let wide = |accounts: usize| Instruction {
        program_id: Address::program(),
        accounts: (0..accounts)
            .map(|n| AccountMeta { pubkey: key(n as u8), is_signer: false, is_writable: false })
            .collect(),
        data: vec![],
    };
    // 254 accounts and the program: 255 names.
    assert!(compile(&vec![wide(254)]).is_some());
    // One more.
    assert!(compile(&vec![wide(255)]).is_none());
    assert!(compile(&vec![wide(200), wide(100)]).is_none());
    assert!(compile(&vec![]).is_some());
}

#[test]
fn schedule_holds_when_accounts_coincide() {
    // The treasury also stands as the interaction account.
    let mut scheduler = accounts();
    scheduler.interaction = scheduler.treasury;
    let sent = scheduler.schedule(2, bumps()).unwrap();
    assert!(sent.args.transaction.runs(&vec![scheduler.dispatch_instruction()]));
    assert_eq!(sent.args.transaction.accounts.len(), 7);
    // The authority is also the state record: it both signs and is written to.
    let mut scheduler = accounts();
    scheduler.oracle_state_key = key(1);
    let sent = scheduler.schedule(2, bumps()).unwrap();
    assert!(sent.args.transaction.runs(&vec![scheduler.dispatch_instruction()]));
    assert_eq!(sent.args.transaction.num_rw_signers, 1);
    assert_eq!(sent.args.transaction.num_ro_signers, 0);
}
