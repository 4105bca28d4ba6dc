use anchor_lang::prelude::Pubkey;
use tuktuk_counter::{
    process_oracle_callback, Address, OracleState, ProcessOracleCallback, SolanaGptOracleError,
};

fn key(byte: u8) -> Address {
    Address { bytes: [byte; 32] }
}

/// The identity that the oracle program derives for itself.
fn oracle_identity() -> (Address, u8) {
    let oracle = Pubkey::new_from_array(Address::oracle_program().bytes);
    let (identity, bump) = Pubkey::find_program_address(&[b"identity"], &oracle);
    (Address { bytes: identity.to_bytes() }, bump)
}

fn accounts() -> ProcessOracleCallback {
    ProcessOracleCallback {
        identity: oracle_identity().0,
        oracle_state: OracleState {
            owner_bump: 254,
            treasury_bump: 253,
            requests: 1,
            context_ref: key(12),
            default_prompt: String::from("agent"),
            last_response: String::from("earlier"),
            scheduler_authority: key(1),
        },
        oracle_program: Address::oracle_program(),
    }
}

#[test]
fn callback_from_the_oracle_stores_the_response() {
    let mut handler = accounts();
    assert_eq!(handler.process_oracle_callback(String::from("42")), Ok(()));
    let mut expected = accounts();
    expected.oracle_state.last_response = String::from("42");
    assert_eq!(handler, expected);
}

#[test]
fn callback_replaces_the_last_response_whole() {
    let mut handler = accounts();
    handler.process_oracle_callback(String::from("a long first answer")).unwrap();
    handler.process_oracle_callback(String::from("b")).unwrap();
    assert_eq!(handler.oracle_state.last_response, "b");
    handler.process_oracle_callback(String::new()).unwrap();
    assert_eq!(handler.oracle_state.last_response, "");
}

#[test]
fn callback_from_anyone_else_is_refused() {
    for caller in [key(0), key(1), key(12), Address::oracle_program(), Address::program()] {
        let mut handler = accounts();
        handler.identity = caller;
        assert_eq!(
            handler.process_oracle_callback(String::from("42")),
            Err(SolanaGptOracleError::Unauthorized)
        );
        assert_eq!(handler.oracle_state, accounts().oracle_state);
    }
}

#[test]
fn callback_through_another_program_is_refused() {
    // An identity that another program derives from the same seed does not count.
    let other = Pubkey::new_from_array([7; 32]);
    let (identity, _) = Pubkey::find_program_address(&[b"identity"], &other);
    let mut handler = accounts();
    handler.oracle_program = key(7);
    handler.identity = Address { bytes: identity.to_bytes() };
    assert_eq!(
        handler.process_oracle_callback(String::from("42")),
        Err(SolanaGptOracleError::Unauthorized)
    );
    // Nor does the oracle's identity, presented with another program.
    let mut handler = accounts();
    handler.oracle_program = key(7);
    assert_eq!(
        handler.process_oracle_callback(String::from("42")),
        Err(SolanaGptOracleError::Unauthorized)
    );
    assert_eq!(handler.oracle_state, accounts().oracle_state);
}

#[test]
fn callback_refuses_a_response_of_513_bytes() {
    let mut handler = accounts();
    assert_eq!(
        handler.process_oracle_callback("r".repeat(513)),
        Err(SolanaGptOracleError::ResponseTooLong)
    );
    assert_eq!(handler, accounts());
}

#[test]
fn callback_accepts_a_response_of_exactly_512_bytes() {
    let mut handler = accounts();
    assert_eq!(handler.process_oracle_callback("r".repeat(512)), Ok(()));
    assert_eq!(handler.oracle_state.last_response.len(), 512);
    // 128 characters of four bytes each.
    let mut handler = accounts();
    assert_eq!(handler.process_oracle_callback("𝄞".repeat(128)), Ok(()));
    let mut handler = accounts();
    assert_eq!(
        handler.process_oracle_callback("𝄞".repeat(129)),
        Err(SolanaGptOracleError::ResponseTooLong)
    );
}

#[test]
fn callback_checks_the_caller_before_the_length() {
    let mut handler = accounts();
    handler.identity = key(5);
    assert_eq!(
        handler.process_oracle_callback("r".repeat(600)),
        Err(SolanaGptOracleError::Unauthorized)
    );
}

#[test]
fn record_response_goes_by_the_identity_it_is_given() {
    let mut handler = accounts();
    handler.identity = key(5);
    assert_eq!(handler.record_response(String::from("42"), Some((key(5), 255))), Ok(()));
    assert_eq!(handler.oracle_state.last_response, "42");

    let mut handler = accounts();
    handler.identity = key(5);
    assert_eq!(
        handler.record_response(String::from("42"), Some((key(6), 255))),
        Err(SolanaGptOracleError::Unauthorized)
    );
    assert_eq!(
        handler.record_response(String::from("42"), None),
        Err(SolanaGptOracleError::Unauthorized)
    );
    assert_eq!(
        handler.record_response("r".repeat(513), Some((key(5), 0))),
        Err(SolanaGptOracleError::ResponseTooLong)
    );
    handler.oracle_program = key(9);
    assert_eq!(
        handler.record_response(String::from("42"), Some((key(5), 255))),
        Err(SolanaGptOracleError::Unauthorized)
    );
    assert_eq!(handler.oracle_state.last_response, "earlier");
}

#[test]
fn callback_entry_point_does_the_same() {
    let mut handler = accounts();
    assert_eq!(process_oracle_callback(&mut handler, String::from("42")), Ok(()));
    assert_eq!(handler.oracle_state.last_response, "42");
    handler.identity = key(2);
    assert_eq!(
        process_oracle_callback(&mut handler, String::from("43")),
        Err(SolanaGptOracleError::Unauthorized)
    );
    assert_eq!(handler.oracle_state.last_response, "42");
}
