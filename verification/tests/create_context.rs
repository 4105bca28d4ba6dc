use tuktuk_counter::{
    create_context, Address, CreateContext, CreateLlmContext, OracleState, SolanaGptOracleError,
};

fn key(byte: u8) -> Address {
    Address { bytes: [byte; 32] }
}

fn accounts() -> CreateContext {
    CreateContext {
        payer: key(10),
        oracle_state: OracleState {
            owner_bump: 254,
            treasury_bump: 253,
            requests: 5,
            context_ref: Address::unset(),
            default_prompt: String::from("Hello"),
            last_response: String::from("earlier"),
            scheduler_authority: key(1),
        },
        oracle_counter: key(11),
        llm_context: key(12),
        system_program: Address::unset(),
        oracle_program: Address::oracle_program(),
    }
}

#[test]
fn create_context_records_handle_and_prompt() {
    let mut registrar = accounts();
    let sent = registrar.create_context(String::from("agent")).unwrap();
    assert_eq!(
        sent,
        CreateLlmContext {
            oracle_program: Address::oracle_program(),
            payer: key(10),
            context_account: key(12),
            counter: key(11),
            system_program: Address::unset(),
            text: String::from("agent"),
        }
    );
    assert!(registrar.oracle_state.context_set());
    assert_eq!(registrar.oracle_state.context_ref, key(12));
    assert_eq!(registrar.oracle_state.default_prompt, "agent");
    // Nothing else has changed.
    let mut expected = accounts();
    expected.oracle_state.context_ref = key(12);
    expected.oracle_state.default_prompt = String::from("agent");
    assert_eq!(registrar, expected);
}

#[test]
fn create_context_refuses_a_long_description_and_changes_nothing() {
    let mut registrar = accounts();
    let sent = registrar.create_context("d".repeat(281));
    assert_eq!(sent, Err(SolanaGptOracleError::PromptTooLong));
    assert_eq!(registrar, accounts());
    assert!(!registrar.oracle_state.context_set());
}

#[test]
fn create_context_accepts_exactly_280_bytes() {
    let mut registrar = accounts();
    let description = "d".repeat(280);
    let sent = registrar.create_context(description.clone()).unwrap();
    assert_eq!(sent.text, description);
    assert_eq!(registrar.oracle_state.default_prompt, description);
}

#[test]
fn create_context_again_replaces_handle_and_prompt() {
    let mut registrar = accounts();
    registrar.create_context(String::from("first")).unwrap();
    registrar.llm_context = key(13);
    let sent = registrar.create_context(String::from("second")).unwrap();
    assert_eq!(sent.context_account, key(13));
    assert_eq!(registrar.oracle_state.context_ref, key(13));
    assert_eq!(registrar.oracle_state.default_prompt, "second");
    assert_eq!(registrar.oracle_state.requests, 5);
    assert_eq!(registrar.oracle_state.last_response, "earlier");
}

#[test]
fn create_context_with_the_unset_address_as_handle_leaves_the_context_unset() {
    let mut registrar = accounts();
    registrar.llm_context = Address::unset();
    assert!(registrar.create_context(String::from("agent")).is_ok());
    assert!(!registrar.oracle_state.context_set());
}

#[test]
fn create_context_entry_point_does_the_same() {
    let mut by_method = accounts();
    let mut by_entry = accounts();
    assert_eq!(
        create_context(&mut by_entry, String::from("agent")),
        by_method.create_context(String::from("agent"))
    );
    assert_eq!(by_entry, by_method);
}
