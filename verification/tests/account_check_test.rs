use ledger_guards::account::AccountInfo;
use ledger_guards::error::LedgerError;
use ledger_guards::programs::missing_account_checks_pinocchio::{
    process_instruction, ConfigState, ID,
};
use ledger_guards::pubkey::Pubkey;

const UPDATE_FEE_VULN: u8 = 0;
const UPDATE_FEE_SAFE: u8 = 1;

fn serialize_config_state(state: &ConfigState) -> Vec<u8> {
    state.encode()
}

fn update_fee_instruction(discriminator: u8, new_fee: u64) -> Vec<u8> {
    let mut data = vec![discriminator];
    data.extend_from_slice(&new_fee.to_le_bytes());
    data
}

fn stored_fee(accounts: &[AccountInfo]) -> u64 {
    ConfigState::decode(&accounts[0].data).unwrap().protocol_fee
}

#[test]
fn test_update_fee_vulnerable_and_safe() {
    let program_id = Pubkey::new_from_array(ID);
    let admin = Pubkey::new_from_array([7u8; 32]);
    let config = Pubkey::new_from_array([9u8; 32]);

    let initial_state = ConfigState { admin, protocol_fee: 10 };

    let mut accounts = vec![
        AccountInfo {
            key: config,
            is_signer: false,
            is_writable: true,
            lamports: 1_000_000,
            data: serialize_config_state(&initial_state),
        },
        AccountInfo { key: admin, is_signer: false, is_writable: true, lamports: 0, data: vec![] },
    ];

    println!("\n--- Running vulnerable update (no signer) ---");
    let result =
        process_instruction(&program_id, &mut accounts, &update_fee_instruction(UPDATE_FEE_VULN, 999));
    assert_eq!(result, Ok(()));
    println!("VULNERABLE: protocol_fee now {}", stored_fee(&accounts));
    assert_eq!(stored_fee(&accounts), 999);

    println!("\n--- Running safe update (no signer) ---");
    let safe_ix_no_sig = update_fee_instruction(UPDATE_FEE_SAFE, 555);
    let result = process_instruction(&program_id, &mut accounts, &safe_ix_no_sig);
    assert_eq!(result, Err(LedgerError::MissingSignature));
    println!("SAFE without signer: protocol_fee remains {}", stored_fee(&accounts));
    assert_eq!(stored_fee(&accounts), 999);

    println!("\n--- Running safe update (with signer) ---");
    accounts[1].is_signer = true;
    let result = process_instruction(&program_id, &mut accounts, &safe_ix_no_sig);
    assert_eq!(result, Ok(()));
    println!("SAFE with signer: protocol_fee now {}", stored_fee(&accounts));
    assert_eq!(stored_fee(&accounts), 555);
}
