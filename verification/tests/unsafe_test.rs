use ledger_guards::account::AccountInfo;
use ledger_guards::programs::missing_account_checks_pinocchio::process_instruction;
use ledger_guards::pubkey::Pubkey;

#[test]
fn test_update_fee_vulnerability() {
    let program_id = Pubkey::new_from_array([3u8; 32]);

    let admin = Pubkey::new_from_array([5u8; 32]);
    let mut config_data = vec![0u8; 32 + 8];
    config_data[..32].copy_from_slice(&admin.to_bytes());
    config_data[32..40].copy_from_slice(&0u64.to_le_bytes());

    let accounts = vec![
        AccountInfo {
            key: Pubkey::new_from_array([6u8; 32]),
            is_signer: false,
            is_writable: true,
            lamports: 1_000_000,
            data: config_data,
        },
        AccountInfo {
            key: admin,
            is_signer: false,
            is_writable: true,
            lamports: 1_000_000,
            data: vec![],
        },
    ];

    let new_fee: u64 = 500;

    let instruction_vulnerable = vec![0u8];
    let mut instruction_vulnerable_data = instruction_vulnerable.clone();
    instruction_vulnerable_data.extend_from_slice(&new_fee.to_le_bytes());

    let instruction_safe = vec![1u8];
    let mut instruction_safe_data = instruction_safe.clone();
    instruction_safe_data.extend_from_slice(&new_fee.to_le_bytes());

    println!("Testing VULNERABLE update (admin not signer)...");
    let res = process_instruction(&program_id, &mut accounts.clone(), &instruction_vulnerable_data);
    assert!(res.is_ok());
    println!("VULNERABLE update succeeded (should be prevented in SAFE code)");

    println!("Testing SAFE update (requires admin signer)...");
    let mut accounts_safe = accounts.clone();
    accounts_safe[1].is_signer = true;
    let res_safe = process_instruction(&program_id, &mut accounts_safe, &instruction_safe_data);
    assert!(res_safe.is_ok());
    println!("SAFE update succeeded (admin signer required)");

    println!("Testing SAFE update fails without signer...");
    let res_fail = process_instruction(&program_id, &mut accounts.clone(), &instruction_safe_data);
    assert!(res_fail.is_err());
    println!("SAFE update correctly rejected when admin not signer");
}
