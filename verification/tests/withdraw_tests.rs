//! Withdraw end-to-end behaviour, signature introspection, and the
//! balance round trip, on concrete inputs.
use passkey_vault::accounts::AccountView;
use passkey_vault::errors::VaultError;
use passkey_vault::introspect::{introspect, secp256r1_program_id_bytes, SiblingInstruction};
use passkey_vault::process_instruction;
use passkey_vault::transfer::apply_transfer;

fn account(key_byte: u8, owner: [u8; 32], lamports: u64, is_signer: bool) -> AccountView {
    AccountView { key: vec![key_byte; 32], owner: owner.to_vec(), lamports, is_signer }
}

fn withdraw_accounts(vault_lamports: u64) -> Vec<AccountView> {
    vec![
        account(1, [9u8; 32], 100, true),
        account(2, [0u8; 32], vault_lamports, false),
        account(3, [9u8; 32], 0, false),
        account(4, [9u8; 32], 0, false),
    ]
}

/// Builds the data of a secp256r1 verification instruction holding one
/// claim: the key at offset 16, the message at offset 49.
fn secp_data(num_sigs: u8, pk: &[u8; 33], message: &[u8]) -> Vec<u8> {
    let mut d = vec![num_sigs, 0u8];
    d.extend_from_slice(&0u16.to_le_bytes()); // signature offset: unused here
    d.extend_from_slice(&0xffffu16.to_le_bytes());
    d.extend_from_slice(&16u16.to_le_bytes()); // public key offset
    d.extend_from_slice(&0xffffu16.to_le_bytes());
    d.extend_from_slice(&49u16.to_le_bytes()); // message offset
    d.extend_from_slice(&(message.len() as u16).to_le_bytes());
    d.extend_from_slice(&0xffffu16.to_le_bytes());
    d.extend_from_slice(pk);
    d.extend_from_slice(message);
    d
}

fn sibling_for(payer_key: &[u8], expiry: i64, pk: &[u8; 33]) -> SiblingInstruction {
    let mut message = payer_key.to_vec();
    message.extend_from_slice(&expiry.to_le_bytes());
    SiblingInstruction {
        program_id: secp256r1_program_id_bytes().to_vec(),
        data: secp_data(1, pk, &message),
    }
}

#[test]
fn withdraw_drains_vault() {
    let accounts = withdraw_accounts(750);
    let sibling = sibling_for(&accounts[0].key, 1000, &[7u8; 33]);
    let action = process_instruction(&accounts, &[1u8, 254], Some(&sibling), 999).unwrap();
    assert_eq!(action.from, accounts[1].key);
    assert_eq!(action.to, accounts[0].key);
    assert_eq!(action.lamports, 750);
    let authority = action.authority.unwrap();
    assert_eq!(authority.signer_key, vec![7u8; 33]);
    assert_eq!(authority.bump, 254);
    let (vault_after, payer_after) = apply_transfer(750, 100, action.lamports).unwrap();
    assert_eq!(vault_after, 0);
    assert_eq!(payer_after, 850);
}

#[test]
fn withdraw_at_exact_expiry_succeeds() {
    let accounts = withdraw_accounts(5);
    let sibling = sibling_for(&accounts[0].key, 1000, &[7u8; 33]);
    let r = process_instruction(&accounts, &[1u8, 0], Some(&sibling), 1000);
    assert!(r.is_ok());
}

#[test]
fn withdraw_expired_one_second_rejected() {
    let accounts = withdraw_accounts(5);
    let sibling = sibling_for(&accounts[0].key, 999, &[7u8; 33]);
    let r = process_instruction(&accounts, &[1u8, 0], Some(&sibling), 1000);
    assert_eq!(r.err(), Some(VaultError::InvalidAccountData));
}

#[test]
fn withdraw_negative_expiry_times() {
    let accounts = withdraw_accounts(5);
    let sibling = sibling_for(&accounts[0].key, -5, &[7u8; 33]);
    assert!(process_instruction(&accounts, &[1u8, 0], Some(&sibling), -10).is_ok());
    let r = process_instruction(&accounts, &[1u8, 0], Some(&sibling), -4);
    assert_eq!(r.err(), Some(VaultError::InvalidAccountData));
}

#[test]
fn withdraw_wrong_payer_rejected() {
    let accounts = withdraw_accounts(5);
    let sibling = sibling_for(&[8u8; 32], 1000, &[7u8; 33]);
    let r = process_instruction(&accounts, &[1u8, 0], Some(&sibling), 0);
    assert_eq!(r.err(), Some(VaultError::InvalidAccountOwner));
}

#[test]
fn withdraw_two_signatures_rejected() {
    let accounts = withdraw_accounts(5);
    let mut message = accounts[0].key.clone();
    message.extend_from_slice(&1000i64.to_le_bytes());
    let sibling = SiblingInstruction {
        program_id: secp256r1_program_id_bytes().to_vec(),
        data: secp_data(2, &[7u8; 33], &message),
    };
    let r = process_instruction(&accounts, &[1u8, 0], Some(&sibling), 0);
    assert_eq!(r.err(), Some(VaultError::InvalidInstructionData));
}

#[test]
fn withdraw_zero_signatures_rejected() {
    let accounts = withdraw_accounts(5);
    let sibling = SiblingInstruction {
        program_id: secp256r1_program_id_bytes().to_vec(),
        data: vec![0u8, 0u8],
    };
    let r = process_instruction(&accounts, &[1u8, 0], Some(&sibling), 0);
    assert_eq!(r.err(), Some(VaultError::InvalidInstructionData));
}

#[test]
fn withdraw_missing_sibling_rejected() {
    let accounts = withdraw_accounts(5);
    let r = process_instruction(&accounts, &[1u8, 0], None, 0);
    assert_eq!(r.err(), Some(VaultError::InvalidInstructionData));
}

#[test]
fn withdraw_sibling_of_other_program_rejected() {
    let accounts = withdraw_accounts(5);
    let mut sibling = sibling_for(&accounts[0].key, 1000, &[7u8; 33]);
    sibling.program_id = vec![1u8; 32];
    let r = process_instruction(&accounts, &[1u8, 0], Some(&sibling), 0);
    assert_eq!(r.err(), Some(VaultError::InvalidInstructionData));
}

#[test]
fn withdraw_truncated_sibling_rejected() {
    let accounts = withdraw_accounts(5);
    let mut sibling = sibling_for(&accounts[0].key, 1000, &[7u8; 33]);
    sibling.data.truncate(10);
    let r = process_instruction(&accounts, &[1u8, 0], Some(&sibling), 0);
    assert_eq!(r.err(), Some(VaultError::InvalidInstructionData));
}

#[test]
fn withdraw_message_too_short_to_parse_rejected() {
    // A message too short to name a payer is an unparseable shape.
    let accounts = withdraw_accounts(5);
    for msg_len in [0usize, 16, 31] {
        let message = vec![1u8; msg_len];
        let sibling = SiblingInstruction {
            program_id: secp256r1_program_id_bytes().to_vec(),
            data: secp_data(1, &[7u8; 33], &message),
        };
        let r = process_instruction(&accounts, &[1u8, 0], Some(&sibling), 0);
        assert_eq!(r.err(), Some(VaultError::InvalidAccountData));
    }
}

#[test]
fn withdraw_message_with_malformed_timestamp_rejected() {
    // A message that names a payer but whose remainder is not an 8-byte
    // expiry carries a malformed timestamp.
    let accounts = withdraw_accounts(5);
    for msg_len in [32usize, 39, 41, 60] {
        let message = vec![1u8; msg_len];
        let sibling = SiblingInstruction {
            program_id: secp256r1_program_id_bytes().to_vec(),
            data: secp_data(1, &[7u8; 33], &message),
        };
        let r = process_instruction(&accounts, &[1u8, 0], Some(&sibling), 0);
        assert_eq!(r.err(), Some(VaultError::InvalidInstructionData));
    }
}

#[test]
fn withdraw_remote_key_reference_rejected() {
    // A claim whose key lives in another instruction (index other than
    // 0xffff) is not accepted.
    let accounts = withdraw_accounts(5);
    let mut sibling = sibling_for(&accounts[0].key, 1000, &[7u8; 33]);
    sibling.data[8] = 0;
    sibling.data[9] = 0;
    let r = process_instruction(&accounts, &[1u8, 0], Some(&sibling), 0);
    assert_eq!(r.err(), Some(VaultError::InvalidInstructionData));
}

#[test]
fn withdraw_remote_message_reference_rejected() {
    let accounts = withdraw_accounts(5);
    let mut sibling = sibling_for(&accounts[0].key, 1000, &[7u8; 33]);
    sibling.data[14] = 0;
    sibling.data[15] = 0;
    let r = process_instruction(&accounts, &[1u8, 0], Some(&sibling), 0);
    assert_eq!(r.err(), Some(VaultError::InvalidInstructionData));
}

#[test]
fn withdraw_key_offset_out_of_bounds_rejected() {
    let accounts = withdraw_accounts(5);
    let mut sibling = sibling_for(&accounts[0].key, 1000, &[7u8; 33]);
    let far = (sibling.data.len() as u16).to_le_bytes();
    sibling.data[6] = far[0];
    sibling.data[7] = far[1];
    let r = process_instruction(&accounts, &[1u8, 0], Some(&sibling), 0);
    assert_eq!(r.err(), Some(VaultError::InvalidInstructionData));
}

#[test]
fn withdraw_payload_of_wrong_length_rejected() {
    let accounts = withdraw_accounts(5);
    let sibling = sibling_for(&accounts[0].key, 1000, &[7u8; 33]);
    let r = process_instruction(&accounts, &[1u8], Some(&sibling), 0);
    assert_eq!(r.err(), Some(VaultError::InvalidInstructionData));
    let r = process_instruction(&accounts, &[1u8, 0, 0], Some(&sibling), 0);
    assert_eq!(r.err(), Some(VaultError::InvalidInstructionData));
}

#[test]
fn withdraw_wrong_account_count_rejected() {
    let accounts = withdraw_accounts(5);
    let sibling = sibling_for(&accounts[0].key, 1000, &[7u8; 33]);
    let r = process_instruction(&accounts[..3], &[1u8, 0], Some(&sibling), 0);
    assert_eq!(r.err(), Some(VaultError::NotEnoughAccountKeys));
}

#[test]
fn withdraw_from_empty_vault_rejected() {
    let accounts = withdraw_accounts(0);
    let sibling = sibling_for(&accounts[0].key, 1000, &[7u8; 33]);
    let r = process_instruction(&accounts, &[1u8, 0], Some(&sibling), 0);
    assert_eq!(r.err(), Some(VaultError::InvalidAccountData));
}

#[test]
fn withdraw_unsigned_payer_rejected() {
    let mut accounts = withdraw_accounts(5);
    accounts[0].is_signer = false;
    let sibling = sibling_for(&accounts[0].key, 1000, &[7u8; 33]);
    let r = process_instruction(&accounts, &[1u8, 0], Some(&sibling), 0);
    assert_eq!(r.err(), Some(VaultError::InvalidAccountOwner));
}

#[test]
fn round_trip_returns_exactly_the_deposit() {
    // A deposit of 250 into an empty vault, then a withdrawal with a
    // valid claim: the payer ends where it started and the vault is empty.
    let payer_start: u64 = 1_000;
    let amount: u64 = 250;
    let (payer_mid, vault_mid) = apply_transfer(payer_start, 0, amount).unwrap();
    assert_eq!((payer_mid, vault_mid), (750, 250));

    let mut accounts = withdraw_accounts(vault_mid);
    accounts[0].lamports = payer_mid;
    let sibling = sibling_for(&accounts[0].key, 500, &[7u8; 33]);
    let action = process_instruction(&accounts, &[1u8, 3], Some(&sibling), 500).unwrap();
    assert_eq!(action.lamports, amount);
    let (vault_end, payer_end) = apply_transfer(vault_mid, payer_mid, action.lamports).unwrap();
    assert_eq!(vault_end, 0);
    assert_eq!(payer_end, payer_start);
}

#[test]
fn introspection_agrees_with_parser_crate() {
    // The same bytes read through this library and through the outside
    // parser give the same signer and message.
    let pk = [0x03u8; 33];
    let mut message = vec![5u8; 32];
    message.extend_from_slice(&123456789i64.to_le_bytes());
    let data = secp_data(1, &pk, &message);
    let sibling = SiblingInstruction {
        program_id: secp256r1_program_id_bytes().to_vec(),
        data: data.clone(),
    };
    let claim = introspect(Some(&sibling)).unwrap();

    let outside =
        pinocchio_secp256r1_instruction::Secp256r1Instruction::try_from(&data[..]).unwrap();
    assert_eq!(outside.num_signatures(), 1);
    assert_eq!(&claim.signer[..], &outside.get_signer(0).unwrap()[..]);
    let outside_message = outside.get_message_data(0).unwrap();
    assert_eq!(&claim.payer_claim[..], &outside_message[..32]);
    assert_eq!(claim.expiry, 123456789);
    assert_eq!(&outside_message[32..], &123456789i64.to_le_bytes());
}

#[test]
fn verification_program_id_matches_parser_crate() {
    assert_eq!(
        secp256r1_program_id_bytes(),
        pinocchio_secp256r1_instruction::SECP256R1_PROGRAM_ID
    );
}
