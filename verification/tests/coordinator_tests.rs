use ecom_contract::addressing::{
    get_address_account_pda, get_user_profile_account_pda, verify, Domain,
};
use ecom_contract::codec::{
    decode, encode, AddressSchema, InstructionData, UserProfileInstructionData, UserProfileSchema,
};
use ecom_contract::delegation::AccountReference;
use ecom_contract::errors::CoreError;
use ecom_contract::router::{process_instruction, PlannedOperation};

fn ident(b: u8) -> Vec<u8> {
    vec![b; 32]
}

fn acc(identity: Vec<u8>) -> AccountReference {
    AccountReference {
        identity,
        is_signer: false,
        is_writable: false,
    }
}

#[test]
fn test_sanity() {}

#[test]
fn derive_twice_identical() {
    let owner = ident(1);
    let program = ident(2);
    let r1 = ecom_contract::addressing::derive(&owner, Domain::Profile, &program).unwrap();
    let r2 = ecom_contract::addressing::derive(&owner, Domain::Profile, &program).unwrap();
    assert_eq!(r1, r2);
    let a1 = ecom_contract::addressing::derive(&owner, Domain::Address, &program).unwrap();
    let a2 = ecom_contract::addressing::derive(&owner, Domain::Address, &program).unwrap();
    assert_eq!(a1, a2);
}

#[test]
fn derive_matches_host_derivation() {
    let owner = ident(3);
    let program = ident(4);
    let program_key = solana_pubkey::Pubkey::new_from_array([4u8; 32]);

    let (addr, nonce) = get_address_account_pda(&owner, &program).unwrap();
    let (expected, expected_nonce) =
        solana_pubkey::Pubkey::find_program_address(&[b"address", &owner], &program_key);
    assert_eq!(addr, expected.to_bytes().to_vec());
    assert_eq!(nonce, expected_nonce);

    let (paddr, pnonce) = get_user_profile_account_pda(&owner, &program).unwrap();
    let (pexpected, pexpected_nonce) =
        solana_pubkey::Pubkey::find_program_address(&[b"profile", &owner], &program_key);
    assert_eq!(paddr, pexpected.to_bytes().to_vec());
    assert_eq!(pnonce, pexpected_nonce);

    assert_ne!(addr, paddr);
}

#[test]
fn verify_rejects_wrong_address() {
    let owner = ident(5);
    let program = ident(6);
    let (addr, nonce) = ecom_contract::addressing::derive(&owner, Domain::Address, &program).unwrap();
    let mut wrong = addr.clone();
    wrong[0] = wrong[0].wrapping_add(1);
    assert_eq!(
        verify(&wrong, &owner, Domain::Address, &program),
        Err(CoreError::AddressMismatchError)
    );
    assert_eq!(verify(&addr, &owner, Domain::Address, &program), Ok(nonce));
}

#[test]
fn codec_round_trip_all_variants() {
    let address: Vec<u8> = (0..512).map(|i| (i % 251) as u8).collect();
    let name: Vec<u8> = (0..64).map(|i| (i * 3) as u8).collect();
    let variants = vec![
        InstructionData::ProvisionAddressRecord,
        InstructionData::ProvisionProfileRecord,
        InstructionData::UpdateAddressRecord { address },
        InstructionData::UpdateProfileRecord {
            name,
            day: 31,
            month: 12,
            year: 4294967295,
        },
    ];
    for ins in variants {
        let bytes = encode(&ins);
        assert_eq!(decode(&bytes), Ok(ins));
    }
}

#[test]
fn encode_exact_layouts() {
    assert_eq!(encode(&InstructionData::ProvisionAddressRecord), vec![1u8]);
    assert_eq!(encode(&InstructionData::ProvisionProfileRecord), vec![2u8]);

    let address = vec![9u8; 512];
    let bytes = encode(&InstructionData::UpdateAddressRecord {
        address: address.clone(),
    });
    let mut expected = vec![0u8];
    expected.extend_from_slice(&address);
    assert_eq!(bytes, expected);

    let name: Vec<u8> = (0..64).map(|i| i as u8).collect();
    let bytes = encode(&InstructionData::UpdateProfileRecord {
        name: name.clone(),
        day: 1,
        month: 2,
        year: 2024,
    });
    let mut expected = vec![3u8];
    expected.extend_from_slice(&name);
    expected.extend_from_slice(&[1, 0, 0, 0]);
    expected.extend_from_slice(&[2, 0, 0, 0]);
    expected.extend_from_slice(&[232, 7, 0, 0]);
    assert_eq!(bytes, expected);
    assert_eq!(bytes.len(), 77);
}

#[test]
fn decode_rejects_bad_inputs() {
    assert_eq!(decode(&[]), Err(CoreError::DecodeError));
    assert_eq!(decode(&[4]), Err(CoreError::DecodeError));
    assert_eq!(decode(&[255]), Err(CoreError::DecodeError));
    assert_eq!(decode(&vec![0u8; 512]), Err(CoreError::DecodeError));
    assert_eq!(decode(&vec![0u8; 514]), Err(CoreError::DecodeError));
    assert_eq!(decode(&[1, 0]), Err(CoreError::DecodeError));
    assert_eq!(decode(&[2, 0]), Err(CoreError::DecodeError));
    assert_eq!(decode(&vec![3u8; 76]), Err(CoreError::DecodeError));
    assert_eq!(decode(&vec![3u8; 78]), Err(CoreError::DecodeError));
}

#[test]
fn record_schema_codecs() {
    let stored: Vec<u8> = (0..512).map(|i| (i % 7) as u8).collect();
    let record = AddressSchema::decode(&stored).unwrap();
    assert_eq!(record.address, stored);
    assert_eq!(record.encode(), stored);
    assert_eq!(
        AddressSchema::decode(&vec![0u8; 511]).unwrap_err(),
        CoreError::DecodeError
    );

    let mut stored = vec![7u8; 64];
    stored.extend_from_slice(&[4, 0, 0, 0]);
    stored.extend_from_slice(&[5, 0, 0, 0]);
    stored.extend_from_slice(&[230, 7, 0, 0]);
    let record = UserProfileSchema::decode(&stored).unwrap();
    assert_eq!(record.name, vec![7u8; 64]);
    assert_eq!(record.day, 4);
    assert_eq!(record.month, 5);
    assert_eq!(record.year, 2022);
    assert_eq!(record.encode(), stored);
    assert_eq!(
        UserProfileSchema::decode(&vec![0u8; 77]).unwrap_err(),
        CoreError::DecodeError
    );
}

#[test]
fn provision_twice_same_address() {
    let program = ident(7);
    let owner = ident(8);
    let (pda, _) = get_user_profile_account_pda(&owner, &program).unwrap();
    let accounts = vec![
        acc(owner.clone()),
        acc(pda.clone()),
        acc(ident(9)),
        acc(ident(10)),
    ];
    let op1 = process_instruction(&program, &accounts, &[2u8]).unwrap();
    let op2 = process_instruction(&program, &accounts, &[2u8]).unwrap();
    match (op1, op2) {
        (
            PlannedOperation::Allocate { address: a1, .. },
            PlannedOperation::Allocate { address: a2, .. },
        ) => {
            assert_eq!(a1, pda);
            assert_eq!(a2, pda);
        }
        other => panic!("expected two allocations, got {:?}", other),
    }
}

#[test]
fn update_profile_repeatable() {
    let program = ident(21);
    let owner = ident(22);
    let target = ident(23);
    let (pda, _) = get_user_profile_account_pda(&owner, &program).unwrap();
    let accounts = vec![acc(owner.clone()), acc(pda.clone()), acc(target.clone())];

    let name1 = vec![b'x'; 64];
    let first = encode(&InstructionData::UpdateProfileRecord {
        name: name1,
        day: 5,
        month: 6,
        year: 1999,
    });
    let op1 = process_instruction(&program, &accounts, &first).unwrap();
    assert!(matches!(op1, PlannedOperation::Delegate { .. }));

    let name2 = vec![b'y'; 64];
    let second = encode(&InstructionData::UpdateProfileRecord {
        name: name2.clone(),
        day: 7,
        month: 8,
        year: 2001,
    });
    let op2 = process_instruction(&program, &accounts, &second).unwrap();
    match op2 {
        PlannedOperation::Delegate { invocation } => {
            let mut expected = name2;
            expected.extend_from_slice(&[7, 0, 0, 0]);
            expected.extend_from_slice(&[8, 0, 0, 0]);
            expected.extend_from_slice(&[209, 7, 0, 0]);
            assert_eq!(invocation.payload, expected);
        }
        other => panic!("expected a delegated update, got {:?}", other),
    }
}

#[test]
fn end_to_end_profile_scenario() {
    let owner = ident(11);
    let program = ident(12);
    let target = ident(13);
    let alloc_cap = ident(14);
    let (pda, nonce) = get_user_profile_account_pda(&owner, &program).unwrap();

    let accounts4 = vec![
        acc(owner.clone()),
        acc(pda.clone()),
        acc(target.clone()),
        acc(alloc_cap),
    ];
    let op = process_instruction(&program, &accounts4, &[2u8]).unwrap();
    match op {
        PlannedOperation::Allocate {
            funder,
            address,
            owner_program,
            space,
            authority,
        } => {
            assert_eq!(funder, owner);
            assert_eq!(address, pda);
            assert_eq!(owner_program, target);
            assert_eq!(space, 76);
            assert_eq!(authority.owner, owner);
            assert_eq!(authority.domain, Domain::Profile);
            assert_eq!(authority.nonce, nonce);
        }
        other => panic!("expected an allocation, got {:?}", other),
    }

    let mut name = b"Alice".to_vec();
    name.resize(64, 0);
    let update = encode(&InstructionData::UpdateProfileRecord {
        name: name.clone(),
        day: 1,
        month: 1,
        year: 2024,
    });
    let accounts3 = vec![acc(owner.clone()), acc(pda.clone()), acc(target.clone())];
    let op = process_instruction(&program, &accounts3, &update).unwrap();
    match op {
        PlannedOperation::Delegate { invocation } => {
            assert_eq!(invocation.target_program, target);
            assert_eq!(invocation.accounts.len(), 1);
            assert_eq!(invocation.accounts[0].identity, pda);
            assert!(invocation.accounts[0].is_signer);
            assert!(invocation.accounts[0].is_writable);
            let mut expected = name;
            expected.extend_from_slice(&[1, 0, 0, 0]);
            expected.extend_from_slice(&[1, 0, 0, 0]);
            expected.extend_from_slice(&[232, 7, 0, 0]);
            assert_eq!(invocation.payload.len(), 76);
            assert_eq!(invocation.payload, expected);
            assert_eq!(invocation.authority.owner, owner);
            assert_eq!(invocation.authority.domain, Domain::Profile);
            assert_eq!(invocation.authority.nonce, nonce);
        }
        other => panic!("expected a delegated update, got {:?}", other),
    }
}

#[test]
fn mismatched_address_aborts() {
    let owner = ident(15);
    let program = ident(16);
    let target = ident(17);
    let alloc_cap = ident(18);
    let (pda, _) = get_user_profile_account_pda(&owner, &program).unwrap();
    let mut wrong = pda;
    wrong[31] = wrong[31].wrapping_add(1);

    let accounts4 = vec![
        acc(owner.clone()),
        acc(wrong.clone()),
        acc(target.clone()),
        acc(alloc_cap),
    ];
    assert_eq!(
        process_instruction(&program, &accounts4, &[2u8]).unwrap_err(),
        CoreError::AddressMismatchError
    );

    let name = vec![0u8; 64];
    let update = encode(&InstructionData::UpdateProfileRecord {
        name,
        day: 1,
        month: 1,
        year: 2024,
    });
    let accounts3 = vec![acc(owner), acc(wrong), acc(target)];
    assert_eq!(
        process_instruction(&program, &accounts3, &update).unwrap_err(),
        CoreError::AddressMismatchError
    );
}

#[test]
fn update_address_record_routing() {
    let owner = ident(19);
    let program = ident(20);
    let target = ident(24);
    let (pda, nonce) = get_address_account_pda(&owner, &program).unwrap();
    let address: Vec<u8> = (0..512).map(|i| (i % 13) as u8).collect();
    let update = encode(&InstructionData::UpdateAddressRecord {
        address: address.clone(),
    });
    let accounts = vec![acc(owner.clone()), acc(pda.clone()), acc(target.clone())];
    let op = process_instruction(&program, &accounts, &update).unwrap();
    match op {
        PlannedOperation::Delegate { invocation } => {
            assert_eq!(invocation.target_program, target);
            assert_eq!(invocation.accounts.len(), 1);
            assert_eq!(invocation.accounts[0].identity, pda);
            assert!(invocation.accounts[0].is_signer);
            assert!(invocation.accounts[0].is_writable);
            assert_eq!(invocation.payload, address);
            assert_eq!(invocation.authority.owner, owner);
            assert_eq!(invocation.authority.domain, Domain::Address);
            assert_eq!(invocation.authority.nonce, nonce);
        }
        other => panic!("expected a delegated update, got {:?}", other),
    }
}

#[test]
fn missing_accounts_abort() {
    let owner = ident(25);
    let program = ident(26);
    let (pda, _) = get_user_profile_account_pda(&owner, &program).unwrap();
    let short3 = vec![acc(owner.clone()), acc(pda.clone()), acc(ident(27))];
    assert_eq!(
        process_instruction(&program, &short3, &[2u8]).unwrap_err(),
        CoreError::MissingAccountError
    );
    let name = vec![0u8; 64];
    let update = encode(&InstructionData::UpdateProfileRecord {
        name,
        day: 1,
        month: 1,
        year: 1,
    });
    let short2 = vec![acc(owner), acc(pda)];
    assert_eq!(
        process_instruction(&program, &short2, &update).unwrap_err(),
        CoreError::MissingAccountError
    );
}

#[test]
fn profile_payload_encode_matches_schema() {
    let name = vec![1u8; 64];
    let payload = UserProfileInstructionData {
        name: name.clone(),
        day: 9,
        month: 10,
        year: 11,
    };
    let bytes = payload.encode();
    assert_eq!(bytes.len(), 76);
    let record = UserProfileSchema::decode(&bytes).unwrap();
    assert_eq!(record.name, name);
    assert_eq!(record.day, 9);
    assert_eq!(record.month, 10);
    assert_eq!(record.year, 11);
}
