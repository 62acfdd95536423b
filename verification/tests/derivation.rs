use anchor_lang::prelude::Pubkey;
use registries::address::Address;
use registries::derivation::{names, names_derived_cell, one_seed, three_seeds, two_seeds};
use registries::registry::seeds::{
    config_address, config_seed_list, entry_address, entry_seed_list, schema_address,
    schema_seed_list, CONFIG_SEED, SCHEMA_SEED,
};

fn derivation_program() -> Address {
    Address::new([200; 32])
}

#[test]
fn address_keeps_its_bytes() {
    let mut bytes = [0u8; 32];
    for (i, b) in bytes.iter_mut().enumerate() {
        *b = i as u8;
    }
    let address = Address::new(bytes);
    assert_eq!(address.to_bytes(), bytes);
    assert_eq!(address.to_vec(), bytes.to_vec());
    assert_eq!(address.bytes, bytes);
}

#[test]
fn addresses_are_equal_when_their_bytes_are() {
    assert_eq!(Address::new([7; 32]), Address::new([7; 32]));
    let mut other = [7u8; 32];
    other[31] = 8;
    assert_ne!(Address::new([7; 32]), Address::new(other));
    let mut first = [7u8; 32];
    first[0] = 6;
    assert_ne!(Address::new([7; 32]), Address::new(first));
}

#[test]
fn seed_constants_spell_their_names() {
    assert_eq!(&CONFIG_SEED[..], b"registry-config");
    assert_eq!(&SCHEMA_SEED[..], b"schema");
    assert_eq!(&registries::verified_registry::CONTEXT_SEED[..], b"registry-context");
    assert_eq!(&registries::verified_registry::ENTRY_SEED[..], b"governance-program");
    assert_eq!(&registries::program_registry::CONTEXT_SEED[..], b"registry-context");
    assert_eq!(&registries::program_registry::INSTANCE_SEED[..], b"governance-program");
    assert_eq!(&registries::permissionless_registry::ENTRY_SEED[..], b"governance-program");
    assert_eq!(
        &registries::permissionless_verifiable_registry::CONTEXT_SEED[..],
        b"registry-context"
    );
    assert_eq!(&registries::certificate_registry::CERTIFICATE_SEED[..], b"certificate");
}

#[test]
fn seed_lists_hold_the_seeds_in_order() {
    assert_eq!(one_seed(b"a"), vec![b"a".to_vec()]);
    assert_eq!(two_seeds(b"a", b"bc"), vec![b"a".to_vec(), b"bc".to_vec()]);
    assert_eq!(three_seeds(b"a", b"", b"c"), vec![b"a".to_vec(), Vec::new(), b"c".to_vec()]);
    assert_eq!(config_seed_list(), vec![b"registry-config".to_vec()]);
    assert_eq!(
        entry_seed_list("ns", &b"key".to_vec()),
        vec![b"ns".to_vec(), b"key".to_vec()]
    );
    assert_eq!(schema_seed_list(9), vec![b"schema".to_vec(), vec![9u8]]);
}

#[test]
fn derive_agrees_with_find_program_address() {
    let program_key = Pubkey::new_from_array([200; 32]);
    let (expected, expected_bump) =
        Pubkey::find_program_address(&[b"entries".as_ref(), b"alpha".as_ref()], &program_key);
    let (address, bump) =
        entry_address(&derivation_program(), "entries", &b"alpha".to_vec()).unwrap();
    assert_eq!(address.to_bytes(), expected.to_bytes());
    assert_eq!(bump, expected_bump);
    assert_ne!(address, derivation_program());
}

#[test]
fn derive_agrees_with_find_program_address_for_many_keys() {
    let program_key = Pubkey::new_from_array([200; 32]);
    let mut below_255 = 0;
    for i in 0..64u8 {
        let key = vec![i, i.wrapping_mul(7), 3];
        let (expected, expected_bump) =
            Pubkey::find_program_address(&[b"ns".as_ref(), key.as_ref()], &program_key);
        let (address, bump) =
            registries::derivation::derive(two_seeds(b"ns", &key), &derivation_program()).unwrap();
        assert_eq!(address.to_bytes(), expected.to_bytes());
        assert_eq!(bump, expected_bump);
        if bump < 255 {
            below_255 += 1;
        }
    }
    assert!(below_255 > 0);
}

#[test]
fn derive_gives_the_address_of_create_program_address() {
    let program_key = Pubkey::new_from_array([200; 32]);
    let (address, bump) =
        registries::derivation::derive(one_seed(b"vault"), &derivation_program()).unwrap();
    let created =
        Pubkey::create_program_address(&[b"vault".as_ref(), &[bump]], &program_key).unwrap();
    assert_eq!(address.to_bytes(), created.to_bytes());
    for larger in (bump as u16 + 1)..=255 {
        assert!(Pubkey::create_program_address(
            &[b"vault".as_ref(), &[larger as u8]],
            &program_key
        )
        .is_err());
    }
}

#[test]
fn derive_is_repeatable() {
    let first = entry_address(&derivation_program(), "ns", &b"alpha".to_vec());
    let second = entry_address(&derivation_program(), "ns", &b"alpha".to_vec());
    assert!(first.is_some());
    assert_eq!(first, second);
}

#[test]
fn derive_depends_on_key_namespace_and_program() {
    let base = entry_address(&derivation_program(), "ns", &b"alpha".to_vec()).unwrap();
    let other_key =
        entry_address(&derivation_program(), "ns", &b"beta".to_vec()).unwrap();
    let other_namespace =
        entry_address(&derivation_program(), "nt", &b"alpha".to_vec()).unwrap();
    let other_program =
        entry_address(&Address::new([201; 32]), "ns", &b"alpha".to_vec()).unwrap();
    assert_ne!(base.0, other_key.0);
    assert_ne!(base.0, other_namespace.0);
    assert_ne!(base.0, other_program.0);
}

#[test]
fn derive_refuses_a_seed_of_33_bytes() {
    assert_eq!(registries::derivation::derive(vec![vec![7u8; 33]], &derivation_program()), None);
    assert!(registries::derivation::derive(vec![vec![7u8; 32]], &derivation_program()).is_some());
}

#[test]
fn derive_refuses_16_seeds() {
    let sixteen: Vec<Vec<u8>> = (0..16u8).map(|i| vec![i]).collect();
    assert_eq!(registries::derivation::derive(sixteen, &derivation_program()), None);
    let fifteen: Vec<Vec<u8>> = (0..15u8).map(|i| vec![i]).collect();
    assert!(registries::derivation::derive(fifteen, &derivation_program()).is_some());
}

#[test]
fn derive_takes_no_seeds_at_all() {
    let program_key = Pubkey::new_from_array([200; 32]);
    let (expected, expected_bump) = Pubkey::find_program_address(&[], &program_key);
    let (address, bump) =
        registries::derivation::derive(Vec::new(), &derivation_program()).unwrap();
    assert_eq!(address.to_bytes(), expected.to_bytes());
    assert_eq!(bump, expected_bump);
}

#[test]
fn config_and_schema_addresses_agree_with_the_seeds() {
    let program_key = Pubkey::new_from_array([200; 32]);
    let (config, config_bump) =
        Pubkey::find_program_address(&[b"registry-config".as_ref()], &program_key);
    assert_eq!(
        config_address(&derivation_program()).map(|(a, b)| (a.to_bytes(), b)),
        Some((config.to_bytes(), config_bump))
    );
    let (schema, schema_bump) =
        Pubkey::find_program_address(&[b"schema".as_ref(), &[3u8]], &program_key);
    assert_eq!(
        schema_address(&derivation_program(), 3).map(|(a, b)| (a.to_bytes(), b)),
        Some((schema.to_bytes(), schema_bump))
    );
}

#[test]
fn names_derived_cell_accepts_only_the_canonical_pair() {
    let program = derivation_program();
    let (address, bump) = registries::derivation::derive(one_seed(b"vault"), &program).unwrap();
    assert!(names_derived_cell(one_seed(b"vault"), &program, &address, bump));
    assert!(!names_derived_cell(one_seed(b"vault"), &program, &address, bump.wrapping_sub(1)));
    assert!(!names_derived_cell(one_seed(b"vault"), &program, &Address::new([1; 32]), bump));
    assert!(!names_derived_cell(one_seed(b"other"), &program, &address, bump));
    assert!(!names_derived_cell(vec![vec![0u8; 33]], &program, &address, bump));
}

#[test]
fn names_derived_cell_refuses_a_lower_bump_that_also_gives_an_address() {
    let program = derivation_program();
    let program_key = Pubkey::new_from_array([200; 32]);
    let (_, bump) = registries::derivation::derive(one_seed(b"vault"), &program).unwrap();
    let mut lower = bump - 1;
    let other = loop {
        match Pubkey::create_program_address(&[b"vault".as_ref(), &[lower]], &program_key) {
            Ok(key) => break key,
            Err(_) => lower -= 1,
        }
    };
    let other = Address::new(other.to_bytes());
    assert!(!names_derived_cell(one_seed(b"vault"), &program, &other, lower));
}

#[test]
fn names_compares_address_and_bump() {
    let cell = Some((Address::new([4; 32]), 250));
    assert!(names(&cell, &Address::new([4; 32]), 250));
    assert!(!names(&cell, &Address::new([4; 32]), 251));
    assert!(!names(&cell, &Address::new([5; 32]), 250));
    assert!(!names(&None, &Address::new([4; 32]), 250));
}

#[test]
fn namespace_enters_the_derivation_as_its_bytes() {
    let program_key = Pubkey::new_from_array([200; 32]);
    let namespace = "caf\u{e9}";
    assert_eq!(namespace.len(), 5);
    let (expected, expected_bump) =
        Pubkey::find_program_address(&[namespace.as_bytes(), b"alpha".as_ref()], &program_key);
    let (address, bump) =
        entry_address(&derivation_program(), namespace, &b"alpha".to_vec()).unwrap();
    assert_eq!(address.to_bytes(), expected.to_bytes());
    assert_eq!(bump, expected_bump);
    assert_eq!(entry_seed_list(namespace, &b"k".to_vec()), vec![vec![99, 97, 102, 195, 169], b"k".to_vec()]);
}
