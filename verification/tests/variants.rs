use registries::address::Address;
use registries::derivation::{one_seed, three_seeds, two_seeds};
use registries::error::ErrorCode;
use registries::{
    certificate_registry, permissionless_registry, permissionless_verifiable_registry,
    permissionless_verifiable_updateable_registry as updateable, program_registry,
    verified_registry,
};

fn key(tag: u8) -> Address {
    Address::new([tag; 32])
}

fn owning_program() -> Address {
    key(210)
}

fn cell(seeds: Vec<Vec<u8>>) -> (Address, u8) {
    registries::derivation::derive(seeds, &owning_program()).unwrap()
}

// ---- the registry that only its authority writes ----

fn verified_started() -> (verified_registry::Registry, Address) {
    let mut ledger = verified_registry::Registry::new(owning_program());
    let (registry_context, bump) = cell(one_seed(&verified_registry::CONTEXT_SEED));
    let ctx = verified_registry::Init { registry_context, authority: key(1) };
    assert_eq!(verified_registry::init(&mut ledger, ctx, verified_registry::InitIx { bump }), Ok(()));
    (ledger, registry_context)
}

fn verified_adding(
    registry_context: Address,
    seed: u8,
    signer: u8,
    url: &str,
) -> (verified_registry::AddEntry, verified_registry::AddEntryIx) {
    let (entry, bump) = cell(two_seeds(&verified_registry::ENTRY_SEED, &[seed; 32]));
    (
        verified_registry::AddEntry { registry_context, entry, authority: key(signer) },
        verified_registry::AddEntryIx {
            address: key(90),
            additional_data_url: url.to_string(),
            bump,
            seed: [seed; 32],
        },
    )
}

#[test]
fn verified_registry_init_and_transfer() {
    let (mut ledger, registry_context) = verified_started();
    assert_eq!(ledger.config().unwrap().authority, key(1));
    let again = verified_registry::Init { registry_context, authority: key(2) };
    let bump = cell(one_seed(&verified_registry::CONTEXT_SEED)).1;
    assert_eq!(
        verified_registry::init(&mut ledger, again, verified_registry::InitIx { bump }),
        Err(ErrorCode::AddressAlreadyInUse)
    );
    let wrong = verified_registry::InitIx { bump: bump.wrapping_sub(1) };
    let mut other = verified_registry::Registry::new(owning_program());
    assert_eq!(verified_registry::init(&mut other, again, wrong), Err(ErrorCode::MalformedAddress));
    assert!(other.config().is_none());
    let ctx = verified_registry::TransferVerificationAuthority {
        registry_context,
        authority: key(2),
        new_authority: key(2),
    };
    assert_eq!(
        verified_registry::transfer_authority(&mut ledger, ctx),
        Err(ErrorCode::InsufficientAuthority)
    );
    let ctx = verified_registry::TransferVerificationAuthority {
        registry_context,
        authority: key(1),
        new_authority: key(2),
    };
    assert_eq!(verified_registry::transfer_authority(&mut ledger, ctx), Ok(()));
    assert_eq!(ledger.config().unwrap().authority, key(2));
    assert!(ledger.holds_config_at(&registry_context));
    assert_eq!(
        verified_registry::transfer_authority(&mut other, ctx),
        Err(ErrorCode::RecordNotFound)
    );
}

#[test]
fn verified_registry_only_the_authority_writes() {
    let (mut ledger, registry_context) = verified_started();
    let (ctx, ix) = verified_adding(registry_context, 5, 2, "https://a");
    assert_eq!(
        verified_registry::add_entry(&mut ledger, ctx, ix, 10),
        Err(ErrorCode::InsufficientAuthority)
    );
    assert_eq!(ledger.entry_count(), 0);
    let (ctx, ix) = verified_adding(registry_context, 5, 1, "https://a");
    assert_eq!(verified_registry::add_entry(&mut ledger, ctx, ix, 10), Ok(()));
    let entry = ledger.entry(&ctx.entry).unwrap();
    assert_eq!(entry.address, key(90));
    assert_eq!(entry.additional_data_url, "https://a");
    assert_eq!(entry.created_at, 10);
    assert_eq!(entry.updated_at, 10);
    let (ctx2, ix2) = verified_adding(registry_context, 5, 1, "https://b");
    assert_eq!(
        verified_registry::add_entry(&mut ledger, ctx2, ix2, 11),
        Err(ErrorCode::AddressAlreadyInUse)
    );
    let update =
        verified_registry::UpdateEntry { registry_context, entry: ctx.entry, authority: key(2) };
    let ix = verified_registry::UpdateEntryIx { additional_data_url: "https://c".to_string() };
    assert_eq!(
        verified_registry::update_entry(&mut ledger, update, ix, 12),
        Err(ErrorCode::InsufficientAuthority)
    );
    let update =
        verified_registry::UpdateEntry { registry_context, entry: ctx.entry, authority: key(1) };
    let ix = verified_registry::UpdateEntryIx { additional_data_url: "https://c".to_string() };
    assert_eq!(verified_registry::update_entry(&mut ledger, update, ix, 12), Ok(()));
    let entry = ledger.entry(&ctx.entry).unwrap();
    assert_eq!(entry.additional_data_url, "https://c");
    assert_eq!(entry.created_at, 10);
    assert_eq!(entry.updated_at, 12);
    assert_eq!(entry.address, key(90));
    let remove =
        verified_registry::RemoveEntry { registry_context, entry: ctx.entry, authority: key(2) };
    assert_eq!(
        verified_registry::remove_entry(&mut ledger, remove),
        Err(ErrorCode::InsufficientAuthority)
    );
    let remove =
        verified_registry::RemoveEntry { registry_context, entry: ctx.entry, authority: key(1) };
    assert_eq!(verified_registry::remove_entry(&mut ledger, remove), Ok(()));
    assert_eq!(ledger.entry_count(), 0);
    assert_eq!(verified_registry::remove_entry(&mut ledger, remove), Err(ErrorCode::RecordNotFound));
}

#[test]
fn verified_registry_checks_addresses_and_sizes() {
    let (mut ledger, registry_context) = verified_started();
    let (ctx, mut ix) = verified_adding(registry_context, 5, 1, "u");
    ix.seed = [6; 32];
    assert_eq!(verified_registry::add_entry(&mut ledger, ctx, ix, 10), Err(ErrorCode::MalformedAddress));
    let (mut ctx, ix) = verified_adding(registry_context, 5, 1, "u");
    ctx.registry_context = key(3);
    assert_eq!(verified_registry::add_entry(&mut ledger, ctx, ix, 10), Err(ErrorCode::RecordNotFound));
    let (ctx, ix) = verified_adding(registry_context, 5, 1, &"u".repeat(197));
    assert_eq!(verified_registry::add_entry(&mut ledger, ctx, ix, 10), Err(ErrorCode::StorageExceeded));
    let (ctx, ix) = verified_adding(registry_context, 5, 1, &"u".repeat(196));
    assert_eq!(verified_registry::add_entry(&mut ledger, ctx, ix, 10), Ok(()));
    let update =
        verified_registry::UpdateEntry { registry_context, entry: ctx.entry, authority: key(1) };
    let ix = verified_registry::UpdateEntryIx { additional_data_url: "v".repeat(197) };
    assert_eq!(
        verified_registry::update_entry(&mut ledger, update, ix, 12),
        Err(ErrorCode::StorageExceeded)
    );
    assert_eq!(ledger.entry(&ctx.entry).unwrap().additional_data_url, "u".repeat(196));
    let update = verified_registry::UpdateEntry { registry_context, entry: key(4), authority: key(1) };
    let ix = verified_registry::UpdateEntryIx { additional_data_url: "v".repeat(1) };
    assert_eq!(
        verified_registry::update_entry(&mut ledger, update, ix, 12),
        Err(ErrorCode::RecordNotFound)
    );
}

// ---- the registry of program instances ----

fn program_registry_started() -> (program_registry::Registry, Address) {
    let mut ledger = program_registry::Registry::new(owning_program());
    let (registry_context, bump) = cell(one_seed(&program_registry::CONTEXT_SEED));
    let ctx = program_registry::Init { registry_context, authority: key(1) };
    assert_eq!(program_registry::init(&mut ledger, ctx, program_registry::InitIx { bump }), Ok(()));
    (ledger, registry_context)
}

fn registering(
    seed: u8,
    signer: u8,
    name: &str,
) -> (program_registry::RegisterInstance, program_registry::RegisterInstanceIx) {
    let (program_instance, bump) = cell(two_seeds(&program_registry::INSTANCE_SEED, &[seed; 32]));
    (
        program_registry::RegisterInstance { program_instance, authority: key(signer) },
        program_registry::RegisterInstanceIx {
            name: name.to_string(),
            program_address: key(80),
            bump,
            seed: [seed; 32],
        },
    )
}

#[test]
fn program_registry_anybody_registers() {
    let (mut ledger, _) = program_registry_started();
    let (ctx, ix) = registering(1, 7, "dao");
    assert_eq!(program_registry::register_program_instance(&mut ledger, ctx, ix), Ok(()));
    let instance = ledger.entry(&ctx.program_instance).unwrap();
    assert_eq!(instance.name, "dao");
    assert_eq!(instance.program_address, key(80));
    assert!(!instance.is_verified);
    let (ctx, ix) = registering(1, 8, "other");
    assert_eq!(
        program_registry::register_program_instance(&mut ledger, ctx, ix),
        Err(ErrorCode::AddressAlreadyInUse)
    );
    assert_eq!(ledger.entry(&ctx.program_instance).unwrap().name, "dao");
    let (ctx, mut ix) = registering(2, 8, "other");
    ix.bump = ix.bump.wrapping_sub(1);
    assert_eq!(
        program_registry::register_program_instance(&mut ledger, ctx, ix),
        Err(ErrorCode::MalformedAddress)
    );
    let (ctx, ix) = registering(2, 8, &"n".repeat(84));
    assert_eq!(
        program_registry::register_program_instance(&mut ledger, ctx, ix),
        Err(ErrorCode::StorageExceeded)
    );
    let (ctx, ix) = registering(2, 8, &"n".repeat(83));
    assert_eq!(program_registry::register_program_instance(&mut ledger, ctx, ix), Ok(()));
    assert_eq!(ledger.entry_count(), 2);
    // registering needs no initialised registry
    let mut bare = program_registry::Registry::new(owning_program());
    let (ctx, ix) = registering(1, 7, "dao");
    assert_eq!(program_registry::register_program_instance(&mut bare, ctx, ix), Ok(()));
}

#[test]
fn program_registry_authority_verifies_and_removes() {
    let (mut ledger, registry_context) = program_registry_started();
    let (ctx, ix) = registering(1, 7, "dao");
    assert_eq!(program_registry::register_program_instance(&mut ledger, ctx, ix), Ok(()));
    let program_instance = ctx.program_instance;
    let verify =
        program_registry::VerifyInstance { program_instance, registry_context, authority: key(7) };
    assert_eq!(
        program_registry::verify_program_instance(&mut ledger, verify),
        Err(ErrorCode::InsufficientAuthority)
    );
    assert!(!ledger.entry(&program_instance).unwrap().is_verified);
    let verify =
        program_registry::VerifyInstance { program_instance, registry_context, authority: key(1) };
    assert_eq!(program_registry::verify_program_instance(&mut ledger, verify), Ok(()));
    let instance = ledger.entry(&program_instance).unwrap();
    assert!(instance.is_verified);
    assert_eq!(instance.name, "dao");
    assert_eq!(instance.program_address, key(80));
    assert_eq!(program_registry::verify_program_instance(&mut ledger, verify), Ok(()));
    assert!(ledger.entry(&program_instance).unwrap().is_verified);
    let missing = program_registry::VerifyInstance {
        program_instance: key(9),
        registry_context,
        authority: key(1),
    };
    assert_eq!(
        program_registry::verify_program_instance(&mut ledger, missing),
        Err(ErrorCode::RecordNotFound)
    );
    // not even the one who registered the instance removes it
    let remove =
        program_registry::RemoveInstance { program_instance, registry_context, authority: key(7) };
    assert_eq!(
        program_registry::remove_program_instance(&mut ledger, remove),
        Err(ErrorCode::InsufficientAuthority)
    );
    let transfer = program_registry::TransferVerificationAuthority {
        registry_context,
        authority: key(1),
        new_authority: key(3),
    };
    assert_eq!(program_registry::transfer_authority(&mut ledger, transfer), Ok(()));
    assert_eq!(
        program_registry::transfer_authority(&mut ledger, transfer),
        Err(ErrorCode::InsufficientAuthority)
    );
    let remove =
        program_registry::RemoveInstance { program_instance, registry_context, authority: key(3) };
    assert_eq!(program_registry::remove_program_instance(&mut ledger, remove), Ok(()));
    assert!(ledger.entry(&program_instance).is_none());
    assert_eq!(
        program_registry::remove_program_instance(&mut ledger, remove),
        Err(ErrorCode::RecordNotFound)
    );
}

#[test]
fn program_registry_init_checks() {
    let mut ledger = program_registry::Registry::new(owning_program());
    let (registry_context, bump) = cell(one_seed(&program_registry::CONTEXT_SEED));
    let ctx = program_registry::Init { registry_context: key(5), authority: key(1) };
    assert_eq!(
        program_registry::init(&mut ledger, ctx, program_registry::InitIx { bump }),
        Err(ErrorCode::MalformedAddress)
    );
    let ctx = program_registry::Init { registry_context, authority: key(1) };
    assert_eq!(program_registry::init(&mut ledger, ctx, program_registry::InitIx { bump }), Ok(()));
    assert_eq!(
        program_registry::init(&mut ledger, ctx, program_registry::InitIx { bump }),
        Err(ErrorCode::AddressAlreadyInUse)
    );
    let transfer = program_registry::TransferVerificationAuthority {
        registry_context: key(5),
        authority: key(1),
        new_authority: key(3),
    };
    assert_eq!(
        program_registry::transfer_authority(&mut ledger, transfer),
        Err(ErrorCode::RecordNotFound)
    );
}

// ---- the registry without an authority ----

fn content(name: &str, authority: u8) -> permissionless_registry::EntryData {
    permissionless_registry::EntryData {
        name: name.to_string(),
        description: "what it does".to_string(),
        image_url: "https://img".to_string(),
        program_address: key(70),
        additional_data_url: "https://more".to_string(),
        authority: key(authority),
    }
}

fn permissionless_adding(
    seed: u8,
    signer: u8,
    entry: permissionless_registry::EntryData,
) -> (permissionless_registry::AddEntry, permissionless_registry::AddEntryIx) {
    let (cell_address, bump) = cell(two_seeds(&permissionless_registry::ENTRY_SEED, &[seed; 32]));
    (
        permissionless_registry::AddEntry { entry: cell_address, user: key(signer) },
        permissionless_registry::AddEntryIx { entry, bump, seed: [seed; 32] },
    )
}

#[test]
fn permissionless_registry_signer_becomes_the_authority() {
    let mut ledger = permissionless_registry::Registry::new(owning_program());
    let (ctx, ix) = permissionless_adding(1, 4, content("dao", 99));
    assert_eq!(permissionless_registry::add_entry(&mut ledger, ctx, ix, 10), Ok(()));
    let stored = ledger.entry(&ctx.entry).unwrap();
    assert_eq!(stored.data.authority, key(4));
    assert_eq!(stored.data.name, "dao");
    assert_eq!(stored.data.description, "what it does");
    assert_eq!(stored.data.image_url, "https://img");
    assert_eq!(stored.data.program_address, key(70));
    assert_eq!(stored.data.additional_data_url, "https://more");
    assert_eq!(stored.created_at, 10);
    assert_eq!(stored.updated_at, 10);
    let (ctx2, ix2) = permissionless_adding(1, 5, content("other", 5));
    assert_eq!(
        permissionless_registry::add_entry(&mut ledger, ctx2, ix2, 11),
        Err(ErrorCode::AddressAlreadyInUse)
    );
    let (ctx3, mut ix3) = permissionless_adding(2, 5, content("other", 5));
    ix3.seed = [3; 32];
    assert_eq!(
        permissionless_registry::add_entry(&mut ledger, ctx3, ix3, 11),
        Err(ErrorCode::MalformedAddress)
    );
}

#[test]
fn permissionless_registry_update_replaces_the_content() {
    let mut ledger = permissionless_registry::Registry::new(owning_program());
    let (ctx, ix) = permissionless_adding(1, 4, content("dao", 4));
    assert_eq!(permissionless_registry::add_entry(&mut ledger, ctx, ix, 10), Ok(()));
    let update = permissionless_registry::UpdateEntry { entry: ctx.entry, user: key(5) };
    assert_eq!(
        permissionless_registry::update_entry(&mut ledger, update, content("new", 5), 20),
        Err(ErrorCode::InsufficientAuthority)
    );
    assert_eq!(ledger.entry(&ctx.entry).unwrap().data.name, "dao");
    let update = permissionless_registry::UpdateEntry { entry: ctx.entry, user: key(4) };
    assert_eq!(
        permissionless_registry::update_entry(&mut ledger, update, content("new", 5), 20),
        Ok(())
    );
    let stored = ledger.entry(&ctx.entry).unwrap();
    assert_eq!(stored.data.name, "new");
    assert_eq!(stored.data.description, "what it does");
    assert_eq!(stored.data.program_address, key(70));
    // the authority named in the new content does not count
    assert_eq!(stored.data.authority, key(4));
    assert_eq!(stored.created_at, 10);
    assert_eq!(stored.updated_at, 20);
    // the one named in the new content has no say
    let intruder = permissionless_registry::UpdateEntry { entry: ctx.entry, user: key(5) };
    assert_eq!(
        permissionless_registry::update_entry(&mut ledger, intruder, content("mine", 5), 30),
        Err(ErrorCode::InsufficientAuthority)
    );
    let remove = permissionless_registry::RemoveEntry { entry: ctx.entry, user: key(5) };
    assert_eq!(
        permissionless_registry::remove_entry(&mut ledger, remove),
        Err(ErrorCode::InsufficientAuthority)
    );
    // the one who added the entry still rewrites and removes it
    assert_eq!(
        permissionless_registry::update_entry(&mut ledger, update, content("back", 9), 30),
        Ok(())
    );
    let stored = ledger.entry(&ctx.entry).unwrap();
    assert_eq!(stored.data.name, "back");
    assert_eq!(stored.data.authority, key(4));
    assert_eq!(stored.updated_at, 30);
    let remove = permissionless_registry::RemoveEntry { entry: ctx.entry, user: key(4) };
    assert_eq!(permissionless_registry::remove_entry(&mut ledger, remove), Ok(()));
    assert_eq!(ledger.entry_count(), 0);
    assert_eq!(
        permissionless_registry::remove_entry(&mut ledger, remove),
        Err(ErrorCode::RecordNotFound)
    );
    assert_eq!(
        permissionless_registry::update_entry(&mut ledger, update, content("x", 4), 30),
        Err(ErrorCode::RecordNotFound)
    );
}

#[test]
fn permissionless_registry_content_of_1024_bytes_fits() {
    let mut big = content("", 4);
    big.description = String::new();
    big.image_url = String::new();
    big.additional_data_url = String::new();
    big.name = "n".repeat(920);
    assert!(big.fits());
    big.additional_data_url = "u".repeat(1);
    assert!(!big.fits());
    big.name = "n".repeat(300);
    big.description = "d".repeat(300);
    big.image_url = "i".repeat(300);
    big.additional_data_url = "u".repeat(20);
    assert!(big.fits());
    big.additional_data_url = "u".repeat(21);
    assert!(!big.fits());
    // what counts is the bytes, not the characters
    big.additional_data_url = "\u{e9}".repeat(10);
    assert!(big.fits());
    big.additional_data_url = "\u{e9}".repeat(11);
    assert!(!big.fits());
    let mut ledger = permissionless_registry::Registry::new(owning_program());
    let (ctx, ix) = permissionless_adding(1, 4, big);
    assert_eq!(
        permissionless_registry::add_entry(&mut ledger, ctx, ix, 10),
        Err(ErrorCode::StorageExceeded)
    );
    let (ctx, ix) = permissionless_adding(1, 4, content("dao", 4));
    assert_eq!(permissionless_registry::add_entry(&mut ledger, ctx, ix, 10), Ok(()));
    let update = permissionless_registry::UpdateEntry { entry: ctx.entry, user: key(4) };
    let mut huge = content("dao", 4);
    huge.description = "d".repeat(2000);
    assert_eq!(
        permissionless_registry::update_entry(&mut ledger, update, huge, 20),
        Err(ErrorCode::StorageExceeded)
    );
    assert_eq!(ledger.entry(&ctx.entry).unwrap().data.description, "what it does");
}

// ---- the registry that anybody adds to and an authority vouches for ----

fn verifiable_started() -> (permissionless_verifiable_registry::Registry, Address) {
    let mut ledger = permissionless_verifiable_registry::Registry::new(owning_program());
    let (registry_context, bump) = cell(one_seed(&permissionless_verifiable_registry::CONTEXT_SEED));
    let ctx = permissionless_verifiable_registry::Init { registry_context, authority: key(1) };
    let ix = permissionless_verifiable_registry::InitIx { bump, entry_seed: "ns".to_string() };
    assert_eq!(permissionless_verifiable_registry::init(&mut ledger, ctx, ix), Ok(()));
    (ledger, registry_context)
}

fn verifiable_adding(
    registry_context: Address,
    about: u8,
    signer: u8,
    url: &str,
) -> (permissionless_verifiable_registry::AddEntry, permissionless_verifiable_registry::AddEntryIx) {
    let (entry, bump) = cell(two_seeds(b"ns", &[about; 32]));
    (
        permissionless_verifiable_registry::AddEntry { registry_context, entry, creator: key(signer) },
        permissionless_verifiable_registry::AddEntryIx {
            bump,
            data_url: url.to_string(),
            address: key(about),
        },
    )
}

#[test]
fn verifiable_registry_lifecycle() {
    let (mut ledger, registry_context) = verifiable_started();
    assert_eq!(ledger.config().unwrap().authority, key(1));
    assert_eq!(ledger.config().unwrap().entry_seed, "ns");
    let (ctx, ix) = verifiable_adding(registry_context, 60, 4, "https://a");
    assert_eq!(permissionless_verifiable_registry::add_entry(&mut ledger, ctx, ix, 10), Ok(()));
    let entry = ledger.entry(&ctx.entry).unwrap();
    assert_eq!(entry.address, key(60));
    assert_eq!(entry.data_url, "https://a");
    assert_eq!(entry.creator, key(4));
    assert!(!entry.is_verified);
    assert_eq!(entry.verified_at, 0);
    assert_eq!(entry.created_at, 10);
    let (ctx2, ix2) = verifiable_adding(registry_context, 60, 5, "https://b");
    assert_eq!(
        permissionless_verifiable_registry::add_entry(&mut ledger, ctx2, ix2, 11),
        Err(ErrorCode::AddressAlreadyInUse)
    );
    let verify = permissionless_verifiable_registry::VerifyEntry {
        entry: ctx.entry,
        registry_context,
        authority: key(4),
    };
    assert_eq!(
        permissionless_verifiable_registry::verify_entry(&mut ledger, verify, 12),
        Err(ErrorCode::InsufficientAuthority)
    );
    let verify = permissionless_verifiable_registry::VerifyEntry {
        entry: ctx.entry,
        registry_context,
        authority: key(1),
    };
    assert_eq!(permissionless_verifiable_registry::verify_entry(&mut ledger, verify, 12), Ok(()));
    assert_eq!(permissionless_verifiable_registry::verify_entry(&mut ledger, verify, 13), Ok(()));
    let entry = ledger.entry(&ctx.entry).unwrap();
    assert!(entry.is_verified);
    assert_eq!(entry.verified_at, 13);
    assert_eq!(entry.creator, key(4));
    assert_eq!(entry.data_url, "https://a");
    let remove = permissionless_verifiable_registry::RemoveEntry {
        entry: ctx.entry,
        registry_context,
        authority: key(5),
    };
    assert_eq!(
        permissionless_verifiable_registry::remove_entry(&mut ledger, remove),
        Err(ErrorCode::InsufficientAuthority)
    );
    let remove = permissionless_verifiable_registry::RemoveEntry {
        entry: ctx.entry,
        registry_context,
        authority: key(4),
    };
    assert_eq!(permissionless_verifiable_registry::remove_entry(&mut ledger, remove), Ok(()));
    assert_eq!(
        permissionless_verifiable_registry::remove_entry(&mut ledger, remove),
        Err(ErrorCode::RecordNotFound)
    );
    assert_eq!(
        permissionless_verifiable_registry::verify_entry(&mut ledger, verify, 14),
        Err(ErrorCode::RecordNotFound)
    );
    let (ctx, ix) = verifiable_adding(registry_context, 60, 5, "https://b");
    assert_eq!(permissionless_verifiable_registry::add_entry(&mut ledger, ctx, ix, 15), Ok(()));
    let remove = permissionless_verifiable_registry::RemoveEntry {
        entry: ctx.entry,
        registry_context,
        authority: key(1),
    };
    assert_eq!(permissionless_verifiable_registry::remove_entry(&mut ledger, remove), Ok(()));
}

#[test]
fn verifiable_registry_checks() {
    let mut bare = permissionless_verifiable_registry::Registry::new(owning_program());
    let (registry_context, bump) = cell(one_seed(&permissionless_verifiable_registry::CONTEXT_SEED));
    let ctx = permissionless_verifiable_registry::Init { registry_context, authority: key(1) };
    let ix = permissionless_verifiable_registry::InitIx { bump, entry_seed: "n".repeat(85) };
    assert_eq!(
        permissionless_verifiable_registry::init(&mut bare, ctx, ix),
        Err(ErrorCode::StorageExceeded)
    );
    let ix = permissionless_verifiable_registry::InitIx {
        bump: bump.wrapping_sub(1),
        entry_seed: "n".repeat(4),
    };
    assert_eq!(
        permissionless_verifiable_registry::init(&mut bare, ctx, ix),
        Err(ErrorCode::MalformedAddress)
    );
    let (ctx, ix) = verifiable_adding(registry_context, 60, 4, "https://a");
    assert_eq!(
        permissionless_verifiable_registry::add_entry(&mut bare, ctx, ix, 10),
        Err(ErrorCode::RecordNotFound)
    );
    let (mut ledger, registry_context) = verifiable_started();
    let ix = permissionless_verifiable_registry::InitIx { bump, entry_seed: "n".repeat(4) };
    let again = permissionless_verifiable_registry::Init { registry_context, authority: key(2) };
    assert_eq!(
        permissionless_verifiable_registry::init(&mut ledger, again, ix),
        Err(ErrorCode::AddressAlreadyInUse)
    );
    let (ctx, mut ix) = verifiable_adding(registry_context, 60, 4, "https://a");
    ix.address = key(61);
    assert_eq!(
        permissionless_verifiable_registry::add_entry(&mut ledger, ctx, ix, 10),
        Err(ErrorCode::MalformedAddress)
    );
    let (ctx, ix) = verifiable_adding(registry_context, 60, 4, &"u".repeat(164));
    assert_eq!(
        permissionless_verifiable_registry::add_entry(&mut ledger, ctx, ix, 10),
        Err(ErrorCode::StorageExceeded)
    );
    let (ctx, ix) = verifiable_adding(registry_context, 60, 4, &"u".repeat(163));
    assert_eq!(permissionless_verifiable_registry::add_entry(&mut ledger, ctx, ix, 10), Ok(()));
    let transfer = permissionless_verifiable_registry::TransferAuthority {
        registry_context,
        authority: key(4),
        new_authority: key(4),
    };
    assert_eq!(
        permissionless_verifiable_registry::transfer_authority(&mut ledger, transfer),
        Err(ErrorCode::InsufficientAuthority)
    );
    let transfer = permissionless_verifiable_registry::TransferAuthority {
        registry_context,
        authority: key(1),
        new_authority: key(4),
    };
    assert_eq!(permissionless_verifiable_registry::transfer_authority(&mut ledger, transfer), Ok(()));
    assert_eq!(ledger.config().unwrap().authority, key(4));
    assert_eq!(ledger.config().unwrap().entry_seed, "ns");
    assert_eq!(
        permissionless_verifiable_registry::transfer_authority(&mut bare, transfer),
        Err(ErrorCode::RecordNotFound)
    );
}

// ---- the registry of certificates ----

fn issuing(
    mint: u8,
    owner: u8,
    issuer: u8,
    data: &str,
) -> (certificate_registry::Issue, certificate_registry::IssueIx) {
    let (entry, bump) =
        cell(three_seeds(&certificate_registry::CERTIFICATE_SEED, &[mint; 32], &[owner; 32]));
    (
        certificate_registry::Issue { entry, mint: key(mint), issuer: key(issuer) },
        certificate_registry::IssueIx {
            bump,
            owner: key(owner),
            schema_version: 2,
            data: data.to_string(),
        },
    )
}

#[test]
fn certificate_is_issued_once_for_each_mint_and_owner() {
    let mut ledger = certificate_registry::Registry::new(owning_program());
    let (ctx, ix) = issuing(30, 31, 32, "degree");
    assert_eq!(certificate_registry::issue(&mut ledger, ctx, ix, 50), Ok(()));
    let certificate = ledger.entry(&ctx.entry).unwrap();
    assert_eq!(certificate.mint_address, key(30));
    assert_eq!(certificate.owner, key(31));
    assert_eq!(certificate.issuer, key(32));
    assert_eq!(certificate.issued_at, 50);
    assert_eq!(certificate.schema_version, 2);
    assert_eq!(certificate.data, "degree");
    let (ctx2, ix2) = issuing(30, 31, 33, "again");
    assert_eq!(
        certificate_registry::issue(&mut ledger, ctx2, ix2, 51),
        Err(ErrorCode::AddressAlreadyInUse)
    );
    assert_eq!(ledger.entry(&ctx.entry).unwrap().issuer, key(32));
    let (ctx3, ix3) = issuing(30, 34, 32, "other owner");
    assert_eq!(certificate_registry::issue(&mut ledger, ctx3, ix3, 52), Ok(()));
    let (ctx4, ix4) = issuing(35, 31, 32, "other mint");
    assert_eq!(certificate_registry::issue(&mut ledger, ctx4, ix4, 53), Ok(()));
    assert_eq!(ledger.entry_count(), 3);
    let (mut ctx5, ix5) = issuing(36, 31, 32, "x");
    ctx5.mint = key(37);
    assert_eq!(
        certificate_registry::issue(&mut ledger, ctx5, ix5, 54),
        Err(ErrorCode::MalformedAddress)
    );
    let (ctx6, ix6) = issuing(36, 31, 32, &"d".repeat(908));
    assert_eq!(
        certificate_registry::issue(&mut ledger, ctx6, ix6, 54),
        Err(ErrorCode::StorageExceeded)
    );
    let (ctx7, ix7) = issuing(36, 31, 32, &"d".repeat(907));
    assert_eq!(certificate_registry::issue(&mut ledger, ctx7, ix7, 54), Ok(()));
}

#[test]
fn certificate_is_revoked_by_issuer_or_owner() {
    for (revoker, allowed) in [(31u8, true), (32, true), (33, false), (30, false)] {
        let mut ledger = certificate_registry::Registry::new(owning_program());
        let (ctx, ix) = issuing(30, 31, 32, "degree");
        assert_eq!(certificate_registry::issue(&mut ledger, ctx, ix, 50), Ok(()));
        assert_eq!(ledger.entry(&ctx.entry).unwrap().may_revoke(&key(revoker)), allowed);
        let revoke = certificate_registry::Revoke { entry: ctx.entry, user: key(revoker) };
        if allowed {
            assert_eq!(certificate_registry::revoke(&mut ledger, revoke), Ok(()));
            assert!(ledger.entry(&ctx.entry).is_none());
            assert_eq!(
                certificate_registry::revoke(&mut ledger, revoke),
                Err(ErrorCode::RecordNotFound)
            );
            let (ctx, ix) = issuing(30, 31, 40, "reissued");
            assert_eq!(certificate_registry::issue(&mut ledger, ctx, ix, 60), Ok(()));
            assert_eq!(ledger.entry(&ctx.entry).unwrap().issuer, key(40));
        } else {
            assert_eq!(
                certificate_registry::revoke(&mut ledger, revoke),
                Err(ErrorCode::InsufficientAuthority)
            );
            assert!(ledger.entry(&ctx.entry).is_some());
        }
    }
}

// ---- the registry under a write gate whose entries can be changed ----

fn updateable_started(permissionless_add: bool) -> (updateable::Registry, Address) {
    let mut ledger = updateable::Registry::new(owning_program());
    let (registry_config, bump) = updateable::config_address(&owning_program()).unwrap();
    let ctx = updateable::Init { registry_config, authority: key(1) };
    let ix = updateable::InitIx { bump, entry_seed: "ns".to_string(), permissionless_add };
    assert_eq!(updateable::init(&mut ledger, ctx, ix), Ok(()));
    (ledger, registry_config)
}

fn updateable_adding(
    registry_config: Address,
    about: u8,
    signer: u8,
    data: &str,
) -> (updateable::AddEntry, updateable::AddEntryIx) {
    let (entry, bump) = updateable::entry_address(&owning_program(), "ns", &key(about)).unwrap();
    (
        updateable::AddEntry { registry_config, entry, creator: key(signer) },
        updateable::AddEntryIx {
            bump,
            address: key(about),
            schema_version: 1,
            data: data.to_string(),
        },
    )
}

#[test]
fn updateable_registry_init_and_gate() {
    let (mut closed, registry_config) = updateable_started(false);
    let config = closed.config().unwrap();
    assert_eq!(config.authority, key(1));
    assert_eq!(config.entry_seed, "ns");
    assert!(!config.permissionless_add);
    assert!(config.may_write(&key(1)));
    assert!(!config.may_write(&key(2)));
    let (ctx, ix) = updateable_adding(registry_config, 60, 2, "one");
    assert_eq!(updateable::add_entry(&mut closed, ctx, ix, 10), Err(ErrorCode::InsufficientAuthority));
    let (ctx, ix) = updateable_adding(registry_config, 60, 1, "one");
    assert_eq!(updateable::add_entry(&mut closed, ctx, ix, 10), Ok(()));
    let entry = closed.entry(&ctx.entry).unwrap();
    assert_eq!(entry.address, key(60));
    assert_eq!(entry.creator, key(1));
    assert_eq!(entry.created_at, 10);
    assert_eq!(entry.updated_at, 10);
    assert!(!entry.is_verified);
    assert_eq!(entry.verified_at, 0);
    assert_eq!(entry.schema_version, 1);
    assert_eq!(entry.data, "one");
    let (ctx, ix) = updateable_adding(registry_config, 60, 1, "two");
    assert_eq!(updateable::add_entry(&mut closed, ctx, ix, 11), Err(ErrorCode::AddressAlreadyInUse));
    let (mut open, registry_config) = updateable_started(true);
    assert!(open.config().unwrap().may_write(&key(2)));
    let (ctx, ix) = updateable_adding(registry_config, 60, 2, "one");
    assert_eq!(updateable::add_entry(&mut open, ctx, ix, 10), Ok(()));
    let again = updateable::Init { registry_config, authority: key(2) };
    let bump = updateable::config_address(&owning_program()).unwrap().1;
    let ix = updateable::InitIx { bump, entry_seed: "x".to_string(), permissionless_add: false };
    assert_eq!(updateable::init(&mut open, again, ix), Err(ErrorCode::AddressAlreadyInUse));
    assert!(open.config().unwrap().permissionless_add);
}

#[test]
fn updateable_registry_rewrites_under_the_write_gate() {
    let (mut open, registry_config) = updateable_started(true);
    let (ctx, ix) = updateable_adding(registry_config, 60, 2, "one");
    assert_eq!(updateable::add_entry(&mut open, ctx, ix, 10), Ok(()));
    let verify = updateable::VerifyEntry { registry_config, entry: ctx.entry, authority: key(1) };
    assert_eq!(updateable::verify_entry(&mut open, verify, 11), Ok(()));
    // in an open registry anybody rewrites any entry
    let update = updateable::UpdateEntry { registry_config, entry: ctx.entry, creator: key(3) };
    let ix = updateable::UpdateEntryIx { schema_version: 2, data: "two".to_string() };
    assert_eq!(updateable::update_entry(&mut open, update, ix, 20), Ok(()));
    let entry = open.entry(&ctx.entry).unwrap();
    assert_eq!(entry.data, "two");
    assert_eq!(entry.schema_version, 2);
    assert_eq!(entry.updated_at, 20);
    assert_eq!(entry.created_at, 10);
    assert_eq!(entry.creator, key(2));
    assert!(entry.is_verified);
    assert_eq!(entry.verified_at, 11);
    let ix = updateable::UpdateEntryIx { schema_version: 2, data: "d".repeat(923) };
    assert_eq!(updateable::update_entry(&mut open, update, ix, 21), Err(ErrorCode::StorageExceeded));
    let ix = updateable::UpdateEntryIx { schema_version: 2, data: "d".repeat(922) };
    assert_eq!(updateable::update_entry(&mut open, update, ix, 21), Ok(()));
    // in a closed registry the authority alone rewrites
    let (mut closed, registry_config) = updateable_started(false);
    let (ctx, ix) = updateable_adding(registry_config, 60, 1, "one");
    assert_eq!(updateable::add_entry(&mut closed, ctx, ix, 10), Ok(()));
    let update = updateable::UpdateEntry { registry_config, entry: ctx.entry, creator: key(3) };
    let ix = updateable::UpdateEntryIx { schema_version: 2, data: "two".to_string() };
    assert_eq!(
        updateable::update_entry(&mut closed, update, ix, 20),
        Err(ErrorCode::InsufficientAuthority)
    );
    assert_eq!(closed.entry(&ctx.entry).unwrap().data, "one");
    let update = updateable::UpdateEntry { registry_config, entry: key(9), creator: key(1) };
    let ix = updateable::UpdateEntryIx { schema_version: 2, data: "two".to_string() };
    assert_eq!(updateable::update_entry(&mut closed, update, ix, 20), Err(ErrorCode::RecordNotFound));
}

#[test]
fn updateable_registry_verifies_and_removes() {
    let (mut ledger, registry_config) = updateable_started(true);
    let (ctx, ix) = updateable_adding(registry_config, 60, 2, "one");
    assert_eq!(updateable::add_entry(&mut ledger, ctx, ix, 10), Ok(()));
    let entry = ctx.entry;
    let verify = updateable::VerifyEntry { registry_config, entry, authority: key(2) };
    assert_eq!(updateable::verify_entry(&mut ledger, verify, 11), Err(ErrorCode::InsufficientAuthority));
    let verify = updateable::VerifyEntry { registry_config, entry, authority: key(1) };
    assert_eq!(updateable::verify_entry(&mut ledger, verify, 11), Ok(()));
    assert_eq!(updateable::verify_entry(&mut ledger, verify, 12), Ok(()));
    assert!(ledger.entry(&entry).unwrap().is_verified);
    assert_eq!(ledger.entry(&entry).unwrap().verified_at, 12);
    let undo = updateable::UnverifyEntry { registry_config, entry, authority: key(2) };
    assert_eq!(updateable::unverify_entry(&mut ledger, undo), Err(ErrorCode::InsufficientAuthority));
    let undo = updateable::UnverifyEntry { registry_config, entry, authority: key(1) };
    assert_eq!(updateable::unverify_entry(&mut ledger, undo), Ok(()));
    assert!(!ledger.entry(&entry).unwrap().is_verified);
    assert_eq!(ledger.entry(&entry).unwrap().verified_at, 12);
    let transfer =
        updateable::TransferAuthority { registry_config, authority: key(1), new_authority: key(5) };
    assert_eq!(updateable::transfer_authority(&mut ledger, transfer), Ok(()));
    assert_eq!(ledger.config().unwrap().authority, key(5));
    assert!(ledger.config().unwrap().permissionless_add);
    assert_eq!(
        updateable::transfer_authority(&mut ledger, transfer),
        Err(ErrorCode::InsufficientAuthority)
    );
    let remove = updateable::RemoveEntry { registry_config, entry, authority: key(1) };
    assert_eq!(updateable::remove_entry(&mut ledger, remove), Err(ErrorCode::InsufficientAuthority));
    let remove = updateable::RemoveEntry { registry_config, entry, authority: key(2) };
    assert_eq!(updateable::remove_entry(&mut ledger, remove), Ok(()));
    assert_eq!(updateable::remove_entry(&mut ledger, remove), Err(ErrorCode::RecordNotFound));
    assert_eq!(updateable::verify_entry(&mut ledger, verify, 13), Err(ErrorCode::RecordNotFound));
    assert_eq!(updateable::unverify_entry(&mut ledger, undo), Err(ErrorCode::RecordNotFound));
}

#[test]
fn updateable_registry_checks() {
    let mut bare = updateable::Registry::new(owning_program());
    let (registry_config, bump) = updateable::config_address(&owning_program()).unwrap();
    let ctx = updateable::Init { registry_config, authority: key(1) };
    let ix = updateable::InitIx { bump, entry_seed: "n".repeat(84), permissionless_add: true };
    assert_eq!(updateable::init(&mut bare, ctx, ix), Err(ErrorCode::StorageExceeded));
    let ix = updateable::InitIx {
        bump: bump.wrapping_sub(1),
        entry_seed: "n".repeat(83),
        permissionless_add: true,
    };
    assert_eq!(updateable::init(&mut bare, ctx, ix), Err(ErrorCode::MalformedAddress));
    let (ctx, ix) = updateable_adding(registry_config, 60, 2, "one");
    assert_eq!(updateable::add_entry(&mut bare, ctx, ix, 10), Err(ErrorCode::RecordNotFound));
    let transfer =
        updateable::TransferAuthority { registry_config, authority: key(1), new_authority: key(5) };
    assert_eq!(updateable::transfer_authority(&mut bare, transfer), Err(ErrorCode::RecordNotFound));
    let (mut ledger, registry_config) = updateable_started(true);
    let (ctx, mut ix) = updateable_adding(registry_config, 60, 2, "one");
    ix.address = key(61);
    assert_eq!(updateable::add_entry(&mut ledger, ctx, ix, 10), Err(ErrorCode::MalformedAddress));
    let (ctx, ix) = updateable_adding(registry_config, 60, 2, &"d".repeat(923));
    assert_eq!(updateable::add_entry(&mut ledger, ctx, ix, 10), Err(ErrorCode::StorageExceeded));
    let (ctx, ix) = updateable_adding(registry_config, 60, 2, &"d".repeat(922));
    assert_eq!(updateable::add_entry(&mut ledger, ctx, ix, 10), Ok(()));
}

// ---- operations given the derived cell ----

#[test]
fn operations_given_the_cell_accept_only_what_names_it() {
    let mut ledger = certificate_registry::Registry::new(owning_program());
    let ctx = certificate_registry::Issue { entry: key(40), mint: key(30), issuer: key(32) };
    let ix = |bump| certificate_registry::IssueIx {
        bump,
        owner: key(31),
        schema_version: 2,
        data: "degree".to_string(),
    };
    assert_eq!(
        certificate_registry::issue_at(&mut ledger, ctx, ix(250), 1, None),
        Err(ErrorCode::MalformedAddress)
    );
    assert_eq!(
        certificate_registry::issue_at(&mut ledger, ctx, ix(250), 1, Some((key(41), 250))),
        Err(ErrorCode::MalformedAddress)
    );
    assert_eq!(
        certificate_registry::issue_at(&mut ledger, ctx, ix(250), 1, Some((key(40), 251))),
        Err(ErrorCode::MalformedAddress)
    );
    assert_eq!(ledger.entry_count(), 0);
    assert_eq!(
        certificate_registry::issue_at(&mut ledger, ctx, ix(250), 1, Some((key(40), 250))),
        Ok(())
    );
    assert_eq!(ledger.entry(&key(40)).unwrap().owner, key(31));
    assert_eq!(
        certificate_registry::issue_at(&mut ledger, ctx, ix(250), 1, Some((key(40), 250))),
        Err(ErrorCode::AddressAlreadyInUse)
    );

    let mut ledger = verified_registry::Registry::new(owning_program());
    let ctx = verified_registry::Init { registry_context: key(50), authority: key(1) };
    let ix = verified_registry::InitIx { bump: 7 };
    assert_eq!(verified_registry::init_at(&mut ledger, ctx, ix, None), Err(ErrorCode::MalformedAddress));
    assert_eq!(verified_registry::init_at(&mut ledger, ctx, ix, Some((key(50), 7))), Ok(()));
    assert!(ledger.holds_config_at(&key(50)));
    let add = verified_registry::AddEntry { registry_context: key(50), entry: key(50), authority: key(1) };
    let add_ix = verified_registry::AddEntryIx {
        address: key(2),
        additional_data_url: String::new(),
        bump: 9,
        seed: [0; 32],
    };
    // the cell of the context is taken
    assert_eq!(
        verified_registry::add_entry_at(&mut ledger, add, add_ix, 1, Some((key(50), 9))),
        Err(ErrorCode::AddressAlreadyInUse)
    );

    let mut ledger = program_registry::Registry::new(owning_program());
    let ctx = program_registry::Init { registry_context: key(50), authority: key(1) };
    let ix = program_registry::InitIx { bump: 7 };
    assert_eq!(program_registry::init_at(&mut ledger, ctx, ix, Some((key(50), 8))), Err(ErrorCode::MalformedAddress));
    assert_eq!(program_registry::init_at(&mut ledger, ctx, ix, Some((key(50), 7))), Ok(()));
    let register = program_registry::RegisterInstance { program_instance: key(51), authority: key(3) };
    let register_ix = program_registry::RegisterInstanceIx {
        name: "dao".to_string(),
        program_address: key(4),
        bump: 1,
        seed: [0; 32],
    };
    assert_eq!(
        program_registry::register_program_instance_at(&mut ledger, register, register_ix, Some((key(51), 1))),
        Ok(())
    );
    assert_eq!(ledger.entry(&key(51)).unwrap().name, "dao");

    let mut ledger = permissionless_registry::Registry::new(owning_program());
    let add = permissionless_registry::AddEntry { entry: key(52), user: key(3) };
    let add_ix = permissionless_registry::AddEntryIx { entry: content("dao", 9), bump: 1, seed: [0; 32] };
    assert_eq!(
        permissionless_registry::add_entry_at(&mut ledger, add, add_ix, 5, Some((key(52), 1))),
        Ok(())
    );
    assert_eq!(ledger.entry(&key(52)).unwrap().data.authority, key(3));

    let mut ledger = permissionless_verifiable_registry::Registry::new(owning_program());
    let ctx = permissionless_verifiable_registry::Init { registry_context: key(50), authority: key(1) };
    let ix = permissionless_verifiable_registry::InitIx { bump: 7, entry_seed: "ns".to_string() };
    assert_eq!(
        permissionless_verifiable_registry::init_at(&mut ledger, ctx, ix, Some((key(50), 7))),
        Ok(())
    );
    let add = permissionless_verifiable_registry::AddEntry {
        registry_context: key(50),
        entry: key(53),
        creator: key(3),
    };
    let add_ix = permissionless_verifiable_registry::AddEntryIx {
        bump: 2,
        data_url: "u".to_string(),
        address: key(8),
    };
    assert_eq!(
        permissionless_verifiable_registry::add_entry_at(&mut ledger, add, add_ix, 5, Some((key(53), 2))),
        Ok(())
    );
    assert_eq!(ledger.entry(&key(53)).unwrap().creator, key(3));

    let mut ledger = updateable::Registry::new(owning_program());
    let ctx = updateable::Init { registry_config: key(50), authority: key(1) };
    let ix = updateable::InitIx { bump: 7, entry_seed: "ns".to_string(), permissionless_add: false };
    assert_eq!(updateable::init_at(&mut ledger, ctx, ix, Some((key(50), 7))), Ok(()));
    let add = updateable::AddEntry { registry_config: key(50), entry: key(53), creator: key(1) };
    let add_ix = updateable::AddEntryIx { bump: 2, address: key(8), schema_version: 0, data: String::new() };
    assert_eq!(updateable::add_entry_at(&mut ledger, add, add_ix, 5, Some((key(53), 3))), Err(ErrorCode::MalformedAddress));
    let add_ix = updateable::AddEntryIx { bump: 2, address: key(8), schema_version: 0, data: String::new() };
    assert_eq!(updateable::add_entry_at(&mut ledger, add, add_ix, 5, Some((key(53), 2))), Ok(()));
}
