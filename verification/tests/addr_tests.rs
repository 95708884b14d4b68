use ephemeral_state::addr::derive_address;
use ephemeral_state::Pubkey;

fn key(b: u8) -> Pubkey {
    Pubkey { bytes: [b; 32] }
}

#[test]
fn derive_address_is_deterministic() {
    let authority = key(1);
    let program = key(9);
    let first = derive_address(&authority, &program).expect("a bump seed should exist");
    let second = derive_address(&authority, &program).expect("a bump seed should exist");
    assert_eq!(first.0.bytes, second.0.bytes);
    assert_eq!(first.1, second.1);
}

#[test]
fn derive_address_depends_on_its_inputs() {
    let program = key(9);
    let a = derive_address(&key(1), &program).expect("a bump seed should exist");
    let b = derive_address(&key(2), &program).expect("a bump seed should exist");
    let c = derive_address(&key(1), &key(8)).expect("a bump seed should exist");
    assert_ne!(a.0.bytes, b.0.bytes);
    assert_ne!(a.0.bytes, c.0.bytes);
    // the derived address is not the seed handed in
    assert_ne!(a.0.bytes, [1u8; 32]);
}

#[test]
fn derive_address_matches_the_chain_derivation() {
    let authority = key(1);
    let program = key(9);
    let ours = derive_address(&authority, &program).expect("a bump seed should exist");
    let pid = anchor_lang::prelude::Pubkey::new_from_array(program.bytes);
    let theirs = anchor_lang::prelude::Pubkey::find_program_address(&[&authority.bytes], &pid);
    assert_eq!(ours.0.bytes, theirs.0.to_bytes());
    assert_eq!(ours.1, theirs.1);
}
