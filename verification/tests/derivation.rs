use solana_program::pubkey::Pubkey;
use token_delegate::addr::Address;
use token_delegate::derivation::derive_allowance_address;
use token_delegate::derivation::derive_root_authority;

fn addr(n: u64) -> Address {
    Address { w0: n, w1: n + 1, w2: n + 2, w3: n + 3 }
}

fn to_pubkey(a: &Address) -> Pubkey {
    let b: [u8; 32] = a.to_bytes().try_into().unwrap();
    Pubkey::new_from_array(b)
}

#[test]
fn root_authority_matches_the_registry_derivation() {
    let program_id = addr(100);
    let pid = to_pubkey(&program_id);
    let expected = Pubkey::try_find_program_address(&[pid.as_ref()], &pid);
    let got = derive_root_authority(&program_id);
    match (got, expected) {
        (Some((a, bump)), Some((pk, expected_bump))) => {
            assert_eq!(a.to_bytes(), pk.to_bytes().to_vec());
            assert_eq!(bump, expected_bump);
            // the derived authority is a distinct identity, not a seed echoed back
            assert_ne!(a, program_id);
        }
        (None, None) => {}
        _ => panic!("library and registry disagree on derivability"),
    }
}

#[test]
fn root_authority_is_stable_across_calls() {
    let program_id = addr(7);
    assert_eq!(derive_root_authority(&program_id), derive_root_authority(&program_id));
}

#[test]
fn allowance_address_matches_the_registry_derivation() {
    let program_id = addr(100);
    let token_account = addr(200);
    let delegate = addr(300);
    let pid = to_pubkey(&program_id);
    let ta = to_pubkey(&token_account);
    let d = to_pubkey(&delegate);
    let expected = Pubkey::try_find_program_address(&[ta.as_ref(), d.as_ref()], &pid);
    let got = derive_allowance_address(&token_account, &delegate, &program_id);
    match (got, expected) {
        (Some((a, bump)), Some((pk, expected_bump))) => {
            assert_eq!(a.to_bytes(), pk.to_bytes().to_vec());
            assert_eq!(bump, expected_bump);
        }
        (None, None) => {}
        _ => panic!("library and registry disagree on derivability"),
    }
}

#[test]
fn the_two_derivations_differ_for_distinct_seed_material() {
    let program_id = addr(100);
    let token_account = addr(200);
    let delegate = addr(300);
    let root = derive_root_authority(&program_id);
    let record = derive_allowance_address(&token_account, &delegate, &program_id);
    match (root, record) {
        (Some((a, _)), Some((b, _))) => assert_ne!(a, b),
        _ => panic!("derivation unexpectedly failed"),
    }
}
