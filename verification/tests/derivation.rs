use escrow::address::Address;
use escrow::derivation::{escrow_tag_bytes, rederive, signer_seeds};
use solana_program::pubkey::Pubkey;

fn address(fill: u8) -> Address {
    Address { bytes: [fill; 32] }
}

fn key(a: &Address) -> Pubkey {
    Pubkey::new_from_array(a.bytes)
}

#[test]
fn tag_is_the_text_escrow() {
    assert_eq!(escrow_tag_bytes(), b"escrow".to_vec());
}

#[test]
fn addresses_compare_by_their_bytes() {
    let mut other = address(5);
    assert!(address(5).same(&other));
    other.bytes[31] = 6;
    assert!(!address(5).same(&other));
    other.bytes[31] = 5;
    other.bytes[0] = 4;
    assert!(!address(5).same(&other));
    assert_eq!(address(7).to_vec(), vec![7u8; 32]);
}

#[test]
fn derive_is_what_the_host_finds() {
    for fill in 0..20u8 {
        let (maker, asset, program) = (address(fill), address(fill.wrapping_mul(3) + 1), address(200 - fill));
        let expected = Pubkey::find_program_address(
            &[b"escrow", &maker.bytes, &asset.bytes],
            &key(&program),
        );
        let found = escrow::derivation::derive(b"escrow", &maker, &asset, &program).unwrap();
        assert_eq!(key(&found.0), expected.0);
        assert_eq!(found.1, expected.1);
    }
}

#[test]
fn derive_is_deterministic() {
    let a = escrow::derivation::derive(b"escrow", &address(1), &address(2), &address(3));
    let b = escrow::derivation::derive(b"escrow", &address(1), &address(2), &address(3));
    assert!(a.is_some());
    assert_eq!(a, b);
}

#[test]
fn derive_depends_on_each_seed_and_on_the_program() {
    let base = escrow::derivation::derive(b"escrow", &address(1), &address(2), &address(3)).unwrap();
    assert_ne!(escrow::derivation::derive(b"escrov", &address(1), &address(2), &address(3)).unwrap().0, base.0);
    assert_ne!(escrow::derivation::derive(b"escrow", &address(9), &address(2), &address(3)).unwrap().0, base.0);
    assert_ne!(escrow::derivation::derive(b"escrow", &address(1), &address(9), &address(3)).unwrap().0, base.0);
    assert_ne!(escrow::derivation::derive(b"escrow", &address(1), &address(2), &address(9)).unwrap().0, base.0);
}

#[test]
fn derived_address_is_none_of_its_inputs_and_has_no_key() {
    let (maker, asset, program) = (address(1), address(2), address(3));
    let (found, _) = escrow::derivation::derive(b"escrow", &maker, &asset, &program).unwrap();
    assert_ne!(found, maker);
    assert_ne!(found, asset);
    assert_ne!(found, program);
    assert!(!key(&found).is_on_curve());
}

#[test]
fn derive_refuses_a_seed_that_is_too_long() {
    let tag = [1u8; 33];
    assert_eq!(escrow::derivation::derive(&tag, &address(1), &address(2), &address(3)), None);
    assert_eq!(rederive(&tag, &address(1), &address(2), 255, &address(3)), None);
}

#[test]
fn rederive_with_the_stored_bump_reproduces_the_address() {
    for fill in 0..40u8 {
        let (maker, asset, program) = (address(fill), address(255 - fill), address(77));
        let (found, bump) = escrow::derivation::derive(b"escrow", &maker, &asset, &program).unwrap();
        assert_eq!(rederive(b"escrow", &maker, &asset, bump, &program), Some(found));
    }
}

#[test]
fn rederive_is_what_the_host_creates() {
    let (maker, asset, program) = (address(11), address(12), address(13));
    for bump in [0u8, 1, 100, 254, 255] {
        let expected = Pubkey::create_program_address(
            &[b"escrow", &maker.bytes, &asset.bytes, &[bump]],
            &key(&program),
        )
        .ok()
        .map(|k| Address { bytes: k.to_bytes() });
        assert_eq!(rederive(b"escrow", &maker, &asset, bump, &program), expected);
    }
}

#[test]
fn no_bump_above_the_one_found_derives_an_address() {
    let (maker, asset, program) = (address(21), address(22), address(23));
    let mut seen_lower = false;
    for fill in 0..60u8 {
        let maker = address(fill);
        let (_, bump) = escrow::derivation::derive(b"escrow", &maker, &asset, &program).unwrap();
        for higher in (bump as u16 + 1)..=255 {
            assert_eq!(rederive(b"escrow", &maker, &asset, higher as u8, &program), None);
        }
        seen_lower = seen_lower || bump < 255;
    }
    assert!(seen_lower);
    let (_, bump) = escrow::derivation::derive(b"escrow", &maker, &asset, &program).unwrap();
    assert!(bump >= 1);
}

#[test]
fn rederive_with_another_bump_gives_another_address_or_none() {
    let (maker, asset, program) = (address(1), address(2), address(3));
    let (found, bump) = escrow::derivation::derive(b"escrow", &maker, &asset, &program).unwrap();
    for other in 0..=255u8 {
        if other != bump {
            assert_ne!(rederive(b"escrow", &maker, &asset, other, &program), Some(found));
        }
    }
}

#[test]
fn signer_seeds_are_tag_maker_asset_and_bump() {
    let seeds = signer_seeds(b"escrow", &address(1), &address(2), 9);
    assert_eq!(seeds, vec![b"escrow".to_vec(), vec![1u8; 32], vec![2u8; 32], vec![9u8]]);
}
