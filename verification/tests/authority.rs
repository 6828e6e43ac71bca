use anchor_lang::prelude::Pubkey;
use cpop_program::address::Address;
use cpop_program::authority::{
    campaign_authority, campaign_seed_list, derive_campaign_address, namespace, program_id,
    signer_seed_list, utf8_bytes,
};
use std::str::FromStr;

fn organizer() -> Address {
    Address::new([7u8; 32])
}

fn other_organizer() -> Address {
    let mut bytes = [7u8; 32];
    bytes[31] = 8;
    Address::new(bytes)
}

fn program_key() -> Pubkey {
    Pubkey::new_from_array(program_id().bytes)
}

#[test]
fn address_same_compares_bytes() {
    let a = Address::new([1u8; 32]);
    let b = Address::new([1u8; 32]);
    let mut bytes = [1u8; 32];
    bytes[0] = 2;
    let c = Address::new(bytes);
    let mut last = [1u8; 32];
    last[31] = 0;
    let d = Address::new(last);
    assert!(a.same(&b));
    assert!(!a.same(&c));
    assert!(!a.same(&d));
    assert_eq!(a, b);
    assert_ne!(a, c);
}

#[test]
fn address_to_vec_holds_the_bytes() {
    let mut bytes = [0u8; 32];
    for i in 0..32 {
        bytes[i] = i as u8;
    }
    let address = Address::new(bytes);
    assert_eq!(address.bytes, bytes);
    assert_eq!(address.to_vec(), bytes.to_vec());
    assert_eq!(address.to_vec().len(), 32);
}

#[test]
fn program_id_is_the_declared_id() {
    let declared = Pubkey::from_str("J1LhfXskL8XwGUpa5jpenWg7mXEKE9TdYJLxYTbu8LAz").unwrap();
    assert_eq!(program_id().bytes, declared.to_bytes());
}

#[test]
fn namespace_is_the_word_campaign() {
    assert_eq!(namespace(), b"campaign".to_vec());
}

#[test]
fn utf8_bytes_are_the_encoding() {
    assert_eq!(utf8_bytes("s1"), vec![0x73u8, 0x31u8]);
    assert_eq!(utf8_bytes(""), Vec::<u8>::new());
    assert_eq!(utf8_bytes("é"), vec![0xc3u8, 0xa9u8]);
}

#[test]
fn campaign_seed_list_is_tag_organizer_seed() {
    let seeds = campaign_seed_list(&organizer(), "s1");
    assert_eq!(seeds, vec![b"campaign".to_vec(), vec![7u8; 32], b"s1".to_vec()]);
}

#[test]
fn signer_seed_list_ends_with_the_bump() {
    let seeds = signer_seed_list(&organizer(), "s1", 254);
    assert_eq!(
        seeds,
        vec![b"campaign".to_vec(), vec![7u8; 32], b"s1".to_vec(), vec![254u8]]
    );
}

#[test]
fn derive_matches_find_program_address() {
    let org = organizer();
    let (key, bump) =
        Pubkey::find_program_address(&[b"campaign", &org.bytes, b"s1"], &program_key());
    let derived = derive_campaign_address(&org, "s1");
    assert_eq!(derived, Some((Address::new(key.to_bytes()), bump)));
    let (address, _) = derived.unwrap();
    assert_ne!(address, org);
    assert_ne!(address, program_id());
}

#[test]
fn derived_bump_is_at_least_one() {
    let (_, bump) = derive_campaign_address(&organizer(), "s1").unwrap();
    assert!(bump >= 1);
}

#[test]
fn derive_rejects_a_seed_over_thirty_two_bytes() {
    let long = "a".repeat(33);
    assert_eq!(derive_campaign_address(&organizer(), &long), None);
    let longest = "a".repeat(32);
    assert!(derive_campaign_address(&organizer(), &longest).is_some());
}

#[test]
fn derive_counts_bytes_not_characters() {
    // Seventeen two-byte characters make thirty-four bytes.
    let wide = "é".repeat(17);
    assert_eq!(derive_campaign_address(&organizer(), &wide), None);
    let fits = "é".repeat(16);
    assert!(derive_campaign_address(&organizer(), &fits).is_some());
}

#[test]
fn authority_matches_create_program_address() {
    let org = organizer();
    let (_, bump) = derive_campaign_address(&org, "s1").unwrap();
    let expected = Pubkey::create_program_address(
        &[b"campaign", &org.bytes, b"s1", &[bump]],
        &program_key(),
    )
    .unwrap();
    assert_eq!(
        campaign_authority(&org, "s1", bump),
        Some(Address::new(expected.to_bytes()))
    );
}

#[test]
fn authority_rederives_the_campaign_address() {
    let org = organizer();
    let (address, bump) = derive_campaign_address(&org, "spring-drop").unwrap();
    assert_eq!(campaign_authority(&org, "spring-drop", bump), Some(address));
}

#[test]
fn authority_is_deterministic() {
    let org = organizer();
    let (_, bump) = derive_campaign_address(&org, "s1").unwrap();
    let first = campaign_authority(&org, "s1", bump);
    let second = campaign_authority(&Address::new([7u8; 32]), "s1", bump);
    assert!(first.is_some());
    assert_eq!(first, second);
}

#[test]
fn authority_changes_with_each_input() {
    let org = organizer();
    let (_, bump) = derive_campaign_address(&org, "s1").unwrap();
    let base = campaign_authority(&org, "s1", bump);
    assert_ne!(campaign_authority(&other_organizer(), "s1", bump), base);
    assert_ne!(campaign_authority(&org, "s2", bump), base);
    assert_ne!(campaign_authority(&org, "s1", bump - 1), base);
}

#[test]
fn authority_is_none_where_the_bump_lands_on_the_curve() {
    // Whenever the search skipped a bump, that bump derives no authority.
    let org = organizer();
    let mut checked = 0;
    for n in 0..40 {
        let seed = format!("probe-{}", n);
        let (_, bump) = derive_campaign_address(&org, &seed).unwrap();
        let mut higher = 255u8;
        while higher > bump {
            assert_eq!(campaign_authority(&org, &seed, higher), None);
            checked += 1;
            higher -= 1;
        }
    }
    assert!(checked > 0);
}

#[test]
fn authority_is_none_for_a_seed_over_thirty_two_bytes() {
    let long = "b".repeat(33);
    assert_eq!(campaign_authority(&organizer(), &long, 255), None);
}
