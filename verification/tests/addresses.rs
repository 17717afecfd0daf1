use state_addressing::address::ADDRESS_LEN;
use state_addressing::compute_agent_address;
use state_addressing::compute_contract_address;
use state_addressing::compute_contract_registry_address;
use state_addressing::compute_namespace_registry_address;
use state_addressing::compute_org_address;
use state_addressing::compute_smart_permission_address;
use state_addressing::AddressingError;

fn unhex(text: &str) -> Vec<u8> {
    (0..text.len())
        .step_by(2)
        .map(|i| u8::from_str_radix(&text[i..i + 2], 16).unwrap())
        .collect()
}

#[test]
fn namespace_registry_address_of_abcdef() {
    assert_eq!(
        compute_namespace_registry_address("abcdef").unwrap(),
        unhex("00ec00e32ef19623e8ed9d267f657a81944b3d07adbb768518068e88435745564e8d41")
    );
}

#[test]
fn namespace_registry_ignores_what_follows_six_characters() {
    assert_eq!(
        compute_namespace_registry_address("abcdefXYZ").unwrap(),
        compute_namespace_registry_address("abcdef").unwrap()
    );
    assert_eq!(
        compute_namespace_registry_address("abcdefXYZ").unwrap(),
        unhex("00ec00e32ef19623e8ed9d267f657a81944b3d07adbb768518068e88435745564e8d41")
    );
    assert_ne!(
        compute_namespace_registry_address("abcdeg").unwrap(),
        compute_namespace_registry_address("abcdef").unwrap()
    );
}

#[test]
fn short_namespace_is_invalid_input() {
    match compute_namespace_registry_address("abc") {
        Err(AddressingError::InvalidInput(msg)) => {
            assert_eq!(msg, "namespace 'abc' is less than 6 characters long");
        }
        other => panic!("unexpected result: {:?}", other),
    }
    match compute_namespace_registry_address("") {
        Err(AddressingError::InvalidInput(msg)) => {
            assert_eq!(msg, "namespace '' is less than 6 characters long");
        }
        other => panic!("unexpected result: {:?}", other),
    }
    assert!(matches!(
        compute_namespace_registry_address("abcde"),
        Err(AddressingError::InvalidInput(_))
    ));
}

#[test]
fn namespace_of_five_characters_in_six_bytes_is_invalid_input() {
    match compute_namespace_registry_address("abcd\u{e9}") {
        Err(AddressingError::InvalidInput(msg)) => {
            assert_eq!(msg, "namespace 'abcd\u{e9}' is less than 6 characters long");
        }
        other => panic!("unexpected result: {:?}", other),
    }
    assert!(matches!(
        compute_namespace_registry_address("\u{e9}\u{e9}\u{e9}"),
        Err(AddressingError::InvalidInput(_))
    ));
}

#[test]
fn namespace_of_six_characters_in_seven_bytes_is_accepted() {
    assert_eq!(
        compute_namespace_registry_address("abcde\u{e9}").unwrap(),
        unhex("00ec00d6aabdce96ec0b37d0631c4976083ce8e7a6f1b74a69457b24bec85ce42f031f")
    );
    assert_eq!(
        compute_namespace_registry_address("abcde\u{e9}xyz").unwrap(),
        compute_namespace_registry_address("abcde\u{e9}").unwrap()
    );
}

#[test]
fn namespace_of_six_two_byte_characters_hashes_all_twelve_bytes() {
    assert_eq!(
        compute_namespace_registry_address("\u{e9}\u{e9}\u{e9}\u{e9}\u{e9}\u{e9}").unwrap(),
        unhex("00ec0013478a4c67a06f07a17bf92168a16863c4f890da358cc76906b60cbe31ae5986")
    );
}

#[test]
fn namespaces_that_differ_in_the_sixth_character_differ_in_address() {
    let f = compute_namespace_registry_address("abcd\u{e9}f").unwrap();
    let g = compute_namespace_registry_address("abcd\u{e9}g").unwrap();
    assert_eq!(
        f,
        unhex("00ec00e4e0eead39e0009410653af68e2afdd567dfbf5478cdfe11641f6e9f3ad53009")
    );
    assert_eq!(
        g,
        unhex("00ec00916d5263af9c9eef153b882349909fd207a025ed1fc098d3751f7d5ecaf2e881")
    );
    assert_ne!(f, g);
}

#[test]
fn contract_registry_address_of_intkey() {
    assert_eq!(
        compute_contract_registry_address("intkey").unwrap(),
        unhex("00ec011cf126a27a1fd9ba83e819ebff8c9f98ec8976f39cce35e984242a2ee40368fd")
    );
}

#[test]
fn contract_address_joins_name_and_version_with_a_comma() {
    assert_eq!(
        compute_contract_address("foo", "1.0").unwrap(),
        unhex("00ec0262f4e4a4f735d1e08924c4cd72817aa559897e4635d8aa3760722df5a10089c5")
    );
    assert_eq!(
        compute_contract_address("foo,1", "0").unwrap(),
        unhex("00ec02a5d5276eef98200d15c31918b7193d88ec4716b21d115fe28792fbf3da319340")
    );
    assert_ne!(
        compute_contract_address("foo", "1.0").unwrap(),
        compute_contract_address("foo,1", "0").unwrap()
    );
}

#[test]
fn contract_address_does_not_escape_commas() {
    assert_eq!(
        compute_contract_address("foo,1", "0").unwrap(),
        compute_contract_address("foo", "1,0").unwrap()
    );
}

#[test]
fn contract_address_depends_on_the_order_of_its_parts() {
    assert_ne!(
        compute_contract_address("foo", "1.0").unwrap(),
        compute_contract_address("1.0", "foo").unwrap()
    );
}

#[test]
fn smart_permission_address_of_acme_can_ship() {
    assert_eq!(
        compute_smart_permission_address("acme", "can_ship").unwrap(),
        unhex("00ec03c13476fdf3ab3b8b79022926b845cc135b6b6fb97c7dd43601c026c94b7a9e31")
    );
}

#[test]
fn smart_permission_is_not_one_hash_of_both_parts() {
    let address = compute_smart_permission_address("acme", "can_ship").unwrap();
    // bytes 3..6 are those of the organization's own address suffix
    let org = compute_org_address("acme").unwrap();
    assert_eq!(address[3..6], org[4..7]);
}

#[test]
fn changing_the_organization_changes_only_bytes_three_to_six() {
    let a = compute_smart_permission_address("acme", "can_ship").unwrap();
    let b = compute_smart_permission_address("globex", "can_ship").unwrap();
    assert_eq!(
        b,
        unhex("00ec03d053f9fdf3ab3b8b79022926b845cc135b6b6fb97c7dd43601c026c94b7a9e31")
    );
    assert_eq!(a[..3], b[..3]);
    assert_ne!(a[3..6], b[3..6]);
    assert_eq!(a[6..], b[6..]);
}

#[test]
fn changing_the_permission_name_changes_only_the_last_twenty_nine_bytes() {
    let a = compute_smart_permission_address("acme", "can_ship").unwrap();
    let b = compute_smart_permission_address("acme", "can_sell").unwrap();
    assert_eq!(
        b,
        unhex("00ec03c13476babc09308f0cdcb30a512a10e0ddc807654f904af12b2cbec7f727c4ca")
    );
    assert_eq!(a[..6], b[..6]);
    assert_ne!(a[6..], b[6..]);
}

#[test]
fn agent_address_of_alice() {
    assert_eq!(
        compute_agent_address(b"alice").unwrap(),
        unhex("cad11d00408b27d3097eea5a46bf2ab6433a7234a33d5e49957b13ec7acc2ca08e1a13")
    );
}

#[test]
fn agent_address_of_the_empty_name() {
    assert_eq!(
        compute_agent_address(b"").unwrap(),
        unhex("cad11d00cf83e1357eefb8bdf1542850d66d8007d620e4050b5715dc83f4a921d36ce9")
    );
}

#[test]
fn org_address_of_acme() {
    assert_eq!(
        compute_org_address("acme").unwrap(),
        unhex("cad11d01c1347621114982d2df682218c4d87a37d133f415b4f09681752b701f18b425")
    );
}

#[test]
fn agent_and_organization_of_one_name_differ_in_the_prefix_only() {
    let agent = compute_agent_address(b"acme").unwrap();
    let org = compute_org_address("acme").unwrap();
    assert_eq!(agent[..3], org[..3]);
    assert_eq!(agent[3], 0x00);
    assert_eq!(org[3], 0x01);
    assert_eq!(agent[4..], org[4..]);
}

#[test]
fn every_address_has_thirty_five_bytes() {
    assert_eq!(ADDRESS_LEN, 35);
    assert_eq!(compute_namespace_registry_address("abcdef").unwrap().len(), 35);
    assert_eq!(compute_contract_registry_address("intkey").unwrap().len(), 35);
    assert_eq!(compute_contract_address("foo", "1.0").unwrap().len(), 35);
    assert_eq!(compute_smart_permission_address("acme", "can_ship").unwrap().len(), 35);
    assert_eq!(compute_agent_address(b"alice").unwrap().len(), 35);
    assert_eq!(compute_org_address("acme").unwrap().len(), 35);
    assert_eq!(compute_contract_registry_address("").unwrap().len(), 35);
    assert_eq!(compute_contract_address("", "").unwrap().len(), 35);
    assert_eq!(compute_smart_permission_address("", "").unwrap().len(), 35);
    assert_eq!(compute_org_address("").unwrap().len(), 35);
}

#[test]
fn every_address_starts_with_the_prefix_of_its_kind() {
    assert_eq!(compute_namespace_registry_address("abcdef").unwrap()[..3], [0x00u8, 0xec, 0x00]);
    assert_eq!(compute_contract_registry_address("intkey").unwrap()[..3], [0x00u8, 0xec, 0x01]);
    assert_eq!(compute_contract_address("foo", "1.0").unwrap()[..3], [0x00u8, 0xec, 0x02]);
    assert_eq!(
        compute_smart_permission_address("acme", "can_ship").unwrap()[..3],
        [0x00u8, 0xec, 0x03]
    );
    assert_eq!(compute_agent_address(b"alice").unwrap()[..4], [0xcau8, 0xd1, 0x1d, 0x00]);
    assert_eq!(compute_org_address("acme").unwrap()[..4], [0xcau8, 0xd1, 0x1d, 0x01]);
}

#[test]
fn repeated_derivations_agree() {
    assert_eq!(
        compute_namespace_registry_address("abcdef").unwrap(),
        compute_namespace_registry_address(&String::from("abcdef")).unwrap()
    );
    assert_eq!(
        compute_contract_registry_address("intkey").unwrap(),
        compute_contract_registry_address("intkey").unwrap()
    );
    assert_eq!(
        compute_contract_address("foo", "1.0").unwrap(),
        compute_contract_address("foo", "1.0").unwrap()
    );
    assert_eq!(
        compute_smart_permission_address("acme", "can_ship").unwrap(),
        compute_smart_permission_address("acme", "can_ship").unwrap()
    );
    assert_eq!(
        compute_agent_address(b"alice").unwrap(),
        compute_agent_address(&[0x61u8, 0x6c, 0x69, 0x63, 0x65]).unwrap()
    );
    assert_eq!(compute_org_address("acme").unwrap(), compute_org_address("acme").unwrap());
}

#[test]
fn agent_names_need_not_be_text() {
    let address = compute_agent_address(&[0xffu8, 0x00, 0x80]).unwrap();
    assert_eq!(address.len(), 35);
    assert_eq!(address[..4], [0xcau8, 0xd1, 0x1d, 0x00]);
}
