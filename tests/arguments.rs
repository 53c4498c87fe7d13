use private_voting::computation::build_argument_list;
use private_voting::private_voting::Argument;

#[test]
fn argument_list_keeps_values_in_order() {
    let list = build_argument_list(&vec![
        Argument::X25519Pubkey([5u8; 32]),
        Argument::PlaintextU128(77),
        Argument::EncryptedU64([1u8; 32]),
        Argument::PlaintextU128(42),
        Argument::Account { key: [2u8; 32], offset: 9, length: 160 },
    ]);
    assert_eq!(list.args.len(), 5);
    assert_eq!(list.values_128_bit, vec![77u128, 42u128]);
    assert_eq!(list.byte_arrays, vec![[5u8; 32], [1u8; 32]]);
    assert!(list.plaintext_numbers.is_empty());
    assert_eq!(list.accounts.len(), 1);
    assert_eq!(list.accounts[0].pubkey.to_bytes(), [2u8; 32]);
    assert_eq!(list.accounts[0].offset, 9);
    assert_eq!(list.accounts[0].length, 160);
}

#[test]
fn empty_argument_list_holds_nothing() {
    let list = build_argument_list(&vec![]);
    assert!(list.args.is_empty());
    assert!(list.values_128_bit.is_empty());
    assert!(list.byte_arrays.is_empty());
    assert!(list.accounts.is_empty());
}
