use pinocchio_amm::address::{
    associated_token_program_id, program_id, system_program_id, token_program_id, Address,
};

fn bytes_of(a: &solana_address::Address) -> [u8; 32] {
    a.to_bytes()
}

#[test]
fn program_id_matches_declared_address() {
    let expected = solana_address::Address::from_str_const("GGZzCxQb9D7v84Ai1WkQgeqRx79j8pRZfk8yQmF3Jvqo");
    assert_eq!(program_id().bytes, bytes_of(&expected));
}

#[test]
fn token_program_id_matches_token_crate() {
    assert_eq!(token_program_id().bytes, bytes_of(&pinocchio_token::ID));
}

#[test]
fn associated_token_program_id_matches_ata_crate() {
    assert_eq!(associated_token_program_id().bytes, bytes_of(&pinocchio_associated_token_account::ID));
}

#[test]
fn system_program_id_matches_system_crate() {
    assert_eq!(system_program_id().bytes, bytes_of(&pinocchio_system::ID));
}

#[test]
fn address_equality_and_order() {
    let a = Address::new_from_array([1u8; 32]);
    let mut b_bytes = [1u8; 32];
    b_bytes[31] = 2;
    let b = Address::new_from_array(b_bytes);
    assert!(a.equals(&a));
    assert!(!a.equals(&b));
    assert!(a.less_than(&b));
    assert!(!b.less_than(&a));
    assert!(!a.less_than(&a));
    let mut c_bytes = [0u8; 32];
    c_bytes[0] = 2;
    let c = Address::new_from_array(c_bytes);
    // The first byte decides before later ones.
    assert!(b.less_than(&c));
}
