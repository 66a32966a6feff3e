use move_model::address::{Address, ModuleName};
use move_model::symbol::SymbolPool;

#[test]
fn addresses_are_numbers() {
    let one = Address::from_u16(1);
    assert!(one.same(&Address::from_bytes_be(&[1])));
    assert!(one.same(&Address::from_bytes_be(&[0, 0, 0, 1])));
    assert!(!one.same(&Address::from_bytes_be(&[1, 0])));
    let big = Address::from_u16(0x1234);
    assert!(big.same(&Address::from_bytes_be(&[0x12, 0x34])));
    assert!(!big.same(&Address::from_bytes_be(&[0x34, 0x12])));
    let zero = Address::from_u16(0);
    assert!(zero.same(&Address::from_bytes_be(&[])));
    assert!(zero.same(&Address::from_bytes_be(&[0, 0])));
    assert!(!zero.same(&one));
    let mut long = vec![0u8; 31];
    long.push(2);
    assert!(Address::from_bytes_be(&long).same(&Address::from_u16(2)));
    assert!(big.duplicate().same(&big));
}

#[test]
fn module_name_parts() {
    let mut pool = SymbolPool::new();
    let v = pool.make("vector");
    let name = ModuleName::new(Address::from_u16(1), v);
    assert!(name.addr().same(&Address::from_u16(1)));
    assert_eq!(name.name(), v);
}
