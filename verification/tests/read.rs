use gb::bitfield::Bitfield;

#[test]
fn it_works() {}

#[test]
fn bitfield_new_keeps_value() {
    assert_eq!(Bitfield::new(0x5A).get(), 0x5A);
}
