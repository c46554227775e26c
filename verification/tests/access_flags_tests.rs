use classfile::access_flags::AccessFlags;

#[test]
fn flag_values_are_the_documented_bits() {
    assert_eq!(AccessFlags::Public.value(), 0x0001);
    assert_eq!(AccessFlags::Final.value(), 0x0010);
    assert_eq!(AccessFlags::Super.value(), 0x0020);
    assert_eq!(AccessFlags::Interface.value(), 0x0200);
    assert_eq!(AccessFlags::Abstract.value(), 0x0400);
    assert_eq!(AccessFlags::Synthetic.value(), 0x1000);
    assert_eq!(AccessFlags::Annotation.value(), 0x2000);
    assert_eq!(AccessFlags::Enum.value(), 0x4000);
    assert_eq!(AccessFlags::Module.value(), 0x8000);
}

#[test]
fn flag_names_are_the_documented_names() {
    assert_eq!(AccessFlags::Public.flag_name(), "ACC_PUBLIC");
    assert_eq!(AccessFlags::Interface.flag_name(), "ACC_INTERFACE");
    assert_eq!(AccessFlags::Module.flag_name(), "ACC_MODULE");
}

#[test]
fn is_set_in_tests_single_bits() {
    let flags: u16 = 0x0021; // public | super
    assert!(AccessFlags::Public.is_set_in(flags));
    assert!(AccessFlags::Super.is_set_in(flags));
    assert!(!AccessFlags::Final.is_set_in(flags));
    assert!(!AccessFlags::Module.is_set_in(flags));
}
