use bw8::arch::{PrivilegeLevel, Status};
use bw8::isa::Condition;

#[test]
fn every_byte_survives_unpacking_and_packing() {
    for byte in 0..=255u8 {
        assert_eq!(Status::from_byte(byte).to_byte(), byte);
    }
}

#[test]
fn every_status_survives_packing_and_unpacking() {
    for bits in 0..=255u8 {
        let status = Status {
            carry: bits & 1 != 0,
            zero: bits & 2 != 0,
            overflow: bits & 4 != 0,
            negative: bits & 8 != 0,
            irq_enable: bits & 16 != 0,
            bank_enable: bits & 32 != 0,
            privilege_level: if bits & 64 != 0 { PrivilegeLevel::User } else { PrivilegeLevel::Kernel },
            nmi_active: bits & 128 != 0,
        };
        assert_eq!(Status::from_byte(status.to_byte()), status);
    }
}

#[test]
fn flags_are_packed_from_the_lowest_bit_up() {
    let clear = Status::default();
    assert_eq!(clear.to_byte(), 0x00);
    assert_eq!(clear.privilege_level, PrivilegeLevel::Kernel);
    assert_eq!(Status { carry: true, ..clear }.to_byte(), 0x01);
    assert_eq!(Status { zero: true, ..clear }.to_byte(), 0x02);
    assert_eq!(Status { overflow: true, ..clear }.to_byte(), 0x04);
    assert_eq!(Status { negative: true, ..clear }.to_byte(), 0x08);
    assert_eq!(Status { irq_enable: true, ..clear }.to_byte(), 0x10);
    assert_eq!(Status { bank_enable: true, ..clear }.to_byte(), 0x20);
    assert_eq!(Status { privilege_level: PrivilegeLevel::User, ..clear }.to_byte(), 0x40);
    assert_eq!(Status { nmi_active: true, ..clear }.to_byte(), 0x80);
    assert_eq!(Status::from_byte(0x40).privilege_level, PrivilegeLevel::User);
    assert_eq!(Status::from_byte(0xBF).privilege_level, PrivilegeLevel::Kernel);
}

#[test]
fn only_equality_is_wired_to_the_flags() {
    let zero = Status { zero: true, ..Status::default() };
    let nonzero = Status::default();
    assert!(zero.condition(Condition::Always));
    assert!(nonzero.condition(Condition::Always));
    assert!(zero.condition(Condition::Equal));
    assert!(!nonzero.condition(Condition::Equal));
    assert!(!zero.condition(Condition::NotEqual));
    assert!(nonzero.condition(Condition::NotEqual));
    for condition in [
        Condition::LessThan,
        Condition::GreaterThan,
        Condition::LessEqual,
        Condition::GreaterEqual,
        Condition::LessThanSigned,
        Condition::GreaterThanSigned,
        Condition::LessEqualSigned,
        Condition::GreaterEqualSigned,
    ] {
        assert!(!zero.condition(condition));
        assert!(!nonzero.condition(condition));
    }
}
