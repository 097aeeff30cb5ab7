use ad_astra::origin::{Origin, ScriptOrigin};
use ad_astra::registry::{MemoryRegistry, RawRegistration, RegistryEntry};
use ad_astra::ty::{FamilyInfo, TypeMeta};
use ad_astra::origin::RustOrigin;

fn unit_type() -> TypeMeta {
    TypeMeta {
        id: 11,
        name: "unit",
        size: 0,
        family: FamilyInfo { id: 101, name: "unit", len: 1, is_fn: false },
        origin: RustOrigin { file: 1, line: 5, column: 1 },
    }
}

#[test]
fn raw_data_finds_its_owned_allocation() {
    let mut registry = MemoryRegistry::new();
    registry.register(RegistryEntry { address: 0x1000, ty: TypeMeta::of_usize(), length: 4, slot: 7 });
    registry.register(RegistryEntry { address: 0x2000, ty: TypeMeta::of_u8(), length: 3, slot: 8 });
    assert_eq!(registry.find(0x1000, TypeMeta::of_usize(), 4), Some(7));
    assert_eq!(registry.find(0x2000, TypeMeta::of_u8(), 3), Some(8));
    assert_eq!(registry.find(0x1000, TypeMeta::of_usize(), 1), None);
    assert_eq!(registry.find(0x1000, TypeMeta::of_u8(), 4), None);
    assert_eq!(registry.find(0x3000, TypeMeta::of_usize(), 4), None);
    assert_eq!(registry.find(0, TypeMeta::of_usize(), 4), None);
    assert_eq!(registry.find(0x1000, unit_type(), 4), None);
}

#[test]
fn dropped_allocations_are_forgotten() {
    let mut registry = MemoryRegistry::new();
    registry.register(RegistryEntry { address: 0x1000, ty: TypeMeta::of_usize(), length: 4, slot: 7 });
    registry.register(RegistryEntry { address: 0x2000, ty: TypeMeta::of_usize(), length: 4, slot: 8 });
    registry.deregister(0x1000);
    assert_eq!(registry.find(0x1000, TypeMeta::of_usize(), 4), None);
    assert_eq!(registry.find(0x2000, TypeMeta::of_usize(), 4), Some(8));
    registry.register(RegistryEntry { address: 0x1000, ty: TypeMeta::of_usize(), length: 2, slot: 9 });
    assert_eq!(registry.find(0x1000, TypeMeta::of_usize(), 2), Some(9));
}

#[test]
fn raw_registration_shares_owned_allocations() {
    let at = Origin::Script(ScriptOrigin { id: 1, start: 0, end: 1 });
    let mut registry = MemoryRegistry::new();
    registry.register(RegistryEntry { address: 0x1000, ty: TypeMeta::of_usize(), length: 4, slot: 7 });
    match registry.register_raw_slice(0x1000, at, TypeMeta::of_usize(), false, true, false, 4) {
        RawRegistration::Shared(slot) => assert_eq!(slot, 7),
        RawRegistration::Fresh(_) => panic!("registered data is shared"),
    }
    match registry.register_raw_slice(0x1000, at, TypeMeta::of_usize(), false, true, false, 2) {
        RawRegistration::Fresh(slice) => {
            assert_eq!(slice.length(), 2);
            assert!(!slice.is_owned() && slice.is_readable() && !slice.is_writeable());
        },
        RawRegistration::Shared(_) => panic!("data of another length is described anew"),
    }
}
