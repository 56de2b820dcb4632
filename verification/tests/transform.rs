use cgmath::{One, Quaternion};
use flight_core::inventory::InventoryMgr;
use flight_core::transform::TransformMgr;
use flight_core::vector::Vec3;

#[test]
fn transforms_are_appended() {
    let mut transforms = TransformMgr::new();
    assert_eq!(transforms.len(), 0);
    let turned = Quaternion::new(0.0f32, 1.0, 0.0, 0.0);
    assert_eq!(transforms.add(Vec3::new(1, 2, 3), Quaternion::one()), 0);
    assert_eq!(transforms.add(Vec3::new(4, 5, 6), turned), 1);
    assert_eq!(transforms.len(), 2);
    assert_eq!(transforms.position[0], Vec3::new(1, 2, 3));
    assert_eq!(transforms.position[1], Vec3::new(4, 5, 6));
    assert_eq!(transforms.rotation[0], Quaternion::one());
    assert_eq!(transforms.rotation[1], turned);
}

#[test]
fn translate_moves_one_entity() {
    let mut transforms = TransformMgr::new();
    transforms.add(Vec3::new(1, 2, 3), 0u8);
    transforms.add(Vec3::new(4, 5, 6), 1u8);
    transforms.translate(1, Vec3::new(10, -20, 30));
    assert_eq!(transforms.position[0], Vec3::new(1, 2, 3));
    assert_eq!(transforms.position[1], Vec3::new(14, -15, 36));
    assert_eq!(transforms.rotation, vec![0u8, 1u8]);
}

#[test]
fn translate_saturates() {
    let mut transforms = TransformMgr::new();
    transforms.add(Vec3::new(i64::MAX - 1, i64::MIN + 1, 0), ());
    transforms.translate(0, Vec3::new(5, -5, 5));
    assert_eq!(transforms.position[0], Vec3::new(i64::MAX, i64::MIN, 5));
}

#[test]
fn rotation_and_pose_are_replaced() {
    let mut transforms = TransformMgr::new();
    transforms.add(Vec3::new(1, 2, 3), 7u8);
    transforms.add(Vec3::new(4, 5, 6), 8u8);
    transforms.set_rotation(0, 9);
    assert_eq!(transforms.rotation, vec![9u8, 8u8]);
    assert_eq!(transforms.position[0], Vec3::new(1, 2, 3));
    transforms.set_pose(1, Vec3::new(0, 0, 0), 10);
    assert_eq!(transforms.rotation, vec![9u8, 10u8]);
    assert_eq!(transforms.position[1], Vec3::new(0, 0, 0));
    transforms.update();
    assert_eq!(transforms.rotation, vec![9u8, 10u8]);
    assert_eq!(transforms.position, vec![Vec3::new(1, 2, 3), Vec3::new(0, 0, 0)]);
}

#[test]
fn vector_arithmetic() {
    let v = Vec3::new(1_000_000, -2_000_000, 3_000_000);
    assert_eq!(v.translate(Vec3::new(1, 2, 3)), Vec3::new(1_000_001, -1_999_998, 3_000_003));
    assert_eq!(v.difference(Vec3::new(1, 2, 3)), Vec3::new(999_999, -2_000_002, 2_999_997));
    assert_eq!(v.scale(500_000), Vec3::new(500_000, -1_000_000, 1_500_000));
    // 1 + 4 + 9
    assert_eq!(v.magnitude2(), 14_000_000);
    assert_eq!(Vec3::zero(), Vec3::new(0, 0, 0));
    assert!(v.is_within(v, v));
    assert!(v.is_within(Vec3::new(0, -3_000_000, 0), Vec3::new(2_000_000, 0, 3_000_000)));
    assert!(!v.is_within(Vec3::new(0, -1_000_000, 0), Vec3::new(2_000_000, 0, 3_000_000)));
    assert!(!v.is_within(Vec3::new(0, -3_000_000, 0), Vec3::new(2_000_000, 0, 2_999_999)));
}

#[test]
fn inventories_start_empty() {
    let mut inventories = InventoryMgr::new();
    assert_eq!(inventories.len(), 0);
    assert_eq!(inventories.add(), 0);
    assert_eq!(inventories.add(), 1);
    assert_eq!(inventories.len(), 2);
    assert_eq!(inventories.item_ammo_bullets, vec![0, 0]);
    assert_eq!(inventories.item_ammo_rockets, vec![0, 0]);
    assert_eq!(inventories.item_ammo_energy_cells, vec![0, 0]);
}
