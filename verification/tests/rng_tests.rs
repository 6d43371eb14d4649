//! Tests of the deterministic hash and the draw-seed packing.

use simslime::rng::{hash, seed_for};

#[test]
fn hash_known_values() {
    assert_eq!(hash(0), 1739749167);
    assert_eq!(hash(1), 150776505);
    assert_eq!(hash(12345), 3826328255);
    assert_eq!(hash((1 << 16) | 2), 2382618105);
}

#[test]
fn hash_is_reproducible() {
    for v in [0u32, 1, 7, 1000, u32::MAX] {
        assert_eq!(hash(v), hash(v));
    }
}

#[test]
fn seed_for_packs_coordinates() {
    assert_eq!(seed_for(0, 0), 0);
    assert_eq!(seed_for(2, 1), 65538);
    assert_eq!(seed_for(0xFFFF, 0xFFFF), u32::MAX);
    assert_eq!(seed_for(5, 0), 5);
    assert_eq!(seed_for(0, 3), 3 << 16);
}
