use pc_custom::display_profile::{
    compare_profiles, compare_topology, mode_index, packed_high, packed_low, DisplayPathFacts,
    DisplayProfile, ProfileComparison,
};

fn path(target_id: u32, numerator: u32) -> DisplayPathFacts {
    DisplayPathFacts {
        target_id,
        source_id: target_id,
        clone_group: 0,
        adapter_id_low: 1,
        adapter_id_high: 0,
        source_x: 0,
        source_y: 0,
        width: 1920,
        height: 1080,
        pixel_format: 1,
        rotation: 1,
        scaling: 1,
        output_technology: 5,
        refresh_numerator: numerator,
        refresh_denominator: 1,
        boost_refresh_rate: false,
    }
}

fn profile(paths: Vec<DisplayPathFacts>) -> DisplayProfile {
    DisplayProfile { paths }
}

#[test]
fn the_same_configuration_twice_is_identical() {
    let one = profile(vec![path(1, 60)]);
    assert_eq!(compare_profiles(&one, &one), ProfileComparison::Identical);
}

#[test]
fn only_the_refresh_rate_differing_is_recognised_as_such() {
    let low = profile(vec![path(1, 60)]);
    let high = profile(vec![path(1, 144)]);
    assert_eq!(
        compare_profiles(&low, &high),
        ProfileComparison::RefreshOnly {
            changed_target_ids: vec![1],
        }
    );
}

#[test]
fn a_resolution_change_is_not_a_refresh_change() {
    let low = profile(vec![path(1, 60)]);
    let mut other = path(1, 144);
    other.width = 2560;
    let high = profile(vec![other]);
    assert!(matches!(
        compare_profiles(&low, &high),
        ProfileComparison::NotComparable { .. }
    ));
}

#[test]
fn a_different_screen_count_is_not_comparable() {
    let one = profile(vec![path(1, 60)]);
    let two = profile(vec![path(1, 60), path(2, 60)]);
    assert!(matches!(
        compare_profiles(&one, &two),
        ProfileComparison::NotComparable { .. }
    ));
}

#[test]
fn switching_between_extend_and_clone_is_not_a_refresh_change() {
    let extended = profile(vec![path(1, 60), path(2, 60)]);
    let mut second = path(2, 60);
    second.source_id = 1;
    let cloned = profile(vec![path(1, 60), second]);
    assert!(matches!(
        compare_profiles(&extended, &cloned),
        ProfileComparison::NotComparable { .. }
    ));
}

#[test]
fn a_variable_refresh_screen_is_never_compared() {
    let mut boosted = path(1, 144);
    boosted.boost_refresh_rate = true;
    let one = profile(vec![path(1, 60)]);
    let other = profile(vec![boosted]);
    assert!(matches!(
        compare_profiles(&one, &other),
        ProfileComparison::NotComparable { .. }
    ));
    assert!(matches!(
        compare_profiles(&other, &one),
        ProfileComparison::NotComparable { .. }
    ));
}

#[test]
fn a_reordered_path_list_is_not_treated_as_the_same_configuration() {
    let ordered = profile(vec![path(1, 60), path(2, 60)]);
    let swapped = profile(vec![path(2, 60), path(1, 60)]);
    assert!(matches!(
        compare_profiles(&ordered, &swapped),
        ProfileComparison::NotComparable { .. }
    ));
}

#[test]
fn topology_comparison_ignores_refresh_but_not_geometry() {
    let saved = profile(vec![path(1, 60)]);
    let mut faster = path(1, 144);
    faster.boost_refresh_rate = true;
    assert_eq!(compare_topology(&saved, &profile(vec![faster])), Ok(()));

    let mut moved = path(1, 60);
    moved.source_x = 1920;
    assert!(compare_topology(&saved, &profile(vec![moved])).is_err());
}

#[test]
fn comparison_is_symmetric_on_a_refresh_only_change() {
    let low = profile(vec![path(1, 60), path(2, 60)]);
    let high = profile(vec![path(1, 60), path(2, 120)]);
    assert_eq!(
        compare_profiles(&high, &low),
        ProfileComparison::RefreshOnly {
            changed_target_ids: vec![2],
        }
    );
}

#[test]
fn an_empty_profile_has_no_usable_topology() {
    let empty = profile(Vec::new());
    assert!(!empty.has_usable_topology());
    assert!(compare_topology(&empty, &empty).is_err());
    assert!(profile(vec![path(1, 60)]).has_usable_topology());
}

#[test]
fn packed_mode_info_splits_into_its_halves() {
    assert_eq!(packed_high(0x0002_0001), 2);
    assert_eq!(packed_low(0x0002_0001), 1);
}

#[test]
fn a_mode_index_of_the_wrong_kind_is_refused() {
    let kinds = [1u32, 2u32];
    assert_eq!(mode_index(&kinds, 0, true), Some(0));
    assert_eq!(mode_index(&kinds, 1, true), None);
    assert_eq!(mode_index(&kinds, 5, true), None);
}
