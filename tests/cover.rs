use nutune::cover::{fits_cover_size, next_cover_quality, unique_cover_ids, JPEG_QUALITY, MAX_COVER_BYTES};

#[test]
fn quality_steps_down_until_small_enough_or_floor() {
    assert_eq!(JPEG_QUALITY, 75);
    assert_eq!(next_cover_quality(MAX_COVER_BYTES, 75), None);
    assert_eq!(next_cover_quality(MAX_COVER_BYTES + 1, 75), Some(65));
    assert_eq!(next_cover_quality(MAX_COVER_BYTES + 1, 55), Some(45));
    assert_eq!(next_cover_quality(MAX_COVER_BYTES + 1, 45), None);
    assert_eq!(next_cover_quality(1_000_000, 50), None);
}

#[test]
fn cover_size_limit() {
    assert!(fits_cover_size(100, 100));
    assert!(fits_cover_size(300, 300));
    assert!(!fits_cover_size(1500, 1000));
    assert!(!fits_cover_size(300, 301));
}

#[test]
fn cover_ids_deduplicated_in_first_use_order() {
    let ids = vec![
        Some("b".to_string()),
        None,
        Some("a".to_string()),
        Some("b".to_string()),
        Some("c".to_string()),
        Some("a".to_string()),
    ];
    assert_eq!(unique_cover_ids(&ids), vec!["b".to_string(), "a".to_string(), "c".to_string()]);
    assert!(unique_cover_ids(&vec![None, None]).is_empty());
}
