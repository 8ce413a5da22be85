use wire::context::add_validation_extension;
use wire::names::{all_names_listed, is_name_listed, names_equal};

#[test]
fn validation_extensions_follow_the_required_ones() {
    assert_eq!(add_validation_extension(&[1u64, 2, 3], &[9]), vec![1, 2, 3, 9]);
    assert_eq!(add_validation_extension::<u64>(&[4, 5], &[]), vec![4, 5]);
    assert_eq!(add_validation_extension(&[], &["a", "b"]), vec!["a", "b"]);
}

#[test]
fn names_compare_bytewise() {
    assert!(names_equal(b"VK_LAYER_KHRONOS_validation", b"VK_LAYER_KHRONOS_validation"));
    assert!(!names_equal(b"VK_LAYER_KHRONOS_validation", b"VK_LAYER_KHRONOS_validatio"));
    assert!(!names_equal(b"abc", b"abd"));
    assert!(names_equal(b"", b""));
}

#[test]
fn layers_all_supported() {
    let required = vec![b"VK_LAYER_KHRONOS_validation".to_vec()];
    let supported = vec![
        b"VK_LAYER_MESA_overlay".to_vec(),
        b"VK_LAYER_KHRONOS_validation".to_vec(),
    ];
    assert!(all_names_listed(&required, &supported));
    assert!(is_name_listed(b"VK_LAYER_MESA_overlay", &supported));
    assert!(all_names_listed(&[], &[]));
}

#[test]
fn layer_missing() {
    let required = vec![
        b"VK_LAYER_KHRONOS_validation".to_vec(),
        b"VK_LAYER_LUNARG_api_dump".to_vec(),
    ];
    let supported = vec![b"VK_LAYER_KHRONOS_validation".to_vec()];
    assert!(!all_names_listed(&required, &supported));
    assert!(!all_names_listed(&required, &[]));
}
