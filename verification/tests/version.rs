use rexmrg::xmrg_version::{get_xmrg_version, XmrgVersion};

#[test]
fn get_xmrg_version_test() {
    let columns = 100;
    let first_byte_count = 66;
    let second_byte_count = 38;

    let v1 = get_xmrg_version(first_byte_count, columns);
    assert_eq!(v1, Some(XmrgVersion::Build5_2_2));

    let v2 = get_xmrg_version(second_byte_count, columns);
    assert_eq!(v2, Some(XmrgVersion::Build4_2));

    let v3 = get_xmrg_version(columns * 2, columns);
    assert_eq!(v3, Some(XmrgVersion::Pre1997));
}

#[test]
fn fixed_counts_do_not_depend_on_the_width() {
    for columns in [i32::MIN, -1, 0, 1, 19, 33, 335, i32::MAX] {
        assert_eq!(get_xmrg_version(66, columns), Some(XmrgVersion::Build5_2_2));
        assert_eq!(get_xmrg_version(38, columns), Some(XmrgVersion::Build4_2));
    }
}

#[test]
fn fixed_counts_come_before_the_row_length() {
    assert_eq!(get_xmrg_version(2 * 19, 19), Some(XmrgVersion::Build4_2));
    assert_eq!(get_xmrg_version(2 * 33, 33), Some(XmrgVersion::Build5_2_2));
}

#[test]
fn twice_the_width_is_the_oldest_layout() {
    for columns in [-7, 0, 1, 2, 18, 20, 32, 34, 335, 1_073_741_823] {
        assert_eq!(get_xmrg_version(2 * columns, columns), Some(XmrgVersion::Pre1997));
    }
    assert_eq!(get_xmrg_version(i32::MIN, -1_073_741_824), Some(XmrgVersion::Pre1997));
}

#[test]
fn other_counts_show_no_layout() {
    assert_eq!(get_xmrg_version(37, 100), None);
    assert_eq!(get_xmrg_version(199, 100), None);
    assert_eq!(get_xmrg_version(201, 100), None);
    assert_eq!(get_xmrg_version(0, 100), None);
    assert_eq!(get_xmrg_version(-200, 100), None);
}

#[test]
fn a_width_whose_double_does_not_fit_shows_no_layout() {
    // Twice this width is 2^31, which wraps to i32::MIN in 32 bits.
    assert_eq!(get_xmrg_version(i32::MIN, 1_073_741_824), None);
    assert_eq!(get_xmrg_version(-2, i32::MAX), None);
}
