use image_base64::detect::get_file_format;
use image_base64::ratio::{calculate_aspect_ratio, gcd};
use image_base64::size::format_size;

#[test]
fn size_zero() {
    assert_eq!(format_size(0), "0 B");
}

#[test]
fn size_just_below_one_kb() {
    assert_eq!(format_size(1023), "1023 B");
}

#[test]
fn size_one_kb() {
    assert_eq!(format_size(1024), "1.00 KB");
}

#[test]
fn size_one_and_a_half_kb() {
    assert_eq!(format_size(1536), "1.50 KB");
}

#[test]
fn size_rounds_to_nearest_hundredth() {
    // 1535 / 1024 = 1.4990...: rounds up to 1.50
    assert_eq!(format_size(1535), "1.50 KB");
    // 1152 / 1024 = 1.125 exactly: the tie goes to the even hundredth
    assert_eq!(format_size(1152), "1.12 KB");
    // 1088 / 1024 = 1.0625: rounds down to 1.06
    assert_eq!(format_size(1088), "1.06 KB");
}

#[test]
fn size_mb_tier() {
    assert_eq!(format_size(2 * 1048576), "2.00 MB");
    assert_eq!(format_size(1048576 + 524288), "1.50 MB");
}

#[test]
fn size_one_gb() {
    assert_eq!(format_size(1073741824), "1.00 GB");
}

#[test]
fn size_beyond_gb_stays_in_gb_tier() {
    assert_eq!(format_size(1024 * 1073741824), "1024.00 GB");
    assert_eq!(format_size(2048 * 1073741824), "2048.00 GB");
}

#[test]
fn format_upper_extension_kept() {
    assert_eq!(get_file_format("photo.PNG"), "PNG");
}

#[test]
fn format_lower_extension_uppercased() {
    assert_eq!(get_file_format("photo.png"), "PNG");
    assert_eq!(get_file_format("archive.tar.gz"), "GZ");
}

#[test]
fn format_no_extension_is_unknown() {
    assert_eq!(get_file_format("noext"), "unknown");
}

#[test]
fn format_last_dot_wins() {
    assert_eq!(get_file_format("a.b.JPG"), "JPG");
}

#[test]
fn format_empty_name_is_unknown() {
    assert_eq!(get_file_format(""), "unknown");
}

#[test]
fn format_trailing_dot_gives_empty_label() {
    assert_eq!(get_file_format("a."), "");
}

#[test]
fn ratio_full_hd() {
    assert_eq!(calculate_aspect_ratio(1920, 1080), (16, 9));
}

#[test]
fn ratio_square() {
    assert_eq!(calculate_aspect_ratio(100, 100), (1, 1));
}

#[test]
fn ratio_coprime_unreduced() {
    assert_eq!(calculate_aspect_ratio(7, 13), (7, 13));
}

#[test]
fn ratio_zero_dimension_unreduced() {
    assert_eq!(calculate_aspect_ratio(0, 5), (0, 5));
    assert_eq!(calculate_aspect_ratio(5, 0), (5, 0));
    assert_eq!(calculate_aspect_ratio(0, 0), (0, 0));
}

#[test]
fn gcd_values() {
    assert_eq!(gcd(48, 18), 6);
    assert_eq!(gcd(18, 48), 6);
    assert_eq!(gcd(7, 13), 1);
    assert_eq!(gcd(12, 0), 12);
    assert_eq!(gcd(0, 12), 12);
    assert_eq!(gcd(0, 0), 0);
}
