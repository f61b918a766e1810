use alpha_visual::bitmap::has_bmp_extension;

fn name(s: &str) -> Vec<u8> {
    s.as_bytes().to_vec()
}

#[test]
fn plain_bmp_name_matches() {
    assert!(has_bmp_extension(&name("frame.bmp")));
}

#[test]
fn double_extension_matches_last() {
    assert!(has_bmp_extension(&name("archive.tar.bmp")));
    assert!(!has_bmp_extension(&name("frame.bmp.txt")));
}

#[test]
fn hidden_file_has_no_extension() {
    assert!(!has_bmp_extension(&name(".bmp")));
    assert!(has_bmp_extension(&name(".hidden.bmp")));
}

#[test]
fn other_or_missing_extensions_do_not_match() {
    assert!(!has_bmp_extension(&name("frame.png")));
    assert!(!has_bmp_extension(&name("frame")));
    assert!(!has_bmp_extension(&name("frame.")));
    assert!(!has_bmp_extension(&name("")));
}

#[test]
fn comparison_is_case_sensitive() {
    assert!(!has_bmp_extension(&name("FRAME.BMP")));
    assert!(!has_bmp_extension(&name("frame.Bmp")));
}
