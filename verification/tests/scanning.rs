use tinifycli::scanner::{eq_ignore_ascii, is_image_ext, name_matches, scan_image_names};

fn entry(name: &str, is_file: bool) -> (String, bool) {
    (String::from(name), is_file)
}

#[test]
fn mixed_directory_yields_exactly_the_image_files() {
    let entries = vec![
        entry("a.png", true),
        entry("b.JPG", true),
        entry("c.txt", true),
        entry("d", true),
        entry("e.png", false),
    ];
    let names = scan_image_names(&entries);
    assert_eq!(names, vec![String::from("a.png"), String::from("b.JPG")]);
}

#[test]
fn empty_directory_yields_no_image_files() {
    let entries: Vec<(String, bool)> = vec![];
    let names = scan_image_names(&entries);
    assert!(names.is_empty());
}

#[test]
fn directory_without_images_yields_nothing() {
    let entries = vec![entry("readme.md", true), entry("notes", true)];
    assert!(scan_image_names(&entries).is_empty());
}

#[test]
fn listing_order_is_kept() {
    let entries = vec![
        entry("z.webp", true),
        entry("a.gif", true),
        entry("m.bmp", true),
    ];
    let names = scan_image_names(&entries);
    assert_eq!(
        names,
        vec![
            String::from("z.webp"),
            String::from("a.gif"),
            String::from("m.bmp")
        ]
    );
}

#[test]
fn extension_match_ignores_ascii_case() {
    assert!(name_matches("photo.PnG"));
    assert!(name_matches("photo.JPEG"));
    assert!(name_matches("photo.Webp"));
    assert!(!name_matches("photo.txt"));
}

#[test]
fn extension_is_taken_after_the_last_dot() {
    assert!(name_matches("archive.tar.png"));
    assert!(!name_matches("a.png.txt"));
}

#[test]
fn names_without_a_usable_extension_do_not_match() {
    assert!(!name_matches("noextension"));
    assert!(!name_matches(".png"));
    assert!(!name_matches("trailingdot."));
    assert!(!name_matches(""));
}

#[test]
fn recognized_extensions() {
    assert!(is_image_ext("png"));
    assert!(is_image_ext("jpg"));
    assert!(is_image_ext("jpeg"));
    assert!(is_image_ext("gif"));
    assert!(is_image_ext("webp"));
    assert!(is_image_ext("bmp"));
    assert!(is_image_ext("BMP"));
    assert!(!is_image_ext("tiff"));
    assert!(!is_image_ext(""));
    assert!(!is_image_ext("pngg"));
}

#[test]
fn ascii_case_insensitive_comparison() {
    assert!(eq_ignore_ascii("PnG", "png"));
    assert!(eq_ignore_ascii("", ""));
    assert!(!eq_ignore_ascii("png", "pn"));
    assert!(!eq_ignore_ascii("png", "pnj"));
}
