use tinifycli::paths::{config_dir, key_file};

#[test]
fn config_dir_under_home() {
    assert_eq!(config_dir(Some("/home/u")), "/home/u/.tinifycli");
}

#[test]
fn config_dir_without_home_falls_back_to_cwd() {
    assert_eq!(config_dir(None), "./.tinifycli");
}

#[test]
fn key_file_under_home() {
    assert_eq!(key_file(Some("/home/u")), "/home/u/.tinifycli/key");
}

#[test]
fn key_file_without_home() {
    assert_eq!(key_file(None), "./.tinifycli/key");
}
