use magic_nix_cache::{nar_file_name, narinfo_hash, narinfo_key, redirect_url};

#[test]
fn narinfo_paths_are_read() {
    assert_eq!(narinfo_hash("xyz.narinfo"), Some("xyz".to_string()));
    assert_eq!(narinfo_hash(".narinfo"), Some(String::new()));
    assert_eq!(narinfo_hash("xyz"), None);
    assert_eq!(narinfo_hash("xyz.nar"), None);
    assert_eq!(narinfo_hash("a.b.narinfo"), None);
    assert_eq!(narinfo_hash("xyz.narinfo2"), None);
    assert_eq!(narinfo_hash("narinfo"), None);
}

#[test]
fn keys_and_urls() {
    assert_eq!(narinfo_key("xyz"), "xyz.narinfo");
    assert_eq!(nar_file_name("0abc"), "0abc.nar.zstd");
    assert_eq!(redirect_url("https://up.example", "xyz.narinfo"), "https://up.example/xyz.narinfo");
}
