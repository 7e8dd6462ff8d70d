use magic_nix_cache::{base_name, decimal, join_spaced, nar_url, path_info_to_nar_info, upload_plan, NarInfo, PathInfo};

fn info() -> PathInfo {
    PathInfo {
        path: "/nix/store/abc-hello".to_string(),
        nar_hash: "sha256:0q9z".to_string(),
        nar_hash_base32: "0q9z".to_string(),
        nar_size: 1234,
        references: vec!["/nix/store/def-glibc".to_string(), "/nix/store/abc-hello".to_string()],
        ca: None,
    }
}

#[test]
fn decimal_digits() {
    assert_eq!(decimal(0), "0");
    assert_eq!(decimal(7), "7");
    assert_eq!(decimal(1234), "1234");
    assert_eq!(decimal(u64::MAX), "18446744073709551615");
}

#[test]
fn base_names_and_words() {
    assert_eq!(base_name("/nix/store/abc-hello"), "abc-hello");
    assert_eq!(base_name("abc"), "abc");
    assert_eq!(base_name("/a/"), "");
    assert_eq!(join_spaced(&vec![]), "");
    assert_eq!(join_spaced(&vec!["a".to_string(), "b".to_string(), "c".to_string()]), "a b c");
}

#[test]
fn record_from_path_info() {
    let n = path_info_to_nar_info(&info(), nar_url("0q9z"));
    assert_eq!(n.url, "nar/0q9z.nar.zstd");
    assert_eq!(n.compression, "zstd");
    assert_eq!(n.references, vec!["def-glibc".to_string(), "abc-hello".to_string()]);
    assert_eq!(n.nar_size, 1234);
    assert_eq!(
        n.to_text(),
        "StorePath: /nix/store/abc-hello\nURL: nar/0q9z.nar.zstd\nCompression: zstd\n\
         NarHash: sha256:0q9z\nNarSize: 1234\nReferences: def-glibc abc-hello\n"
    );
}

#[test]
fn record_with_every_field() {
    let n = NarInfo {
        store_path: "/nix/store/abc-x".to_string(),
        url: "nar/f.nar.xz".to_string(),
        compression: "xz".to_string(),
        file_hash: Some("sha256:ff".to_string()),
        file_size: Some(99),
        nar_hash: "sha256:aa".to_string(),
        nar_size: 100,
        references: vec![],
        system: Some("x86_64-linux".to_string()),
        deriver: Some("abc-x.drv".to_string()),
        signatures: vec!["k:1".to_string(), "k:2".to_string()],
        ca: Some("fixed:sha256:aa".to_string()),
    };
    assert_eq!(
        n.to_text(),
        "StorePath: /nix/store/abc-x\nURL: nar/f.nar.xz\nCompression: xz\nFileHash: sha256:ff\n\
         FileSize: 99\nNarHash: sha256:aa\nNarSize: 100\nReferences: \nSystem: x86_64-linux\n\
         Deriver: abc-x.drv\nSig: k:1\nSig: k:2\nCA: fixed:sha256:aa\n"
    );
}

#[test]
fn upload_plan_names() {
    let p = upload_plan("abc", &info());
    assert_eq!(p.nar_name, "0q9z.nar.zstd");
    assert_eq!(p.narinfo_name, "abc.narinfo");
    assert_eq!(p.narinfo.url, "nar/0q9z.nar.zstd");
}
