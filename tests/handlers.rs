use std::collections::HashMap;

use magic_nix_cache::{get_nix_cache_info, BinaryCache, Error, Reply, Step};

fn hash32() -> String {
    "ab12cd34ef56gh78ij90kl12mn34opzy".to_string()
}

#[test]
fn nar_put_then_get_returns_same_bytes() {
    let mut cache = BinaryCache::new(None, true);
    let mut backend: HashMap<String, Vec<u8>> = HashMap::new();
    let key = format!("{}.nar.zst", hash32());
    let body: Vec<u8> = (0..1000u32).map(|i| (i % 251) as u8).collect();

    match cache.put_nar(&key) {
        Step::Write(k) => {
            assert_eq!(k, key);
            backend.insert(k, body.clone());
        }
        other => panic!("expected a write, got {:?}", other),
    }
    assert_eq!(cache.put_nar_done(Ok(())), Ok(Reply::Done));
    assert_eq!(cache.metrics.nars_uploaded, 1);

    match cache.get_nar(&key) {
        Step::Read(k) => {
            let found = backend.get(&k);
            assert_eq!(cache.got_nar(&key, found.is_some()), Ok(Reply::Stream));
            assert_eq!(found.unwrap().len(), 1000);
            assert_eq!(found.unwrap(), &body);
        }
        other => panic!("expected a read, got {:?}", other),
    }
    assert_eq!(cache.metrics.nars_served, 1);
    assert_eq!(cache.metrics.nars_uploaded, 1);
}

#[test]
fn narinfo_get_without_backend_or_upstream_is_not_found() {
    let mut cache = BinaryCache::new(None, false);
    match cache.get_narinfo("xyz.narinfo") {
        Step::Answer(Err(e)) => {
            assert_eq!(e, Error::NotFound);
            assert_eq!(e.status_code(), 404);
        }
        other => panic!("expected not found, got {:?}", other),
    }
}

#[test]
fn narinfo_miss_redirects_twice_second_from_negative_cache() {
    let mut cache = BinaryCache::new(Some("https://up.example".to_string()), true);
    let step = cache.get_narinfo("xyz.narinfo");
    assert_eq!(step, Step::Read("xyz.narinfo".to_string()));
    let first = cache.got_narinfo("xyz.narinfo", None);
    assert_eq!(first, Ok(Reply::Redirect("https://up.example/xyz.narinfo".to_string())));
    assert!(cache.negative_cache.contains(&"xyz".to_string()));
    assert_eq!(cache.metrics.narinfos_negative_cache_misses, 1);

    let second = cache.get_narinfo("xyz.narinfo");
    assert_eq!(
        second,
        Step::Answer(Ok(Reply::Redirect("https://up.example/xyz.narinfo".to_string())))
    );
    assert_eq!(cache.metrics.narinfos_negative_cache_hits, 1);
    assert_eq!(cache.metrics.narinfos_sent_upstream, 2);
}

#[test]
fn malformed_narinfo_paths_are_bad_requests() {
    let mut cache = BinaryCache::new(Some("https://up.example".to_string()), true);
    for path in ["xyz", "xyz.nar", "xyz.narinfo.bak", "a.b.narinfo", ".nar", ""] {
        assert_eq!(cache.get_narinfo(path), Step::Answer(Err(Error::BadRequest)));
        assert_eq!(cache.put_narinfo(path), Step::Answer(Err(Error::BadRequest)));
        assert_eq!(cache.got_narinfo(path, None), Err(Error::BadRequest));
        assert_eq!(cache.put_narinfo_done(path, Ok(())), Err(Error::BadRequest));
    }
    assert_eq!(cache.metrics.narinfos_sent_upstream, 0);
    assert_eq!(Error::BadRequest.status_code(), 400);
}

#[test]
fn narinfo_put_clears_negative_cache_and_round_trips() {
    let mut cache = BinaryCache::new(Some("https://up.example".to_string()), true);
    let mut backend: HashMap<String, Vec<u8>> = HashMap::new();
    let path = "abc.narinfo";
    assert_eq!(cache.get_narinfo(path), Step::Read("abc.narinfo".to_string()));
    cache.got_narinfo(path, None).unwrap();
    assert!(cache.negative_cache.contains(&"abc".to_string()));

    let text = b"StorePath: /nix/store/abc-x\nURL: nar/q.nar.zstd\n".to_vec();
    match cache.put_narinfo(path) {
        Step::Write(k) => {
            backend.insert(k, text.clone());
        }
        other => panic!("expected a write, got {:?}", other),
    }
    assert_eq!(cache.put_narinfo_done(path, Ok(())), Ok(Reply::Done));
    assert!(!cache.negative_cache.contains(&"abc".to_string()));
    assert_eq!(cache.metrics.narinfos_uploaded, 1);

    match cache.get_narinfo(path) {
        Step::Read(k) => {
            let got = cache.got_narinfo(path, backend.get(&k).cloned());
            assert_eq!(got, Ok(Reply::Content(text)));
        }
        other => panic!("expected a read, got {:?}", other),
    }
    assert_eq!(cache.metrics.narinfos_served, 1);
}

#[test]
fn failed_narinfo_put_keeps_negative_entry() {
    let mut cache = BinaryCache::new(None, true);
    cache.got_narinfo("abc.narinfo", None).unwrap_err();
    let r = cache.put_narinfo_done("abc.narinfo", Err(Error::IO("broken pipe".to_string())));
    assert_eq!(r, Err(Error::IO("broken pipe".to_string())));
    assert!(cache.negative_cache.contains(&"abc".to_string()));
    assert_eq!(cache.metrics.narinfos_uploaded, 0);
}

#[test]
fn puts_without_backend_are_disabled() {
    let cache = BinaryCache::new(None, false);
    match cache.put_narinfo("abc.narinfo") {
        Step::Answer(Err(e)) => {
            assert_eq!(e, Error::GHADisabled);
            assert_eq!(e.status_code(), 503);
        }
        other => panic!("expected disabled, got {:?}", other),
    }
    assert_eq!(cache.put_nar("k.nar.zstd"), Step::Answer(Err(Error::GHADisabled)));
}

#[test]
fn nar_miss_goes_upstream_or_is_not_found() {
    let mut with = BinaryCache::new(Some("https://up.example".to_string()), true);
    assert_eq!(
        with.got_nar("k.nar.zstd", false),
        Ok(Reply::Redirect("https://up.example/nar/k.nar.zstd".to_string()))
    );
    assert_eq!(with.metrics.nars_sent_upstream, 1);
    let mut without = BinaryCache::new(None, true);
    assert_eq!(without.got_nar("k.nar.zstd", false), Err(Error::NotFound));
    let mut no_backend = BinaryCache::new(None, false);
    assert_eq!(no_backend.get_nar("k.nar.zstd"), Step::Answer(Err(Error::NotFound)));
}

#[test]
fn nar_put_failure_is_passed_on() {
    let mut cache = BinaryCache::new(None, true);
    let r = cache.put_nar_done(Err(Error::Internal("gone".to_string())));
    assert_eq!(r, Err(Error::Internal("gone".to_string())));
    assert_eq!(cache.metrics.nars_uploaded, 0);
}

#[test]
fn cache_info_text() {
    assert_eq!(
        get_nix_cache_info(),
        "WantMassQuery: 1\nStoreDir: /nix/store\nPriority: 41\n"
    );
}

#[test]
fn counters_wrap_at_the_top() {
    let mut cache = BinaryCache::new(None, true);
    cache.metrics.nars_uploaded = u64::MAX;
    cache.put_nar_done(Ok(())).unwrap();
    assert_eq!(cache.metrics.nars_uploaded, 0);
}

#[test]
fn worker_uploads_raise_both_counters() {
    let mut cache = BinaryCache::new(None, true);
    cache.metrics.count_nar_upload();
    assert_eq!(cache.metrics.nars_uploaded, 1);
    assert_eq!(cache.metrics.narinfos_uploaded, 0);
    cache.metrics.count_narinfo_upload();
    assert_eq!(cache.metrics.nars_uploaded, 1);
    assert_eq!(cache.metrics.narinfos_uploaded, 1);
    assert_eq!(cache.metrics.nars_served, 0);
}
