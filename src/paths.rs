//! Request paths and the backend keys derived from them.

use vstd::prelude::*;
use vstd::string::*;

verus! {

/// The characters `.narinfo`.
pub open spec fn narinfo_suffix() -> Seq<char> {
    seq!['.', 'n', 'a', 'r', 'i', 'n', 'f', 'o']
}

/// The characters `.nar.zstd`.
pub open spec fn nar_suffix() -> Seq<char> {
    seq!['.', 'n', 'a', 'r', '.', 'z', 's', 't', 'd']
}

/// The hash that a narinfo request path names: the path is the hash followed
/// by `.narinfo`, and the hash holds no `.`. Any other path is malformed.
pub open spec fn narinfo_hash_of(path: Seq<char>) -> Option<Seq<char>> {
    let n = path.len() - 8;
    if path.len() >= 8 && path.subrange(n, path.len() as int) == narinfo_suffix()
        && !path.subrange(0, n).contains('.') {
        Some(path.subrange(0, n))
    } else {
        None
    }
}

/// Backend key under which the narinfo of `hash` is kept.
pub open spec fn narinfo_key_of(hash: Seq<char>) -> Seq<char> {
    hash + narinfo_suffix()
}

/// A path relative to `base`: `{base}/{path}`.
pub open spec fn joined(base: Seq<char>, path: Seq<char>) -> Seq<char> {
    base + seq!['/'] + path
}

/// Reads a narinfo request path `{hash}.narinfo`; `None` when it is malformed.
pub fn narinfo_hash(path: &str) -> (r: Option<String>)
    ensures
        match r {
            Some(h) => narinfo_hash_of(path@) == Some(h@),
            None => narinfo_hash_of(path@) is None,
        },
{
    let len = path.unicode_len();
    if len < 8 {
        return None;
    }
    let n = len - 8;
    if !(path.get_char(n) == '.' && path.get_char(n + 1) == 'n' && path.get_char(n + 2) == 'a'
        && path.get_char(n + 3) == 'r' && path.get_char(n + 4) == 'i' && path.get_char(n + 5)
        == 'n' && path.get_char(n + 6) == 'f' && path.get_char(n + 7) == 'o') {
        proof {
            let t = path@.subrange(n as int, len as int);
            if t == narinfo_suffix() {
                assert(t[0] == path@[n as int]);
                assert(t[1] == path@[n + 1]);
                assert(t[2] == path@[n + 2]);
                assert(t[3] == path@[n + 3]);
                assert(t[4] == path@[n + 4]);
                assert(t[5] == path@[n + 5]);
                assert(t[6] == path@[n + 6]);
                assert(t[7] == path@[n + 7]);
            }
        }
        return None;
    }
    assert(path@.subrange(n as int, len as int) =~= narinfo_suffix());
    let mut i: usize = 0;
    while i < n
        invariant
            i <= n,
            n + 8 == path@.len(),
            forall|j: int| 0 <= j < i ==> path@[j] != '.',
        decreases n - i,
    {
        if path.get_char(i) == '.' {
            assert(path@.subrange(0, n as int)[i as int] == '.');
            assert(path@.subrange(0, n as int).contains('.'));
            return None;
        }
        i = i + 1;
    }
    let h = path.substring_char(0, n);
    assert(!path@.subrange(0, n as int).contains('.')) by {
        if path@.subrange(0, n as int).contains('.') {
            let k = choose|k: int| 0 <= k < n && path@.subrange(0, n as int)[k] == '.';
            assert(path@[k] == '.');
        }
    }
    Some(String::from_str(h))
}

/// The backend key `{hash}.narinfo`.
pub fn narinfo_key(hash: &str) -> (r: String)
    ensures
        r@ == narinfo_key_of(hash@),
{
    proof {
        reveal_strlit(".narinfo");
    }
    String::from_str(hash).concat(".narinfo")
}

/// The file name `{nar_hash}.nar.zstd` of a zstd-compressed payload, from the
/// base-32 form of its uncompressed hash.
pub fn nar_file_name(nar_hash: &str) -> (r: String)
    ensures
        r@ == nar_hash@ + nar_suffix(),
{
    proof {
        reveal_strlit(".nar.zstd");
    }
    String::from_str(nar_hash).concat(".nar.zstd")
}

/// `{base}/{path}`, the target of a redirect to the upstream cache.
pub fn redirect_url(base: &str, path: &str) -> (r: String)
    ensures
        r@ == joined(base@, path@),
{
    proof {
        reveal_strlit("/");
    }
    String::from_str(base).concat("/").concat(path)
}

} // verus!
