//! The narinfo record that describes an uploaded store path, and its
//! line-oriented `Key: value` text form.

use vstd::prelude::*;
use vstd::string::*;
use crate::paths::{nar_file_name, nar_suffix, narinfo_key, narinfo_key_of};

verus! {

/// What the store reports of a valid store path.
#[derive(Debug, PartialEq, Eq)]
pub struct PathInfo {
    /// The full store path, such as `/nix/store/<hash>-<name>`.
    pub path: String,
    /// The hash of the serialized payload, in its `sha256:<base32>` form.
    pub nar_hash: String,
    /// The base-32 digits of that hash alone.
    pub nar_hash_base32: String,
    /// Size of the serialized payload, uncompressed.
    pub nar_size: u64,
    /// The full store paths that this path refers to.
    pub references: Vec<String>,
    /// Content-addressing information, if any.
    pub ca: Option<String>,
}

/// A narinfo record.
#[derive(Debug, PartialEq, Eq)]
pub struct NarInfo {
    pub store_path: String,
    pub url: String,
    pub compression: String,
    pub file_hash: Option<String>,
    pub file_size: Option<u64>,
    pub nar_hash: String,
    pub nar_size: u64,
    /// Base names of the referenced store paths.
    pub references: Vec<String>,
    pub system: Option<String>,
    pub deriver: Option<String>,
    pub signatures: Vec<String>,
    pub ca: Option<String>,
}

pub open spec fn digit_char(d: nat) -> char {
    if d == 0 { '0' } else if d == 1 { '1' } else if d == 2 { '2' } else if d == 3 { '3' }
    else if d == 4 { '4' } else if d == 5 { '5' } else if d == 6 { '6' } else if d == 7 { '7' }
    else if d == 8 { '8' } else { '9' }
}

/// The decimal digits of `n`, without leading zeros.
pub open spec fn decimal_of(n: nat) -> Seq<char>
    decreases n,
{
    if n < 10 {
        seq![digit_char(n)]
    } else {
        decimal_of(n / 10).push(digit_char(n % 10))
    }
}

/// `words` separated by single spaces.
pub open spec fn spaced(words: Seq<Seq<char>>) -> Seq<char>
    decreases words.len(),
{
    if words.len() == 0 {
        Seq::empty()
    } else if words.len() == 1 {
        words[0]
    } else {
        spaced(words.drop_last()) + seq![' '] + words.last()
    }
}

/// The part of a path after its last `/`: all of it when it holds none.
pub open spec fn base_name_of(p: Seq<char>) -> Seq<char>
    decreases p.len(),
{
    if p.len() == 0 {
        p
    } else if p.last() == '/' {
        Seq::empty()
    } else {
        base_name_of(p.drop_last()).push(p.last())
    }
}

/// One line `{key}: {value}`.
pub open spec fn line(key: Seq<char>, value: Seq<char>) -> Seq<char> {
    key + ": "@ + value + "\n"@
}

/// A line for a value that may be absent: none at all when it is.
pub open spec fn line_if(key: Seq<char>, value: Option<Seq<char>>) -> Seq<char> {
    match value {
        Some(v) => line(key, v),
        None => Seq::empty(),
    }
}

/// One `Sig` line for each signature.
pub open spec fn sig_lines(sigs: Seq<Seq<char>>) -> Seq<char>
    decreases sigs.len(),
{
    if sigs.len() == 0 {
        Seq::empty()
    } else {
        sig_lines(sigs.drop_last()) + line("Sig"@, sigs.last())
    }
}

pub open spec fn views(v: Seq<String>) -> Seq<Seq<char>> {
    v.map_values(|s: String| s@)
}

pub open spec fn opt_str(o: Option<String>) -> Option<Seq<char>> {
    match o {
        Some(s) => Some(s@),
        None => None,
    }
}

pub open spec fn opt_decimal(o: Option<u64>) -> Option<Seq<char>> {
    match o {
        Some(n) => Some(decimal_of(n as nat)),
        None => None,
    }
}

/// The text form of a record: its fields in a fixed order, one per line,
/// absent ones left out.
pub open spec fn narinfo_text(n: NarInfo) -> Seq<char> {
    line("StorePath"@, n.store_path@) + line("URL"@, n.url@) + line("Compression"@, n.compression@)
        + line_if("FileHash"@, opt_str(n.file_hash)) + line_if("FileSize"@, opt_decimal(n.file_size))
        + line("NarHash"@, n.nar_hash@) + line("NarSize"@, decimal_of(n.nar_size as nat))
        + line("References"@, spaced(views(n.references@))) + line_if("System"@, opt_str(n.system))
        + line_if("Deriver"@, opt_str(n.deriver)) + sig_lines(views(n.signatures@))
        + line_if("CA"@, opt_str(n.ca))
}

fn digit_str(d: u64) -> (r: &'static str)
    requires
        d < 10,
    ensures
        r@ == seq![digit_char(d as nat)],
{
    proof {
        reveal_strlit("0");
        reveal_strlit("1");
        reveal_strlit("2");
        reveal_strlit("3");
        reveal_strlit("4");
        reveal_strlit("5");
        reveal_strlit("6");
        reveal_strlit("7");
        reveal_strlit("8");
        reveal_strlit("9");
    }
    if d == 0 { "0" } else if d == 1 { "1" } else if d == 2 { "2" } else if d == 3 { "3" }
    else if d == 4 { "4" } else if d == 5 { "5" } else if d == 6 { "6" } else if d == 7 { "7" }
    else if d == 8 { "8" } else { "9" }
}

/// The decimal digits of `n`.
pub fn decimal(n: u64) -> (r: String)
    ensures
        r@ == decimal_of(n as nat),
    decreases n,
{
    if n < 10 {
        String::from_str(digit_str(n))
    } else {
        let r = decimal(n / 10).concat(digit_str(n % 10));
        assert(r@ =~= decimal_of(n as nat));
        r
    }
}

/// The part of `p` after its last `/`.
pub fn base_name(p: &str) -> (r: String)
    ensures
        r@ == base_name_of(p@),
{
    let len = p.unicode_len();
    let mut start: usize = len;
    assert(p@.subrange(0, len as int) =~= p@);
    assert(base_name_of(p@) + p@.subrange(len as int, len as int) =~= base_name_of(p@));
    while start > 0 && p.get_char(start - 1) != '/'
        invariant
            start <= len,
            len == p@.len(),
            base_name_of(p@) == base_name_of(p@.subrange(0, start as int)) + p@.subrange(start as int, len as int),
        decreases start,
    {
        let ghost q = p@.subrange(0, start as int);
        assert(q.drop_last() =~= p@.subrange(0, start - 1));
        assert(p@.subrange(start - 1, len as int) =~= seq![q.last()] + p@.subrange(start as int, len as int));
        start = start - 1;
    }
    if start > 0 {
        let ghost q = p@.subrange(0, start as int);
        assert(q.last() == '/');
    } else {
        assert(p@.subrange(0, 0) =~= Seq::<char>::empty());
    }
    assert(Seq::<char>::empty() + p@.subrange(start as int, len as int) =~= p@.subrange(start as int, len as int));
    String::from_str(p.substring_char(start, len))
}

fn push_line(out: &mut String, key: &str, value: &str)
    ensures
        final(out)@ == old(out)@ + line(key@, value@),
{
    proof {
        reveal_strlit(": ");
        reveal_strlit("\n");
    }
    out.append(key);
    out.append(": ");
    out.append(value);
    out.append("\n");
    assert(final(out)@ =~= old(out)@ + line(key@, value@));
}

fn push_line_if(out: &mut String, key: &str, value: &Option<String>)
    ensures
        final(out)@ == old(out)@ + line_if(key@, opt_str(*value)),
{
    match value {
        Some(v) => push_line(out, key, v.as_str()),
        None => {
            assert(old(out)@ + Seq::<char>::empty() =~= old(out)@);
        },
    }
}

/// `words` separated by single spaces.
pub fn join_spaced(words: &Vec<String>) -> (r: String)
    ensures
        r@ == spaced(views(words@)),
{
    let mut r = String::new();
    let mut i: usize = 0;
    while i < words.len()
        invariant
            i <= words@.len(),
            r@ == spaced(views(words@.take(i as int))),
        decreases words.len() - i,
    {
        let ghost before = r@;
        if i > 0 {
            r.append(" ");
            proof {
                reveal_strlit(" ");
            }
            assert(" "@ =~= seq![' ']);
        }
        let ghost mid = r@;
        r.append(words[i].as_str());
        proof {
            let t = views(words@.take(i + 1));
            assert(t.drop_last() =~= views(words@.take(i as int)));
            assert(t.last() == words@[i as int]@);
            if i == 0 {
                assert(r@ =~= t[0]);
            } else {
                assert(before == spaced(t.drop_last()));
                assert(mid =~= before + seq![' ']);
                assert(r@ =~= mid + words@[i as int]@);
                assert(r@ =~= before + seq![' '] + words@[i as int]@);
                assert(spaced(t) == spaced(t.drop_last()) + seq![' '] + t.last());
                assert(r@ =~= spaced(t.drop_last()) + seq![' '] + t.last());
            }
        }
        i = i + 1;
    }
    assert(words@.take(words@.len() as int) =~= words@);
    r
}

impl NarInfo {
    /// The text form of the record.
    pub fn to_text(&self) -> (r: String)
        ensures
            r@ == narinfo_text(*self),
    {
        let mut out = String::new();
        push_line(&mut out, "StorePath", self.store_path.as_str());
        push_line(&mut out, "URL", self.url.as_str());
        push_line(&mut out, "Compression", self.compression.as_str());
        push_line_if(&mut out, "FileHash", &self.file_hash);
        let file_size = match self.file_size {
            Some(n) => Some(decimal(n)),
            None => None,
        };
        push_line_if(&mut out, "FileSize", &file_size);
        push_line(&mut out, "NarHash", self.nar_hash.as_str());
        let size = decimal(self.nar_size);
        push_line(&mut out, "NarSize", size.as_str());
        let refs = join_spaced(&self.references);
        push_line(&mut out, "References", refs.as_str());
        push_line_if(&mut out, "System", &self.system);
        push_line_if(&mut out, "Deriver", &self.deriver);
        let mut i: usize = 0;
        let ghost head = out@;
        while i < self.signatures.len()
            invariant
                i <= self.signatures@.len(),
                out@ == head + sig_lines(views(self.signatures@.take(i as int))),
            decreases self.signatures.len() - i,
        {
            proof {
                let t = views(self.signatures@.take(i + 1));
                assert(t.drop_last() =~= views(self.signatures@.take(i as int)));
            }
            push_line(&mut out, "Sig", self.signatures[i].as_str());
            proof {
                let t = views(self.signatures@.take(i + 1));
                assert(t.last() == self.signatures@[i as int]@);
                assert(out@ =~= head + sig_lines(t));
            }
            i = i + 1;
        }
        assert(self.signatures@.take(self.signatures@.len() as int) =~= self.signatures@);
        push_line_if(&mut out, "CA", &self.ca);
        assert(out@ =~= narinfo_text(*self));
        out
    }
}

/// The URL, relative to the cache, of the payload `{nar_hash}.nar.zstd`.
pub open spec fn nar_url_of(nar_hash_base32: Seq<char>) -> Seq<char> {
    "nar/"@ + nar_hash_base32 + nar_suffix()
}

/// `r` is the record of the store path `info` with its payload at `url`:
/// it names the path, the payload's hash and size and the base names of its
/// references, says zstd, and leaves out what the upload does not know.
pub open spec fn describes(info: PathInfo, url: Seq<char>, r: NarInfo) -> bool {
    &&& r.store_path@ == info.path@
    &&& r.url@ == url
    &&& r.compression@ == "zstd"@
    &&& r.file_hash is None
    &&& r.file_size is None
    &&& r.nar_hash@ == info.nar_hash@
    &&& r.nar_size == info.nar_size
    &&& r.references@.len() == info.references@.len()
    &&& forall|i: int| 0 <= i < r.references@.len() ==> (#[trigger] r.references@[i])@ == base_name_of(info.references@[i]@)
    &&& r.system is None
    &&& r.deriver is None
    &&& r.signatures@.len() == 0
    &&& opt_str(r.ca) == opt_str(info.ca)
}

/// The record for a store path whose payload was uploaded zstd-compressed
/// under `url`.
pub fn path_info_to_nar_info(info: &PathInfo, url: String) -> (r: NarInfo)
    ensures
        describes(*info, url@, r),
{
    let mut references: Vec<String> = Vec::new();
    let mut i: usize = 0;
    while i < info.references.len()
        invariant
            i <= info.references@.len(),
            references@.len() == i,
            forall|j: int| 0 <= j < i ==> (#[trigger] references@[j])@ == base_name_of(info.references@[j]@),
        decreases info.references.len() - i,
    {
        references.push(base_name(info.references[i].as_str()));
        i = i + 1;
    }
    let ca = match &info.ca {
        Some(c) => Some(c.clone()),
        None => None,
    };
    NarInfo {
        store_path: info.path.clone(),
        url,
        compression: String::from_str("zstd"),
        file_hash: None,
        file_size: None,
        nar_hash: info.nar_hash.clone(),
        nar_size: info.nar_size,
        references,
        system: None,
        deriver: None,
        signatures: Vec::new(),
        ca,
    }
}

/// The payload URL `nar/{nar_hash}.nar.zstd` that a narinfo points at.
pub fn nar_url(nar_hash_base32: &str) -> (r: String)
    ensures
        r@ == nar_url_of(nar_hash_base32@),
{
    let name = nar_file_name(nar_hash_base32);
    proof {
        reveal_strlit("nar/");
    }
    let r = String::from_str("nar/").concat(name.as_str());
    assert(r@ =~= nar_url_of(nar_hash_base32@));
    r
}

/// What the upload of one store path writes to the blob backend.
#[derive(Debug, PartialEq, Eq)]
pub struct UploadPlan {
    /// Backend name of the compressed payload, `{nar_hash}.nar.zstd`.
    pub nar_name: String,
    /// Backend name of the record, `{hash}.narinfo`.
    pub narinfo_name: String,
    /// The record, pointing at the payload.
    pub narinfo: NarInfo,
}

/// Plans the upload of the store path whose hash part is `hash`: the payload
/// goes under `{nar_hash}.nar.zstd`, and the record, whose URL is
/// `nar/{nar_hash}.nar.zstd`, under `{hash}.narinfo`.
pub fn upload_plan(hash: &str, info: &PathInfo) -> (r: UploadPlan)
    ensures
        r.nar_name@ == info.nar_hash_base32@ + nar_suffix(),
        r.narinfo_name@ == narinfo_key_of(hash@),
        describes(*info, nar_url_of(info.nar_hash_base32@), r.narinfo),
{
    let nar_name = nar_file_name(info.nar_hash_base32.as_str());
    let narinfo_name = narinfo_key(hash);
    let url = nar_url(info.nar_hash_base32.as_str());
    let narinfo = path_info_to_nar_info(info, url);
    UploadPlan { nar_name, narinfo_name, narinfo }
}

} // verus!
