//! Image references: `name[:tag]` resolution, the config-digest slice that
//! identifies a cached image, and the on-disk layer paths.

use vstd::prelude::*;

use crate::errors::Error;
use crate::store::Store;
use crate::strutil::{find_first, is_first_at, seq_contains, str_contains_char};

verus! {

/// A schema-v2 manifest, reduced to the parts this runtime reads: the config
/// digest and the ordered layer digests (base first).
pub struct Manifest {
    pub config_digest: String,
    pub layers: Vec<String>,
}

/// A bare name (no `/`) lives in the implicit `library/` namespace.
pub open spec fn with_library_prefix(name: Seq<char>) -> Seq<char> {
    if seq_contains(name, '/') {
        name
    } else {
        "library/"@ + name
    }
}

/// Position of the first `:` in `s`.
pub open spec fn first_colon(s: Seq<char>) -> int {
    choose|i: int| is_first_at(s, ':', i)
}

/// The first position of a character is unique, so `first_colon` returns
/// exactly the witness.
pub proof fn lemma_first_colon_is(s: Seq<char>, i: int)
    requires
        is_first_at(s, ':', i),
    ensures
        first_colon(s) == i,
{
    let i2 = first_colon(s);
    assert(is_first_at(s, ':', i2));
    if i2 < i {
        assert(s[i2] != ':');
        assert(false);
    }
    if i < i2 {
        assert(s[i] != ':');
        assert(false);
    }
}

/// What an image reference means: no colon picks tag `latest`; one colon
/// splits name and tag; more than one colon is rejected. A name without `/`
/// is prefixed with `library/` either way.
pub open spec fn resolve_spec(s: Seq<char>) -> Option<(Seq<char>, Seq<char>)> {
    if !seq_contains(s, ':') {
        Some((with_library_prefix(s), "latest"@))
    } else {
        let k = first_colon(s);
        let tag = s.subrange(k + 1, s.len() as int);
        if seq_contains(tag, ':') {
            None
        } else {
            Some((with_library_prefix(s.subrange(0, k)), tag))
        }
    }
}

fn add_library_prefix(name: &str) -> (r: String)
    ensures
        r@ == with_library_prefix(name@),
{
    if str_contains_char(name, '/') {
        name.to_owned()
    } else {
        String::from_str("library/").concat(name)
    }
}

/// Split an image reference into its normalized name and tag.
pub fn parse_image_name(image_name: &str) -> (r: Result<(String, String), Error>)
    ensures
        match r {
            Ok((name, tag)) => resolve_spec(image_name@) == Some((name@, tag@)),
            Err(e) => e == Error::InvalidImageName && resolve_spec(image_name@) is None,
        },
{
    let n = image_name.unicode_len();
    match find_first(image_name, ':') {
        None => {
            let name = add_library_prefix(image_name);
            Ok((name, String::from_str("latest")))
        },
        Some(k) => {
            proof {
                lemma_first_colon_is(image_name@, k as int);
            }
            let name0 = image_name.substring_char(0, k);
            let tag = image_name.substring_char(k + 1, n);
            if str_contains_char(tag, ':') {
                Err(Error::InvalidImageName)
            } else {
                Ok((add_library_prefix(name0), tag.to_owned()))
            }
        },
    }
}

/// Resolving is idempotent: rejoining a resolved name and tag with `:` and
/// resolving again yields the same pair.
pub proof fn lemma_resolve_idempotent(s: Seq<char>)
    requires
        resolve_spec(s) is Some,
    ensures
        ({
            let p = resolve_spec(s).unwrap();
            resolve_spec(p.0 + ":"@ + p.1) == Some(p)
        }),
{
    reveal_strlit("library/");
    reveal_strlit(":");
    reveal_strlit("latest");
    if seq_contains(s, ':') {
        crate::strutil::lemma_first_at_exists(s, ':');
        assert(is_first_at(s, ':', first_colon(s)));
    }
    let p = resolve_spec(s).unwrap();
    let name = p.0;
    let tag = p.1;
    // The resolved name holds a `/`: either the bare name did, or the
    // `library/` prefix supplies one.
    let name0: Seq<char> = if !seq_contains(s, ':') {
        s
    } else {
        s.subrange(0, first_colon(s))
    };
    assert(name == with_library_prefix(name0));
    if !seq_contains(name0, '/') {
        assert(name[7] == '/');
    }
    assert(seq_contains(name, '/'));
    // Neither the resolved name nor the tag holds a colon.
    if seq_contains(name0, ':') {
        let j = choose|j: int| 0 <= j < name0.len() && name0[j] == ':';
        if seq_contains(s, ':') {
            assert(s[j] == ':');
            assert(false);
        } else {
            assert(false);
        }
    }
    assert(!seq_contains(name, ':')) by {
        if seq_contains(name, ':') {
            let j = choose|j: int| 0 <= j < name.len() && name[j] == ':';
            if !seq_contains(name0, '/') {
                if j >= 8 {
                    assert(name0[j - 8] == ':');
                }
                assert(false);
            } else {
                assert(false);
            }
        }
    }
    assert(!seq_contains(tag, ':')) by {
        if seq_contains(tag, ':') {
            if !seq_contains(s, ':') {
                assert(false);
            }
        }
    }
    // Rejoined, the first colon stands exactly between name and tag.
    let r = name + ":"@ + tag;
    assert(r[name.len() as int] == ':');
    assert(forall|j: int| 0 <= j < name.len() ==> #[trigger] r[j] == name[j]);
    assert(is_first_at(r, ':', name.len() as int));
    lemma_first_colon_is(r, name.len() as int);
    assert(r.subrange(0, name.len() as int) =~= name);
    assert(r.subrange(name.len() as int + 1, r.len() as int) =~= tag);
    assert(seq_contains(r, ':'));
    assert(with_library_prefix(name) == name);
}

/// The 12-character slice of a digest (characters 7 through 18, dropping the
/// `sha256:` prefix) that stands for the digest in paths and store keys.
pub open spec fn digest_slice(d: Seq<char>) -> Seq<char> {
    d.subrange(7, 19)
}

/// Slice a digest down to its 12-character identifier.
pub fn short_digest(digest: &str) -> (r: Result<String, Error>)
    ensures
        match r {
            Ok(h) => digest@.len() >= 19 && h@ == digest_slice(digest@),
            Err(e) => e == Error::InvalidManifest && digest@.len() < 19,
        },
{
    let n = digest.unicode_len();
    if n < 19 {
        return Err(Error::InvalidManifest);
    }
    Ok(digest.substring_char(7, 19).to_owned())
}

/// The identifier of a manifest's image: the slice of its config digest.
pub open spec fn image_hash_of(m: Manifest) -> Seq<char> {
    digest_slice(m.config_digest@)
}

/// The image hash is a function of the config digest alone: manifests that
/// agree on it get the same hash, whatever their name, tag, or layers.
pub proof fn lemma_image_hash_from_config_digest_only(m1: Manifest, m2: Manifest)
    requires
        m1.config_digest@ == m2.config_digest@,
    ensures
        image_hash_of(m1) == image_hash_of(m2),
{
}

/// Compute the image hash of a manifest.
pub fn manifest_image_hash(m: &Manifest) -> (r: Result<String, Error>)
    ensures
        match r {
            Ok(h) => m.config_digest@.len() >= 19 && h@ == image_hash_of(*m),
            Err(e) => e == Error::InvalidManifest && m.config_digest@.len() < 19,
        },
{
    short_digest(m.config_digest.as_str())
}

/// Root of the extracted image trees.
pub fn images_root() -> (r: String)
    ensures
        r@ == "/var/lib/rocker/images"@,
{
    String::from_str("/var/lib/rocker/images")
}

/// Root of the transient download scratch space.
pub fn tmp_root() -> (r: String)
    ensures
        r@ == "/var/lib/rocker/tmp"@,
{
    String::from_str("/var/lib/rocker/tmp")
}

/// Scratch directory that an image's layer archives are downloaded into.
pub fn tmp_image_dir(image_hash: &str) -> (r: String)
    ensures
        r@ == "/var/lib/rocker/tmp/"@ + image_hash@,
{
    String::from_str("/var/lib/rocker/tmp/").concat(image_hash)
}

/// Directory that holds an image's extracted layer trees.
pub fn image_dir(image_hash: &str) -> (r: String)
    ensures
        r@ == "/var/lib/rocker/images/"@ + image_hash@,
{
    String::from_str("/var/lib/rocker/images/").concat(image_hash)
}

/// Where one layer's gzipped tar archive is downloaded to.
pub fn layer_tar_path(image_hash: &str, layer_digest: &str) -> (r: Result<String, Error>)
    ensures
        match r {
            Ok(p) => layer_digest@.len() >= 19 && p@ == ("/var/lib/rocker/tmp/"@ + image_hash@)
                + "/"@ + digest_slice(layer_digest@) + ".tar.gz"@,
            Err(e) => e == Error::InvalidManifest && layer_digest@.len() < 19,
        },
{
    let short = match short_digest(layer_digest) {
        Ok(s) => s,
        Err(e) => {
            return Err(e);
        },
    };
    Ok(tmp_image_dir(image_hash).concat("/").concat(short.as_str()).concat(".tar.gz"))
}

/// The extracted tree of one layer: `<images>/<hash>/<layer>/fs`, where
/// `<layer>` is the digest's 12-character slice.
pub open spec fn layer_fs_path_spec(image_hash: Seq<char>, layer_digest: Seq<char>) -> Seq<char> {
    "/var/lib/rocker/images/"@ + image_hash + "/"@ + digest_slice(layer_digest) + "/fs"@
}

/// Where one layer's archive is extracted to.
pub fn layer_fs_path(image_hash: &str, layer_digest: &str) -> (r: Result<String, Error>)
    ensures
        match r {
            Ok(p) => layer_digest@.len() >= 19 && p@ == layer_fs_path_spec(
                image_hash@,
                layer_digest@,
            ),
            Err(e) => e == Error::InvalidManifest && layer_digest@.len() < 19,
        },
{
    let short = match short_digest(layer_digest) {
        Ok(s) => s,
        Err(e) => {
            return Err(e);
        },
    };
    Ok(
        String::from_str("/var/lib/rocker/images/").concat(image_hash).concat("/").concat(
            short.as_str(),
        ).concat("/fs"),
    )
}

/// Must the image's layers be fetched from the registry, or is the image
/// already cached under this hash?
pub open spec fn needs_download(m: Map<Seq<char>, Seq<char>>, image_hash: Seq<char>) -> bool {
    !m.contains_key("downloaded_images/"@ + image_hash)
}

/// Is the image of this hash already cached?
pub fn is_image_already_downloaded(store: &Store, image_hash: &str) -> (r: Result<bool, Error>)
    ensures
        match r {
            Ok(b) => b == !needs_download(store@, image_hash@),
            Err(e) => e == Error::StoreUnavailable,
        },
{
    let key = crate::db::downloaded_images_key(image_hash);
    match store.get(key.as_str()) {
        Ok(Some(_)) => Ok(true),
        Ok(None) => Ok(false),
        Err(e) => Err(e),
    }
}

/// Record a freshly downloaded image: its hash now maps to `name:tag`.
pub fn record_downloaded_image(
    store: &mut Store,
    image_hash: &str,
    image_name: &str,
    tag: &str,
) -> (r: Result<(), Error>)
    ensures
        match r {
            Ok(u) => final(store)@ == old(store)@.insert(
                "downloaded_images/"@ + image_hash@,
                (image_name@ + ":"@) + tag@,
            ),
            Err(e) => e == Error::StoreUnavailable,
        },
{
    let key = crate::db::downloaded_images_key(image_hash);
    let entry = image_name.to_owned().concat(":").concat(tag);
    store.put(key.as_str(), entry.as_str())
}

/// Ensuring an image twice downloads it once: as soon as a download is
/// recorded, the cache check succeeds and the fetch branch is never taken
/// again, whatever else the store holds.
pub proof fn lemma_ensure_downloads_once(
    m: Map<Seq<char>, Seq<char>>,
    image_hash: Seq<char>,
    entry: Seq<char>,
)
    ensures
        !needs_download(m.insert("downloaded_images/"@ + image_hash, entry), image_hash),
{
}

/// The name half of a stored `name:tag` entry: everything before the first
/// colon, or the whole value when it holds none.
pub open spec fn name_part(v: Seq<char>) -> Seq<char> {
    if seq_contains(v, ':') {
        v.subrange(0, first_colon(v))
    } else {
        v
    }
}

/// The tag half of a stored `name:tag` entry: everything after the first
/// colon. Meaningful only when the value holds one.
pub open spec fn tag_part(v: Seq<char>) -> Seq<char> {
    v.subrange(first_colon(v) + 1, v.len() as int)
}

/// The name half of a `name:tag` entry.
pub fn split_name(v: &str) -> (r: String)
    ensures
        r@ == name_part(v@),
{
    match find_first(v, ':') {
        Some(k) => {
            proof {
                lemma_first_colon_is(v@, k as int);
            }
            v.substring_char(0, k).to_owned()
        },
        None => v.to_owned(),
    }
}

/// A cached image, as listed by `images`.
pub struct Image {
    pub image_hash: String,
    pub name: String,
    pub tag: String,
}

/// Does the store map this hash to a well-formed `name:tag` entry?
pub open spec fn image_known(m: Map<Seq<char>, Seq<char>>, image_hash: Seq<char>) -> bool {
    &&& m.contains_key("downloaded_images/"@ + image_hash)
    &&& seq_contains(m["downloaded_images/"@ + image_hash], ':')
}

/// One row of the `images` listing is faithful to the store.
pub open spec fn image_entry_ok(
    m: Map<Seq<char>, Seq<char>>,
    image_hash: Seq<char>,
    img: Image,
) -> bool {
    &&& img.image_hash@ == image_hash
    &&& image_known(m, image_hash)
    &&& img.name@ == name_part(m["downloaded_images/"@ + image_hash])
    &&& img.tag@ == tag_part(m["downloaded_images/"@ + image_hash])
}

/// Join the extracted image directories with the store: each directory name
/// is an image hash whose `name:tag` entry is looked up and split. A
/// directory the store does not know, or an entry without a colon, fails
/// the listing; an empty listing asks the store nothing and always succeeds.
pub fn fetch_available_images(store: &Store, image_hashes: &Vec<String>) -> (r: Result<
    Vec<Image>,
    Error,
>)
    ensures
        image_hashes@.len() == 0 ==> r is Ok,
        match r {
            Ok(imgs) => {
                &&& imgs@.len() == image_hashes@.len()
                &&& forall|i: int|
                    0 <= i < imgs@.len() ==> image_entry_ok(
                        store@,
                        image_hashes@[i]@,
                        #[trigger] imgs@[i],
                    )
            },
            Err(e) => {
                &&& e == Error::InvalidImageName || e == Error::StoreUnavailable
                &&& e == Error::InvalidImageName ==> exists|i: int|
                    0 <= i < image_hashes@.len() && !image_known(
                        store@,
                        (#[trigger] image_hashes@[i])@,
                    )
            },
        },
{
    let mut out: Vec<Image> = Vec::new();
    let n = image_hashes.len();
    let mut i: usize = 0;
    while i < n
        invariant
            i <= n,
            n == image_hashes@.len(),
            out@.len() == i,
            forall|j: int|
                0 <= j < i ==> image_entry_ok(store@, image_hashes@[j]@, #[trigger] out@[j]),
        decreases n - i,
    {
        let hash = &image_hashes[i];
        let dkey = crate::db::downloaded_images_key(hash.as_str());
        let entry = match store.get(dkey.as_str()) {
            Ok(Some(v)) => v,
            Ok(None) => {
                return Err(Error::InvalidImageName);
            },
            Err(e) => {
                return Err(e);
            },
        };
        let n_entry = entry.as_str().unicode_len();
        match find_first(entry.as_str(), ':') {
            Some(k) => {
                proof {
                    lemma_first_colon_is(entry@, k as int);
                }
                let name = entry.as_str().substring_char(0, k).to_owned();
                let tag = entry.as_str().substring_char(k + 1, n_entry).to_owned();
                out.push(Image { image_hash: hash.clone(), name, tag });
            },
            None => {
                return Err(Error::InvalidImageName);
            },
        }
        i = i + 1;
    }
    Ok(out)
}

} // verus!
