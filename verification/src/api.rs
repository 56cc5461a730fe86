//! Requests, and how they are resolved to a namespace, an image and a cache key.

use vstd::prelude::*;
use vstd::string::*;
use vstd::utf8::encode_scalar;
use vstd::utf8::encode_utf8;
use vstd::utf8::is_char_boundary;

use crate::blob::BlobAction;
use crate::blob::BlobHandler;
use crate::blob::BlobHandlerView;
use crate::blob::BlobPhase;
use crate::digest::hex_decoded;
use crate::digest::is_lower_hex;
use crate::digest::is_sha256_digest;
use crate::digest::BlobDigest;
use crate::error::Error;
use crate::manifest::ManifestAction;
use crate::manifest::ManifestHandler;
use crate::manifest::ManifestHandlerView;
use crate::manifest::ManifestPhase;
use crate::text::find_char;
use crate::text::lemma_first_at;
use crate::text::str_eq;

verus! {

/// The namespace and the image that a request names.
///
/// An explicit namespace is taken as it is, with the image untouched. Without
/// one, an image of three or more segments gives its first segment as the
/// namespace and the rest as the image; an image of one or two segments is not
/// qualified by a namespace and goes to the default namespace whole.
pub open spec fn resolve(ns: Option<Seq<char>>, image: Seq<char>, default_ns: Seq<char>) -> (
    Seq<char>,
    Seq<char>,
) {
    match ns {
        Some(v) => (v, image),
        None => match image.index_of_first('/') {
            Some(i) if image.skip(i + 1).contains('/') => (image.take(i), image.skip(i + 1)),
            _ => (default_ns, image),
        },
    }
}

/// The view of an optional string.
pub open spec fn opt_view(s: Option<&str>) -> Option<Seq<char>> {
    match s {
        Some(v) => Some(v@),
        None => None,
    }
}

/// Resolves the namespace and the image of a request: see [`resolve`].
pub fn split_image<'a>(ns: Option<&'a str>, image: &'a str, default_ns: &'a str) -> (r: (
    &'a str,
    &'a str,
))
    ensures
        (r.0@, r.1@) == resolve(opt_view(ns), image@, default_ns@),
{
    match ns {
        Some(v) => (v, image),
        None => match find_char(image, '/') {
            Some(i) => {
                let n: usize = image.unicode_len();
                let rest = image.substring_char(i + 1, n);
                match find_char(rest, '/') {
                    Some(_) => (image.substring_char(0, i), rest),
                    None => (default_ns, image),
                }
            },
            None => (default_ns, image),
        },
    }
}

/// The segment of an image path before its first `/`: the whole path where it
/// has none.
pub open spec fn first_segment(image: Seq<char>) -> Seq<char> {
    match image.index_of_first('/') {
        Some(i) => image.take(i),
        None => image,
    }
}

/// The key under which a manifest is cached:
/// `manifests/<namespace>/<image>/<reference>`, without the namespace where
/// the image already starts with it.
pub open spec fn manifest_path(ns: Seq<char>, image: Seq<char>, reference: Seq<char>) -> Seq<char> {
    if first_segment(image) == ns {
        "manifests/"@ + image + "/"@ + reference
    } else {
        "manifests/"@ + ns + "/"@ + image + "/"@ + reference
    }
}

/// How many leading characters of `hash` make up its first two bytes in UTF-8:
/// two characters of one byte, or one of two bytes. 0 where the text cannot be
/// cut after its second byte.
pub open spec fn bucket_len(hash: Seq<char>) -> int {
    if hash.len() >= 1 && 0x80 <= hash[0] as u32 && hash[0] as u32 <= 0x7ff {
        1
    } else if hash.len() >= 2 && (hash[0] as u32) < 0x80 && (hash[1] as u32) < 0x80 {
        2
    } else {
        0
    }
}

/// The algorithm that a digest names, `_` where it names none.
pub open spec fn digest_method(digest: Seq<char>) -> Seq<char> {
    match digest.index_of_first(':') {
        Some(i) => digest.take(i),
        None => "_"@,
    }
}

/// The hash of a digest: what follows its first `:`, the whole text where it
/// has none.
pub open spec fn digest_hash(digest: Seq<char>) -> Seq<char> {
    match digest.index_of_first(':') {
        Some(i) => digest.skip(i + 1),
        None => digest,
    }
}

/// The key under which a blob is cached:
/// `blobs/<algorithm>/<first two bytes of the hash>/<rest of the hash>`. A hash
/// that cannot be cut after its second byte goes to the bucket `_`, whole.
pub open spec fn blob_path(digest: Seq<char>) -> Seq<char> {
    let hash = digest_hash(digest);
    let k = bucket_len(hash);
    if k > 0 {
        "blobs/"@ + digest_method(digest) + "/"@ + hash.take(k) + "/"@ + hash.skip(k)
    } else {
        "blobs/"@ + digest_method(digest) + "/"@ + "_"@ + "/"@ + hash
    }
}

/// What every request handler is configured with.
pub struct RequestConfig {
    default_ns: String,
}

impl View for RequestConfig {
    type V = Seq<char>;

    /// The default namespace.
    closed spec fn view(&self) -> Seq<char> {
        self.default_ns@
    }
}

impl RequestConfig {
    /// A configuration with `default_ns` as the namespace of the requests
    /// that name none.
    pub fn new(default_ns: String) -> (r: Self)
        ensures
            r@ == default_ns@,
    {
        RequestConfig { default_ns }
    }

    /// The namespace of the requests that name none.
    pub fn default_ns(&self) -> (r: &str)
        ensures
            r@ == self@,
    {
        self.default_ns.as_str()
    }
}

/// The query string of a request: it may name the namespace.
pub struct ManifestQueryString {
    ns: Option<String>,
}

impl View for ManifestQueryString {
    type V = Option<Seq<char>>;

    /// The namespace, where the query names one.
    closed spec fn view(&self) -> Option<Seq<char>> {
        match self.ns {
            Some(s) => Some(s@),
            None => None,
        }
    }
}

impl ManifestQueryString {
    /// A query string that names the namespace `ns`, or none.
    pub fn new(ns: Option<String>) -> (r: Self)
        ensures
            r@ == match ns {
                Some(s) => Some(s@),
                None => None,
            },
    {
        ManifestQueryString { ns }
    }

    /// The namespace, where the query names one.
    pub fn ns(&self) -> (r: Option<&str>)
        ensures
            opt_view(r) == self@,
    {
        match &self.ns {
            Some(s) => Some(s.as_str()),
            None => None,
        }
    }
}

/// A request for the manifest of an image.
pub struct ManifestRequest {
    image: String,
    reference: String,
}

/// What a [`ManifestRequest`] holds.
pub struct ManifestRequestView {
    pub image: Seq<char>,
    pub reference: Seq<char>,
}

impl View for ManifestRequest {
    type V = ManifestRequestView;

    closed spec fn view(&self) -> ManifestRequestView {
        ManifestRequestView { image: self.image@, reference: self.reference@ }
    }
}

impl ManifestRequest {
    /// A request for `reference`, a tag or a digest, of `image`.
    pub fn new(image: String, reference: String) -> (r: Self)
        ensures
            r@.image == image@,
            r@.reference == reference@,
    {
        ManifestRequest { image, reference }
    }

    /// The image path, as the client wrote it.
    pub fn image(&self) -> (r: &str)
        ensures
            r@ == self@.image,
    {
        self.image.as_str()
    }

    /// The tag or digest asked for.
    pub fn reference(&self) -> (r: &str)
        ensures
            r@ == self@.reference,
    {
        self.reference.as_str()
    }

    /// The path of the request: `/<image>/manifests/<reference>`.
    pub fn http_path(&self) -> (r: String)
        ensures
            r@ == "/"@ + self@.image + "/manifests/"@ + self@.reference,
    {
        let mut r = String::from_str("/");
        r.append(self.image.as_str());
        r.append("/manifests/");
        r.append(self.reference.as_str());
        r
    }

    /// The key under which the manifest is cached in namespace `ns`: see
    /// [`manifest_path`].
    pub fn storage_path(&self, ns: &str) -> (r: String)
        ensures
            r@ == manifest_path(ns@, self@.image, self@.reference),
    {
        let image = self.image.as_str();
        let part = match find_char(image, '/') {
            Some(i) => image.substring_char(0, i),
            None => image,
        };
        let mut r = String::from_str("manifests/");
        if !str_eq(part, ns) {
            r.append(ns);
            r.append("/");
        }
        r.append(image);
        r.append("/");
        r.append(self.reference.as_str());
        r
    }
}

/// A request for a blob of an image.
pub struct BlobRequest {
    image: String,
    digest: String,
}

/// What a [`BlobRequest`] holds.
pub struct BlobRequestView {
    pub image: Seq<char>,
    pub digest: Seq<char>,
}

impl View for BlobRequest {
    type V = BlobRequestView;

    closed spec fn view(&self) -> BlobRequestView {
        BlobRequestView { image: self.image@, digest: self.digest@ }
    }
}

impl BlobRequest {
    /// A request for the blob of `image` with the given digest.
    pub fn new(image: String, digest: String) -> (r: Self)
        ensures
            r@.image == image@,
            r@.digest == digest@,
    {
        BlobRequest { image, digest }
    }

    /// The image path, as the client wrote it.
    pub fn image(&self) -> (r: &str)
        ensures
            r@ == self@.image,
    {
        self.image.as_str()
    }

    /// The digest asked for, as the client wrote it.
    pub fn digest(&self) -> (r: &str)
        ensures
            r@ == self@.digest,
    {
        self.digest.as_str()
    }

    /// The path of the request: `/<image>/blobs/<digest>`.
    pub fn http_path(&self) -> (r: String)
        ensures
            r@ == "/"@ + self@.image + "/blobs/"@ + self@.digest,
    {
        let mut r = String::from_str("/");
        r.append(self.image.as_str());
        r.append("/blobs/");
        r.append(self.digest.as_str());
        r
    }

    /// The key under which the blob is cached: see [`blob_path`]. It depends
    /// on the digest alone.
    pub fn storage_path(&self) -> (r: String)
        ensures
            r@ == blob_path(self@.digest),
    {
        let digest = self.digest.as_str();
        let n: usize = digest.unicode_len();
        let (method, hash) = match find_char(digest, ':') {
            Some(i) => (digest.substring_char(0, i), digest.substring_char(i + 1, n)),
            None => ("_", digest),
        };
        let m: usize = hash.unicode_len();
        let k: usize = if m >= 1 && 0x80 <= hash.get_char(0) as u32 && hash.get_char(0) as u32
            <= 0x7ff {
            1
        } else if m >= 2 && (hash.get_char(0) as u32) < 0x80 && (hash.get_char(1) as u32) < 0x80 {
            2
        } else {
            0
        };
        let mut r = String::from_str("blobs/");
        r.append(method);
        r.append("/");
        if k > 0 {
            r.append(hash.substring_char(0, k));
            r.append("/");
            r.append(hash.substring_char(k, m));
        } else {
            r.append("_");
            r.append("/");
            r.append(hash);
        }
        r
    }
}

/// The namespace whose upstream a request to the root is checked against:
/// the one that the query names, else the default one.
pub fn root<'a>(qstr: &'a ManifestQueryString, config: &'a RequestConfig) -> (r: &'a str)
    ensures
        r@ == match qstr@ {
            Some(ns) => ns,
            None => config@,
        },
{
    match qstr.ns() {
        Some(ns) => ns,
        None => config.default_ns(),
    }
}

/// Starts the handling of a manifest request: resolves its namespace and
/// image, and gives the handler with its first action, the lookup of the
/// namespace's settings.
pub fn manifest(req: ManifestRequest, qstr: &ManifestQueryString, config: &RequestConfig) -> (r: (
    ManifestHandler,
    ManifestAction,
))
    ensures
        r.0@ == (ManifestHandlerView {
            request: req@,
            namespace: resolve(qstr@, req@.image, config@).0,
            image: resolve(qstr@, req@.image, config@).1,
            phase: ManifestPhase::Lookup,
            manifest: None,
        }),
        r.1 == ManifestAction::LookupNamespace,
{
    let (namespace, image) = split_image(qstr.ns(), req.image(), config.default_ns());
    let namespace = String::from_str(namespace);
    let image = String::from_str(image);
    (ManifestHandler::new(req, namespace, image), ManifestAction::LookupNamespace)
}

/// Starts the handling of a blob request. A digest that is not `sha256:` and
/// 64 lowercase hex digits fails the request at once, before anything is
/// asked of the cache or of the upstream. Else the namespace and the image are
/// resolved, and the handler is given with its first action, the lookup of the
/// namespace's settings.
pub fn blob(req: BlobRequest, qstr: &ManifestQueryString, config: &RequestConfig) -> (r: Result<
    (BlobHandler, BlobAction),
    Error,
>)
    ensures
        match r {
            Ok((handler, action)) => {
                &&& is_sha256_digest(req@.digest)
                &&& handler@ == (BlobHandlerView {
                    request: req@,
                    namespace: resolve(qstr@, req@.image, config@).0,
                    image: resolve(qstr@, req@.image, config@).1,
                    wanted: hex_decoded(req@.digest.skip(7)),
                    phase: BlobPhase::Lookup,
                })
                &&& action == BlobAction::LookupNamespace
            },
            Err(e) => !is_sha256_digest(req@.digest) && e == Error::InvalidDigest,
        },
{
    let wanted = match BlobDigest::parse(req.digest()) {
        Ok(d) => d,
        Err(e) => {
            return Err(e);
        },
    };
    let (namespace, image) = split_image(qstr.ns(), req.image(), config.default_ns());
    let namespace = String::from_str(namespace);
    let image = String::from_str(image);
    Ok((BlobHandler::new(req, namespace, image, wanted), BlobAction::LookupNamespace))
}

/// The key of the cached manifest that a delete request removes: the key
/// under which a request for the same manifest looks it up. The upstream is
/// not asked.
pub fn delete_manifest(
    req: &ManifestRequest,
    qstr: &ManifestQueryString,
    config: &RequestConfig,
) -> (r: String)
    ensures
        r@ == manifest_path(resolve(qstr@, req@.image, config@).0, req@.image, req@.reference),
{
    let (namespace, _) = split_image(qstr.ns(), req.image(), config.default_ns());
    req.storage_path(namespace)
}

/// The key of the cached blob that a delete request removes: it depends on
/// the digest alone.
pub fn delete_blob(req: &BlobRequest) -> (r: String)
    ensures
        r@ == blob_path(req@.digest),
{
    req.storage_path()
}

/// A namespace that the request names is taken as it is, and the image is
/// then not looked into, whatever it holds.
pub proof fn lemma_explicit_namespace(ns: Seq<char>, image: Seq<char>, default_ns: Seq<char>)
    ensures
        resolve(Some(ns), image, default_ns) == (ns, image),
{
}

/// Without a namespace of its own, a request goes to the default namespace
/// with its image whole, unless the image has three segments or more: then
/// its first segment is the namespace, and the two put together with a `/`
/// give the image back.
pub proof fn lemma_inferred_namespace(image: Seq<char>, default_ns: Seq<char>)
    ensures
        ({
            let (ns, rest) = resolve(None, image, default_ns);
            ||| (ns == default_ns && rest == image)
            ||| (ns + seq!['/'] + rest == image && !ns.contains('/') && rest.contains('/'))
        }),
{
    image.index_of_first_ensures('/');
    match image.index_of_first('/') {
        Some(i) => {
            if image.skip(i + 1).contains('/') {
                assert(image.take(i) + seq!['/'] + image.skip(i + 1) =~= image);
                if image.take(i).contains('/') {
                    let j = choose|j: int| 0 <= j < i && image.take(i)[j] == '/';
                    assert(image[j] == '/');
                }
            }
        },
        None => {},
    }
}

/// The key of a manifest leaves the namespace out exactly where the image's
/// first segment is the namespace; everywhere else the namespace stands in it
/// once, before the image.
pub proof fn lemma_manifest_path_elision(ns: Seq<char>, image: Seq<char>, reference: Seq<char>)
    ensures
        first_segment(image) == ns <==> manifest_path(ns, image, reference) == "manifests/"@ + image
            + "/"@ + reference,
        first_segment(image) != ns <==> manifest_path(ns, image, reference) == "manifests/"@ + ns
            + "/"@ + image + "/"@ + reference,
{
    reveal_strlit("manifests/");
    reveal_strlit("/");
    let short = "manifests/"@ + image + "/"@ + reference;
    let long = "manifests/"@ + ns + "/"@ + image + "/"@ + reference;
    assert(long.len() == short.len() + ns.len() + 1);
}

/// A request that names its namespace in the image and one that names it in
/// the query look the manifest up under the same key.
pub proof fn lemma_manifest_path_of_qualified_image(
    ns: Seq<char>,
    image: Seq<char>,
    reference: Seq<char>,
    default_ns: Seq<char>,
)
    requires
        !ns.contains('/'),
        image.contains('/'),
        first_segment(image) != ns,
    ensures
        ({
            let qualified = ns + seq!['/'] + image;
            let resolved = resolve(None, qualified, default_ns);
            &&& resolved == (ns, image)
            &&& manifest_path(resolved.0, qualified, reference) == manifest_path(
                ns,
                image,
                reference,
            )
        }),
{
    reveal_strlit("/");
    let qualified = ns + seq!['/'] + image;
    let i = ns.len() as int;
    assert(qualified[i] == '/');
    assert forall|j: int| 0 <= j < i implies qualified[j] != '/' by {
        assert(qualified[j] == ns[j]);
        if ns[j] == '/' {
            assert(ns.contains('/'));
        }
    }
    lemma_first_at(qualified, '/', i);
    assert(qualified.take(i) =~= ns);
    assert(qualified.skip(i + 1) =~= image);
    assert("/"@ =~= seq!['/']);
    assert("manifests/"@ + qualified + "/"@ + reference =~= "manifests/"@ + ns + "/"@ + image
        + "/"@ + reference);
}

/// The bucket of a blob's key is cut off the hash by bytes: a hash has a
/// bucket of its own exactly where its UTF-8 text has two bytes or more and
/// may be cut after the second, and the bucket is then those two bytes, and
/// the rest of the key what follows them.
pub proof fn lemma_bucket_is_two_bytes(hash: Seq<char>)
    ensures
        bucket_len(hash) > 0 <==> encode_utf8(hash).len() >= 2 && is_char_boundary(
            encode_utf8(hash),
            2,
        ),
        bucket_len(hash) > 0 ==> encode_utf8(hash.take(bucket_len(hash))) == encode_utf8(
            hash,
        ).subrange(0, 2),
        bucket_len(hash) > 0 ==> encode_utf8(hash.skip(bucket_len(hash))) == encode_utf8(
            hash,
        ).subrange(2, encode_utf8(hash).len() as int),
{
    let bytes = encode_utf8(hash);
    vstd::utf8::encode_utf8_valid_utf8(hash);
    vstd::utf8::is_char_boundary_start_end_of_seq(bytes);
    if hash.len() > 0 {
        let rest = hash.drop_first();
        let first = encode_scalar(hash[0] as u32);
        vstd::utf8::encode_utf8_first_scalar(hash);
        vstd::utf8::char_is_scalar(hash[0]);
        assert(bytes == first + encode_utf8(rest));
        if bytes.len() > 2 {
            vstd::utf8::is_char_boundary_iff_not_is_continuation_byte(bytes, 2);
        }
        if first.len() == 1 {
            if rest.len() > 0 {
                let second = encode_scalar(rest[0] as u32);
                let tail = rest.drop_first();
                vstd::utf8::encode_utf8_first_scalar(rest);
                vstd::utf8::char_is_scalar(rest[0]);
                assert(encode_utf8(rest) == second + encode_utf8(tail));
                if second.len() == 1 {
                    if tail.len() > 0 {
                        vstd::utf8::encode_utf8_first_scalar(tail);
                        assert(bytes[2] == encode_utf8(tail)[0]);
                    }
                    assert(hash.take(2).drop_first() =~= seq![hash[1]]);
                    assert(hash.take(2).drop_first().drop_first() =~= Seq::<char>::empty());
                    assert(encode_utf8(hash.take(2)) =~= bytes.subrange(0, 2)) by {
                        reveal_with_fuel(encode_utf8, 3);
                    }
                    assert(hash.skip(2) =~= tail);
                    assert(encode_utf8(tail) =~= bytes.subrange(2, bytes.len() as int));
                } else {
                    assert(bytes[2] == encode_utf8(rest)[1]);
                }
            }
        } else if first.len() == 2 {
            if rest.len() > 0 {
                vstd::utf8::encode_utf8_first_scalar(rest);
                assert(bytes[2] == encode_utf8(rest)[0]);
            }
            assert(hash.take(1).drop_first() =~= Seq::<char>::empty());
            assert(encode_utf8(hash.take(1)) =~= bytes.subrange(0, 2)) by {
                reveal_with_fuel(encode_utf8, 2);
            }
            assert(hash.skip(1) =~= rest);
            assert(encode_utf8(rest) =~= bytes.subrange(2, bytes.len() as int));
        }
    }
}

/// The key of a blob depends on the digest alone: two requests for the same
/// digest share it, whatever their images are.
pub proof fn lemma_blob_path_ignores_image(a: BlobRequestView, b: BlobRequestView)
    requires
        a.digest == b.digest,
    ensures
        blob_path(a.digest) == blob_path(b.digest),
{
}

/// The key of a blob with a well-formed digest: `blobs/sha256/`, the first
/// two hex digits, `/`, and the other 62.
pub proof fn lemma_blob_path_of_digest(digest: Seq<char>)
    requires
        is_sha256_digest(digest),
    ensures
        blob_path(digest) == "blobs/sha256/"@ + digest.subrange(7, 9) + "/"@ + digest.skip(9),
        digest.subrange(7, 9).len() == 2,
        digest.skip(9).len() == 62,
{
    reveal_strlit("sha256:");
    reveal_strlit("blobs/sha256/");
    reveal_strlit("blobs/");
    reveal_strlit("/");
    let prefix = "sha256:"@;
    assert forall|j: int| 0 <= j < 7 implies digest[j] == prefix[j] by {
        assert(digest.take(7)[j] == digest[j]);
    }
    lemma_first_at(digest, ':', 6);
    let hash = digest.skip(7);
    assert(hash == digest_hash(digest));
    assert(is_lower_hex(digest[7]) && is_lower_hex(digest[8]));
    assert(hash[0] == digest[7] && hash[1] == digest[8]);
    assert(bucket_len(hash) == 2);
    assert(hash.take(2) =~= digest.subrange(7, 9));
    assert(hash.skip(2) =~= digest.skip(9));
    assert("blobs/"@ + digest.take(6) + "/"@ =~= "blobs/sha256/"@);
    assert("blobs/"@ + digest.take(6) + "/"@ + hash.take(2) + "/"@ + hash.skip(2)
        =~= "blobs/sha256/"@ + digest.subrange(7, 9) + "/"@ + digest.skip(9));
}

} // verus!
