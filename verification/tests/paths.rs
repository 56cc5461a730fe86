use registry_cache::api::delete_blob;
use registry_cache::api::delete_manifest;
use registry_cache::api::root;
use registry_cache::api::BlobRequest;
use registry_cache::api::ManifestQueryString;
use registry_cache::api::ManifestRequest;
use registry_cache::api::RequestConfig;

fn manifest_request(image: &str, reference: &str) -> ManifestRequest {
    ManifestRequest::new(image.to_string(), reference.to_string())
}

fn blob_request(image: &str, digest: &str) -> BlobRequest {
    BlobRequest::new(image.to_string(), digest.to_string())
}

#[test]
fn manifest_path_includes_namespace_once() {
    let req = manifest_request("library/busybox", "latest");
    assert_eq!(req.storage_path("docker.io"), "manifests/docker.io/library/busybox/latest");
}

#[test]
fn manifest_path_elides_leading_namespace() {
    let req = manifest_request("docker.io/library/busybox", "latest");
    assert_eq!(req.storage_path("docker.io"), "manifests/docker.io/library/busybox/latest");
}

#[test]
fn manifest_path_compares_whole_first_segment() {
    let req = manifest_request("docker.io.evil/busybox", "latest");
    assert_eq!(req.storage_path("docker.io"), "manifests/docker.io/docker.io.evil/busybox/latest");

    let req = manifest_request("docker", "latest");
    assert_eq!(req.storage_path("docker.io"), "manifests/docker.io/docker/latest");

    let req = manifest_request("busybox", "1.36");
    assert_eq!(req.storage_path("busybox"), "manifests/busybox/1.36");
}

#[test]
fn manifest_path_with_digest_reference() {
    let req = manifest_request("distroless/static", "sha256:abcd");
    assert_eq!(req.storage_path("gcr.io"), "manifests/gcr.io/distroless/static/sha256:abcd");
}

#[test]
fn manifest_http_path() {
    let req = manifest_request("library/busybox", "latest");
    assert_eq!(req.http_path(), "/library/busybox/manifests/latest");
    assert_eq!(req.image(), "library/busybox");
    assert_eq!(req.reference(), "latest");
}

#[test]
fn blob_http_path() {
    let req = blob_request("library/busybox", "sha256:00ff");
    assert_eq!(req.http_path(), "/library/busybox/blobs/sha256:00ff");
    assert_eq!(req.image(), "library/busybox");
    assert_eq!(req.digest(), "sha256:00ff");
}

#[test]
fn blob_path_buckets_by_first_two_hex_digits() {
    let digest = "sha256:e3b0c44298fc1c149afbf4c8996fb92427ae41e4649b934ca495991b7852b855";
    let req = blob_request("library/busybox", digest);
    assert_eq!(
        req.storage_path(),
        "blobs/sha256/e3/b0c44298fc1c149afbf4c8996fb92427ae41e4649b934ca495991b7852b855"
    );
}

#[test]
fn blob_path_depends_on_digest_alone() {
    let digest = "sha256:e3b0c44298fc1c149afbf4c8996fb92427ae41e4649b934ca495991b7852b855";
    let a = blob_request("library/busybox", digest);
    let b = blob_request("gcr.io/distroless/static", digest);
    assert_eq!(a.storage_path(), b.storage_path());
}

#[test]
fn blob_path_falls_back_for_malformed_digests() {
    assert_eq!(blob_request("i", "nocolon").storage_path(), "blobs/_/no/colon");
    assert_eq!(blob_request("i", "sha256:a").storage_path(), "blobs/sha256/_/a");
    assert_eq!(blob_request("i", "sha256:").storage_path(), "blobs/sha256/_/");
    assert_eq!(blob_request("i", "").storage_path(), "blobs/_/_/");
    assert_eq!(blob_request("i", "sha256:ab").storage_path(), "blobs/sha256/ab/");
    assert_eq!(blob_request("i", ":abc").storage_path(), "blobs//ab/c");
    assert_eq!(blob_request("i", "a:b:cde").storage_path(), "blobs/a/b:/cde");
}

#[test]
fn blob_path_cuts_after_two_bytes() {
    assert_eq!(blob_request("i", "x:\u{e9}zz").storage_path(), "blobs/x/\u{e9}/zz");
    assert_eq!(blob_request("i", "x:a\u{e9}z").storage_path(), "blobs/x/_/a\u{e9}z");
    assert_eq!(blob_request("i", "x:\u{20ac}z").storage_path(), "blobs/x/_/\u{20ac}z");
    assert_eq!(blob_request("i", "x:\u{1f600}").storage_path(), "blobs/x/_/\u{1f600}");
}

#[test]
fn delete_manifest_targets_the_looked_up_key() {
    let config = RequestConfig::new("docker.io".to_string());
    let req = manifest_request("gcr.io/distroless/static", "latest");
    let none = ManifestQueryString::new(None);
    assert_eq!(delete_manifest(&req, &none, &config), "manifests/gcr.io/distroless/static/latest");

    let req = manifest_request("grafana/mimirtool", "latest");
    assert_eq!(delete_manifest(&req, &none, &config), "manifests/docker.io/grafana/mimirtool/latest");

    let explicit = ManifestQueryString::new(Some("quay.io".to_string()));
    assert_eq!(
        delete_manifest(&req, &explicit, &config),
        "manifests/quay.io/grafana/mimirtool/latest"
    );
}

#[test]
fn delete_blob_targets_the_content_address() {
    let digest = "sha256:aaaaaaaaaaaaaaaaaaaaaaaaaaaaaaaaaaaaaaaaaaaaaaaaaaaaaaaaaaaaaaaa";
    let req = blob_request("library/busybox", digest);
    assert_eq!(
        delete_blob(&req),
        "blobs/sha256/aa/aaaaaaaaaaaaaaaaaaaaaaaaaaaaaaaaaaaaaaaaaaaaaaaaaaaaaaaaaaaaaa"
    );
    assert_eq!(delete_blob(&req), req.storage_path());
}

#[test]
fn root_picks_the_namespace() {
    let config = RequestConfig::new("docker.io".to_string());
    assert_eq!(config.default_ns(), "docker.io");
    assert_eq!(root(&ManifestQueryString::new(None), &config), "docker.io");
    let q = ManifestQueryString::new(Some("gcr.io".to_string()));
    assert_eq!(q.ns(), Some("gcr.io"));
    assert_eq!(root(&q, &config), "gcr.io");
}
