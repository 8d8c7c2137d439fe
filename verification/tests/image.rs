use openshell::image::{
    default_image_tag, parse_image_ref, DEFAULT_GATEWAY_IMAGE, DEFAULT_IMAGE_REPO_BASE,
    DEFAULT_REGISTRY, DEFAULT_SANDBOX_IMAGE,
};

#[test]
fn parse_simple_image() {
    let (repo, tag) = parse_image_ref("nginx:latest");
    assert_eq!(repo, "nginx");
    assert_eq!(tag, "latest");
}

#[test]
fn parse_image_no_tag() {
    let (repo, tag) = parse_image_ref("nginx");
    assert_eq!(repo, "nginx");
    assert_eq!(tag, "latest");
}

#[test]
fn parse_image_with_registry() {
    let (repo, tag) = parse_image_ref("ghcr.io/org/repo:v1.0");
    assert_eq!(repo, "ghcr.io/org/repo");
    assert_eq!(tag, "v1.0");
}

#[test]
fn parse_image_with_registry_port() {
    let (repo, tag) = parse_image_ref("registry.io:5000/image:v1");
    assert_eq!(repo, "registry.io:5000/image");
    assert_eq!(tag, "v1");
}

#[test]
fn parse_image_with_registry_port_no_tag() {
    let (repo, tag) = parse_image_ref("registry.io:5000/image");
    assert_eq!(repo, "registry.io:5000/image");
    assert_eq!(tag, "latest");
}

#[test]
fn parse_image_with_digest() {
    let (repo, tag) = parse_image_ref("nginx@sha256:abc123");
    assert_eq!(repo, "nginx@sha256:abc123");
    assert_eq!(tag, "");
}

#[test]
fn default_constants_are_consistent() {
    assert!(
        DEFAULT_GATEWAY_IMAGE.starts_with(DEFAULT_IMAGE_REPO_BASE),
        "gateway image should be under the default repo base"
    );
    assert!(
        DEFAULT_IMAGE_REPO_BASE.starts_with(DEFAULT_REGISTRY),
        "repo base should start with the registry host"
    );
}

#[test]
fn parse_image_edge_cases() {
    let cases = [
        ("", "", "latest"),
        (":", "", ""),
        ("a:", "a", ""),
        (":t", "", "t"),
        ("a:b:c", "a:b", "c"),
        ("a:5000/b/c", "a:5000/b/c", "latest"),
        ("a:t@sha256:00", "a:t@sha256:00", ""),
        ("über/bild:märz", "über/bild", "märz"),
    ];
    for (image_ref, repository, tag) in cases {
        assert_eq!(
            parse_image_ref(image_ref),
            (repository.to_string(), tag.to_string())
        );
    }
}

#[test]
fn parsed_parts_parse_to_themselves() {
    for image_ref in ["nginx", "nginx:1", "r.io:5000/i", "r.io:5000/i:v1", "a:b:c"] {
        let (repository, tag) = parse_image_ref(image_ref);
        assert_eq!(
            parse_image_ref(&format!("{repository}:{tag}")),
            (repository, tag)
        );
    }
}

#[test]
fn sandbox_image_has_its_tag() {
    assert_eq!(
        parse_image_ref(DEFAULT_SANDBOX_IMAGE),
        (
            "ghcr.io/nvidia/openshell-community/sandboxes/base".to_string(),
            "latest".to_string()
        )
    );
}

#[test]
fn image_tag_of_a_build() {
    assert_eq!(default_image_tag(None), "dev");
    assert_eq!(default_image_tag(Some("0.6.0")), "0.6.0");
}
