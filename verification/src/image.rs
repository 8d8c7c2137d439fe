//! Image reference constants and parsing.

use vstd::prelude::*;

use crate::text::{chars_of, find_char, rfind_char, slice_text};

verus! {

/// Image tag of a build that sets none.
pub const DEV_IMAGE_TAG: &'static str = "dev";

/// Default registry host for pulling images.
pub const DEFAULT_REGISTRY: &'static str = "ghcr.io";

/// Default image repository base on GHCR (without component name or tag).
pub const DEFAULT_IMAGE_REPO_BASE: &'static str = "ghcr.io/nvidia/openshell";

/// Default full gateway image path on GHCR (without tag).
pub const DEFAULT_GATEWAY_IMAGE: &'static str = "ghcr.io/nvidia/openshell/cluster";

/// Default image for sandboxes.
pub const DEFAULT_SANDBOX_IMAGE: &'static str =
    "ghcr.io/nvidia/openshell-community/sandboxes/base:latest";

/// The image tag of a build: the tag that the build sets, or `"dev"` where it sets none.
pub fn default_image_tag<'a>(build_tag: Option<&'a str>) -> (tag: &'a str)
    ensures
        tag@ == (match build_tag {
            Some(t) => t@,
            None => "dev"@,
        }),
{
    match build_tag {
        Some(t) => t,
        None => DEV_IMAGE_TAG,
    }
}

/// The repository and the tag of an image reference.
///
/// A reference with a digest is kept whole and has the empty tag. The tag stands
/// behind the last colon, unless a slash follows that colon: then the colon belongs
/// to a registry port. A reference without a tag has the tag `latest`.
pub open spec fn image_parts(image_ref: Seq<char>) -> (Seq<char>, Seq<char>) {
    if image_ref.contains('@') {
        (image_ref, Seq::empty())
    } else {
        match image_ref.index_of_last(':') {
            Some(i) => if image_ref.skip(i + 1).contains('/') {
                (image_ref, "latest"@)
            } else {
                (image_ref.take(i), image_ref.skip(i + 1))
            },
            None => (image_ref, "latest"@),
        }
    }
}

/// Parse an image reference into (repository, tag).
///
/// - `nginx:latest` -> ("nginx", "latest")
/// - `nginx` -> ("nginx", "latest")
/// - `ghcr.io/org/repo:v1.0` -> ("ghcr.io/org/repo", "v1.0")
pub fn parse_image_ref(image_ref: &str) -> (parts: (String, String))
    ensures
        (parts.0@, parts.1@) == image_parts(image_ref@),
{
    let chars = chars_of(image_ref);
    if find_char(&chars, '@').is_some() {
        proof {
            chars@.index_of_first_ensures('@');
        }
        return (image_ref.to_string(), String::new());
    }
    if let Some(last_colon) = rfind_char(&chars, ':') {
        let mut slash_after = false;
        let mut i: usize = last_colon + 1;
        let ghost after = chars@.skip(last_colon + 1);
        while i < chars.len()
            invariant
                last_colon + 1 <= i <= chars.len(),
                after == chars@.skip(last_colon + 1),
                slash_after ==> after.contains('/'),
                !slash_after ==> forall|j: int|
                    0 <= j < i - last_colon - 1 ==> #[trigger] after[j] != '/',
            decreases chars.len() - i,
        {
            if chars[i] == '/' {
                assert(after[i - last_colon - 1] == '/');
                slash_after = true;
            }
            i = i + 1;
        }
        if !slash_after {
            assert(chars@.subrange(last_colon + 1, chars@.len() as int) =~= after);
            return (
                slice_text(&chars, 0, last_colon),
                slice_text(&chars, last_colon + 1, chars.len()),
            );
        }
    }
    (image_ref.to_string(), "latest".to_string())
}

// ---------------------------------------------------------------------------
// Laws
// ---------------------------------------------------------------------------

/// Parsing loses nothing: a reference with a digest is kept whole, one without a tag has
/// the tag `latest`, and any other is given back by its parts with a colon between them.
pub proof fn image_parts_rebuild(image_ref: Seq<char>)
    ensures
        ({
            let (repository, tag) = image_parts(image_ref);
            if image_ref.contains('@') {
                repository == image_ref && tag.len() == 0
            } else {
                ||| repository == image_ref && tag == "latest"@
                ||| repository + seq![':'] + tag == image_ref
            }
        }),
{
    image_ref.index_of_last_ensures(':');
    if let Some(i) = image_ref.index_of_last(':') {
        assert(image_ref.take(i) + seq![':'] + image_ref.skip(i + 1) =~= image_ref);
    }
}

/// A tag holds no slash and no colon, whatever the reference.
pub proof fn image_tag_is_plain(image_ref: Seq<char>)
    ensures
        !image_parts(image_ref).1.contains('/'),
        !image_parts(image_ref).1.contains(':'),
{
    reveal_strlit("latest");
    image_ref.index_of_last_ensures(':');
    if let Some(i) = image_ref.index_of_last(':') {
        let tag = image_ref.skip(i + 1);
        if tag.contains(':') {
            let j = choose|j: int| 0 <= j < tag.len() && tag[j] == ':';
            assert(image_ref[i + 1 + j] == ':');
        }
    }
}

/// A reference without a digest, once parsed, parses to the same parts again when
/// its parts are joined by a colon.
pub proof fn image_parts_stable(image_ref: Seq<char>)
    requires
        !image_ref.contains('@'),
    ensures
        ({
            let (repository, tag) = image_parts(image_ref);
            image_parts(repository + seq![':'] + tag) == (repository, tag)
        }),
{
    reveal_strlit("latest");
    let (repository, tag) = image_parts(image_ref);
    let again = repository + seq![':'] + tag;
    image_tag_is_plain(image_ref);
    image_ref.index_of_last_ensures(':');
    again.index_of_last_ensures(':');
    let at = repository.len() as int;
    assert(again[at] == ':');
    let i = again.index_of_last(':')->0;
    if i > at {
        assert(tag[i - at - 1] == ':');
    }
    assert(i == at);
    assert(again.take(at) =~= repository);
    assert(again.skip(at + 1) =~= tag);
    if again.contains('@') {
        let j = choose|j: int| 0 <= j < again.len() && again[j] == '@';
        if j < at {
            assert(repository[j] == '@');
            assert(image_ref[j] == '@');
        } else {
            assert(tag[j - at - 1] == '@');
            if let Some(k) = image_ref.index_of_last(':') {
                if !image_ref.skip(k + 1).contains('/') {
                    assert(image_ref[k + 1 + (j - at - 1)] == '@');
                }
            }
        }
    }
}

/// A tag behind a colon is parsed off, whatever the repository holds, as long as it is a tag:
/// with no colon and no slash in it, and no digest anywhere.
pub proof fn tag_is_parsed_off(repository: Seq<char>, tag: Seq<char>)
    requires
        !repository.contains('@'),
        !tag.contains('@'),
        !tag.contains(':'),
        !tag.contains('/'),
    ensures
        image_parts(repository + seq![':'] + tag) == (repository, tag),
{
    let whole = repository + seq![':'] + tag;
    let at = repository.len() as int;
    whole.index_of_last_ensures(':');
    assert(whole[at] == ':');
    let i = whole.index_of_last(':')->0;
    if i > at {
        assert(tag[i - at - 1] == ':');
    }
    assert(whole.take(at) =~= repository);
    assert(whole.skip(at + 1) =~= tag);
    if whole.contains('@') {
        let j = choose|j: int| 0 <= j < whole.len() && whole[j] == '@';
        if j < at {
            assert(repository[j] == '@');
        } else {
            assert(tag[j - at - 1] == '@');
        }
    }
}

/// A reference without a tag is its own repository with the tag `latest`: one without a colon,
/// and one whose last colon is that of a registry port, because a slash follows.
pub proof fn untagged_reference_is_latest(name: Seq<char>, registry: Seq<char>, path: Seq<char>)
    requires
        !name.contains('@'),
        !name.contains(':'),
        !registry.contains('@'),
        !path.contains('@'),
        !path.contains(':'),
        path.contains('/'),
    ensures
        image_parts(name) == (name, "latest"@),
        image_parts(registry + seq![':'] + path) == (registry + seq![':'] + path, "latest"@),
{
    name.index_of_last_ensures(':');
    let whole = registry + seq![':'] + path;
    let at = registry.len() as int;
    whole.index_of_last_ensures(':');
    assert(whole[at] == ':');
    let i = whole.index_of_last(':')->0;
    if i > at {
        assert(path[i - at - 1] == ':');
    }
    assert(whole.skip(at + 1) =~= path);
    if whole.contains('@') {
        let j = choose|j: int| 0 <= j < whole.len() && whole[j] == '@';
        if j < at {
            assert(registry[j] == '@');
        } else {
            assert(path[j - at - 1] == '@');
        }
    }
}

/// A reference with a digest is kept whole and has no tag, whatever else it holds.
pub proof fn digest_is_kept(name: Seq<char>, digest: Seq<char>)
    ensures
        image_parts(name + seq!['@'] + digest) == (name + seq!['@'] + digest, Seq::<char>::empty()),
{
    assert((name + seq!['@'] + digest)[name.len() as int] == '@');
}

/// An image reference is parsed into the repository and the tag that it was put together from.
pub proof fn reference_is_parsed_into_its_parts(
    image_ref: &str,
    repository: Seq<char>,
    tag: Seq<char>,
    parts: (String, String),
)
    requires
        call_ensures(parse_image_ref, (image_ref,), parts),
        image_ref@ == repository + seq![':'] + tag,
        !repository.contains('@'),
        !tag.contains('@'),
        !tag.contains(':'),
        !tag.contains('/'),
    ensures
        parts.0@ == repository,
        parts.1@ == tag,
{
    tag_is_parsed_off(repository, tag);
}

/// A build that sets a tag has that tag, and one that sets none has the tag `dev`.
pub proof fn build_sets_the_tag(build_tag: &str, set: &str, unset: &str)
    requires
        call_ensures(default_image_tag, (Some(build_tag),), set),
        call_ensures(default_image_tag, (None,), unset),
    ensures
        set@ == build_tag@,
        unset@ == "dev"@,
{
}

}
