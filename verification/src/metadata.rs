//! Gateway metadata and the records kept beside it.

use vstd::prelude::*;

use crate::command::{CommandOutput, CommandResult};
use crate::container_runtime::RuntimeType;
use crate::paths::{join_path, joined_path};
use crate::text::{chars_of, concat3, decimal, decimal_text, find_char, lines_of, slice_text};
use crate::text::{in_order, split_lines, strip_text_prefix, text_le, text_order, trim_text};
use crate::text::{begins_with, decimal_is_injective, trimmed_is_trim};
use crate::text::{trimmed, without_prefix};
use crate::text::{
    is_white_space, trimming_keeps_a_text_that_is_not_blank, trimming_takes_off_the_ends,
};

verus! {

/// Gateway metadata stored alongside deployment info.
#[derive(Debug, Clone)]
pub struct GatewayMetadata {
    /// The gateway name.
    pub name: String,
    /// Gateway endpoint URL (e.g., `https://127.0.0.1:8080`).
    pub gateway_endpoint: String,
    /// Whether this is a remote gateway.
    pub is_remote: bool,
    /// Host port mapped to the gateway.
    pub gateway_port: u16,
    /// For remote gateways, the SSH destination (e.g., `user@hostname`).
    pub remote_host: Option<String>,
    /// For remote gateways, the resolved hostname/IP from SSH config.
    pub resolved_host: Option<String>,
    /// Auth mode: `None` or `"mtls"` = mTLS (default), `"cloudflare_jwt"` = CF JWT.
    pub auth_mode: Option<String>,
    /// Edge proxy team/org domain (e.g., `brevlab.cloudflareaccess.com`).
    pub edge_team_domain: Option<String>,
    /// URL for triggering re-authentication in the browser.
    pub edge_auth_url: Option<String>,
    /// The container runtime used for this gateway.
    pub runtime_type: RuntimeType,
}

/// The runtime of a gateway whose stored metadata names none.
pub fn default_runtime_type() -> (runtime_type: RuntimeType)
    ensures
        runtime_type == RuntimeType::AppleContainer,
{
    RuntimeType::AppleContainer
}

/// The endpoint URL `scheme://host:port`, with the scheme `http` where TLS is
/// disabled and `https` otherwise.
pub open spec fn endpoint_url(host: Seq<char>, port: u16, disable_tls: bool) -> Seq<char> {
    (if disable_tls {
        "http"@
    } else {
        "https"@
    }) + "://"@ + host + ":"@ + decimal(port as nat)
}

/// The host that a gateway is reached at: the given one, or the local host.
pub open spec fn gateway_host_or_local(gateway_host: Option<Seq<char>>) -> Seq<char> {
    match gateway_host {
        Some(host) => host,
        None => "127.0.0.1"@,
    }
}

/// Whether `metadata` describes a local gateway with this name, port and endpoint, and
/// with nothing else set.
pub open spec fn describes_local_gateway(
    metadata: GatewayMetadata,
    name: Seq<char>,
    port: u16,
    endpoint: Seq<char>,
) -> bool {
    &&& metadata.name@ == name
    &&& metadata.gateway_endpoint@ == endpoint
    &&& !metadata.is_remote
    &&& metadata.gateway_port == port
    &&& metadata.remote_host is None
    &&& metadata.resolved_host is None
    &&& metadata.auth_mode is None
    &&& metadata.edge_team_domain is None
    &&& metadata.edge_auth_url is None
    &&& metadata.runtime_type == RuntimeType::AppleContainer
}

/// Create the metadata of a local gateway that serves TLS.
pub fn create_gateway_metadata(name: &str, port: u16) -> (metadata: GatewayMetadata)
    ensures
        describes_local_gateway(
            metadata,
            name@,
            port,
            endpoint_url("127.0.0.1"@, port, false),
        ),
{
    create_gateway_metadata_with_host(name, port, None, false)
}

/// Create gateway metadata, optionally overriding the gateway host.
///
/// When `gateway_host` is `Some`, that value is used as the host portion of
/// `gateway_endpoint` instead of the default (`127.0.0.1`).
///
/// When `disable_tls` is `true`, the gateway endpoint uses the `http://`
/// scheme instead of `https://`.  This must match the server configuration
/// so that the CLI connects with the correct protocol.
pub fn create_gateway_metadata_with_host(
    name: &str,
    port: u16,
    gateway_host: Option<&str>,
    disable_tls: bool,
) -> (metadata: GatewayMetadata)
    ensures
        describes_local_gateway(
            metadata,
            name@,
            port,
            endpoint_url(gateway_host_or_local(gateway_host.deep_view()), port, disable_tls),
        ),
{
    let scheme = if disable_tls {
        "http"
    } else {
        "https"
    };
    let host = match gateway_host {
        Some(host) => String::from(host),
        None => match local_gateway_host() {
            Some(host) => host,
            None => "127.0.0.1".to_string(),
        },
    };
    let mut gateway_endpoint = concat3(scheme, "://", host.as_str());
    gateway_endpoint.append(":");
    gateway_endpoint.append(decimal_text(port as u64).as_str());
    GatewayMetadata {
        name: name.to_string(),
        gateway_endpoint,
        is_remote: false,
        gateway_port: port,
        remote_host: None,
        resolved_host: None,
        auth_mode: None,
        edge_team_domain: None,
        edge_auth_url: None,
        runtime_type: RuntimeType::AppleContainer,
    }
}

/// The host that the gateway runs on, where it is not this one. Gateways are always
/// local, so there is none.
pub fn local_gateway_host() -> (host: Option<String>)
    ensures
        host is None,
{
    None
}

/// The path of the stored metadata of a gateway, below the directory of all gateways.
pub fn stored_metadata_path(gateways_dir: &str, name: &str) -> (path: String)
    ensures
        path@ == joined_path(joined_path(gateways_dir@, name@), "metadata.json"@),
{
    join_path(join_path(gateways_dir, name).as_str(), "metadata.json")
}

/// The host of an SSH destination: the destination without the scheme `ssh://`, and
/// without what stands up to the first `@`.
pub open spec fn ssh_host(destination: Seq<char>) -> Seq<char> {
    let rest = match without_prefix(destination, "ssh://"@) {
        Some(rest) => rest,
        None => destination,
    };
    match rest.index_of_first('@') {
        Some(at) => rest.skip(at + 1),
        None => rest,
    }
}

/// Extract the hostname from an SSH destination string.
///
/// Handles formats like:
/// - `user@hostname` -> `hostname`
/// - `ssh://user@hostname` -> `hostname`
/// - `hostname` -> `hostname`
pub fn extract_host_from_ssh_destination(destination: &str) -> (host: String)
    ensures
        host@ == ssh_host(destination@),
{
    let dest = match strip_text_prefix(destination, "ssh://") {
        Some(rest) => rest,
        None => destination.to_string(),
    };
    let chars = chars_of(dest.as_str());
    match find_char(&chars, '@') {
        Some(at) => {
            assert(chars@.subrange(at + 1, chars@.len() as int) =~= chars@.skip(at + 1));
            slice_text(&chars, at + 1, chars.len())
        },
        None => dest,
    }
}

/// The host name that one line of `ssh -G` gives: what follows `hostname `, without
/// white space around it, where anything is left.
pub open spec fn hostname_on_line(line: Seq<char>) -> Option<Seq<char>> {
    match without_prefix(line, "hostname "@) {
        Some(value) => if trimmed(value).len() > 0 {
            Some(trimmed(value))
        } else {
            None
        },
        None => None,
    }
}

/// The host name that the first line to give one gives.
pub open spec fn first_hostname(lines: Seq<Seq<char>>) -> Option<Seq<char>>
    decreases lines.len(),
{
    if lines.len() == 0 {
        None
    } else {
        match hostname_on_line(lines.first()) {
            Some(name) => Some(name),
            None => first_hostname(lines.drop_first()),
        }
    }
}

/// The host that an SSH alias stands for: the host name in the output of `ssh -G`,
/// or the alias itself where the command failed or gave none.
pub open spec fn resolved_hostname(host: Seq<char>, output: CommandResult) -> Seq<char> {
    match output {
        Ok(out) => if out.success {
            match first_hostname(lines_of(out.stdout@)) {
                Some(name) => name,
                None => host,
            }
        } else {
            host
        },
        Err(_) => host,
    }
}

/// Resolve an SSH host alias to the actual hostname or IP address.
///
/// `output` is what `ssh -G <host>` left, which queries the effective SSH
/// configuration. Falls back to `host` if the command failed.
pub fn resolve_ssh_hostname(host: &str, output: &CommandResult) -> (resolved: String)
    ensures
        resolved@ == resolved_hostname(host@, *output),
{
    match output {
        Ok(result) => {
            if !result.success {
                return host.to_string();
            }
            let lines = split_lines(result.stdout.as_str());
            let mut i: usize = 0;
            assert(lines.deep_view().skip(0) =~= lines.deep_view());
            while i < lines.len()
                invariant
                    i <= lines.len(),
                    first_hostname(lines.deep_view().skip(i as int)) == first_hostname(
                        lines.deep_view(),
                    ),
                    lines.deep_view() == lines_of(result.stdout@),
                    result.success,
                    *output == Ok::<_, String>(*result),
                decreases lines.len() - i,
            {
                proof {
                    let rest = lines.deep_view().skip(i as int);
                    assert(rest.first() == lines@[i as int]@);
                    assert(rest.drop_first() =~= lines.deep_view().skip(i + 1));
                }
                if let Some(value) = strip_text_prefix(lines[i].as_str(), "hostname ") {
                    let resolved = trim_text(value.as_str());
                    if !resolved.as_str().is_empty() {
                        return resolved;
                    }
                }
                i = i + 1;
            }
            host.to_string()
        },
        Err(_) => host.to_string(),
    }
}

// ---------------------------------------------------------------------------
// Stored records
// ---------------------------------------------------------------------------

/// Load gateway metadata if available: `loaded` is the stored metadata, or the error
/// for which it could not be read.
pub fn get_gateway_metadata(loaded: Result<GatewayMetadata, String>) -> (metadata: Option<
    GatewayMetadata,
>)
    ensures
        metadata == (match loaded {
            Ok(stored) => Some(stored),
            Err(_) => None,
        }),
{
    loaded.ok()
}

/// The name that a record file holds: its contents without white space around them,
/// where anything is left. `contents` is `None` where there is no file to read.
pub open spec fn recorded_name(contents: Option<Seq<char>>) -> Option<Seq<char>> {
    match contents {
        Some(text) => if trimmed(text).len() > 0 {
            Some(trimmed(text))
        } else {
            None
        },
        None => None,
    }
}

fn read_record(contents: Option<&str>) -> (name: Option<String>)
    ensures
        name.deep_view() == recorded_name(contents.deep_view()),
{
    match contents {
        Some(text) => {
            let name = trim_text(text);
            if name.as_str().is_empty() {
                None
            } else {
                Some(name)
            }
        },
        None => None,
    }
}

/// What the record of the active gateway holds once `name` is saved: the name as it is.
pub fn save_active_gateway(name: &str) -> (contents: String)
    ensures
        contents@ == name@,
{
    name.to_string()
}

/// What the record of the last-used sandbox of a gateway holds once `sandbox` is saved: the
/// name as it is.
pub fn save_last_sandbox(sandbox: &str) -> (contents: String)
    ensures
        contents@ == sandbox@,
{
    sandbox.to_string()
}

/// The active gateway name, from the contents of its record.
///
/// Returns `None` if no active gateway has been set.
pub fn load_active_gateway(contents: Option<&str>) -> (name: Option<String>)
    ensures
        name.deep_view() == recorded_name(contents.deep_view()),
{
    read_record(contents)
}

/// The last-used sandbox name of a gateway, from the contents of its record.
///
/// Returns `None` if no last sandbox has been set.
pub fn load_last_sandbox(contents: Option<&str>) -> (name: Option<String>)
    ensures
        name.deep_view() == recorded_name(contents.deep_view()),
{
    read_record(contents)
}

/// Whether the last-used sandbox record of a gateway is to be removed, because it
/// names the given sandbox.
///
/// This should be asked after a sandbox is deleted so that subsequent commands
/// don't try to connect to a sandbox that no longer exists.
pub fn clear_last_sandbox_if_matches(contents: Option<&str>, sandbox: &str) -> (remove: bool)
    ensures
        remove == (recorded_name(contents.deep_view()) == Some(sandbox@)),
{
    match load_last_sandbox(contents) {
        Some(current) => {
            let same = current == sandbox.to_string();
            same
        },
        None => false,
    }
}

// ---------------------------------------------------------------------------
// Listing
// ---------------------------------------------------------------------------

/// The metadata that could be loaded, in order.
pub open spec fn loaded_only(entries: Seq<Option<GatewayMetadata>>) -> Seq<GatewayMetadata>
    decreases entries.len(),
{
    if entries.len() == 0 {
        Seq::empty()
    } else {
        match entries.first() {
            Some(metadata) => seq![metadata] + loaded_only(entries.drop_first()),
            None => loaded_only(entries.drop_first()),
        }
    }
}

/// The entries with a given gateway name, in order.
pub open spec fn named(gateways: Seq<GatewayMetadata>, name: Seq<char>) -> Seq<GatewayMetadata> {
    gateways.filter(|metadata: GatewayMetadata| metadata.name@ == name)
}

/// Whether names never go down from one entry to a later one.
pub open spec fn sorted_by_name(gateways: Seq<GatewayMetadata>) -> bool {
    forall|i: int, j: int|
        0 <= i < j < gateways.len() ==> text_le(#[trigger] gateways[i].name@, #[trigger] gateways[j].name@)
}

/// Whether `listed` holds the entries of `found` in the order of their names, with
/// those of one name in the order in which they were found.
pub open spec fn lists(listed: Seq<GatewayMetadata>, found: Seq<GatewayMetadata>) -> bool {
    &&& listed.len() == found.len()
    &&& sorted_by_name(listed)
    &&& forall|name: Seq<char>| #[trigger] named(listed, name) == named(found, name)
}

proof fn lemma_lists_insert(
    listed: Seq<GatewayMetadata>,
    found: Seq<GatewayMetadata>,
    at: int,
    metadata: GatewayMetadata,
)
    requires
        lists(listed, found),
        0 <= at <= listed.len(),
        forall|i: int| 0 <= i < at ==> !text_le(metadata.name@, #[trigger] listed[i].name@),
        at < listed.len() ==> text_le(metadata.name@, listed[at].name@),
    ensures
        lists(listed.insert(at, metadata), seq![metadata] + found),
{
    broadcast use {Seq::filter_distributes_over_add, vstd::seq_lib::group_filter_ensures};

    let longer = listed.insert(at, metadata);
    let before = listed.take(at);
    let after = listed.skip(at);
    assert(longer =~= before + seq![metadata] + after);
    assert(listed =~= before + after);
    assert forall|i: int, j: int| 0 <= i < j < longer.len() implies text_le(
        #[trigger] longer[i].name@,
        #[trigger] longer[j].name@,
    ) by {
        if i < at {
            text_order(listed[i].name@, metadata.name@, metadata.name@);
            if j > at {
                assert(text_le(listed[i].name@, listed[j - 1].name@));
            } else if j < at {
                assert(text_le(listed[i].name@, listed[j].name@));
            }
        } else if i == at {
            text_order(metadata.name@, listed[at].name@, listed[j - 1].name@);
            if j - 1 > at {
                assert(text_le(listed[at].name@, listed[j - 1].name@));
            }
        } else {
            assert(text_le(listed[i - 1].name@, listed[j - 1].name@));
        }
    }
    assert forall|name: Seq<char>| #[trigger]
        named(longer, name) == named(seq![metadata] + found, name) by {
        let pick = |m: GatewayMetadata| m.name@ == name;
        assert(named(listed, name) == named(found, name));
        if metadata.name@ == name {
            if before.filter(pick).len() > 0 {
                let first = before.filter(pick)[0];
                assert(pick(first));
                before.lemma_filter_contains_rev(pick, first);
                let k = choose|k: int| 0 <= k < before.len() && before[k] == first;
                assert(listed[k].name@ == name);
                text_order(name, name, name);
            }
            assert(before.filter(pick) =~= Seq::empty());
        } else {
            reveal_with_fuel(Seq::<GatewayMetadata>::filter, 2);
            assert(seq![metadata].drop_last() =~= Seq::empty());
            assert(seq![metadata].filter(pick) =~= Seq::empty());
        }
        assert(named(longer, name) =~= seq![metadata].filter(pick) + named(listed, name));
    }
}

/// The gateways of which metadata could be loaded, sorted by name for stable output.
///
/// `entries` holds what was found in each gateway directory, and `None` for one whose
/// metadata could not be loaded.
pub fn list_gateways(mut entries: Vec<Option<GatewayMetadata>>) -> (gateways: Vec<GatewayMetadata>)
    ensures
        lists(gateways@, loaded_only(entries@)),
{
    let ghost all = entries@;
    let mut gateways: Vec<GatewayMetadata> = Vec::new();
    assert(all.skip(all.len() as int) =~= Seq::empty());
    while entries.len() > 0
        invariant
            entries.len() <= all.len(),
            entries@ == all.take(entries.len() as int),
            lists(gateways@, loaded_only(all.skip(entries.len() as int))),
        decreases entries.len(),
    {
        let ghost n = entries.len() as int;
        let entry = entries.pop();
        proof {
            let rest = all.skip(n - 1);
            assert(rest.drop_first() =~= all.skip(n));
            assert(rest.first() == all[n - 1]);
        }
        if let Some(Some(metadata)) = entry {
            let mut at: usize = 0;
            while at < gateways.len() && !in_order(
                metadata.name.as_str(),
                gateways[at].name.as_str(),
            )
                invariant
                    at <= gateways.len(),
                    forall|i: int|
                        0 <= i < at ==> !text_le(metadata.name@, #[trigger] gateways@[i].name@),
                decreases gateways.len() - at,
            {
                at = at + 1;
            }
            proof {
                lemma_lists_insert(gateways@, loaded_only(all.skip(n)), at as int, metadata);
            }
            gateways.insert(at, metadata);
        }
    }
    assert(all.skip(0) =~= all);
    gateways
}

// ---------------------------------------------------------------------------
// Laws
// ---------------------------------------------------------------------------

/// A name that was saved is loaded again, unless it is empty or has white space around it.
pub proof fn saved_name_loads_back(name: Seq<char>)
    requires
        name.len() > 0,
        trimmed(name) == name,
    ensures
        recorded_name(Some(name)) == Some(name),
{
}

/// White space around a saved name does not matter: a name that is loaded is never empty
/// and has none, and is loaded as itself once it is saved.
pub proof fn loaded_name_is_clean(contents: Seq<char>)
    ensures
        recorded_name(Some(contents)) matches Some(name) ==> name.len() > 0 && trimmed(name)
            == name && recorded_name(Some(name)) == Some(name),
{
    trimmed_is_trim(contents);
}

/// The scheme of an SSH destination does not matter, unless what follows it has a scheme
/// again and no user.
pub proof fn ssh_scheme_does_not_matter(destination: Seq<char>)
    requires
        !begins_with(destination, "ssh://"@) || destination.contains('@'),
    ensures
        ssh_host("ssh://"@ + destination) == ssh_host(destination),
{
    let scheme = "ssh://"@;
    let whole = scheme + destination;
    assert(whole.subrange(0, scheme.len() as int) =~= scheme);
    assert(whole.skip(scheme.len() as int) =~= destination);
    if begins_with(destination, scheme) {
        let at = destination.index_of_first('@')->0;
        destination.index_of_first_ensures('@');
        assert(destination =~= destination.take(at) + seq!['@'] + destination.skip(at + 1));
        if destination.take(at).contains('@') {
            let j = choose|j: int| 0 <= j < at && destination.take(at)[j] == '@';
            assert(destination[j] == '@');
        }
        ssh_user_does_not_matter(destination.take(at), destination.skip(at + 1));
    }
}

/// The user of an SSH destination does not matter, whatever the host holds.
pub proof fn ssh_user_does_not_matter(user: Seq<char>, host: Seq<char>)
    requires
        !user.contains('@'),
    ensures
        ssh_host(user + seq!['@'] + host) == host,
{
    let scheme = "ssh://"@;
    let destination = user + seq!['@'] + host;
    if begins_with(destination, scheme) {
        reveal_strlit("ssh://");
        let n = scheme.len() as int;
        if user.len() < n {
            assert(destination.subrange(0, n)[user.len() as int] == '@');
        }
        let rest = user.skip(n);
        assert(destination.skip(n) =~= rest + seq!['@'] + host);
        if rest.contains('@') {
            let j = choose|j: int| 0 <= j < rest.len() && rest[j] == '@';
            assert(user[n + j] == '@');
        }
        lemma_behind_the_user(rest, host);
    } else {
        lemma_behind_the_user(user, host);
    }
}

proof fn lemma_behind_the_user(user: Seq<char>, host: Seq<char>)
    requires
        !user.contains('@'),
    ensures
        ({
            let destination = user + seq!['@'] + host;
            &&& destination.index_of_first('@') == Some(user.len() as int)
            &&& destination.skip(user.len() as int + 1) == host
        }),
{
    let destination = user + seq!['@'] + host;
    let at = user.len() as int;
    destination.index_of_first_ensures('@');
    assert(destination[at] == '@');
    let i = destination.index_of_first('@')->0;
    if i < at {
        assert(user[i] == '@');
    }
    assert(destination.skip(at + 1) =~= host);
}

/// The endpoint tells whether TLS is used.
pub proof fn endpoint_tells_the_scheme(host: Seq<char>, port: u16, disable_tls: bool)
    ensures
        begins_with(endpoint_url(host, port, disable_tls), "http://"@) <==> disable_tls,
        begins_with(endpoint_url(host, port, disable_tls), "https://"@) <==> !disable_tls,
{
    reveal_strlit("http");
    reveal_strlit("https");
    reveal_strlit("://");
    reveal_strlit("http://");
    reveal_strlit("https://");
    let url = endpoint_url(host, port, disable_tls);
    if disable_tls {
        assert(url.subrange(0, 7) =~= "http://"@);
        assert(url[4] == ':');
        assert("https://"@[4] == 's');
        if begins_with(url, "https://"@) {
            assert(url.subrange(0, 8)[4] == url[4]);
        }
    } else {
        assert(url.subrange(0, 8) =~= "https://"@);
        assert(url[4] == 's');
        assert("http://"@[4] == ':');
        if begins_with(url, "http://"@) {
            assert(url.subrange(0, 7)[4] == url[4]);
        }
    }
}

/// Gateways on different ports of a host have different endpoints.
pub proof fn endpoints_tell_ports_apart(
    host: Seq<char>,
    one: u16,
    other: u16,
    disable_tls: bool,
)
    requires
        endpoint_url(host, one, disable_tls) == endpoint_url(host, other, disable_tls),
    ensures
        one == other,
{
    let scheme = if disable_tls {
        "http"@
    } else {
        "https"@
    };
    let before = scheme + "://"@ + host + ":"@;
    let n = before.len() as int;
    assert(endpoint_url(host, one, disable_tls).skip(n) =~= decimal(one as nat));
    assert(endpoint_url(host, other, disable_tls).skip(n) =~= decimal(other as nat));
    decimal_is_injective(one as nat, other as nat);
}

proof fn lemma_same_names_same_list(one: Seq<GatewayMetadata>, other: Seq<GatewayMetadata>)
    requires
        one.len() == other.len(),
        sorted_by_name(one),
        sorted_by_name(other),
        forall|name: Seq<char>| #[trigger] named(one, name) == named(other, name),
    ensures
        one == other,
    decreases one.len(),
{
    if one.len() == 0 {
        assert(one =~= other);
    } else {
        reveal_with_fuel(Seq::<GatewayMetadata>::filter, 2);
        let a = one.last();
        let b = other.last();
        lemma_last_is_greatest(one, other);
        lemma_last_is_greatest(other, one);
        text_order(a.name@, b.name@, a.name@);
        assert(a.name@ == b.name@);
        assert(named(one, a.name@).last() == a);
        assert(named(other, a.name@).last() == b);
        let shorter = one.drop_last();
        let shorter_other = other.drop_last();
        assert forall|name: Seq<char>| #[trigger]
            named(shorter, name) == named(shorter_other, name) by {
            assert(named(one, name) == named(other, name));
            if name == a.name@ {
                assert(named(one, name).drop_last() =~= named(shorter, name));
                assert(named(other, name).drop_last() =~= named(shorter_other, name));
            } else {
                assert(named(one, name) =~= named(shorter, name));
                assert(named(other, name) =~= named(shorter_other, name));
            }
        }
        lemma_same_names_same_list(shorter, shorter_other);
        assert(one =~= shorter.push(a));
        assert(other =~= shorter_other.push(b));
    }
}

proof fn lemma_last_is_greatest(one: Seq<GatewayMetadata>, other: Seq<GatewayMetadata>)
    requires
        one.len() > 0,
        other.len() > 0,
        sorted_by_name(other),
        forall|name: Seq<char>| #[trigger] named(one, name) == named(other, name),
    ensures
        text_le(one.last().name@, other.last().name@),
{
    broadcast use vstd::seq_lib::group_filter_ensures;

    let a = one.last();
    let pick = |m: GatewayMetadata| m.name@ == a.name@;
    assert(named(one, a.name@).last() == a) by {
        reveal_with_fuel(Seq::<GatewayMetadata>::filter, 2);
    }
    assert(named(other, a.name@).contains(a)) by {
        assert(named(one, a.name@)[named(one, a.name@).len() - 1] == a);
    }
    other.lemma_filter_contains_rev(pick, a);
    let k = choose|k: int| 0 <= k < other.len() && other[k] == a;
    text_order(a.name@, a.name@, a.name@);
    if k < other.len() - 1 {
        assert(text_le(other[k].name@, other[other.len() - 1].name@));
    }
}

/// What was found determines the list: there is one way to list it.
pub proof fn listing_is_determined(
    one: Seq<GatewayMetadata>,
    other: Seq<GatewayMetadata>,
    found: Seq<GatewayMetadata>,
)
    requires
        lists(one, found),
        lists(other, found),
    ensures
        one == other,
{
    assert forall|name: Seq<char>| #[trigger] named(one, name) == named(other, name) by {
        assert(named(one, name) == named(found, name));
        assert(named(other, name) == named(found, name));
    }
    lemma_same_names_same_list(one, other);
}

/// The output is stable: listing what was listed changes nothing.
pub proof fn listing_is_stable(
    listed: Seq<GatewayMetadata>,
    found: Seq<GatewayMetadata>,
    again: Seq<GatewayMetadata>,
)
    requires
        lists(listed, found),
        lists(again, listed),
    ensures
        again == listed,
{
    assert(lists(listed, listed));
    listing_is_determined(again, listed, listed);
}

/// The endpoint of a gateway is its scheme, its host and its port, and nothing else. The host
/// is the local one where none is given.
pub proof fn endpoint_is_scheme_host_and_port(host: Seq<char>, port: u16)
    ensures
        endpoint_url(host, port, true) == "http://"@ + host + ":"@ + decimal(port as nat),
        endpoint_url(host, port, false) == "https://"@ + host + ":"@ + decimal(port as nat),
        gateway_host_or_local(Some(host)) == host,
        gateway_host_or_local(None) == "127.0.0.1"@,
{
    reveal_strlit("http");
    reveal_strlit("https");
    reveal_strlit("://");
    reveal_strlit("http://");
    reveal_strlit("https://");
    assert("http"@ + "://"@ =~= "http://"@);
    assert("https"@ + "://"@ =~= "https://"@);
}

/// The metadata of a local gateway names it, its port and its endpoint, and says of everything
/// else that it is not there.
pub proof fn local_metadata_says_no_more(
    metadata: GatewayMetadata,
    name: Seq<char>,
    port: u16,
    endpoint: Seq<char>,
)
    requires
        describes_local_gateway(metadata, name, port, endpoint),
    ensures
        metadata.name@ == name,
        metadata.gateway_port == port,
        metadata.gateway_endpoint@ == endpoint,
        !metadata.is_remote,
        metadata.remote_host is None,
        metadata.resolved_host is None,
        metadata.auth_mode is None,
        metadata.edge_team_domain is None,
        metadata.edge_auth_url is None,
        metadata.runtime_type == RuntimeType::AppleContainer,
{
}

/// A destination that is a host alone is that host, with or without the scheme.
pub proof fn plain_host_is_kept(host: Seq<char>)
    requires
        !host.contains('@'),
        !begins_with(host, "ssh://"@),
    ensures
        ssh_host(host) == host,
        ssh_host("ssh://"@ + host) == host,
{
    host.index_of_first_ensures('@');
    ssh_scheme_does_not_matter(host);
}

/// With a scheme and a user, a destination is still its host.
pub proof fn host_stands_behind_scheme_and_user(user: Seq<char>, host: Seq<char>)
    requires
        !user.contains('@'),
    ensures
        ssh_host("ssh://"@ + user + seq!['@'] + host) == host,
        ssh_host(user + seq!['@'] + host) == host,
{
    let destination = user + seq!['@'] + host;
    ssh_user_does_not_matter(user, host);
    assert(destination[user.len() as int] == '@');
    ssh_scheme_does_not_matter(destination);
    assert("ssh://"@ + user + seq!['@'] + host =~= "ssh://"@ + destination);
}

/// Whether a line of `ssh -G` gives a host name.
pub open spec fn gives_a_hostname(line: Seq<char>) -> bool {
    begins_with(line, "hostname "@) && exists|k: int|
        9 <= k < line.len() && !is_white_space(#[trigger] line[k])
}

proof fn lemma_hostname_on_line(line: Seq<char>)
    ensures
        hostname_on_line(line) is Some <==> gives_a_hostname(line),
        gives_a_hostname(line) ==> hostname_on_line(line) == Some(trimmed(line.skip(9))),
{
    reveal_strlit("hostname ");
    if begins_with(line, "hostname "@) {
        let value = line.skip(9);
        if gives_a_hostname(line) {
            let k = choose|k: int| 9 <= k < line.len() && !is_white_space(#[trigger] line[k]);
            assert(value[k - 9] == line[k]);
            trimming_keeps_a_text_that_is_not_blank(value, k - 9);
        } else {
            assert forall|i: int| 0 <= i < value.len() implies is_white_space(
                #[trigger] value[i],
            ) by {
                assert(value[i] == line[i + 9]);
            }
            trimming_takes_off_the_ends(value, Seq::empty(), Seq::empty());
            assert(value + Seq::<char>::empty() + Seq::<char>::empty() =~= value);
        }
    }
}

proof fn lemma_first_hostname(lines: Seq<Seq<char>>, i: int)
    requires
        0 <= i <= lines.len(),
        i < lines.len() ==> gives_a_hostname(lines[i]),
        forall|j: int| 0 <= j < i ==> !gives_a_hostname(#[trigger] lines[j]),
    ensures
        i < lines.len() ==> first_hostname(lines) == Some(trimmed(lines[i].skip(9))),
        i == lines.len() ==> first_hostname(lines) is None,
    decreases lines.len(),
{
    if lines.len() > 0 {
        lemma_hostname_on_line(lines[0]);
        assert(lines.first() == lines[0]);
        if i > 0 {
            assert(!gives_a_hostname(lines[0]));
            let rest = lines.drop_first();
            assert forall|j: int| 0 <= j < i - 1 implies !gives_a_hostname(#[trigger] rest[j]) by {
                assert(rest[j] == lines[j + 1]);
            }
            if i < lines.len() {
                assert(rest[i - 1] == lines[i]);
            }
            lemma_first_hostname(rest, i - 1);
        }
    }
}

/// An alias is resolved to what stands, without white space around it, behind `hostname ` on
/// the first line of `ssh -G` on which anything does. Where the command could not be run, or
/// failed, or gives no host name, the alias stands for itself.
pub proof fn alias_is_resolved_by_the_first_hostname(
    host: Seq<char>,
    out: CommandOutput,
    error: String,
    i: int,
)
    requires
        0 <= i <= lines_of(out.stdout@).len(),
        i < lines_of(out.stdout@).len() ==> gives_a_hostname(lines_of(out.stdout@)[i]),
        forall|j: int| 0 <= j < i ==> !gives_a_hostname(#[trigger] lines_of(out.stdout@)[j]),
    ensures
        out.success && i < lines_of(out.stdout@).len() ==> resolved_hostname(host, Ok(out))
            == trimmed(lines_of(out.stdout@)[i].skip(9)),
        out.success && i == lines_of(out.stdout@).len() ==> resolved_hostname(host, Ok(out))
            == host,
        !out.success ==> resolved_hostname(host, Ok(out)) == host,
        resolved_hostname(host, Err(error)) == host,
{
    lemma_first_hostname(lines_of(out.stdout@), i);
}

/// A record names what it holds between white space, and names nothing where that is nothing or
/// where there is no record.
pub proof fn record_names_what_it_holds(before: Seq<char>, name: Seq<char>, after: Seq<char>)
    requires
        forall|k: int| 0 <= k < before.len() ==> is_white_space(#[trigger] before[k]),
        forall|k: int| 0 <= k < after.len() ==> is_white_space(#[trigger] after[k]),
        name.len() > 0 ==> !is_white_space(name.first()) && !is_white_space(name.last()),
    ensures
        name.len() > 0 ==> recorded_name(Some(before + name + after)) == Some(name),
        name.len() == 0 ==> recorded_name(Some(before + name + after)) is None,
        recorded_name(None) is None,
{
    trimming_takes_off_the_ends(before, name, after);
}

/// Of what was found, only what could not be loaded is left out, and the rest keeps its order.
pub proof fn only_unreadable_entries_are_left_out(
    metadata: GatewayMetadata,
    entries: Seq<Option<GatewayMetadata>>,
    more: Seq<Option<GatewayMetadata>>,
)
    ensures
        loaded_only(Seq::empty()) == Seq::<GatewayMetadata>::empty(),
        loaded_only(seq![Some(metadata)]) == seq![metadata],
        loaded_only(seq![None]) == Seq::<GatewayMetadata>::empty(),
        loaded_only(entries + more) == loaded_only(entries) + loaded_only(more),
    decreases entries.len(),
{
    assert(seq![Some(metadata)].drop_first() =~= Seq::empty());
    assert(seq![None::<GatewayMetadata>].drop_first() =~= Seq::empty());
    assert(loaded_only(Seq::empty()) =~= Seq::<GatewayMetadata>::empty());
    assert(loaded_only(seq![Some(metadata)]) =~= seq![metadata]);
    if entries.len() > 0 {
        only_unreadable_entries_are_left_out(metadata, entries.drop_first(), more);
        assert((entries + more).drop_first() =~= entries.drop_first() + more);
        assert((entries + more).first() == entries.first());
        assert(loaded_only(entries + more) =~= loaded_only(entries) + loaded_only(more));
    } else {
        assert(entries + more =~= more);
        assert(loaded_only(entries + more) =~= loaded_only(entries) + loaded_only(more));
    }
}

/// Every gateway that was found is listed and no other is, names go up, and gateways of one
/// name stay in the order in which they were found.
pub proof fn every_found_gateway_is_listed(
    listed: Seq<GatewayMetadata>,
    found: Seq<GatewayMetadata>,
    metadata: GatewayMetadata,
    i: int,
    j: int,
)
    requires
        lists(listed, found),
    ensures
        listed.len() == found.len(),
        listed.contains(metadata) <==> found.contains(metadata),
        0 <= i < j < listed.len() ==> text_le(listed[i].name@, listed[j].name@),
        listed.filter(|m: GatewayMetadata| m.name@ == metadata.name@) == found.filter(
            |m: GatewayMetadata| m.name@ == metadata.name@,
        ),
{
    broadcast use vstd::seq_lib::group_filter_ensures;

    let pick = |m: GatewayMetadata| m.name@ == metadata.name@;
    assert(named(listed, metadata.name@) == named(found, metadata.name@));
    assert(listed.filter(pick) == named(listed, metadata.name@));
    assert(found.filter(pick) == named(found, metadata.name@));
    if listed.contains(metadata) {
        let k = choose|k: int| 0 <= k < listed.len() && listed[k] == metadata;
        assert(pick(listed[k]));
        assert(listed.filter(pick).contains(listed[k]));
        found.lemma_filter_contains_rev(pick, metadata);
    }
    if found.contains(metadata) {
        let k = choose|k: int| 0 <= k < found.len() && found[k] == metadata;
        assert(pick(found[k]));
        assert(found.filter(pick).contains(found[k]));
        listed.lemma_filter_contains_rev(pick, metadata);
    }
}

/// A gateway or sandbox that was saved is loaded back by its name, unless the name is empty or
/// has white space around it.
pub proof fn saved_record_loads_back(
    name: &str,
    gateway_record: String,
    sandbox_record: String,
    gateway_file: &str,
    sandbox_file: &str,
    gateway: Option<String>,
    sandbox: Option<String>,
)
    requires
        name@.len() > 0,
        !is_white_space(name@.first()),
        !is_white_space(name@.last()),
        call_ensures(save_active_gateway, (name,), gateway_record),
        call_ensures(save_last_sandbox, (name,), sandbox_record),
        gateway_file@ == gateway_record@,
        sandbox_file@ == sandbox_record@,
        call_ensures(load_active_gateway, (Some(gateway_file),), gateway),
        call_ensures(load_last_sandbox, (Some(sandbox_file),), sandbox),
    ensures
        gateway matches Some(loaded) && loaded@ == name@,
        sandbox matches Some(loaded) && loaded@ == name@,
{
    record_names_what_it_holds(Seq::empty(), name@, Seq::empty());
    assert(Seq::<char>::empty() + name@ + Seq::<char>::empty() =~= name@);
}

/// The record of the last sandbox is cleared exactly where it names the sandbox that is gone.
pub proof fn record_is_cleared_of_its_own_sandbox(
    contents: Option<&str>,
    sandbox: &str,
    last: Option<String>,
    remove: bool,
)
    requires
        call_ensures(load_last_sandbox, (contents,), last),
        call_ensures(clear_last_sandbox_if_matches, (contents, sandbox), remove),
    ensures
        remove <==> (last matches Some(name) && name@ == sandbox@),
{
}

/// The metadata that is created says where its gateway is reached: at the host that is given,
/// or the local one, at its port, and with the scheme that its server speaks.
pub proof fn created_metadata_says_where_the_gateway_is(
    name: &str,
    port: u16,
    gateway_host: Option<&str>,
    disable_tls: bool,
    metadata: GatewayMetadata,
    local: GatewayMetadata,
)
    requires
        call_ensures(
            create_gateway_metadata_with_host,
            (name, port, gateway_host, disable_tls),
            metadata,
        ),
        call_ensures(create_gateway_metadata, (name, port), local),
    ensures
        metadata.name@ == name@,
        metadata.gateway_port == port,
        !metadata.is_remote,
        metadata.gateway_endpoint@ == (if disable_tls {
            "http://"@
        } else {
            "https://"@
        }) + (match gateway_host {
            Some(host) => host@,
            None => "127.0.0.1"@,
        }) + ":"@ + decimal(port as nat),
        local.name@ == name@,
        local.gateway_port == port,
        local.gateway_endpoint@ == "https://"@ + "127.0.0.1"@ + ":"@ + decimal(port as nat),
{
    endpoint_is_scheme_host_and_port("127.0.0.1"@, port);
    if let Some(host) = gateway_host {
        endpoint_is_scheme_host_and_port(host@, port);
    }
}

/// Every gateway whose metadata could be loaded is listed, and no other, in the order of their
/// names.
pub proof fn loaded_gateways_are_listed(
    entries: Vec<Option<GatewayMetadata>>,
    gateways: Vec<GatewayMetadata>,
    metadata: GatewayMetadata,
    i: int,
    j: int,
)
    requires
        call_ensures(list_gateways, (entries,), gateways),
    ensures
        gateways@.contains(metadata) <==> entries@.contains(Some(metadata)),
        0 <= i < j < gateways@.len() ==> text_le(gateways@[i].name@, gateways@[j].name@),
{
    every_found_gateway_is_listed(gateways@, loaded_only(entries@), metadata, i, j);
    lemma_loaded_only_contains(entries@, metadata);
}

proof fn lemma_loaded_only_contains(
    entries: Seq<Option<GatewayMetadata>>,
    metadata: GatewayMetadata,
)
    ensures
        loaded_only(entries).contains(metadata) <==> entries.contains(Some(metadata)),
    decreases entries.len(),
{
    if entries.len() > 0 {
        let rest = entries.drop_first();
        lemma_loaded_only_contains(rest, metadata);
        if entries.contains(Some(metadata)) {
            let k = choose|k: int| 0 <= k < entries.len() && entries[k] == Some(metadata);
            if k > 0 {
                assert(rest[k - 1] == Some(metadata));
            }
        }
        if rest.contains(Some(metadata)) {
            let k = choose|k: int| 0 <= k < rest.len() && rest[k] == Some(metadata);
            assert(entries[k + 1] == Some(metadata));
        }
        let tail = loaded_only(rest);
        if let Some(first) = entries.first() {
            let all = seq![first] + tail;
            assert(entries[0] == Some(first));
            if tail.contains(metadata) {
                let k = choose|k: int| 0 <= k < tail.len() && tail[k] == metadata;
                assert(all[k + 1] == metadata);
            }
            if all.contains(metadata) {
                let k = choose|k: int| 0 <= k < all.len() && all[k] == metadata;
                if k > 0 {
                    assert(tail[k - 1] == metadata);
                }
            }
            assert(all[0] == first);
        }
    }
}

/// The metadata of a gateway is stored in its own directory among those of all gateways.
pub proof fn metadata_is_stored_by_its_gateway(gateways_dir: &str, name: &str, path: String)
    requires
        call_ensures(stored_metadata_path, (gateways_dir, name), path),
        gateways_dir@.len() > 0,
        gateways_dir@.last() != '/',
        name@.len() > 0,
        name@.first() != '/',
        name@.last() != '/',
    ensures
        path@ == gateways_dir@ + seq!['/'] + name@ + seq!['/'] + "metadata.json"@,
{
    reveal_strlit("metadata.json");
    assert((gateways_dir@ + seq!['/'] + name@).last() == name@.last());
}

/// The scheme is taken off once, whatever follows it.
pub proof fn scheme_is_taken_off_once(rest: Seq<char>)
    requires
        !rest.contains('@'),
    ensures
        ssh_host("ssh://"@ + rest) == rest,
{
    let scheme = "ssh://"@;
    let whole = scheme + rest;
    assert(whole.subrange(0, scheme.len() as int) =~= scheme);
    assert(whole.skip(scheme.len() as int) =~= rest);
    rest.index_of_first_ensures('@');
}

}
