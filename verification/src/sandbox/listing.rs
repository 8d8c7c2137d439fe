//! What the `container` CLI lists.

use vstd::prelude::*;

use crate::json::{
    json_list, json_strings, parse_list, split_at_char, split_of_more, split_of_one, string_at,
    string_at_pointer, string_of_key,
};

verus! {

/// A container in the output of `container list --format json`.
#[derive(Debug, Clone)]
pub struct ContainerRecord {
    /// Name of the container.
    pub id: Option<String>,
    /// Status of the container.
    pub status: Option<String>,
    /// IPv4 address of the container on its first network, with the length of the network
    /// prefix.
    pub ipv4_address: Option<String>,
}

/// What is listed of a container.
#[verifier::ext_equal]
pub struct ContainerText {
    /// Name of the container.
    pub id: Option<Seq<char>>,
    /// Status of the container.
    pub status: Option<Seq<char>>,
    /// IPv4 address of the container on its first network.
    pub ipv4_address: Option<Seq<char>>,
}

impl DeepView for ContainerRecord {
    type V = ContainerText;

    open spec fn deep_view(&self) -> ContainerText {
        ContainerText {
            id: self.id.deep_view(),
            status: self.status.deep_view(),
            ipv4_address: self.ipv4_address.deep_view(),
        }
    }
}

/// The container that a JSON value with these strings describes.
pub open spec fn container_in(strings: Map<Seq<Seq<char>>, Seq<char>>) -> ContainerText {
    ContainerText {
        id: string_at(strings, seq!["configuration"@, "id"@]),
        status: string_at(strings, seq!["status"@]),
        ipv4_address: string_at(strings, seq!["networks"@, "0"@, "ipv4Address"@]),
    }
}

/// The containers in a list of JSON values, or the error for which there is none.
pub open spec fn containers_in(
    list: Result<Seq<Map<Seq<Seq<char>>, Seq<char>>>, Seq<char>>,
) -> Result<Seq<ContainerText>, Seq<char>> {
    match list {
        Ok(values) => Ok(Seq::new(values.len(), |i: int| container_in(values[i]))),
        Err(message) => Err(message),
    }
}

/// The references of the images in a list of JSON values, or the error for which there is
/// none.
pub open spec fn references_in(
    list: Result<Seq<Map<Seq<Seq<char>>, Seq<char>>>, Seq<char>>,
) -> Result<Seq<Option<Seq<char>>>, Seq<char>> {
    match list {
        Ok(values) => Ok(
            Seq::new(values.len(), |i: int| string_at(values[i], seq!["reference"@])),
        ),
        Err(message) => Err(message),
    }
}

/// The container that a JSON value describes.
pub fn container_record(value: &serde_json::Value) -> (record: ContainerRecord)
    ensures
        record.deep_view() == container_in(json_strings(*value)),
{
    proof {
        reveal_strlit("/configuration/id");
        reveal_strlit("configuration");
        reveal_strlit("id");
        reveal_strlit("/networks/0/ipv4Address");
        reveal_strlit("networks");
        reveal_strlit("0");
        reveal_strlit("ipv4Address");
        reveal_strlit("status");
        let slash = seq!['/'];
        let none = Seq::<char>::empty();
        let id_path = "configuration"@ + slash + "id"@;
        assert("/configuration/id"@ =~= none + slash + id_path);
        split_of_more(none, '/', id_path);
        split_of_more("configuration"@, '/', "id"@);
        split_of_one("id"@, '/');
        assert(split_at_char("/configuration/id"@, '/').drop_first() =~= seq![
            "configuration"@,
            "id"@,
        ]);
        let tail = "0"@ + slash + "ipv4Address"@;
        let address_path = "networks"@ + slash + tail;
        assert("/networks/0/ipv4Address"@ =~= none + slash + address_path);
        split_of_more(none, '/', address_path);
        split_of_more("networks"@, '/', tail);
        split_of_more("0"@, '/', "ipv4Address"@);
        split_of_one("ipv4Address"@, '/');
        assert(split_at_char("/networks/0/ipv4Address"@, '/').drop_first() =~= seq![
            "networks"@,
            "0"@,
            "ipv4Address"@,
        ]);
    }
    ContainerRecord {
        id: string_at_pointer(value, "/configuration/id"),
        status: string_of_key(value, "status"),
        ipv4_address: string_at_pointer(value, "/networks/0/ipv4Address"),
    }
}

/// The containers in the output of `container list --format json`.
pub fn parse_containers(text: &str) -> (parsed: Result<Vec<ContainerRecord>, String>)
    ensures
        match parsed {
            Ok(records) => containers_in(json_list(text@)) == Ok::<_, Seq<char>>(
                records.deep_view(),
            ),
            Err(message) => containers_in(json_list(text@)) == Err::<Seq<ContainerText>, _>(
                message@,
            ),
        },
{
    match parse_list(text) {
        Ok(values) => {
            let ghost all = json_list(text@)->Ok_0;
            let mut records: Vec<ContainerRecord> = Vec::new();
            let mut i: usize = 0;
            while i < values.len()
                invariant
                    i <= values.len(),
                    records.deep_view() == Seq::new(
                        i as nat,
                        |k: int| container_in(json_strings(values@[k])),
                    ),
                decreases values.len() - i,
            {
                let ghost before = records.deep_view();
                let record = container_record(&values[i]);
                records.push(record);
                assert(records.deep_view() =~= before.push(record.deep_view()));
                i = i + 1;
            }
            assert(records.deep_view() =~= Seq::new(all.len(), |k: int| container_in(all[k])));
            Ok(records)
        },
        Err(message) => Err(message),
    }
}

/// The references in the output of `container image list --format json`, with `None` for
/// an image that has none.
pub fn parse_references(text: &str) -> (parsed: Result<Vec<Option<String>>, String>)
    ensures
        match parsed {
            Ok(references) => references_in(json_list(text@)) == Ok::<_, Seq<char>>(
                references.deep_view(),
            ),
            Err(message) => references_in(json_list(text@)) == Err::<Seq<Option<Seq<char>>>, _>(
                message@,
            ),
        },
{
    match parse_list(text) {
        Ok(values) => {
            let ghost all = json_list(text@)->Ok_0;
            let mut references: Vec<Option<String>> = Vec::new();
            let mut i: usize = 0;
            proof {
                reveal_strlit("reference");
            }
            while i < values.len()
                invariant
                    i <= values.len(),
                    "reference"@.len() > 0,
                    "reference"@[0] == 'r',
                    references.deep_view() == Seq::new(
                        i as nat,
                        |k: int| string_at(json_strings(values@[k]), seq!["reference"@]),
                    ),
                decreases values.len() - i,
            {
                let ghost before = references.deep_view();
                let reference = string_of_key(&values[i], "reference");
                references.push(reference);
                assert(references.deep_view() =~= before.push(reference.deep_view()));
                i = i + 1;
            }
            assert(references.deep_view() =~= Seq::new(
                all.len(),
                |k: int| string_at(all[k], seq!["reference"@]),
            ));
            Ok(references)
        },
        Err(message) => Err(message),
    }
}

// ---------------------------------------------------------------------------
// Search
// ---------------------------------------------------------------------------

/// The first container with this name.
pub open spec fn container_with_id(containers: Seq<ContainerText>, id: Seq<char>) -> Option<
    ContainerText,
>
    decreases containers.len(),
{
    if containers.len() == 0 {
        None
    } else if containers.first().id == Some(id) {
        Some(containers.first())
    } else {
        container_with_id(containers.drop_first(), id)
    }
}

/// The first container with this name.
pub fn find_container<'a>(containers: &'a Vec<ContainerRecord>, id: &str) -> (found: Option<
    &'a ContainerRecord,
>)
    ensures
        match found {
            Some(record) => container_with_id(containers.deep_view(), id@) == Some(
                record.deep_view(),
            ),
            None => container_with_id(containers.deep_view(), id@) is None,
        },
{
    let mut i: usize = 0;
    assert(containers.deep_view().skip(0) =~= containers.deep_view());
    while i < containers.len()
        invariant
            i <= containers.len(),
            container_with_id(containers.deep_view().skip(i as int), id@) == container_with_id(
                containers.deep_view(),
                id@,
            ),
        decreases containers.len() - i,
    {
        proof {
            let rest = containers.deep_view().skip(i as int);
            assert(rest.first() == containers@[i as int].deep_view());
            assert(rest.drop_first() =~= containers.deep_view().skip(i + 1));
        }
        if let Some(name) = &containers[i].id {
            if *name == id.to_string() {
                return Some(&containers[i]);
            }
        }
        i = i + 1;
    }
    None
}

/// Whether one of the references is `reference`.
pub fn lists_reference(references: &Vec<Option<String>>, reference: &str) -> (yes: bool)
    ensures
        yes == references.deep_view().contains(Some(reference@)),
{
    let mut i: usize = 0;
    while i < references.len()
        invariant
            i <= references.len(),
            forall|k: int| 0 <= k < i ==> #[trigger] references.deep_view()[k] != Some(reference@),
        decreases references.len() - i,
    {
        assert(references.deep_view()[i as int] == references@[i as int].deep_view());
        if let Some(listed) = &references[i] {
            if *listed == reference.to_string() {
                return true;
            }
        }
        i = i + 1;
    }
    false
}

// ---------------------------------------------------------------------------
// Laws
// ---------------------------------------------------------------------------

/// A lookup finds the first container with the name, and finds none only where there is
/// none.
pub proof fn lookup_finds_the_first(containers: Seq<ContainerText>, id: Seq<char>)
    ensures
        match container_with_id(containers, id) {
            Some(found) => exists|i: int|
                0 <= i < containers.len() && #[trigger] containers[i] == found && found.id == Some(
                    id,
                ) && forall|k: int| 0 <= k < i ==> #[trigger] containers[k].id != Some(id),
            None => forall|k: int|
                0 <= k < containers.len() ==> #[trigger] containers[k].id != Some(id),
        },
    decreases containers.len(),
{
    if containers.len() > 0 {
        let rest = containers.drop_first();
        if containers.first().id == Some(id) {
            assert(containers[0] == containers.first());
        } else {
            lookup_finds_the_first(rest, id);
            match container_with_id(rest, id) {
                Some(found) => {
                    let i = choose|i: int|
                        0 <= i < rest.len() && #[trigger] rest[i] == found && found.id == Some(id)
                            && forall|k: int| 0 <= k < i ==> #[trigger] rest[k].id != Some(id);
                    assert(containers[i + 1] == found);
                    assert forall|k: int| 0 <= k < i + 1 implies #[trigger] containers[k].id
                        != Some(id) by {
                        if k > 0 {
                            assert(containers[k] == rest[k - 1]);
                        }
                    }
                },
                None => {
                    assert forall|k: int| 0 <= k < containers.len() implies #[trigger]
                        containers[k].id != Some(id) by {
                        if k > 0 {
                            assert(containers[k] == rest[k - 1]);
                        }
                    }
                },
            }
        }
    }
}

}
