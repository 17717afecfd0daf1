//! What holds of every address, stated over the model of the derivations.

use vstd::prelude::*;
use vstd::string::StringSliceAdditionalSpecFns;
use crate::address::agent_address;
use crate::address::agent_address_of;
use crate::address::agent_prefix;
use crate::address::contract_address;
use crate::address::contract_address_of;
use crate::address::contract_key;
use crate::address::contract_prefix;
use crate::address::contract_registry_address;
use crate::address::contract_registry_address_of;
use crate::address::contract_registry_prefix;
use crate::address::has_namespace_key;
use crate::address::namespace_key;
use crate::address::namespace_registry_address;
use crate::address::namespace_registry_address_of;
use crate::address::namespace_registry_prefix;
use crate::address::org_address;
use crate::address::org_address_of;
use crate::address::org_prefix;
use crate::address::smart_permission_address;
use crate::address::smart_permission_address_of;
use crate::address::smart_permission_prefix;
use crate::address::ADDRESS_LEN;
use crate::address::AGENT_SUFFIX_LEN;
use crate::address::NAMESPACE_KEY_LEN;
use crate::address::NAMESPACE_REGISTRY_SUFFIX_LEN;
use crate::address::SMART_PERMISSION_NAME_LEN;
use crate::address::SMART_PERMISSION_ORG_LEN;
use crate::digest::leading;

verus! {

/// Equal texts have equal addresses: an address depends on nothing but the
/// characters of the identifiers it is derived from.
pub proof fn lemma_equal_texts_equal_addresses(a: &str, b: &str, c: &str, d: &str)
    requires
        a@ == b@,
        c@ == d@,
    ensures
        namespace_registry_address(a@) == namespace_registry_address(b@),
        contract_registry_address(a.spec_bytes()) == contract_registry_address(b.spec_bytes()),
        contract_address(a.spec_bytes(), c.spec_bytes()) == contract_address(
            b.spec_bytes(),
            d.spec_bytes(),
        ),
        smart_permission_address(a.spec_bytes(), c.spec_bytes()) == smart_permission_address(
            b.spec_bytes(),
            d.spec_bytes(),
        ),
        agent_address(a.spec_bytes()) == agent_address(b.spec_bytes()),
        org_address(a.spec_bytes()) == org_address(b.spec_bytes()),
{
}

/// Every address is 35 bytes long, whatever the kind of entity, as soon as
/// the digests hold the bytes that are cut from them.
pub proof fn lemma_address_length(digest: Seq<u8>, name_digest: Seq<u8>)
    requires
        digest.len() >= NAMESPACE_REGISTRY_SUFFIX_LEN,
        name_digest.len() >= SMART_PERMISSION_NAME_LEN,
    ensures
        namespace_registry_address_of(digest).len() == ADDRESS_LEN,
        contract_registry_address_of(digest).len() == ADDRESS_LEN,
        contract_address_of(digest).len() == ADDRESS_LEN,
        smart_permission_address_of(digest, name_digest).len() == ADDRESS_LEN,
        agent_address_of(digest).len() == ADDRESS_LEN,
        org_address_of(digest).len() == ADDRESS_LEN,
{
}

/// Every address begins with the prefix of its kind of entity: 3 bytes for
/// registries, contracts and smart permissions, 4 for agents and
/// organizations.
pub proof fn lemma_address_prefix(digest: Seq<u8>, name_digest: Seq<u8>)
    ensures
        namespace_registry_address_of(digest).subrange(0, 3) == namespace_registry_prefix(),
        contract_registry_address_of(digest).subrange(0, 3) == contract_registry_prefix(),
        contract_address_of(digest).subrange(0, 3) == contract_prefix(),
        smart_permission_address_of(digest, name_digest).subrange(0, 3)
            == smart_permission_prefix(),
        agent_address_of(digest).subrange(0, 4) == agent_prefix(),
        org_address_of(digest).subrange(0, 4) == org_prefix(),
{
    assert(namespace_registry_address_of(digest).subrange(0, 3) =~= namespace_registry_prefix());
    assert(contract_registry_address_of(digest).subrange(0, 3) =~= contract_registry_prefix());
    assert(contract_address_of(digest).subrange(0, 3) =~= contract_prefix());
    assert(smart_permission_address_of(digest, name_digest).subrange(0, 3)
        =~= smart_permission_prefix());
    assert(agent_address_of(digest).subrange(0, 4) =~= agent_prefix());
    assert(org_address_of(digest).subrange(0, 4) =~= org_prefix());
}

/// The bytes after the prefix are the leading bytes of the digest: none is
/// taken from its middle or its end.
pub proof fn lemma_address_suffix(digest: Seq<u8>)
    requires
        digest.len() >= NAMESPACE_REGISTRY_SUFFIX_LEN,
    ensures
        namespace_registry_address_of(digest).subrange(3, 35) == digest.subrange(0, 32),
        contract_registry_address_of(digest).subrange(3, 35) == digest.subrange(0, 32),
        contract_address_of(digest).subrange(3, 35) == digest.subrange(0, 32),
        agent_address_of(digest).subrange(4, 35) == digest.subrange(0, 31),
        org_address_of(digest).subrange(4, 35) == digest.subrange(0, 31),
{
    assert(namespace_registry_address_of(digest).subrange(3, 35) =~= digest.subrange(0, 32));
    assert(contract_registry_address_of(digest).subrange(3, 35) =~= digest.subrange(0, 32));
    assert(contract_address_of(digest).subrange(3, 35) =~= digest.subrange(0, 32));
    assert(agent_address_of(digest).subrange(4, 35) =~= digest.subrange(0, 31));
    assert(org_address_of(digest).subrange(4, 35) =~= digest.subrange(0, 31));
}

/// Namespaces that agree on their first 6 characters have the same registry
/// address: what follows those characters is never hashed.
pub proof fn lemma_namespace_truncation(a: Seq<char>, b: Seq<char>)
    requires
        has_namespace_key(a),
        has_namespace_key(b),
        a.subrange(0, NAMESPACE_KEY_LEN as int) == b.subrange(0, NAMESPACE_KEY_LEN as int),
    ensures
        namespace_registry_address(a) == namespace_registry_address(b),
{
}

/// A namespace has the registry address of its own first 6 characters.
pub proof fn lemma_namespace_key_suffices(namespace: Seq<char>)
    requires
        has_namespace_key(namespace),
    ensures
        has_namespace_key(namespace.subrange(0, NAMESPACE_KEY_LEN as int)),
        namespace_registry_address(namespace) == namespace_registry_address(
            namespace.subrange(0, NAMESPACE_KEY_LEN as int),
        ),
{
    let head = namespace.subrange(0, NAMESPACE_KEY_LEN as int);
    assert(head.subrange(0, NAMESPACE_KEY_LEN as int) =~= head);
}

/// For a namespace written in ASCII, characters are bytes: what is hashed
/// for its registry is the first 6 bytes of the text.
pub proof fn lemma_ascii_namespace(namespace: &str)
    requires
        vstd::string::is_ascii(namespace),
        has_namespace_key(namespace@),
    ensures
        namespace_key(namespace@) == namespace.spec_bytes().subrange(0, NAMESPACE_KEY_LEN as int),
{
    broadcast use vstd::string::is_ascii_spec_bytes;

    let head = namespace@.subrange(0, NAMESPACE_KEY_LEN as int);
    assert(vstd::utf8::is_ascii_chars(head));
    vstd::utf8::is_ascii_chars_encode_utf8(head);
    assert(namespace_key(namespace@) =~= namespace.spec_bytes().subrange(
        0,
        NAMESPACE_KEY_LEN as int,
    ));
}

/// A contract's address depends on its name and version only through their
/// join: two pairs with the same join have the same address.
pub proof fn lemma_contract_join_decides(
    name: Seq<u8>,
    version: Seq<u8>,
    other_name: Seq<u8>,
    other_version: Seq<u8>,
)
    requires
        contract_key(name, version) == contract_key(other_name, other_version),
    ensures
        contract_address(name, version) == contract_address(other_name, other_version),
{
}

/// The join does not tell a comma of the name or of the version from the
/// separator: moving the text after a comma from the name to the version
/// leaves the address as it was.
pub proof fn lemma_contract_comma_is_ambiguous(name: Seq<u8>, middle: Seq<u8>, version: Seq<u8>)
    ensures
        contract_address(name + seq![0x2cu8] + middle, version) == contract_address(
            name,
            middle + seq![0x2cu8] + version,
        ),
{
    assert(contract_key(name + seq![0x2cu8] + middle, version) =~= contract_key(
        name,
        middle + seq![0x2cu8] + version,
    ));
}

/// A smart permission's address is made of three parts that do not reach
/// into each other: the prefix, then 3 bytes that depend on the organization
/// alone, then 29 bytes that depend on the permission's name alone.
pub proof fn lemma_smart_permission_parts(org_digest: Seq<u8>, name_digest: Seq<u8>)
    requires
        org_digest.len() >= SMART_PERMISSION_ORG_LEN,
        name_digest.len() >= SMART_PERMISSION_NAME_LEN,
    ensures
        smart_permission_address_of(org_digest, name_digest).subrange(0, 3)
            == smart_permission_prefix(),
        smart_permission_address_of(org_digest, name_digest).subrange(3, 6) == leading(
            org_digest,
            SMART_PERMISSION_ORG_LEN as int,
        ),
        smart_permission_address_of(org_digest, name_digest).subrange(6, 35) == leading(
            name_digest,
            SMART_PERMISSION_NAME_LEN as int,
        ),
{
    let address = smart_permission_address_of(org_digest, name_digest);
    assert(address.subrange(0, 3) =~= smart_permission_prefix());
    assert(address.subrange(3, 6) =~= leading(org_digest, SMART_PERMISSION_ORG_LEN as int));
    assert(address.subrange(6, 35) =~= leading(name_digest, SMART_PERMISSION_NAME_LEN as int));
}

/// Changing only the organization leaves the last 29 bytes of a smart
/// permission's address as they were.
pub proof fn lemma_smart_permission_org_change(
    org_digest: Seq<u8>,
    other_org_digest: Seq<u8>,
    name_digest: Seq<u8>,
)
    requires
        org_digest.len() >= SMART_PERMISSION_ORG_LEN,
        other_org_digest.len() >= SMART_PERMISSION_ORG_LEN,
        name_digest.len() >= SMART_PERMISSION_NAME_LEN,
    ensures
        smart_permission_address_of(org_digest, name_digest).subrange(6, 35)
            == smart_permission_address_of(other_org_digest, name_digest).subrange(6, 35),
{
    lemma_smart_permission_parts(org_digest, name_digest);
    lemma_smart_permission_parts(other_org_digest, name_digest);
}

/// Changing only the permission's name leaves the first 6 bytes of a smart
/// permission's address, the prefix and the organization's 3 bytes, as they
/// were.
pub proof fn lemma_smart_permission_name_change(
    org_digest: Seq<u8>,
    name_digest: Seq<u8>,
    other_name_digest: Seq<u8>,
)
    requires
        org_digest.len() >= SMART_PERMISSION_ORG_LEN,
        name_digest.len() >= SMART_PERMISSION_NAME_LEN,
        other_name_digest.len() >= SMART_PERMISSION_NAME_LEN,
    ensures
        smart_permission_address_of(org_digest, name_digest).subrange(0, 6)
            == smart_permission_address_of(org_digest, other_name_digest).subrange(0, 6),
{
    assert(smart_permission_address_of(org_digest, name_digest).subrange(0, 6)
        =~= smart_permission_address_of(org_digest, other_name_digest).subrange(0, 6));
}

} // verus!
