//! State addresses: a fixed prefix that names the kind of entity, followed by
//! leading bytes of the digest of the entity's identifier.
//!
//! Every address is 35 bytes long. The prefixes are written as hex text and
//! decoded on each derivation; the number of digest bytes that follows is
//! chosen so that the two parts add up to 35.

use vstd::prelude::*;
use vstd::slice::slice_to_vec;
use vstd::string::StrSliceExecFns;
use vstd::string::StringExecFns;
use vstd::string::StringSliceAdditionalSpecFns;
use vstd::utf8::encode_utf8;
use crate::digest::leading;
use crate::digest::leading_bytes;
use crate::digest::sha512;
use crate::digest::sha512_digest;
use crate::digest::DIGEST_LEN;
use crate::error::AddressingError;
use crate::hex::decode_hex;
use crate::hex::invalid_digit_message;
use crate::hex::is_hex;
use crate::hex::odd_length_message;
use crate::hex::parse_hex;

verus! {

/// The state address of the setting that lists the administrators, as hex
/// text.
pub const ADMINISTRATORS_SETTING_ADDRESS: &'static str =
    "000000a87cb5eafdcca6a814e4add97c4b517d3c530c2f44b31d18e3b0c44298fc1c14";

/// The key of the setting that lists the administrators.
pub const ADMINISTRATORS_SETTING_KEY: &'static str = "sawtooth.swa.administrators";

pub const NAMESPACE_REGISTRY_ADDRESS_PREFIX: &'static str = "00ec00";

pub const CONTRACT_REGISTRY_ADDRESS_PREFIX: &'static str = "00ec01";

pub const CONTRACT_ADDRESS_PREFIX: &'static str = "00ec02";

pub const SMART_PERMISSION_ADDRESS_PREFIX: &'static str = "00ec03";

pub const AGENT_ADDRESS_PREFIX: &'static str = "cad11d00";

pub const ORG_ADDRESS_PREFIX: &'static str = "cad11d01";

/// The number of bytes in every address.
pub const ADDRESS_LEN: usize = 35;

/// The number of leading characters of a namespace that identify its registry.
pub const NAMESPACE_KEY_LEN: usize = 6;

/// Digest bytes after the 3-byte prefix of a namespace registry address.
pub const NAMESPACE_REGISTRY_SUFFIX_LEN: usize = 32;

/// Digest bytes after the 3-byte prefix of a contract registry address.
pub const CONTRACT_REGISTRY_SUFFIX_LEN: usize = 32;

/// Digest bytes after the 3-byte prefix of a contract address.
pub const CONTRACT_SUFFIX_LEN: usize = 32;

/// Bytes of the organization id's digest in a smart permission address.
pub const SMART_PERMISSION_ORG_LEN: usize = 3;

/// Bytes of the permission name's digest in a smart permission address.
pub const SMART_PERMISSION_NAME_LEN: usize = 29;

/// Digest bytes after the 4-byte prefix of an agent address.
pub const AGENT_SUFFIX_LEN: usize = 31;

/// Digest bytes after the 4-byte prefix of an organization address.
pub const ORG_SUFFIX_LEN: usize = 31;

/// The address of the administrators' setting is written as an address is:
/// hex text that stands for 35 bytes.
pub proof fn lemma_administrators_setting_address_is_an_address()
    ensures
        is_hex(ADMINISTRATORS_SETTING_ADDRESS.spec_bytes()),
        decode_hex(ADMINISTRATORS_SETTING_ADDRESS.spec_bytes()).len() == ADDRESS_LEN,
{
    broadcast use vstd::string::is_ascii_spec_bytes;

    reveal_strlit("000000a87cb5eafdcca6a814e4add97c4b517d3c530c2f44b31d18e3b0c44298fc1c14");
    assert(vstd::string::is_ascii(ADMINISTRATORS_SETTING_ADDRESS));
}

/// The decoded prefix of namespace registry addresses.
pub open spec fn namespace_registry_prefix() -> Seq<u8> {
    seq![0x00u8, 0xecu8, 0x00u8]
}

/// The decoded prefix of contract registry addresses.
pub open spec fn contract_registry_prefix() -> Seq<u8> {
    seq![0x00u8, 0xecu8, 0x01u8]
}

/// The decoded prefix of contract addresses.
pub open spec fn contract_prefix() -> Seq<u8> {
    seq![0x00u8, 0xecu8, 0x02u8]
}

/// The decoded prefix of smart permission addresses.
pub open spec fn smart_permission_prefix() -> Seq<u8> {
    seq![0x00u8, 0xecu8, 0x03u8]
}

/// The decoded prefix of agent addresses.
pub open spec fn agent_prefix() -> Seq<u8> {
    seq![0xcau8, 0xd1u8, 0x1du8, 0x00u8]
}

/// The decoded prefix of organization addresses.
pub open spec fn org_prefix() -> Seq<u8> {
    seq![0xcau8, 0xd1u8, 0x1du8, 0x01u8]
}

/// The message of a failed hash: what was being hashed, then the provider's
/// own account of the failure.
pub open spec fn hash_failure_message(context: Seq<char>, cause: Seq<char>) -> Seq<char> {
    context + cause
}

/// Each prefix constant is hex text and decodes to the bytes given for it.
pub proof fn lemma_prefixes_decode()
    ensures
        is_hex(NAMESPACE_REGISTRY_ADDRESS_PREFIX.spec_bytes()),
        decode_hex(NAMESPACE_REGISTRY_ADDRESS_PREFIX.spec_bytes()) == namespace_registry_prefix(),
        is_hex(CONTRACT_REGISTRY_ADDRESS_PREFIX.spec_bytes()),
        decode_hex(CONTRACT_REGISTRY_ADDRESS_PREFIX.spec_bytes()) == contract_registry_prefix(),
        is_hex(CONTRACT_ADDRESS_PREFIX.spec_bytes()),
        decode_hex(CONTRACT_ADDRESS_PREFIX.spec_bytes()) == contract_prefix(),
        is_hex(SMART_PERMISSION_ADDRESS_PREFIX.spec_bytes()),
        decode_hex(SMART_PERMISSION_ADDRESS_PREFIX.spec_bytes()) == smart_permission_prefix(),
        is_hex(AGENT_ADDRESS_PREFIX.spec_bytes()),
        decode_hex(AGENT_ADDRESS_PREFIX.spec_bytes()) == agent_prefix(),
        is_hex(ORG_ADDRESS_PREFIX.spec_bytes()),
        decode_hex(ORG_ADDRESS_PREFIX.spec_bytes()) == org_prefix(),
{
    broadcast use vstd::string::is_ascii_spec_bytes;

    reveal_strlit("00ec00");
    reveal_strlit("00ec01");
    reveal_strlit("00ec02");
    reveal_strlit("00ec03");
    reveal_strlit("cad11d00");
    reveal_strlit("cad11d01");
    assert(vstd::string::is_ascii(NAMESPACE_REGISTRY_ADDRESS_PREFIX));
    assert(vstd::string::is_ascii(CONTRACT_REGISTRY_ADDRESS_PREFIX));
    assert(vstd::string::is_ascii(CONTRACT_ADDRESS_PREFIX));
    assert(vstd::string::is_ascii(SMART_PERMISSION_ADDRESS_PREFIX));
    assert(vstd::string::is_ascii(AGENT_ADDRESS_PREFIX));
    assert(vstd::string::is_ascii(ORG_ADDRESS_PREFIX));
}

/// The address that a namespace registry has when its key hashes to `digest`.
pub open spec fn namespace_registry_address_of(digest: Seq<u8>) -> Seq<u8> {
    namespace_registry_prefix() + leading(digest, NAMESPACE_REGISTRY_SUFFIX_LEN as int)
}

/// The address that a contract registry has when its name hashes to `digest`.
pub open spec fn contract_registry_address_of(digest: Seq<u8>) -> Seq<u8> {
    contract_registry_prefix() + leading(digest, CONTRACT_REGISTRY_SUFFIX_LEN as int)
}

/// The address that a contract has when its key hashes to `digest`.
pub open spec fn contract_address_of(digest: Seq<u8>) -> Seq<u8> {
    contract_prefix() + leading(digest, CONTRACT_SUFFIX_LEN as int)
}

/// The address that a smart permission has when the organization id hashes
/// to `org_digest` and the permission's name to `name_digest`: the two
/// digests are cut separately, the organization's part first.
pub open spec fn smart_permission_address_of(org_digest: Seq<u8>, name_digest: Seq<u8>) -> Seq<u8> {
    smart_permission_prefix() + leading(org_digest, SMART_PERMISSION_ORG_LEN as int) + leading(
        name_digest,
        SMART_PERMISSION_NAME_LEN as int,
    )
}

/// The address that an agent has when its name hashes to `digest`.
pub open spec fn agent_address_of(digest: Seq<u8>) -> Seq<u8> {
    agent_prefix() + leading(digest, AGENT_SUFFIX_LEN as int)
}

/// The address that an organization has when its id hashes to `digest`.
pub open spec fn org_address_of(digest: Seq<u8>) -> Seq<u8> {
    org_prefix() + leading(digest, ORG_SUFFIX_LEN as int)
}

/// A namespace is long enough to identify a registry: it has at least 6
/// characters.
pub open spec fn has_namespace_key(namespace: Seq<char>) -> bool {
    namespace.len() >= NAMESPACE_KEY_LEN
}

/// What is hashed for a namespace registry: the first 6 characters of the
/// namespace, in UTF-8.
pub open spec fn namespace_key(namespace: Seq<char>) -> Seq<u8> {
    encode_utf8(namespace.subrange(0, NAMESPACE_KEY_LEN as int))
}

/// What is hashed for a contract: the name, a comma, the version. Nothing is
/// escaped, so a comma inside either part is not told from the separator.
pub open spec fn contract_key(name: Seq<u8>, version: Seq<u8>) -> Seq<u8> {
    name + seq![0x2cu8] + version
}

/// The message for a namespace that is too short.
pub open spec fn short_namespace_message(namespace: Seq<char>) -> Seq<char> {
    "namespace '"@ + namespace + "' is less than 6 characters long"@
}

/// The address of the registry of `namespace`.
pub open spec fn namespace_registry_address(namespace: Seq<char>) -> Seq<u8> {
    namespace_registry_address_of(sha512(namespace_key(namespace)))
}

/// The address of the contract registry called `name`.
pub open spec fn contract_registry_address(name: Seq<u8>) -> Seq<u8> {
    contract_registry_address_of(sha512(name))
}

/// The address of the contract `name` in `version`.
pub open spec fn contract_address(name: Seq<u8>, version: Seq<u8>) -> Seq<u8> {
    contract_address_of(sha512(contract_key(name, version)))
}

/// The address of the smart permission `name` of the organization `org_id`.
pub open spec fn smart_permission_address(org_id: Seq<u8>, name: Seq<u8>) -> Seq<u8> {
    smart_permission_address_of(sha512(org_id), sha512(name))
}

/// The address of the agent called `name`.
pub open spec fn agent_address(name: Seq<u8>) -> Seq<u8> {
    agent_address_of(sha512(name))
}

/// The address of the organization `id`.
pub open spec fn org_address(id: Seq<u8>) -> Seq<u8> {
    org_address_of(sha512(id))
}

/// Puts the bytes that `prefix_hex` stands for in front of `suffix`.
///
/// Fails, as decoding does, exactly when `prefix_hex` is not hex text.
pub fn address_with_prefix(prefix_hex: &str, suffix: &[u8]) -> (r: Result<
    Vec<u8>,
    AddressingError,
>)
    ensures
        match r {
            Ok(address) => {
                &&& is_hex(prefix_hex.spec_bytes())
                &&& address@ == decode_hex(prefix_hex.spec_bytes()) + suffix@
            },
            Err(e) => {
                &&& !is_hex(prefix_hex.spec_bytes())
                &&& e is InvalidInput
                &&& e.message() == if prefix_hex.spec_bytes().len() % 2 != 0 {
                    odd_length_message(prefix_hex@)
                } else {
                    invalid_digit_message(prefix_hex@)
                }
            },
        },
{
    let mut address = parse_hex(prefix_hex)?;
    append_bytes(&mut address, suffix);
    Ok(address)
}

/// Appends `bytes` to `buffer`.
fn append_bytes(buffer: &mut Vec<u8>, bytes: &[u8])
    ensures
        final(buffer)@ == old(buffer)@ + bytes@,
{
    let ghost before = buffer@;
    let mut i: usize = 0;
    while i < bytes.len()
        invariant
            i <= bytes@.len(),
            buffer@ == before + bytes@.subrange(0, i as int),
        decreases bytes@.len() - i,
    {
        buffer.push(bytes[i]);
        i += 1;
    }
    assert(bytes@.subrange(0, i as int) =~= bytes@);
}

/// Takes the outcome of a hash provider: its digest, or the error that
/// reports its failure, whose message is `context` followed by the
/// provider's own words.
pub fn digest_of(hash: Result<Vec<u8>, String>, context: &str) -> (r: Result<
    Vec<u8>,
    AddressingError,
>)
    ensures
        match hash {
            Ok(digest) => r is Ok && r->Ok_0 == digest,
            Err(cause) => {
                &&& r is Err
                &&& r->Err_0 is HashError
                &&& r->Err_0.message() == hash_failure_message(context@, cause@)
            },
        },
{
    match hash {
        Ok(digest) => Ok(digest),
        Err(cause) => Err(
            AddressingError::HashError(String::from_str(context).concat(cause.as_str())),
        ),
    }
}

/// Cuts what is hashed for a namespace registry out of `namespace`.
///
/// Only the first 6 characters count. A namespace without them is refused.
pub fn encode_namespace(namespace: &str) -> (r: Result<Vec<u8>, AddressingError>)
    ensures
        match r {
            Ok(key) => has_namespace_key(namespace@) && key@ == namespace_key(namespace@),
            Err(e) => {
                &&& !has_namespace_key(namespace@)
                &&& e is InvalidInput
                &&& e.message() == short_namespace_message(namespace@)
            },
        },
{
    if namespace.unicode_len() < NAMESPACE_KEY_LEN {
        return Err(
            AddressingError::InvalidInput(
                String::from_str("namespace '").concat(namespace).concat(
                    "' is less than 6 characters long",
                ),
            ),
        );
    }
    Ok(slice_to_vec(namespace.substring_char(0, NAMESPACE_KEY_LEN).as_bytes()))
}

/// Joins a contract's name and version into what is hashed for it.
pub fn encode_contract(name: &str, version: &str) -> (key: Vec<u8>)
    ensures
        key@ == contract_key(name.spec_bytes(), version.spec_bytes()),
{
    let mut key: Vec<u8> = Vec::new();
    append_bytes(&mut key, name.as_bytes());
    key.push(0x2c);
    append_bytes(&mut key, version.as_bytes());
    key
}

/// The steps that the derivations share: takes the digest out of the hash
/// provider's outcome, keeps its first `n` bytes and puts the bytes that
/// `prefix_hex` stands for in front of them.
fn prefixed_digest(prefix_hex: &str, hash: Result<Vec<u8>, String>, n: usize, context: &str) -> (r:
    Result<Vec<u8>, AddressingError>)
    requires
        is_hex(prefix_hex.spec_bytes()),
        hash is Ok ==> hash->Ok_0@.len() >= n,
    ensures
        match hash {
            Ok(digest) => {
                &&& r is Ok
                &&& r->Ok_0@ == decode_hex(prefix_hex.spec_bytes()) + leading(digest@, n as int)
            },
            Err(cause) => {
                &&& r is Err
                &&& r->Err_0 is HashError
                &&& r->Err_0.message() == hash_failure_message(context@, cause@)
            },
        },
{
    let digest = digest_of(hash, context)?;
    let suffix = leading_bytes(digest.as_slice(), n);
    address_with_prefix(prefix_hex, suffix.as_slice())
}

/// Builds the address of a namespace registry from the outcome of hashing its
/// identifier.
///
/// A digest gives the address; a failed hash is reported as such. The digest
/// must hold the 32 bytes that the address is cut from.
pub fn namespace_registry_address_from_hash(hash: Result<Vec<u8>, String>) -> (r: Result<
    Vec<u8>,
    AddressingError,
>)
    requires
        hash is Ok ==> hash->Ok_0@.len() >= NAMESPACE_REGISTRY_SUFFIX_LEN,
    ensures
        match hash {
            Ok(digest) => r is Ok && r->Ok_0@ == namespace_registry_address_of(digest@),
            Err(cause) => {
                &&& r is Err
                &&& r->Err_0 is HashError
                &&& r->Err_0.message() == hash_failure_message(
                    "failed to hash namespace registry address: "@,
                    cause@,
                )
            },
        },
        r is Ok ==> r->Ok_0@.len() == ADDRESS_LEN,
        r is Ok ==> r->Ok_0@.subrange(0, 3) == namespace_registry_prefix(),
{
    proof {
        lemma_prefixes_decode();
    }
    prefixed_digest(
        NAMESPACE_REGISTRY_ADDRESS_PREFIX,
        hash,
        NAMESPACE_REGISTRY_SUFFIX_LEN,
        "failed to hash namespace registry address: ",
    )
}

/// Builds the address of a contract registry from the outcome of hashing its
/// identifier.
///
/// A digest gives the address; a failed hash is reported as such. The digest
/// must hold the 32 bytes that the address is cut from.
pub fn contract_registry_address_from_hash(hash: Result<Vec<u8>, String>) -> (r: Result<
    Vec<u8>,
    AddressingError,
>)
    requires
        hash is Ok ==> hash->Ok_0@.len() >= CONTRACT_REGISTRY_SUFFIX_LEN,
    ensures
        match hash {
            Ok(digest) => r is Ok && r->Ok_0@ == contract_registry_address_of(digest@),
            Err(cause) => {
                &&& r is Err
                &&& r->Err_0 is HashError
                &&& r->Err_0.message() == hash_failure_message(
                    "failed to hash contract registry address: "@,
                    cause@,
                )
            },
        },
        r is Ok ==> r->Ok_0@.len() == ADDRESS_LEN,
        r is Ok ==> r->Ok_0@.subrange(0, 3) == contract_registry_prefix(),
{
    proof {
        lemma_prefixes_decode();
    }
    prefixed_digest(
        CONTRACT_REGISTRY_ADDRESS_PREFIX,
        hash,
        CONTRACT_REGISTRY_SUFFIX_LEN,
        "failed to hash contract registry address: ",
    )
}

/// Builds the address of a contract from the outcome of hashing its
/// identifier.
///
/// A digest gives the address; a failed hash is reported as such. The digest
/// must hold the 32 bytes that the address is cut from.
pub fn contract_address_from_hash(hash: Result<Vec<u8>, String>) -> (r: Result<
    Vec<u8>,
    AddressingError,
>)
    requires
        hash is Ok ==> hash->Ok_0@.len() >= CONTRACT_SUFFIX_LEN,
    ensures
        match hash {
            Ok(digest) => r is Ok && r->Ok_0@ == contract_address_of(digest@),
            Err(cause) => {
                &&& r is Err
                &&& r->Err_0 is HashError
                &&& r->Err_0.message() == hash_failure_message(
                    "failed to hash contract address: "@,
                    cause@,
                )
            },
        },
        r is Ok ==> r->Ok_0@.len() == ADDRESS_LEN,
        r is Ok ==> r->Ok_0@.subrange(0, 3) == contract_prefix(),
{
    proof {
        lemma_prefixes_decode();
    }
    prefixed_digest(
        CONTRACT_ADDRESS_PREFIX,
        hash,
        CONTRACT_SUFFIX_LEN,
        "failed to hash contract address: ",
    )
}

/// Builds the address of a smart permission from the outcomes of hashing the
/// organization id and the permission's name.
///
/// The two digests are cut separately: 3 bytes of the organization's, then 29
/// of the name's. A failed hash of the organization id is reported first.
pub fn smart_permission_address_from_hashes(
    org_hash: Result<Vec<u8>, String>,
    name_hash: Result<Vec<u8>, String>,
) -> (r: Result<Vec<u8>, AddressingError>)
    requires
        org_hash is Ok ==> org_hash->Ok_0@.len() >= SMART_PERMISSION_ORG_LEN,
        name_hash is Ok ==> name_hash->Ok_0@.len() >= SMART_PERMISSION_NAME_LEN,
    ensures
        match (org_hash, name_hash) {
            (Ok(org_digest), Ok(name_digest)) => {
                &&& r is Ok
                &&& r->Ok_0@ == smart_permission_address_of(org_digest@, name_digest@)
            },
            (Err(cause), _) => {
                &&& r is Err
                &&& r->Err_0 is HashError
                &&& r->Err_0.message() == hash_failure_message(
                    "failed to hash pike org id: "@,
                    cause@,
                )
            },
            (Ok(_), Err(cause)) => {
                &&& r is Err
                &&& r->Err_0 is HashError
                &&& r->Err_0.message() == hash_failure_message(
                    "failed to hash smart permission name: "@,
                    cause@,
                )
            },
        },
        r is Ok ==> r->Ok_0@.len() == ADDRESS_LEN,
        r is Ok ==> r->Ok_0@.subrange(0, 3) == smart_permission_prefix(),
        r is Ok ==> r->Ok_0@.subrange(3, 6) == leading(
            org_hash->Ok_0@,
            SMART_PERMISSION_ORG_LEN as int,
        ),
        r is Ok ==> r->Ok_0@.subrange(6, 35) == leading(
            name_hash->Ok_0@,
            SMART_PERMISSION_NAME_LEN as int,
        ),
{
    proof {
        lemma_prefixes_decode();
    }
    let mut address = prefixed_digest(
        SMART_PERMISSION_ADDRESS_PREFIX,
        org_hash,
        SMART_PERMISSION_ORG_LEN,
        "failed to hash pike org id: ",
    )?;
    let name_digest = digest_of(name_hash, "failed to hash smart permission name: ")?;
    let name_part = leading_bytes(name_digest.as_slice(), SMART_PERMISSION_NAME_LEN);
    append_bytes(&mut address, name_part.as_slice());
    Ok(address)
}

/// Builds the address of an agent from the outcome of hashing its
/// identifier.
///
/// A digest gives the address; a failed hash is reported as such. The digest
/// must hold the 31 bytes that the address is cut from.
pub fn agent_address_from_hash(hash: Result<Vec<u8>, String>) -> (r: Result<
    Vec<u8>,
    AddressingError,
>)
    requires
        hash is Ok ==> hash->Ok_0@.len() >= AGENT_SUFFIX_LEN,
    ensures
        match hash {
            Ok(digest) => r is Ok && r->Ok_0@ == agent_address_of(digest@),
            Err(cause) => {
                &&& r is Err
                &&& r->Err_0 is HashError
                &&& r->Err_0.message() == hash_failure_message(
                    "failed to hash pike agent address: "@,
                    cause@,
                )
            },
        },
        r is Ok ==> r->Ok_0@.len() == ADDRESS_LEN,
        r is Ok ==> r->Ok_0@.subrange(0, 4) == agent_prefix(),
{
    proof {
        lemma_prefixes_decode();
    }
    prefixed_digest(
        AGENT_ADDRESS_PREFIX,
        hash,
        AGENT_SUFFIX_LEN,
        "failed to hash pike agent address: ",
    )
}

/// Builds the address of an organization from the outcome of hashing its
/// identifier.
///
/// A digest gives the address; a failed hash is reported as such. The digest
/// must hold the 31 bytes that the address is cut from.
pub fn org_address_from_hash(hash: Result<Vec<u8>, String>) -> (r: Result<
    Vec<u8>,
    AddressingError,
>)
    requires
        hash is Ok ==> hash->Ok_0@.len() >= ORG_SUFFIX_LEN,
    ensures
        match hash {
            Ok(digest) => r is Ok && r->Ok_0@ == org_address_of(digest@),
            Err(cause) => {
                &&& r is Err
                &&& r->Err_0 is HashError
                &&& r->Err_0.message() == hash_failure_message(
                    "failed to hash pike org address: "@,
                    cause@,
                )
            },
        },
        r is Ok ==> r->Ok_0@.len() == ADDRESS_LEN,
        r is Ok ==> r->Ok_0@.subrange(0, 4) == org_prefix(),
{
    proof {
        lemma_prefixes_decode();
    }
    prefixed_digest(
        ORG_ADDRESS_PREFIX,
        hash,
        ORG_SUFFIX_LEN,
        "failed to hash pike org address: ",
    )
}

/// Compute a state address for a given namespace registry.
///
/// `namespace` is the address prefix of the namespace; only its first 6
/// characters are hashed, so two namespaces that agree on them share a
/// registry. A namespace of fewer than 6 characters is rejected.
pub fn compute_namespace_registry_address(namespace: &str) -> (r: Result<
    Vec<u8>,
    AddressingError,
>)
    ensures
        match r {
            Ok(address) => {
                &&& has_namespace_key(namespace@)
                &&& address@ == namespace_registry_address(namespace@)
                &&& sha512(namespace_key(namespace@)).len() == DIGEST_LEN
            },
            Err(e) => {
                &&& !has_namespace_key(namespace@)
                &&& e is InvalidInput
                &&& e.message() == short_namespace_message(namespace@)
            },
        },
        r is Ok ==> r->Ok_0@.len() == ADDRESS_LEN,
        r is Ok ==> r->Ok_0@.subrange(0, 3) == namespace_registry_prefix(),
{
    let key = encode_namespace(namespace)?;
    namespace_registry_address_from_hash(Ok(sha512_digest(key.as_slice())))
}

/// Compute a state address for the contract registry called `name`.
pub fn compute_contract_registry_address(name: &str) -> (r: Result<Vec<u8>, AddressingError>)
    ensures
        r is Ok,
        r->Ok_0@ == contract_registry_address(name.spec_bytes()),
        r->Ok_0@.len() == ADDRESS_LEN,
        r->Ok_0@.subrange(0, 3) == contract_registry_prefix(),
        sha512(name.spec_bytes()).len() == DIGEST_LEN,
{
    contract_registry_address_from_hash(Ok(sha512_digest(name.as_bytes())))
}

/// Compute a state address for the contract `name` in `version`.
///
/// The two are joined by a comma before hashing, with nothing escaped.
pub fn compute_contract_address(name: &str, version: &str) -> (r: Result<Vec<u8>, AddressingError>)
    ensures
        r is Ok,
        r->Ok_0@ == contract_address(name.spec_bytes(), version.spec_bytes()),
        r->Ok_0@.len() == ADDRESS_LEN,
        r->Ok_0@.subrange(0, 3) == contract_prefix(),
        sha512(contract_key(name.spec_bytes(), version.spec_bytes())).len() == DIGEST_LEN,
{
    let key = encode_contract(name, version);
    contract_address_from_hash(Ok(sha512_digest(key.as_slice())))
}

/// Compute a state address for the smart permission `name` of the
/// organization `org_id`.
///
/// The organization id and the name are hashed separately, so that either
/// part of the address can be derived without the other.
pub fn compute_smart_permission_address(org_id: &str, name: &str) -> (r: Result<
    Vec<u8>,
    AddressingError,
>)
    ensures
        r is Ok,
        r->Ok_0@ == smart_permission_address(org_id.spec_bytes(), name.spec_bytes()),
        r->Ok_0@.len() == ADDRESS_LEN,
        r->Ok_0@.subrange(0, 3) == smart_permission_prefix(),
        r->Ok_0@.subrange(3, 6) == leading(
            sha512(org_id.spec_bytes()),
            SMART_PERMISSION_ORG_LEN as int,
        ),
        r->Ok_0@.subrange(6, 35) == leading(
            sha512(name.spec_bytes()),
            SMART_PERMISSION_NAME_LEN as int,
        ),
        sha512(org_id.spec_bytes()).len() == DIGEST_LEN,
        sha512(name.spec_bytes()).len() == DIGEST_LEN,
{
    let org_digest = sha512_digest(org_id.as_bytes());
    let name_digest = sha512_digest(name.as_bytes());
    smart_permission_address_from_hashes(Ok(org_digest), Ok(name_digest))
}

/// Compute a state address for the agent called `name`.
pub fn compute_agent_address(name: &[u8]) -> (r: Result<Vec<u8>, AddressingError>)
    ensures
        r is Ok,
        r->Ok_0@ == agent_address(name@),
        r->Ok_0@.len() == ADDRESS_LEN,
        r->Ok_0@.subrange(0, 4) == agent_prefix(),
        sha512(name@).len() == DIGEST_LEN,
{
    agent_address_from_hash(Ok(sha512_digest(name)))
}

/// Compute a state address for the organization `id`.
pub fn compute_org_address(id: &str) -> (r: Result<Vec<u8>, AddressingError>)
    ensures
        r is Ok,
        r->Ok_0@ == org_address(id.spec_bytes()),
        r->Ok_0@.len() == ADDRESS_LEN,
        r->Ok_0@.subrange(0, 4) == org_prefix(),
        sha512(id.spec_bytes()).len() == DIGEST_LEN,
{
    org_address_from_hash(Ok(sha512_digest(id.as_bytes())))
}

} // verus!
