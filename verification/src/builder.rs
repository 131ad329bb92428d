//! The pieces a cluster is built from: hosts, the key pair that opens them,
//! storage and addresses, and what a cluster decides about them.
//!
//! Talking to the provider is left to the caller. What the provider answered
//! comes in as plain values, and what is to be asked next goes out.

use crate::provider::InstanceInfo;
use crate::text::str_eq;
use vstd::prelude::*;
use vstd::std_specs::convert::TryFromSpecImpl;
use vstd::string::StringExecFns;

verus! {

/// A machine of the cluster.
#[derive(Clone, Debug, PartialEq, Eq)]
pub struct Host {
    pub name: String,
    pub id: String,
    pub public_ip: String,
}

/// The text that tells that an instance has no name tag.
pub open spec fn missing_name_text(id: Seq<char>) -> Seq<char> {
    "Instance '"@ + id + "' does not have a name tag"@
}

/// The text that tells that an instance has no public address.
pub open spec fn missing_ip_text(name: Seq<char>, id: Seq<char>) -> Seq<char> {
    "Instance '"@ + name + "' ("@ + id + ") does not have a public IP address"@
}

/// Whether `result` is what making a host of `instance` gives: the host with
/// the instance's name, id and address, or the text that tells which of name
/// and address is missing. The name is looked at first.
pub open spec fn host_of(instance: InstanceInfo, result: Result<Host, String>) -> bool {
    match instance.name {
        None => result matches Err(text) && text@ == missing_name_text(instance.id@),
        Some(name) => match instance.public_ip {
            None => result matches Err(text) && text@ == missing_ip_text(name@, instance.id@),
            Some(public_ip) => result == Ok::<Host, String>(
                Host { name, id: instance.id, public_ip },
            ),
        },
    }
}

impl Host {
    /// The host that an instance is, if the provider has told its name and
    /// its public address.
    pub fn from_instance(instance: InstanceInfo) -> (result: Result<Host, String>)
        ensures
            host_of(instance, result),
    {
        let name = match instance.name {
            Some(name) => name,
            None => {
                let mut text = String::from_str("Instance '");
                text.append(instance.id.as_str());
                text.append("' does not have a name tag");
                return Err(text);
            },
        };
        let public_ip = match instance.public_ip {
            Some(public_ip) => public_ip,
            None => {
                let mut text = String::from_str("Instance '");
                text.append(name.as_str());
                text.append("' (");
                text.append(instance.id.as_str());
                text.append(") does not have a public IP address");
                return Err(text);
            },
        };
        Ok(Host { name, id: instance.id, public_ip })
    }
}

impl TryFrom<InstanceInfo> for Host {
    type Error = String;

    fn try_from(instance: InstanceInfo) -> (result: Result<Host, String>)
        ensures
            host_of(instance, result),
    {
        Host::from_instance(instance)
    }
}

impl TryFromSpecImpl<InstanceInfo> for Host {
    open spec fn obeys_try_from_spec() -> bool {
        false
    }

    open spec fn try_from_spec(instance: InstanceInfo) -> Result<Host, String> {
        arbitrary()
    }
}

/// A key pair: its name at the provider, where the private key lies, and
/// the fingerprint of the public key.
#[derive(Clone, Debug, PartialEq, Eq)]
pub struct KeyPair {
    pub name: String,
    /// Path of the private key file.
    pub private_key: String,
    pub fingerprint: String,
}

/// The SHA-256 fingerprint of the key that a text in OpenSSH's public key
/// format holds; `None` for a text that is no such key.
pub uninterp spec fn openssh_fingerprint(public_key: Seq<char>) -> Option<Seq<u8>>;

/// Standard Base64 with padding, as `base64ct` writes it.
pub uninterp spec fn base64_text(bytes: Seq<u8>) -> Seq<char>;

/// Standard Base64 with padding, as `base64` writes it.
pub uninterp spec fn base64_standard(bytes: Seq<u8>) -> Seq<char>;

/// Calls `ssh_key::PublicKey::from_openssh` and, on the key it gives,
/// `fingerprint` with the default hash, which is SHA-256. Both depend on the
/// text alone. The fingerprint is the 32 bytes of the digest. A text that
/// does not parse gives the parser's account of why.
#[verifier::external_body]
fn sha256_fingerprint(public_key: &str) -> (result: Result<Vec<u8>, String>)
    ensures
        match result {
            Ok(bytes) => openssh_fingerprint(public_key@) == Some(bytes@) && bytes@.len() == 32,
            Err(_) => openssh_fingerprint(public_key@) is None,
        },
{
    match ssh_key::PublicKey::from_openssh(public_key) {
        Ok(key) => Ok(key.fingerprint(ssh_key::HashAlg::default()).as_bytes().to_vec()),
        Err(e) => Err(e.to_string()),
    }
}

/// Calls `base64ct::Base64::encode_string`, which panics on an input of more
/// than `usize::MAX / 4` bytes.
#[verifier::external_body]
fn base64_encode(bytes: &[u8]) -> (text: String)
    requires
        bytes@.len() <= usize::MAX / 4,
    ensures
        text@ == base64_text(bytes@),
{
    <base64ct::Base64 as base64ct::Encoding>::encode_string(bytes)
}

/// Calls `encode` of `base64`'s standard engine, which panics when the
/// length of the output does not fit in `usize`; an input of at most
/// `usize::MAX / 4` bytes is far from that.
#[verifier::external_body]
fn base64_standard_encode(bytes: &[u8]) -> (text: String)
    requires
        bytes@.len() <= usize::MAX / 4,
    ensures
        text@ == base64_standard(bytes@),
{
    base64::Engine::encode(&base64::prelude::BASE64_STANDARD, bytes)
}

/// What a text that is no public key is reported with, before the parser's
/// own words.
pub const PARSE_FAILURE: &'static str = "Failed to parse public key: ";

/// Whether `text` begins with `prefix`.
pub open spec fn has_prefix(text: Seq<char>, prefix: Seq<char>) -> bool {
    prefix.len() <= text.len() && text.take(prefix.len() as int) == prefix
}

/// The fingerprint that the provider shows for a public key: the Base64 of
/// its SHA-256 fingerprint.
pub open spec fn fingerprint_text(public_key: Seq<char>) -> Option<Seq<char>> {
    match openssh_fingerprint(public_key) {
        Some(bytes) => Some(base64_text(bytes)),
        None => None,
    }
}

impl KeyPair {
    /// The fingerprint of the public key that `public_key` holds in OpenSSH's
    /// format, or why the text is no such key.
    pub fn compute_fingerprint(public_key: &str) -> (result: Result<String, String>)
        ensures
            match result {
                Ok(fingerprint) => fingerprint_text(public_key@) == Some(fingerprint@),
                Err(text) => fingerprint_text(public_key@) is None && has_prefix(
                    text@,
                    PARSE_FAILURE@,
                ),
            },
    {
        match sha256_fingerprint(public_key) {
            Ok(bytes) => Ok(base64_encode(bytes.as_slice())),
            Err(cause) => {
                let mut text = String::from_str(PARSE_FAILURE);
                text.append(cause.as_str());
                assert(text@.take(PARSE_FAILURE@.len() as int) =~= PARSE_FAILURE@);
                Err(text)
            },
        }
    }

    /// Whether `fingerprint` is the fingerprint of the public key that
    /// `public_key` holds.
    pub fn fingerprint_matches_local_public_key(fingerprint: &str, public_key: &str) -> (result:
        Result<bool, String>)
        ensures
            match result {
                Ok(matches) => fingerprint_text(public_key@) matches Some(local) && matches == (
                fingerprint@ == local),
                Err(text) => fingerprint_text(public_key@) is None && has_prefix(
                    text@,
                    PARSE_FAILURE@,
                ),
            },
    {
        match KeyPair::compute_fingerprint(public_key) {
            Ok(local_fingerprint) => Ok(str_eq(fingerprint, local_fingerprint.as_str())),
            Err(text) => Err(text),
        }
    }

    /// The key material that the provider is handed on import: the Base64 of
    /// the public key file. `None` for a file too long to encode.
    pub fn public_key_material(public_key: &[u8]) -> (material: Option<String>)
        ensures
            match material {
                Some(text) => public_key@.len() <= usize::MAX / 4 && text@ == base64_standard(
                    public_key@,
                ),
                None => public_key@.len() > usize::MAX / 4,
            },
    {
        if public_key.len() <= usize::MAX / 4 {
            Some(base64_standard_encode(public_key))
        } else {
            None
        }
    }
}

/// An address of the cluster.
#[derive(Clone, Debug, PartialEq, Eq)]
pub struct IPAddress {
    pub name: String,
    pub public_ip: String,
    pub id: String,
}

pub const BUCKET_POLICY_0: &'static str =
    "{\n  \"Version\": \"2012-10-17\",\n  \"Statement\": [\n    {\n      \"Sid\": \"DenyAllExceptOwnerAndRole\",\n      \"Effect\": \"Deny\",\n      \"Principal\": \"*\",\n      \"Action\": \"s3:*\",\n      \"Resource\": [\n        \"arn:aws:s3:::";

pub const BUCKET_POLICY_1: &'static str =
    "\",\n        \"arn:aws:s3:::";

pub const BUCKET_POLICY_2: &'static str =
    "/*\"\n      ],\n      \"Condition\": {\n        \"StringNotEquals\": {\n          \"aws:PrincipalArn\": [\n            \"";

pub const BUCKET_POLICY_3: &'static str =
    "\"\n          ]\n        },\n        \"Bool\": {\n          \"aws:PrincipalIsAWSService\": \"false\"\n        }\n      }\n    },\n    {\n      \"Sid\": \"DenyListBucket\",\n      \"Effect\": \"Deny\",\n      \"Principal\": \"*\",\n      \"Action\": \"s3:ListBucket\",\n      \"Resource\": \"arn:aws:s3:::";

pub const BUCKET_POLICY_4: &'static str =
    "\",\n      \"Condition\": {\n        \"StringNotEquals\": {\n          \"aws:PrincipalArn\": [\n            \"";

pub const BUCKET_POLICY_5: &'static str =
    "\"\n          ]\n        }\n      }\n    }\n  ]\n}";

/// The policy of a bucket that only the account's owner and one role may
/// touch: a JSON text with the bucket's name in three places and the role's
/// in two.
pub open spec fn bucket_policy_text(bucket_name: Seq<char>, iam_role_arn: Seq<char>) -> Seq<char> {
    BUCKET_POLICY_0@ + bucket_name + BUCKET_POLICY_1@ + bucket_name + BUCKET_POLICY_2@
        + iam_role_arn + BUCKET_POLICY_3@ + bucket_name + BUCKET_POLICY_4@ + iam_role_arn
        + BUCKET_POLICY_5@
}

/// What a cluster keeps its files in.
#[derive(Clone, Debug, PartialEq, Eq)]
pub struct Storage {
    name: String,
    role: String,
}

impl Storage {
    pub closed spec fn spec_name(&self) -> Seq<char> {
        self.name@
    }

    pub closed spec fn spec_role(&self) -> Seq<char> {
        self.role@
    }

    pub fn new(name: String, role: String) -> (storage: Storage)
        ensures
            storage.spec_name() == name@,
            storage.spec_role() == role@,
    {
        Storage { name, role }
    }

    pub fn name(&self) -> (name: &str)
        ensures
            name@ == self.spec_name(),
    {
        self.name.as_str()
    }

    /// The role that may read and write the storage.
    pub fn role(&self) -> (role: &str)
        ensures
            role@ == self.spec_role(),
    {
        self.role.as_str()
    }

    /// The policy that keeps everyone but the owner and the given role out
    /// of the bucket.
    pub fn bucket_policy(bucket_name: &str, iam_role_arn: &str) -> (policy: String)
        ensures
            policy@ == bucket_policy_text(bucket_name@, iam_role_arn@),
    {
        let mut policy = String::from_str(BUCKET_POLICY_0);
        policy.append(bucket_name);
        policy.append(BUCKET_POLICY_1);
        policy.append(bucket_name);
        policy.append(BUCKET_POLICY_2);
        policy.append(iam_role_arn);
        policy.append(BUCKET_POLICY_3);
        policy.append(bucket_name);
        policy.append(BUCKET_POLICY_4);
        policy.append(iam_role_arn);
        policy.append(BUCKET_POLICY_5);
        policy
    }

    /// What is said when the storage could not be created.
    pub fn ensure_failure(&self) -> (text: String)
        ensures
            text@ == "Failed to create storage with name '"@ + self.spec_name() + "' and role '"@
                + self.spec_role() + "'"@,
    {
        let mut text = String::from_str("Failed to create storage with name '");
        text.append(self.name.as_str());
        text.append("' and role '");
        text.append(self.role.as_str());
        text.append("'");
        text
    }

    /// What is said when a file could not be put into the storage.
    pub fn upload_failure(file: &str, key: &str) -> (text: String)
        ensures
            text@ == "Failed to upload file '"@ + file@ + "' to storage with key '"@ + key@ + "'"@,
    {
        let mut text = String::from_str("Failed to upload file '");
        text.append(file);
        text.append("' to storage with key '");
        text.append(key);
        text.append("'");
        text
    }
}

/// Where the fingerprint of a cluster's key pair comes from.
#[derive(Clone, Debug, PartialEq, Eq)]
pub enum KeyPairSource {
    /// The provider has a key pair of the cluster's name. `fingerprints_match`
    /// tells whether the local public key has the same fingerprint.
    Existing { fingerprint: String, fingerprints_match: bool },
    /// The provider had none, and the import of the local public key gave
    /// this fingerprint.
    Imported { fingerprint: String },
}

pub const DIFFERENT_FINGERPRINT: &'static str =
    "Key pair exists in AWS but has a different fingerprint";

pub const KEY_PAIR_NOT_SET: &'static str = "Key pair is not set on cluster: ";

pub const NO_HOST_CREATED: &'static str = "No host was created";

pub const NO_HOST_AVAILABLE: &'static str = "No host was available, create one first";

/// The user that the installation logs in as.
pub const INSTALL_USER: &'static str = "ubuntu";

/// A cluster under construction: its name, the key pair that opens its
/// hosts, and the hosts found or made so far.
#[derive(Clone, Debug, PartialEq, Eq)]
pub struct Cluster {
    name: String,
    key_pair: Option<KeyPair>,
    hosts: Vec<Host>,
}

/// Whether an instance can become a host: it has a name and a public
/// address.
pub open spec fn usable(instance: InstanceInfo) -> bool {
    instance.name is Some && instance.public_ip is Some
}

pub open spec fn all_usable(instances: Seq<InstanceInfo>) -> bool {
    forall|i: int| 0 <= i < instances.len() ==> usable(#[trigger] instances[i])
}

/// Whether the instance at `i` is the first that cannot become a host.
pub open spec fn first_unusable(instances: Seq<InstanceInfo>, i: int) -> bool {
    &&& 0 <= i < instances.len()
    &&& !usable(instances[i])
    &&& forall|j: int| 0 <= j < i ==> usable(#[trigger] instances[j])
}

impl Cluster {
    pub closed spec fn spec_name(&self) -> Seq<char> {
        self.name@
    }

    pub closed spec fn spec_key_pair(&self) -> Option<KeyPair> {
        self.key_pair
    }

    pub closed spec fn spec_hosts(&self) -> Seq<Host> {
        self.hosts@
    }

    /// A cluster without key pair and hosts.
    pub fn new(name: String) -> (cluster: Cluster)
        ensures
            cluster.spec_name() == name@,
            cluster.spec_key_pair() is None,
            cluster.spec_hosts().len() == 0,
    {
        Cluster { name, key_pair: None, hosts: Vec::new() }
    }

    pub fn name(&self) -> (name: &str)
        ensures
            name@ == self.spec_name(),
    {
        self.name.as_str()
    }

    pub fn key_pair(&self) -> (key_pair: Option<&KeyPair>)
        ensures
            match key_pair {
                Some(k) => self.spec_key_pair() == Some(*k),
                None => self.spec_key_pair() is None,
            },
    {
        self.key_pair.as_ref()
    }

    pub fn hosts(&self) -> (hosts: &Vec<Host>)
        ensures
            hosts@ == self.spec_hosts(),
    {
        &self.hosts
    }

    /// Whether the cluster has a host that bears the cluster's name.
    pub open spec fn spec_has_primary_host(&self) -> bool {
        exists|i: int|
            0 <= i < self.spec_hosts().len() && (#[trigger] self.spec_hosts()[i]).name@
                == self.spec_name()
    }

    #[verifier::when_used_as_spec(spec_has_primary_host)]
    pub fn has_primary_host(&self) -> (has: bool)
        ensures
            has == self.spec_has_primary_host(),
    {
        let mut i: usize = 0;
        while i < self.hosts.len()
            invariant
                i <= self.hosts@.len(),
                forall|j: int| 0 <= j < i ==> self.hosts@[j].name@ != self.name@,
            decreases self.hosts@.len() - i,
        {
            if str_eq(self.hosts[i].name.as_str(), self.name.as_str()) {
                assert(self.spec_hosts()[i as int].name@ == self.spec_name());
                return true;
            }
            i = i + 1;
        }
        false
    }

    /// Sets the key pair. A key pair that the provider has under the
    /// cluster's name is taken if its fingerprint is that of the local public
    /// key, and refused if it is not; an imported one is taken as it is.
    pub fn set_key_pair(&mut self, private_key: &str, source: KeyPairSource) -> (result: Result<
        (),
        String,
    >)
        ensures
            final(self).spec_name() == old(self).spec_name(),
            final(self).spec_hosts() == old(self).spec_hosts(),
            match source {
                KeyPairSource::Existing { fingerprint, fingerprints_match } => if fingerprints_match {
                    &&& result is Ok
                    &&& final(self).spec_key_pair() matches Some(k)
                    &&& k.name@ == old(self).spec_name()
                    &&& k.private_key@ == private_key@
                    &&& k.fingerprint == fingerprint
                } else {
                    &&& result matches Err(text)
                    &&& text@ == DIFFERENT_FINGERPRINT@
                    &&& final(self).spec_key_pair() == old(self).spec_key_pair()
                },
                KeyPairSource::Imported { fingerprint } => {
                    &&& result is Ok
                    &&& final(self).spec_key_pair() matches Some(k)
                    &&& k.name@ == old(self).spec_name()
                    &&& k.private_key@ == private_key@
                    &&& k.fingerprint == fingerprint
                },
            },
    {
        let fingerprint = match source {
            KeyPairSource::Existing { fingerprint, fingerprints_match } => {
                if !fingerprints_match {
                    return Err(String::from_str(DIFFERENT_FINGERPRINT));
                }
                fingerprint
            },
            KeyPairSource::Imported { fingerprint } => fingerprint,
        };
        self.key_pair = Some(
            KeyPair {
                name: self.name.clone(),
                private_key: String::from_str(private_key),
                fingerprint,
            },
        );
        Ok(())
    }

    /// The name of the key pair that new hosts are made with, or the text
    /// that tells that the cluster has none.
    pub fn key_pair_name(&self) -> (result: Result<String, String>)
        ensures
            match self.spec_key_pair() {
                Some(k) => result matches Ok(name) && name@ == k.name@,
                None => result matches Err(text) && text@ == KEY_PAIR_NOT_SET@ + self.spec_name(),
            },
    {
        match &self.key_pair {
            Some(k) => Ok(k.name.clone()),
            None => {
                let mut text = String::from_str(KEY_PAIR_NOT_SET);
                text.append(self.name.as_str());
                Err(text)
            },
        }
    }

    /// Takes an instance that the provider already runs under the cluster's
    /// name as a host of the cluster.
    pub fn adopt_instance(&mut self, instance: InstanceInfo) -> (result: Result<(), String>)
        ensures
            final(self).spec_name() == old(self).spec_name(),
            final(self).spec_key_pair() == old(self).spec_key_pair(),
            match result {
                Ok(()) => exists|host: Host|
                    #[trigger] host_of(instance, Ok(host)) && final(self).spec_hosts() == old(
                        self,
                    ).spec_hosts().push(host),
                Err(text) => host_of(instance, Err(text)) && final(self).spec_hosts() == old(
                    self,
                ).spec_hosts(),
            },
    {
        match Host::from_instance(instance) {
            Ok(host) => {
                self.hosts.push(host);
                Ok(())
            },
            Err(text) => Err(text),
        }
    }

    /// Takes the first of the instances that the provider has just made as a
    /// host of the cluster. Every instance has to have a name and an address,
    /// and there has to be one at least.
    pub fn add_created(&mut self, instances: Vec<InstanceInfo>) -> (result: Result<(), String>)
        ensures
            final(self).spec_name() == old(self).spec_name(),
            final(self).spec_key_pair() == old(self).spec_key_pair(),
            match result {
                Ok(()) => {
                    &&& instances@.len() > 0
                    &&& all_usable(instances@)
                    &&& exists|host: Host|
                        #[trigger] host_of(instances@[0], Ok(host)) && final(self).spec_hosts()
                            == old(self).spec_hosts().push(host)
                },
                Err(text) => {
                    &&& final(self).spec_hosts() == old(self).spec_hosts()
                    &&& all_usable(instances@) ==> instances@.len() == 0 && text@
                        == NO_HOST_CREATED@
                    &&& !all_usable(instances@) ==> exists|i: int|
                        #[trigger] first_unusable(instances@, i) && host_of(
                            instances@[i],
                            Err(text),
                        )
                },
            },
    {
        let mut rest = instances;
        let mut first: Option<Host> = None;
        let ghost mut done: int = 0;
        while rest.len() > 0
            invariant
                0 <= done <= instances@.len(),
                rest@ == instances@.skip(done),
                forall|j: int| 0 <= j < done ==> usable(#[trigger] instances@[j]),
                done == 0 ==> first is None,
                done > 0 ==> (first matches Some(host) && host_of(instances@[0], Ok(host))),
            decreases rest@.len(),
        {
            let instance = rest.remove(0);
            assert(instance == instances@[done]);
            match Host::from_instance(instance) {
                Ok(host) => {
                    if first.is_none() {
                        first = Some(host);
                    }
                },
                Err(text) => {
                    assert(first_unusable(instances@, done));
                    assert(!usable(instances@[done]));
                    return Err(text);
                },
            }
            proof {
                assert(rest@ =~= instances@.skip(done + 1));
                done = done + 1;
            }
        }
        match first {
            Some(host) => {
                self.hosts.push(host);
                Ok(())
            },
            None => Err(String::from_str(NO_HOST_CREATED)),
        }
    }

    /// The cluster's address for what the provider allocated.
    pub fn address(&self, public_ip: String, id: String) -> (address: IPAddress)
        ensures
            address.name@ == self.spec_name(),
            address.public_ip == public_ip,
            address.id == id,
    {
        IPAddress { name: self.name.clone(), public_ip, id }
    }

    /// What attaching the primary address has to do: nothing if the first
    /// host has it already, else attach the address with the first id to the
    /// host with the second. Without a host there is nothing to attach to.
    pub fn attach_target(&self, primary_ip: &IPAddress) -> (result: Result<
        Option<(String, String)>,
        String,
    >)
        ensures
            if self.spec_hosts().len() == 0 {
                result matches Err(text) && text@ == NO_HOST_AVAILABLE@
            } else if self.spec_hosts()[0].public_ip@ == primary_ip.public_ip@ {
                result == Ok::<Option<(String, String)>, String>(None)
            } else {
                result == Ok::<Option<(String, String)>, String>(
                    Some((primary_ip.id, self.spec_hosts()[0].id)),
                )
            },
    {
        if self.hosts.len() == 0 {
            return Err(String::from_str(NO_HOST_AVAILABLE));
        }
        let host = &self.hosts[0];
        if str_eq(host.public_ip.as_str(), primary_ip.public_ip.as_str()) {
            Ok(None)
        } else {
            Ok(Some((primary_ip.id.clone(), host.id.clone())))
        }
    }
}

} // verus!
