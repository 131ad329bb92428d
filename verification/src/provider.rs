//! What a cloud provider tells about the machines it runs, in plain values.

use crate::text::decimal;
use crate::text::decimal_string;
use crate::text::signed_decimal;
use crate::text::signed_decimal_string;
use crate::text::str_eq;
use vstd::prelude::*;
use vstd::string::StringExecFns;

verus! {

/// The states in the life of an instance.
#[derive(Clone, Copy, Debug, PartialEq, Eq, Structural)]
pub enum InstanceState {
    Pending,
    Running,
    ShuttingDown,
    Terminated,
    Stopping,
    Stopped,
}

/// An instance, as far as the provider has told about it.
#[derive(Clone, Debug, PartialEq, Eq)]
pub struct InstanceInfo {
    pub id: String,
    pub name: Option<String>,
    pub public_ip: Option<String>,
    pub state: Option<InstanceState>,
}

/// A key pair that the provider knows.
#[derive(Clone, Debug, PartialEq, Eq)]
pub struct KeyPair {
    pub name: String,
    pub fingerprint: String,
}

/// An address that the provider has allocated.
#[derive(Clone, Debug, PartialEq, Eq)]
pub struct Address {
    pub name: String,
    pub public_ip: String,
    pub fingerprint: String,
}

/// The state that a provider's state name stands for.
pub open spec fn state_of_name(name: Seq<char>) -> Option<InstanceState> {
    if name == "pending"@ {
        Some(InstanceState::Pending)
    } else if name == "running"@ {
        Some(InstanceState::Running)
    } else if name == "shutting-down"@ {
        Some(InstanceState::ShuttingDown)
    } else if name == "terminated"@ {
        Some(InstanceState::Terminated)
    } else if name == "stopping"@ {
        Some(InstanceState::Stopping)
    } else if name == "stopped"@ {
        Some(InstanceState::Stopped)
    } else {
        None
    }
}

impl InstanceState {
    /// Reads a state name as the provider writes it. A name that is none of
    /// the six gives `None`.
    pub fn from_name(name: &str) -> (state: Option<InstanceState>)
        ensures
            state == state_of_name(name@),
    {
        if str_eq(name, "pending") {
            Some(InstanceState::Pending)
        } else if str_eq(name, "running") {
            Some(InstanceState::Running)
        } else if str_eq(name, "shutting-down") {
            Some(InstanceState::ShuttingDown)
        } else if str_eq(name, "terminated") {
            Some(InstanceState::Terminated)
        } else if str_eq(name, "stopping") {
            Some(InstanceState::Stopping)
        } else if str_eq(name, "stopped") {
            Some(InstanceState::Stopped)
        } else {
            None
        }
    }
}

impl InstanceInfo {
    /// Whether the instance can be used: it runs and has a public address.
    pub open spec fn spec_is_ready(&self) -> bool {
        self.state == Some(InstanceState::Running) && self.public_ip is Some
    }

    #[verifier::when_used_as_spec(spec_is_ready)]
    pub fn is_ready(&self) -> (ready: bool)
        ensures
            ready == self.spec_is_ready(),
    {
        let running = match self.state {
            Some(InstanceState::Running) => true,
            _ => false,
        };
        running && self.public_ip.is_some()
    }

    /// Whether the instance has been terminated.
    pub open spec fn spec_is_terminated(&self) -> bool {
        self.state == Some(InstanceState::Terminated)
    }

    #[verifier::when_used_as_spec(spec_is_terminated)]
    pub fn is_terminated(&self) -> (terminated: bool)
        ensures
            terminated == self.spec_is_terminated(),
    {
        match self.state {
            Some(InstanceState::Terminated) => true,
            _ => false,
        }
    }
}

/// The first instance that has not been terminated, with its place among
/// `instances`.
pub fn first_live_instance(instances: &Vec<InstanceInfo>) -> (found: Option<usize>)
    ensures
        match found {
            Some(i) => {
                &&& i < instances@.len()
                &&& !instances@[i as int].spec_is_terminated()
                &&& forall|j: int| 0 <= j < i ==> instances@[j].spec_is_terminated()
            },
            None => forall|j: int| 0 <= j < instances@.len() ==> instances@[j].spec_is_terminated(),
        },
{
    let mut i: usize = 0;
    while i < instances.len()
        invariant
            i <= instances@.len(),
            forall|j: int| 0 <= j < i ==> instances@[j].spec_is_terminated(),
        decreases instances@.len() - i,
    {
        if !instances[i].is_terminated() {
            return Some(i);
        }
        i = i + 1;
    }
    None
}

/// A label on a resource of the provider.
#[derive(Clone, Debug, PartialEq, Eq)]
pub struct Tag {
    pub key: Option<String>,
    pub value: Option<String>,
}

/// An instance as the provider's answer describes it. Any part may be
/// missing.
#[derive(Clone, Debug, PartialEq, Eq)]
pub struct RawInstance {
    pub instance_id: Option<String>,
    pub tags: Vec<Tag>,
    pub state: Option<InstanceState>,
    pub public_ip_address: Option<String>,
}

/// The key of the tag that holds an instance's name.
pub const NAME_TAG: &'static str = "Name";

pub const MISSING_INSTANCE_ID: &'static str =
    "Encountered an instance without an ID in AWS response";

/// Seconds to wait for new instances to run and have an address.
pub const WAIT_TIMEOUT_SECS: u64 = 300;

/// Seconds between two looks at the instances waited for.
pub const POLL_INTERVAL_SECS: u64 = 5;

/// Whether a tag is a name tag.
pub open spec fn is_name_tag(tag: Tag) -> bool {
    tag.key matches Some(k) && k@ == NAME_TAG@
}

/// The value of the first name tag; `None` if there is no name tag or the
/// first one has no value.
pub open spec fn name_tag(tags: Seq<Tag>) -> Option<String>
    decreases tags.len(),
{
    if tags.len() == 0 {
        None
    } else if is_name_tag(tags.first()) {
        tags.first().value
    } else {
        name_tag(tags.drop_first())
    }
}

/// The name that an instance's tags give it.
pub fn find_name(tags: &Vec<Tag>) -> (name: Option<String>)
    ensures
        name == name_tag(tags@),
{
    let mut i: usize = 0;
    assert(tags@.skip(0) =~= tags@);
    while i < tags.len()
        invariant
            i <= tags@.len(),
            name_tag(tags@) == name_tag(tags@.skip(i as int)),
        decreases tags@.len() - i,
    {
        let found = match &tags[i].key {
            Some(k) => str_eq(k.as_str(), NAME_TAG),
            None => false,
        };
        proof {
            assert(tags@.skip(i as int).first() == tags@[i as int]);
            assert(tags@.skip(i as int).drop_first() =~= tags@.skip(i + 1));
        }
        if found {
            return match &tags[i].value {
                Some(v) => Some(v.clone()),
                None => None,
            };
        }
        i = i + 1;
    }
    None
}

/// What is known of an instance that has an id.
pub open spec fn info_of(raw: RawInstance) -> InstanceInfo {
    InstanceInfo {
        id: raw.instance_id->0,
        name: name_tag(raw.tags@),
        public_ip: raw.public_ip_address,
        state: raw.state,
    }
}

/// The instances of all reservations, in the order of the answer.
pub open spec fn all_instances(reservations: Seq<Vec<RawInstance>>) -> Seq<RawInstance>
    decreases reservations.len(),
{
    if reservations.len() == 0 {
        Seq::empty()
    } else {
        all_instances(reservations.drop_last()) + reservations.last()@
    }
}

/// Whether every instance has an id.
pub open spec fn all_identified(instances: Seq<RawInstance>) -> bool {
    forall|i: int| 0 <= i < instances.len() ==> (#[trigger] instances[i]).instance_id is Some
}

/// What is known of each instance of an answer, in the order of the answer.
/// An instance without an id makes the whole answer unusable.
pub fn instances_from_response(reservations: &Vec<Vec<RawInstance>>) -> (result: Result<
    Vec<InstanceInfo>,
    String,
>)
    ensures
        match result {
            Ok(instances) => {
                &&& all_identified(all_instances(reservations@))
                &&& instances@ == all_instances(reservations@).map_values(
                    |raw: RawInstance| info_of(raw),
                )
            },
            Err(text) => !all_identified(all_instances(reservations@)) && text@
                == MISSING_INSTANCE_ID@,
        },
{
    let mut instances: Vec<InstanceInfo> = Vec::new();
    let mut i: usize = 0;
    while i < reservations.len()
        invariant
            i <= reservations@.len(),
            all_identified(all_instances(reservations@.take(i as int))),
            instances@ == all_instances(reservations@.take(i as int)).map_values(
                |raw: RawInstance| info_of(raw),
            ),
        decreases reservations@.len() - i,
    {
        let reservation = &reservations[i];
        let ghost before = all_instances(reservations@.take(i as int));
        proof {
            assert(reservations@.take(i + 1).drop_last() =~= reservations@.take(i as int));
            assert(reservations@.take(i + 1).last() == reservations@[i as int]);
        }
        let mut j: usize = 0;
        while j < reservation.len()
            invariant
                i < reservations@.len(),
                reservation == reservations@[i as int],
                before == all_instances(reservations@.take(i as int)),
                j <= reservation@.len(),
                all_identified(before + reservation@.take(j as int)),
                instances@ == (before + reservation@.take(j as int)).map_values(
                    |raw: RawInstance| info_of(raw),
                ),
            decreases reservation@.len() - j,
        {
            let raw = &reservation[j];
            proof {
                assert(before + reservation@.take(j + 1) =~= (before + reservation@.take(
                    j as int,
                )).push(*raw));
            }
            let id = match &raw.instance_id {
                Some(id) => id.clone(),
                None => {
                    proof {
                        lemma_unidentified(reservations@, i as int, j as int);
                    }
                    return Err(String::from_str(MISSING_INSTANCE_ID));
                },
            };
            let public_ip = match &raw.public_ip_address {
                Some(ip) => Some(ip.clone()),
                None => None,
            };
            instances.push(
                InstanceInfo { id, name: find_name(&raw.tags), public_ip, state: raw.state },
            );
            assert(instances@ =~= (before + reservation@.take(j + 1)).map_values(
                |raw: RawInstance| info_of(raw),
            ));
            j = j + 1;
        }
        proof {
            assert(reservation@.take(j as int) =~= reservation@);
        }
        i = i + 1;
    }
    proof {
        assert(reservations@.take(i as int) =~= reservations@);
    }
    Ok(instances)
}

/// An instance without an id in some reservation is one among all
/// instances.
proof fn lemma_unidentified(reservations: Seq<Vec<RawInstance>>, i: int, j: int)
    requires
        0 <= i < reservations.len(),
        0 <= j < reservations[i]@.len(),
        reservations[i]@[j].instance_id is None,
    ensures
        !all_identified(all_instances(reservations)),
    decreases reservations.len(),
{
    let all = all_instances(reservations);
    let before = all_instances(reservations.drop_last());
    if i == reservations.len() - 1 {
        assert(all[before.len() + j] == reservations[i]@[j]);
    } else {
        lemma_unidentified(reservations.drop_last(), i, j);
        let k = choose|k: int| 0 <= k < before.len() && !((#[trigger] before[k]).instance_id is Some);
        assert(all[k] == before[k]);
    }
}

/// What a look at the instances waited for has found.
#[derive(Clone, Debug, PartialEq, Eq)]
pub struct WaitRound {
    /// The instances that are ready now.
    pub ready: Vec<InstanceInfo>,
    /// The ids of those that have to be looked at again.
    pub pending: Vec<String>,
}

/// Whether some ready instance among `instances` has the id `id`.
pub open spec fn has_ready_id(instances: Seq<InstanceInfo>, id: Seq<char>) -> bool {
    exists|k: int|
        0 <= k < instances.len() && (#[trigger] instances[k]).spec_is_ready() && instances[k].id@
            == id
}

/// The ids of the instances that are not ready, in their order.
pub open spec fn pending_ids(instances: Seq<InstanceInfo>) -> Seq<Seq<char>>
    decreases instances.len(),
{
    if instances.len() == 0 {
        Seq::empty()
    } else if instances.last().spec_is_ready() {
        pending_ids(instances.drop_last())
    } else {
        pending_ids(instances.drop_last()).push(instances.last().id@)
    }
}

/// The instances, in their order, whose id is that of a ready instance
/// among `all`.
pub open spec fn ready_among(instances: Seq<InstanceInfo>, all: Seq<InstanceInfo>) -> Seq<
    InstanceInfo,
>
    decreases instances.len(),
{
    if instances.len() == 0 {
        Seq::empty()
    } else if has_ready_id(all, instances.last().id@) {
        ready_among(instances.drop_last(), all).push(instances.last())
    } else {
        ready_among(instances.drop_last(), all)
    }
}

/// The texts that the strings hold.
pub open spec fn texts(strings: Seq<String>) -> Seq<Seq<char>> {
    strings.map_values(|s: String| s@)
}

fn contains_id(ids: &Vec<String>, id: &str) -> (found: bool)
    ensures
        found == exists|k: int| 0 <= k < ids@.len() && (#[trigger] ids@[k])@ == id@,
{
    let mut k: usize = 0;
    while k < ids.len()
        invariant
            k <= ids@.len(),
            forall|m: int| 0 <= m < k ==> (#[trigger] ids@[m])@ != id@,
        decreases ids@.len() - k,
    {
        if str_eq(ids[k].as_str(), id) {
            return true;
        }
        k = k + 1;
    }
    false
}

/// Sorts what a look at the provider has found: the instances that are
/// ready, and the ids of those that are not. An instance counts as ready if
/// its id is that of an instance that runs and has a public address.
pub fn sort_instances(instances: Vec<InstanceInfo>) -> (round: WaitRound)
    ensures
        round.ready@ == ready_among(instances@, instances@),
        texts(round.pending@) == pending_ids(instances@),
{
    let mut pending: Vec<String> = Vec::new();
    let mut ready_ids: Vec<String> = Vec::new();
    let mut i: usize = 0;
    while i < instances.len()
        invariant
            i <= instances@.len(),
            texts(pending@) == pending_ids(instances@.take(i as int)),
            forall|id: Seq<char>|
                (exists|k: int| 0 <= k < ready_ids@.len() && (#[trigger] ready_ids@[k])@ == id)
                    <==> #[trigger] has_ready_id(instances@.take(i as int), id),
        decreases instances@.len() - i,
    {
        let ghost seen = instances@.take(i as int);
        let ghost next = instances@.take(i + 1);
        let ghost old_ready_ids = ready_ids@;
        proof {
            assert(next.drop_last() =~= seen);
            assert(next.last() == instances@[i as int]);
        }
        if instances[i].is_ready() {
            ready_ids.push(instances[i].id.clone());
        } else {
            pending.push(instances[i].id.clone());
            assert(texts(pending@) =~= pending_ids(next));
        }
        proof {
            assert forall|id: Seq<char>|
                (exists|k: int| 0 <= k < ready_ids@.len() && (#[trigger] ready_ids@[k])@ == id)
                    <==> #[trigger] has_ready_id(next, id) by {
                if has_ready_id(next, id) {
                    let k = choose|k: int|
                        0 <= k < next.len() && (#[trigger] next[k]).spec_is_ready() && next[k].id@
                            == id;
                    if k < i {
                        assert(seen[k] == next[k]);
                        assert(has_ready_id(seen, id));
                        let m = choose|m: int|
                            0 <= m < old_ready_ids.len() && (#[trigger] old_ready_ids[m])@ == id;
                        assert(ready_ids@[m] == old_ready_ids[m]);
                    } else {
                        assert(ready_ids@[ready_ids@.len() - 1]@ == id);
                    }
                }
                if exists|k: int| 0 <= k < ready_ids@.len() && (#[trigger] ready_ids@[k])@ == id {
                    let m = choose|m: int|
                        0 <= m < ready_ids@.len() && (#[trigger] ready_ids@[m])@ == id;
                    if m < old_ready_ids.len() {
                        assert(old_ready_ids[m] == ready_ids@[m]);
                        assert(has_ready_id(seen, id));
                        let k = choose|k: int|
                            0 <= k < seen.len() && (#[trigger] seen[k]).spec_is_ready()
                                && seen[k].id@ == id;
                        assert(next[k] == seen[k]);
                    } else {
                        assert(next[i as int].spec_is_ready() && next[i as int].id@ == id);
                    }
                }
            }
        }
        i = i + 1;
    }
    proof {
        assert(instances@.take(i as int) =~= instances@);
    }
    let mut ready: Vec<InstanceInfo> = Vec::new();
    let mut rest = instances;
    let ghost mut done: int = 0;
    while rest.len() > 0
        invariant
            0 <= done <= instances@.len(),
            rest@ == instances@.skip(done),
            ready@ == ready_among(instances@.take(done), instances@),
            forall|id: Seq<char>|
                (exists|k: int| 0 <= k < ready_ids@.len() && (#[trigger] ready_ids@[k])@ == id)
                    <==> #[trigger] has_ready_id(instances@, id),
        decreases rest@.len(),
    {
        let instance = rest.remove(0);
        proof {
            assert(instance == instances@[done]);
            assert(instances@.take(done + 1).drop_last() =~= instances@.take(done));
            assert(instances@.take(done + 1).last() == instance);
            assert(rest@ =~= instances@.skip(done + 1));
        }
        if contains_id(&ready_ids, instance.id.as_str()) {
            assert(has_ready_id(instances@, instance.id@));
            ready.push(instance);
        } else {
            assert(!has_ready_id(instances@, instance.id@));
        }
        proof {
            done = done + 1;
        }
    }
    proof {
        assert(instances@.take(done) =~= instances@);
    }
    WaitRound { ready, pending }
}

/// What is said when the wait for instances has taken too long.
pub fn timed_out(ready: usize, pending: usize) -> (text: String)
    ensures
        text@
            == "Timed out waiting for instances to become available with public IPs. Ready: "@
            + decimal(ready as nat) + ", Pending: "@ + decimal(pending as nat),
{
    let mut text = String::from_str(
        "Timed out waiting for instances to become available with public IPs. Ready: ",
    );
    text.append(decimal_string(ready as u128).as_str());
    text.append(", Pending: ");
    text.append(decimal_string(pending as u128).as_str());
    text
}

/// The number of instances to ask the provider for, which counts in `i32`.
pub fn instance_count(count: i64) -> (result: Result<i32, String>)
    ensures
        match result {
            Ok(n) => n == count,
            Err(text) => (count < i32::MIN || count > i32::MAX) && text@
                == "Invalid instance count: "@ + signed_decimal(count as int)
                + " (must fit within i32 range)"@,
        },
{
    if count < -2147483648 || count > 2147483647 {
        let mut text = String::from_str("Invalid instance count: ");
        text.append(signed_decimal_string(count).as_str());
        text.append(" (must fit within i32 range)");
        return Err(text);
    }
    Ok(count as i32)
}

/// The ids that are there, in their order.
pub open spec fn present(ids: Seq<Option<String>>) -> Seq<String>
    decreases ids.len(),
{
    if ids.len() == 0 {
        Seq::empty()
    } else {
        match ids.last() {
            Some(id) => present(ids.drop_last()).push(id),
            None => present(ids.drop_last()),
        }
    }
}

/// The ids of the instances that the provider has made for `name`, to wait
/// for. The provider has to have made one instance at least, and one at
/// least has to have an id.
pub fn created_instance_ids(name: &str, ids: Vec<Option<String>>) -> (result: Result<
    Vec<String>,
    String,
>)
    ensures
        match result {
            Ok(found) => found@.len() > 0 && found@ == present(ids@),
            Err(text) => if ids@.len() == 0 {
                text@ == "No instances returned from AWS when creating instances for '"@ + name@
                    + "'"@
            } else {
                present(ids@).len() == 0 && text@
                    == "No valid instance IDs found in AWS response when creating instances for '"@
                    + name@ + "'"@
            },
        },
{
    if ids.len() == 0 {
        let mut text = String::from_str(
            "No instances returned from AWS when creating instances for '",
        );
        text.append(name);
        text.append("'");
        return Err(text);
    }
    let mut found: Vec<String> = Vec::new();
    let mut rest = ids;
    let ghost mut done: int = 0;
    while rest.len() > 0
        invariant
            0 <= done <= ids@.len(),
            rest@ == ids@.skip(done),
            found@ == present(ids@.take(done)),
        decreases rest@.len(),
    {
        let id = rest.remove(0);
        proof {
            assert(id == ids@[done]);
            assert(ids@.take(done + 1).drop_last() =~= ids@.take(done));
            assert(ids@.take(done + 1).last() == id);
            assert(rest@ =~= ids@.skip(done + 1));
            done = done + 1;
        }
        match id {
            Some(id) => found.push(id),
            None => {},
        }
    }
    proof {
        assert(ids@.take(done) =~= ids@);
    }
    if found.len() == 0 {
        let mut text = String::from_str(
            "No valid instance IDs found in AWS response when creating instances for '",
        );
        text.append(name);
        text.append("'");
        return Err(text);
    }
    Ok(found)
}

} // verus!
