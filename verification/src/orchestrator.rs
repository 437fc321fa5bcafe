//! Sequencing backup registration over a batch of resources: choosing the
//! resources a name filter admits, building the provider-mandated composite
//! names and request fields for each, and recording terminal outcomes
//! without letting one failing item abort the batch.

use vstd::prelude::*;

use crate::status::OperationStatus;
use crate::tracker::has_name;

verus! {

/// The identity a resource is addressed by across submit, poll and list
/// calls.
#[derive(Debug, Clone)]
pub struct ResourceRef {
    pub id: String,
    pub name: String,
}

/// The container name a virtual machine's protection is registered under.
pub open spec fn spec_container_name(group: Seq<char>, vm: Seq<char>) -> Seq<char> {
    "iaasvmcontainer;iaasvmcontainerv2;"@ + group + ";"@ + vm
}

/// The protected-item name a virtual machine's protection is registered
/// under.
pub open spec fn spec_protected_item_name(group: Seq<char>, vm: Seq<char>) -> Seq<char> {
    "vm;iaasvmcontainerv2;"@ + group + ";"@ + vm
}

/// The id of the default backup policy of a vault.
pub open spec fn spec_policy_id(sub: Seq<char>, vault_group: Seq<char>, vault: Seq<char>) -> Seq<
    char,
> {
    "/subscriptions/"@ + sub + "/resourceGroups/"@ + vault_group
        + "/providers/microsoft.recoveryservices/vaults/"@ + vault
        + "/backupPolicies/DefaultPolicy"@
}

/// The id a virtual machine is registered from.
pub open spec fn spec_source_resource_id(sub: Seq<char>, group: Seq<char>, vm: Seq<char>) -> Seq<
    char,
> {
    "/subscriptions/"@ + sub + "/resourceGroups/"@ + group
        + "/providers/Microsoft.Compute/virtualMachines/"@ + vm
}

/// The address a registration is submitted to.
pub open spec fn spec_registration_url(
    sub: Seq<char>,
    vault_group: Seq<char>,
    vault: Seq<char>,
    container: Seq<char>,
    item: Seq<char>,
) -> Seq<char> {
    "https://management.azure.com/Subscriptions/"@ + sub + "/resourceGroups/"@ + vault_group
        + "/providers/Microsoft.RecoveryServices/vaults/"@ + vault
        + "/backupFabrics/azure/protectionContainers/"@ + container + "/protectedItems/"@ + item
        + "?api-version=2019-05-13"@
}

/// The resources an optional name filter admits, in their listed order: all
/// of them when the filter is empty, else those whose name stands in it.
pub open spec fn spec_selected(vms: Seq<ResourceRef>, filter: Seq<String>) -> Seq<ResourceRef>
    decreases vms.len(),
{
    if vms.len() == 0 {
        Seq::empty()
    } else {
        let prefix = spec_selected(vms.drop_last(), filter);
        if filter.len() == 0 || has_name(filter, vms.last().name@) {
            prefix.push(vms.last())
        } else {
            prefix
        }
    }
}

/// Builds the container name for registering `vm` of resource group `group`.
pub fn container_name(group: &str, vm: &str) -> (r: String)
    ensures
        r@ == spec_container_name(group@, vm@),
{
    let mut s = String::from_str("iaasvmcontainer;iaasvmcontainerv2;");
    s.append(group);
    s.append(";");
    s.append(vm);
    s
}

/// Builds the protected-item name for registering `vm` of resource group
/// `group`.
pub fn protected_item_name(group: &str, vm: &str) -> (r: String)
    ensures
        r@ == spec_protected_item_name(group@, vm@),
{
    let mut s = String::from_str("vm;iaasvmcontainerv2;");
    s.append(group);
    s.append(";");
    s.append(vm);
    s
}

/// Builds the id of the default backup policy of `vault`.
pub fn policy_id(sub: &str, vault_group: &str, vault: &str) -> (r: String)
    ensures
        r@ == spec_policy_id(sub@, vault_group@, vault@),
{
    let mut s = String::from_str("/subscriptions/");
    s.append(sub);
    s.append("/resourceGroups/");
    s.append(vault_group);
    s.append("/providers/microsoft.recoveryservices/vaults/");
    s.append(vault);
    s.append("/backupPolicies/DefaultPolicy");
    s
}

/// Builds the id a virtual machine is registered from.
pub fn source_resource_id(sub: &str, group: &str, vm: &str) -> (r: String)
    ensures
        r@ == spec_source_resource_id(sub@, group@, vm@),
{
    let mut s = String::from_str("/subscriptions/");
    s.append(sub);
    s.append("/resourceGroups/");
    s.append(group);
    s.append("/providers/Microsoft.Compute/virtualMachines/");
    s.append(vm);
    s
}

/// One resource the filter admitted, with the composite names its
/// registration is addressed by.
pub struct RegistrationTarget {
    pub resource: ResourceRef,
    pub container_name: String,
    pub protected_item_name: String,
}

/// Chooses the resources that `filter` admits, in order, and builds each
/// one's composite names from the scope's resource group.
pub fn select_targets(vms: &Vec<ResourceRef>, filter: &Vec<String>, group: &str) -> (r: Vec<
    RegistrationTarget,
>)
    ensures
        r@.len() == spec_selected(vms@, filter@).len(),
        forall|i: int|
            0 <= i < r@.len() ==> {
                let sel = spec_selected(vms@, filter@)[i];
                (#[trigger] r@[i]).resource == sel && r@[i].container_name@ == spec_container_name(
                    group@,
                    sel.name@,
                ) && r@[i].protected_item_name@ == spec_protected_item_name(group@, sel.name@)
            },
{
    let n = vms.len();
    let mut out: Vec<RegistrationTarget> = Vec::new();
    let mut i: usize = 0;
    proof {
        assert(vms@.take(0) =~= Seq::<ResourceRef>::empty());
    }
    while i < n
        invariant
            n == vms@.len(),
            i <= n,
            out@.len() == spec_selected(vms@.take(i as int), filter@).len(),
            forall|j: int|
                0 <= j < out@.len() ==> {
                    let sel = spec_selected(vms@.take(i as int), filter@)[j];
                    (#[trigger] out@[j]).resource == sel && out@[j].container_name@
                        == spec_container_name(group@, sel.name@) && out@[j].protected_item_name@
                        == spec_protected_item_name(group@, sel.name@)
                },
        decreases n - i,
    {
        proof {
            assert(vms@.take(i + 1).drop_last() =~= vms@.take(i as int));
            assert(vms@.take(i + 1).last() == vms@[i as int]);
        }
        let admitted = filter.len() == 0 || crate::tracker::name_in(filter, &vms[i].name);
        if admitted {
            let resource = ResourceRef { id: vms[i].id.clone(), name: vms[i].name.clone() };
            let container = container_name(group, vms[i].name.as_str());
            let item = protected_item_name(group, vms[i].name.as_str());
            out.push(
                RegistrationTarget {
                    resource,
                    container_name: container,
                    protected_item_name: item,
                },
            );
        }
        i = i + 1;
    }
    proof {
        assert(vms@.take(n as int) =~= vms@);
    }
    out
}

/// Every field of one registration submission, ready for a transport to
/// serialize and send.
pub struct RegistrationRequest {
    pub url: String,
    pub id: String,
    pub name: String,
    pub container_name: String,
    pub source_resource_id: String,
    pub policy_id: String,
}

/// Builds the submission for one target: the address it is put to and the
/// body fields that tie the machine to the vault's default policy.
pub fn build_registration_request(
    sub: &str,
    group: &str,
    vault_group: &str,
    vault: &str,
    target: &RegistrationTarget,
) -> (r: RegistrationRequest)
    ensures
        r.url@ == spec_registration_url(
            sub@,
            vault_group@,
            vault@,
            target.container_name@,
            target.protected_item_name@,
        ),
        r.id@ == target.resource.id@,
        r.name@ == target.resource.name@,
        r.container_name@ == target.container_name@,
        r.source_resource_id@ == spec_source_resource_id(sub@, group@, target.resource.name@),
        r.policy_id@ == spec_policy_id(sub@, vault_group@, vault@),
{
    let mut url = String::from_str("https://management.azure.com/Subscriptions/");
    url.append(sub);
    url.append("/resourceGroups/");
    url.append(vault_group);
    url.append("/providers/Microsoft.RecoveryServices/vaults/");
    url.append(vault);
    url.append("/backupFabrics/azure/protectionContainers/");
    url.append(target.container_name.as_str());
    url.append("/protectedItems/");
    url.append(target.protected_item_name.as_str());
    url.append("?api-version=2019-05-13");
    RegistrationRequest {
        url,
        id: target.resource.id.clone(),
        name: target.resource.name.clone(),
        container_name: target.container_name.clone(),
        source_resource_id: source_resource_id(sub, group, target.resource.name.as_str()),
        policy_id: policy_id(sub, vault_group, vault),
    }
}

/// The record of one item whose polling reached a terminal status.
pub struct RegistrationOutcome {
    pub resource: ResourceRef,
    pub status: OperationStatus,
}

/// How many outcomes of the listing are successes.
pub open spec fn success_count(outcomes: Seq<RegistrationOutcome>) -> int
    decreases outcomes.len(),
{
    if outcomes.len() == 0 {
        0
    } else {
        success_count(outcomes.drop_last()) + if outcomes.last().status is Succeeded {
            1int
        } else {
            0int
        }
    }
}

proof fn lemma_success_count_bound(outcomes: Seq<RegistrationOutcome>)
    ensures
        0 <= success_count(outcomes) <= outcomes.len(),
    decreases outcomes.len(),
{
    if outcomes.len() > 0 {
        lemma_success_count_bound(outcomes.drop_last());
    }
}

/// The running record of one registration batch: the outcomes of the items
/// that reached a terminal status, in order, and how many of them succeeded.
/// An item whose poll ends in failure is recorded like any other and the
/// batch goes on; only a submission that yields no handle aborts it, and
/// then nothing is recorded for the remaining items.
pub struct BatchRegistrationOrchestrator {
    outcomes: Vec<RegistrationOutcome>,
    succeeded: usize,
    total: usize,
}

impl BatchRegistrationOrchestrator {
    /// The outcomes recorded so far, in the order the items terminated.
    pub closed spec fn spec_outcomes(&self) -> Seq<RegistrationOutcome> {
        self.outcomes@
    }

    /// How many recorded outcomes are successes.
    pub closed spec fn spec_succeeded(&self) -> int {
        self.succeeded as int
    }

    /// The number of items the batch set out with.
    pub closed spec fn spec_total(&self) -> int {
        self.total as int
    }

    /// The invariant of a batch record: the success counter counts exactly
    /// the `Succeeded` outcomes, and no more outcomes are recorded than the
    /// batch has items.
    pub open spec fn well_formed(&self) -> bool {
        &&& self.spec_succeeded() == success_count(self.spec_outcomes())
        &&& self.spec_outcomes().len() <= self.spec_total()
    }

    /// Starts the record of a batch of `total` items.
    pub fn new(total: usize) -> (r: BatchRegistrationOrchestrator)
        ensures
            r.spec_outcomes() =~= Seq::<RegistrationOutcome>::empty(),
            r.spec_succeeded() == 0,
            r.spec_total() == total,
            r.well_formed(),
    {
        BatchRegistrationOrchestrator { outcomes: Vec::new(), succeeded: 0, total }
    }

    /// Records that one item's polling terminated with `status`.  The
    /// outcome is appended, never replacing or dropping an earlier one, and
    /// the success counter grows exactly when the status is `Succeeded`.
    pub fn record_outcome(&mut self, resource: ResourceRef, status: OperationStatus)
        requires
            old(self).well_formed(),
            old(self).spec_outcomes().len() < old(self).spec_total(),
        ensures
            final(self).spec_outcomes() == old(self).spec_outcomes().push(
                (RegistrationOutcome { resource, status }),
            ),
            final(self).spec_succeeded() == old(self).spec_succeeded() + if status is Succeeded {
                1int
            } else {
                0int
            },
            final(self).spec_total() == old(self).spec_total(),
            final(self).well_formed(),
    {
        proof {
            lemma_success_count_bound(self.outcomes@);
        }
        let succeeded = status.is_succeeded();
        self.outcomes.push(RegistrationOutcome { resource, status });
        if succeeded {
            self.succeeded = self.succeeded + 1;
        }
        proof {
            assert(self.outcomes@.drop_last() =~= old(self).spec_outcomes());
        }
    }

    /// The recorded outcomes.
    pub fn outcomes(&self) -> (r: &Vec<RegistrationOutcome>)
        ensures
            r@ == self.spec_outcomes(),
    {
        &self.outcomes
    }

    /// The progress pair a batch reports: how many items succeeded, of how
    /// many in all.
    pub fn progress(&self) -> (r: (usize, usize))
        ensures
            r.0 == self.spec_succeeded(),
            r.1 == self.spec_total(),
    {
        (self.succeeded, self.total)
    }
}

} // verus!
