use vstd::prelude::*;
use crate::protocol::{Build, BuildList, DeploymentConfig, DeploymentConfigList, RoleBinding, RoleBindingList};
use crate::record::{
    copy_strings, deployment, deployment_cause, no_update, no_update_marker, strings_view,
    NamespaceRecord, RecordView,
};

verus! {

/// The completion time of each build, in response order.
pub open spec fn completion_times_of(builds: Seq<Build>) -> Seq<Seq<char>> {
    builds.map_values(|b: Build| b.completion_timestamp@)
}

/// The last-update times of one config's conditions, in response order.
pub open spec fn config_times(c: DeploymentConfig) -> Seq<Seq<char>> {
    c.conditions@.map_values(|d: crate::protocol::Condition| d.last_update_time@)
}

/// The last-update times of all conditions of all configs, config by config.
pub open spec fn condition_times_of(cfgs: Seq<DeploymentConfig>) -> Seq<Seq<char>>
    decreases cfgs.len(),
{
    if cfgs.len() == 0 {
        Seq::empty()
    } else {
        condition_times_of(cfgs.drop_last()) + config_times(cfgs.last())
    }
}

/// Whether a role binding is the `admin` binding.
pub open spec fn is_admin_binding(b: RoleBinding) -> bool {
    b.name@ == "admin"@
}

/// The users that one binding contributes to the admins.
pub open spec fn binding_admins(b: RoleBinding) -> Seq<Seq<char>> {
    if is_admin_binding(b) && b.user_names is Some {
        strings_view(b.user_names->Some_0@)
    } else {
        Seq::empty()
    }
}

/// The users of all `admin` bindings, binding by binding.
pub open spec fn admins_of(bindings: Seq<RoleBinding>) -> Seq<Seq<char>>
    decreases bindings.len(),
{
    if bindings.len() == 0 {
        Seq::empty()
    } else {
        admins_of(bindings.drop_last()) + binding_admins(bindings.last())
    }
}

/// The first of the times, or `"N/A"` when there is none.
pub open spec fn first_or_marker(times: Seq<Seq<char>>) -> Seq<char> {
    if times.len() > 0 {
        times[0]
    } else {
        no_update_marker()
    }
}

/// The record that the three responses give for a namespace.
pub open spec fn aggregated(
    namespace: Seq<char>,
    cfgs: Seq<DeploymentConfig>,
    bindings: Seq<RoleBinding>,
) -> RecordView {
    RecordView {
        name: namespace,
        admins: admins_of(bindings),
        last_update: first_or_marker(condition_times_of(cfgs)),
        cause: deployment_cause(),
    }
}

/// Concatenated configs give concatenated condition times.
pub proof fn lemma_condition_times_concat(a: Seq<DeploymentConfig>, b: Seq<DeploymentConfig>)
    ensures
        condition_times_of(a + b) == condition_times_of(a) + condition_times_of(b),
    decreases b.len(),
{
    if b.len() == 0 {
        assert(a + b =~= a);
        assert(condition_times_of(a) + condition_times_of(b) =~= condition_times_of(a));
    } else {
        assert((a + b).drop_last() =~= a + b.drop_last());
        lemma_condition_times_concat(a, b.drop_last());
        assert(condition_times_of(a + b) =~= condition_times_of(a) + condition_times_of(b));
    }
}

/// Configs without conditions give no condition times.
pub proof fn lemma_no_conditions(cfgs: Seq<DeploymentConfig>)
    requires
        forall|j: int| 0 <= j < cfgs.len() ==> (#[trigger] cfgs[j]).conditions@.len() == 0,
    ensures
        condition_times_of(cfgs).len() == 0,
    decreases cfgs.len(),
{
    if cfgs.len() > 0 {
        lemma_no_conditions(cfgs.drop_last());
        assert(cfgs.last() == cfgs[cfgs.len() - 1]);
    }
}

/// When some deployment config has a condition, the last update is the time
/// of the first condition of the first such config, in response order.
pub proof fn lemma_last_update_is_first_condition(
    namespace: Seq<char>,
    cfgs: Seq<DeploymentConfig>,
    bindings: Seq<RoleBinding>,
    i: int,
)
    requires
        0 <= i < cfgs.len(),
        forall|j: int| 0 <= j < i ==> (#[trigger] cfgs[j]).conditions@.len() == 0,
        cfgs[i].conditions@.len() > 0,
    ensures
        aggregated(namespace, cfgs, bindings).last_update == cfgs[i].conditions@[0].last_update_time@,
{
    let head = cfgs.subrange(0, i);
    let rest = cfgs.subrange(i + 1, cfgs.len() as int);
    assert(cfgs =~= head + (seq![cfgs[i]] + rest));
    lemma_condition_times_concat(head, seq![cfgs[i]] + rest);
    lemma_condition_times_concat(seq![cfgs[i]], rest);
    assert forall|j: int| 0 <= j < head.len() implies (#[trigger] head[j]).conditions@.len() == 0 by {
        assert(head[j] == cfgs[j]);
    }
    lemma_no_conditions(head);
    let one = seq![cfgs[i]];
    assert(one.drop_last() =~= Seq::<DeploymentConfig>::empty());
    assert(one.last() == cfgs[i]);
    assert(condition_times_of(one.drop_last()) == Seq::<Seq<char>>::empty());
    assert(condition_times_of(one) =~= config_times(cfgs[i]));
}

/// When no deployment config has a condition, the last update is `"N/A"`.
pub proof fn lemma_last_update_without_conditions(
    namespace: Seq<char>,
    cfgs: Seq<DeploymentConfig>,
    bindings: Seq<RoleBinding>,
)
    requires
        forall|j: int| 0 <= j < cfgs.len() ==> (#[trigger] cfgs[j]).conditions@.len() == 0,
    ensures
        aggregated(namespace, cfgs, bindings).last_update == no_update_marker(),
{
    lemma_no_conditions(cfgs);
}

/// Every admin is a user listed by some role binding named `admin`; bindings
/// with any other name contribute no admin.
pub proof fn lemma_admins_come_from_admin_bindings(
    namespace: Seq<char>,
    cfgs: Seq<DeploymentConfig>,
    bindings: Seq<RoleBinding>,
    k: int,
)
    requires
        0 <= k < aggregated(namespace, cfgs, bindings).admins.len(),
    ensures
        exists|i: int|
            #![trigger bindings[i]]
            0 <= i < bindings.len() && is_admin_binding(bindings[i]) && bindings[i].user_names is Some
                && strings_view(bindings[i].user_names->Some_0@).contains(
                aggregated(namespace, cfgs, bindings).admins[k],
            ),
    decreases bindings.len(),
{
    let init = bindings.drop_last();
    let a = aggregated(namespace, cfgs, bindings).admins;
    let n = admins_of(init).len();
    if k < n {
        lemma_admins_come_from_admin_bindings(namespace, cfgs, init, k);
        assert(a[k] == admins_of(init)[k]);
        let i = choose|i: int|
            #![trigger init[i]]
            0 <= i < init.len() && is_admin_binding(init[i]) && init[i].user_names is Some
                && strings_view(init[i].user_names->Some_0@).contains(
                aggregated(namespace, cfgs, init).admins[k],
            );
        assert(init[i] == bindings[i]);
    } else {
        let last = bindings.last();
        assert(binding_admins(last).len() > 0);
        assert(a[k] == binding_admins(last)[k - n]);
        assert(strings_view(last.user_names->Some_0@).contains(a[k]));
        assert(bindings[bindings.len() - 1] == last);
    }
}

/// The completion time of each build, in response order.
pub fn build_completion_times(builds: &BuildList) -> (r: Vec<String>)
    ensures
        strings_view(r@) == completion_times_of(builds.items@),
{
    let mut r: Vec<String> = Vec::new();
    let mut i: usize = 0;
    while i < builds.items.len()
        invariant
            i <= builds.items@.len(),
            strings_view(r@) == completion_times_of(builds.items@.subrange(0, i as int)),
        decreases builds.items@.len() - i,
    {
        let ghost prev = r@;
        r.push(builds.items[i].completion_timestamp.clone());
        proof {
            let s = builds.items@.subrange(0, i + 1);
            assert(s =~= builds.items@.subrange(0, i as int).push(builds.items@[i as int]));
            assert(strings_view(r@) =~= strings_view(prev).push(
                builds.items@[i as int].completion_timestamp@,
            ));
            assert(completion_times_of(s) =~= completion_times_of(
                builds.items@.subrange(0, i as int),
            ).push(builds.items@[i as int].completion_timestamp@));
        }
        i = i + 1;
    }
    assert(builds.items@.subrange(0, builds.items@.len() as int) =~= builds.items@);
    r
}

/// Appends the last-update time of each of a config's conditions.
fn push_config_times(out: &mut Vec<String>, c: &DeploymentConfig)
    ensures
        strings_view(final(out)@) == strings_view(old(out)@) + config_times(*c),
{
    let ghost start = strings_view(out@);
    let mut j: usize = 0;
    while j < c.conditions.len()
        invariant
            j <= c.conditions@.len(),
            strings_view(out@) == start + config_times(*c).subrange(0, j as int),
        decreases c.conditions@.len() - j,
    {
        let ghost prev = out@;
        out.push(c.conditions[j].last_update_time.clone());
        proof {
            assert(strings_view(out@) =~= strings_view(prev).push(
                c.conditions@[j as int].last_update_time@,
            ));
            assert(config_times(*c).subrange(0, j + 1) =~= config_times(*c).subrange(
                0,
                j as int,
            ).push(c.conditions@[j as int].last_update_time@));
        }
        j = j + 1;
    }
    assert(config_times(*c).subrange(0, j as int) =~= config_times(*c));
}

/// The last-update times of all deployment conditions, config by config.
pub fn deployment_condition_times(deployments: &DeploymentConfigList) -> (r: Vec<String>)
    ensures
        strings_view(r@) == condition_times_of(deployments.items@),
{
    let mut r: Vec<String> = Vec::new();
    let mut i: usize = 0;
    while i < deployments.items.len()
        invariant
            i <= deployments.items@.len(),
            strings_view(r@) == condition_times_of(deployments.items@.subrange(0, i as int)),
        decreases deployments.items@.len() - i,
    {
        push_config_times(&mut r, &deployments.items[i]);
        proof {
            let s = deployments.items@.subrange(0, i + 1);
            assert(s.drop_last() =~= deployments.items@.subrange(0, i as int));
        }
        i = i + 1;
    }
    assert(deployments.items@.subrange(0, deployments.items@.len() as int)
        =~= deployments.items@);
    r
}

/// The users of all role bindings named `admin`; a binding with no user list
/// contributes nothing.
pub fn admin_users(bindings: &RoleBindingList) -> (r: Vec<String>)
    ensures
        strings_view(r@) == admins_of(bindings.items@),
{
    let admin = String::from_str("admin");
    let mut r: Vec<String> = Vec::new();
    let mut i: usize = 0;
    while i < bindings.items.len()
        invariant
            i <= bindings.items@.len(),
            admin@ == "admin"@,
            strings_view(r@) == admins_of(bindings.items@.subrange(0, i as int)),
        decreases bindings.items@.len() - i,
    {
        let b = &bindings.items[i];
        if b.name == admin {
            match &b.user_names {
                Some(users) => {
                    let mut more = copy_strings(users);
                    let ghost prev = r@;
                    r.append(&mut more);
                    assert(strings_view(r@) =~= strings_view(prev) + strings_view(users@));
                },
                None => {},
            }
        }
        proof {
            let s = bindings.items@.subrange(0, i + 1);
            assert(s.drop_last() =~= bindings.items@.subrange(0, i as int));
            assert(s.last() == *b);
        }
        i = i + 1;
    }
    assert(bindings.items@.subrange(0, bindings.items@.len() as int) =~= bindings.items@);
    r
}

/// The activity record of a namespace from its builds, deployment configs and
/// role bindings: the admins are the users of the `admin` bindings, the last
/// update is the first deployment condition's time in response order (or
/// `"N/A"`), and the cause is `"Deployment"`. Build completion times are
/// gathered but do not enter the record.
pub fn get_shelflife_info(
    namespace: &str,
    builds: &BuildList,
    deployments: &DeploymentConfigList,
    bindings: &RoleBindingList,
) -> (r: NamespaceRecord)
    ensures
        r@ == aggregated(namespace@, deployments.items@, bindings.items@),
{
    let _last_builds = build_completion_times(builds);
    let last_deploys = deployment_condition_times(deployments);
    let admins = admin_users(bindings);
    let last_update = if last_deploys.len() > 0 {
        last_deploys[0].clone()
    } else {
        no_update()
    };
    NamespaceRecord {
        name: String::from_str(namespace),
        admins,
        last_update,
        cause: deployment(),
    }
}

} // verus!
