//! Subscription group management: the table of subscription group
//! configurations with its data version, group-name validation, and the
//! lookup-or-auto-create logic of the broker.

use vstd::prelude::*;
use vstd::string::StrSliceExecFns;
use vstd::string::StringExecFns;

use crate::config::BrokerConfig;
use crate::strutil::assoc_lookup;
use crate::strutil::assoc_put;
use crate::strutil::assoc_put_all;
use crate::strutil::lemma_assoc_lookup_push;
use crate::strutil::lemma_assoc_put_absent;
use crate::strutil::lemma_assoc_put_at;

verus! {

/// Group and topic names longer than this are rejected.
pub const CHARACTER_MAX_LENGTH: usize = 255;

/// Topic names longer than this are rejected.
pub const TOPIC_MAX_LENGTH: usize = 127;

/// A monotone version stamp on the subscription group table.
#[derive(Clone, Copy, PartialEq, Eq, Structural, Debug)]
pub struct DataVersion {
    /// The state-machine version the last change was made under.
    pub state_version: i64,
    /// How many changes have been recorded.
    pub counter: u64,
}

impl DataVersion {
    /// Takes over another stamp wholesale.
    pub fn assign_new_one(&mut self, other: &DataVersion)
        ensures
            *final(self) == *other,
    {
        self.state_version = other.state_version;
        self.counter = other.counter;
    }

    /// Records one more change under the given state-machine version.
    pub fn next_version_with(&mut self, state_machine_version: i64)
        requires
            old(self).counter < u64::MAX,
        ensures
            final(self).counter == old(self).counter + 1,
            final(self).state_version == state_machine_version,
    {
        self.counter = self.counter + 1;
        self.state_version = state_machine_version;
    }
}

/// The per-group consumption settings the broker keeps.
pub struct SubscriptionGroupConfig {
    /// The consumer group's name.
    pub group_name: String,
    /// Whether the group may consume at all.
    pub consume_enable: bool,
    /// How many retry queues the group gets.
    pub retry_queue_nums: u32,
    /// How often a message is retried before going to the dead-letter
    /// queue.
    pub retry_max_times: u32,
}

impl SubscriptionGroupConfig {
    /// Replaces the group name.
    pub fn set_group_name(&mut self, group_name: String)
        ensures
            *final(self) == (SubscriptionGroupConfig { group_name, ..*old(self) }),
    {
        self.group_name = group_name;
    }
}

impl Clone for SubscriptionGroupConfig {
    /// An equal copy.
    fn clone(&self) -> (config: Self)
        ensures
            config == *self,
    {
        SubscriptionGroupConfig {
            group_name: self.group_name.clone(),
            consume_enable: self.consume_enable,
            retry_queue_nums: self.retry_queue_nums,
            retry_max_times: self.retry_max_times,
        }
    }
}

impl Default for SubscriptionGroupConfig {
    /// The defaults a freshly auto-created group gets: consumption
    /// enabled, one retry queue, sixteen retries, an empty name.
    fn default() -> (config: Self)
        ensures
            config.group_name@ == Seq::<char>::empty(),
            config.consume_enable == true,
            config.retry_queue_nums == 1,
            config.retry_max_times == 16,
    {
        SubscriptionGroupConfig {
            group_name: String::new(),
            consume_enable: true,
            retry_queue_nums: 1,
            retry_max_times: 16,
        }
    }
}

/// Whether the group is a system consumer group: its name starts with
/// `CID_RMQ_SYS_`.
pub open spec fn is_sys_consumer_group_spec(group: Seq<char>) -> bool {
    group.len() >= "CID_RMQ_SYS_"@.len() && group.subrange(0, "CID_RMQ_SYS_"@.len() as int)
        == "CID_RMQ_SYS_"@
}

/// Whether the group is a system consumer group.
pub fn is_sys_consumer_group(consumer_group: &str) -> (sys: bool)
    ensures
        sys == is_sys_consumer_group_spec(consumer_group@),
{
    proof {
        reveal_strlit("CID_RMQ_SYS_");
    }
    let n = consumer_group.unicode_len();
    if n < 12 {
        false
    } else {
        let head: String = consumer_group.substring_char(0, 12).to_owned();
        let prefix: String = String::from_str("CID_RMQ_SYS_");
        head == prefix
    }
}

/// The characters a topic or group name may consist of: `%`, `|`, `_`,
/// `-`, letters and digits.
pub open spec fn valid_name_char(c: char) -> bool {
    c == '%' || c == '|' || c == '_' || c == '-' || ('a' as u32) <= (c as u32) <= ('z' as u32) || (
    'A' as u32) <= (c as u32) <= ('Z' as u32) || ('0' as u32) <= (c as u32) <= ('9' as u32)
}

/// Whether a topic or group name is illegal: empty, or holding a
/// character outside the permitted set.
pub open spec fn name_illegal_spec(name: Seq<char>) -> bool {
    name.len() == 0 || exists|i: int| 0 <= i < name.len() && !valid_name_char(name[i])
}

/// Whether a topic or group name is illegal.
pub fn is_topic_or_group_illegal(name: &str) -> (illegal: bool)
    ensures
        illegal == name_illegal_spec(name@),
{
    let n = name.unicode_len();
    if n == 0 {
        return true;
    }
    let mut j: usize = 0;
    while j < n
        invariant
            j <= n,
            n == name@.len(),
            forall|k: int| 0 <= k < j ==> valid_name_char(name@[k]),
        decreases n - j,
    {
        let c = name.get_char(j);
        let ok = c == '%' || c == '|' || c == '_' || c == '-' || ((c as u32) >= ('a' as u32) && (
        c as u32) <= ('z' as u32)) || ((c as u32) >= ('A' as u32) && (c as u32) <= ('Z' as u32))
            || ((c as u32) >= ('0' as u32) && (c as u32) <= ('9' as u32));
        if !ok {
            return true;
        }
        j = j + 1;
    }
    false
}

/// The subscription group table with its version stamp: group
/// configurations keyed by group name, and the per-group forbidden flags.
pub struct SubscriptionGroupWrapper {
    subscription_group_table: Vec<(String, SubscriptionGroupConfig)>,
    forbidden_table: Vec<(String, Vec<(String, i32)>)>,
    data_version: DataVersion,
}

impl SubscriptionGroupWrapper {
    /// The group configurations, keyed by group name, in insertion order.
    pub closed spec fn table_view(self) -> Seq<(String, SubscriptionGroupConfig)> {
        self.subscription_group_table@
    }

    /// The per-group forbidden flags.
    pub closed spec fn forbidden_view(self) -> Seq<(String, Vec<(String, i32)>)> {
        self.forbidden_table@
    }

    /// The version stamp.
    pub closed spec fn version_view(self) -> DataVersion {
        self.data_version
    }

    /// An empty table at version zero.
    pub fn new() -> (wrapper: SubscriptionGroupWrapper)
        ensures
            wrapper.table_view() == Seq::<(String, SubscriptionGroupConfig)>::empty(),
            wrapper.forbidden_view() == Seq::<(String, Vec<(String, i32)>)>::empty(),
            wrapper.version_view() == (DataVersion { state_version: 0, counter: 0 }),
    {
        SubscriptionGroupWrapper {
            subscription_group_table: Vec::new(),
            forbidden_table: Vec::new(),
            data_version: DataVersion { state_version: 0, counter: 0 },
        }
    }

    /// The group configuration table.
    pub fn subscription_group_table(&self) -> (table: &Vec<(String, SubscriptionGroupConfig)>)
        ensures
            table@ == self.table_view(),
    {
        &self.subscription_group_table
    }

    /// The per-group forbidden flags.
    pub fn forbidden_table(&self) -> (table: &Vec<(String, Vec<(String, i32)>)>)
        ensures
            table@ == self.forbidden_view(),
    {
        &self.forbidden_table
    }

    /// The version stamp.
    pub fn get_data_version(&self) -> (version: &DataVersion)
        ensures
            *version == self.version_view(),
    {
        &self.data_version
    }

    /// Stores one group configuration: the first entry under the same
    /// group name is replaced, a fresh name goes to the end of the table.
    pub fn put_group_config(&mut self, group_name: String, config: SubscriptionGroupConfig)
        ensures
            final(self).table_view() == assoc_put(old(self).table_view(), (group_name, config)),
            final(self).forbidden_view() == old(self).forbidden_view(),
            final(self).version_view() == old(self).version_view(),
    {
        let entry = (group_name, config);
        let mut j: usize = 0;
        let end = self.subscription_group_table.len();
        while j < end
            invariant
                *self == *old(self),
                entry == (group_name, config),
                j <= end,
                end == self.subscription_group_table@.len(),
                forall|k: int|
                    0 <= k < j ==> (#[trigger] self.subscription_group_table@[k]).0@ != entry.0@,
            decreases end - j,
        {
            if self.subscription_group_table[j].0 == entry.0 {
                let ghost t0 = self.subscription_group_table@;
                proof {
                    lemma_assoc_put_at(t0, entry, j as int);
                }
                let _replaced = self.subscription_group_table.remove(j);
                self.subscription_group_table.insert(j, entry);
                proof {
                    assert(self.subscription_group_table@ =~= t0.update(j as int, entry));
                }
                return ;
            }
            j = j + 1;
        }
        proof {
            lemma_assoc_put_absent(self.subscription_group_table@, entry);
        }
        self.subscription_group_table.push(entry);
    }

    /// Stores one group's forbidden flags, under the same
    /// replace-or-append rule as `put_group_config`.
    pub fn put_forbidden_entry(&mut self, group_name: String, flags: Vec<(String, i32)>)
        ensures
            final(self).forbidden_view() == assoc_put(old(self).forbidden_view(), (
                group_name,
                flags,
            )),
            final(self).table_view() == old(self).table_view(),
            final(self).version_view() == old(self).version_view(),
    {
        let entry = (group_name, flags);
        let mut j: usize = 0;
        let end = self.forbidden_table.len();
        while j < end
            invariant
                *self == *old(self),
                entry == (group_name, flags),
                j <= end,
                end == self.forbidden_table@.len(),
                forall|k: int| 0 <= k < j ==> (#[trigger] self.forbidden_table@[k]).0@ != entry.0@,
            decreases end - j,
        {
            if self.forbidden_table[j].0 == entry.0 {
                let ghost t0 = self.forbidden_table@;
                proof {
                    lemma_assoc_put_at(t0, entry, j as int);
                }
                let _replaced = self.forbidden_table.remove(j);
                self.forbidden_table.insert(j, entry);
                proof {
                    assert(self.forbidden_table@ =~= t0.update(j as int, entry));
                }
                return ;
            }
            j = j + 1;
        }
        proof {
            lemma_assoc_put_absent(self.forbidden_table@, entry);
        }
        self.forbidden_table.push(entry);
    }

    /// Takes a decoded table wholesale into this one: every decoded group
    /// configuration and forbidden entry is stored in order, and the
    /// version stamp is taken over.
    pub fn merge_from(
        &mut self,
        group_entries: Vec<(String, SubscriptionGroupConfig)>,
        forbidden_entries: Vec<(String, Vec<(String, i32)>)>,
        data_version: &DataVersion,
    )
        ensures
            final(self).table_view() == assoc_put_all(old(self).table_view(), group_entries@),
            final(self).forbidden_view() == assoc_put_all(
                old(self).forbidden_view(),
                forbidden_entries@,
            ),
            final(self).version_view() == *data_version,
    {
        let ghost g0 = group_entries@;
        let mut rest = group_entries;
        while rest.len() > 0
            invariant
                assoc_put_all(old(self).table_view(), g0) == assoc_put_all(
                    self.table_view(),
                    rest@,
                ),
                self.forbidden_view() == old(self).forbidden_view(),
                self.version_view() == old(self).version_view(),
            decreases rest@.len(),
        {
            proof {
                assert(rest@.remove(0) =~= rest@.skip(1));
            }
            let entry = rest.remove(0);
            self.put_group_config(entry.0, entry.1);
        }
        let ghost f0 = forbidden_entries@;
        let mut rest = forbidden_entries;
        while rest.len() > 0
            invariant
                self.table_view() == assoc_put_all(old(self).table_view(), g0),
                assoc_put_all(old(self).forbidden_view(), f0) == assoc_put_all(
                    self.forbidden_view(),
                    rest@,
                ),
                self.version_view() == old(self).version_view(),
            decreases rest@.len(),
        {
            proof {
                assert(rest@.remove(0) =~= rest@.skip(1));
            }
            let entry = rest.remove(0);
            self.put_forbidden_entry(entry.0, entry.1);
        }
        self.data_version.assign_new_one(data_version);
    }
}

/// The broker-side manager of subscription groups: looks configurations
/// up and, where the configuration allows, creates missing groups on
/// first use.
pub struct SubscriptionGroupManager {
    /// The broker configuration consulted for auto-creation.
    pub broker_config: BrokerConfig,
    /// The wrapped group table with its version stamp.
    pub wrapper: SubscriptionGroupWrapper,
}

impl SubscriptionGroupManager {
    /// The group configurations, keyed by group name.
    pub open spec fn table_view(self) -> Seq<(String, SubscriptionGroupConfig)> {
        self.wrapper.table_view()
    }

    /// The version stamp of the table.
    pub open spec fn version_view(self) -> DataVersion {
        self.wrapper.version_view()
    }

    /// Whether a group unknown to the table may be created on first use:
    /// either the broker allows auto-creation, or the group is a system
    /// consumer group.
    pub open spec fn auto_creatable(self, group: Seq<char>) -> bool {
        self.broker_config.auto_create_subscription_group || is_sys_consumer_group_spec(group)
    }

    /// Whether a group name may enter the table.
    pub open spec fn name_acceptable(group: Seq<char>) -> bool {
        group.len() <= CHARACTER_MAX_LENGTH && !name_illegal_spec(group)
    }

    /// What an auto-created configuration for `group` holds: the defaults,
    /// under that group name.
    pub open spec fn created_config(config: SubscriptionGroupConfig, group: Seq<char>) -> bool {
        config.group_name@ == group && config.consume_enable == true && config.retry_queue_nums
            == 1 && config.retry_max_times == 16
    }

    /// A manager over an empty table.
    pub fn new(broker_config: BrokerConfig) -> (manager: SubscriptionGroupManager)
        ensures
            manager.broker_config == broker_config,
            manager.table_view() == Seq::<(String, SubscriptionGroupConfig)>::empty(),
            manager.version_view() == (DataVersion { state_version: 0, counter: 0 }),
    {
        SubscriptionGroupManager { broker_config, wrapper: SubscriptionGroupWrapper::new() }
    }

    /// Where the subscription group table is persisted, under the
    /// broker's store root.
    pub fn config_file_path(&self) -> (path: String)
        ensures
            path@ == self.broker_config.store_path_root_dir@
                + "/config/subscriptionGroup.json"@,
    {
        let mut path = self.broker_config.store_path_root_dir.clone();
        path.append("/config/subscriptionGroup.json");
        path
    }

    /// Looks the group up in the table, by first match.
    pub fn find_subscription_group_config_inner(&self, group: &str) -> (config: Option<
        SubscriptionGroupConfig,
    >)
        ensures
            config == assoc_lookup(self.table_view(), group@),
    {
        proof {
            assert(self.table_view().skip(0) =~= self.table_view());
        }
        let target: String = group.to_owned();
        let mut j: usize = 0;
        let end = self.wrapper.subscription_group_table.len();
        while j < end
            invariant
                j <= end,
                end == self.table_view().len(),
                target@ == group@,
                self.table_view() == self.wrapper.subscription_group_table@,
                assoc_lookup(self.table_view(), group@) == assoc_lookup(
                    self.table_view().skip(j as int),
                    group@,
                ),
            decreases end - j,
        {
            proof {
                assert(self.table_view().skip(j as int)[0] == self.table_view()[j as int]);
                assert(self.table_view().skip(j as int).skip(1) =~= self.table_view().skip(j + 1));
            }
            if self.wrapper.subscription_group_table[j].0 == target {
                return Some(self.wrapper.subscription_group_table[j].1.clone());
            }
            j = j + 1;
        }
        proof {
            assert(self.table_view().skip(end as int) =~= Seq::<(
                String,
                SubscriptionGroupConfig,
            )>::empty());
        }
        None
    }

    /// Looks the group up; a group that is unknown but auto-creatable and
    /// legally named enters the table with the default configuration, and
    /// the version stamp moves on under the given state-machine version.
    /// Any other miss leaves the table untouched and yields nothing.
    pub fn find_subscription_group_config(
        &mut self,
        group: &str,
        state_machine_version: i64,
    ) -> (config: Option<SubscriptionGroupConfig>)
        requires
            old(self).version_view().counter < u64::MAX,
        ensures
            final(self).broker_config == old(self).broker_config,
            assoc_lookup(old(self).table_view(), group@) is Some ==> config == assoc_lookup(
                old(self).table_view(),
                group@,
            ) && *final(self) == *old(self),
            assoc_lookup(old(self).table_view(), group@) is None && !old(self).auto_creatable(
                group@,
            ) ==> config is None && *final(self) == *old(self),
            assoc_lookup(old(self).table_view(), group@) is None && old(self).auto_creatable(group@)
                && !Self::name_acceptable(group@) ==> config is None && *final(self) == *old(self),
            assoc_lookup(old(self).table_view(), group@) is None && old(self).auto_creatable(group@)
                && Self::name_acceptable(group@) ==> (config matches Some(c)
                && Self::created_config(c, group@)
                && final(self).table_view().len() == old(self).table_view().len() + 1
                && final(self).table_view().drop_last() == old(self).table_view()
                && final(self).table_view().last().0@ == group@
                && final(self).table_view().last().1 == c
                && assoc_lookup(final(self).table_view(), group@) == Some(c)
                && final(self).version_view().state_version == state_machine_version
                && final(self).version_view().counter == old(self).version_view().counter + 1),
    {
        let existing = self.find_subscription_group_config_inner(group);
        if existing.is_some() {
            return existing;
        }
        let creatable = self.broker_config.auto_create_subscription_group || is_sys_consumer_group(
            group,
        );
        if !creatable {
            return None;
        }
        if group.unicode_len() > CHARACTER_MAX_LENGTH || is_topic_or_group_illegal(group) {
            return None;
        }
        let mut config = SubscriptionGroupConfig::default();
        config.set_group_name(group.to_owned());
        let created = config.clone();
        let ghost t0 = self.table_view();
        let key: String = group.to_owned();
        proof {
            assert(assoc_lookup(t0, group@) is None);
        }
        self.wrapper.subscription_group_table.push((key, config));
        self.wrapper.data_version.next_version_with(state_machine_version);
        proof {
            let entry = self.table_view().last();
            assert(self.table_view() == t0.push(entry));
            lemma_assoc_lookup_push(t0, group@, entry);
        }
        Some(created)
    }
}

} // verus!
