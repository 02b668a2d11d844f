//! Broker statistics bookkeeping: the stats manager and the functions that
//! build and split the composite keys under which commercial and account
//! statistics are recorded.

use vstd::prelude::*;
use vstd::string::StrSliceExecFns;
use vstd::string::StringExecFns;

use crate::config::BrokerConfig;
use crate::strutil::sep_join;
use crate::strutil::views_of;

verus! {

/// A family of statistics items recorded under one stats name.
pub struct StatsItemSet {
    /// The stats name this family is recorded under.
    pub stats_name: String,
}

/// A family of moment (point-in-time) statistics items.
pub struct MomentStatsItemSet {
    /// The stats name this family is recorded under.
    pub stats_name: String,
}

impl MomentStatsItemSet {
    /// An empty family under the given stats name.
    pub fn new(stats_name: String) -> (set: MomentStatsItemSet)
        ensures
            set.stats_name == stats_name,
    {
        MomentStatsItemSet { stats_name }
    }
}

/// Bookkeeping of broker-side statistics: the table of stats item families
/// and the moment stats for consumer fall-behind size and time.
pub struct BrokerStatsManager {
    /// Stats item families, keyed by stats name.
    pub stats_table: Vec<(String, StatsItemSet)>,
    /// The cluster name, taken from the broker configuration.
    pub cluster_name: String,
    /// Whether detailed (per-queue) statistics are collected.
    pub enable_queue_stat: bool,
    /// Moment stats of how far consumers have fallen behind, by size.
    pub moment_stats_item_set_fall_size: MomentStatsItemSet,
    /// Moment stats of how far consumers have fallen behind, by time.
    pub moment_stats_item_set_fall_time: MomentStatsItemSet,
    /// An optional back-reference to the broker configuration; not kept by
    /// construction.
    pub broker_config: Option<BrokerConfig>,
}

impl BrokerStatsManager {
    /// A fresh manager: the stats table starts empty, the cluster name and
    /// the queue-stat switch come from the configuration, and the two
    /// moment families carry the consumer fall-behind stats names.
    pub fn new(broker_config: BrokerConfig) -> (manager: BrokerStatsManager)
        ensures
            manager.stats_table@ == Seq::<(String, StatsItemSet)>::empty(),
            manager.cluster_name == broker_config.broker_identity.broker_cluster_name,
            manager.enable_queue_stat == broker_config.enable_detail_stat,
            manager.moment_stats_item_set_fall_size.stats_name@ == "GROUP_GET_FALL_SIZE"@,
            manager.moment_stats_item_set_fall_time.stats_name@ == "GROUP_GET_FALL_TIME"@,
            manager.broker_config is None,
    {
        let enable_queue_stat = broker_config.enable_detail_stat;
        let cluster_name = broker_config.broker_identity.broker_cluster_name;
        BrokerStatsManager {
            stats_table: Vec::new(),
            cluster_name,
            enable_queue_stat,
            moment_stats_item_set_fall_size: MomentStatsItemSet::new(
                String::from_str("GROUP_GET_FALL_SIZE"),
            ),
            moment_stats_item_set_fall_time: MomentStatsItemSet::new(
                String::from_str("GROUP_GET_FALL_TIME"),
            ),
            broker_config: None,
        }
    }

    /// The stats item families held so far.
    pub fn get_stats_table(&self) -> (table: &Vec<(String, StatsItemSet)>)
        ensures
            *table == self.stats_table,
    {
        &self.stats_table
    }

    /// The name of the cluster this broker belongs to.
    pub fn get_cluster_name(&self) -> (name: &str)
        ensures
            name@ == self.cluster_name@,
    {
        self.cluster_name.as_str()
    }

    /// Whether detailed (per-queue) statistics are collected.
    pub fn get_enable_queue_stat(&self) -> (enabled: bool)
        ensures
            enabled == self.enable_queue_stat,
    {
        self.enable_queue_stat
    }

    /// The moment stats of consumer fall-behind, by size.
    pub fn get_moment_stats_item_set_fall_size(&self) -> (set: &MomentStatsItemSet)
        ensures
            *set == self.moment_stats_item_set_fall_size,
    {
        &self.moment_stats_item_set_fall_size
    }

    /// The moment stats of consumer fall-behind, by time.
    pub fn get_moment_stats_item_set_fall_time(&self) -> (set: &MomentStatsItemSet)
        ensures
            *set == self.moment_stats_item_set_fall_time,
    {
        &self.moment_stats_item_set_fall_time
    }

    /// Broker-wide put count outside system topics; not tracked yet.
    pub fn get_broker_puts_num_without_system_topic(&self) -> (count: u64)
        ensures
            count == 0,
    {
        0
    }

    /// Broker-wide get count outside system topics; not tracked yet.
    pub fn get_broker_gets_num_without_system_topic(&self) -> (count: u64)
        ensures
            count == 0,
    {
        0
    }
}

/// The commercial stats key: the four parts separated by `@`.
pub fn build_commercial_stats_key(owner: &str, topic: &str, group: &str, type_: &str) -> (key:
    String)
    ensures
        key@ == owner@ + seq!['@'] + topic@ + seq!['@'] + group@ + seq!['@'] + type_@,
{
    proof {
        reveal_strlit("@");
        assert("@"@ =~= seq!['@']);
    }
    let mut key = String::new();
    key.append(owner);
    key.append("@");
    key.append(topic);
    key.append("@");
    key.append(group);
    key.append("@");
    key.append(type_);
    key
}

/// The account stats key: the six parts separated by `@`.
pub fn build_account_stats_key(
    account_owner_parent: &str,
    account_owner_self: &str,
    instance_id: &str,
    topic: &str,
    group: &str,
    msg_type: &str,
) -> (key: String)
    ensures
        key@ == account_owner_parent@ + seq!['@'] + account_owner_self@ + seq!['@'] + instance_id@
            + seq!['@'] + topic@ + seq!['@'] + group@ + seq!['@'] + msg_type@,
{
    proof {
        reveal_strlit("@");
        assert("@"@ =~= seq!['@']);
    }
    let mut key = String::new();
    key.append(account_owner_parent);
    key.append("@");
    key.append(account_owner_self);
    key.append("@");
    key.append(instance_id);
    key.append("@");
    key.append(topic);
    key.append("@");
    key.append(group);
    key.append("@");
    key.append(msg_type);
    key
}

/// The account stats key with a flow-limit threshold: the seven parts
/// separated by `@`.
pub fn build_account_stats_key_with_flowlimit(
    account_owner_parent: &str,
    account_owner_self: &str,
    instance_id: &str,
    topic: &str,
    group: &str,
    msg_type: &str,
    flowlimit_threshold: &str,
) -> (key: String)
    ensures
        key@ == account_owner_parent@ + seq!['@'] + account_owner_self@ + seq!['@'] + instance_id@
            + seq!['@'] + topic@ + seq!['@'] + group@ + seq!['@'] + msg_type@ + seq!['@']
            + flowlimit_threshold@,
{
    proof {
        reveal_strlit("@");
        assert("@"@ =~= seq!['@']);
    }
    let mut key = String::new();
    key.append(account_owner_parent);
    key.append("@");
    key.append(account_owner_self);
    key.append("@");
    key.append(instance_id);
    key.append("@");
    key.append(topic);
    key.append("@");
    key.append(group);
    key.append("@");
    key.append(msg_type);
    key.append("@");
    key.append(flowlimit_threshold);
    key
}

/// The per-account stat key: the five parts separated by `|`.
pub fn build_account_stat_key(
    owner: &str,
    instance_id: &str,
    topic: &str,
    group: &str,
    msg_type: &str,
) -> (key: String)
    ensures
        key@ == owner@ + seq!['|'] + instance_id@ + seq!['|'] + topic@ + seq!['|'] + group@
            + seq!['|'] + msg_type@,
{
    proof {
        reveal_strlit("|");
        assert("|"@ =~= seq!['|']);
    }
    let mut key = String::new();
    key.append(owner);
    key.append("|");
    key.append(instance_id);
    key.append("|");
    key.append(topic);
    key.append("|");
    key.append(group);
    key.append("|");
    key.append(msg_type);
    key
}

/// The per-account stat key with a flow-limit threshold: the six parts
/// separated by `|`.
pub fn build_account_stat_key_with_flowlimit(
    owner: &str,
    instance_id: &str,
    topic: &str,
    group: &str,
    msg_type: &str,
    flowlimit_threshold: &str,
) -> (key: String)
    ensures
        key@ == owner@ + seq!['|'] + instance_id@ + seq!['|'] + topic@ + seq!['|'] + group@
            + seq!['|'] + msg_type@ + seq!['|'] + flowlimit_threshold@,
{
    proof {
        reveal_strlit("|");
        assert("|"@ =~= seq!['|']);
    }
    let mut key = String::new();
    key.append(owner);
    key.append("|");
    key.append(instance_id);
    key.append("|");
    key.append(topic);
    key.append("|");
    key.append(group);
    key.append("|");
    key.append(msg_type);
    key.append("|");
    key.append(flowlimit_threshold);
    key
}

/// Splits a per-account stat key back into its `|`-separated parts: the
/// parts contain no separator, and joined with `|` they give back exactly
/// the input.
pub fn split_account_stat_key(account_stat_key: &str) -> (parts: Vec<String>)
    ensures
        parts@.len() >= 1,
        sep_join(views_of(parts@), '|') == account_stat_key@,
        forall|k: int| 0 <= k < parts@.len() ==> !(#[trigger] parts@[k])@.contains('|'),
{
    let ghost s = account_stat_key@;
    let mut parts: Vec<String> = Vec::new();
    let mut start: usize = 0;
    let mut i: usize = 0;
    let n = account_stat_key.unicode_len();
    proof {
        assert(s.subrange(0, 0) =~= Seq::<char>::empty());
        assert(views_of(parts@).push(s.subrange(0, 0)) =~= seq![Seq::<char>::empty()]);
        assert(s.take(0) =~= Seq::<char>::empty());
    }
    while i < n
        invariant
            start <= i <= n,
            n == s.len(),
            s == account_stat_key@,
            sep_join(views_of(parts@).push(s.subrange(start as int, i as int)), '|') == s.take(
                i as int,
            ),
            forall|k: int| 0 <= k < parts@.len() ==> !(#[trigger] parts@[k])@.contains('|'),
            !s.subrange(start as int, i as int).contains('|'),
        decreases n - i,
    {
        let ghost v0 = parts@;
        let ghost cur = s.subrange(start as int, i as int);
        let c = account_stat_key.get_char(i);
        if c == '|' {
            let piece = account_stat_key.substring_char(start, i).to_owned();
            parts.push(piece);
            start = i + 1;
            proof {
                let w = views_of(parts@).push(s.subrange(i + 1, i + 1));
                assert(views_of(parts@) =~= views_of(v0).push(cur));
                assert(w.drop_last() =~= views_of(v0).push(cur));
                assert(w.last() =~= s.subrange(i + 1, i + 1));
                assert(sep_join(w, '|') == sep_join(w.drop_last(), '|') + seq!['|'] + w.last());
                assert(sep_join(w, '|') =~= s.take(i as int) + seq!['|']);
                assert(s.take(i + 1) =~= s.take(i as int) + seq!['|']);
                assert(s.subrange(i + 1, i + 1) =~= Seq::<char>::empty());
            }
        } else {
            proof {
                let ext = s.subrange(start as int, i + 1);
                assert(ext =~= cur.push(s[i as int]));
                assert(!ext.contains('|')) by {
                    if ext.contains('|') {
                        let k = choose|k: int| 0 <= k < ext.len() && ext[k] == '|';
                        if k < cur.len() {
                            assert(cur[k] == '|');
                            assert(cur.contains('|'));
                        } else {
                            assert(ext[k] == s[i as int]);
                        }
                    }
                }
                let w0 = views_of(v0).push(cur);
                let w1 = views_of(v0).push(ext);
                assert(w1.drop_last() =~= views_of(v0));
                assert(w0.drop_last() =~= views_of(v0));
                if v0.len() == 0 {
                    assert(sep_join(w0, '|') == cur);
                    assert(sep_join(w1, '|') == ext);
                    assert(ext =~= s.take(i as int).push(s[i as int]));
                    assert(s.take(i + 1) =~= s.take(i as int).push(s[i as int]));
                } else {
                    assert(sep_join(w0, '|') == sep_join(views_of(v0), '|') + seq!['|'] + cur);
                    assert(sep_join(w1, '|') == sep_join(views_of(v0), '|') + seq!['|'] + ext);
                    assert(sep_join(w1, '|') =~= (sep_join(views_of(v0), '|') + seq!['|']
                        + cur).push(s[i as int]));
                    assert(s.take(i + 1) =~= s.take(i as int).push(s[i as int]));
                }
            }
        }
        i = i + 1;
    }
    let last_piece = account_stat_key.substring_char(start, n).to_owned();
    let ghost v0 = parts@;
    parts.push(last_piece);
    proof {
        assert(views_of(parts@) =~= views_of(v0).push(s.subrange(start as int, n as int)));
        assert(s.take(n as int) =~= s);
    }
    parts
}

} // verus!
