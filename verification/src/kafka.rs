use rdkafka::ClientConfig;
use vstd::prelude::*;

use crate::properties::{entries_map, lemma_view_is_entries_map, PropertyMap};

verus! {

#[verifier::external_type_specification]
#[verifier::external_body]
pub struct ExClientConfig(rdkafka::ClientConfig);

/// The settings (name to value) that a librdkafka client configuration holds.
pub uninterp spec fn client_config_settings(config: ClientConfig) -> Map<Seq<char>, Seq<char>>;

/// Calls `rdkafka::ClientConfig::new`, which starts from an empty settings map;
/// the log level it also records is not a setting.
#[verifier::external_body]
fn new_client_config() -> (fresh: ClientConfig)
    ensures
        client_config_settings(fresh).dom() == Set::<Seq<char>>::empty(),
{
    ClientConfig::new()
}

/// Calls `rdkafka::ClientConfig::set`, which inserts `key` with `value` into the
/// settings map, replacing an earlier value of `key`.
#[verifier::external_body]
fn set_client_setting(config: &mut ClientConfig, key: &str, value: &str)
    ensures
        client_config_settings(*final(config)) == client_config_settings(*old(config)).insert(
            key@,
            value@,
        ),
{
    config.set(key, value);
}

/// The settings a producer starts from: the brokers, and a delivery timeout of 5000 ms.
pub open spec fn producer_base_settings(brokers: Seq<char>) -> Map<Seq<char>, Seq<char>> {
    map!["bootstrap.servers"@ => brokers, "message.timeout.ms"@ => "5000"@]
}

/// The settings a command consumer starts from: the brokers, its group and
/// reading from the latest offset.
pub open spec fn consumer_base_settings(brokers: Seq<char>, group_id: Seq<char>) -> Map<
    Seq<char>,
    Seq<char>,
> {
    map![
        "bootstrap.servers"@ => brokers,
        "group.id"@ => group_id,
        "auto.offset.reset"@ => "latest"@,
    ]
}

/// Applies every entry of `extra` to `config`, each overriding what was there.
fn apply_extra_settings(config: &mut ClientConfig, extra: &PropertyMap)
    requires
        extra.wf(),
    ensures
        client_config_settings(*final(config)) == client_config_settings(
            *old(config),
        ).union_prefer_right(extra@),
{
    proof {
        lemma_view_is_entries_map(*extra);
    }
    let ghost base = client_config_settings(*config);
    let ghost entries = extra.entry_seq();
    let n = extra.len();
    let mut i: usize = 0;
    while i < n
        invariant
            extra.wf(),
            entries == extra.entry_seq(),
            n == entries.len(),
            0 <= i <= n,
            client_config_settings(*config) == base.union_prefer_right(
                entries_map(entries.take(i as int)),
            ),
        decreases n - i,
    {
        let (key, value) = extra.entry_at(i);
        set_client_setting(config, key.as_str(), value.as_str());
        proof {
            assert(entries.take(i + 1).drop_last() =~= entries.take(i as int));
            assert(base.union_prefer_right(entries_map(entries.take(i + 1))) =~= base.union_prefer_right(
                entries_map(entries.take(i as int)),
            ).insert(key@, value@));
        }
        i = i + 1;
    }
    proof {
        assert(entries.take(n as int) =~= entries);
    }
}

/// The client configuration of the producer that publishes to `brokers`:
/// the base producer settings, overridden by `extra`.
pub fn producer_client_config(brokers: &str, extra: &PropertyMap) -> (config: ClientConfig)
    requires
        extra.wf(),
    ensures
        client_config_settings(config) == producer_base_settings(brokers@).union_prefer_right(
            extra@,
        ),
{
    let mut config = new_client_config();
    set_client_setting(&mut config, "bootstrap.servers", brokers);
    set_client_setting(&mut config, "message.timeout.ms", "5000");
    proof {
        assert(client_config_settings(config) =~= producer_base_settings(brokers@));
    }
    apply_extra_settings(&mut config, extra);
    config
}

/// The client configuration of the command consumer of group `group_id` on
/// `brokers`: the base consumer settings, overridden by `extra`.
pub fn consumer_client_config(brokers: &str, group_id: &str, extra: &PropertyMap) -> (config:
    ClientConfig)
    requires
        extra.wf(),
    ensures
        client_config_settings(config) == consumer_base_settings(
            brokers@,
            group_id@,
        ).union_prefer_right(extra@),
{
    let mut config = new_client_config();
    set_client_setting(&mut config, "bootstrap.servers", brokers);
    set_client_setting(&mut config, "group.id", group_id);
    set_client_setting(&mut config, "auto.offset.reset", "latest");
    proof {
        assert(client_config_settings(config) =~= consumer_base_settings(brokers@, group_id@));
    }
    apply_extra_settings(&mut config, extra);
    config
}

/// The command consumer connects to the given brokers, joins the given group
/// and reads from the latest offset, each unless an extra property sets that
/// key; every extra property is applied as given, and no other key is set.
pub proof fn lemma_consumer_settings(
    brokers: Seq<char>,
    group_id: Seq<char>,
    extra: Map<Seq<char>, Seq<char>>,
)
    ensures
        ({
            let settings = consumer_base_settings(brokers, group_id).union_prefer_right(extra);
            &&& !extra.dom().contains("bootstrap.servers"@) ==> settings.dom().contains(
                "bootstrap.servers"@,
            ) && settings["bootstrap.servers"@] == brokers
            &&& !extra.dom().contains("group.id"@) ==> settings.dom().contains("group.id"@)
                && settings["group.id"@] == group_id
            &&& !extra.dom().contains("auto.offset.reset"@) ==> settings.dom().contains(
                "auto.offset.reset"@,
            ) && settings["auto.offset.reset"@] == seq!['l', 'a', 't', 'e', 's', 't']
            &&& forall|k: Seq<char>| #[trigger]
                extra.dom().contains(k) ==> settings.dom().contains(k) && settings[k] == extra[k]
            &&& forall|k: Seq<char>| #[trigger]
                settings.dom().contains(k) ==> extra.dom().contains(k) || k == "bootstrap.servers"@
                    || k == "group.id"@ || k == "auto.offset.reset"@
        }),
{
    reveal_strlit("bootstrap.servers");
    reveal_strlit("group.id");
    reveal_strlit("auto.offset.reset");
    reveal_strlit("latest");
    assert("bootstrap.servers"@.len() == 17);
    assert("group.id"@.len() == 8);
    assert("auto.offset.reset"@.len() == 17);
    assert("bootstrap.servers"@[0] != "auto.offset.reset"@[0]);
    assert("latest"@ =~= seq!['l', 'a', 't', 'e', 's', 't']);
}

/// The producer connects to the given brokers and gives up delivery after
/// 5000 ms, each unless an extra property sets that key; every extra property
/// is applied as given, and no other key is set.
pub proof fn lemma_producer_settings(brokers: Seq<char>, extra: Map<Seq<char>, Seq<char>>)
    ensures
        ({
            let settings = producer_base_settings(brokers).union_prefer_right(extra);
            &&& !extra.dom().contains("bootstrap.servers"@) ==> settings.dom().contains(
                "bootstrap.servers"@,
            ) && settings["bootstrap.servers"@] == brokers
            &&& !extra.dom().contains("message.timeout.ms"@) ==> settings.dom().contains(
                "message.timeout.ms"@,
            ) && settings["message.timeout.ms"@] == seq!['5', '0', '0', '0']
            &&& forall|k: Seq<char>| #[trigger]
                extra.dom().contains(k) ==> settings.dom().contains(k) && settings[k] == extra[k]
            &&& forall|k: Seq<char>| #[trigger]
                settings.dom().contains(k) ==> extra.dom().contains(k) || k == "bootstrap.servers"@
                    || k == "message.timeout.ms"@
        }),
{
    reveal_strlit("bootstrap.servers");
    reveal_strlit("message.timeout.ms");
    reveal_strlit("5000");
    assert("bootstrap.servers"@.len() == 17);
    assert("message.timeout.ms"@.len() == 18);
    assert("5000"@ =~= seq!['5', '0', '0', '0']);
}

} // verus!
