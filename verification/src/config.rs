use vstd::prelude::*;

use crate::properties::PropertyMap;

verus! {

/// The environment variable that names the configuration file explicitly.
pub const CONFIG_PATH_VAR: &'static str = "MAVLINK_TO_KAFKA_CONFIG";

/// The configuration file looked for in the current working directory.
pub const LOCAL_CONFIG_FILE: &'static str = "config.toml";

/// The system-wide configuration file, as used in the Docker image.
pub const SYSTEM_CONFIG_FILE: &'static str = "/etc/mavlink-to-kafka/config.toml";

/// The prefix of the environment variables that override settings.
pub const ENV_PREFIX: &'static str = "MAVLINK_TO_KAFKA__";

/// The separator of nesting levels in those environment variables.
pub const ENV_NESTING_SEPARATOR: &'static str = "__";

/// Top-level application configuration, loaded from TOML / env / CLI.
#[derive(Debug)]
pub struct AppConfig {
    pub mavlink: MavlinkConfig,
    pub kafka: KafkaConfig,
    pub logging: LoggingConfig,
}

/// MAVLink connection settings.
#[derive(Debug)]
pub struct MavlinkConfig {
    /// Connection string, e.g. `"udpin:0.0.0.0:14550"`.
    pub connection_string: String,
}

/// Kafka producer and command consumer settings.
#[derive(Debug)]
pub struct KafkaConfig {
    /// Comma-separated broker addresses.
    pub brokers: String,
    /// Topic prefix — outbound messages go to `<prefix>.<MESSAGE_NAME>`.
    pub topic_prefix: String,
    /// Extra rdkafka producer properties (e.g. `linger.ms`, `compression.type`).
    pub producer_properties: PropertyMap,
    /// Optional Kafka-to-MAVLink command consumer configuration.
    pub commands: CommandConfig,
}

/// Configuration for the Kafka command consumer (Kafka -> MAVLink path).
/// Disabled by default so existing deployments are unaffected.
#[derive(Debug)]
pub struct CommandConfig {
    /// Whether to start the command consumer.
    pub enabled: bool,
    /// Kafka topic to consume command messages from.
    pub command_topic: String,
    /// Consumer group ID for offset tracking.
    pub consumer_group_id: String,
    /// Extra rdkafka consumer properties.
    pub consumer_properties: PropertyMap,
}

/// Logging configuration.
#[derive(Debug)]
pub struct LoggingConfig {
    /// Log level filter: trace, debug, info, warn, or error.
    pub level: String,
}

impl CommandConfig {
    /// Both property maps are well formed.
    pub open spec fn wf(&self) -> bool {
        self.consumer_properties.wf()
    }

    /// The built-in command settings: disabled, reading `mavlink.commands`
    /// in group `mavlink-to-kafka`, with no extra properties.
    pub open spec fn is_default(&self) -> bool {
        &&& !self.enabled
        &&& self.command_topic@ == "mavlink.commands"@
        &&& self.consumer_group_id@ == "mavlink-to-kafka"@
        &&& self.consumer_properties@ == Map::<Seq<char>, Seq<char>>::empty()
    }
}

impl KafkaConfig {
    /// Both property maps are well formed.
    pub open spec fn wf(&self) -> bool {
        self.producer_properties.wf() && self.commands.wf()
    }
}

impl AppConfig {
    /// The property maps are well formed.
    pub open spec fn wf(&self) -> bool {
        self.kafka.wf()
    }

    /// The built-in configuration: UDP on :14550, Kafka on localhost:9092,
    /// topics under `mavlink`, logging at `info`, commands disabled.
    pub open spec fn is_default(&self) -> bool {
        &&& self.mavlink.connection_string@ == "udpin:0.0.0.0:14550"@
        &&& self.kafka.brokers@ == "localhost:9092"@
        &&& self.kafka.topic_prefix@ == "mavlink"@
        &&& self.kafka.producer_properties@ == Map::<Seq<char>, Seq<char>>::empty()
        &&& self.kafka.commands.is_default()
        &&& self.logging.level@ == "info"@
    }
}

impl Default for CommandConfig {
    fn default() -> (config: Self)
        ensures
            config.wf(),
            config.is_default(),
    {
        CommandConfig {
            enabled: false,
            command_topic: String::from_str("mavlink.commands"),
            consumer_group_id: String::from_str("mavlink-to-kafka"),
            consumer_properties: PropertyMap::new(),
        }
    }
}

impl Default for AppConfig {
    fn default() -> (config: Self)
        ensures
            config.wf(),
            config.is_default(),
    {
        AppConfig {
            mavlink: MavlinkConfig { connection_string: String::from_str("udpin:0.0.0.0:14550") },
            kafka: KafkaConfig {
                brokers: String::from_str("localhost:9092"),
                topic_prefix: String::from_str("mavlink"),
                producer_properties: PropertyMap::new(),
                commands: CommandConfig::default(),
            },
            logging: LoggingConfig { level: String::from_str("info") },
        }
    }
}

/// The configuration file that is layered over the defaults, in order of
/// precedence: the path given by the caller, the path in `MAVLINK_TO_KAFKA_CONFIG`,
/// `./config.toml` if it exists, `/etc/mavlink-to-kafka/config.toml` if it exists.
pub open spec fn chosen_config_file(
    explicit: Option<Seq<char>>,
    from_env: Option<Seq<char>>,
    local_exists: bool,
    system_exists: bool,
) -> Option<Seq<char>> {
    match explicit {
        Some(path) => Some(path),
        None => match from_env {
            Some(path) => Some(path),
            None => if local_exists {
                Some(LOCAL_CONFIG_FILE@)
            } else if system_exists {
                Some(SYSTEM_CONFIG_FILE@)
            } else {
                None
            },
        },
    }
}

/// The text of an optional path.
pub open spec fn path_view(path: Option<&str>) -> Option<Seq<char>> {
    match path {
        Some(p) => Some(p@),
        None => None,
    }
}

/// Picks the configuration file to layer over the defaults, or none, given
/// the caller's path, the value of `MAVLINK_TO_KAFKA_CONFIG`, and which of the
/// two default files exist.
pub fn resolve_config_file(
    explicit: Option<&str>,
    from_env: Option<&str>,
    local_exists: bool,
    system_exists: bool,
) -> (path: Option<String>)
    ensures
        match path {
            Some(p) => chosen_config_file(
                path_view(explicit),
                path_view(from_env),
                local_exists,
                system_exists,
            ) == Some(p@),
            None => chosen_config_file(
                path_view(explicit),
                path_view(from_env),
                local_exists,
                system_exists,
            ) is None,
        },
{
    match explicit {
        Some(p) => Some(p.to_owned()),
        None => match from_env {
            Some(p) => Some(p.to_owned()),
            None => if local_exists {
                Some(LOCAL_CONFIG_FILE.to_owned())
            } else if system_exists {
                Some(SYSTEM_CONFIG_FILE.to_owned())
            } else {
                None
            },
        },
    }
}

/// A path given by the caller is the file used, whatever the environment says
/// and whichever default files exist.
pub proof fn lemma_explicit_path_wins(
    path: Seq<char>,
    from_env: Option<Seq<char>>,
    local_exists: bool,
    system_exists: bool,
)
    ensures
        chosen_config_file(Some(path), from_env, local_exists, system_exists) == Some(path),
{
}

/// Without a path from the caller, the path in `MAVLINK_TO_KAFKA_CONFIG` is the
/// file used, whichever default files exist.
pub proof fn lemma_env_path_comes_next(path: Seq<char>, local_exists: bool, system_exists: bool)
    ensures
        chosen_config_file(None, Some(path), local_exists, system_exists) == Some(path),
{
}

/// Without any path given, `./config.toml` is used when it exists, else the
/// system file when it exists, else no file at all.
pub proof fn lemma_default_files_in_order(local_exists: bool, system_exists: bool)
    ensures
        local_exists ==> chosen_config_file(None, None, local_exists, system_exists) == Some(
            "config.toml"@,
        ),
        !local_exists && system_exists ==> chosen_config_file(
            None,
            None,
            local_exists,
            system_exists,
        ) == Some("/etc/mavlink-to-kafka/config.toml"@),
        !local_exists && !system_exists ==> chosen_config_file(
            None,
            None,
            local_exists,
            system_exists,
        ) is None,
{
}

} // verus!
