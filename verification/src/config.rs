//! Configuration: the settings of one run, checked before anything is
//! generated or sent.

use crate::decimal::{parse_i32, parse_u32, parsed_i32, parsed_u32};
use crate::GatlingCore;
use vstd::prelude::*;

verus! {

/// The settings that a run reads.
#[derive(Debug, Clone, Copy, PartialEq, Eq, Structural)]
pub enum Setting {
    /// Target rate in messages per second.
    MsgSec,
    /// Number of messages in the batch.
    MsgNb,
    /// Which sink takes the messages: `http`, the default, or `broker`.
    Sink,
    /// Base address of the HTTP endpoint.
    ServerUrl,
    /// Address of the broker.
    KafkaUrl,
    /// Topic that the records are published on.
    KafkaTopic,
}

/// Why a run cannot start.
#[derive(Debug, Clone, Copy, PartialEq, Eq, Structural)]
pub enum ConfigError {
    /// A setting that the run needs is absent.
    Missing(Setting),
    /// A setting is present and cannot be read.
    Invalid(Setting),
}

/// The settings of a run as they were found: each one present or absent.
#[derive(Debug, Clone, PartialEq, Eq)]
pub struct Settings {
    pub msg_sec: Option<String>,
    pub msg_nb: Option<String>,
    pub sink: Option<String>,
    pub server_url: Option<String>,
    pub kafka_url: Option<String>,
    pub kafka_topic: Option<String>,
}

/// Where the messages of a run go.
#[derive(Debug, Clone, PartialEq, Eq)]
pub enum SinkTarget {
    /// The HTTP endpoint with this base address.
    Http { endpoint: String },
    /// This topic on the broker at this address.
    Broker { address: String, topic: String },
}

/// The checked configuration of a run.
#[derive(Debug, Clone, PartialEq, Eq)]
pub struct RunConfig {
    /// Number of messages in the batch.
    pub messages_nb: i32,
    /// Target rate in messages per second.
    pub msg_sec: u32,
    /// Where the messages go.
    pub sink: SinkTarget,
}

/// The name under which a setting is looked up and reported.
pub open spec fn setting_key(setting: Setting) -> Seq<char> {
    match setting {
        Setting::MsgSec => "GATLING_MSG_SEC"@,
        Setting::MsgNb => "GATLING_MSG_NB"@,
        Setting::Sink => "GATLING_SINK"@,
        Setting::ServerUrl => "WAM_SERVER_URL"@,
        Setting::KafkaUrl => "KAFKA_URL"@,
        Setting::KafkaTopic => "KAFKA_TOPIC"@,
    }
}

/// What is reported for a configuration error: the name of the setting and
/// what is wrong with it.
pub open spec fn error_text(error: ConfigError) -> Seq<char> {
    match error {
        ConfigError::Missing(setting) => setting_key(setting) + " must be set"@,
        ConfigError::Invalid(setting) => setting_key(setting) + " is not valid"@,
    }
}

/// The sink that the settings select, given the sink setting alone.
pub open spec fn selects_broker(sink: Option<String>) -> Option<bool> {
    match sink {
        None => Some(false),
        Some(name) => if name@ == "http"@ {
            Some(false)
        } else if name@ == "broker"@ {
            Some(true)
        } else {
            None
        },
    }
}

/// The configuration that a set of settings stands for, or the first thing
/// that is wrong with it. The rate is looked at first, then the count, then
/// the sink and what the selected sink needs.
pub open spec fn loaded(settings: Settings) -> Result<RunConfig, ConfigError> {
    if settings.msg_sec is None {
        Err(ConfigError::Missing(Setting::MsgSec))
    } else if parsed_u32(settings.msg_sec.unwrap()@) is None {
        Err(ConfigError::Invalid(Setting::MsgSec))
    } else if settings.msg_nb is None {
        Err(ConfigError::Missing(Setting::MsgNb))
    } else if parsed_i32(settings.msg_nb.unwrap()@) is None {
        Err(ConfigError::Invalid(Setting::MsgNb))
    } else if selects_broker(settings.sink) is None {
        Err(ConfigError::Invalid(Setting::Sink))
    } else {
        let msg_sec = parsed_u32(settings.msg_sec.unwrap()@).unwrap();
        let messages_nb = parsed_i32(settings.msg_nb.unwrap()@).unwrap();
        if selects_broker(settings.sink).unwrap() {
            if settings.kafka_url is None {
                Err(ConfigError::Missing(Setting::KafkaUrl))
            } else if settings.kafka_topic is None {
                Err(ConfigError::Missing(Setting::KafkaTopic))
            } else {
                Ok(
                    RunConfig {
                        messages_nb,
                        msg_sec,
                        sink: SinkTarget::Broker {
                            address: settings.kafka_url.unwrap(),
                            topic: settings.kafka_topic.unwrap(),
                        },
                    },
                )
            }
        } else {
            if settings.server_url is None {
                Err(ConfigError::Missing(Setting::ServerUrl))
            } else {
                Ok(
                    RunConfig {
                        messages_nb,
                        msg_sec,
                        sink: SinkTarget::Http { endpoint: settings.server_url.unwrap() },
                    },
                )
            }
        }
    }
}

impl Setting {
    /// The name under which the setting is looked up and reported.
    pub fn key(&self) -> (name: &'static str)
        ensures
            name@ == setting_key(*self),
    {
        match self {
            Setting::MsgSec => "GATLING_MSG_SEC",
            Setting::MsgNb => "GATLING_MSG_NB",
            Setting::Sink => "GATLING_SINK",
            Setting::ServerUrl => "WAM_SERVER_URL",
            Setting::KafkaUrl => "KAFKA_URL",
            Setting::KafkaTopic => "KAFKA_TOPIC",
        }
    }
}

impl ConfigError {
    /// The setting that the error is about.
    pub fn setting(&self) -> (setting: Setting)
        ensures
            *self == ConfigError::Missing(setting) || *self == ConfigError::Invalid(setting),
    {
        match self {
            ConfigError::Missing(setting) => *setting,
            ConfigError::Invalid(setting) => *setting,
        }
    }

    /// Says which setting is absent or cannot be read.
    pub fn describe(&self) -> (text: String)
        ensures
            text@ == error_text(*self),
    {
        match self {
            ConfigError::Missing(setting) => {
                let mut text = String::from_str(setting.key());
                text.append(" must be set");
                text
            },
            ConfigError::Invalid(setting) => {
                let mut text = String::from_str(setting.key());
                text.append(" is not valid");
                text
            },
        }
    }
}

/// Reads the sink setting: absent or `http` selects the HTTP sink, `broker`
/// the broker sink, and anything else is refused.
pub fn select_sink(sink: &Option<String>) -> (broker: Option<bool>)
    ensures
        broker == selects_broker(*sink),
{
    match sink {
        None => Some(false),
        Some(name) => {
            let http = String::from_str("http");
            let broker = String::from_str("broker");
            if *name == http {
                Some(false)
            } else if *name == broker {
                Some(true)
            } else {
                None
            }
        },
    }
}

/// Checks the settings of a run and builds its configuration, or says what is
/// wrong with the first setting that is absent or cannot be read.
pub fn load(settings: Settings) -> (config: Result<RunConfig, ConfigError>)
    ensures
        config == loaded(settings),
{
    let Settings { msg_sec, msg_nb, sink, server_url, kafka_url, kafka_topic } = settings;
    let msg_sec = match msg_sec {
        None => {
            return Err(ConfigError::Missing(Setting::MsgSec));
        },
        Some(text) => match parse_u32(text.as_str()) {
            None => {
                return Err(ConfigError::Invalid(Setting::MsgSec));
            },
            Some(rate) => rate,
        },
    };
    let messages_nb = match msg_nb {
        None => {
            return Err(ConfigError::Missing(Setting::MsgNb));
        },
        Some(text) => match parse_i32(text.as_str()) {
            None => {
                return Err(ConfigError::Invalid(Setting::MsgNb));
            },
            Some(count) => count,
        },
    };
    let broker = match select_sink(&sink) {
        None => {
            return Err(ConfigError::Invalid(Setting::Sink));
        },
        Some(broker) => broker,
    };
    if broker {
        let address = match kafka_url {
            None => {
                return Err(ConfigError::Missing(Setting::KafkaUrl));
            },
            Some(address) => address,
        };
        let topic = match kafka_topic {
            None => {
                return Err(ConfigError::Missing(Setting::KafkaTopic));
            },
            Some(topic) => topic,
        };
        Ok(RunConfig { messages_nb, msg_sec, sink: SinkTarget::Broker { address, topic } })
    } else {
        match server_url {
            None => Err(ConfigError::Missing(Setting::ServerUrl)),
            Some(endpoint) => Ok(
                RunConfig { messages_nb, msg_sec, sink: SinkTarget::Http { endpoint } },
            ),
        }
    }
}

impl RunConfig {
    /// The batch request of this run: its count and rate, and the address of
    /// its sink.
    pub fn request(&self) -> (request: GatlingCore)
        ensures
            request.messages_nb == self.messages_nb,
            request.msg_sec == self.msg_sec,
            request.server_url == match self.sink {
                SinkTarget::Http { endpoint } => endpoint,
                SinkTarget::Broker { address, .. } => address,
            },
    {
        let address = match &self.sink {
            SinkTarget::Http { endpoint } => endpoint.clone(),
            SinkTarget::Broker { address, .. } => address.clone(),
        };
        GatlingCore::new(self.messages_nb, self.msg_sec, address)
    }
}

} // verus!
