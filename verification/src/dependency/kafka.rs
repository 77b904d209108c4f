//! Kafka dependencies: the flavor and port a configuration selects.
use vstd::prelude::*;
use vstd::string::*;

use crate::expiry::{expiry_override, expiry_override_of, ExpiryOverride};
use crate::text::{str_eq, string_of};

verus! {

/// A Kafka dependency as configured.
#[derive(Debug)]
pub struct KafkaDependencyConfig {
    pub identifier: String,
    pub expiry_seconds: Option<u64>,
    pub image_name: Option<String>,
    pub flavor: Option<String>,
    pub port: Option<u16>,
    pub container_name: Option<String>,
    pub topics: Option<Vec<String>>,
}

/// The Kafka distribution a dependency runs.
#[derive(Clone, Copy, Debug, PartialEq, Eq, Structural)]
pub enum KafkaFlavor {
    Confluent,
    ApacheNative,
}

/// What a Kafka configuration resolves to besides its names and topics.
#[derive(Clone, Copy, Debug, PartialEq, Eq, Structural)]
pub struct KafkaSettings {
    pub flavor: KafkaFlavor,
    pub port: u16,
    pub expiry: Option<ExpiryOverride>,
}

/// The flavor a configured name selects: `confluent`, or `apache_native` and
/// no name for the native one.
pub open spec fn flavor_of(name: Option<Seq<char>>) -> Option<KafkaFlavor> {
    match name {
        None => Some(KafkaFlavor::ApacheNative),
        Some(n) => if n == "confluent"@ {
            Some(KafkaFlavor::Confluent)
        } else if n == "apache_native"@ {
            Some(KafkaFlavor::ApacheNative)
        } else {
            None
        },
    }
}

/// The flavor name "confluent" selects Confluent, "apache_native" and no
/// name select the native flavor, and every other name selects none.
pub proof fn lemma_flavor_names(name: Option<Seq<char>>)
    ensures
        flavor_of(name) == Some(KafkaFlavor::Confluent) <==> name == Some("confluent"@),
        flavor_of(name) == Some(KafkaFlavor::ApacheNative) <==> (name is None || name == Some(
            "apache_native"@,
        )),
        flavor_of(name) is None <==> (name matches Some(n) && n != "confluent"@ && n != "apache_native"@),
{
    reveal_strlit("confluent");
    reveal_strlit("apache_native");
    assert("confluent"@[0] != "apache_native"@[0]);
}

/// Where a configured name selects no flavor.
pub open spec fn unknown_flavor_message(name: Seq<char>) -> Seq<char> {
    "unknown kafka flavor '"@ + name + "'"@
}

/// The flavor, port (9092 unless given) and expiry that `config` selects,
/// or the message that refuses its flavor.
pub fn kafka_settings(config: &KafkaDependencyConfig) -> (r: Result<KafkaSettings, String>)
    ensures
        match config.flavor {
            None => r == Ok::<KafkaSettings, String>(
                KafkaSettings {
                    flavor: KafkaFlavor::ApacheNative,
                    port: match config.port {
                        Some(p) => p,
                        None => 9092u16,
                    },
                    expiry: expiry_override_of(config.expiry_seconds),
                },
            ),
            Some(n) => match r {
                Ok(s) => flavor_of(Some(n@)) == Some(s.flavor) && s.port == match config.port {
                    Some(p) => p,
                    None => 9092u16,
                } && s.expiry == expiry_override_of(config.expiry_seconds),
                Err(e) => flavor_of(Some(n@)) is None && e@ == unknown_flavor_message(n@),
            },
        },
{
    let flavor = match &config.flavor {
        None => KafkaFlavor::ApacheNative,
        Some(n) => {
            if str_eq(n.as_str(), "confluent") {
                KafkaFlavor::Confluent
            } else if str_eq(n.as_str(), "apache_native") {
                KafkaFlavor::ApacheNative
            } else {
                let mut e = string_of("unknown kafka flavor '");
                e.append(n.as_str());
                e.append("'");
                return Err(e);
            }
        },
    };
    Ok(
        KafkaSettings {
            flavor,
            port: match config.port {
                Some(p) => p,
                None => 9092,
            },
            expiry: expiry_override(config.expiry_seconds),
        },
    )
}

} // verus!
