//! How a host is configured.

use vstd::prelude::*;
use vstd::string::*;
use wasmcloud_core::logging::Level as CoreLevel;

use crate::host::{HostConfig, NatsConfig};
use crate::keys::Identity;
use crate::table::Datum;
use crate::text::{copy_text_opt, copy_texts_opt};
use crate::time::Duration;
use crate::wire::Level;

verus! {

use crate::host::{identity_opt, HostConfigView, NatsConfigView};
use crate::keys::{seeded, IdentityView};
use crate::text::{text_opt, texts_opt};

/// The settings of a host, as they are read from its environment and its file.
#[derive(Debug)]
pub struct KasmCloudConfig {
    /// Whether a host without a name makes one up.
    pub temporary: bool,
    pub host_name: Option<String>,
    pub nats_host: String,
    pub nats_port: u16,
    pub nats_jwt: Option<String>,
    pub nats_seed: Option<String>,
    pub js_domain: Option<String>,
    pub host_seed: Option<String>,
    pub cluster_seed: Option<String>,
    pub cluster_issuers: Option<Vec<String>>,
    pub log_level: String,
    pub enable_structured_logging: bool,
    pub otel_traces_exporter: Option<String>,
    pub otel_exporter_otlp_endpoint: Option<String>,
}

/// Why a host cannot be configured.
#[derive(Clone, Copy, Debug, PartialEq, Eq, Structural)]
pub enum ConfigError {
    /// A host that is not temporary has no name.
    HostNameRequired,
    /// There is no such log level.
    LogLevel,
    /// The seed of the host stands for no key pair.
    HostSeed,
    /// The seed of the cluster stands for no key pair.
    ClusterSeed,
    /// The seed for NATS stands for no key pair.
    NatsSeed,
    /// The address of NATS is none.
    NatsUrl,
}

impl ConfigError {
    pub open spec fn text(self) -> Seq<char> {
        match self {
            ConfigError::HostNameRequired => "require host name"@,
            ConfigError::LogLevel => "invalid log_level"@,
            ConfigError::HostSeed => "failed to contruct host key pair from seed"@,
            ConfigError::ClusterSeed => "failed to contruct cluster key pair from seed"@,
            ConfigError::NatsSeed => "failed to contruct NATS key pair from seed"@,
            ConfigError::NatsUrl => "failed to parse nats"@,
        }
    }

    pub fn message(&self) -> (r: String)
        ensures
            r@ == self.text(),
    {
        let text: &str = match self {
            ConfigError::HostNameRequired => "require host name",
            ConfigError::LogLevel => "invalid log_level",
            ConfigError::HostSeed => "failed to contruct host key pair from seed",
            ConfigError::ClusterSeed => "failed to contruct cluster key pair from seed",
            ConfigError::NatsSeed => "failed to contruct NATS key pair from seed",
            ConfigError::NatsUrl => "failed to parse nats",
        };
        text.to_owned()
    }
}

/// Two words with a hyphen between them. A word is made of small letters, and
/// of hyphens neither in front nor at the end.
pub open spec fn two_words(name: Seq<char>) -> bool {
    &&& name.contains('-')
    &&& name.first() != '-'
    &&& name.last() != '-'
    &&& forall|i: int| 0 <= i < name.len() ==> ('a' <= #[trigger] name[i] <= 'z' || name[i] == '-')
}

/// `names::Generator::default` and `next` of its result: a name made by
/// chance, an adjective and a noun with a hyphen between them. The words of its
/// two lists are made of small letters, some with hyphens inside.
#[verifier::external_body]
fn make_up_name() -> (r: Option<String>)
    ensures
        r is Some,
        two_words(r->0@),
{
    names::Generator::default().next()
}

/// A text with its capital letters of the Latin alphabet made small.
pub open spec fn small_letters(s: Seq<char>) -> Seq<char> {
    s.map_values(
        |c: char|
            if 'A' <= c && c <= 'Z' {
                (c as u32 + 32) as char
            } else {
                c
            },
    )
}

/// The last of some digits where the others are zeros.
pub open spec fn behind_zeros(digits: Seq<char>) -> Option<char> {
    if digits.len() > 0 && forall|i: int| 0 <= i < digits.len() - 1 ==> digits[i] == '0' {
        Some(digits.last())
    } else {
        None
    }
}

/// The last digit of a number whose other digits are zeros. There may be a plus
/// sign before it.
pub open spec fn only_digit(s: Seq<char>) -> Option<char> {
    if s.len() > 0 && s[0] == '+' {
        behind_zeros(s.drop_first())
    } else {
        behind_zeros(s)
    }
}

/// The log level that a text stands for: by name, in small or capital letters,
/// or by number, from 1 for errors to 5 for everything.
pub open spec fn level_of_text(s: Seq<char>) -> Option<Level> {
    let name = small_letters(s);
    if only_digit(s) == Some('1') || name == "error"@ {
        Some(Level::Error)
    } else if only_digit(s) == Some('2') || name == "warn"@ {
        Some(Level::Warn)
    } else if only_digit(s) == Some('3') || name == "info"@ {
        Some(Level::Info)
    } else if only_digit(s) == Some('4') || name == "debug"@ {
        Some(Level::Debug)
    } else if only_digit(s) == Some('5') || name == "trace"@ {
        Some(Level::Trace)
    } else {
        None
    }
}

/// `tracing::Level::from_str`, and `wasmcloud_core::logging::Level::from` on
/// its result: the level of a name, in small or capital letters, or of a number
/// from 1 to 5.
#[verifier::external_body]
fn read_level(text: &str) -> (r: Option<Level>)
    ensures
        r == level_of_text(text@),
{
    let level: tracing::Level = text.parse().ok()?;
    Some(match CoreLevel::from(level) {
        CoreLevel::Error => Level::Error,
        CoreLevel::Warn => Level::Warn,
        CoreLevel::Info => Level::Info,
        CoreLevel::Debug => Level::Debug,
        CoreLevel::Trace => Level::Trace,
        CoreLevel::Critical => Level::Critical,
    })
}

/// An address in its normal form, if `url::Url::parse` takes the text for one.
pub uninterp spec fn url_form(text: Seq<char>) -> Option<Seq<char>>;

/// `url::Url::parse`, and the `Display` of its result: the address depends on
/// the text alone.
#[verifier::external_body]
fn read_url(text: &str) -> (r: Option<String>)
    ensures
        text_opt(r) == url_form(text@),
{
    url::Url::parse(text).ok().map(|u| u.to_string())
}

/// The digits of a number.
pub open spec fn decimal(n: nat) -> Seq<char>
    decreases n,
{
    if n < 10 {
        seq![('0' as int + n) as char]
    } else {
        decimal(n / 10).push(('0' as int + n % 10) as char)
    }
}

fn digit(n: u16) -> (r: String)
    requires
        n < 10,
    ensures
        r@ == seq![('0' as int + n) as char],
{
    proof {
        reveal_strlit("0");
        reveal_strlit("1");
        reveal_strlit("2");
        reveal_strlit("3");
        reveal_strlit("4");
        reveal_strlit("5");
        reveal_strlit("6");
        reveal_strlit("7");
        reveal_strlit("8");
        reveal_strlit("9");
    }
    let text: &str = if n == 0 {
        "0"
    } else if n == 1 {
        "1"
    } else if n == 2 {
        "2"
    } else if n == 3 {
        "3"
    } else if n == 4 {
        "4"
    } else if n == 5 {
        "5"
    } else if n == 6 {
        "6"
    } else if n == 7 {
        "7"
    } else if n == 8 {
        "8"
    } else {
        "9"
    };
    assert(text@ =~= seq![('0' as int + n) as char]);
    text.to_owned()
}

/// Writes a number down.
pub fn write_decimal(n: u16) -> (r: String)
    ensures
        r@ == decimal(n as nat),
    decreases n,
{
    if n < 10 {
        digit(n)
    } else {
        let mut text = write_decimal(n / 10);
        text.append(digit(n % 10).as_str());
        assert(text@ =~= decimal(n as nat));
        text
    }
}

/// The key pair of an optional seed: none where there is no seed, and an error
/// where the seed stands for none.
pub open spec fn seeded_opt(seed: Option<Seq<char>>, error: ConfigError) -> Result<
    Option<IdentityView>,
    ConfigError,
> {
    match seed {
        None => Ok(None),
        Some(seed) => match seeded(seed) {
            Some(key) => Ok(Some(key)),
            None => Err(error),
        },
    }
}

fn read_seed_opt(seed: &Option<String>, error: ConfigError) -> (r: Result<
    Option<Identity>,
    ConfigError,
>)
    ensures
        match r {
            Ok(key) => seeded_opt(text_opt(*seed), error) == Ok::<
                Option<IdentityView>,
                ConfigError,
            >(identity_opt(key)),
            Err(e) => seeded_opt(text_opt(*seed), error) == Err::<
                Option<IdentityView>,
                ConfigError,
            >(e),
        },
{
    match seed {
        None => Ok(None),
        Some(seed) => match Identity::from_seed(seed) {
            Some(key) => Ok(Some(key)),
            None => Err(error),
        },
    }
}

impl KasmCloudConfig {
    /// The address of the NATS server.
    pub open spec fn nats_address(self) -> Seq<char> {
        "nats://"@ + self.nats_host@ + ":"@ + decimal(self.nats_port as nat)
    }

    /// What a host of these settings is started with. The first setting that
    /// cannot be used decides what is wrong: the log level, the seeds of host,
    /// cluster and NATS, the address.
    pub open spec fn configured(self) -> Result<HostConfigView, ConfigError> {
        match level_of_text(self.log_level@) {
            None => Err(ConfigError::LogLevel),
            Some(level) => match seeded_opt(text_opt(self.host_seed), ConfigError::HostSeed) {
                Err(e) => Err(e),
                Ok(host_key) => match seeded_opt(
                    text_opt(self.cluster_seed),
                    ConfigError::ClusterSeed,
                ) {
                    Err(e) => Err(e),
                    Ok(cluster_key) => match seeded_opt(
                        text_opt(self.nats_seed),
                        ConfigError::NatsSeed,
                    ) {
                        Err(e) => Err(e),
                        Ok(key) => match url_form(self.nats_address()) {
                            None => Err(ConfigError::NatsUrl),
                            Some(url) => {
                                let rpc_config = NatsConfigView {
                                    url,
                                    timeout: Some(Duration { secs: 2, nanos: 0 }),
                                    jwt: text_opt(self.nats_jwt),
                                    key,
                                    tls: false,
                                };
                                Ok(
                                    HostConfigView {
                                        allow_file_load: true,
                                        rpc_config,
                                        prov_rpc_config: NatsConfigView {
                                            timeout: None,
                                            ..rpc_config
                                        },
                                        lattice_prefix: "default"@,
                                        js_domain: text_opt(self.js_domain),
                                        host_key,
                                        cluster_key,
                                        cluster_issuers: texts_opt(self.cluster_issuers),
                                        log_level: Some(level),
                                    },
                                )
                            },
                        },
                    },
                },
            },
        }
    }

    /// The name of the host. One that is temporary and has none makes one up.
    pub fn get_hostname(&self) -> (r: Result<String, ConfigError>)
        ensures
            match (self.host_name, r) {
                (Some(name), _) => r matches Ok(n) && n@ == name@,
                (None, Ok(name)) => self.temporary && two_words(name@),
                (None, Err(e)) => !self.temporary && e == ConfigError::HostNameRequired,
            },
    {
        match &self.host_name {
            Some(name) => Ok(name.clone()),
            None => {
                if !self.temporary {
                    return Err(ConfigError::HostNameRequired);
                }
                Ok(make_up_name().unwrap())
            },
        }
    }

    /// What a host of these settings is started with.
    pub fn host_config(&self) -> (r: Result<HostConfig, ConfigError>)
        ensures
            match r {
                Ok(config) => self.configured() == Ok::<HostConfigView, ConfigError>(config@),
                Err(e) => self.configured() == Err::<HostConfigView, ConfigError>(e),
            },
    {
        let level = match read_level(self.log_level.as_str()) {
            Some(level) => level,
            None => {
                return Err(ConfigError::LogLevel);
            },
        };
        let host_key = match read_seed_opt(&self.host_seed, ConfigError::HostSeed) {
            Ok(key) => key,
            Err(e) => {
                return Err(e);
            },
        };
        let cluster_key = match read_seed_opt(&self.cluster_seed, ConfigError::ClusterSeed) {
            Ok(key) => key,
            Err(e) => {
                return Err(e);
            },
        };
        let nats_key = match read_seed_opt(&self.nats_seed, ConfigError::NatsSeed) {
            Ok(key) => key,
            Err(e) => {
                return Err(e);
            },
        };
        let mut address = "nats://".to_owned();
        address.append(self.nats_host.as_str());
        address.append(":");
        address.append(write_decimal(self.nats_port).as_str());
        let url = match read_url(address.as_str()) {
            Some(url) => url,
            None => {
                return Err(ConfigError::NatsUrl);
            },
        };
        let rpc_config = NatsConfig {
            url,
            timeout: Some(Duration::from_secs(2)),
            jwt: copy_text_opt(&self.nats_jwt),
            key: nats_key,
            tls: false,
        };
        let mut prov_rpc_config = rpc_config.duplicate();
        prov_rpc_config.timeout = None;
        Ok(
            HostConfig {
                allow_file_load: true,
                rpc_config,
                prov_rpc_config,
                lattice_prefix: "default".to_owned(),
                js_domain: copy_text_opt(&self.js_domain),
                host_key,
                cluster_key,
                cluster_issuers: copy_texts_opt(&self.cluster_issuers),
                log_level: Some(level),
            },
        )
    }
}

/// A host that is started again with the seed that it had is the same host.
pub proof fn seeds_keep_identities(again: KasmCloudConfig, key: IdentityView)
    requires
        key.seed is Some,
        seeded(key.seed->0) == Some(key),
        again.configured() is Ok,
        text_opt(again.host_seed) == key.seed,
    ensures
        again.configured()->Ok_0.host_key == Some(key),
{
}

/// A host is started with what it is set to: every setting reaches it, the
/// server is waited for two seconds, and providers are given the same server
/// with no time to wait.
pub proof fn settings_reach_the_host(settings: KasmCloudConfig)
    requires
        settings.configured() is Ok,
    ensures
        ({
            let config = settings.configured()->Ok_0;
            &&& config.log_level == level_of_text(settings.log_level@)
            &&& config.log_level is Some
            &&& settings.host_seed is None ==> config.host_key is None
            &&& settings.host_seed matches Some(seed) ==> config.host_key is Some
                && config.host_key == seeded(seed@)
            &&& settings.cluster_seed is None ==> config.cluster_key is None
            &&& settings.cluster_seed matches Some(seed) ==> config.cluster_key is Some
                && config.cluster_key == seeded(seed@)
            &&& settings.nats_seed is None ==> config.rpc_config.key is None
            &&& settings.nats_seed matches Some(seed) ==> config.rpc_config.key is Some
                && config.rpc_config.key == seeded(seed@)
            &&& Some(config.rpc_config.url) == url_form(
                "nats://"@ + settings.nats_host@ + ":"@ + decimal(settings.nats_port as nat),
            )
            &&& config.rpc_config.timeout == Some(Duration { secs: 2, nanos: 0 })
            &&& settings.nats_jwt is None ==> config.rpc_config.jwt is None
            &&& settings.nats_jwt matches Some(jwt) ==> config.rpc_config.jwt == Some(jwt@)
            &&& !config.rpc_config.tls
            &&& config.prov_rpc_config.url == config.rpc_config.url
            &&& config.prov_rpc_config.jwt == config.rpc_config.jwt
            &&& config.prov_rpc_config.key == config.rpc_config.key
            &&& config.prov_rpc_config.timeout is None
            &&& !config.prov_rpc_config.tls
            &&& config.lattice_prefix == "default"@
            &&& settings.js_domain is None ==> config.js_domain is None
            &&& settings.js_domain matches Some(domain) ==> config.js_domain == Some(domain@)
            &&& config.allow_file_load
            &&& settings.cluster_issuers is None ==> config.cluster_issuers is None
            &&& settings.cluster_issuers matches Some(issuers) ==> {
                &&& config.cluster_issuers is Some
                &&& config.cluster_issuers->0.len() == issuers@.len()
                &&& forall|i: int|
                    0 <= i < issuers@.len() ==> #[trigger] config.cluster_issuers->0[i]
                        == issuers@[i]@
            }
        }),
{
}

/// Which setting is told of that cannot be used: the log level, then the seeds
/// of host, cluster and NATS, then the address. Where all can be, the host is
/// started.
pub proof fn unusable_settings_are_told(settings: KasmCloudConfig)
    ensures
        ({
            let level = level_of_text(settings.log_level@) is Some;
            let host = settings.host_seed matches Some(seed) ==> seeded(seed@) is Some;
            let cluster = settings.cluster_seed matches Some(seed) ==> seeded(seed@) is Some;
            let nats = settings.nats_seed matches Some(seed) ==> seeded(seed@) is Some;
            let url = url_form(
                "nats://"@ + settings.nats_host@ + ":"@ + decimal(settings.nats_port as nat),
            ) is Some;
            let r = settings.configured();
            &&& r is Ok <==> level && host && cluster && nats && url
            &&& !level ==> r == Err::<HostConfigView, ConfigError>(ConfigError::LogLevel)
            &&& level && !host ==> r == Err::<HostConfigView, ConfigError>(ConfigError::HostSeed)
            &&& level && host && !cluster ==> r == Err::<HostConfigView, ConfigError>(
                ConfigError::ClusterSeed,
            )
            &&& level && host && cluster && !nats ==> r == Err::<HostConfigView, ConfigError>(
                ConfigError::NatsSeed,
            )
            &&& level && host && cluster && nats && !url ==> r == Err::<
                HostConfigView,
                ConfigError,
            >(ConfigError::NatsUrl)
        }),
{
}

/// A number is written down with its last digit at the end and the number
/// without it before; one below ten is a single digit.
pub proof fn numbers_are_written_in_digits(n: nat)
    ensures
        decimal(n).last() as int == '0' as int + n % 10,
        n < 10 ==> decimal(n).len() == 1,
        n >= 10 ==> decimal(n).drop_last() == decimal(n / 10),
{
    if n >= 10 {
        assert(decimal(n).drop_last() =~= decimal(n / 10));
    }
}

/// What is reported of settings that cannot be used.
pub proof fn failed_settings_are_told()
    ensures
        ConfigError::HostNameRequired.text() == "require host name"@,
        ConfigError::LogLevel.text() == "invalid log_level"@,
        ConfigError::HostSeed.text() == "failed to contruct host key pair from seed"@,
        ConfigError::ClusterSeed.text() == "failed to contruct cluster key pair from seed"@,
        ConfigError::NatsSeed.text() == "failed to contruct NATS key pair from seed"@,
        ConfigError::NatsUrl.text() == "failed to parse nats"@,
{
}

/// A log level is found by its name, in whatever letters.
pub proof fn log_levels_are_found_by_name(text: Seq<char>, name: Seq<char>)
    requires
        name == "error"@ || name == "warn"@ || name == "info"@ || name == "debug"@ || name
            == "trace"@,
        text.len() == name.len(),
        forall|i: int|
            0 <= i < text.len() ==> #[trigger] text[i] == name[i] || ('A' <= text[i] <= 'Z'
                && text[i] as u32 + 32 == name[i] as u32),
    ensures
        level_of_text(text) == Some(
            if name == "error"@ {
                Level::Error
            } else if name == "warn"@ {
                Level::Warn
            } else if name == "info"@ {
                Level::Info
            } else if name == "debug"@ {
                Level::Debug
            } else {
                Level::Trace
            },
        ),
{
    reveal_strlit("error");
    reveal_strlit("warn");
    reveal_strlit("info");
    reveal_strlit("debug");
    reveal_strlit("trace");
    assert(small_letters(text) =~= name) by {
        assert forall|i: int| 0 <= i < text.len() implies small_letters(text)[i] == name[i] by {
            assert(text[i] == name[i] || ('A' <= text[i] <= 'Z' && text[i] as u32 + 32
                == name[i] as u32));
            assert('a' <= name[i] <= 'z');
        }
    }
    assert("error"@.len() == 5 && "warn"@.len() == 4 && "info"@.len() == 4);
    assert("debug"@.len() == 5 && "trace"@.len() == 5);
    assert('a' <= name[0] <= 'z');
    assert(text[0] != '0' && text[0] != '+');
    assert(only_digit(text) is None);
    assert("warn"@[0] == 'w' && "info"@[0] == 'i' && "debug"@[0] == 'd' && "trace"@[0] == 't');
    assert("error"@[0] == 'e');
}

/// A log level is found by its number, with a plus sign and zeros before it or
/// not.
pub proof fn log_levels_are_found_by_number(text: Seq<char>, zeros: nat, digit: char)
    requires
        '1' <= digit <= '5',
        text == Seq::new(zeros, |i: int| '0').push(digit) || text == seq!['+'] + Seq::new(
            zeros,
            |i: int| '0',
        ).push(digit),
    ensures
        level_of_text(text) == Some(
            if digit == '1' {
                Level::Error
            } else if digit == '2' {
                Level::Warn
            } else if digit == '3' {
                Level::Info
            } else if digit == '4' {
                Level::Debug
            } else {
                Level::Trace
            },
        ),
{
    reveal_strlit("error");
    reveal_strlit("warn");
    reveal_strlit("info");
    reveal_strlit("debug");
    reveal_strlit("trace");
    let digits = Seq::new(zeros, |i: int| '0').push(digit);
    if text == digits {
        assert(text[0] == digits[0]);
        assert(text[0] != '+');
    } else {
        assert(text[0] == '+');
        assert(text.drop_first() =~= digits);
    }
    assert(digits.last() == digit);
    assert(forall|i: int| 0 <= i < digits.len() - 1 ==> digits[i] == '0');
    assert(only_digit(text) == Some(digit));
    let name = small_letters(text);
    assert(name[0] == '+' || name[0] == '0' || name[0] == digit);
    assert("error"@[0] == 'e' && "warn"@[0] == 'w' && "info"@[0] == 'i' && "debug"@[0] == 'd'
        && "trace"@[0] == 't');
}

/// A text that stands for a log level is its name or its number, and no other
/// text does: letter by letter the name, or zeros before the number, with a plus
/// sign before them or not.
pub proof fn other_texts_stand_for_no_level(text: Seq<char>)
    requires
        level_of_text(text) is Some,
    ensures
        ({
            let name = match level_of_text(text)->0 {
                Level::Error => "error"@,
                Level::Warn => "warn"@,
                Level::Info => "info"@,
                Level::Debug => "debug"@,
                _ => "trace"@,
            };
            let number = match level_of_text(text)->0 {
                Level::Error => '1',
                Level::Warn => '2',
                Level::Info => '3',
                Level::Debug => '4',
                _ => '5',
            };
            ||| text.len() == name.len() && forall|i: int|
                0 <= i < text.len() ==> #[trigger] text[i] == name[i] || ('A' <= text[i] <= 'Z'
                    && text[i] as int + 32 == name[i] as int)
            ||| text.len() > 0 && text.last() == number && forall|i: int|
                0 <= i < text.len() - 1 ==> #[trigger] text[i] == '0' || (i == 0 && text[i] == '+')
        }),
{
    let level = level_of_text(text)->0;
    let number = match level {
        Level::Error => '1',
        Level::Warn => '2',
        Level::Info => '3',
        Level::Debug => '4',
        _ => '5',
    };
    let name = match level {
        Level::Error => "error"@,
        Level::Warn => "warn"@,
        Level::Info => "info"@,
        Level::Debug => "debug"@,
        _ => "trace"@,
    };
    if only_digit(text) == Some(number) {
        let digits = text.drop_first();
        assert forall|i: int| 0 <= i < text.len() - 1 implies #[trigger] text[i] == '0' || (i == 0
            && text[i] == '+') by {
            if text[0] == '+' && i > 0 {
                assert(digits[i - 1] == text[i]);
            }
        }
        if text[0] == '+' {
            assert(digits.last() == text.last());
        }
    } else {
        let small = small_letters(text);
        assert(small == name);
        assert(text.len() == small.len());
        assert forall|i: int| 0 <= i < text.len() implies #[trigger] text[i] == name[i] || ('A'
            <= text[i] <= 'Z' && text[i] as int + 32 == name[i] as int) by {
            assert(small[i] == name[i]);
        }
    }
}

/// A name that was made up has a hyphen, neither in front nor at the end, and
/// else small letters.
pub proof fn made_up_names_are_words(name: Seq<char>)
    ensures
        two_words(name) <==> {
            &&& name.contains('-')
            &&& name[0] != '-'
            &&& name[name.len() - 1] != '-'
            &&& forall|i: int|
                0 <= i < name.len() ==> ('a' as int <= #[trigger] name[i] as int <= 'z' as int
                    || name[i] == '-')
        },
{
}

} // verus!
