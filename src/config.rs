use vstd::prelude::*;

verus! {

/// The options the relay recognises, by name.
#[derive(Clone, Copy, PartialEq, Eq, Structural, Debug)]
pub enum ConfigKey {
    ListenAddress,
    PublisherBaseUrl,
    AggregatorBaseUrl,
    CallTimeout,
}

/// Why an option could not be applied.
#[derive(Clone, Copy, PartialEq, Eq, Structural, Debug)]
pub enum ConfigError {
    /// The name is none of the recognised options.
    UnknownOption,
    /// The timeout is not a positive whole number of seconds that fits in a `u64`.
    InvalidTimeout,
}

/// Where the relay listens, where it sends blobs, where it reads them back,
/// and how long one outbound call may take.
pub struct RelayConfig {
    pub listen_address: String,
    pub publisher_base_url: String,
    pub aggregator_base_url: String,
    pub call_timeout_secs: u64,
}

pub open spec fn key_of(name: Seq<char>) -> Option<ConfigKey> {
    if name == "listenAddress"@ {
        Some(ConfigKey::ListenAddress)
    } else if name == "publisherBaseUrl"@ {
        Some(ConfigKey::PublisherBaseUrl)
    } else if name == "aggregatorBaseUrl"@ {
        Some(ConfigKey::AggregatorBaseUrl)
    } else if name == "callTimeout"@ {
        Some(ConfigKey::CallTimeout)
    } else {
        None
    }
}

pub open spec fn is_digit(c: char) -> bool {
    '0' <= c && c <= '9'
}

pub open spec fn digit_value(c: char) -> nat {
    (c as nat - '0' as nat) as nat
}

/// A non-empty run of ASCII decimal digits.
pub open spec fn is_decimal(s: Seq<char>) -> bool {
    s.len() > 0 && forall|i: int| 0 <= i < s.len() ==> is_digit(#[trigger] s[i])
}

/// The number that a run of decimal digits writes, most significant first.
pub open spec fn decimal_value(s: Seq<char>) -> nat
    decreases s.len(),
{
    if s.len() == 0 {
        0
    } else {
        decimal_value(s.drop_last()) * 10 + digit_value(s.last())
    }
}

/// The timeout, in seconds, that `s` gives, if it gives a usable one.
pub open spec fn timeout_of(s: Seq<char>) -> Option<u64> {
    if is_decimal(s) && 0 < decimal_value(s) <= u64::MAX {
        Some(decimal_value(s) as u64)
    } else {
        None
    }
}

/// Reads a timeout in whole seconds: a non-empty run of decimal digits whose
/// value is positive and fits in a `u64`.
pub fn parse_timeout_secs(s: &str) -> (r: Option<u64>)
    ensures
        r == timeout_of(s@),
{
    let n = s.unicode_len();
    if n == 0 {
        return None;
    }
    let mut acc: u64 = 0;
    let mut overflow = false;
    let mut i: usize = 0;
    while i < n
        invariant
            n == s@.len(),
            0 <= i <= n,
            forall|j: int| 0 <= j < i ==> is_digit(#[trigger] s@[j]),
            !overflow ==> acc as nat == decimal_value(s@.subrange(0, i as int)),
            overflow ==> decimal_value(s@.subrange(0, i as int)) > u64::MAX,
        decreases n - i,
    {
        let c = s.get_char(i);
        if !('0' <= c && c <= '9') {
            assert(!is_decimal(s@));
            return None;
        }
        let d = (c as u32 - '0' as u32) as u64;
        assert(s@.subrange(0, i + 1).drop_last() =~= s@.subrange(0, i as int));
        if !overflow {
            if acc > (u64::MAX - d) / 10 {
                overflow = true;
            } else {
                acc = acc * 10 + d;
            }
        } else {
            assert(decimal_value(s@.subrange(0, i + 1)) >= decimal_value(s@.subrange(0, i as int)));
        }
        i = i + 1;
    }
    assert(s@.subrange(0, n as int) =~= s@);
    if overflow || acc == 0 {
        None
    } else {
        Some(acc)
    }
}

/// Tells which recognised option `name` is, if any.
pub fn parse_key(name: &str) -> (r: Option<ConfigKey>)
    ensures
        r == key_of(name@),
{
    let name = String::from_str(name);
    if name == String::from_str("listenAddress") {
        Some(ConfigKey::ListenAddress)
    } else if name == String::from_str("publisherBaseUrl") {
        Some(ConfigKey::PublisherBaseUrl)
    } else if name == String::from_str("aggregatorBaseUrl") {
        Some(ConfigKey::AggregatorBaseUrl)
    } else if name == String::from_str("callTimeout") {
        Some(ConfigKey::CallTimeout)
    } else {
        None
    }
}

/// A configuration as plain values.
pub struct RelayConfigView {
    pub listen_address: Seq<char>,
    pub publisher_base_url: Seq<char>,
    pub aggregator_base_url: Seq<char>,
    pub call_timeout_secs: u64,
}

impl View for RelayConfig {
    type V = RelayConfigView;

    open spec fn view(&self) -> RelayConfigView {
        RelayConfigView {
            listen_address: self.listen_address@,
            publisher_base_url: self.publisher_base_url@,
            aggregator_base_url: self.aggregator_base_url@,
            call_timeout_secs: self.call_timeout_secs,
        }
    }
}

/// The configuration in force when no option is given: every interface on
/// port 8080, the public test network of the blob store, ten seconds a call.
pub open spec fn default_config() -> RelayConfigView {
    RelayConfigView {
        listen_address: "0.0.0.0:8080"@,
        publisher_base_url: "https://publisher.walrus-testnet.walrus.space"@,
        aggregator_base_url: "https://aggregator.walrus-testnet.walrus.space"@,
        call_timeout_secs: 10,
    }
}

/// The configuration that results from setting option `name` to `value`,
/// or why that cannot be done.
pub open spec fn with_option(c: RelayConfigView, name: Seq<char>, value: Seq<char>) -> Result<
    RelayConfigView,
    ConfigError,
> {
    match key_of(name) {
        None => Err(ConfigError::UnknownOption),
        Some(ConfigKey::ListenAddress) => Ok(RelayConfigView { listen_address: value, ..c }),
        Some(ConfigKey::PublisherBaseUrl) => Ok(RelayConfigView { publisher_base_url: value, ..c }),
        Some(ConfigKey::AggregatorBaseUrl) => Ok(
            RelayConfigView { aggregator_base_url: value, ..c },
        ),
        Some(ConfigKey::CallTimeout) => match timeout_of(value) {
            Some(t) => Ok(RelayConfigView { call_timeout_secs: t, ..c }),
            None => Err(ConfigError::InvalidTimeout),
        },
    }
}

impl RelayConfig {
    /// The default configuration.
    pub fn new() -> (r: RelayConfig)
        ensures
            r@ == default_config(),
    {
        RelayConfig {
            listen_address: String::from_str("0.0.0.0:8080"),
            publisher_base_url: String::from_str("https://publisher.walrus-testnet.walrus.space"),
            aggregator_base_url: String::from_str("https://aggregator.walrus-testnet.walrus.space"),
            call_timeout_secs: 10,
        }
    }

    /// Sets option `name` to `value`. On an error the configuration is left
    /// as it was.
    pub fn set_option(&mut self, name: &str, value: &str) -> (r: Result<(), ConfigError>)
        ensures
            match with_option(old(self)@, name@, value@) {
                Ok(c) => r == Ok::<(), ConfigError>(()) && final(self)@ == c,
                Err(e) => r == Err::<(), ConfigError>(e) && final(self)@ == old(self)@,
            },
    {
        match parse_key(name) {
            None => Err(ConfigError::UnknownOption),
            Some(ConfigKey::ListenAddress) => {
                self.listen_address = String::from_str(value);
                Ok(())
            },
            Some(ConfigKey::PublisherBaseUrl) => {
                self.publisher_base_url = String::from_str(value);
                Ok(())
            },
            Some(ConfigKey::AggregatorBaseUrl) => {
                self.aggregator_base_url = String::from_str(value);
                Ok(())
            },
            Some(ConfigKey::CallTimeout) => match parse_timeout_secs(value) {
                Some(t) => {
                    self.call_timeout_secs = t;
                    Ok(())
                },
                None => Err(ConfigError::InvalidTimeout),
            },
        }
    }
}

} // verus!
