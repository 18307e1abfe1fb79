//! The RPC endpoint configuration and the resolution of environment names.
use vstd::prelude::*;

use crate::text::str_equals;

verus! {

/// Variable that overrides the Dev endpoint.
pub const DEV_URL_VAR: &'static str = "BRYTESCHEMES_API_RPC_URL_DEV";

/// Variable that overrides the Test endpoint.
pub const TEST_URL_VAR: &'static str = "BRYTESCHEMES_API_RPC_URL_TEST";

/// Variable that overrides the Main endpoint.
pub const MAIN_URL_VAR: &'static str = "BRYTESCHEMES_API_RPC_URL_MAIN";

/// Variable that overrides the Local endpoint.
pub const LOCAL_URL_VAR: &'static str = "BRYTESCHEMES_API_RPC_URL_LOCAL";

pub const DEFAULT_DEV_URL: &'static str = "https://api.devnet.solana.com";

pub const DEFAULT_TEST_URL: &'static str = "https://api.testnet.solana.com";

pub const DEFAULT_MAIN_URL: &'static str = "https://api.mainnet.solana.com";

pub const DEFAULT_LOCAL_URL: &'static str = "http://localhost:8000";

/// A named deployment target; each one selects one RPC endpoint.
#[derive(Clone, Copy, Debug, PartialEq, Eq, Structural)]
pub enum Environment {
    Dev,
    Test,
    Main,
    Local,
}

pub open spec fn dev_name() -> Seq<char> {
    seq!['D', 'e', 'v']
}

pub open spec fn test_name() -> Seq<char> {
    seq!['T', 'e', 's', 't']
}

pub open spec fn main_name() -> Seq<char> {
    seq!['M', 'a', 'i', 'n']
}

pub open spec fn local_name() -> Seq<char> {
    seq!['L', 'o', 'c', 'a', 'l']
}

/// The environment that a name selects: an exact match of one of the four
/// names, and `Local` for every other string.
pub open spec fn environment_of(name: Seq<char>) -> Environment {
    if name == dev_name() {
        Environment::Dev
    } else if name == test_name() {
        Environment::Test
    } else if name == main_name() {
        Environment::Main
    } else {
        Environment::Local
    }
}

/// Reads an environment name; unknown names fall back to `Local`.
pub fn parse_environment(name: &str) -> (r: Environment)
    ensures
        r == environment_of(name@),
{
    proof {
        reveal_strlit("Dev");
        reveal_strlit("Test");
        reveal_strlit("Main");
        assert("Dev"@ =~= dev_name());
        assert("Test"@ =~= test_name());
        assert("Main"@ =~= main_name());
    }
    if str_equals(name, "Dev") {
        Environment::Dev
    } else if str_equals(name, "Test") {
        Environment::Test
    } else if str_equals(name, "Main") {
        Environment::Main
    } else {
        Environment::Local
    }
}

/// A configured value, or the default where none was given.
pub open spec fn setting_or(value: Option<String>, default: Seq<char>) -> Seq<char> {
    match value {
        Some(s) => s@,
        None => default,
    }
}

fn setting_or_default(value: Option<String>, default: &str) -> (r: String)
    ensures
        r@ == setting_or(value, default@),
{
    match value {
        Some(s) => s,
        None => default.to_owned(),
    }
}

/// The RPC endpoint of each environment: exactly one URL per environment,
/// fixed once built.
#[derive(Clone, Debug, PartialEq, Eq)]
pub struct Config {
    pub dev_url: String,
    pub test_url: String,
    pub main_url: String,
    pub local_url: String,
}

impl Config {
    /// The URL configured for an environment.
    pub open spec fn url_of(&self, env: Environment) -> Seq<char> {
        match env {
            Environment::Dev => self.dev_url@,
            Environment::Test => self.test_url@,
            Environment::Main => self.main_url@,
            Environment::Local => self.local_url@,
        }
    }

    /// Builds the configuration from the override of each environment, taking
    /// the public default endpoint where an override is absent.
    pub fn build(
        dev: Option<String>,
        test: Option<String>,
        main: Option<String>,
        local: Option<String>,
    ) -> (r: Config)
        ensures
            r.dev_url@ == setting_or(dev, DEFAULT_DEV_URL@),
            r.test_url@ == setting_or(test, DEFAULT_TEST_URL@),
            r.main_url@ == setting_or(main, DEFAULT_MAIN_URL@),
            r.local_url@ == setting_or(local, DEFAULT_LOCAL_URL@),
    {
        Config {
            dev_url: setting_or_default(dev, DEFAULT_DEV_URL),
            test_url: setting_or_default(test, DEFAULT_TEST_URL),
            main_url: setting_or_default(main, DEFAULT_MAIN_URL),
            local_url: setting_or_default(local, DEFAULT_LOCAL_URL),
        }
    }

    /// The URL configured for an environment.
    pub fn url_for(&self, env: Environment) -> (r: &str)
        ensures
            r@ == self.url_of(env),
    {
        match env {
            Environment::Dev => self.dev_url.as_str(),
            Environment::Test => self.test_url.as_str(),
            Environment::Main => self.main_url.as_str(),
            Environment::Local => self.local_url.as_str(),
        }
    }

    /// Resolves an environment name to its RPC URL; a name that is not one of
    /// `Dev`, `Test`, `Main` or `Local` resolves to the Local URL.
    pub fn rpc_url(&self, input: &str) -> (r: &str)
        ensures
            r@ == self.url_of(environment_of(input@)),
    {
        self.url_for(parse_environment(input))
    }
}

/// Resolution law: each of the four names selects its own configured URL, and
/// every other string, the empty one included, selects the Local URL.
pub proof fn lemma_resolution(config: Config, name: Seq<char>)
    ensures
        name == dev_name() ==> config.url_of(environment_of(name)) == config.dev_url@,
        name == test_name() ==> config.url_of(environment_of(name)) == config.test_url@,
        name == main_name() ==> config.url_of(environment_of(name)) == config.main_url@,
        name == local_name() ==> config.url_of(environment_of(name)) == config.local_url@,
        (name != dev_name() && name != test_name() && name != main_name()) ==> config.url_of(
            environment_of(name),
        ) == config.local_url@,
        config.url_of(environment_of(Seq::empty())) == config.local_url@,
{
    assert(dev_name().len() == 3 && test_name().len() == 4 && main_name().len() == 4);
    assert(local_name().len() == 5);
}

} // verus!
