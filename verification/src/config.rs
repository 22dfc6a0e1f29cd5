//! The settings that the background tasks read.
use vstd::prelude::*;

verus! {

/// Where the search service is, and how the indexer is scheduled.
#[derive(Debug)]
pub struct MeiliConfig {
    pub url: String,
    pub master_key: String,
    pub retry_seconds: Option<u64>,
    pub max_retries: Option<u64>,
    pub indexing_interval_seconds: Option<u64>,
}

/// Where the session store is.
#[derive(Debug)]
pub struct RedisSettings {
    pub host: String,
    pub port: u16,
    pub secret_key: String,
}

/// The environment that the process runs in.
#[derive(Clone, Copy, Debug, PartialEq, Eq, Structural)]
pub enum Environment {
    Local,
    Production,
    CI,
}

/// The character of a decimal digit.
pub open spec fn digit(d: nat) -> char
    recommends
        d < 10,
{
    if d == 0 {
        '0'
    } else if d == 1 {
        '1'
    } else if d == 2 {
        '2'
    } else if d == 3 {
        '3'
    } else if d == 4 {
        '4'
    } else if d == 5 {
        '5'
    } else if d == 6 {
        '6'
    } else if d == 7 {
        '7'
    } else if d == 8 {
        '8'
    } else {
        '9'
    }
}

/// A number in decimal, without leading zeros.
pub open spec fn decimal(n: nat) -> Seq<char>
    decreases n,
{
    if n < 10 {
        seq![digit(n)]
    } else {
        decimal(n / 10).push(digit(n % 10))
    }
}

/// The text of one decimal digit.
fn digit_text(d: u16) -> (text: &'static str)
    requires
        d < 10,
    ensures
        text@ == seq![digit(d as nat)],
{
    proof {
        reveal_strlit("0");
        reveal_strlit("1");
        reveal_strlit("2");
        reveal_strlit("3");
        reveal_strlit("4");
        reveal_strlit("5");
        reveal_strlit("6");
        reveal_strlit("7");
        reveal_strlit("8");
        reveal_strlit("9");
    }
    let text = if d == 0 {
        "0"
    } else if d == 1 {
        "1"
    } else if d == 2 {
        "2"
    } else if d == 3 {
        "3"
    } else if d == 4 {
        "4"
    } else if d == 5 {
        "5"
    } else if d == 6 {
        "6"
    } else if d == 7 {
        "7"
    } else if d == 8 {
        "8"
    } else {
        "9"
    };
    assert(text@ =~= seq![digit(d as nat)]);
    text
}

/// Writes `n` in decimal at the end of `out`.
pub fn append_decimal(out: &mut String, n: u16)
    ensures
        final(out)@ == old(out)@ + decimal(n as nat),
    decreases n,
{
    if n >= 10 {
        append_decimal(out, n / 10);
    }
    out.append(digit_text(n % 10));
    assert(out@ =~= old(out)@ + decimal(n as nat));
}

impl RedisSettings {
    /// The address of the session store.
    pub open spec fn address(self) -> Seq<char> {
        "redis://"@ + self.host@ + ":"@ + decimal(self.port as nat)
    }

    /// The address of the session store: `redis://`, the host, a colon and
    /// the port in decimal.
    pub fn connection_string(&self) -> (address: String)
        ensures
            address@ == self.address(),
    {
        let mut address = String::from_str("redis://");
        address.append(self.host.as_str());
        address.append(":");
        append_decimal(&mut address, self.port);
        address
    }
}

/// `str::to_lowercase` of the name that was given for the environment.
pub uninterp spec fn lowercase(name: Seq<char>) -> Seq<char>;

/// `str::to_lowercase`: the lowercase form of a text by the Unicode rules,
/// which depends on the text alone.
#[verifier::external_body]
fn to_lowercase(name: &str) -> (lowered: String)
    ensures
        lowered@ == lowercase(name@),
{
    name.to_lowercase()
}

impl Environment {
    /// The name of the environment.
    pub open spec fn name(self) -> Seq<char> {
        match self {
            Environment::Local => "local"@,
            Environment::Production => "production"@,
            Environment::CI => "ci"@,
        }
    }

    /// The name of the environment.
    pub fn as_str(&self) -> (name: &'static str)
        ensures
            name@ == self.name(),
    {
        match self {
            Environment::Local => "local",
            Environment::Production => "production",
            Environment::CI => "ci",
        }
    }

    /// The environment with the lowercase name `lowered`, if there is one.
    pub open spec fn named(lowered: Seq<char>) -> Option<Environment> {
        if lowered == "local"@ {
            Some(Environment::Local)
        } else if lowered == "production"@ {
            Some(Environment::Production)
        } else if lowered == "ci"@ {
            Some(Environment::CI)
        } else {
            None
        }
    }

    /// What is said of a name that no environment has.
    pub open spec fn refusal(lowered: Seq<char>) -> Seq<char> {
        lowered + " is not a supported environment. Use either `local` or `production`."@
    }

    /// Picks the environment by a name that is already in lowercase.
    pub fn from_lowercase(lowered: String) -> (parsed: Result<Environment, String>)
        ensures
            match Environment::named(lowered@) {
                Some(environment) => parsed == Ok::<Environment, String>(environment),
                None => parsed is Err && parsed->Err_0@ == Environment::refusal(lowered@),
            },
    {
        if lowered == String::from_str("local") {
            Ok(Environment::Local)
        } else if lowered == String::from_str("production") {
            Ok(Environment::Production)
        } else if lowered == String::from_str("ci") {
            Ok(Environment::CI)
        } else {
            let mut message = lowered;
            message.append(" is not a supported environment. Use either `local` or `production`.");
            Err(message)
        }
    }

    /// Picks the environment by its name, in whatever case it is written.
    pub fn parse(name: &str) -> (parsed: Result<Environment, String>)
        ensures
            match Environment::named(lowercase(name@)) {
                Some(environment) => parsed == Ok::<Environment, String>(environment),
                None => parsed is Err && parsed->Err_0@ == Environment::refusal(lowercase(name@)),
            },
    {
        Environment::from_lowercase(to_lowercase(name))
    }
}

} // verus!
