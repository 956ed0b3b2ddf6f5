//! Process configuration: the values the service starts with, and the
//! startup line describing them.

use vstd::arithmetic::div_mod::lemma_div_decreases;
use vstd::prelude::*;

verus! {

/// The character of one decimal digit.
pub open spec fn digit_char(d: int) -> char {
    if d == 0 {
        '0'
    } else if d == 1 {
        '1'
    } else if d == 2 {
        '2'
    } else if d == 3 {
        '3'
    } else if d == 4 {
        '4'
    } else if d == 5 {
        '5'
    } else if d == 6 {
        '6'
    } else if d == 7 {
        '7'
    } else if d == 8 {
        '8'
    } else {
        '9'
    }
}

/// The decimal rendering of a number, most significant digit first and
/// without leading zeroes.
pub open spec fn decimal_of(n: nat) -> Seq<char>
    decreases n,
    via decimal_of_decreases
{
    if n <= 9 {
        seq![digit_char(n as int)]
    } else {
        decimal_of(n / 10).push(digit_char((n % 10) as int))
    }
}

#[via_fn]
proof fn decimal_of_decreases(n: nat) {
    if n > 9 {
        lemma_div_decreases(n as int, 10);
    }
}

/// The startup line describing a loaded configuration: one fixed sentence
/// naming the version, host and port.
pub open spec fn banner_of(version: Seq<char>, host: Seq<char>, port: int) -> Seq<char> {
    "initialized config version="@ + version + " host="@ + host + " port="@ + decimal_of(
        port as nat,
    )
}

/// Relies on std's format macro: it splices the two strings verbatim and
/// renders the port with u16's Display, the plain decimal without leading
/// zeroes.
#[verifier::external_body]
fn format_banner(version: &String, host: &String, port: u16) -> (r: String)
    ensures
        r@ == banner_of(version@, host@, port as int),
{
    format!("initialized config version={} host={} port={}", version, host, port)
}

/// What the process was configured with: its build version, and the host
/// and port it serves on.
pub struct Config {
    pub version: String,
    pub host: String,
    pub port: u16,
}

impl Config {
    /// A configuration from the values the process environment supplied.
    pub fn new(version: String, host: String, port: u16) -> (c: Config)
        ensures
            c.version@ == version@,
            c.host@ == host@,
            c.port == port,
    {
        Config { version, host, port }
    }

    /// The startup line to log once the configuration is loaded.
    pub fn initialize(&self) -> (r: String)
        ensures
            r@ == banner_of(self.version@, self.host@, self.port as int),
    {
        format_banner(&self.version, &self.host, self.port)
    }
}

} // verus!
