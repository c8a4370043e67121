//! Connection settings, assembled from the values of environment variables.

use vstd::prelude::*;
use vstd::string::*;
use crate::error::{ErrorReport, ReportModel};

verus! {

/// Where to connect and under which names.
#[derive(Debug, Clone)]
pub struct Config {
    pub host: String,
    pub port: u16,
    pub username: String,
    pub password: String,
    pub stream_name: String,
    pub consumer_name: String,
    pub response_stream_name: String,
    pub tb_address: String,
}

/// Why a string is not a decimal `u16`.
#[derive(Debug, Clone, Copy, PartialEq, Eq, Structural)]
pub enum IntParseFailure {
    Empty,
    InvalidDigit,
    PosOverflow,
}

impl IntParseFailure {
    pub open spec fn spec_text(self) -> Seq<char> {
        match self {
            IntParseFailure::Empty => "cannot parse integer from empty string"@,
            IntParseFailure::InvalidDigit => "invalid digit found in string"@,
            IntParseFailure::PosOverflow => "number too large to fit in target type"@,
        }
    }

    /// The failure as it is displayed.
    pub fn to_display_string(&self) -> (r: String)
        ensures
            r@ == self.spec_text(),
    {
        match self {
            IntParseFailure::Empty => String::from_str("cannot parse integer from empty string"),
            IntParseFailure::InvalidDigit => String::from_str("invalid digit found in string"),
            IntParseFailure::PosOverflow => String::from_str(
                "number too large to fit in target type",
            ),
        }
    }
}

pub open spec fn is_digit(c: char) -> bool {
    '0' <= c && c <= '9'
}

pub open spec fn digit_value(c: char) -> int {
    c as int - '0' as int
}

/// Reads decimal digits left to right after the value `acc`: the first
/// character that is no digit fails, else the first step past 65535 fails.
pub open spec fn scan_digits(s: Seq<char>, acc: int) -> Result<u16, IntParseFailure>
    decreases s.len(),
{
    if s.len() == 0 {
        Ok(acc as u16)
    } else if !is_digit(s[0]) {
        Err(IntParseFailure::InvalidDigit)
    } else if acc * 10 + digit_value(s[0]) > 65535 {
        Err(IntParseFailure::PosOverflow)
    } else {
        scan_digits(s.drop_first(), acc * 10 + digit_value(s[0]))
    }
}

/// A decimal `u16` with an optional leading '+'.
pub open spec fn parse_u16_spec(s: Seq<char>) -> Result<u16, IntParseFailure> {
    if s.len() == 0 {
        Err(IntParseFailure::Empty)
    } else if s[0] == '+' {
        if s.len() == 1 {
            Err(IntParseFailure::InvalidDigit)
        } else {
            scan_digits(s.drop_first(), 0)
        }
    } else {
        scan_digits(s, 0)
    }
}

proof fn lemma_scan_step(s: Seq<char>, i: int, acc: int)
    requires
        0 <= i < s.len(),
        is_digit(s[i]),
        acc * 10 + digit_value(s[i]) <= 65535,
    ensures
        scan_digits(s.skip(i), acc) == scan_digits(s.skip(i + 1), acc * 10 + digit_value(s[i])),
{
    assert(s.skip(i).drop_first() =~= s.skip(i + 1));
    assert(s.skip(i)[0] == s[i]);
}

/// Parses a decimal `u16` with an optional leading '+'.
pub fn parse_u16(s: &str) -> (r: Result<u16, IntParseFailure>)
    ensures
        r == parse_u16_spec(s@),
{
    let n = s.unicode_len();
    if n == 0 {
        return Err(IntParseFailure::Empty);
    }
    let mut i: usize = 0;
    if s.get_char(0) == '+' {
        if n == 1 {
            return Err(IntParseFailure::InvalidDigit);
        }
        i = 1;
        assert(s@.drop_first() =~= s@.skip(1));
    } else {
        assert(s@ =~= s@.skip(0));
    }
    let ghost start = i;
    let mut acc: u32 = 0;
    while i < n
        invariant
            n == s@.len(),
            start <= i <= n,
            acc <= 65535,
            parse_u16_spec(s@) == scan_digits(s@.skip(i as int), acc as int),
        decreases n - i,
    {
        let c = s.get_char(i);
        assert(s@.skip(i as int)[0] == c);
        if !('0' <= c && c <= '9') {
            return Err(IntParseFailure::InvalidDigit);
        }
        let d = (c as u32) - ('0' as u32);
        if acc * 10 + d > 65535 {
            return Err(IntParseFailure::PosOverflow);
        }
        proof {
            lemma_scan_step(s@, i as int, acc as int);
        }
        acc = acc * 10 + d;
        i = i + 1;
    }
    assert(s@.skip(n as int).len() == 0);
    Ok(acc as u16)
}

/// The values of the environment variables that the settings come from;
/// a variable that cannot be read carries the rendering of why.
#[derive(Debug)]
pub struct ConfigVars {
    pub host: Result<String, String>,
    pub port: Result<String, String>,
    pub username: Result<String, String>,
    pub password: Result<String, String>,
    pub stream_name: Result<String, String>,
    pub consumer_name: Result<String, String>,
    pub response_stream_name: Result<String, String>,
    pub tb_address: Result<String, String>,
}

/// A failure wrapped in the explanation of what was expected.
pub open spec fn explained(failure: Seq<char>, explanation: Seq<char>) -> ReportModel {
    ReportModel { root: failure, layers: seq![explanation] }
}

/// The first setting, in order, that cannot be read or parsed.
pub open spec fn first_config_failure(vars: ConfigVars) -> Option<ReportModel> {
    if vars.host is Err {
        Some(explained(vars.host->Err_0@, "RABBITMQ_ADVERTISED_HOST must be set"@))
    } else if vars.port is Err {
        Some(explained(vars.port->Err_0@, "RABBITMQ_STREAM_PORT must be set"@))
    } else if parse_u16_spec(vars.port->Ok_0@) is Err {
        Some(
            explained(
                parse_u16_spec(vars.port->Ok_0@)->Err_0.spec_text(),
                "RABBITMQ_STREAM_PORT must be a valid number"@,
            ),
        )
    } else if vars.username is Err {
        Some(explained(vars.username->Err_0@, "RABBITMQ_DEFAULT_USER must be set"@))
    } else if vars.password is Err {
        Some(explained(vars.password->Err_0@, "RABBITMQ_DEFAULT_PASS must be set"@))
    } else if vars.stream_name is Err {
        Some(explained(vars.stream_name->Err_0@, "RABBITMQ_STREAM_NAME must be set"@))
    } else if vars.response_stream_name is Err {
        Some(
            explained(
                vars.response_stream_name->Err_0@,
                "RABBITMQ_RESPONSE_STREAM_NAME must be set"@,
            ),
        )
    } else if vars.tb_address is Err {
        Some(explained(vars.tb_address->Err_0@, "TB_ADDRESS must be set"@))
    } else {
        None
    }
}

/// The settings hold the variables' values; the consumer name defaults to
/// `rust_consumer`.
pub open spec fn config_holds(c: Config, vars: ConfigVars) -> bool {
    &&& c.host@ == vars.host->Ok_0@
    &&& c.port == parse_u16_spec(vars.port->Ok_0@)->Ok_0
    &&& c.username@ == vars.username->Ok_0@
    &&& c.password@ == vars.password->Ok_0@
    &&& c.stream_name@ == vars.stream_name->Ok_0@
    &&& c.consumer_name@ == (match vars.consumer_name {
        Ok(n) => n@,
        Err(_) => "rust_consumer"@,
    })
    &&& c.response_stream_name@ == vars.response_stream_name->Ok_0@
    &&& c.tb_address@ == vars.tb_address->Ok_0@
}

fn required(v: &Result<String, String>, explanation: &str) -> (r: Result<String, ErrorReport>)
    ensures
        match *v {
            Ok(s) => r is Ok && r->Ok_0@ == s@,
            Err(e) => r is Err && r->Err_0@ == explained(e@, explanation@),
        },
{
    match v {
        Ok(s) => Ok(String::from_str(s.as_str())),
        Err(e) => {
            let r = ErrorReport::new(e.as_str()).context(explanation);
            assert(r@.layers =~= seq![explanation@]);
            Err(r)
        },
    }
}

impl Config {
    /// Assembles the settings: each variable must be readable (the consumer
    /// name defaults to `rust_consumer`) and the port must be a decimal
    /// `u16`; the first that is not fails, wrapped in what was expected.
    pub fn from_vars(vars: &ConfigVars) -> (r: Result<Config, ErrorReport>)
        ensures
            match first_config_failure(*vars) {
                Some(m) => r is Err && r->Err_0@ == m,
                None => r is Ok && config_holds(r->Ok_0, *vars),
            },
    {
        let host = required(&vars.host, "RABBITMQ_ADVERTISED_HOST must be set")?;
        let port_text = required(&vars.port, "RABBITMQ_STREAM_PORT must be set")?;
        let port = match parse_u16(port_text.as_str()) {
            Ok(p) => p,
            Err(f) => {
                let text = f.to_display_string();
                let r = ErrorReport::new(text.as_str()).context(
                    "RABBITMQ_STREAM_PORT must be a valid number",
                );
                assert(r@.layers =~= seq!["RABBITMQ_STREAM_PORT must be a valid number"@]);
                return Err(r);
            },
        };
        let username = required(&vars.username, "RABBITMQ_DEFAULT_USER must be set")?;
        let password = required(&vars.password, "RABBITMQ_DEFAULT_PASS must be set")?;
        let stream_name = required(&vars.stream_name, "RABBITMQ_STREAM_NAME must be set")?;
        let consumer_name = match &vars.consumer_name {
            Ok(n) => String::from_str(n.as_str()),
            Err(_) => String::from_str("rust_consumer"),
        };
        let response_stream_name = required(
            &vars.response_stream_name,
            "RABBITMQ_RESPONSE_STREAM_NAME must be set",
        )?;
        let tb_address = required(&vars.tb_address, "TB_ADDRESS must be set")?;
        Ok(
            Config {
                host,
                port,
                username,
                password,
                stream_name,
                consumer_name,
                response_stream_name,
                tb_address,
            },
        )
    }
}

} // verus!
