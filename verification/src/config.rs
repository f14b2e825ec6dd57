//! Merged configuration: command-line flags over config-file values over
//! built-in defaults.
//!
//! Reading the command line and the configuration file is the embedding
//! program's business; it hands the raw flag texts and the decoded file
//! table in, and the library decides what every setting resolves to.

use vstd::prelude::*;

verus! {

use crate::text::{parse_u32, u32_text_val, valid_u32_text};

/// 30 minutes in seconds.
pub const TIMEOUT: u32 = 30 * 60;

/// 10 images per batch from the remote service.
pub const UNSPLASH_LIMIT: u32 = 10;

/// 24 hours in seconds.
pub const UNSPLASH_REFRESH: u32 = 24 * 60 * 60;

/// The configuration file's table for the local source.
#[derive(Debug)]
pub struct LocalTable {
    /// Path to the local directory of images.
    pub dir: Option<String>,
}

/// The configuration file's table for the remote source.
#[derive(Debug)]
pub struct UnsplashTable {
    /// Remote API token.
    pub token: Option<String>,
    /// Max number of images to download and cache per batch.
    pub limit: Option<u32>,
    /// Seconds before the remote image cache goes stale.
    pub refresh: Option<u32>,
}

/// The decoded configuration file: every value optional.
#[derive(Debug)]
pub struct ConfigTable {
    /// Seconds before displaying the next image.
    pub timeout: Option<u32>,
    /// The local source's table.
    pub local: Option<LocalTable>,
    /// The remote source's table.
    pub unsplash: Option<UnsplashTable>,
}

impl Default for LocalTable {
    fn default() -> (r: LocalTable)
        ensures
            r.dir is None,
    {
        LocalTable { dir: None }
    }
}

impl Default for UnsplashTable {
    fn default() -> (r: UnsplashTable)
        ensures
            r.token is None,
            r.limit is None,
            r.refresh is None,
    {
        UnsplashTable { token: None, limit: None, refresh: None }
    }
}

impl Default for ConfigTable {
    fn default() -> (r: ConfigTable)
        ensures
            r.timeout is None,
            r.local is None,
            r.unsplash is None,
    {
        ConfigTable { timeout: None, local: None, unsplash: None }
    }
}

/// The directory the configuration file offers, if any.
pub open spec fn table_dir(t: ConfigTable) -> Option<String> {
    match t.local {
        Option::Some(l) => l.dir,
        Option::None => Option::None,
    }
}

/// The token the configuration file offers, if any.
pub open spec fn table_token(t: ConfigTable) -> Option<String> {
    match t.unsplash {
        Option::Some(u) => u.token,
        Option::None => Option::None,
    }
}

/// The batch limit the configuration file offers, if any.
pub open spec fn table_limit(t: ConfigTable) -> Option<u32> {
    match t.unsplash {
        Option::Some(u) => u.limit,
        Option::None => Option::None,
    }
}

/// The refresh interval the configuration file offers, if any.
pub open spec fn table_refresh(t: ConfigTable) -> Option<u32> {
    match t.unsplash {
        Option::Some(u) => u.refresh,
        Option::None => Option::None,
    }
}

/// A problem with the merged configuration.
#[derive(Debug, PartialEq, Eq)]
pub enum ConfigError {
    /// A numeric flag does not hold a numeral that fits in a `u32`.
    InvalidNumber,
}

impl ConfigError {
    /// A human-readable description of the error.
    pub fn description(&self) -> (r: &'static str)
        ensures
            r@ == "invalid number in arguments"@,
    {
        match self {
            ConfigError::InvalidNumber => "invalid number in arguments",
        }
    }
}

/// The raw command-line flags, each as given or absent.
#[derive(Debug)]
pub struct CliArgs {
    /// `--dir`: path to the local directory of images.
    pub dir: Option<String>,
    /// `--token`: remote API token.
    pub token: Option<String>,
    /// `--limit`: max number of images to download and cache.
    pub limit: Option<String>,
    /// `--refresh`: seconds before refreshing the remote image cache.
    pub refresh: Option<String>,
    /// `--timeout`: seconds before displaying the next image.
    pub timeout: Option<String>,
}

/// Whether a numeric flag, if given, holds a numeral that fits in a `u32`.
pub open spec fn number_ok(cli: Option<String>) -> bool {
    match cli {
        Option::Some(s) => valid_u32_text(s@),
        Option::None => true,
    }
}

/// What a numeric setting resolves to: the flag wins, then the file value,
/// then the default.
pub open spec fn resolved_number(cli: Option<String>, table: Option<u32>, default: u32) -> int
    recommends
        number_ok(cli),
{
    match cli {
        Option::Some(s) => u32_text_val(s@) as int,
        Option::None => match table {
            Option::Some(v) => v as int,
            Option::None => default as int,
        },
    }
}

/// Whether a textual setting resolved to `r`: the flag wins, then the file
/// value.
pub open spec fn picked_string(cli: Option<String>, table: Option<String>, r: String) -> bool {
    match cli {
        Option::Some(s) => r == s,
        Option::None => table matches Some(s) && r == s,
    }
}

/// Resolve one numeric setting.
fn resolve_number(cli: &Option<String>, table: Option<u32>, default: u32) -> (r: Result<
    u32,
    ConfigError,
>)
    ensures
        r is Ok <==> number_ok(*cli),
        r matches Ok(v) ==> v == resolved_number(*cli, table, default),
{
    match cli {
        Option::Some(s) => match parse_u32(s.as_str()) {
            Option::Some(v) => Ok(v),
            Option::None => Err(ConfigError::InvalidNumber),
        },
        Option::None => match table {
            Option::Some(v) => Ok(v),
            Option::None => Ok(default),
        },
    }
}

/// Arguments that are merged, normalized, and flattened.
#[derive(Debug)]
pub struct Args {
    /// Seconds before displaying the next image.
    pub timeout: u32,
    /// Path to the local directory of images.
    pub local_dir: String,
    /// Remote API token.
    pub unsplash_token: String,
    /// Max number of images to download and cache per batch.
    pub unsplash_limit: u32,
    /// Seconds before the remote image cache goes stale.
    pub unsplash_refresh: u32,
}

impl Args {
    /// Merge the three configuration sources — command-line flags, the
    /// configuration file, and the built-in defaults, in that order of
    /// preference — into one flattened argument structure.  The directory
    /// and the token have no default and must come from one of the first
    /// two sources; a numeric flag that is not a `u32` numeral is an error
    /// even when the file or the defaults could fill in.
    pub fn parse(cli: &CliArgs, table: &ConfigTable) -> (r: Result<Args, ConfigError>)
        requires
            cli.dir is Some || table_dir(*table) is Some,
            cli.token is Some || table_token(*table) is Some,
        ensures
            r is Ok <==> number_ok(cli.timeout) && number_ok(cli.limit) && number_ok(cli.refresh),
            r matches Ok(a) ==> {
                &&& a.timeout == resolved_number(cli.timeout, table.timeout, TIMEOUT)
                &&& picked_string(cli.dir, table_dir(*table), a.local_dir)
                &&& picked_string(cli.token, table_token(*table), a.unsplash_token)
                &&& a.unsplash_limit == resolved_number(cli.limit, table_limit(*table),
                    UNSPLASH_LIMIT,
                )
                &&& a.unsplash_refresh == resolved_number(cli.refresh, table_refresh(*table),
                    UNSPLASH_REFRESH,
                )
            },
    {
        let timeout: u32 = match resolve_number(&cli.timeout, table.timeout, TIMEOUT) {
            Ok(v) => v,
            Err(e) => {
                return Err(e);
            },
        };
        let local_dir: String = match &cli.dir {
            Option::Some(s) => s.clone(),
            Option::None => match &table.local {
                Option::Some(l) => match &l.dir {
                    Option::Some(d) => d.clone(),
                    Option::None => {
                        proof {
                            assert(false);
                        }
                        String::new()
                    },
                },
                Option::None => {
                    proof {
                        assert(false);
                    }
                    String::new()
                },
            },
        };
        let unsplash_token: String = match &cli.token {
            Option::Some(s) => s.clone(),
            Option::None => match &table.unsplash {
                Option::Some(u) => match &u.token {
                    Option::Some(t) => t.clone(),
                    Option::None => {
                        proof {
                            assert(false);
                        }
                        String::new()
                    },
                },
                Option::None => {
                    proof {
                        assert(false);
                    }
                    String::new()
                },
            },
        };
        let table_limit_v: Option<u32> = match &table.unsplash {
            Option::Some(u) => u.limit,
            Option::None => None,
        };
        let unsplash_limit: u32 = match resolve_number(&cli.limit, table_limit_v, UNSPLASH_LIMIT) {
            Ok(v) => v,
            Err(e) => {
                return Err(e);
            },
        };
        let table_refresh_v: Option<u32> = match &table.unsplash {
            Option::Some(u) => u.refresh,
            Option::None => None,
        };
        let unsplash_refresh: u32 = match resolve_number(
            &cli.refresh,
            table_refresh_v,
            UNSPLASH_REFRESH,
        ) {
            Ok(v) => v,
            Err(e) => {
                return Err(e);
            },
        };
        Ok(
            Args {
                timeout,
                local_dir,
                unsplash_token,
                unsplash_limit,
                unsplash_refresh,
            },
        )
    }

    /// Consume and convert the arguments to a context object understood by
    /// the engine.
    pub fn into_context(self) -> (c: crate::Context)
        ensures
            c.dir@ == self.local_dir@,
            c.token@ == self.unsplash_token@,
            c.limit == self.unsplash_limit,
            c.timeout_secs == self.timeout as u64,
            c.refresh_secs == self.unsplash_refresh as u64,
    {
        crate::Context::new(
            self.local_dir.as_str(),
            self.unsplash_token.as_str(),
            self.unsplash_limit,
            self.timeout as u64,
            self.unsplash_refresh as u64,
        )
    }
}

} // verus!
