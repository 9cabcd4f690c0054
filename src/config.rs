//! Service configuration, built once at startup and passed to whatever needs it.

use vstd::prelude::*;
use crate::user_repository::{fold_case, lower_of};

verus! {

/// Log output format.
#[derive(Debug, Clone, Copy, PartialEq, Eq, Structural)]
pub enum LogFormat {
    /// Human-readable output.
    Pretty,
    /// JSON lines.
    Json,
}

/// Settings of the service.
#[derive(Debug, Clone)]
pub struct Config {
    pub host: String,
    pub port: u16,
    pub music_folder: String,
    pub users_file: String,
    /// Secret the tokens are signed with.
    pub jwt_secret: String,
    /// Lifetime of a token, in days.
    pub jwt_expiry_days: i64,
    pub log_level: String,
    pub log_format: LogFormat,
    pub cors_origins: Vec<String>,
}

/// Problems found when checking the configuration against the file system.
#[derive(Debug)]
pub enum ConfigError {
    MusicFolderNotFound(String),
    MusicFolderNotDirectory(String),
    DataDirectoryCreationFailed(String, std::io::Error),
}

pub open spec fn digit_char(d: nat) -> char {
    if d == 0 { '0' }
    else if d == 1 { '1' }
    else if d == 2 { '2' }
    else if d == 3 { '3' }
    else if d == 4 { '4' }
    else if d == 5 { '5' }
    else if d == 6 { '6' }
    else if d == 7 { '7' }
    else if d == 8 { '8' }
    else { '9' }
}

/// Decimal digits of `n`, most significant first, without leading zeros.
pub open spec fn decimal(n: nat) -> Seq<char>
    decreases n,
{
    if n < 10 {
        seq![digit_char(n)]
    } else {
        decimal(n / 10) + seq![digit_char(n % 10)]
    }
}

fn digit_str(d: u16) -> (r: &'static str)
    requires
        d < 10,
    ensures
        r@ == seq![digit_char(d as nat)],
{
    proof {
        reveal_strlit("0");
        reveal_strlit("1");
        reveal_strlit("2");
        reveal_strlit("3");
        reveal_strlit("4");
        reveal_strlit("5");
        reveal_strlit("6");
        reveal_strlit("7");
        reveal_strlit("8");
        reveal_strlit("9");
    }
    if d == 0 { "0" }
    else if d == 1 { "1" }
    else if d == 2 { "2" }
    else if d == 3 { "3" }
    else if d == 4 { "4" }
    else if d == 5 { "5" }
    else if d == 6 { "6" }
    else if d == 7 { "7" }
    else if d == 8 { "8" }
    else { "9" }
}

/// Appends the decimal form of `n`.
fn push_decimal(s: &mut String, n: u16)
    ensures
        final(s)@ == old(s)@ + decimal(n as nat),
    decreases n,
{
    if n >= 10 {
        push_decimal(s, n / 10);
    }
    s.append(digit_str(n % 10));
    proof {
        assert(final(s)@ =~= old(s)@ + decimal(n as nat));
    }
}

/// What `str::trim` yields: the text without leading and trailing white space.
pub uninterp spec fn trim_of(s: Seq<char>) -> Seq<char>;

/// Relies on `str::trim`.
#[verifier::external_body]
fn trim_text(s: &str) -> (r: String)
    ensures
        r@ == trim_of(s@),
{
    s.trim().to_string()
}

/// The pieces of a text between commas, in order; a text without commas is one piece.
pub open spec fn split_commas(s: Seq<char>) -> Seq<Seq<char>>
    decreases s.len(),
{
    if s.len() == 0 {
        seq![Seq::<char>::empty()]
    } else {
        let init = split_commas(s.drop_last());
        if s.last() == ',' {
            init.push(Seq::<char>::empty())
        } else {
            init.update(init.len() - 1, init.last().push(s.last()))
        }
    }
}

/// The trimmed pieces that are not empty, in order.
pub open spec fn kept_origins(pieces: Seq<Seq<char>>) -> Seq<Seq<char>>
    decreases pieces.len(),
{
    if pieces.len() == 0 {
        Seq::<Seq<char>>::empty()
    } else {
        let rest = kept_origins(pieces.drop_last());
        let t = trim_of(pieces.last());
        if t.len() == 0 {
            rest
        } else {
            rest.push(t)
        }
    }
}

proof fn lemma_split_nonempty(s: Seq<char>)
    ensures
        split_commas(s).len() >= 1,
    decreases s.len(),
{
    if s.len() > 0 {
        lemma_split_nonempty(s.drop_last());
    }
}

/// The allowed CORS origins of a comma-separated list: each piece trimmed,
/// empty pieces dropped.
pub fn parse_cors_origins(s: &str) -> (r: Vec<String>)
    ensures
        r@.map_values(|o: String| o@) == kept_origins(split_commas(s@)),
{
    let n = s.unicode_len();
    let mut out: Vec<String> = Vec::new();
    let mut st: usize = 0;
    let mut i: usize = 0;
    proof {
        assert(s@.subrange(0, 0) =~= Seq::<char>::empty());
    }
    while i < n
        invariant
            n == s@.len(),
            st <= i <= n,
            split_commas(s@.subrange(0, i as int)).last() == s@.subrange(st as int, i as int),
            out@.map_values(|o: String| o@) == kept_origins(split_commas(s@.subrange(0, i as int)).drop_last()),
        decreases n - i,
    {
        let c = s.get_char(i);
        let ghost pre = s@.subrange(0, i as int);
        let ghost next = s@.subrange(0, i + 1);
        proof {
            assert(next.drop_last() =~= pre);
            assert(next.last() == c);
            lemma_split_nonempty(pre);
        }
        if c == ',' {
            let piece = s.substring_char(st, i);
            let t = trim_text(piece);
            proof {
                let p = split_commas(pre);
                assert(split_commas(next) == p.push(Seq::<char>::empty()));
                assert(split_commas(next).drop_last() =~= p);
                assert(p.drop_last().push(p.last()) =~= p);
            }
            if t.unicode_len() > 0 {
                let ghost before = out@;
                out.push(t);
                proof {
                    assert(out@.map_values(|o: String| o@) =~= before.map_values(|o: String| o@).push(t@));
                }
            }
            st = i + 1;
            proof {
                assert(s@.subrange(st as int, i + 1) =~= Seq::<char>::empty());
            }
        } else {
            proof {
                let p = split_commas(pre);
                assert(split_commas(next).drop_last() =~= p.drop_last());
                assert(s@.subrange(st as int, i + 1) =~= s@.subrange(st as int, i as int).push(c));
            }
        }
        i = i + 1;
    }
    let piece = s.substring_char(st, n);
    let t = trim_text(piece);
    proof {
        assert(s@.subrange(0, n as int) =~= s@);
        lemma_split_nonempty(s@);
        let p = split_commas(s@);
        assert(p.drop_last().push(p.last()) =~= p);
    }
    if t.unicode_len() > 0 {
        let ghost before = out@;
        out.push(t);
        proof {
            assert(out@.map_values(|o: String| o@) =~= before.map_values(|o: String| o@).push(t@));
        }
    }
    out
}

impl LogFormat {
    /// `json` in any case selects JSON; anything else the readable format.
    pub fn parse(s: &str) -> (r: LogFormat)
        ensures
            r == (if lower_of(s@) == "json"@ { LogFormat::Json } else { LogFormat::Pretty }),
    {
        let folded = fold_case(s);
        let json = String::from_str("json");
        if folded == json {
            LogFormat::Json
        } else {
            LogFormat::Pretty
        }
    }
}

pub open spec fn or_default(v: Option<String>, d: Seq<char>) -> Seq<char> {
    match v {
        Some(x) => x@,
        None => d,
    }
}

fn string_or(v: Option<String>, d: &str) -> (r: String)
    ensures
        r@ == or_default(v, d@),
{
    match v {
        Some(x) => x,
        None => String::from_str(d),
    }
}

impl Config {
    /// The configuration from the settings that were given, each missing one
    /// taking its default; a missing secret is replaced by `fallback_secret`.
    pub fn from_parts(
        host: Option<String>,
        port: Option<u16>,
        music_folder: Option<String>,
        users_file: Option<String>,
        jwt_secret: Option<String>,
        fallback_secret: String,
        jwt_expiry_days: Option<i64>,
        log_level: Option<String>,
        log_format: Option<String>,
        cors_origins: Option<String>,
    ) -> (r: Config)
        ensures
            r.host@ == or_default(host, "0.0.0.0"@),
            r.port == (match port { Some(p) => p, None => 8080u16 }),
            r.music_folder@ == or_default(music_folder, "./music"@),
            r.users_file@ == or_default(users_file, "./data/users.json"@),
            r.jwt_secret@ == or_default(jwt_secret, fallback_secret@),
            r.jwt_expiry_days == (match jwt_expiry_days { Some(d) => d, None => 7i64 }),
            r.log_level@ == or_default(log_level, "info"@),
            r.log_format == (if lower_of(or_default(log_format, "pretty"@)) == "json"@ {
                LogFormat::Json
            } else {
                LogFormat::Pretty
            }),
            r.cors_origins@.map_values(|o: String| o@) == kept_origins(split_commas(or_default(cors_origins, "*"@))),
    {
        let log_format = string_or(log_format, "pretty");
        let cors = string_or(cors_origins, "*");
        let jwt_secret = match jwt_secret {
            Some(x) => x,
            None => fallback_secret,
        };
        Config {
            host: string_or(host, "0.0.0.0"),
            port: match port {
                Some(p) => p,
                None => 8080,
            },
            music_folder: string_or(music_folder, "./music"),
            users_file: string_or(users_file, "./data/users.json"),
            jwt_secret,
            jwt_expiry_days: match jwt_expiry_days {
                Some(d) => d,
                None => 7,
            },
            log_level: string_or(log_level, "info"),
            log_format: LogFormat::parse(log_format.as_str()),
            cors_origins: parse_cors_origins(cors.as_str()),
        }
    }

    /// `host:port`, the address the server binds to.
    pub fn bind_address(&self) -> (r: String)
        ensures
            r@ == self.host@ + seq![':'] + decimal(self.port as nat),
    {
        let mut s = self.host.clone();
        s.append(":");
        proof {
            reveal_strlit(":");
        }
        push_decimal(&mut s, self.port);
        s
    }
}

} // verus!
