//! Where the configuration lives and what it holds.
use vstd::prelude::*;

verus! {

/// The configuration file used when none is named on the command line.
pub const FALLBACK_CONFIG_PATH: &'static str = "~/.config/platypus-powder-ping/config.toml";

/// The command-line options.
pub struct Args {
    /// `-c`, `--config`: the configuration file to read.
    pub config: Option<String>,
    /// `-n`, `--notify`: send a desktop notification when there are updates.
    pub notify: bool,
    /// `-b`, `--benchmark`: report the time the run took.
    pub benchmark: bool,
}

/// The whole configuration file.
pub struct Config {
    /// The directory of the Darwin flake.
    pub flake_dir: String,
    /// The name of the configuration inside the flake; the host name when absent.
    pub flake_config_name: Option<String>,
    /// What to skip and what to look up under another name.
    pub pkgs: ConfigPkgs,
}

/// Per-package settings.
#[derive(Clone, Debug)]
pub struct ConfigPkgs {
    /// Names of packages that are never reported.
    pub ignore: Vec<String>,
    /// Pairs of an installed package's name and the name to look up upstream
    /// instead; for a name given twice the first pair counts.
    pub overrides: Vec<(String, String)>,
}

impl Default for ConfigPkgs {
    fn default() -> (c: Self)
        ensures
            c.ignore@.len() == 0,
            c.overrides@.len() == 0,
    {
        ConfigPkgs { ignore: Vec::new(), overrides: Vec::new() }
    }
}

/// `input` with a leading `~` standing for the home directory: `~/rest`
/// becomes `home/rest`, a lone `~` becomes `home`, anything else stays.
pub open spec fn expand_tilde(input: Seq<char>, home: Seq<char>) -> Seq<char> {
    if input.len() >= 2 && input[0] == '~' && input[1] == '/' {
        home + seq!['/'] + input.skip(2)
    } else if input == seq!['~'] {
        home
    } else {
        input
    }
}

/// The configuration file to read: the one named by `--config`, else the
/// fallback, with a leading `~` expanded to `home`.
pub open spec fn config_path(config: Option<Seq<char>>, home: Seq<char>) -> Seq<char> {
    match config {
        Some(p) => expand_tilde(p, home),
        None => expand_tilde(FALLBACK_CONFIG_PATH@, home),
    }
}

/// Law: which file is read. A configured path that does not begin with `~`
/// is read as it is; `~/rest` is `rest` under the home directory; a lone `~`
/// is the home directory; without `--config` the file is
/// `.config/platypus-powder-ping/config.toml` under the home directory.
pub proof fn lemma_config_path_meaning(config: Option<Seq<char>>, home: Seq<char>)
    ensures
        config matches Some(p) ==> ((p.len() == 0 || p[0] != '~') ==> config_path(config, home)
            == p),
        config matches Some(p) ==> (p.len() >= 2 && p[0] == '~' && p[1] == '/' ==> config_path(
            config,
            home,
        ) == home + seq!['/'] + p.skip(2)),
        config matches Some(p) ==> (p == seq!['~'] ==> config_path(config, home) == home),
        config is None ==> config_path(config, home) == home
            + "/.config/platypus-powder-ping/config.toml"@,
{
    reveal_strlit("~/.config/platypus-powder-ping/config.toml");
    reveal_strlit("/.config/platypus-powder-ping/config.toml");
    let f = FALLBACK_CONFIG_PATH@;
    assert(f.len() >= 2 && f[0] == '~' && f[1] == '/');
    assert(home + seq!['/'] + f.skip(2) =~= home + "/.config/platypus-powder-ping/config.toml"@);
    if let Some(p) = config {
        if p == seq!['~'] {
            assert(p.len() == 1);
        }
    }
}

/// Expands a leading `~` of `input` to `home`.
pub fn expand_tilde_with_home(input: &str, home: &str) -> (r: String)
    ensures
        r@ == expand_tilde(input@, home@),
        input@.len() == 0 || input@[0] != '~' ==> r@ == input@,
        input@.len() >= 2 && input@[0] == '~' && input@[1] == '/' ==> r@ == home@ + seq!['/']
            + input@.skip(2),
        input@ == seq!['~'] ==> r@ == home@,
        input@.len() >= 2 && input@[0] == '~' && input@[1] != '/' ==> r@ == input@,
{
    let n = input.unicode_len();
    if n >= 2 && input.get_char(0) == '~' && input.get_char(1) == '/' {
        let rest = input.substring_char(2, n);
        let mut s = String::from_str(home);
        let slash = "/";
        proof {
            reveal_strlit("/");
        }
        s.append(slash);
        s.append(rest);
        assert(s@ =~= home@ + seq!['/'] + input@.skip(2));
        s
    } else if n == 1 && input.get_char(0) == '~' {
        assert(input@ =~= seq!['~']);
        String::from_str(home)
    } else {
        proof {
            if input@ == seq!['~'] {
                assert(input@[0] == '~');
            }
        }
        String::from_str(input)
    }
}

/// The configuration file to read, given the command line and the home
/// directory.
pub fn resolve_config_path(args: &Args, home: &str) -> (r: String)
    ensures
        r@ == config_path(
            match args.config {
                Some(p) => Some(p@),
                None => None,
            },
            home@,
        ),
        args.config matches Some(p) ==> ((p@.len() == 0 || p@[0] != '~') ==> r@ == p@),
        args.config matches Some(p) ==> (p@.len() >= 2 && p@[0] == '~' && p@[1] == '/' ==> r@
            == home@ + seq!['/'] + p@.skip(2)),
        args.config matches Some(p) ==> (p@ == seq!['~'] ==> r@ == home@),
        args.config is None ==> r@ == home@ + "/.config/platypus-powder-ping/config.toml"@,
{
    proof {
        lemma_config_path_meaning(
            match &args.config {
                Some(p) => Some(p@),
                None => None,
            },
            home@,
        );
    }
    let raw: &str = match &args.config {
        Some(path) => path.as_str(),
        None => FALLBACK_CONFIG_PATH,
    };
    expand_tilde_with_home(raw, home)
}

} // verus!
