//! The process configuration: read once at startup, then only passed along.

use crate::text::text_view;
use vstd::prelude::*;

verus! {

/// The settings of one process.
#[derive(Clone, Debug, PartialEq, Eq)]
pub struct Config {
    pub host: String,
    pub port: String,
    pub database_url: String,
    pub access_token_secret: String,
    pub refresh_token_secret: String,
    pub frontend_origins: Vec<String>,
}

/// Mathematical model of [`Config`].
pub struct ConfigView {
    pub host: Seq<char>,
    pub port: Seq<char>,
    pub database_url: Seq<char>,
    pub access_token_secret: Seq<char>,
    pub refresh_token_secret: Seq<char>,
    pub frontend_origins: Seq<Seq<char>>,
}

impl View for Config {
    type V = ConfigView;

    open spec fn view(&self) -> ConfigView {
        ConfigView {
            host: self.host@,
            port: self.port@,
            database_url: self.database_url@,
            access_token_secret: self.access_token_secret@,
            refresh_token_secret: self.refresh_token_secret@,
            frontend_origins: self.frontend_origins.deep_view(),
        }
    }
}

/// A variable of the environment: its name and its value.
pub type Var = (Seq<char>, Seq<char>);

/// Picks the value of a variable that is called `name`.
pub open spec fn pick_named(name: Seq<char>) -> spec_fn(Var) -> Option<Seq<char>> {
    |v: Var|
        if v.0 == name {
            Some(v.1)
        } else {
            None
        }
}

/// `s` starts with `prefix`.
pub open spec fn has_prefix(s: Seq<char>, prefix: Seq<char>) -> bool {
    s.len() >= prefix.len() && s.subrange(0, prefix.len() as int) == prefix
}

/// What the name of a variable starts with when its value is an origin that
/// may call.
pub open spec fn origin_prefix() -> Seq<char> {
    "FRONTEND_ORIGIN_"@
}

/// Picks the value of a variable that names an allowed origin.
pub open spec fn pick_origin() -> spec_fn(Var) -> Option<Seq<char>> {
    |v: Var|
        if has_prefix(v.0, origin_prefix()) {
            Some(v.1)
        } else {
            None
        }
}

/// The value of the first variable that is called `name`.
pub open spec fn var_value(vars: Seq<Var>, name: Seq<char>) -> Option<Seq<char>> {
    let values = vars.filter_map(pick_named(name));
    if values.len() > 0 {
        Some(values[0])
    } else {
        None
    }
}

/// The value of the first variable that is called `name`, and `default`
/// where there is none.
pub open spec fn var_or(vars: Seq<Var>, name: Seq<char>, default: Seq<char>) -> Seq<char> {
    match var_value(vars, name) {
        Some(value) => value,
        None => default,
    }
}

/// The configuration that an environment describes. The address of the
/// database must be given; host, port and the two secrets have defaults; the
/// allowed origins are the values of the variables whose names start with
/// [`origin_prefix`], in the order of the environment.
pub open spec fn configured(vars: Seq<Var>) -> Option<ConfigView> {
    match var_value(vars, "DATABASE_URL"@) {
        Some(database_url) => Some(
            ConfigView {
                host: var_or(vars, "HOST"@, "127.0.0.1"@),
                port: var_or(vars, "PORT"@, "9099"@),
                database_url: database_url,
                access_token_secret: var_or(vars, "ACCESS_TOKEN_SECRET"@, "secret"@),
                refresh_token_secret: var_or(vars, "REFRESH_TOKEN_SECRET"@, "secret"@),
                frontend_origins: vars.filter_map(pick_origin()),
            },
        ),
        None => None,
    }
}

/// The model of a configuration that may be missing.
pub open spec fn config_view(r: Option<Config>) -> Option<ConfigView> {
    match r {
        Some(config) => Some(config@),
        None => None,
    }
}

/// Tells whether `s` starts with `prefix`.
pub fn starts_with(s: &str, prefix: &str) -> (r: bool)
    ensures
        r == has_prefix(s@, prefix@),
{
    let wanted = prefix.unicode_len();
    if s.unicode_len() < wanted {
        return false;
    }
    let mut i: usize = 0;
    while i < wanted
        invariant
            i <= wanted,
            wanted == prefix@.len(),
            wanted <= s@.len(),
            forall|j: int| 0 <= j < i ==> s@[j] == prefix@[j],
        decreases wanted - i,
    {
        if s.get_char(i) != prefix.get_char(i) {
            proof {
                assert(s@.subrange(0, wanted as int)[i as int] == s@[i as int]);
            }
            return false;
        }
        i = i + 1;
    }
    proof {
        assert(s@.subrange(0, wanted as int) =~= prefix@);
    }
    true
}

/// Looks up the value of the first variable that is called `name`.
pub fn lookup(vars: &Vec<(String, String)>, name: &str) -> (r: Option<String>)
    ensures
        text_view(r) == var_value(vars.deep_view(), name@),
{
    let wanted = name.to_owned();
    let mut found: Option<String> = None;
    let mut i: usize = 0;
    while i < vars.len()
        invariant
            i <= vars.len(),
            wanted@ == name@,
            text_view(found) == var_value(vars.deep_view().take(i as int), name@),
        decreases vars.len() - i,
    {
        proof {
            vars.deep_view().lemma_filter_map_take_succ(pick_named(name@), i as int);
        }
        if found.is_none() && vars[i].0 == wanted {
            found = Some(vars[i].1.clone());
        }
        i = i + 1;
    }
    proof {
        assert(vars.deep_view().take(i as int) =~= vars.deep_view());
    }
    found
}

/// Looks up the value of the first variable that is called `name`; without
/// one, `default` stands in.
pub fn lookup_or(vars: &Vec<(String, String)>, name: &str, default: &str) -> (r: String)
    ensures
        r@ == var_or(vars.deep_view(), name@, default@),
{
    match lookup(vars, name) {
        Some(value) => value,
        None => default.to_owned(),
    }
}

/// Collects the allowed origins of an environment.
pub fn origins(vars: &Vec<(String, String)>) -> (r: Vec<String>)
    ensures
        r.deep_view() == vars.deep_view().filter_map(pick_origin()),
{
    let mut found: Vec<String> = Vec::new();
    let mut i: usize = 0;
    while i < vars.len()
        invariant
            i <= vars.len(),
            found.deep_view() == vars.deep_view().take(i as int).filter_map(pick_origin()),
        decreases vars.len() - i,
    {
        proof {
            vars.deep_view().lemma_filter_map_take_succ(pick_origin(), i as int);
        }
        if starts_with(vars[i].0.as_str(), "FRONTEND_ORIGIN_") {
            let ghost before = found.deep_view();
            found.push(vars[i].1.clone());
            proof {
                assert(found.deep_view() =~= before + seq![vars[i as int].1@]);
            }
        }
        i = i + 1;
    }
    proof {
        assert(vars.deep_view().take(i as int) =~= vars.deep_view());
    }
    found
}

impl Config {
    /// Reads the configuration from the variables of an environment, each
    /// with its name and its value. `None` where the address of the database
    /// is missing.
    pub fn new(vars: &Vec<(String, String)>) -> (r: Option<Config>)
        ensures
            config_view(r) == configured(vars.deep_view()),
    {
        let database_url = match lookup(vars, "DATABASE_URL") {
            Some(url) => url,
            None => { return None; },
        };
        Some(
            Config {
                host: lookup_or(vars, "HOST", "127.0.0.1"),
                port: lookup_or(vars, "PORT", "9099"),
                database_url,
                access_token_secret: lookup_or(vars, "ACCESS_TOKEN_SECRET", "secret"),
                refresh_token_secret: lookup_or(vars, "REFRESH_TOKEN_SECRET", "secret"),
                frontend_origins: origins(vars),
            },
        )
    }

    /// Tells whether a request from `origin` may call: whether `origin` is
    /// one of the configured origins.
    pub fn allows_origin(&self, origin: &str) -> (r: bool)
        ensures
            r == self@.frontend_origins.contains(origin@),
    {
        let wanted = origin.to_owned();
        let mut i: usize = 0;
        while i < self.frontend_origins.len()
            invariant
                i <= self.frontend_origins.len(),
                wanted@ == origin@,
                forall|j: int| 0 <= j < i ==> self@.frontend_origins[j] != origin@,
            decreases self.frontend_origins.len() - i,
        {
            if self.frontend_origins[i] == wanted {
                proof {
                    assert(self@.frontend_origins[i as int] == origin@);
                }
                return true;
            }
            i = i + 1;
        }
        false
    }
}

} // verus!
