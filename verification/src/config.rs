//! The configuration: a default webhook and a table of named ones.

use crate::endpoint::{endpoint_of, Endpoint};
use crate::error::ResolveError;
use vstd::prelude::*;

verus! {

/// A named webhook.
#[derive(Debug)]
struct Hook {
    name: String,
    endpoint: Endpoint,
}

/// The webhooks that a configuration file offers. No name stands for two
/// webhooks: naming one again replaces it.
#[derive(Debug)]
pub struct Config {
    slack_hook: Option<Endpoint>,
    hooks: Vec<Hook>,
}

/// A configuration as plain values: the default webhook, if there is one,
/// and the mapping from names to webhooks, each URL in serialized form. A
/// file without a table of names has the empty mapping.
pub struct ConfigView {
    pub slack_hook: Option<Seq<char>>,
    pub hooks: Map<Seq<char>, Seq<char>>,
}

/// Whether every URL among `entries`, pairs of a name and a URL, is an
/// endpoint.
pub open spec fn all_endpoints(entries: Seq<(String, String)>) -> bool {
    forall|i: int| 0 <= i < entries.len() ==> endpoint_of(#[trigger] entries[i].1@) is Some
}

/// The mapping that `entries` describe, read in order, so that of two
/// entries of one name the later stands.
pub open spec fn hooks_of(entries: Seq<(String, String)>) -> Map<Seq<char>, Seq<char>>
    decreases entries.len(),
{
    if entries.len() == 0 {
        Map::empty()
    } else {
        hooks_of(entries.drop_last()).insert(
            entries.last().0@,
            endpoint_of(entries.last().1@)->0,
        )
    }
}

/// The default webhook that the raw value `slack_hook` describes.
pub open spec fn default_of(slack_hook: Option<&str>) -> Option<Seq<char>> {
    match slack_hook {
        Some(url) => endpoint_of(url@),
        None => None,
    }
}

/// Whether the raw value `slack_hook`, where there is one, is an endpoint.
pub open spec fn default_accepted(slack_hook: Option<&str>) -> bool {
    slack_hook matches Some(url) ==> endpoint_of(url@) is Some
}

/// Whether the entry at `i` is the first whose URL is no endpoint.
pub open spec fn first_refused(entries: Seq<(String, String)>, i: int) -> bool {
    &&& 0 <= i < entries.len()
    &&& all_endpoints(entries.take(i))
    &&& endpoint_of(entries[i].1@) is None
}

spec fn names_unique(hooks: Seq<Hook>) -> bool {
    forall|i: int, j: int| 0 <= i < j < hooks.len() ==> hooks[i].name@ != hooks[j].name@
}

spec fn is_at(hooks: Seq<Hook>, name: Seq<char>, i: int) -> bool {
    0 <= i < hooks.len() && hooks[i].name@ == name
}

spec fn named(hooks: Seq<Hook>, name: Seq<char>) -> bool {
    exists|i: int| is_at(hooks, name, i)
}

spec fn position(hooks: Seq<Hook>, name: Seq<char>) -> int {
    choose|i: int| is_at(hooks, name, i)
}

spec fn table(hooks: Seq<Hook>) -> Map<Seq<char>, Seq<char>> {
    Map::new(|name: Seq<char>| named(hooks, name), |name: Seq<char>| hooks[position(hooks, name)].endpoint@)
}

proof fn lemma_position(hooks: Seq<Hook>, name: Seq<char>, i: int)
    requires
        names_unique(hooks),
        is_at(hooks, name, i),
    ensures
        named(hooks, name),
        position(hooks, name) == i,
{
    let p = position(hooks, name);
    assert(is_at(hooks, name, p));
    if p < i {
        assert(hooks[p].name@ != hooks[i].name@);
    } else if i < p {
        assert(hooks[i].name@ != hooks[p].name@);
    }
}

impl View for Config {
    type V = ConfigView;

    closed spec fn view(&self) -> ConfigView {
        ConfigView {
            slack_hook: match self.slack_hook {
                Some(endpoint) => Some(endpoint@),
                None => None,
            },
            hooks: table(self.hooks@),
        }
    }
}

impl Config {
    #[verifier::type_invariant]
    spec fn valid(self) -> bool {
        names_unique(self.hooks@)
    }

    /// The configuration of an empty file: no default, no names.
    pub fn new() -> (config: Config)
        ensures
            config@.slack_hook is None,
            config@.hooks == Map::<Seq<char>, Seq<char>>::empty(),
    {
        let config = Config { slack_hook: None, hooks: Vec::new() };
        assert(config@.hooks =~= Map::<Seq<char>, Seq<char>>::empty()) by {
            assert forall|name: Seq<char>| !named(config.hooks@, name) by {
                if named(config.hooks@, name) {
                    assert(is_at(config.hooks@, name, position(config.hooks@, name)));
                }
            }
        }
        config
    }

    /// The same configuration with `endpoint` as its default webhook.
    pub fn with_default(self, endpoint: Endpoint) -> (config: Config)
        ensures
            config@.slack_hook == Some(endpoint@),
            config@.hooks == self@.hooks,
    {
        proof {
            use_type_invariant(&self);
        }
        Config { slack_hook: Some(endpoint), hooks: self.hooks }
    }

    fn find(&self, name: &String) -> (at: Option<usize>)
        ensures
            match at {
                Some(i) => is_at(self.hooks@, name@, i as int),
                None => !named(self.hooks@, name@),
            },
    {
        let mut i: usize = 0;
        while i < self.hooks.len()
            invariant
                i <= self.hooks.len(),
                forall|j: int| 0 <= j < i ==> !is_at(self.hooks@, name@, j),
            decreases self.hooks.len() - i,
        {
            if self.hooks[i].name == *name {
                return Some(i);
            }
            i = i + 1;
        }
        assert(!named(self.hooks@, name@)) by {
            if named(self.hooks@, name@) {
                assert(is_at(self.hooks@, name@, position(self.hooks@, name@)));
            }
        }
        None
    }

    /// The same configuration with `name` standing for `endpoint`, in place
    /// of what it stood for before, if anything.
    pub fn with_hook(self, name: String, endpoint: Endpoint) -> (config: Config)
        ensures
            config@.hooks == self@.hooks.insert(name@, endpoint@),
            config@.slack_hook == self@.slack_hook,
    {
        proof {
            use_type_invariant(&self);
        }
        let ghost before = self.hooks@;
        let ghost key = name@;
        let ghost value = endpoint@;
        let found = self.find(&name);
        let Config { slack_hook, mut hooks } = self;
        match found {
            Some(i) => {
                hooks.set(i, Hook { name, endpoint });
            },
            None => {
                hooks.push(Hook { name, endpoint });
            },
        }
        proof {
            let after = hooks@;
            assert forall|j: int| 0 <= j < after.len() implies #[trigger] after[j].name@ == (if j
                < before.len() {
                before[j].name@
            } else {
                key
            }) by {
                if let Some(i) = found {
                    assert(is_at(before, key, i as int));
                }
            }
            assert(names_unique(after)) by {
                assert forall|j: int, k: int| 0 <= j < k < after.len() implies after[j].name@
                    != after[k].name@ by {
                    if k >= before.len() {
                        assert(!is_at(before, key, j));
                    }
                }
            }
            assert forall|n: Seq<char>| #[trigger] table(after).contains_key(n) == table(before).insert(key, value).contains_key(n) by {
                if named(after, n) {
                    let p = position(after, n);
                    assert(is_at(after, n, p));
                    if n != key {
                        assert(is_at(before, n, p));
                    }
                }
                if named(before, n) {
                    let p = position(before, n);
                    assert(is_at(before, n, p));
                    if n != key {
                        assert(is_at(after, n, p));
                    }
                }
                if n == key {
                    match found {
                        Some(i) => {
                            assert(is_at(after, n, i as int));
                        },
                        None => {
                            assert(is_at(after, n, before.len() as int));
                        },
                    }
                }
            }
            assert forall|n: Seq<char>| table(after).contains_key(n) implies #[trigger] table(after)[n] == table(before).insert(key, value)[n] by {
                let p = position(after, n);
                assert(is_at(after, n, p));
                if n != key {
                    assert(is_at(before, n, p));
                    lemma_position(before, n, p);
                } else {
                    match found {
                        Some(i) => {
                            lemma_position(after, n, i as int);
                        },
                        None => {
                            lemma_position(after, n, before.len() as int);
                        },
                    }
                }
            }
            assert(table(after) =~= table(before).insert(key, value));
        }
        Config { slack_hook, hooks }
    }

    /// Builds the configuration from the values read from a file:
    /// `slack_hook`, the default webhook, and `hooks`, the table of named
    /// ones as pairs of name and URL. Every URL has to be an endpoint,
    /// whether it will be used or not. The error names the first value that
    /// is none, the default before the table.
    pub fn from_raw(slack_hook: Option<&str>, hooks: &Vec<(String, String)>) -> (loaded: Result<
        Config,
        ResolveError,
    >)
        ensures
            match loaded {
                Ok(config) => {
                    &&& default_accepted(slack_hook)
                    &&& all_endpoints(hooks@)
                    &&& config@.slack_hook == default_of(slack_hook)
                    &&& config@.hooks == hooks_of(hooks@)
                },
                Err(ResolveError::InvalidUrl { key, error }) => {
                    ||| {
                        &&& slack_hook matches Some(url)
                        &&& key@ == "slack_hook"@
                        &&& error.refuses(url@)
                        &&& endpoint_of(url@) is None
                    }
                    ||| {
                        &&& default_accepted(slack_hook)
                        &&& exists|i: int|
                            {
                                &&& #[trigger] first_refused(hooks@, i)
                                &&& key@ == "hooks."@ + hooks[i].0@
                                &&& error.refuses(hooks[i].1@)
                            }
                    }
                },
                Err(_) => false,
            },
    {
        let mut config = Config::new();
        match slack_hook {
            Some(url) => match Endpoint::parse(url) {
                Ok(endpoint) => {
                    config = config.with_default(endpoint);
                },
                Err(error) => {
                    return Err(ResolveError::InvalidUrl { key: String::from_str("slack_hook"), error });
                },
            },
            None => {},
        }
        let mut i: usize = 0;
        while i < hooks.len()
            invariant
                i <= hooks.len(),
                default_accepted(slack_hook),
                all_endpoints(hooks@.take(i as int)),
                config@.slack_hook == default_of(slack_hook),
                config@.hooks == hooks_of(hooks@.take(i as int)),
            decreases hooks.len() - i,
        {
            let ghost done = hooks@.take(i as int);
            let ghost next = hooks@.take(i as int + 1);
            assert(next.drop_last() == done);
            assert(next.last() == hooks@[i as int]);
            match Endpoint::parse(hooks[i].1.as_str()) {
                Ok(endpoint) => {
                    config = config.with_hook(hooks[i].0.clone(), endpoint);
                    assert(all_endpoints(next)) by {
                        assert forall|j: int| 0 <= j < next.len() implies endpoint_of(
                            #[trigger] next[j].1@,
                        ) is Some by {
                            if j < i {
                                assert(done[j] == next[j]);
                            }
                        }
                    }
                },
                Err(error) => {
                    let mut key = String::from_str("hooks.");
                    key.append(hooks[i].0.as_str());
                    assert(first_refused(hooks@, i as int));
                    return Err(ResolveError::InvalidUrl { key, error });
                },
            }
            i = i + 1;
        }
        assert(hooks@.take(i as int) == hooks@);
        Ok(config)
    }

    /// The default webhook, if the configuration has one.
    pub fn default_hook(&self) -> (found: Option<&Endpoint>)
        ensures
            match found {
                Some(endpoint) => self@.slack_hook == Some(endpoint@),
                None => self@.slack_hook is None,
            },
    {
        self.slack_hook.as_ref()
    }

    /// The webhook that `name` stands for, if it stands for one.
    pub fn hook(&self, name: &str) -> (found: Option<&Endpoint>)
        ensures
            match found {
                Some(endpoint) => self@.hooks.contains_key(name@) && self@.hooks[name@] == endpoint@,
                None => !self@.hooks.contains_key(name@),
            },
    {
        proof {
            use_type_invariant(self);
        }
        let wanted = String::from_str(name);
        match self.find(&wanted) {
            Some(i) => {
                proof {
                    lemma_position(self.hooks@, name@, i as int);
                }
                Some(&self.hooks[i].endpoint)
            },
            None => None,
        }
    }
}

} // verus!
