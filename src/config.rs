//! Environment-aware configuration: which values of which environment
//! variables switch redaction on or off, and what to do when none decides.
use vstd::prelude::*;
use vstd::string::StringExecFns;

verus! {

/// What to do when no configured variable decides.
pub enum FallbackBehavior {
    /// Redact, or not.
    Redact(bool),
    /// Refuse to run; the configured word must be `panic`.
    Panic(String),
}

/// The values of one environment variable that switch redaction on or off.
pub struct EnvRedactConfig {
    /// Redaction is on when the variable holds one of these.
    pub redact: Vec<String>,
    /// Redaction is off when the variable holds one of these.
    pub skip_redact: Vec<String>,
}

/// Why a configuration is rejected.
pub enum VeilConfigError {
    /// A variable with neither redacting nor skipping values.
    EmptyConfiguration(String),
    /// A value listed twice for one variable.
    DuplicatePair(String, String),
    /// A variable configured twice.
    DuplicateKey(String),
    /// A fallback word other than `panic`.
    InvalidFallback,
}

/// A validated configuration.
pub struct VeilConfig {
    fallback: FallbackBehavior,
    env: Vec<(String, EnvRedactConfig)>,
}

/// The texts of a list of strings.
pub open spec fn views(v: Seq<String>) -> Seq<Seq<char>> {
    v.map_values(|s: String| s@)
}

/// All values configured for one variable, redacting ones first.
pub open spec fn values_of(c: EnvRedactConfig) -> Seq<Seq<char>> {
    views(c.redact@) + views(c.skip_redact@)
}

/// The configured variable names, in order.
pub open spec fn keys_of(env: Seq<(String, EnvRedactConfig)>) -> Seq<Seq<char>> {
    env.map_values(|e: (String, EnvRedactConfig)| e.0@)
}

/// Whether no text occurs twice.
pub open spec fn distinct(s: Seq<Seq<char>>) -> bool {
    forall|i: int, j: int| 0 <= i < j < s.len() ==> s[i] != s[j]
}

/// Whether `v` occurs at two positions of `s`.
pub open spec fn twice(s: Seq<Seq<char>>, v: Seq<char>) -> bool {
    exists|a: int, b: int| 0 <= a < b < s.len() && #[trigger] s[a] == v && #[trigger] s[b] == v
}

/// The one accepted fallback word.
pub open spec fn panic_word() -> Seq<char> {
    seq!['p', 'a', 'n', 'i', 'c']
}

/// Whether the fallback is well formed.
pub open spec fn fallback_ok(f: FallbackBehavior) -> bool {
    f matches FallbackBehavior::Panic(w) ==> w@ == panic_word()
}

/// Every variable is configured once, with at least one value and no value
/// twice, and the fallback is well formed.
pub open spec fn config_ok(fallback: FallbackBehavior, env: Seq<(String, EnvRedactConfig)>) -> bool {
    &&& distinct(keys_of(env))
    &&& forall|i: int| 0 <= i < env.len() ==> values_of(#[trigger] env[i].1).len() > 0
    &&& forall|i: int| 0 <= i < env.len() ==> distinct(values_of(#[trigger] env[i].1))
    &&& fallback_ok(fallback)
}

/// Whether `e` names a real defect of the configuration.
pub open spec fn describes(
    e: VeilConfigError,
    fallback: FallbackBehavior,
    env: Seq<(String, EnvRedactConfig)>,
) -> bool {
    match e {
        VeilConfigError::EmptyConfiguration(k) => exists|i: int|
            0 <= i < env.len() && (#[trigger] env[i]).0@ == k@ && values_of(env[i].1).len() == 0,
        VeilConfigError::DuplicatePair(k, v) => exists|i: int|
            0 <= i < env.len() && (#[trigger] env[i]).0@ == k@ && twice(values_of(env[i].1), v@),
        VeilConfigError::DuplicateKey(k) => exists|i: int, j: int|
            0 <= i < j < env.len() && (#[trigger] env[i]).0@ == k@ && (#[trigger] env[j]).0@ == k@,
        VeilConfigError::InvalidFallback => !fallback_ok(fallback),
    }
}

/// The value of the first variable named `key`, if any is set.
pub open spec fn lookup(vars: Seq<(String, String)>, key: Seq<char>) -> Option<Seq<char>>
    decreases vars.len(),
{
    if vars.len() == 0 {
        None
    } else if vars[0].0@ == key {
        Some(vars[0].1@)
    } else {
        lookup(vars.drop_first(), key)
    }
}

/// What one variable's value decides, if anything.
pub open spec fn key_decision(c: EnvRedactConfig, value: Seq<char>) -> Option<bool> {
    if views(c.redact@).contains(value) {
        Some(true)
    } else if views(c.skip_redact@).contains(value) {
        Some(false)
    } else {
        None
    }
}

/// The decision of the first variable, from position `i` on, that decides.
pub open spec fn decide_from(
    env: Seq<(String, EnvRedactConfig)>,
    vars: Seq<(String, String)>,
    i: int,
) -> Option<bool>
    decreases env.len() - i,
{
    if i < 0 || i >= env.len() {
        None
    } else {
        match lookup(vars, env[i].0@) {
            Some(v) => match key_decision(env[i].1, v) {
                Some(b) => Some(b),
                None => decide_from(env, vars, i + 1),
            },
            None => decide_from(env, vars, i + 1),
        }
    }
}

/// Whether to redact given the set variables: the first configured variable
/// that decides wins; else the fallback, where `None` means refusing to run.
pub open spec fn enabled_spec(
    fallback: FallbackBehavior,
    env: Seq<(String, EnvRedactConfig)>,
    vars: Seq<(String, String)>,
) -> Option<bool> {
    match decide_from(env, vars, 0) {
        Some(b) => Some(b),
        None => match fallback {
            FallbackBehavior::Redact(b) => Some(b),
            FallbackBehavior::Panic(_) => None,
        },
    }
}

/// Whether `list` holds `value`.
fn holds(list: &Vec<String>, value: &String) -> (r: bool)
    ensures
        r == views(list@).contains(value@),
{
    let mut i: usize = 0;
    while i < list.len()
        invariant
            i <= list.len(),
            forall|j: int| 0 <= j < i ==> list@[j]@ != value@,
        decreases list.len() - i,
    {
        if list[i] == *value {
            assert(views(list@)[i as int] == value@);
            return true;
        }
        i = i + 1;
    }
    proof {
        if views(list@).contains(value@) {
            let j = choose|j: int| 0 <= j < views(list@).len() && views(list@)[j] == value@;
            assert(list@[j]@ == value@);
        }
    }
    false
}

/// All values configured for a variable, redacting ones first.
fn all_values(c: &EnvRedactConfig) -> (r: Vec<String>)
    ensures
        views(r@) == values_of(*c),
{
    let ghost vals = values_of(*c);
    let ghost nr = c.redact@.len();
    let mut all: Vec<String> = Vec::new();
    let mut i: usize = 0;
    while i < c.redact.len()
        invariant
            i <= c.redact.len(),
            nr == c.redact@.len(),
            vals == values_of(*c),
            all@.len() == i,
            forall|k: int| 0 <= k < i ==> (#[trigger] all@[k])@ == vals[k],
        decreases c.redact.len() - i,
    {
        all.push(c.redact[i].clone());
        assert(vals[i as int] == c.redact@[i as int]@);
        i = i + 1;
    }
    let mut j: usize = 0;
    while j < c.skip_redact.len()
        invariant
            j <= c.skip_redact.len(),
            nr == c.redact@.len(),
            vals == values_of(*c),
            all@.len() == nr + j,
            forall|k: int| 0 <= k < nr + j ==> (#[trigger] all@[k])@ == vals[k],
        decreases c.skip_redact.len() - j,
    {
        all.push(c.skip_redact[j].clone());
        assert(vals[nr + j] == c.skip_redact@[j as int]@);
        j = j + 1;
    }
    assert(views(all@) =~= vals);
    all
}

/// Checks that no value is configured twice for one variable.
fn check_values(key: &String, c: &EnvRedactConfig) -> (r: Result<(), VeilConfigError>)
    ensures
        r is Ok <==> distinct(values_of(*c)),
        r matches Err(e) ==> (e matches VeilConfigError::DuplicatePair(k, v) && k@ == key@
            && twice(values_of(*c), v@)),
{
    let all = all_values(c);
    let ghost vals = views(all@);
    let mut j: usize = 0;
    while j < all.len()
        invariant
            j <= all.len(),
            vals == views(all@),
            vals == values_of(*c),
            forall|a: int, b: int| 0 <= a < b < j ==> vals[a] != vals[b],
        decreases all.len() - j,
    {
        let mut m: usize = 0;
        while m < j
            invariant
                m <= j < all.len(),
                vals == views(all@),
                vals == values_of(*c),
                forall|a: int| 0 <= a < m ==> vals[a] != vals[j as int],
            decreases j - m,
        {
            if all[m] == all[j] {
                let v = all[j].clone();
                assert(vals[m as int] == v@ && vals[j as int] == v@);
                return Err(VeilConfigError::DuplicatePair(key.clone(), v));
            }
            m = m + 1;
        }
        j = j + 1;
    }
    Ok(())
}

impl VeilConfig {
    /// The fallback.
    pub closed spec fn fallback(&self) -> FallbackBehavior {
        self.fallback
    }

    /// The configured variables, in order.
    pub closed spec fn env(&self) -> Seq<(String, EnvRedactConfig)> {
        self.env@
    }

    /// A configuration without variables that redacts.
    pub fn new() -> (r: VeilConfig)
        ensures
            r.fallback() == FallbackBehavior::Redact(true),
            r.env().len() == 0,
    {
        VeilConfig { fallback: FallbackBehavior::Redact(true), env: Vec::new() }
    }

    /// Validates a configuration: each variable once, each with at least one
    /// value and no value twice, and a fallback word that is `panic`.
    pub fn from_parts(fallback: FallbackBehavior, env: Vec<(String, EnvRedactConfig)>) -> (r: Result<
        VeilConfig,
        VeilConfigError,
    >)
        ensures
            r is Ok <==> config_ok(fallback, env@),
            r matches Ok(c) ==> c.fallback() == fallback && c.env() == env@,
            r matches Err(e) ==> describes(e, fallback, env@),
    {
        let mut i: usize = 0;
        while i < env.len()
            invariant
                i <= env.len(),
                forall|a: int, b: int| 0 <= a < b < i ==> env@[a].0@ != env@[b].0@,
                forall|a: int| 0 <= a < i ==> values_of(#[trigger] env@[a].1).len() > 0,
                forall|a: int| 0 <= a < i ==> distinct(values_of(#[trigger] env@[a].1)),
            decreases env.len() - i,
        {
            let key = &env[i].0;
            let c = &env[i].1;
            if c.redact.len() == 0 && c.skip_redact.len() == 0 {
                let k = key.clone();
                proof {
                    assert(env@[i as int].0@ == k@);
                }
                return Err(VeilConfigError::EmptyConfiguration(k));
            }
            match check_values(key, c) {
                Err(e) => {
                    proof {
                        assert(env@[i as int].0@ == key@);
                    }
                    return Err(e);
                },
                Ok(()) => {},
            }
            let mut m: usize = 0;
            while m < i
                invariant
                    m <= i < env.len(),
                    forall|a: int| 0 <= a < m ==> env@[a].0@ != env@[i as int].0@,
                decreases i - m,
            {
                if env[m].0 == env[i].0 {
                    let k = env[i].0.clone();
                    proof {
                        assert(keys_of(env@)[m as int] == env@[m as int].0@);
                        assert(keys_of(env@)[i as int] == env@[i as int].0@);
                    }
                    return Err(VeilConfigError::DuplicateKey(k));
                }
                m = m + 1;
            }
            i = i + 1;
        }
        let ok = match &fallback {
            FallbackBehavior::Redact(_) => true,
            FallbackBehavior::Panic(w) => {
                let word = String::from_str("panic");
                proof {
                    reveal_strlit("panic");
                    assert(word@ =~= panic_word());
                }
                *w == word
            },
        };
        if !ok {
            return Err(VeilConfigError::InvalidFallback);
        }
        proof {
            assert forall|a: int, b: int| 0 <= a < b < keys_of(env@).len() implies keys_of(
                env@,
            )[a] != keys_of(env@)[b] by {
                assert(keys_of(env@)[a] == env@[a].0@);
                assert(keys_of(env@)[b] == env@[b].0@);
            }
        }
        Ok(VeilConfig { fallback, env })
    }

    /// Whether to redact given the set environment variables, as name and
    /// value: the first configured variable whose value is listed decides;
    /// otherwise the fallback does, and `None` means refusing to run.
    pub fn redaction_enabled(&self, vars: &Vec<(String, String)>) -> (r: Option<bool>)
        ensures
            r == enabled_spec(self.fallback(), self.env(), vars@),
    {
        let mut i: usize = 0;
        while i < self.env.len()
            invariant
                i <= self.env.len(),
                decide_from(self.env@, vars@, 0) == decide_from(self.env@, vars@, i as int),
            decreases self.env.len() - i,
        {
            let key = &self.env[i].0;
            let c = &self.env[i].1;
            match lookup_var(vars, key) {
                Some(value) => {
                    if holds(&c.redact, value) {
                        return Some(true);
                    }
                    if holds(&c.skip_redact, value) {
                        return Some(false);
                    }
                },
                None => {},
            }
            i = i + 1;
        }
        match &self.fallback {
            FallbackBehavior::Redact(b) => Some(*b),
            FallbackBehavior::Panic(_) => None,
        }
    }
}

/// The value of the first variable named `key` in `vars`.
fn lookup_var<'a>(vars: &'a Vec<(String, String)>, key: &String) -> (r: Option<&'a String>)
    ensures
        match lookup(vars@, key@) {
            Some(v) => r matches Some(s) && s@ == v,
            None => r is None,
        },
{
    let mut i: usize = 0;
    assert(vars@.subrange(0, vars@.len() as int) == vars@);
    while i < vars.len()
        invariant
            i <= vars.len(),
            lookup(vars@, key@) == lookup(vars@.subrange(i as int, vars@.len() as int), key@),
        decreases vars.len() - i,
    {
        let ghost rest = vars@.subrange(i as int, vars@.len() as int);
        assert(rest.drop_first() =~= vars@.subrange(i + 1, vars@.len() as int));
        if vars[i].0 == *key {
            return Some(&vars[i].1);
        }
        i = i + 1;
    }
    None
}

} // verus!
