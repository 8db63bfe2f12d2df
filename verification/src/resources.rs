//! The resource manager's bookkeeping: the registered engine
//! configurations, the engines that are loaded, least recently used
//! first, and the decisions of loading one on demand. The engines
//! themselves are built by the caller, which follows these decisions.
use vstd::prelude::*;
use crate::domain::MagiError;
use crate::lines::last_index_before;
use crate::text::{chars_of, concat2, contains, lowercase, str_contains, str_eq, string_of_range, to_lowercase, views};

verus! {

/// The kinds of inference backend.
#[derive(Debug, Clone, Copy, PartialEq, Eq, Structural)]
pub enum EngineBackend {
    /// Pure Rust Candle engine.
    Candle,
    /// A llama.cpp server.
    LlamaCpp,
    /// An OpenAI-compatible API.
    OpenAiSpec,
    /// The native hybrid engines.
    MagiNative,
}

/// The name of a backend as `{:?}` writes it.
pub open spec fn backend_text(b: EngineBackend) -> Seq<char> {
    match b {
        EngineBackend::Candle => "Candle"@,
        EngineBackend::LlamaCpp => "LlamaCpp"@,
        EngineBackend::OpenAiSpec => "OpenAiSpec"@,
        EngineBackend::MagiNative => "MagiNative"@,
    }
}

/// The name of a backend as `{:?}` writes it.
pub fn backend_name(b: EngineBackend) -> (s: &'static str)
    ensures
        s@ == backend_text(b),
{
    proof {
        reveal_strlit("Candle");
        reveal_strlit("LlamaCpp");
        reveal_strlit("OpenAiSpec");
        reveal_strlit("MagiNative");
    }
    match b {
        EngineBackend::Candle => "Candle",
        EngineBackend::LlamaCpp => "LlamaCpp",
        EngineBackend::OpenAiSpec => "OpenAiSpec",
        EngineBackend::MagiNative => "MagiNative",
    }
}

/// How an engine is built when it is needed.
#[derive(Debug, Clone)]
pub struct EngineConfig {
    pub backend_type: EngineBackend,
    pub model_path: Option<String>,
    pub tokenizer_path: String,
    pub llamacpp_endpoint: Option<String>,
}

/// An engine configuration as specifications see it.
pub ghost struct ConfigView {
    pub backend_type: EngineBackend,
    pub model_path: Option<Seq<char>>,
    pub tokenizer_path: Seq<char>,
    pub llamacpp_endpoint: Option<Seq<char>>,
}

/// The views of an optional string.
pub open spec fn opt_text(o: Option<String>) -> Option<Seq<char>> {
    match o {
        Some(s) => Some(s@),
        None => None,
    }
}

impl View for EngineConfig {
    type V = ConfigView;

    open spec fn view(&self) -> ConfigView {
        ConfigView {
            backend_type: self.backend_type,
            model_path: opt_text(self.model_path),
            tokenizer_path: self.tokenizer_path@,
            llamacpp_endpoint: opt_text(self.llamacpp_endpoint),
        }
    }
}

fn copy_opt(o: &Option<String>) -> (r: Option<String>)
    ensures
        r == *o,
{
    match o {
        Some(s) => Some(s.clone()),
        None => None,
    }
}

/// A copy of `c`.
fn copy_config(c: &EngineConfig) -> (r: EngineConfig)
    ensures
        r == *c,
{
    EngineConfig {
        backend_type: c.backend_type,
        model_path: copy_opt(&c.model_path),
        tokenizer_path: c.tokenizer_path.clone(),
        llamacpp_endpoint: copy_opt(&c.llamacpp_endpoint),
    }
}

/// No two entries of `s` carry the same name.
pub open spec fn names_unique<V>(s: Seq<(Seq<char>, V)>) -> bool {
    forall|i: int, j: int| 0 <= i < j < s.len() ==> #[trigger] s[i].0 != #[trigger] s[j].0
}

/// Whether some entry of `s` is named `n`.
pub open spec fn has_name<V>(s: Seq<(Seq<char>, V)>, n: Seq<char>) -> bool {
    exists|i: int| 0 <= i < s.len() && #[trigger] s[i].0 == n
}

/// The position of the entry of `s` named `n`, when there is one.
pub open spec fn name_index<V>(s: Seq<(Seq<char>, V)>, n: Seq<char>) -> int {
    choose|i: int| 0 <= i < s.len() && #[trigger] s[i].0 == n
}

/// The entries of `s` as a map from names.
pub open spec fn assoc<V>(s: Seq<(Seq<char>, V)>) -> Map<Seq<char>, V> {
    Map::new(|n: Seq<char>| has_name(s, n), |n: Seq<char>| s[name_index(s, n)].1)
}

/// The engines of `s` with their names seen as character sequences.
pub open spec fn named(s: Seq<(String, EngineBackend)>) -> Seq<(Seq<char>, EngineBackend)> {
    s.map_values(|e: (String, EngineBackend)| (e.0@, e.1))
}

/// The configurations of `s` as specifications see them.
pub open spec fn config_views(s: Seq<(String, EngineConfig)>) -> Seq<(Seq<char>, ConfigView)> {
    s.map_values(|e: (String, EngineConfig)| (e.0@, e.1@))
}

proof fn lemma_name_index<V>(s: Seq<(Seq<char>, V)>, i: int)
    requires
        names_unique(s),
        0 <= i < s.len(),
    ensures
        has_name(s, s[i].0),
        name_index(s, s[i].0) == i,
{
    let n = s[i].0;
    assert(has_name(s, n));
    let j = name_index(s, n);
    if j != i {
        if j < i {
            assert(s[j].0 != s[i].0);
        } else {
            assert(s[i].0 != s[j].0);
        }
    }
}

proof fn lemma_assoc_at<V>(s: Seq<(Seq<char>, V)>, i: int)
    requires
        names_unique(s),
        0 <= i < s.len(),
    ensures
        assoc(s).contains_key(s[i].0),
        assoc(s)[s[i].0] == s[i].1,
{
    lemma_name_index(s, i);
}

proof fn lemma_assoc_set<V>(s: Seq<(Seq<char>, V)>, i: int, v: V)
    requires
        names_unique(s),
        0 <= i < s.len(),
    ensures
        names_unique(s.update(i, (s[i].0, v))),
        assoc(s.update(i, (s[i].0, v))) == assoc(s).insert(s[i].0, v),
{
    let t = s.update(i, (s[i].0, v));
    assert forall|a: int, b: int| 0 <= a < b < t.len() implies #[trigger] t[a].0 != #[trigger] t[b].0 by {
        assert(s[a].0 != s[b].0);
    }
    assert forall|n: Seq<char>| #[trigger] has_name(t, n) == has_name(s, n) by {
        if has_name(s, n) {
            let k = name_index(s, n);
            assert(t[k].0 == n);
        }
        if has_name(t, n) {
            let k = name_index(t, n);
            assert(s[k].0 == n);
        }
    }
    assert forall|n: Seq<char>| #[trigger] assoc(t).contains_key(n) implies assoc(t)[n] == assoc(
        s,
    ).insert(s[i].0, v)[n] by {
        let k = name_index(t, n);
        lemma_assoc_at(t, k);
        lemma_assoc_at(s, k);
    }
    assert(assoc(t) =~= assoc(s).insert(s[i].0, v));
}

proof fn lemma_assoc_push<V>(s: Seq<(Seq<char>, V)>, n: Seq<char>, v: V)
    requires
        names_unique(s),
        !has_name(s, n),
    ensures
        names_unique(s.push((n, v))),
        assoc(s.push((n, v))) == assoc(s).insert(n, v),
{
    let t = s.push((n, v));
    assert forall|a: int, b: int| 0 <= a < b < t.len() implies #[trigger] t[a].0 != #[trigger] t[b].0 by {
        if b < s.len() {
            assert(s[a].0 != s[b].0);
        } else {
            assert(s[a].0 == t[a].0);
        }
    }
    assert forall|m: Seq<char>| #[trigger] has_name(t, m) == (has_name(s, m) || m == n) by {
        if has_name(s, m) {
            let k = name_index(s, m);
            assert(t[k].0 == m);
        }
        if m == n {
            assert(t[s.len() as int].0 == m);
        }
        if has_name(t, m) && m != n {
            let k = name_index(t, m);
            assert(s[k].0 == m);
        }
    }
    assert forall|m: Seq<char>| #[trigger] assoc(t).contains_key(m) implies assoc(t)[m] == assoc(
        s,
    ).insert(n, v)[m] by {
        let k = name_index(t, m);
        lemma_assoc_at(t, k);
        if k < s.len() {
            lemma_assoc_at(s, k);
        }
    }
    assert(assoc(t) =~= assoc(s).insert(n, v));
}

/// `l` without its entry named `n`.
pub open spec fn without_name<V>(l: Seq<(Seq<char>, V)>, n: Seq<char>) -> Seq<(Seq<char>, V)> {
    if has_name(l, n) {
        l.remove(name_index(l, n))
    } else {
        l
    }
}

proof fn lemma_remove_unique<V>(s: Seq<(Seq<char>, V)>, i: int)
    requires
        names_unique(s),
        0 <= i < s.len(),
    ensures
        names_unique(s.remove(i)),
        forall|k: int| 0 <= k < s.remove(i).len() ==> #[trigger] s.remove(i)[k].0 != s[i].0,
{
    let t = s.remove(i);
    assert forall|a: int, c: int| 0 <= a < c < t.len() implies #[trigger] t[a].0 != #[trigger] t[c].0 by {
        let ia = if a < i { a } else { a + 1 };
        let ic = if c < i { c } else { c + 1 };
        assert(t[a] == s[ia]);
        assert(t[c] == s[ic]);
        assert(s[ia].0 != s[ic].0);
    }
    assert forall|k: int| 0 <= k < t.len() implies #[trigger] t[k].0 != s[i].0 by {
        if k < i {
            assert(s[k].0 != s[i].0);
        } else {
            assert(t[k] == s[k + 1]);
            assert(s[i].0 != s[k + 1].0);
        }
    }
}

/// `l` with the entry at `i` moved to the end.
pub open spec fn move_to_end<A>(l: Seq<A>, i: int) -> Seq<A> {
    l.remove(i).push(l[i])
}

/// The loaded engines after room is made for one more: when the cache is
/// full (`max` or more engines) and not empty, the least recently used one
/// leaves.
pub open spec fn after_eviction<A>(l: Seq<A>, max: nat) -> Seq<A> {
    if l.len() >= max && l.len() > 0 {
        l.drop_first()
    } else {
        l
    }
}

/// The name of the engine that leaves to make room, if any.
pub open spec fn evicted_name(l: Seq<(Seq<char>, EngineBackend)>, max: nat) -> Option<Seq<char>> {
    if l.len() >= max && l.len() > 0 {
        Some(l[0].0)
    } else {
        None
    }
}

/// The most engines the cache ever holds: `max_active_models`, but at
/// least one.
pub open spec fn capacity(max: nat) -> nat {
    if max == 0 {
        1
    } else {
        max
    }
}

/// What to do to get the engine a unit asked for.
#[derive(Debug)]
pub enum LoadStep {
    /// It is loaded: use it (it is now the most recently used).
    Cached(EngineBackend),
    /// Build a Candle engine from these files.
    LoadCandle { model_path: String, tokenizer_path: String },
    /// Talk to the llama.cpp server at this endpoint.
    LoadLlamaCpp { endpoint: String },
}

/// What to try after a Candle engine could not be built.
#[derive(Debug)]
pub enum CandleFallback {
    /// Use the llama.cpp server at this endpoint (the unit is switched to
    /// it for good).
    UseLlamaCpp(String),
    /// Try the safe models on disk, without caching the result.
    TrySafeModels,
}

/// What loading the engine of unit `name` with configuration `cfg` starts
/// with: build it from the configured model or endpoint, or the error for
/// a configuration that lacks one or names a backend that cannot be
/// swapped in.
pub open spec fn plan_for(r: Result<LoadStep, MagiError>, name: Seq<char>, cfg: ConfigView) -> bool {
    match cfg.backend_type {
        EngineBackend::Candle => match cfg.model_path {
            Some(p) => r matches Ok(LoadStep::LoadCandle { model_path, tokenizer_path })
                && model_path@ == p && tokenizer_path@ == cfg.tokenizer_path,
            None => r matches Err(MagiError::InternalError(m)) && m@
                == "Missing model path for Candle engine: "@ + name,
        },
        EngineBackend::LlamaCpp => match cfg.llamacpp_endpoint {
            Some(e) => r matches Ok(LoadStep::LoadLlamaCpp { endpoint }) && endpoint@ == e,
            None => r matches Err(MagiError::InternalError(m)) && m@
                == "Missing llama.cpp endpoint for LlamaCpp engine: "@ + name,
        },
        b => r matches Err(MagiError::InternalError(m)) && m@
            == "Unsupported engine backend for dynamic swap: "@ + backend_text(b),
    }
}

/// The configurations of the units and the engines that are loaded, in
/// the order of their last use.
pub struct ResourceManager {
    configs: Vec<(String, EngineConfig)>,
    engines: Vec<(String, EngineBackend)>,
    max_active_models: usize,
}

impl ResourceManager {
    /// Names are unique in both lists and the cache holds at most
    /// `capacity(max_active_models)` engines.
    pub closed spec fn wf(&self) -> bool {
        &&& names_unique(config_views(self.configs@))
        &&& names_unique(named(self.engines@))
        &&& self.engines@.len() <= capacity(self.max_active_models as nat)
    }

    /// The registered configurations, by unit name.
    pub closed spec fn config_map(&self) -> Map<Seq<char>, ConfigView> {
        assoc(config_views(self.configs@))
    }

    /// The loaded engines, least recently used first.
    pub closed spec fn engine_list(&self) -> Seq<(Seq<char>, EngineBackend)> {
        named(self.engines@)
    }

    /// The configured number of engines that may be loaded at once.
    pub closed spec fn max(&self) -> nat {
        self.max_active_models as nat
    }

    /// The cache never holds more than `capacity(max)` engines.
    pub proof fn lemma_bounded(&self)
        requires
            self.wf(),
        ensures
            self.engine_list().len() <= capacity(self.max()),
            names_unique(self.engine_list()),
    {
    }

    /// No configuration and no engine yet.
    pub fn new(max_active_models: usize) -> (m: Self)
        ensures
            m.wf(),
            m.config_map() == Map::<Seq<char>, ConfigView>::empty(),
            m.engine_list() == Seq::<(Seq<char>, EngineBackend)>::empty(),
            m.max() == max_active_models,
    {
        let m = ResourceManager { configs: Vec::new(), engines: Vec::new(), max_active_models };
        assert(assoc(config_views(m.configs@)) =~= Map::<Seq<char>, ConfigView>::empty());
        assert(named(m.engines@) =~= Seq::<(Seq<char>, EngineBackend)>::empty());
        m
    }

    /// The position of unit `name` among the configurations.
    fn config_index(&self, name: &str) -> (r: Option<usize>)
        ensures
            match r {
                Some(i) => i < self.configs@.len() && config_views(self.configs@)[i as int].0 == name@,
                None => !has_name(config_views(self.configs@), name@),
            },
    {
        let mut i: usize = 0;
        while i < self.configs.len()
            invariant
                i <= self.configs@.len(),
                forall|k: int| 0 <= k < i ==> #[trigger] config_views(self.configs@)[k].0 != name@,
            decreases self.configs.len() - i,
        {
            if str_eq(self.configs[i].0.as_str(), name) {
                return Some(i);
            }
            i += 1;
        }
        None
    }

    /// The position of unit `name` among the loaded engines.
    fn engine_index(&self, name: &str) -> (r: Option<usize>)
        ensures
            match r {
                Some(i) => i < self.engines@.len() && named(self.engines@)[i as int].0 == name@,
                None => !has_name(named(self.engines@), name@),
            },
    {
        let mut i: usize = 0;
        while i < self.engines.len()
            invariant
                i <= self.engines@.len(),
                forall|k: int| 0 <= k < i ==> #[trigger] named(self.engines@)[k].0 != name@,
            decreases self.engines.len() - i,
        {
            if str_eq(self.engines[i].0.as_str(), name) {
                return Some(i);
            }
            i += 1;
        }
        None
    }

    /// Registers (or replaces) the configuration of unit `name`; the
    /// engine is only built when it is first needed.
    pub fn register_config(&mut self, name: String, config: EngineConfig)
        requires
            old(self).wf(),
        ensures
            final(self).wf(),
            final(self).config_map() == old(self).config_map().insert(name@, config@),
            final(self).engine_list() == old(self).engine_list(),
            final(self).max() == old(self).max(),
    {
        match self.config_index(name.as_str()) {
            Some(i) => {
                proof {
                    lemma_assoc_set(config_views(self.configs@), i as int, config@);
                }
                let key = self.configs[i].0.clone();
                self.configs.set(i, (key, config));
                assert(config_views(self.configs@) =~= config_views(old(self).configs@).update(
                    i as int,
                    (name@, config@),
                ));
            },
            None => {
                proof {
                    lemma_assoc_push(config_views(self.configs@), name@, config@);
                }
                self.configs.push((name, config));
                assert(config_views(self.configs@) =~= config_views(old(self).configs@).push(
                    (name@, config@),
                ));
            },
        }
    }

    /// The configuration of unit `name`, if one is registered.
    pub fn config_of(&self, name: &str) -> (r: Option<EngineConfig>)
        requires
            self.wf(),
        ensures
            match r {
                Some(c) => self.config_map().contains_key(name@) && c@ == self.config_map()[name@],
                None => !self.config_map().contains_key(name@),
            },
    {
        match self.config_index(name) {
            Some(i) => {
                proof {
                    lemma_assoc_at(config_views(self.configs@), i as int);
                }
                Some(copy_config(&self.configs[i].1))
            },
            None => None,
        }
    }

    /// The registered configurations, with their unit names.
    pub fn configs(&self) -> (c: &Vec<(String, EngineConfig)>)
        ensures
            assoc(config_views(c@)) == self.config_map(),
    {
        &self.configs
    }

    /// The loaded engines, least recently used first.
    pub fn engines(&self) -> (e: &Vec<(String, EngineBackend)>)
        ensures
            named(e@) == self.engine_list(),
    {
        &self.engines
    }

    /// Whether the engine of unit `name` is loaded.
    pub fn is_loaded(&self, name: &str) -> (b: bool)
        ensures
            b == has_name(self.engine_list(), name@),
    {
        self.engine_index(name).is_some()
    }

    /// How many engines are loaded.
    pub fn engine_count(&self) -> (n: usize)
        ensures
            n == self.engine_list().len(),
    {
        self.engines.len()
    }

    /// The names of the loaded engines, least recently used first.
    pub fn loaded_names(&self) -> (v: Vec<String>)
        ensures
            v@.len() == self.engine_list().len(),
            forall|i: int| 0 <= i < v@.len() ==> #[trigger] v@[i]@ == self.engine_list()[i].0,
    {
        let mut v: Vec<String> = Vec::new();
        let mut i: usize = 0;
        while i < self.engines.len()
            invariant
                i <= self.engines@.len(),
                v@.len() == i,
                forall|k: int| 0 <= k < i ==> #[trigger] v@[k]@ == named(self.engines@)[k].0,
            decreases self.engines.len() - i,
        {
            v.push(self.engines[i].0.clone());
            i += 1;
        }
        v
    }

    /// Whether one more engine fits without an eviction.
    pub fn has_room(&self) -> (b: bool)
        ensures
            b == (self.engine_list().len() < capacity(self.max())),
    {
        if self.max_active_models == 0 {
            self.engines.len() < 1
        } else {
            self.engines.len() < self.max_active_models
        }
    }

    /// Makes room for one more engine: when the cache is full, the least
    /// recently used engine leaves and its name is returned.
    fn make_room(&mut self) -> (evicted: Option<String>)
        requires
            old(self).wf(),
        ensures
            final(self).wf(),
            final(self).configs@ == old(self).configs@,
            final(self).max_active_models == old(self).max_active_models,
            final(self).engine_list() == after_eviction(old(self).engine_list(), old(self).max()),
            opt_text(evicted) == evicted_name(old(self).engine_list(), old(self).max()),
            final(self).engine_list().len() < capacity(old(self).max()),
    {
        if self.engines.len() >= self.max_active_models && self.engines.len() > 0 {
            let (n, _b) = self.engines.remove(0);
            proof {
                lemma_remove_unique(named(old(self).engines@), 0);
            }
            assert(named(self.engines@) =~= named(old(self).engines@).drop_first());
            assert(named(old(self).engines@).drop_first() =~= named(old(self).engines@).remove(0));
            Some(n)
        } else {
            None
        }
    }

    /// The first step of getting the engine of unit `name`. A loaded
    /// engine is used as it is and becomes the most recently used. An
    /// unregistered unit is an error. Otherwise the configuration says how
    /// to build the engine, or why it cannot be built; only when it can be
    /// built is room made for it (the least recently used engine leaves a
    /// full cache; its name is the first part of the result).
    pub fn acquire(&mut self, name: &str) -> (r: (Option<String>, Result<LoadStep, MagiError>))
        requires
            old(self).wf(),
        ensures
            final(self).wf(),
            final(self).max() == old(self).max(),
            final(self).config_map() == old(self).config_map(),
            has_name(old(self).engine_list(), name@) ==> {
                let i = name_index(old(self).engine_list(), name@);
                &&& final(self).engine_list() == move_to_end(old(self).engine_list(), i)
                &&& r.0 is None
                &&& r.1 == Ok::<LoadStep, MagiError>(LoadStep::Cached(old(self).engine_list()[i].1))
            },
            !has_name(old(self).engine_list(), name@) ==> if old(self).config_map().contains_key(
                name@,
            ) {
                &&& plan_for(r.1, name@, old(self).config_map()[name@])
                &&& r.1 is Ok ==> {
                    &&& final(self).engine_list() == after_eviction(old(self).engine_list(), old(self).max())
                    &&& opt_text(r.0) == evicted_name(old(self).engine_list(), old(self).max())
                    &&& final(self).engine_list().len() < capacity(old(self).max())
                }
                &&& r.1 is Err ==> {
                    &&& final(self).engine_list() == old(self).engine_list()
                    &&& r.0 is None
                }
            } else {
                &&& final(self).engine_list() == old(self).engine_list()
                &&& r.0 is None
                &&& r.1 matches Err(MagiError::InternalError(m)) && m@
                    == "Engine config not registered for '"@ + name@ + "'"@
            },
    {
        if let Some(i) = self.engine_index(name) {
            let e = self.engines.remove(i);
            let b = e.1;
            self.engines.push(e);
            proof {
                let l = named(old(self).engines@);
                lemma_name_index(l, i as int);
                lemma_remove_unique(l, i as int);
                assert(named(self.engines@) =~= move_to_end(l, i as int));
                let t = l.remove(i as int);
                assert forall|a: int, c: int| 0 <= a < c < t.len() + 1 implies #[trigger] t.push(
                    l[i as int],
                )[a].0 != #[trigger] t.push(l[i as int])[c].0 by {
                    if c < t.len() {
                        assert(t[a].0 != t[c].0);
                    }
                }
            }
            return (None, Ok(LoadStep::Cached(b)));
        }
        let ci = self.config_index(name);
        let i = match ci {
            Some(i) => i,
            None => {
                let mut msg = concat2("Engine config not registered for '", name);
                crate::text::push_str(&mut msg, "'");
                return (None, Err(MagiError::InternalError(msg)));
            },
        };
        proof {
            lemma_assoc_at(config_views(self.configs@), i as int);
        }
        let cfg = copy_config(&self.configs[i].1);
        let plan = match cfg.backend_type {
            EngineBackend::Candle => match cfg.model_path {
                Some(p) => Ok(LoadStep::LoadCandle { model_path: p, tokenizer_path: cfg.tokenizer_path }),
                None => Err(
                    MagiError::InternalError(concat2("Missing model path for Candle engine: ", name)),
                ),
            },
            EngineBackend::LlamaCpp => match cfg.llamacpp_endpoint {
                Some(e) => Ok(LoadStep::LoadLlamaCpp { endpoint: e }),
                None => Err(
                    MagiError::InternalError(
                        concat2("Missing llama.cpp endpoint for LlamaCpp engine: ", name),
                    ),
                ),
            },
            b => Err(
                MagiError::InternalError(
                    concat2("Unsupported engine backend for dynamic swap: ", backend_name(b)),
                ),
            ),
        };
        match plan {
            Ok(step) => {
                let evicted = self.make_room();
                (evicted, Ok(step))
            },
            Err(e) => (None, Err(e)),
        }
    }

    /// What to try after the Candle engine of unit `name` could not be
    /// built: its llama.cpp endpoint when it has one, and the unit then
    /// stays on llama.cpp; the safe models otherwise.
    pub fn candle_failed(&mut self, name: &str) -> (r: CandleFallback)
        requires
            old(self).wf(),
            old(self).config_map().contains_key(name@),
        ensures
            final(self).wf(),
            final(self).max() == old(self).max(),
            final(self).engine_list() == old(self).engine_list(),
            match old(self).config_map()[name@].llamacpp_endpoint {
                Some(e) => {
                    &&& r matches CandleFallback::UseLlamaCpp(x) && x@ == e
                    &&& final(self).config_map() == old(self).config_map().insert(
                        name@,
                        ConfigView {
                            backend_type: EngineBackend::LlamaCpp,
                            ..old(self).config_map()[name@]
                        },
                    )
                },
                None => {
                    &&& r is TrySafeModels
                    &&& final(self).config_map() == old(self).config_map()
                },
            },
    {
        let i = match self.config_index(name) {
            Some(i) => i,
            None => {
                return CandleFallback::TrySafeModels;
            },
        };
        proof {
            lemma_assoc_at(config_views(self.configs@), i as int);
        }
        let cfg = copy_config(&self.configs[i].1);
        match cfg.llamacpp_endpoint {
            Some(e) => {
                let switched = EngineConfig {
                    backend_type: EngineBackend::LlamaCpp,
                    model_path: cfg.model_path,
                    tokenizer_path: cfg.tokenizer_path,
                    llamacpp_endpoint: Some(e.clone()),
                };
                proof {
                    lemma_assoc_set(config_views(self.configs@), i as int, switched@);
                }
                let key = self.configs[i].0.clone();
                self.configs.set(i, (key, switched));
                assert(config_views(self.configs@) =~= config_views(old(self).configs@).update(
                    i as int,
                    (name@, switched@),
                ));
                CandleFallback::UseLlamaCpp(e)
            },
            None => CandleFallback::TrySafeModels,
        }
    }

    /// Records that the engine of unit `name` was built; it becomes the
    /// most recently used.
    pub fn finish_load(&mut self, name: String, backend: EngineBackend)
        requires
            old(self).wf(),
            !has_name(old(self).engine_list(), name@),
            old(self).engine_list().len() < capacity(old(self).max()),
        ensures
            final(self).wf(),
            final(self).max() == old(self).max(),
            final(self).config_map() == old(self).config_map(),
            final(self).engine_list() == old(self).engine_list().push((name@, backend)),
    {
        proof {
            lemma_assoc_push(named(self.engines@), name@, backend);
        }
        self.engines.push((name, backend));
        assert(named(self.engines@) =~= named(old(self).engines@).push((name@, backend)));
    }

    /// Registers an engine that was built elsewhere: room is made as for a
    /// load, then the engine is stored under `name`, replacing one of the
    /// same name, as the most recently used. Returns the name of the
    /// engine that left, if any.
    pub fn register_engine(&mut self, name: String, backend: EngineBackend) -> (evicted: Option<String>)
        requires
            old(self).wf(),
        ensures
            final(self).wf(),
            final(self).max() == old(self).max(),
            final(self).config_map() == old(self).config_map(),
            opt_text(evicted) == evicted_name(old(self).engine_list(), old(self).max()),
            final(self).engine_list() == without_name(
                after_eviction(old(self).engine_list(), old(self).max()),
                name@,
            ).push((name@, backend)),
    {
        let evicted = self.make_room();
        let ghost mid = named(self.engines@);
        self.drop_engine(name.as_str());
        proof {
            lemma_assoc_push(named(self.engines@), name@, backend);
        }
        self.engines.push((name, backend));
        assert(named(self.engines@) =~= without_name(mid, name@).push((name@, backend)));
        evicted
    }

    /// Drops the engine of unit `name` when it is loaded.
    fn drop_engine(&mut self, name: &str)
        requires
            names_unique(named(old(self).engines@)),
        ensures
            final(self).configs@ == old(self).configs@,
            final(self).max_active_models == old(self).max_active_models,
            named(final(self).engines@) == without_name(named(old(self).engines@), name@),
            names_unique(named(final(self).engines@)),
            !has_name(named(final(self).engines@), name@),
            final(self).engines@.len() <= old(self).engines@.len(),
    {
        match self.engine_index(name) {
            Some(i) => {
                self.engines.remove(i);
                proof {
                    let l = named(old(self).engines@);
                    lemma_name_index(l, i as int);
                    lemma_remove_unique(l, i as int);
                    assert(named(self.engines@) =~= l.remove(i as int));
                    if has_name(named(self.engines@), name@) {
                        let k = name_index(named(self.engines@), name@);
                        assert(l.remove(i as int)[k].0 != l[i as int].0);
                    }
                }
            },
            None => {},
        }
    }

    /// Drops every loaded engine.
    pub fn clear_resources(&mut self)
        requires
            old(self).wf(),
        ensures
            final(self).wf(),
            final(self).max() == old(self).max(),
            final(self).config_map() == old(self).config_map(),
            final(self).engine_list() == Seq::<(Seq<char>, EngineBackend)>::empty(),
    {
        self.engines = Vec::new();
        assert(named(self.engines@) =~= Seq::<(Seq<char>, EngineBackend)>::empty());
    }

    /// Points unit `unit_name` at a new Candle model: its configuration,
    /// when registered, now names `model_path` with the Candle backend,
    /// and its engine, when loaded, is dropped so that the next use loads
    /// the new model.
    pub fn hot_swap(&mut self, unit_name: &str, model_path: &str)
        requires
            old(self).wf(),
        ensures
            final(self).wf(),
            final(self).max() == old(self).max(),
            final(self).config_map() == if old(self).config_map().contains_key(unit_name@) {
                old(self).config_map().insert(
                    unit_name@,
                    ConfigView {
                        backend_type: EngineBackend::Candle,
                        model_path: Some(model_path@),
                        ..old(self).config_map()[unit_name@]
                    },
                )
            } else {
                old(self).config_map()
            },
            final(self).engine_list() == without_name(old(self).engine_list(), unit_name@),
    {
        match self.config_index(unit_name) {
            Some(i) => {
                proof {
                    lemma_assoc_at(config_views(self.configs@), i as int);
                }
                let cfg = copy_config(&self.configs[i].1);
                let swapped = EngineConfig {
                    backend_type: EngineBackend::Candle,
                    model_path: Some(model_path.to_owned()),
                    tokenizer_path: cfg.tokenizer_path,
                    llamacpp_endpoint: cfg.llamacpp_endpoint,
                };
                proof {
                    lemma_assoc_set(config_views(self.configs@), i as int, swapped@);
                }
                let key = self.configs[i].0.clone();
                self.configs.set(i, (key, swapped));
                assert(config_views(self.configs@) =~= config_views(old(self).configs@).update(
                    i as int,
                    (unit_name@, swapped@),
                ));
            },
            None => {},
        }
        self.drop_engine(unit_name);
    }
}

/// The message of a successful hot swap.
pub fn hot_swap_message(unit_name: &str) -> (s: String)
    ensures
        s@ == "Model for "@ + unit_name@ + " swapped successfully"@,
{
    crate::text::concat3("Model for ", unit_name, " swapped successfully")
}

/// The error when a Candle model failed to load and neither a llama.cpp
/// endpoint nor a safe model could stand in.
pub fn load_failure(name: &str, error: &str) -> (e: MagiError)
    ensures
        e matches MagiError::ModelLoadError(m) && m@ == "Candle model load failed for "@ + name@
            + " and no fallback or llama.cpp endpoint is available: "@ + error@,
{
    let mut m = concat2("Candle model load failed for ", name);
    crate::text::push_str(&mut m, " and no fallback or llama.cpp endpoint is available: ");
    crate::text::push_str(&mut m, error);
    MagiError::ModelLoadError(m)
}

// ---------------------------------------------------------------------
// Model files
// ---------------------------------------------------------------------

/// The extension of a file name (`Path::extension`): what follows its
/// last `.`, unless it has none or its only `.` is its first character.
pub open spec fn extension(name: Seq<char>) -> Option<Seq<char>> {
    let j = last_index_before(name, '.', name.len() as int);
    if j > 0 {
        Some(name.subrange(j + 1, name.len() as int))
    } else {
        None
    }
}

/// A model file for `keyword`: a `gguf` file whose lowercase name holds
/// the lowercase keyword.
pub open spec fn is_model_for(file_name: Seq<char>, keyword: Seq<char>) -> bool {
    extension(file_name) == Some("gguf"@) && contains(lowercase(file_name), lowercase(keyword))
}

proof fn lemma_last_index_before_range(s: Seq<char>, c: char, i: int)
    requires
        0 <= i <= s.len(),
    ensures
        -1 <= last_index_before(s, c, i) < i,
        last_index_before(s, c, i) >= 0 ==> s[last_index_before(s, c, i)] == c,
    decreases i,
{
    if i > 0 && s[i - 1] != c {
        lemma_last_index_before_range(s, c, i - 1);
    }
}

/// The extension of `file_name`, if it has one.
pub fn extension_of(file_name: &str) -> (r: Option<String>)
    ensures
        opt_text(r) == extension(file_name@),
{
    let v = chars_of(file_name);
    let mut i = v.len();
    while i > 0 && v[i - 1] != '.'
        invariant
            i <= v.len(),
            v@ == file_name@,
            last_index_before(v@, '.', v@.len() as int) == last_index_before(v@, '.', i as int),
        decreases i,
    {
        i -= 1;
    }
    proof {
        lemma_last_index_before_range(v@, '.', i as int);
    }
    if i > 1 {
        Some(string_of_range(&v, i, v.len()))
    } else {
        None
    }
}

/// Whether `file_name` is a model file for `keyword`.
pub fn is_model_file(file_name: &str, keyword: &str) -> (b: bool)
    ensures
        b == is_model_for(file_name@, keyword@),
{
    proof {
        reveal_strlit("gguf");
    }
    let gguf = match extension_of(file_name) {
        Some(e) => str_eq(e.as_str(), "gguf"),
        None => false,
    };
    if !gguf {
        return false;
    }
    let name = to_lowercase(file_name);
    let kw = to_lowercase(keyword);
    str_contains(name.as_str(), kw.as_str())
}

/// The first of `file_names` that is a model file for `keyword`.
pub fn pick_model_file(file_names: &Vec<String>, keyword: &str) -> (r: Option<usize>)
    ensures
        match r {
            Some(i) => i < file_names@.len() && is_model_for(file_names@[i as int]@, keyword@)
                && forall|k: int| 0 <= k < i ==> !is_model_for(#[trigger] file_names@[k]@, keyword@),
            None => forall|k: int|
                0 <= k < file_names@.len() ==> !is_model_for(#[trigger] file_names@[k]@, keyword@),
        },
{
    let mut i: usize = 0;
    while i < file_names.len()
        invariant
            i <= file_names@.len(),
            forall|k: int| 0 <= k < i ==> !is_model_for(#[trigger] file_names@[k]@, keyword@),
        decreases file_names.len() - i,
    {
        if is_model_file(file_names[i].as_str(), keyword) {
            return Some(i);
        }
        i += 1;
    }
    None
}

/// The keywords of the models tried, in order, when a Candle model fails
/// and no llama.cpp endpoint is configured.
pub fn safe_model_keywords() -> (v: Vec<String>)
    ensures
        views(v@) == seq!["SmolLM2"@, "tiny"@, "mini"@, "phi"@],
{
    let mut v: Vec<String> = Vec::new();
    v.push("SmolLM2".to_owned());
    v.push("tiny".to_owned());
    v.push("mini".to_owned());
    v.push("phi".to_owned());
    assert(views(v@) =~= seq!["SmolLM2"@, "tiny"@, "mini"@, "phi"@]);
    v
}

/// Where the safe models are looked for, in order.
pub fn fallback_dirs() -> (v: Vec<String>)
    ensures
        views(v@) == seq!["models"@, "../models"@, "../../models"@],
{
    let mut v: Vec<String> = Vec::new();
    v.push("models".to_owned());
    v.push("../models".to_owned());
    v.push("../../models".to_owned());
    assert(views(v@) =~= seq!["models"@, "../models"@, "../../models"@]);
    v
}

/// Whether a safe model found on disk is worth trying: it is not the model
/// that just failed.
pub fn is_other_model(safe_path: &str, failed_path: &str) -> (b: bool)
    ensures
        b == (safe_path@ != failed_path@),
{
    !str_eq(safe_path, failed_path)
}

// ---------------------------------------------------------------------
// Laws
// ---------------------------------------------------------------------

/// A cache hit loses no engine: the one used moves to the end, as the
/// most recently used, and every other engine keeps its place in the
/// order of use.
pub proof fn hit_moves_to_end<A>(l: Seq<A>, i: int)
    requires
        0 <= i < l.len(),
    ensures
        move_to_end(l, i).len() == l.len(),
        move_to_end(l, i).last() == l[i],
        move_to_end(l, i).drop_last() == l.remove(i),
        move_to_end(l, i).to_multiset() == l.to_multiset(),
{
    let m = move_to_end(l, i);
    assert(m.drop_last() =~= l.remove(i));
    broadcast use vstd::seq_lib::group_to_multiset_ensures;
    assert(l =~= l.subrange(0, i) + l.subrange(i, l.len() as int));
    assert(l.remove(i) =~= l.subrange(0, i) + l.subrange(i + 1, l.len() as int));
    assert(l.subrange(i, l.len() as int) =~= seq![l[i]] + l.subrange(i + 1, l.len() as int));
    vstd::seq_lib::lemma_multiset_commutative(l.subrange(0, i), l.subrange(i, l.len() as int));
    vstd::seq_lib::lemma_multiset_commutative(seq![l[i]], l.subrange(i + 1, l.len() as int));
    vstd::seq_lib::lemma_multiset_commutative(l.subrange(0, i), l.subrange(i + 1, l.len() as int));
    vstd::seq_lib::lemma_multiset_commutative(l.remove(i), seq![l[i]]);
}

/// Only a full cache loses an engine, and then the least recently used
/// one; the others keep their order.
pub proof fn eviction_takes_least_recent(l: Seq<(Seq<char>, EngineBackend)>, max: nat)
    ensures
        l.len() >= max && l.len() > 0 ==> {
            &&& evicted_name(l, max) == Some(l[0].0)
            &&& after_eviction(l, max) == l.subrange(1, l.len() as int)
        },
        !(l.len() >= max && l.len() > 0) ==> {
            &&& evicted_name(l, max) is None
            &&& after_eviction(l, max) == l
        },
{
}

/// A loaded engine is kept: right after the engine of unit `name` is
/// recorded as built (`finish_load`), acquiring `name` finds it, hands back
/// that engine, evicts nothing and leaves the cache's order as it is.
pub proof fn load_then_acquire_hits(l: Seq<(Seq<char>, EngineBackend)>, name: Seq<char>, backend: EngineBackend)
    requires
        names_unique(l),
        !has_name(l, name),
    ensures
        has_name(l.push((name, backend)), name),
        name_index(l.push((name, backend)), name) == l.len(),
        l.push((name, backend))[name_index(l.push((name, backend)), name)].1 == backend,
        move_to_end(l.push((name, backend)), l.len() as int) == l.push((name, backend)),
{
    let m = l.push((name, backend));
    assert(names_unique(m)) by {
        assert forall|i: int, j: int| 0 <= i < j < m.len() implies #[trigger] m[i].0 != #[trigger] m[j].0 by {
            if j < l.len() {
                assert(m[i] == l[i] && m[j] == l[j]);
            } else {
                assert(m[i] == l[i]);
            }
        }
    }
    lemma_name_index(m, l.len() as int);
    assert(move_to_end(m, l.len() as int) =~= m);
}

/// A hot swap takes effect on the next use: the unit's engine is not
/// loaded, so acquiring it builds a Candle engine from the new model with
/// the unit's tokenizer.
pub proof fn hot_swap_then_acquire(
    configs: Map<Seq<char>, ConfigView>,
    unit: Seq<char>,
    model_path: Seq<char>,
    r: Result<LoadStep, MagiError>,
)
    requires
        configs.contains_key(unit),
        plan_for(
            r,
            unit,
            ConfigView { backend_type: EngineBackend::Candle, model_path: Some(model_path), ..configs[unit] },
        ),
    ensures
        r matches Ok(LoadStep::LoadCandle { model_path: p, tokenizer_path: t }) && p@ == model_path
            && t@ == configs[unit].tokenizer_path,
{
}

/// Once a unit has fallen back to its llama.cpp endpoint, later loads go
/// straight to that endpoint.
pub proof fn fallback_sticks(
    cfg: ConfigView,
    unit: Seq<char>,
    endpoint: Seq<char>,
    r: Result<LoadStep, MagiError>,
)
    requires
        cfg.llamacpp_endpoint == Some(endpoint),
        plan_for(r, unit, ConfigView { backend_type: EngineBackend::LlamaCpp, ..cfg }),
    ensures
        r matches Ok(LoadStep::LoadLlamaCpp { endpoint: e }) && e@ == endpoint,
{
}

/// A registered configuration is what the next load follows: after
/// `register_config(name, cfg)`, the map holds `cfg` under `name`, so
/// acquiring `name` (when it is not loaded) plans from `cfg`.
pub proof fn register_then_acquire(
    configs: Map<Seq<char>, ConfigView>,
    name: Seq<char>,
    cfg: ConfigView,
    r: Result<LoadStep, MagiError>,
)
    requires
        plan_for(r, name, configs.insert(name, cfg)[name]),
    ensures
        configs.insert(name, cfg).contains_key(name),
        plan_for(r, name, cfg),
{
}

/// After a cache miss has made room and the engine is recorded, the
/// engine is the most recently used and the cache is within its capacity.
pub proof fn load_keeps_capacity(l: Seq<(Seq<char>, EngineBackend)>, max: nat, n: Seq<char>, b: EngineBackend)
    requires
        l.len() <= capacity(max),
    ensures
        after_eviction(l, max).push((n, b)).len() <= capacity(max),
        after_eviction(l, max).push((n, b)).last() == (n, b),
{
}

} // verus!
