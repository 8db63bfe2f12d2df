//! The server's configuration: the model mappings read from the `models`
//! table, the unit roster and how each unit's engine is configured. The
//! configuration file and the model directories are read by the caller.
use vstd::prelude::*;
use crate::domain::pairs_view;
use crate::resources::{EngineBackend, EngineConfig, opt_text};
use crate::text::{chars_of, concat2, concat3, lowercase, str_eq, string_of_range, to_lowercase, views};

verus! {

/// Where the configuration file is looked for, in order.
pub fn config_paths() -> (v: Vec<String>)
    ensures
        views(v@) == seq!["../magi_config.ini"@, "magi_config.ini"@, "../../magi_config.ini"@],
{
    let mut v: Vec<String> = Vec::new();
    v.push("../magi_config.ini".to_owned());
    v.push("magi_config.ini".to_owned());
    v.push("../../magi_config.ini".to_owned());
    assert(views(v@) =~= seq!["../magi_config.ini"@, "magi_config.ini"@, "../../magi_config.ini"@]);
    v
}

/// The error when no configuration file is found.
pub const CONFIG_NOT_FOUND: &'static str = "magi_config.ini not found in expected locations";

/// Where model files are looked for, in order.
pub fn model_dirs() -> (v: Vec<String>)
    ensures
        views(v@) == seq!["../models"@, "models"@, "../../models"@],
{
    let mut v: Vec<String> = Vec::new();
    v.push("../models".to_owned());
    v.push("models".to_owned());
    v.push("../../models".to_owned());
    assert(views(v@) =~= seq!["../models"@, "models"@, "../../models"@]);
    v
}

/// `s` without its leading characters `c`.
pub open spec fn strip_leading(s: Seq<char>, c: char) -> Seq<char>
    decreases s.len(),
{
    if s.len() > 0 && s[0] == c {
        strip_leading(s.drop_first(), c)
    } else {
        s
    }
}

/// `s` without its trailing characters `c`.
pub open spec fn strip_trailing(s: Seq<char>, c: char) -> Seq<char>
    decreases s.len(),
{
    if s.len() > 0 && s.last() == c {
        strip_trailing(s.drop_last(), c)
    } else {
        s
    }
}

/// `s` without the characters `c` at either end (`str::trim_matches`).
pub open spec fn trim_char(s: Seq<char>, c: char) -> Seq<char> {
    strip_trailing(strip_leading(s, c), c)
}

/// `s` without the characters `c` at either end.
pub fn trim_char_str(s: &str, c: char) -> (r: String)
    ensures
        r@ == trim_char(s@, c),
{
    let v = chars_of(s);
    let mut a: usize = 0;
    assert(v@.subrange(0, v@.len() as int) =~= v@);
    while a < v.len() && v[a] == c
        invariant
            a <= v@.len(),
            v@ == s@,
            strip_leading(s@, c) == strip_leading(v@.subrange(a as int, v@.len() as int), c),
        decreases v.len() - a,
    {
        assert(v@.subrange(a as int, v@.len() as int).drop_first() =~= v@.subrange(
            a + 1,
            v@.len() as int,
        ));
        a += 1;
    }
    let mut b: usize = v.len();
    while b > a && v[b - 1] == c
        invariant
            a <= b <= v@.len(),
            v@ == s@,
            strip_trailing(strip_leading(s@, c), c) == strip_trailing(
                v@.subrange(a as int, b as int),
                c,
            ),
        decreases b - a,
    {
        assert(v@.subrange(a as int, b as int).drop_last() =~= v@.subrange(a as int, b - 1));
        b -= 1;
    }
    string_of_range(&v, a, b)
}

/// The model mappings of the `models` table: each key in lowercase, each
/// value without surrounding quotes; a later entry for the same key wins.
pub open spec fn mappings_of(entries: Seq<(Seq<char>, Seq<char>)>) -> Map<Seq<char>, Seq<char>>
    decreases entries.len(),
{
    if entries.len() == 0 {
        Map::empty()
    } else {
        mappings_of(entries.drop_last()).insert(
            lowercase(entries.last().0),
            trim_char(entries.last().1, '"'),
        )
    }
}

/// The map that an association list stands for: a later entry for the
/// same key wins.
pub open spec fn last_wins(entries: Seq<(Seq<char>, Seq<char>)>) -> Map<Seq<char>, Seq<char>>
    decreases entries.len(),
{
    if entries.len() == 0 {
        Map::empty()
    } else {
        last_wins(entries.drop_last()).insert(entries.last().0, entries.last().1)
    }
}

/// The server's settings.
#[derive(Debug, Clone)]
pub struct MagiConfiguration {
    pub model_mappings: Vec<(String, String)>,
    pub tokenizer_path: String,
    pub prompts_dir: String,
    pub knowledge_base: String,
    pub port: u16,
    pub host: String,
    pub llamacpp_endpoint: Option<String>,
}

impl MagiConfiguration {
    /// The model mappings, by lowercase unit name.
    pub open spec fn mapping_view(&self) -> Map<Seq<char>, Seq<char>> {
        last_wins(pairs_view(self.model_mappings@))
    }

    /// The configuration made of what the file holds: the entries of the
    /// `models` table (each value as text), the `system` settings, and the
    /// port (cut to 16 bits).
    pub fn from_settings(
        models: &Vec<(String, String)>,
        tokenizer_path: String,
        prompts_dir: String,
        knowledge_base: String,
        port: i64,
        host: String,
        llamacpp_endpoint: Option<String>,
    ) -> (c: Self)
        ensures
            c.mapping_view() == mappings_of(pairs_view(models@)),
            c.tokenizer_path == tokenizer_path,
            c.prompts_dir == prompts_dir,
            c.knowledge_base == knowledge_base,
            c.port == port as u16,
            c.host == host,
            c.llamacpp_endpoint == llamacpp_endpoint,
    {
        let mut m: Vec<(String, String)> = Vec::new();
        let mut i: usize = 0;
        while i < models.len()
            invariant
                i <= models@.len(),
                last_wins(pairs_view(m@)) == mappings_of(pairs_view(models@).take(i as int)),
            decreases models.len() - i,
        {
            let k = to_lowercase(models[i].0.as_str());
            let v = trim_char_str(models[i].1.as_str(), '"');
            let ghost before = m@;
            m.push((k, v));
            assert(pairs_view(m@).drop_last() =~= pairs_view(before));
            assert(pairs_view(models@).take(i + 1).drop_last() =~= pairs_view(models@).take(i as int));
            i += 1;
        }
        assert(pairs_view(models@).take(models@.len() as int) =~= pairs_view(models@));
        MagiConfiguration {
            model_mappings: m,
            tokenizer_path,
            prompts_dir,
            knowledge_base,
            port: port as u16,
            host,
            llamacpp_endpoint,
        }
    }

    /// The keyword by which the model of unit `name` is found: its mapping
    /// under the lowercase name, or the name itself.
    pub fn model_keyword(&self, name: &str) -> (k: String)
        ensures
            k@ == if self.mapping_view().contains_key(lowercase(name@)) {
                self.mapping_view()[lowercase(name@)]
            } else {
                name@
            },
    {
        let key = to_lowercase(name);
        let mut i = self.model_mappings.len();
        while i > 0
            invariant
                i <= self.model_mappings@.len(),
                key@ == lowercase(name@),
                forall|k: int|
                    i <= k < self.model_mappings@.len() ==> #[trigger] self.model_mappings@[k].0@
                        != key@,
            decreases i,
        {
            if str_eq(self.model_mappings[i - 1].0.as_str(), key.as_str()) {
                proof {
                    let e = pairs_view(self.model_mappings@);
                    assert forall|k: int| (i - 1) < k < e.len() implies #[trigger] e[k].0 != e[i
                        - 1].0 by {
                        assert(self.model_mappings@[k].0@ != key@);
                    }
                    lemma_last_wins_at(e, (i - 1) as int);
                }
                return self.model_mappings[i - 1].1.clone();
            }
            i -= 1;
        }
        proof {
            let e = pairs_view(self.model_mappings@);
            assert forall|k: int| 0 <= k < e.len() implies #[trigger] e[k].0 != key@ by {
                assert(self.model_mappings@[k].0@ != key@);
            }
            lemma_last_wins_absent(e, key@);
        }
        name.to_owned()
    }
}

proof fn lemma_last_wins_at(e: Seq<(Seq<char>, Seq<char>)>, i: int)
    requires
        0 <= i < e.len(),
        forall|k: int| i < k < e.len() ==> #[trigger] e[k].0 != e[i].0,
    ensures
        last_wins(e).contains_key(e[i].0),
        last_wins(e)[e[i].0] == e[i].1,
    decreases e.len(),
{
    if i < e.len() - 1 {
        assert forall|k: int| i < k < e.drop_last().len() implies #[trigger] e.drop_last()[k].0
            != e.drop_last()[i].0 by {
            assert(e[k].0 != e[i].0);
        }
        lemma_last_wins_at(e.drop_last(), i);
        assert(e.last().0 != e[i].0);
    }
}

proof fn lemma_last_wins_absent(e: Seq<(Seq<char>, Seq<char>)>, n: Seq<char>)
    requires
        forall|k: int| 0 <= k < e.len() ==> #[trigger] e[k].0 != n,
    ensures
        !last_wins(e).contains_key(n),
    decreases e.len(),
{
    if e.len() > 0 {
        assert forall|k: int| 0 <= k < e.drop_last().len() implies #[trigger] e.drop_last()[k].0
            != n by {
            assert(e[k].0 != n);
        }
        lemma_last_wins_absent(e.drop_last(), n);
        assert(e[e.len() - 1].0 != n);
    }
}

/// The six MAGI units and the files of their personas, in order.
pub fn units_meta() -> (v: Vec<(String, String)>)
    ensures
        pairs_view(v@) == seq![
            ("Phi-4 (Melchior)"@, "system_persona_melchior.txt"@),
            ("Gemma-3 (Balthasar)"@, "system_persona_balthasar.txt"@),
            ("DeepSeek-R1 (Casper)"@, "system_persona_casper.txt"@),
            ("SmolLM2 (Artaban)"@, "system_persona_artaban.txt"@),
            ("DeepSeek-Coder (Gushnasaph)"@, "system_persona_gushnasaph.txt"@),
            ("Qwen-Math (Kagba)"@, "system_persona_kagba.txt"@),
        ],
{
    let mut v: Vec<(String, String)> = Vec::new();
    v.push(("Phi-4 (Melchior)".to_owned(), "system_persona_melchior.txt".to_owned()));
    v.push(("Gemma-3 (Balthasar)".to_owned(), "system_persona_balthasar.txt".to_owned()));
    v.push(("DeepSeek-R1 (Casper)".to_owned(), "system_persona_casper.txt".to_owned()));
    v.push(("SmolLM2 (Artaban)".to_owned(), "system_persona_artaban.txt".to_owned()));
    v.push(("DeepSeek-Coder (Gushnasaph)".to_owned(), "system_persona_gushnasaph.txt".to_owned()));
    v.push(("Qwen-Math (Kagba)".to_owned(), "system_persona_kagba.txt".to_owned()));
    assert(pairs_view(v@) =~= seq![
        ("Phi-4 (Melchior)"@, "system_persona_melchior.txt"@),
        ("Gemma-3 (Balthasar)"@, "system_persona_balthasar.txt"@),
        ("DeepSeek-R1 (Casper)"@, "system_persona_casper.txt"@),
        ("SmolLM2 (Artaban)"@, "system_persona_artaban.txt"@),
        ("DeepSeek-Coder (Gushnasaph)"@, "system_persona_gushnasaph.txt"@),
        ("Qwen-Math (Kagba)"@, "system_persona_kagba.txt"@),
    ]);
    v
}

/// The number of engines the server keeps loaded at once.
pub const MAX_ACTIVE_MODELS: usize = 3;

/// Where the persona of a unit is read from.
pub fn persona_path(prompts_dir: &str, file_name: &str) -> (p: String)
    ensures
        p@ == prompts_dir@ + "/"@ + file_name@,
{
    concat3(prompts_dir, "/", file_name)
}

/// The persona of a unit whose persona file cannot be read.
pub fn default_persona(name: &str) -> (p: String)
    ensures
        p@ == "You are "@ + name@ + "."@,
{
    concat3("You are ", name, ".")
}

/// The engine configuration of a unit: Candle on the model file found for
/// it, or the llama.cpp server when none was found.
pub fn unit_engine_config(model_path: Option<String>, cfg: &MagiConfiguration) -> (c: EngineConfig)
    ensures
        c.backend_type == if model_path is Some {
            EngineBackend::Candle
        } else {
            EngineBackend::LlamaCpp
        },
        opt_text(c.model_path) == opt_text(model_path),
        c.tokenizer_path@ == cfg.tokenizer_path@,
        opt_text(c.llamacpp_endpoint) == opt_text(cfg.llamacpp_endpoint),
{
    let backend_type = if model_path.is_some() {
        EngineBackend::Candle
    } else {
        EngineBackend::LlamaCpp
    };
    EngineConfig {
        backend_type,
        model_path,
        tokenizer_path: cfg.tokenizer_path.clone(),
        llamacpp_endpoint: match &cfg.llamacpp_endpoint {
            Some(e) => Some(e.clone()),
            None => None,
        },
    }
}

} // verus!
