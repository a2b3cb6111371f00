//! Settings that pick the AI provider used for translation.
use vstd::prelude::*;

verus! {

/// One configured chat-completion provider.
pub struct AiProvider {
    pub enable: bool,
    pub name: String,
    pub base_url: String,
    pub key: String,
    pub model: String,
}

/// All configured providers, and the one used when none is named.
pub struct AiConfig {
    pub default: String,
    pub providers: Vec<AiProvider>,
}

/// Settings of the translate command.
pub struct TranslateConfig {
    pub ai_provider: String,
}

/// The whole configuration, read once at start.
pub struct Config {
    pub ai: AiConfig,
    pub translate: TranslateConfig,
}

impl AiProvider {
    /// A copy of the provider.
    pub fn duplicate(&self) -> (r: AiProvider)
        ensures
            r == *self,
    {
        AiProvider {
            enable: self.enable,
            name: self.name.clone(),
            base_url: self.base_url.clone(),
            key: self.key.clone(),
            model: self.model.clone(),
        }
    }
}

impl Default for AiProvider {
    fn default() -> (r: AiProvider)
        ensures
            !r.enable,
            r.name@.len() == 0,
            r.base_url@.len() == 0,
            r.key@.len() == 0,
            r.model@.len() == 0,
    {
        AiProvider {
            enable: false,
            name: String::new(),
            base_url: String::new(),
            key: String::new(),
            model: String::new(),
        }
    }
}

impl Default for AiConfig {
    fn default() -> (r: AiConfig)
        ensures
            r.default@.len() == 0,
            r.providers@.len() == 0,
    {
        AiConfig { default: String::new(), providers: Vec::new() }
    }
}

impl Default for TranslateConfig {
    fn default() -> (r: TranslateConfig)
        ensures
            r.ai_provider@.len() == 0,
    {
        TranslateConfig { ai_provider: String::new() }
    }
}

impl Default for Config {
    fn default() -> (r: Config)
        ensures
            r.ai.default@.len() == 0,
            r.ai.providers@.len() == 0,
            r.translate.ai_provider@.len() == 0,
    {
        Config { ai: AiConfig::default(), translate: TranslateConfig::default() }
    }
}

/// The model a provider uses when its settings name none.
pub fn ai_config_default_model() -> (r: String)
    ensures
        r@ == "GPT-5"@,
{
    String::from_str("GPT-5")
}

/// The first provider in `ps` called `name`.
pub open spec fn first_named(ps: Seq<AiProvider>, name: Seq<char>) -> Option<AiProvider>
    decreases ps.len(),
{
    if ps.len() == 0 {
        None
    } else if ps[0].name@ == name {
        Some(ps[0])
    } else {
        first_named(ps.drop_first(), name)
    }
}

/// The provider that `name` selects in `cfg`: the name itself, or the
/// configured default where it is empty; only an enabled provider counts.
pub open spec fn selected_provider(cfg: Config, name: Seq<char>) -> Option<AiProvider> {
    let wanted = if name.len() != 0 {
        name
    } else {
        cfg.ai.default@
    };
    if cfg.ai.providers@.len() == 0 || wanted.len() == 0 {
        None
    } else {
        match first_named(cfg.ai.providers@, wanted) {
            Some(p) => if p.enable {
                Some(p)
            } else {
                None
            },
            None => None,
        }
    }
}

fn find_named(ps: &Vec<AiProvider>, name: &String) -> (r: Option<usize>)
    ensures
        match r {
            Some(i) => i < ps@.len() && first_named(ps@, name@) == Some(ps@[i as int]),
            None => first_named(ps@, name@) is None,
        },
{
    let mut i: usize = 0;
    assert(ps@.subrange(0, ps@.len() as int) =~= ps@);
    while i < ps.len()
        invariant
            i <= ps@.len(),
            first_named(ps@, name@) == first_named(ps@.subrange(i as int, ps@.len() as int), name@),
        decreases ps@.len() - i,
    {
        let ghost rest = ps@.subrange(i as int, ps@.len() as int);
        if ps[i].name == *name {
            return Some(i);
        }
        assert(rest.drop_first() =~= ps@.subrange(i + 1, ps@.len() as int));
        i = i + 1;
    }
    None
}

/// Looks up the enabled provider that `name` selects in `cfg`: `name`
/// itself, or the configured default where `name` is empty.
pub fn get_ai_provider(cfg: &Config, name: &str) -> (r: Option<AiProvider>)
    ensures
        r == selected_provider(*cfg, name@),
{
    if cfg.ai.providers.len() == 0 {
        return None;
    }
    let wanted = if name.unicode_len() != 0 {
        String::from_str(name)
    } else {
        cfg.ai.default.clone()
    };
    if wanted.as_str().unicode_len() == 0 {
        return None;
    }
    match find_named(&cfg.ai.providers, &wanted) {
        Some(i) => {
            if cfg.ai.providers[i].enable {
                Some(cfg.ai.providers[i].duplicate())
            } else {
                None
            }
        },
        None => None,
    }
}

} // verus!
