use ssr::config::{ai_config_default_model, get_ai_provider, AiConfig, AiProvider, Config, TranslateConfig};
use ssr::translate::{reply_text, Language, Role, TranslateCommand, TranslateError};

fn provider(name: &str, enable: bool) -> AiProvider {
    AiProvider {
        enable,
        name: name.to_string(),
        base_url: format!("https://{name}.example/v1/"),
        key: format!("key-{name}"),
        model: "m".to_string(),
    }
}

fn config(default: &str, chosen: &str, providers: Vec<AiProvider>) -> Config {
    Config {
        ai: AiConfig { default: default.to_string(), providers },
        translate: TranslateConfig { ai_provider: chosen.to_string() },
    }
}

#[test]
fn language_aliases() {
    assert_eq!(Language::try_from("CN").unwrap(), Language::Chinese);
    assert_eq!(Language::try_from("cn").unwrap(), Language::Chinese);
    assert_eq!(Language::try_from("Chinese").unwrap(), Language::Chinese);
    assert_eq!(Language::try_from("EN").unwrap(), Language::English);
    assert_eq!(Language::try_from("english").unwrap(), Language::English);
}

#[test]
fn unknown_language_fails() {
    match Language::try_from("fr") {
        Err(TranslateError::UnsupportedLanguage(v)) => assert_eq!(v, "fr"),
        other => panic!("unexpected {other:?}"),
    }
    assert!(Language::from_lowercase("CN").is_err());
}

#[test]
fn language_names() {
    assert_eq!(Language::Chinese.name(), "chinese");
    assert_eq!(Language::English.name(), "english");
}

#[test]
fn command_defaults_to_chinese() {
    let c = TranslateCommand::new("hello", None, None).unwrap();
    assert_eq!(c.text, "hello");
    assert_eq!(c.from, None);
    assert_eq!(c.to, Language::Chinese);
    assert_eq!(c.system_prompt(), "Please translate the given text into chinese");
}

#[test]
fn command_with_both_languages() {
    let c = TranslateCommand::new("你好", Some("CN"), Some("en")).unwrap();
    assert_eq!(c.system_prompt(), "Please translate the given text from chinese to english");
    let m = c.build_message();
    assert_eq!(m.len(), 2);
    assert_eq!(m[0].role, Role::System);
    assert_eq!(m[1].role, Role::User);
    assert_eq!(m[1].content, "你好");
}

#[test]
fn command_rejects_bad_language() {
    match TranslateCommand::new("x", Some("fr"), Some("de")) {
        Err(TranslateError::UnsupportedLanguage(v)) => assert_eq!(v, "fr"),
        _ => panic!("expected an error"),
    }
    match TranslateCommand::new("x", None, Some("de")) {
        Err(TranslateError::UnsupportedLanguage(v)) => assert_eq!(v, "de"),
        _ => panic!("expected an error"),
    }
}

#[test]
fn no_provider_configured() {
    let c = TranslateCommand::new("hello", None, Some("cn")).unwrap();
    let r = c.prepare(&Config::default());
    assert!(matches!(r, Err(TranslateError::ProviderUnavailable)));
}

#[test]
fn disabled_provider_is_unavailable() {
    let c = TranslateCommand::new("hello", None, Some("cn")).unwrap();
    let cfg = config("a", "", vec![provider("a", false)]);
    assert!(matches!(c.prepare(&cfg), Err(TranslateError::ProviderUnavailable)));
}

#[test]
fn request_uses_selected_provider() {
    let c = TranslateCommand::new("hello", Some("en"), None).unwrap();
    let cfg = config("a", "b", vec![provider("a", true), provider("b", true)]);
    let req = c.prepare(&cfg).unwrap();
    assert_eq!(req.base_url, "https://b.example/v1/");
    assert_eq!(req.key, "key-b");
    assert_eq!(req.model, "m");
    assert_eq!(req.messages[0].content, "Please translate the given text from english to chinese");
    assert_eq!(req.messages[1].content, "hello");
}

#[test]
fn provider_lookup() {
    let cfg = config("a", "", vec![provider("a", true), provider("b", false), provider("a", false)]);
    assert_eq!(get_ai_provider(&cfg, "").unwrap().key, "key-a");
    assert_eq!(get_ai_provider(&cfg, "a").unwrap().key, "key-a");
    assert!(get_ai_provider(&cfg, "b").is_none());
    assert!(get_ai_provider(&cfg, "c").is_none());
    let no_default = config("", "", vec![provider("a", true)]);
    assert!(get_ai_provider(&no_default, "").is_none());
    assert!(get_ai_provider(&Config::default(), "a").is_none());
}

#[test]
fn default_model() {
    assert_eq!(ai_config_default_model(), "GPT-5");
}

#[test]
fn reply_is_trimmed() {
    assert_eq!(reply_text(Ok(Some("  你好\n"))).unwrap(), "你好");
    assert!(matches!(reply_text(Ok(None)), Err(TranslateError::EmptyReply)));
    match reply_text(Err("timed out")) {
        Err(TranslateError::Request(m)) => assert_eq!(m, "timed out"),
        _ => panic!("expected a request error"),
    }
}

#[test]
fn reply_trims_unicode_blanks() {
    assert_eq!(reply_text(Ok(Some("\u{3000}\u{a0} ok x\u{2028}\t"))).unwrap(), "ok x");
    assert_eq!(reply_text(Ok(Some(" \n "))).unwrap(), "");
}
