//! Translation requests: language names, the chat prompt, and the choice
//! of provider. The network round trip itself is made by the caller.
use crate::text::{ascii_lower, is_ascii_char, trimmed};
use crate::config::{get_ai_provider, selected_provider, AiProvider, Config};
use vstd::prelude::*;

verus! {

/// A language of a text, as a source or as a target.
#[derive(Clone, Copy, Debug, PartialEq, Eq, Structural)]
pub enum Language {
    Chinese,
    English,
}

/// Why a translation cannot be made.
#[derive(Debug)]
pub enum TranslateError {
    /// The named language is not known.
    UnsupportedLanguage(String),
    /// No enabled provider is configured for translation.
    ProviderUnavailable,
    /// The request to the provider failed.
    Request(String),
    /// The provider answered without any text.
    EmptyReply,
}

/// Who speaks a chat message.
#[derive(Clone, Copy, Debug, PartialEq, Eq, Structural)]
pub enum Role {
    System,
    User,
}

/// One message of a chat prompt.
pub struct Message {
    pub role: Role,
    pub content: String,
}

/// Everything one chat-completion request needs.
pub struct TranslateRequest {
    pub base_url: String,
    pub key: String,
    pub model: String,
    pub messages: Vec<Message>,
}

/// What `str::to_lowercase` makes of a text.
pub uninterp spec fn lower_of(s: Seq<char>) -> Seq<char>;

/// Relies on `str::to_lowercase`: the result depends on the text alone,
/// and an ASCII text is lowered character by character.
#[verifier::external_body]
fn to_lower(s: &str) -> (r: String)
    ensures
        r@ == lower_of(s@),
        (forall|i: int| 0 <= i < s@.len() ==> is_ascii_char(#[trigger] s@[i])) ==> r@ == s@.map_values(
            |c: char| ascii_lower(c),
        ),
{
    s.to_lowercase()
}

/// Relies on `str::trim`: leading and trailing characters with the
/// `White_Space` property are removed.
#[verifier::external_body]
fn trim_text(s: &str) -> (r: String)
    ensures
        r@ == trimmed(s@),
{
    s.trim().to_string()
}

/// The language that a lower-case alias names.
pub open spec fn language_of(s: Seq<char>) -> Option<Language> {
    if s == "cn"@ || s == "chinese"@ {
        Some(Language::Chinese)
    } else if s == "en"@ || s == "english"@ {
        Some(Language::English)
    } else {
        None
    }
}

/// The language that an alias names, in any case.
pub open spec fn parsed_language(s: Seq<char>) -> Option<Language> {
    language_of(lower_of(s))
}

pub open spec fn language_name(l: Language) -> Seq<char> {
    match l {
        Language::Chinese => "chinese"@,
        Language::English => "english"@,
    }
}

/// The instruction given to the model.
pub open spec fn system_text(from: Option<Language>, to: Language) -> Seq<char> {
    match from {
        Some(f) => "Please translate the given text from "@ + language_name(f) + " to "@
            + language_name(to),
        None => "Please translate the given text into "@ + language_name(to),
    }
}

/// Whether `v` names a language, or is absent.
pub open spec fn language_ok(v: Option<&str>) -> bool {
    match v {
        Some(s) => parsed_language(s@) is Some,
        None => true,
    }
}

impl Language {
    /// Resolves an alias that is already in lower case.
    pub fn from_lowercase(value: &str) -> (r: Result<Language, TranslateError>)
        ensures
            match (r, language_of(value@)) {
                (Ok(l), Some(m)) => l == m,
                (Err(TranslateError::UnsupportedLanguage(v)), None) => v@ == value@,
                _ => false,
            },
    {
        let v = String::from_str(value);
        let cn = String::from_str("cn");
        let chinese = String::from_str("chinese");
        let en = String::from_str("en");
        let english = String::from_str("english");
        if v == cn || v == chinese {
            Ok(Language::Chinese)
        } else if v == en || v == english {
            Ok(Language::English)
        } else {
            Err(TranslateError::UnsupportedLanguage(v))
        }
    }

    /// Resolves an alias in any case: `cn` or `chinese`, `en` or `english`.
    pub fn try_from(value: &str) -> (r: Result<Language, TranslateError>)
        ensures
            match (r, parsed_language(value@)) {
                (Ok(l), Some(m)) => l == m,
                (Err(TranslateError::UnsupportedLanguage(v)), None) => v@ == value@,
                _ => false,
            },
            (forall|i: int| 0 <= i < value@.len() ==> is_ascii_char(#[trigger] value@[i]))
                ==> parsed_language(value@) == language_of(
                value@.map_values(|c: char| ascii_lower(c)),
            ),
    {
        let lower = to_lower(value);
        match Language::from_lowercase(lower.as_str()) {
            Ok(l) => Ok(l),
            Err(_) => Err(TranslateError::UnsupportedLanguage(String::from_str(value))),
        }
    }

    /// The language's name, in lower case.
    pub fn name(&self) -> (r: &'static str)
        ensures
            r@ == language_name(*self),
    {
        match self {
            Language::Chinese => "chinese",
            Language::English => "english",
        }
    }
}

/// A text, the language it is in if known, and the language to translate into.
pub struct TranslateCommand {
    pub text: String,
    pub from: Option<Language>,
    pub to: Language,
}

impl TranslateCommand {
    /// Resolves the language names; the target is Chinese when none is given.
    pub fn new(text: &str, from: Option<&str>, to: Option<&str>) -> (r: Result<
        TranslateCommand,
        TranslateError,
    >)
        ensures
            r is Ok <==> language_ok(from) && language_ok(to),
            r is Ok ==> {
                let c = r->Ok_0;
                &&& c.text@ == text@
                &&& c.from == match from {
                    Some(f) => parsed_language(f@),
                    None => None,
                }
                &&& c.to == match to {
                    Some(t) => parsed_language(t@)->Some_0,
                    None => Language::Chinese,
                }
            },
            r is Err ==> r->Err_0 is UnsupportedLanguage,
            r matches Err(TranslateError::UnsupportedLanguage(v)) ==> if !language_ok(from) {
                v@ == from->Some_0@
            } else {
                v@ == to->Some_0@
            },
    {
        let from_lang = match from {
            Some(f) => match Language::try_from(f) {
                Ok(l) => Some(l),
                Err(e) => return Err(e),
            },
            None => None,
        };
        let to_lang = match to {
            Some(t) => match Language::try_from(t) {
                Ok(l) => l,
                Err(e) => return Err(e),
            },
            None => Language::Chinese,
        };
        Ok(TranslateCommand { text: String::from_str(text), from: from_lang, to: to_lang })
    }

    /// The instruction given to the model.
    pub fn system_prompt(&self) -> (r: String)
        ensures
            r@ == system_text(self.from, self.to),
    {
        match self.from {
            Some(f) => String::from_str("Please translate the given text from ").concat(
                f.name(),
            ).concat(" to ").concat(self.to.name()),
            None => String::from_str("Please translate the given text into ").concat(
                self.to.name(),
            ),
        }
    }

    /// The prompt: the instruction, then the text as the user's message.
    pub fn build_message(&self) -> (r: Vec<Message>)
        ensures
            r@.len() == 2,
            r@[0].role == Role::System,
            r@[0].content@ == system_text(self.from, self.to),
            r@[1].role == Role::User,
            r@[1].content@ == self.text@,
    {
        let system = Message { role: Role::System, content: self.system_prompt() };
        let user = Message { role: Role::User, content: self.text.clone() };
        let mut r: Vec<Message> = Vec::new();
        r.push(system);
        r.push(user);
        r
    }

    /// The request to send, to the provider that the translate settings
    /// select; fails before anything is sent where none is enabled.
    pub fn prepare(&self, cfg: &Config) -> (r: Result<TranslateRequest, TranslateError>)
        ensures
            selected_provider(*cfg, cfg.translate.ai_provider@) is None <==> r is Err,
            r is Err ==> r->Err_0 is ProviderUnavailable,
            r is Ok ==> {
                let req = r->Ok_0;
                let p = selected_provider(*cfg, cfg.translate.ai_provider@)->Some_0;
                &&& req.base_url@ == p.base_url@
                &&& req.key@ == p.key@
                &&& req.model@ == p.model@
                &&& req.messages@.len() == 2
                &&& req.messages@[0].role == Role::System
                &&& req.messages@[0].content@ == system_text(self.from, self.to)
                &&& req.messages@[1].role == Role::User
                &&& req.messages@[1].content@ == self.text@
            },
    {
        let provider: AiProvider = match get_ai_provider(cfg, cfg.translate.ai_provider.as_str()) {
            Some(p) => p,
            None => return Err(TranslateError::ProviderUnavailable),
        };
        Ok(
            TranslateRequest {
                base_url: provider.base_url,
                key: provider.key,
                model: provider.model,
                messages: self.build_message(),
            },
        )
    }
}

/// The text shown for the outcome of the request: the failure's message,
/// or the content of the first reply, trimmed, or an error where the
/// provider sent none.
pub fn reply_text(outcome: Result<Option<&str>, &str>) -> (r: Result<String, TranslateError>)
    ensures
        match outcome {
            Ok(Some(c)) => r is Ok && r->Ok_0@ == trimmed(c@),
            Ok(None) => r matches Err(TranslateError::EmptyReply),
            Err(m) => r matches Err(TranslateError::Request(e)) && e@ == m@,
        },
{
    match outcome {
        Ok(Some(c)) => Ok(trim_text(c)),
        Ok(None) => Err(TranslateError::EmptyReply),
        Err(m) => Err(TranslateError::Request(String::from_str(m))),
    }
}

} // verus!
