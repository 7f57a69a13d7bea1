//! The texts that the loader shows, in the languages it speaks.

use crate::gui::FailReason;
use vstd::prelude::*;
use vstd::string::StrSliceExecFns;

verus! {

/// A language of the loader's texts. `Auto` stands for the language of the
/// system's locale.
#[derive(Clone, Copy, Debug, PartialEq, Eq, Hash, Structural)]
pub enum Language {
    Auto,
    English,
    SChinese,
}

/// A text of the server's detail panel.
#[derive(Clone, Copy, Debug, PartialEq, Eq, Hash, Structural)]
pub enum TextType {
    PasswordRequired,
    PasswordNotRequired,
}

/// Whether a locale names a Chinese one: its name starts with `zh`.
pub open spec fn is_chinese_locale(locale: Seq<char>) -> bool {
    locale.len() >= 2 && locale[0] == 'z' && locale[1] == 'h'
}

/// The language that texts are shown in, for a wish and the system's
/// locale: the wish, unless it is `Auto`; under `Auto`, Chinese for a Chinese
/// locale and English for every other, and where the system names none.
pub open spec fn language_for(lang: Language, locale: Option<Seq<char>>) -> Language {
    match lang {
        Language::Auto => match locale {
            Some(name) if is_chinese_locale(name) => Language::SChinese,
            _ => Language::English,
        },
        _ => lang,
    }
}

/// What a failure is called in a language, `Auto` read as English.
pub open spec fn fail_reason_text(lang: Language, reason: FailReason) -> Seq<char> {
    match lang {
        Language::SChinese => match reason {
            FailReason::ChooseFileFail => "无效的配置文件！"@,
            FailReason::RefreshListFail => "无法刷新服务器列表！"@,
            FailReason::PatchFail => "修改内存过程中发生错误"@,
            FailReason::ListNoSelected => "请先选择一个服务器"@,
            FailReason::ProcessNotFound => "未找到游戏进程，也许你应该先打开游戏。"@,
            FailReason::FetchPublicKeyFail => "从主服务器获取公钥失败，一般是由于密码错误"@,
        },
        _ => match reason {
            FailReason::ChooseFileFail => "Invalid file choosen!"@,
            FailReason::RefreshListFail => "Can't refresh the server list!"@,
            FailReason::PatchFail => "Exception happened during the patch"@,
            FailReason::ListNoSelected => "Please select a server first!"@,
            FailReason::ProcessNotFound
                => "Game process not found, maybe you need open the game first."@,
            FailReason::FetchPublicKeyFail
                => "Can't fetch public key from the master server, most likely due to the incorrect password"@,
        },
    }
}

/// What a text of the detail panel reads in a language, `Auto` read as
/// English.
pub open spec fn panel_text(lang: Language, text: TextType) -> Seq<char> {
    match lang {
        Language::SChinese => match text {
            TextType::PasswordRequired => "需要密码"@,
            TextType::PasswordNotRequired => "不需要密码"@,
        },
        _ => match text {
            TextType::PasswordRequired => "Need password"@,
            TextType::PasswordNotRequired => "No password"@,
        },
    }
}

/// The loader's texts in one language.
#[derive(Clone, Copy, Debug)]
pub struct Localization {
    language: Language,
}

impl Localization {
    /// The language of these texts.
    pub closed spec fn language(&self) -> Language {
        self.language
    }

    /// The language of these texts.
    pub fn current(&self) -> (lang: Language)
        ensures
            lang == self.language(),
    {
        self.language
    }

    /// What the failure `reason` is called.
    pub fn fail_reason(&self, reason: FailReason) -> (text: &'static str)
        ensures
            text@ == fail_reason_text(self.language(), reason),
    {
        match self.language {
            Language::SChinese => match reason {
                FailReason::ChooseFileFail => "无效的配置文件！",
                FailReason::RefreshListFail => "无法刷新服务器列表！",
                FailReason::PatchFail => "修改内存过程中发生错误",
                FailReason::ListNoSelected => "请先选择一个服务器",
                FailReason::ProcessNotFound => "未找到游戏进程，也许你应该先打开游戏。",
                FailReason::FetchPublicKeyFail => "从主服务器获取公钥失败，一般是由于密码错误",
            },
            _ => match reason {
                FailReason::ChooseFileFail => "Invalid file choosen!",
                FailReason::RefreshListFail => "Can't refresh the server list!",
                FailReason::PatchFail => "Exception happened during the patch",
                FailReason::ListNoSelected => "Please select a server first!",
                FailReason::ProcessNotFound
                    => "Game process not found, maybe you need open the game first.",
                FailReason::FetchPublicKeyFail
                    => "Can't fetch public key from the master server, most likely due to the incorrect password",
            },
        }
    }

    /// What the text `text` of the detail panel reads.
    pub fn text(&self, text: TextType) -> (shown: &'static str)
        ensures
            shown@ == panel_text(self.language(), text),
    {
        match self.language {
            Language::SChinese => match text {
                TextType::PasswordRequired => "需要密码",
                TextType::PasswordNotRequired => "不需要密码",
            },
            _ => match text {
                TextType::PasswordRequired => "Need password",
                TextType::PasswordNotRequired => "No password",
            },
        }
    }
}

/// The loader's texts for the language `lang`. Under `Auto` the system's
/// locale decides, which the caller has asked the system for: `None` where it
/// names none.
pub fn set_language(lang: Language, locale: Option<&str>) -> (texts: Localization)
    ensures
        texts.language() == language_for(
            lang,
            match locale {
                Some(name) => Some(name@),
                None => None,
            },
        ),
        texts.language() != Language::Auto,
{
    let language = match lang {
        Language::Auto => match locale {
            Some(name) => {
                if name.unicode_len() >= 2 && name.get_char(0) == 'z' && name.get_char(1) == 'h' {
                    Language::SChinese
                } else {
                    Language::English
                }
            },
            None => Language::English,
        },
        _ => lang,
    };
    Localization { language }
}

} // verus!
