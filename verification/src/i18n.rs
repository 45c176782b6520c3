//! Interface translations: a Chinese catalog that falls back to the English
//! one, and localized rendering of domain errors.
use vstd::prelude::*;

use crate::catalog_en::{en_catalog, lookup_en};
use crate::catalog_zh::{lemma_zh_entries_nonempty, lookup_zh, zh_catalog};
use crate::domain::BridgeError;
use crate::strings::{push_str, str_equal};

verus! {

/// Interface language.
#[derive(Clone, Copy, Debug, PartialEq, Eq, Structural)]
pub enum Language {
    English,
    Chinese,
}

/// The text shown for `key`: the Chinese translation when the language is
/// Chinese and one exists, otherwise the English text, otherwise empty.
pub open spec fn text_spec(language: Language, key: Seq<char>) -> Seq<char> {
    if language == Language::Chinese && zh_catalog(key) is Some {
        zh_catalog(key)->0
    } else if en_catalog(key) is Some {
        en_catalog(key)->0
    } else {
        Seq::empty()
    }
}

/// Looks `key` up for `language`; unknown keys give the empty string.
pub fn text(language: Language, key: &str) -> (shown: &'static str)
    ensures
        shown@ == text_spec(language, key@),
{
    if language == Language::Chinese {
        if let Some(translated) = lookup_zh(key) {
            return translated;
        }
    }
    match lookup_en(key) {
        Some(translated) => translated,
        None => {
            proof {
                reveal_strlit("");
            }
            ""
        },
    }
}

/// Chinese never shows less than English: every key with English text has
/// Chinese text, a translation or the English fallback.
pub proof fn lemma_chinese_covers_english(key: Seq<char>)
    ensures
        text_spec(Language::English, key).len() > 0 ==> text_spec(Language::Chinese, key).len() > 0,
{
    lemma_zh_entries_nonempty(key);
}

/// The platform-tools download page: Google's China mirror for Chinese, the
/// global site otherwise.
pub open spec fn adb_download_url_spec(language: Language) -> Seq<char> {
    match language {
        Language::Chinese => "https://developer.android.google.cn/tools/releases/platform-tools"@,
        Language::English => "https://developer.android.com/tools/releases/platform-tools"@,
    }
}

/// Official download page for the Android platform-tools (which ship adb).
pub fn adb_download_url(language: Language) -> (url: &'static str)
    ensures
        url@ == adb_download_url_spec(language),
{
    match language {
        Language::Chinese => "https://developer.android.google.cn/tools/releases/platform-tools",
        Language::English => "https://developer.android.com/tools/releases/platform-tools",
    }
}

/// The title of an error: its translated key, or the raw key when the
/// catalog has no text for it.
pub open spec fn error_title_spec(language: Language, key: Seq<char>) -> Seq<char> {
    if text_spec(language, key).len() == 0 {
        key
    } else {
        text_spec(language, key)
    }
}

/// The full text of an error: the title, then `": "` and the detail when the
/// detail is not empty.
pub open spec fn error_text_spec(language: Language, key: Seq<char>, detail: Seq<char>) -> Seq<char> {
    if detail.len() == 0 {
        error_title_spec(language, key)
    } else {
        error_title_spec(language, key) + ": "@ + detail
    }
}

/// Localized title for a domain error.
pub fn error_title(language: Language, error: &BridgeError) -> (title: String)
    ensures
        title@ == error_title_spec(language, error.message_key@),
{
    let translated = text(language, error.message_key.as_str());
    if translated.is_empty() {
        error.message_key.clone()
    } else {
        translated.to_owned()
    }
}

/// Human-readable text for a domain error.
pub fn error_text(language: Language, error: &BridgeError) -> (message: String)
    ensures
        message@ == error_text_spec(language, error.message_key@, error.detail@),
{
    let mut message = error_title(language, error);
    if error.detail.as_str().is_empty() {
        message
    } else {
        push_str(&mut message, ": ");
        push_str(&mut message, error.detail.as_str());
        proof {
            reveal_strlit(": ");
            assert(message@ =~= error_title_spec(language, error.message_key@) + ": "@
                + error.detail@);
        }
        message
    }
}

/// The error keys that come with extra guidance.
pub open spec fn has_error_hint(key: Seq<char>) -> bool {
    key == "applications.install_no_reason"@
}

/// The guidance shown for an install that failed without a reason.
pub open spec fn install_hint_spec(language: Language) -> Seq<char> {
    match language {
        Language::Chinese => "adb 未返回失败原因。常见原因：设备屏幕上弹出的安装确认被拒绝或超时（小米/MIUI 电视常见，请在设备上允许安装），或安装过程中网络连接中断；可重试一次。"@,
        Language::English => "adb reported no failure reason. Common causes: an on-device install confirmation was denied or timed out (common on Xiaomi/MIUI TVs — allow the install on the device screen), or the connection dropped mid-install. Try again."@,
    }
}

/// Extra localized guidance for an error whose raw detail is not actionable;
/// `None` for keys without guidance.
pub fn error_hint(language: Language, error: &BridgeError) -> (hint: Option<&'static str>)
    ensures
        hint is Some <==> has_error_hint(error.message_key@),
        hint matches Some(h) ==> h@ == install_hint_spec(language),
{
    if str_equal(error.message_key.as_str(), "applications.install_no_reason") {
        let h = match language {
            Language::Chinese => {
                "adb 未返回失败原因。常见原因：设备屏幕上弹出的安装确认被拒绝或超时（小米/MIUI 电视常见，请在设备上允许安装），或安装过程中网络连接中断；可重试一次。"
            },
            Language::English => {
                "adb reported no failure reason. Common causes: an on-device install confirmation was denied or timed out (common on Xiaomi/MIUI TVs — allow the install on the device screen), or the connection dropped mid-install. Try again."
            },
        };
        Some(h)
    } else {
        None
    }
}

} // verus!
