//! The messages that are shown to the user, in English and in Japanese.

use crate::text::{chars_of, find_char, first_at, lemma_first_at};
use vstd::prelude::*;

verus! {

/// A message that is shown to the user.
#[derive(Clone, Copy, Debug, PartialEq, Eq, Hash, Structural)]
pub enum Message {
    ErrorReadingConfigFile,
    ClickOKToDiscordAndContinue,
    ErrorLoadingConfigFileCaption,
    ErrorWritingConfigFileText,
    ErrorWritingConfigFileCaption,
    PathToVrcLogFolder,
    VrcLogFilePattern,
    KeepOriginal,
    CopyMoveLogFileTo,
    OutputFilePattern,
    UseUcForFileName,
    SaveConfig,
    ResetConfig,
    ExecuteNow,
    InstallToTaskScheduler,
    UninstallFromTaskScheduler,
    SelectInGuiButtonText,
    SourceFolderChooserCaption,
    OutputFolderChooserCaption,
    SaveBeforeCloseText,
    SaveBeforeCloseCaption,
    ConfigSavedText,
    ConfigSavedCaption,
    ResetConfirmText,
    ResetConfirmCaption,
    InstallSucceedText,
    InstallSucceedCaption,
    UninstallSucceedText,
    UninstallSucceedCaption,
    ErrorInRenameText,
    ErrorInRenameCaption,
    RenameSucceedText,
    RenameSucceedCaption,
    InvalidSourcePatternText,
    InvalidSourcePatternCaption,
    InvalidOutputPatternText,
    InvalidOutputPatternCaption,
}

/// A language that the messages are written in.
#[derive(Clone, Copy, Debug, PartialEq, Eq, Structural)]
pub enum Language {
    English,
    Japanese,
}

/// The messages in the language of the user.
#[derive(Clone, Copy, Debug, PartialEq, Eq, Structural)]
pub struct Localization {
    pub language: Language,
}

/// The message in English.
pub open spec fn english_text(message: Message) -> Seq<char> {
    match message {
        Message::ErrorReadingConfigFile => "Error reading config file"@,
        Message::ClickOKToDiscordAndContinue => "Click OK to discord config & continue."@,
        Message::ErrorLoadingConfigFileCaption => "Error"@,
        Message::ErrorWritingConfigFileText => "Error writing config file"@,
        Message::ErrorWritingConfigFileCaption => "Error"@,
        Message::PathToVrcLogFolder => "Path to VRC Log Folder:"@,
        Message::VrcLogFilePattern => "VRC Log File Pattern (regex):"@,
        Message::KeepOriginal => "Keep Original"@,
        Message::CopyMoveLogFileTo => "Copy/Move Log file to:"@,
        Message::OutputFilePattern => "Output File Pattern (chrono's strftime):"@,
        Message::UseUcForFileName => "Use UTC Time for log name"@,
        Message::SaveConfig => "Save Config"@,
        Message::ResetConfig => "Reset Config"@,
        Message::ExecuteNow => "Execute Now"@,
        Message::InstallToTaskScheduler => "Install to Task Scheduler"@,
        Message::UninstallFromTaskScheduler => "Uninstall from Task Scheduler"@,
        Message::SelectInGuiButtonText => "Select Folder"@,
        Message::SourceFolderChooserCaption => "VRC Log Folder"@,
        Message::OutputFolderChooserCaption => "Output Folder"@,
        Message::SaveBeforeCloseText => "Save Config before Close?"@,
        Message::SaveBeforeCloseCaption => "Save?"@,
        Message::ConfigSavedText => "Config Saved!"@,
        Message::ConfigSavedCaption => "Config Saved!"@,
        Message::ResetConfirmText => "Are you sure want to reset config to default?\nYou cannot undo this operation"@,
        Message::ResetConfirmCaption => "Confirm?"@,
        Message::InstallSucceedText => "Installing VRC Log Manager to Task Scheduler succeed!"@,
        Message::InstallSucceedCaption => "Succeed!"@,
        Message::UninstallSucceedText => "Uninstalling VRC Log Manager from Task Scheduler succeed!"@,
        Message::UninstallSucceedCaption => "Succeed!"@,
        Message::ErrorInRenameText => "Error during renaming logs"@,
        Message::ErrorInRenameCaption => "Error!"@,
        Message::RenameSucceedText => "Renaming Log Succeed!"@,
        Message::RenameSucceedCaption => "Succeed!"@,
        Message::InvalidSourcePatternText => "Cannot save the config: Log file Pattern is not valid"@,
        Message::InvalidSourcePatternCaption => "Error"@,
        Message::InvalidOutputPatternText => "Cannot save the config: Output File Pattern is not valid"@,
        Message::InvalidOutputPatternCaption => "Error"@,
    }
}

/// The message in Japanese.
pub open spec fn japanese_text(message: Message) -> Seq<char> {
    match message {
        Message::ErrorReadingConfigFile => "設定をを読込中にエラーが発生しました"@,
        Message::ClickOKToDiscordAndContinue => "OKをクリックすると設定を破棄して続行します"@,
        Message::ErrorLoadingConfigFileCaption => "エラー"@,
        Message::ErrorWritingConfigFileText => "コンフィグを書き込み中にエラーが発生しました"@,
        Message::ErrorWritingConfigFileCaption => "エラー"@,
        Message::PathToVrcLogFolder => "VRCのログフォルダのパス"@,
        Message::VrcLogFilePattern => "VRCのログファイルのパターン(正規表現)"@,
        Message::KeepOriginal => "元ファイルを残す"@,
        Message::CopyMoveLogFileTo => "ログファイルの移動先"@,
        Message::OutputFilePattern => "ログファイルの出力形式(chronoのstrftime)"@,
        Message::UseUcForFileName => "UTCをログファイル名に使用する"@,
        Message::SaveConfig => "設定を保存"@,
        Message::ResetConfig => "設定を初期化"@,
        Message::ExecuteNow => "実行"@,
        Message::InstallToTaskScheduler => "Task Schedulerに登録"@,
        Message::UninstallFromTaskScheduler => "Task Schedulerの登録解除"@,
        Message::SelectInGuiButtonText => "フォルダを選択"@,
        Message::SourceFolderChooserCaption => "VRCのログフォルダ"@,
        Message::OutputFolderChooserCaption => "出力フォルダ"@,
        Message::SaveBeforeCloseText => "閉じる前に保存しますか"@,
        Message::SaveBeforeCloseCaption => "閉じる前に保存しますか"@,
        Message::ConfigSavedText => "コンフィグが保存されました"@,
        Message::ConfigSavedCaption => "コンフィグが保存されました"@,
        Message::ResetConfirmText => "本当に初期化しますか"@,
        Message::ResetConfirmCaption => "確認"@,
        Message::InstallSucceedText => "Task Schedulerへの登録が成功しました"@,
        Message::InstallSucceedCaption => "成功"@,
        Message::UninstallSucceedText => "Task Schedulerの登録解除が成功しました"@,
        Message::UninstallSucceedCaption => "成功"@,
        Message::ErrorInRenameText => "実行中にエラーが発生しました"@,
        Message::ErrorInRenameCaption => "エラー"@,
        Message::RenameSucceedText => "成功しました"@,
        Message::RenameSucceedCaption => "成功"@,
        Message::InvalidSourcePatternText => "設定の保存に失敗しました: VRCのログファイルのパターンが不正です"@,
        Message::InvalidSourcePatternCaption => "エラー"@,
        Message::InvalidOutputPatternText => "設定の保存に失敗しました: ログファイルの出力形式が不正です"@,
        Message::InvalidOutputPatternCaption => "エラー"@,
    }
}

/// The message in a language.
pub open spec fn message_text(language: Language, message: Message) -> Seq<char> {
    match language {
        Language::English => english_text(message),
        Language::Japanese => japanese_text(message),
    }
}

/// The part of a locale's name before its first `-`: the language.
pub open spec fn primary_tag(locale: Seq<char>) -> Seq<char> {
    match first_at(locale, 0, '-') {
        Some(dash) => locale.subrange(0, dash),
        None => locale,
    }
}

/// The language of the messages for a locale: Japanese for `ja` and for
/// every `ja-...`, English for the others.
pub open spec fn language_of(locale: Seq<char>) -> Language {
    if primary_tag(locale) == seq!['j', 'a'] {
        Language::Japanese
    } else {
        Language::English
    }
}

/// Picks the language of the messages by the name of the user's locale.
pub fn init_i18n(locale: &str) -> (localization: Localization)
    ensures
        localization.language == language_of(locale@),
{
    let chars = chars_of(locale);
    let end = match find_char(&chars, 0, '-') {
        Some(dash) => dash,
        None => chars.len(),
    };
    proof {
        lemma_first_at(chars@, 0, '-');
    }
    let japanese = end == 2 && chars[0] == 'j' && chars[1] == 'a';
    proof {
        let tag = primary_tag(locale@);
        assert(tag == chars@.subrange(0, end as int));
        if japanese {
            assert(tag =~= seq!['j', 'a']);
        } else if tag == seq!['j', 'a'] {
            assert(tag.len() == 2);
            assert(tag[0] == 'j' && tag[1] == 'a');
        }
    }
    Localization {
        language: if japanese {
            Language::Japanese
        } else {
            Language::English
        },
    }
}

/// The message in English.
pub fn localization_en(message: Message) -> (text: &'static str)
    ensures
        text@ == english_text(message),
{
    match message {
        Message::ErrorReadingConfigFile => "Error reading config file",
        Message::ClickOKToDiscordAndContinue => "Click OK to discord config & continue.",
        Message::ErrorLoadingConfigFileCaption => "Error",
        Message::ErrorWritingConfigFileText => "Error writing config file",
        Message::ErrorWritingConfigFileCaption => "Error",
        Message::PathToVrcLogFolder => "Path to VRC Log Folder:",
        Message::VrcLogFilePattern => "VRC Log File Pattern (regex):",
        Message::KeepOriginal => "Keep Original",
        Message::CopyMoveLogFileTo => "Copy/Move Log file to:",
        Message::OutputFilePattern => "Output File Pattern (chrono's strftime):",
        Message::UseUcForFileName => "Use UTC Time for log name",
        Message::SaveConfig => "Save Config",
        Message::ResetConfig => "Reset Config",
        Message::ExecuteNow => "Execute Now",
        Message::InstallToTaskScheduler => "Install to Task Scheduler",
        Message::UninstallFromTaskScheduler => "Uninstall from Task Scheduler",
        Message::SelectInGuiButtonText => "Select Folder",
        Message::SourceFolderChooserCaption => "VRC Log Folder",
        Message::OutputFolderChooserCaption => "Output Folder",
        Message::SaveBeforeCloseText => "Save Config before Close?",
        Message::SaveBeforeCloseCaption => "Save?",
        Message::ConfigSavedText => "Config Saved!",
        Message::ConfigSavedCaption => "Config Saved!",
        Message::ResetConfirmText => "Are you sure want to reset config to default?\nYou cannot undo this operation",
        Message::ResetConfirmCaption => "Confirm?",
        Message::InstallSucceedText => "Installing VRC Log Manager to Task Scheduler succeed!",
        Message::InstallSucceedCaption => "Succeed!",
        Message::UninstallSucceedText => "Uninstalling VRC Log Manager from Task Scheduler succeed!",
        Message::UninstallSucceedCaption => "Succeed!",
        Message::ErrorInRenameText => "Error during renaming logs",
        Message::ErrorInRenameCaption => "Error!",
        Message::RenameSucceedText => "Renaming Log Succeed!",
        Message::RenameSucceedCaption => "Succeed!",
        Message::InvalidSourcePatternText => "Cannot save the config: Log file Pattern is not valid",
        Message::InvalidSourcePatternCaption => "Error",
        Message::InvalidOutputPatternText => "Cannot save the config: Output File Pattern is not valid",
        Message::InvalidOutputPatternCaption => "Error",
    }
}

/// The message in Japanese.
pub fn localization_ja(message: Message) -> (text: &'static str)
    ensures
        text@ == japanese_text(message),
{
    match message {
        Message::ErrorReadingConfigFile => "設定をを読込中にエラーが発生しました",
        Message::ClickOKToDiscordAndContinue => "OKをクリックすると設定を破棄して続行します",
        Message::ErrorLoadingConfigFileCaption => "エラー",
        Message::ErrorWritingConfigFileText => "コンフィグを書き込み中にエラーが発生しました",
        Message::ErrorWritingConfigFileCaption => "エラー",
        Message::PathToVrcLogFolder => "VRCのログフォルダのパス",
        Message::VrcLogFilePattern => "VRCのログファイルのパターン(正規表現)",
        Message::KeepOriginal => "元ファイルを残す",
        Message::CopyMoveLogFileTo => "ログファイルの移動先",
        Message::OutputFilePattern => "ログファイルの出力形式(chronoのstrftime)",
        Message::UseUcForFileName => "UTCをログファイル名に使用する",
        Message::SaveConfig => "設定を保存",
        Message::ResetConfig => "設定を初期化",
        Message::ExecuteNow => "実行",
        Message::InstallToTaskScheduler => "Task Schedulerに登録",
        Message::UninstallFromTaskScheduler => "Task Schedulerの登録解除",
        Message::SelectInGuiButtonText => "フォルダを選択",
        Message::SourceFolderChooserCaption => "VRCのログフォルダ",
        Message::OutputFolderChooserCaption => "出力フォルダ",
        Message::SaveBeforeCloseText => "閉じる前に保存しますか",
        Message::SaveBeforeCloseCaption => "閉じる前に保存しますか",
        Message::ConfigSavedText => "コンフィグが保存されました",
        Message::ConfigSavedCaption => "コンフィグが保存されました",
        Message::ResetConfirmText => "本当に初期化しますか",
        Message::ResetConfirmCaption => "確認",
        Message::InstallSucceedText => "Task Schedulerへの登録が成功しました",
        Message::InstallSucceedCaption => "成功",
        Message::UninstallSucceedText => "Task Schedulerの登録解除が成功しました",
        Message::UninstallSucceedCaption => "成功",
        Message::ErrorInRenameText => "実行中にエラーが発生しました",
        Message::ErrorInRenameCaption => "エラー",
        Message::RenameSucceedText => "成功しました",
        Message::RenameSucceedCaption => "成功",
        Message::InvalidSourcePatternText => "設定の保存に失敗しました: VRCのログファイルのパターンが不正です",
        Message::InvalidSourcePatternCaption => "エラー",
        Message::InvalidOutputPatternText => "設定の保存に失敗しました: ログファイルの出力形式が不正です",
        Message::InvalidOutputPatternCaption => "エラー",
    }
}

/// The message in the language of the user.
pub fn get_message(localization: &Localization, message: Message) -> (text: &'static str)
    ensures
        text@ == message_text(localization.language, message),
{
    match localization.language {
        Language::English => localization_en(message),
        Language::Japanese => localization_ja(message),
    }
}

} // verus!
