use vrc_log_renamer::i18n::{
    get_message, init_i18n, localization_en, localization_ja, Language, Localization, Message,
};

#[test]
fn japanese_locales_get_japanese() {
    assert_eq!(init_i18n("ja").language, Language::Japanese);
    assert_eq!(init_i18n("ja-JP").language, Language::Japanese);
    assert_eq!(init_i18n("ja-").language, Language::Japanese);
}

#[test]
fn other_locales_get_english() {
    for locale in ["en-US", "en", "", "jao", "j", "JA", "-ja", "fr-ja", "jaa-JP"] {
        assert_eq!(init_i18n(locale).language, Language::English, "{}", locale);
    }
}

#[test]
fn messages_come_in_the_language_of_the_user() {
    let english = Localization { language: Language::English };
    let japanese = Localization { language: Language::Japanese };
    assert_eq!(get_message(&english, Message::SaveConfig), "Save Config");
    assert_eq!(get_message(&japanese, Message::SaveConfig), "設定を保存");
    assert_eq!(
        get_message(&english, Message::ResetConfirmText),
        "Are you sure want to reset config to default?\nYou cannot undo this operation"
    );
    assert_eq!(
        get_message(&english, Message::InvalidOutputPatternText),
        "Cannot save the config: Output File Pattern is not valid"
    );
    assert_eq!(
        get_message(&japanese, Message::InvalidSourcePatternText),
        "設定の保存に失敗しました: VRCのログファイルのパターンが不正です"
    );
    assert_eq!(localization_en(Message::SelectInGuiButtonText), "Select Folder");
    assert_eq!(localization_ja(Message::ExecuteNow), "実行");
    assert_eq!(localization_en(Message::ErrorReadingConfigFile), "Error reading config file");
    assert_eq!(localization_ja(Message::RenameSucceedCaption), "成功");
}
