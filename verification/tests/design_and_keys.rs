use music_generator::api_key::{
    accept_prompted_key, config_path, dirs_or_default, environment_key, key_from_submission, load_from_config,
    mask_key, resolve_api_key, ApiKeySource, Config, PromptError,
};
use music_generator::design::{sfx_preset_recipe, SfxPreset};

// ---------------------------------------------------------------------------
// SFX presets
// ---------------------------------------------------------------------------

#[test]
fn preset_recipes_are_found_by_alias() {
    let one_up = sfx_preset_recipe("1up").unwrap();
    assert!(one_up.contains("1-Up / extra life"));
    assert_eq!(sfx_preset_recipe("extralife"), Some(one_up));
    assert!(sfx_preset_recipe("coin").unwrap().contains("coin collect"));
    assert!(sfx_preset_recipe("ring").unwrap().contains("coin collect"));
    assert!(sfx_preset_recipe("pew").unwrap().contains("laser/shoot"));
    assert!(sfx_preset_recipe("levelcomplete").unwrap().contains("victory fanfare"));
    assert!(sfx_preset_recipe("menuopen").unwrap().contains("pause menu"));
    assert!(sfx_preset_recipe("portal").unwrap().contains("warp/teleport"));
    assert!(sfx_preset_recipe("ok").unwrap().contains("menu confirm"));
    assert!(sfx_preset_recipe("deny").unwrap().contains("menu cancel"));
}

#[test]
fn preset_lookup_ignores_case_and_separators() {
    let power_up = sfx_preset_recipe("powerup");
    assert!(power_up.is_some());
    assert_eq!(sfx_preset_recipe("Power Up"), power_up);
    assert_eq!(sfx_preset_recipe("POWER-UP"), power_up);
    assert_eq!(sfx_preset_recipe("_power__up_"), power_up);
    assert_eq!(sfx_preset_recipe("1-UP"), sfx_preset_recipe("1up"));
    assert_eq!(sfx_preset_recipe("Game Over"), sfx_preset_recipe("gameover"));
    assert_eq!(sfx_preset_recipe("Menu_Select"), sfx_preset_recipe("menuselect"));
}

#[test]
fn unknown_presets_have_no_recipe() {
    assert_eq!(sfx_preset_recipe("banjo"), None);
    assert_eq!(sfx_preset_recipe(""), None);
    assert_eq!(sfx_preset_recipe("---"), None);
    assert_eq!(sfx_preset_recipe("coin!"), None);
    assert_eq!(sfx_preset_recipe("c\u{00f6}in"), None);
    assert_eq!(sfx_preset_recipe("COIN\u{00c9}"), None);
}

#[test]
fn every_preset_has_its_own_recipe() {
    let presets = [
        SfxPreset::OneUp,
        SfxPreset::PowerUp,
        SfxPreset::Star,
        SfxPreset::Coin,
        SfxPreset::Item,
        SfxPreset::Jump,
        SfxPreset::Dash,
        SfxPreset::Land,
        SfxPreset::Shoot,
        SfxPreset::Explosion,
        SfxPreset::Hit,
        SfxPreset::Sword,
        SfxPreset::Death,
        SfxPreset::Victory,
        SfxPreset::MenuSelect,
        SfxPreset::MenuConfirm,
        SfxPreset::MenuCancel,
        SfxPreset::Pause,
        SfxPreset::Door,
        SfxPreset::Chest,
        SfxPreset::Warp,
    ];
    for (i, a) in presets.iter().enumerate() {
        assert!(a.recipe().starts_with("Generate "));
        assert!(a.recipe().contains("8-bit"));
        for b in presets.iter().skip(i + 1) {
            assert_ne!(a.recipe(), b.recipe());
        }
    }
}

// ---------------------------------------------------------------------------
// API key handling
// ---------------------------------------------------------------------------

#[test]
fn short_keys_are_fully_masked() {
    assert_eq!(mask_key(""), "****");
    assert_eq!(mask_key("abc"), "****");
    assert_eq!(mask_key("12345678"), "****");
}

#[test]
fn long_keys_show_only_their_ends() {
    assert_eq!(mask_key("123456789"), "1234...6789");
    assert_eq!(mask_key("AIzaSyD-secret-middle-XYZW"), "AIza...XYZW");
    assert_eq!(mask_key("\u{00e9}\u{00e9}abcde\u{00e9}\u{00e9}"), "\u{00e9}\u{00e9}...\u{00e9}\u{00e9}");
}

#[test]
fn config_file_lies_in_config_dir() {
    assert_eq!(config_path("/home/u/.config"), "/home/u/.config/music-generator.toml");
    assert_eq!(config_path("/home/u/.config/"), "/home/u/.config/music-generator.toml");
    assert_eq!(config_path("."), "./music-generator.toml");
    assert_eq!(config_path(""), "music-generator.toml");
}

#[test]
fn config_dir_is_dot_config_in_home() {
    assert_eq!(dirs_or_default(Some("/home/alice".into())), "/home/alice/.config");
    assert_eq!(dirs_or_default(Some("/home/alice/".into())), "/home/alice/.config");
    assert_eq!(dirs_or_default(None), ".");
    assert_eq!(
        config_path(&dirs_or_default(Some("/home/alice".into()))),
        "/home/alice/.config/music-generator.toml"
    );
}

#[test]
fn environment_key_must_not_be_empty() {
    assert_eq!(environment_key(Some("k".into())), Some("k".to_string()));
    assert_eq!(environment_key(Some(String::new())), None);
    assert_eq!(environment_key(None), None);
}

#[test]
fn recipes_are_synthesis_instructions() {
    let names = [
        "1up", "powerup", "star", "coin", "item", "jump", "dash", "land", "shoot", "explosion",
        "hit", "sword", "death", "victory", "select", "confirm", "cancel", "pause", "door",
        "chest", "warp",
    ];
    for name in names {
        let r = sfx_preset_recipe(name).unwrap();
        assert!(r.starts_with("Generate "));
        assert!(r.contains("wave"));
        assert!(r.to_ascii_lowercase().contains("duration"));
        assert!(r.contains("Pure 8-bit synthesis"));
    }
    assert_eq!(sfx_preset_recipe("hit"), sfx_preset_recipe("ouch"));
    assert_ne!(sfx_preset_recipe("hit"), sfx_preset_recipe("sword"));
}

#[test]
fn config_key_must_be_present_and_non_empty() {
    assert_eq!(load_from_config(None), None);
    assert_eq!(load_from_config(Some(Config { gemini_api_key: None })), None);
    assert_eq!(load_from_config(Some(Config { gemini_api_key: Some(String::new()) })), None);
    assert_eq!(
        load_from_config(Some(Config { gemini_api_key: Some("AIza-file".into()) })),
        Some("AIza-file".to_string())
    );
}

#[test]
fn environment_key_wins_over_config() {
    let config = || Some(Config { gemini_api_key: Some("from-file".into()) });
    assert!(matches!(
        resolve_api_key(Some("from-env".into()), config()),
        ApiKeySource::Environment(k) if k == "from-env"
    ));
    assert!(matches!(
        resolve_api_key(Some(String::new()), config()),
        ApiKeySource::ConfigFile(k) if k == "from-file"
    ));
    assert!(matches!(resolve_api_key(None, config()), ApiKeySource::ConfigFile(k) if k == "from-file"));
    assert!(matches!(resolve_api_key(None, None), ApiKeySource::Prompt));
    assert!(matches!(
        resolve_api_key(Some(String::new()), Some(Config { gemini_api_key: Some(String::new()) })),
        ApiKeySource::Prompt
    ));
}

#[test]
fn prompted_key_must_not_be_empty() {
    assert_eq!(accept_prompted_key(Some("AIza-typed".into())), Ok("AIza-typed".to_string()));
    assert_eq!(accept_prompted_key(Some(String::new())), Err(PromptError::EmptyKey));
    assert_eq!(accept_prompted_key(None), Err(PromptError::Cancelled));
    assert_eq!(PromptError::Cancelled.message(), "API key prompt was cancelled");
    assert_eq!(PromptError::EmptyKey.message(), "Empty API key provided");
    assert_eq!(key_from_submission(None), "");
    assert_eq!(key_from_submission(Some("k".into())), "k");
}
