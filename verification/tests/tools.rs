use base64::Engine;

use music_generator::design::{
    BGM_SYSTEM_PROMPT, LOOP_ALWAYS_DIRECTIVE, LOOP_SYSTEM_PROMPT, REMIX_SYSTEM_PROMPT,
    SFX_ONE_SHOT_DIRECTIVE, SFX_SYSTEM_PROMPT,
};
use music_generator::lyria::GeneratedAudio;
use music_generator::server::{
    audio_file_name, default_tempo_for_context, extension_for_mime, mime_for_path,
    output_dir_or_default, plan_loop, plan_music, plan_remix, plan_sfx, tool_contents,
    GenerateLoopParams, GenerateMusicParams, GenerateSfxParams, RemixMusicParams, SaveTarget,
    ToolContent,
};

#[test]
fn tempo_follows_game_context() {
    assert_eq!(default_tempo_for_context("battle"), "150");
    assert_eq!(default_tempo_for_context("boss"), "150");
    assert_eq!(default_tempo_for_context("overworld"), "120");
    assert_eq!(default_tempo_for_context("title-screen"), "120");
    assert_eq!(default_tempo_for_context("menu"), "90");
    assert_eq!(default_tempo_for_context("game-over"), "90");
    assert_eq!(default_tempo_for_context("dungeon"), "100");
    assert_eq!(default_tempo_for_context("mystery"), "100");
    assert_eq!(default_tempo_for_context("victory"), "130");
    assert_eq!(default_tempo_for_context("space"), "120");
    assert_eq!(default_tempo_for_context("Battle"), "120");
}

#[test]
fn extensions_follow_mime_types() {
    assert_eq!(extension_for_mime("audio/wav"), "wav");
    assert_eq!(extension_for_mime("audio/x-wav"), "wav");
    assert_eq!(extension_for_mime("audio/mpeg"), "mp3");
    assert_eq!(extension_for_mime("audio/mp3"), "mp3");
    assert_eq!(extension_for_mime("audio/ogg"), "ogg");
    assert_eq!(extension_for_mime("audio/flac"), "flac");
    assert_eq!(extension_for_mime("audio/aac"), "wav");
}

#[test]
fn mime_types_follow_file_names() {
    assert_eq!(mime_for_path("music/theme.wav"), "audio/wav");
    assert_eq!(mime_for_path("music/theme.mp3"), "audio/mpeg");
    assert_eq!(mime_for_path("theme.ogg"), "audio/ogg");
    assert_eq!(mime_for_path("theme.flac"), "audio/flac");
    assert_eq!(mime_for_path("theme.aiff"), "audio/wav");
    assert_eq!(mime_for_path("mp3"), "audio/wav");
    assert_eq!(mime_for_path(".mp3"), "audio/mpeg");
}

#[test]
fn remixed_file_keeps_its_extension() {
    for (path, ext) in [("a.wav", "wav"), ("a.mp3", "mp3"), ("a.ogg", "ogg"), ("a.flac", "flac"), ("a.mid", "wav")] {
        assert_eq!(extension_for_mime(mime_for_path(path)), ext);
    }
}

#[test]
fn saved_files_are_named_with_extension() {
    assert_eq!(audio_file_name("world1_bgm", "mp3"), "world1_bgm.mp3");
    assert_eq!(audio_file_name("", "wav"), ".wav");
}

#[test]
fn output_dir_defaults_to_music() {
    assert_eq!(output_dir_or_default(None), "./music");
    assert_eq!(output_dir_or_default(Some("/assets/audio".into())), "/assets/audio");
}

#[test]
fn music_plan_uses_overworld_defaults() {
    let plan = plan_music(&GenerateMusicParams {
        prompt: "upbeat overworld theme for a platformer".into(),
        context: None,
        tempo: None,
        save_as: None,
    });
    let expected = format!(
        "{}{}\nCompose an 8-bit chiptune track for a video game overworld scene at ~120 BPM: upbeat overworld theme for a platformer. \
         Use classic NES-style square wave, triangle wave, and noise channels. \
         The music should be immediately recognizable as retro video game music \
         with a strong, memorable melody.",
        BGM_SYSTEM_PROMPT, LOOP_ALWAYS_DIRECTIVE
    );
    assert_eq!(plan.prompt, expected);
    assert!(matches!(plan.save, SaveTarget::Skip));
    assert_eq!(plan.saved_label, "Music saved to: ");
    assert_eq!(plan.asset.asset_type, "bgm");
    assert_eq!(plan.asset.context, "overworld");
    assert_eq!(plan.asset.tempo, "120");
    assert_eq!(plan.asset.mood, "overworld");
    assert_eq!(plan.asset.prompt, "upbeat overworld theme for a platformer");
    assert_eq!(
        plan.asset.suggested_usage,
        "Background music for a overworld scene. Play as a looping BGM track \
         in your game engine's audio system. Tempo: ~120 BPM."
    );
    assert_eq!(plan.asset.file_path, None);
}

#[test]
fn music_plan_takes_context_tempo_and_name() {
    let plan = plan_music(&GenerateMusicParams {
        prompt: "boss fight".into(),
        context: Some("boss".into()),
        tempo: None,
        save_as: Some("boss_theme".into()),
    });
    assert!(plan.prompt.contains("video game boss scene at ~150 BPM: boss fight."));
    assert!(matches!(&plan.save, SaveTarget::OutputFile(n) if n == "boss_theme"));
    let plan = plan_music(&GenerateMusicParams {
        prompt: "calm".into(),
        context: Some("menu".into()),
        tempo: Some("140".into()),
        save_as: None,
    });
    assert!(plan.prompt.contains("menu scene at ~140 BPM: calm."));
    assert_eq!(plan.asset.tempo, "140");
}

#[test]
fn sfx_plan_defaults_to_action() {
    let plan = plan_sfx(&GenerateSfxParams {
        prompt: "coin collect".into(),
        category: None,
        save_as: Some("coin".into()),
    });
    let expected = format!(
        "{}{}{}\nCreate an 8-bit chiptune sound effect in the 'action' category: coin collect. \
         The sound should be short, punchy, and immediately recognizable. \
         Use classic NES-era synthesis techniques: square waves, noise bursts, \
         and rapid pitch sweeps.",
        SFX_SYSTEM_PROMPT, LOOP_ALWAYS_DIRECTIVE, SFX_ONE_SHOT_DIRECTIVE
    );
    assert_eq!(plan.prompt, expected);
    assert!(plan.prompt.contains("ONE-SHOT PLAYBACK REQUIREMENT"));
    assert!(matches!(&plan.save, SaveTarget::OutputFile(n) if n == "coin"));
    assert_eq!(plan.saved_label, "SFX saved to: ");
    assert_eq!(plan.asset.asset_type, "sfx");
    assert_eq!(plan.asset.context, "action");
    assert_eq!(plan.asset.tempo, "n/a");
    assert_eq!(
        plan.asset.suggested_usage,
        "Sound effect for 'action' events. Trigger on the corresponding \
         game event. Keep volume balanced relative to background music."
    );
}

#[test]
fn loop_plan_defaults_to_calm_thirty_seconds() {
    let plan = plan_loop(&GenerateLoopParams {
        prompt: "peaceful village theme with gentle melody".into(),
        mood: None,
        duration: None,
        save_as: None,
    });
    let expected = format!(
        "{}{}\nCompose a seamlessly looping 8-bit chiptune track, approximately 30 \
         seconds long, with a calm mood: peaceful village theme with gentle melody. \
         The track MUST loop perfectly \u{2014} the ending must flow naturally back \
         into the beginning with no click or gap. Use NES-style synthesis.",
        LOOP_SYSTEM_PROMPT, LOOP_ALWAYS_DIRECTIVE
    );
    assert_eq!(plan.prompt, expected);
    assert_eq!(plan.saved_label, "Loop saved to: ");
    assert_eq!(plan.asset.asset_type, "loop");
    assert_eq!(plan.asset.context, "background");
    assert_eq!(plan.asset.tempo, "auto");
    assert_eq!(plan.asset.mood, "calm");
    assert_eq!(
        plan.asset.suggested_usage,
        "Seamlessly looping background music (~30s). Set your audio \
         engine to loop mode. Mood: calm."
    );
}

#[test]
fn remix_plan_overwrites_original_unless_named() {
    let remix = plan_remix(&RemixMusicParams {
        audio_path: "music/world1_bgm.mp3".into(),
        instruction: "make it more intense".into(),
        save_as: None,
    });
    assert_eq!(
        remix.plan.prompt,
        format!("{}{}\nmake it more intense", REMIX_SYSTEM_PROMPT, LOOP_ALWAYS_DIRECTIVE)
    );
    assert_eq!(remix.source_mime, "audio/mpeg");
    assert!(matches!(&remix.plan.save, SaveTarget::Overwrite(p) if p == "music/world1_bgm.mp3"));
    assert_eq!(remix.plan.saved_label, "Remixed audio saved to: ");
    assert_eq!(remix.plan.asset.asset_type, "remix");
    assert_eq!(remix.plan.asset.context, "edited");
    assert_eq!(remix.plan.asset.tempo, "original");
    assert_eq!(remix.plan.asset.mood, "original");
    assert_eq!(
        remix.plan.asset.suggested_usage,
        "Remixed version of music/world1_bgm.mp3. Drop-in replacement for the original \
         asset in your game build."
    );
    let named = plan_remix(&RemixMusicParams {
        audio_path: "boss.ogg".into(),
        instruction: "slower".into(),
        save_as: Some("boss_slow".into()),
    });
    assert!(matches!(&named.plan.save, SaveTarget::OutputFile(n) if n == "boss_slow"));
    assert_eq!(named.source_mime, "audio/ogg");
}

#[test]
fn every_prompt_carries_the_loop_directive() {
    let music = plan_music(&GenerateMusicParams { prompt: "x".into(), context: None, tempo: None, save_as: None });
    let sfx = plan_sfx(&GenerateSfxParams { prompt: "x".into(), category: None, save_as: None });
    let lp = plan_loop(&GenerateLoopParams { prompt: "x".into(), mood: None, duration: None, save_as: None });
    let remix = plan_remix(&RemixMusicParams { audio_path: "a.wav".into(), instruction: "x".into(), save_as: None });
    for (prompt, system) in [
        (&music.prompt, BGM_SYSTEM_PROMPT),
        (&sfx.prompt, SFX_SYSTEM_PROMPT),
        (&lp.prompt, LOOP_SYSTEM_PROMPT),
        (&remix.plan.prompt, REMIX_SYSTEM_PROMPT),
    ] {
        assert!(prompt.starts_with(&format!("{system}{LOOP_ALWAYS_DIRECTIVE}")));
    }
}

#[test]
fn saved_music_is_announced_then_returned() {
    let plan = plan_music(&GenerateMusicParams {
        prompt: "theme".into(),
        context: Some("victory".into()),
        tempo: None,
        save_as: Some("win".into()),
    });
    let audio = GeneratedAudio {
        audio_data: vec![1, 2, 3, 4],
        mime_type: "audio/mpeg".into(),
        description: Some("A short fanfare".into()),
    };
    let contents = tool_contents(plan, Some("./music/win.mp3".into()), audio);
    assert_eq!(contents.len(), 4);
    assert!(matches!(&contents[0], ToolContent::Text(t) if t == "Music saved to: ./music/win.mp3"));
    match &contents[1] {
        ToolContent::Audio { data, mime_type } => {
            assert_eq!(data, &base64::engine::general_purpose::STANDARD.encode([1u8, 2, 3, 4]));
            assert_eq!(data, "AQIDBA==");
            assert_eq!(mime_type, "audio/mpeg");
        }
        _ => panic!("second item should be the audio"),
    }
    assert!(matches!(&contents[2], ToolContent::Text(t) if t == "A short fanfare"));
    match &contents[3] {
        ToolContent::Asset(a) => {
            assert_eq!(a.file_path.as_deref(), Some("./music/win.mp3"));
            assert_eq!(a.tempo, "130");
        }
        _ => panic!("last item should be the asset context"),
    }
}

#[test]
fn unsaved_sfx_returns_audio_and_asset_only() {
    let plan = plan_sfx(&GenerateSfxParams { prompt: "jump".into(), category: None, save_as: None });
    let audio = GeneratedAudio { audio_data: vec![], mime_type: "audio/wav".into(), description: None };
    let contents = tool_contents(plan, None, audio);
    assert_eq!(contents.len(), 2);
    assert!(matches!(&contents[0], ToolContent::Audio { data, .. } if data.is_empty()));
    assert!(matches!(&contents[1], ToolContent::Asset(a) if a.file_path.is_none()));
}
