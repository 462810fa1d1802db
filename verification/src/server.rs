//! What the four music tools decide: the parameters they accept, the
//! prompts they send, where their audio goes, and what they hand back.

use vstd::prelude::*;
use vstd::string::*;

use crate::design::{
    BGM_SYSTEM_PROMPT, LOOP_ALWAYS_DIRECTIVE, LOOP_SYSTEM_PROMPT, REMIX_SYSTEM_PROMPT,
    SFX_ONE_SHOT_DIRECTIVE, SFX_SYSTEM_PROMPT,
};
use crate::codec::{base64_encoding, encode_base64};
use crate::lyria::GeneratedAudio;
use crate::text::{contains_chars, opt_chars, seq_ends_with, starts_with_chars, str_ends_with, str_eq};

verus! {

// --- Parameter types ---

/// Parameters for generating 8-bit video game background music.
pub struct GenerateMusicParams {
    /// Description of the music to generate.
    pub prompt: String,
    /// Game context such as `overworld`, `battle` or `menu`; `overworld` when absent.
    pub context: Option<String>,
    /// Target tempo in BPM; chosen from the context when absent.
    pub tempo: Option<String>,
    /// File name (without extension) to save the audio as.
    pub save_as: Option<String>,
}

/// Parameters for generating an 8-bit sound effect.
pub struct GenerateSfxParams {
    /// Description of the sound effect.
    pub prompt: String,
    /// Sound effect category; `action` when absent.
    pub category: Option<String>,
    /// File name (without extension) to save the sound effect as.
    pub save_as: Option<String>,
}

/// Parameters for generating a seamlessly looping background music track.
pub struct GenerateLoopParams {
    /// Description of the looping music.
    pub prompt: String,
    /// Mood of the loop; `calm` when absent.
    pub mood: Option<String>,
    /// Target loop duration in seconds; `30` when absent.
    pub duration: Option<String>,
    /// File name (without extension) to save the loop as.
    pub save_as: Option<String>,
}

/// Parameters for remixing or editing an existing audio track.
pub struct RemixMusicParams {
    /// Path to the existing audio file to remix.
    pub audio_path: String,
    /// Description of the changes to make.
    pub instruction: String,
    /// File name (without extension) to save the remix as; the original file
    /// is overwritten when absent.
    pub save_as: Option<String>,
}

// --- Asset context returned to callers for game build integration ---

/// What a tool tells its caller about the asset it produced.
pub struct AssetContext {
    pub asset_type: &'static str,
    pub context: String,
    pub prompt: String,
    pub tempo: String,
    pub mood: String,
    pub suggested_usage: String,
    pub file_path: Option<String>,
}

/// The characters that an `AssetContext` holds.
#[verifier::ext_equal]
pub struct AssetContextView {
    pub asset_type: Seq<char>,
    pub context: Seq<char>,
    pub prompt: Seq<char>,
    pub tempo: Seq<char>,
    pub mood: Seq<char>,
    pub suggested_usage: Seq<char>,
    pub file_path: Option<Seq<char>>,
}

impl View for AssetContext {
    type V = AssetContextView;

    open spec fn view(&self) -> AssetContextView {
        AssetContextView {
            asset_type: self.asset_type@,
            context: self.context@,
            prompt: self.prompt@,
            tempo: self.tempo@,
            mood: self.mood@,
            suggested_usage: self.suggested_usage@,
            file_path: opt_chars(self.file_path),
        }
    }
}

/// One item of what a tool returns to its caller.
pub enum ToolContent {
    /// A line of text.
    Text(String),
    /// Audio, base64-encoded, with its MIME type.
    Audio { data: String, mime_type: String },
    /// The asset context, handed over as pretty-printed JSON.
    Asset(AssetContext),
}

/// The characters that a `ToolContent` holds.
pub enum ToolContentView {
    Text(Seq<char>),
    Audio { data: Seq<char>, mime_type: Seq<char> },
    Asset(AssetContextView),
}

impl View for ToolContent {
    type V = ToolContentView;

    open spec fn view(&self) -> ToolContentView {
        match self {
            ToolContent::Text(t) => ToolContentView::Text(t@),
            ToolContent::Audio { data, mime_type } => ToolContentView::Audio {
                data: data@,
                mime_type: mime_type@,
            },
            ToolContent::Asset(a) => ToolContentView::Asset(a@),
        }
    }
}

/// The characters of a list of tool contents.
pub open spec fn contents_view(v: Seq<ToolContent>) -> Seq<ToolContentView> {
    v.map_values(|c: ToolContent| c@)
}

// --- Small decisions ---

/// The tempo (in BPM) that suits a game context.
pub open spec fn default_tempo_spec(context: Seq<char>) -> Seq<char> {
    if context == "battle"@ || context == "boss"@ {
        "150"@
    } else if context == "overworld"@ || context == "title-screen"@ {
        "120"@
    } else if context == "menu"@ || context == "game-over"@ {
        "90"@
    } else if context == "dungeon"@ || context == "mystery"@ {
        "100"@
    } else if context == "victory"@ {
        "130"@
    } else {
        "120"@
    }
}

/// The default tempo (in BPM) for a game context.
pub fn default_tempo_for_context(context: &str) -> (r: &'static str)
    ensures
        r@ == default_tempo_spec(context@),
{
    if str_eq(context, "battle") || str_eq(context, "boss") {
        "150"
    } else if str_eq(context, "overworld") || str_eq(context, "title-screen") {
        "120"
    } else if str_eq(context, "menu") || str_eq(context, "game-over") {
        "90"
    } else if str_eq(context, "dungeon") || str_eq(context, "mystery") {
        "100"
    } else if str_eq(context, "victory") {
        "130"
    } else {
        "120"
    }
}

/// The file extension under which audio of a MIME type is saved.
pub open spec fn extension_spec(mime: Seq<char>) -> Seq<char> {
    if mime == "audio/wav"@ || mime == "audio/x-wav"@ {
        "wav"@
    } else if mime == "audio/mpeg"@ || mime == "audio/mp3"@ {
        "mp3"@
    } else if mime == "audio/ogg"@ {
        "ogg"@
    } else if mime == "audio/flac"@ {
        "flac"@
    } else {
        "wav"@
    }
}

/// The file extension for audio of the given MIME type; `wav` for unknown types.
pub fn extension_for_mime(mime: &str) -> (r: &'static str)
    ensures
        r@ == extension_spec(mime@),
{
    if str_eq(mime, "audio/wav") || str_eq(mime, "audio/x-wav") {
        "wav"
    } else if str_eq(mime, "audio/mpeg") || str_eq(mime, "audio/mp3") {
        "mp3"
    } else if str_eq(mime, "audio/ogg") {
        "ogg"
    } else if str_eq(mime, "audio/flac") {
        "flac"
    } else {
        "wav"
    }
}

/// The MIME type of an audio file, judged by the end of its path.
pub open spec fn mime_for_path_spec(path: Seq<char>) -> Seq<char> {
    if seq_ends_with(path, ".wav"@) {
        "audio/wav"@
    } else if seq_ends_with(path, ".mp3"@) {
        "audio/mpeg"@
    } else if seq_ends_with(path, ".ogg"@) {
        "audio/ogg"@
    } else if seq_ends_with(path, ".flac"@) {
        "audio/flac"@
    } else {
        "audio/wav"@
    }
}

/// The MIME type of the audio file at `path`; `audio/wav` when the
/// extension is not recognized.
pub fn mime_for_path(path: &str) -> (r: &'static str)
    ensures
        r@ == mime_for_path_spec(path@),
{
    if str_ends_with(path, ".wav") {
        "audio/wav"
    } else if str_ends_with(path, ".mp3") {
        "audio/mpeg"
    } else if str_ends_with(path, ".ogg") {
        "audio/ogg"
    } else if str_ends_with(path, ".flac") {
        "audio/flac"
    } else {
        "audio/wav"
    }
}

/// The name of the file that audio is saved in: `{filename}.{extension}`.
pub fn audio_file_name(filename: &str, extension: &str) -> (r: String)
    ensures
        r@ == filename@ + "."@ + extension@,
{
    let mut name = String::from_str(filename);
    name.append(".");
    name.append(extension);
    name
}

/// What the server tells clients about itself.
pub const SERVER_INSTRUCTIONS: &'static str = "8-Bit Music Generator MCP server - generates chiptune video game music, sound effects, and looping tracks using Lyria 3 as the audio generation backend.";

/// Where generated audio goes when `MUSIC_OUTPUT_DIR` is not set.
pub const DEFAULT_OUTPUT_DIR: &'static str = "./music";

/// The output directory: `MUSIC_OUTPUT_DIR` when it is set, else `./music`.
pub fn output_dir_or_default(music_output_dir: Option<String>) -> (r: String)
    ensures
        r@ == (match opt_chars(music_output_dir) {
            Some(d) => d,
            None => DEFAULT_OUTPUT_DIR@,
        }),
{
    match music_output_dir {
        Some(d) => d,
        None => String::from_str(DEFAULT_OUTPUT_DIR),
    }
}

// --- Prompt wording ---

/// Opens the task of a background-music prompt, before the game context.
pub const MUSIC_TASK_OPENING: &'static str = "\nCompose an 8-bit chiptune track for a video game ";
/// Comes between the game context and the tempo of a music prompt.
pub const MUSIC_TASK_TEMPO: &'static str = " scene at ~";
/// Comes between the tempo and the caller's description in a music prompt.
pub const MUSIC_TASK_SUBJECT: &'static str = " BPM: ";
/// Closes a music prompt.
pub const MUSIC_TASK_CLOSING: &'static str = ". Use classic NES-style square wave, triangle wave, and noise channels. The music should be immediately recognizable as retro video game music with a strong, memorable melody.";

/// Opens the task of a sound-effect prompt, before the category.
pub const SFX_TASK_OPENING: &'static str = "\nCreate an 8-bit chiptune sound effect in the '";
/// Comes between the category and the caller's description in a sound-effect prompt.
pub const SFX_TASK_SUBJECT: &'static str = "' category: ";
/// Closes a sound-effect prompt.
pub const SFX_TASK_CLOSING: &'static str = ". The sound should be short, punchy, and immediately recognizable. Use classic NES-era synthesis techniques: square waves, noise bursts, and rapid pitch sweeps.";

/// Opens the task of a loop prompt, before the duration.
pub const LOOP_TASK_OPENING: &'static str = "\nCompose a seamlessly looping 8-bit chiptune track, approximately ";
/// Comes between the duration and the mood of a loop prompt.
pub const LOOP_TASK_MOOD: &'static str = " seconds long, with a ";
/// Comes between the mood and the caller's description in a loop prompt.
pub const LOOP_TASK_SUBJECT: &'static str = " mood: ";
/// Closes a loop prompt.
pub const LOOP_TASK_CLOSING: &'static str = ". The track MUST loop perfectly \u{2014} the ending must flow naturally back into the beginning with no click or gap. Use NES-style synthesis.";

/// Separates the design prompts of a remix from the caller's instruction.
pub const REMIX_TASK_OPENING: &'static str = "\n";

/// The prompt sent for background music.
pub open spec fn music_prompt_spec(prompt: Seq<char>, context: Seq<char>, tempo: Seq<char>) -> Seq<char> {
    BGM_SYSTEM_PROMPT@ + LOOP_ALWAYS_DIRECTIVE@ + MUSIC_TASK_OPENING@ + context + MUSIC_TASK_TEMPO@
        + tempo + MUSIC_TASK_SUBJECT@ + prompt + MUSIC_TASK_CLOSING@
}

/// The prompt sent for a sound effect: besides the loop directive it carries
/// the one-shot directive, so that the effect decays to silence.
pub open spec fn sfx_prompt_spec(prompt: Seq<char>, category: Seq<char>) -> Seq<char> {
    SFX_SYSTEM_PROMPT@ + LOOP_ALWAYS_DIRECTIVE@ + SFX_ONE_SHOT_DIRECTIVE@ + SFX_TASK_OPENING@
        + category + SFX_TASK_SUBJECT@ + prompt + SFX_TASK_CLOSING@
}

/// The prompt sent for a loop.
pub open spec fn loop_prompt_spec(prompt: Seq<char>, mood: Seq<char>, duration: Seq<char>) -> Seq<char> {
    LOOP_SYSTEM_PROMPT@ + LOOP_ALWAYS_DIRECTIVE@ + LOOP_TASK_OPENING@ + duration + LOOP_TASK_MOOD@
        + mood + LOOP_TASK_SUBJECT@ + prompt + LOOP_TASK_CLOSING@
}

/// The instruction sent for a remix.
pub open spec fn remix_prompt_spec(instruction: Seq<char>) -> Seq<char> {
    REMIX_SYSTEM_PROMPT@ + LOOP_ALWAYS_DIRECTIVE@ + REMIX_TASK_OPENING@ + instruction
}

/// Builds the prompt for background music.
pub fn music_prompt(prompt: &str, context: &str, tempo: &str) -> (r: String)
    ensures
        r@ == music_prompt_spec(prompt@, context@, tempo@),
{
    let mut s = String::from_str(BGM_SYSTEM_PROMPT);
    s.append(LOOP_ALWAYS_DIRECTIVE);
    s.append(MUSIC_TASK_OPENING);
    s.append(context);
    s.append(MUSIC_TASK_TEMPO);
    s.append(tempo);
    s.append(MUSIC_TASK_SUBJECT);
    s.append(prompt);
    s.append(MUSIC_TASK_CLOSING);
    s
}

/// Builds the prompt for a sound effect.
pub fn sfx_prompt(prompt: &str, category: &str) -> (r: String)
    ensures
        r@ == sfx_prompt_spec(prompt@, category@),
{
    let mut s = String::from_str(SFX_SYSTEM_PROMPT);
    s.append(LOOP_ALWAYS_DIRECTIVE);
    s.append(SFX_ONE_SHOT_DIRECTIVE);
    s.append(SFX_TASK_OPENING);
    s.append(category);
    s.append(SFX_TASK_SUBJECT);
    s.append(prompt);
    s.append(SFX_TASK_CLOSING);
    s
}

/// Builds the prompt for a loop.
pub fn loop_prompt(prompt: &str, mood: &str, duration: &str) -> (r: String)
    ensures
        r@ == loop_prompt_spec(prompt@, mood@, duration@),
{
    let mut s = String::from_str(LOOP_SYSTEM_PROMPT);
    s.append(LOOP_ALWAYS_DIRECTIVE);
    s.append(LOOP_TASK_OPENING);
    s.append(duration);
    s.append(LOOP_TASK_MOOD);
    s.append(mood);
    s.append(LOOP_TASK_SUBJECT);
    s.append(prompt);
    s.append(LOOP_TASK_CLOSING);
    s
}

/// Builds the instruction for a remix.
pub fn remix_prompt(instruction: &str) -> (r: String)
    ensures
        r@ == remix_prompt_spec(instruction@),
{
    let mut s = String::from_str(REMIX_SYSTEM_PROMPT);
    s.append(LOOP_ALWAYS_DIRECTIVE);
    s.append(REMIX_TASK_OPENING);
    s.append(instruction);
    s
}

// --- Tool plans ---

/// Labels the path that generated music was saved to.
pub const MUSIC_SAVED_LABEL: &'static str = "Music saved to: ";
/// Labels the path that a sound effect was saved to.
pub const SFX_SAVED_LABEL: &'static str = "SFX saved to: ";
/// Labels the path that a loop was saved to.
pub const LOOP_SAVED_LABEL: &'static str = "Loop saved to: ";
/// Labels the path that a remix was saved to.
pub const REMIX_SAVED_LABEL: &'static str = "Remixed audio saved to: ";

/// Opens the suggested usage of background music, before the context.
pub const MUSIC_USAGE_OPENING: &'static str = "Background music for a ";
/// Comes between the context and the tempo in the usage of background music.
pub const MUSIC_USAGE_TEMPO: &'static str = " scene. Play as a looping BGM track in your game engine's audio system. Tempo: ~";
/// Closes the usage of background music.
pub const MUSIC_USAGE_CLOSING: &'static str = " BPM.";
/// Opens the suggested usage of a sound effect, before the category.
pub const SFX_USAGE_OPENING: &'static str = "Sound effect for '";
/// Closes the usage of a sound effect.
pub const SFX_USAGE_CLOSING: &'static str = "' events. Trigger on the corresponding game event. Keep volume balanced relative to background music.";
/// Opens the suggested usage of a loop, before the duration.
pub const LOOP_USAGE_OPENING: &'static str = "Seamlessly looping background music (~";
/// Comes between the duration and the mood in the usage of a loop.
pub const LOOP_USAGE_MOOD: &'static str = "s). Set your audio engine to loop mode. Mood: ";
/// Closes the usage of a loop.
pub const LOOP_USAGE_CLOSING: &'static str = ".";
/// Opens the suggested usage of a remix, before the original's path.
pub const REMIX_USAGE_OPENING: &'static str = "Remixed version of ";
/// Closes the usage of a remix.
pub const REMIX_USAGE_CLOSING: &'static str = ". Drop-in replacement for the original asset in your game build.";

/// Where a tool saves the audio it received.
pub enum SaveTarget {
    /// The audio is not saved.
    Skip,
    /// The audio is saved in the output directory under this name (without extension).
    OutputFile(String),
    /// The audio replaces the file at this path.
    Overwrite(String),
}

/// The characters that a `SaveTarget` holds.
pub enum SaveTargetView {
    Skip,
    OutputFile(Seq<char>),
    Overwrite(Seq<char>),
}

impl View for SaveTarget {
    type V = SaveTargetView;

    open spec fn view(&self) -> SaveTargetView {
        match self {
            SaveTarget::Skip => SaveTargetView::Skip,
            SaveTarget::OutputFile(n) => SaveTargetView::OutputFile(n@),
            SaveTarget::Overwrite(p) => SaveTargetView::Overwrite(p@),
        }
    }
}

/// What a tool does before and after it asks for audio: the prompt it sends,
/// where it saves the answer, how it labels the saved path, and what it says
/// about the asset.
pub struct ToolPlan {
    pub prompt: String,
    pub save: SaveTarget,
    pub saved_label: &'static str,
    pub asset: AssetContext,
}

/// The characters that a `ToolPlan` holds.
#[verifier::ext_equal]
pub struct ToolPlanView {
    pub prompt: Seq<char>,
    pub save: SaveTargetView,
    pub saved_label: Seq<char>,
    pub asset: AssetContextView,
}

impl View for ToolPlan {
    type V = ToolPlanView;

    open spec fn view(&self) -> ToolPlanView {
        ToolPlanView {
            prompt: self.prompt@,
            save: self.save@,
            saved_label: self.saved_label@,
            asset: self.asset@,
        }
    }
}

/// An optional value, or a default when it is absent.
pub open spec fn or_default(o: Option<Seq<char>>, default: Seq<char>) -> Seq<char> {
    match o {
        Some(v) => v,
        None => default,
    }
}

/// Where the generating tools save: in the output directory when a name is given.
pub open spec fn generated_save_spec(save_as: Option<Seq<char>>) -> SaveTargetView {
    match save_as {
        Some(n) => SaveTargetView::OutputFile(n),
        None => SaveTargetView::Skip,
    }
}

fn generated_save(save_as: &Option<String>) -> (r: SaveTarget)
    ensures
        r@ == generated_save_spec(opt_chars(*save_as)),
{
    match save_as {
        Some(n) => SaveTarget::OutputFile(n.clone()),
        None => SaveTarget::Skip,
    }
}

fn or_default_string(o: &Option<String>, default: &str) -> (r: String)
    ensures
        r@ == or_default(opt_chars(*o), default@),
{
    match o {
        Some(v) => v.clone(),
        None => String::from_str(default),
    }
}

/// The plan of `generate_music`: the context defaults to `overworld`, the
/// tempo to the one that suits the context.
pub open spec fn music_plan_spec(
    prompt: Seq<char>,
    context: Option<Seq<char>>,
    tempo: Option<Seq<char>>,
    save_as: Option<Seq<char>>,
) -> ToolPlanView {
    let context = or_default(context, "overworld"@);
    let tempo = or_default(tempo, default_tempo_spec(context));
    ToolPlanView {
        prompt: music_prompt_spec(prompt, context, tempo),
        save: generated_save_spec(save_as),
        saved_label: MUSIC_SAVED_LABEL@,
        asset: AssetContextView {
            asset_type: "bgm"@,
            context,
            prompt,
            tempo,
            mood: context,
            suggested_usage: MUSIC_USAGE_OPENING@ + context + MUSIC_USAGE_TEMPO@ + tempo
                + MUSIC_USAGE_CLOSING@,
            file_path: None,
        },
    }
}

/// Plans `generate_music`.
pub fn plan_music(params: &GenerateMusicParams) -> (r: ToolPlan)
    ensures
        r@ == music_plan_spec(
            params.prompt@,
            opt_chars(params.context),
            opt_chars(params.tempo),
            opt_chars(params.save_as),
        ),
{
    let context = or_default_string(&params.context, "overworld");
    let tempo = match &params.tempo {
        Some(t) => t.clone(),
        None => String::from_str(default_tempo_for_context(context.as_str())),
    };
    let prompt = music_prompt(params.prompt.as_str(), context.as_str(), tempo.as_str());
    let mut usage = String::from_str(MUSIC_USAGE_OPENING);
    usage.append(context.as_str());
    usage.append(MUSIC_USAGE_TEMPO);
    usage.append(tempo.as_str());
    usage.append(MUSIC_USAGE_CLOSING);
    ToolPlan {
        prompt,
        save: generated_save(&params.save_as),
        saved_label: MUSIC_SAVED_LABEL,
        asset: AssetContext {
            asset_type: "bgm",
            context: context.clone(),
            prompt: params.prompt.clone(),
            tempo,
            mood: context,
            suggested_usage: usage,
            file_path: None,
        },
    }
}

/// The plan of `generate_sfx`: the category defaults to `action`.
pub open spec fn sfx_plan_spec(
    prompt: Seq<char>,
    category: Option<Seq<char>>,
    save_as: Option<Seq<char>>,
) -> ToolPlanView {
    let category = or_default(category, "action"@);
    ToolPlanView {
        prompt: sfx_prompt_spec(prompt, category),
        save: generated_save_spec(save_as),
        saved_label: SFX_SAVED_LABEL@,
        asset: AssetContextView {
            asset_type: "sfx"@,
            context: category,
            prompt,
            tempo: "n/a"@,
            mood: category,
            suggested_usage: SFX_USAGE_OPENING@ + category + SFX_USAGE_CLOSING@,
            file_path: None,
        },
    }
}

/// Plans `generate_sfx`.
pub fn plan_sfx(params: &GenerateSfxParams) -> (r: ToolPlan)
    ensures
        r@ == sfx_plan_spec(params.prompt@, opt_chars(params.category), opt_chars(params.save_as)),
{
    let category = or_default_string(&params.category, "action");
    let prompt = sfx_prompt(params.prompt.as_str(), category.as_str());
    let mut usage = String::from_str(SFX_USAGE_OPENING);
    usage.append(category.as_str());
    usage.append(SFX_USAGE_CLOSING);
    ToolPlan {
        prompt,
        save: generated_save(&params.save_as),
        saved_label: SFX_SAVED_LABEL,
        asset: AssetContext {
            asset_type: "sfx",
            context: category.clone(),
            prompt: params.prompt.clone(),
            tempo: String::from_str("n/a"),
            mood: category,
            suggested_usage: usage,
            file_path: None,
        },
    }
}

/// The plan of `generate_loop`: the mood defaults to `calm`, the duration to `30`.
pub open spec fn loop_plan_spec(
    prompt: Seq<char>,
    mood: Option<Seq<char>>,
    duration: Option<Seq<char>>,
    save_as: Option<Seq<char>>,
) -> ToolPlanView {
    let mood = or_default(mood, "calm"@);
    let duration = or_default(duration, "30"@);
    ToolPlanView {
        prompt: loop_prompt_spec(prompt, mood, duration),
        save: generated_save_spec(save_as),
        saved_label: LOOP_SAVED_LABEL@,
        asset: AssetContextView {
            asset_type: "loop"@,
            context: "background"@,
            prompt,
            tempo: "auto"@,
            mood,
            suggested_usage: LOOP_USAGE_OPENING@ + duration + LOOP_USAGE_MOOD@ + mood
                + LOOP_USAGE_CLOSING@,
            file_path: None,
        },
    }
}

/// Plans `generate_loop`.
pub fn plan_loop(params: &GenerateLoopParams) -> (r: ToolPlan)
    ensures
        r@ == loop_plan_spec(
            params.prompt@,
            opt_chars(params.mood),
            opt_chars(params.duration),
            opt_chars(params.save_as),
        ),
{
    let mood = or_default_string(&params.mood, "calm");
    let duration = or_default_string(&params.duration, "30");
    let prompt = loop_prompt(params.prompt.as_str(), mood.as_str(), duration.as_str());
    let mut usage = String::from_str(LOOP_USAGE_OPENING);
    usage.append(duration.as_str());
    usage.append(LOOP_USAGE_MOOD);
    usage.append(mood.as_str());
    usage.append(LOOP_USAGE_CLOSING);
    ToolPlan {
        prompt,
        save: generated_save(&params.save_as),
        saved_label: LOOP_SAVED_LABEL,
        asset: AssetContext {
            asset_type: "loop",
            context: String::from_str("background"),
            prompt: params.prompt.clone(),
            tempo: String::from_str("auto"),
            mood,
            suggested_usage: usage,
            file_path: None,
        },
    }
}

/// What `remix_music` does: its plan, and the MIME type of the audio it edits.
pub struct RemixPlan {
    pub plan: ToolPlan,
    pub source_mime: &'static str,
}

/// The plan of `remix_music`: the remix replaces the original file unless a
/// name to save it under is given.
pub open spec fn remix_plan_spec(
    audio_path: Seq<char>,
    instruction: Seq<char>,
    save_as: Option<Seq<char>>,
) -> ToolPlanView {
    ToolPlanView {
        prompt: remix_prompt_spec(instruction),
        save: match save_as {
            Some(n) => SaveTargetView::OutputFile(n),
            None => SaveTargetView::Overwrite(audio_path),
        },
        saved_label: REMIX_SAVED_LABEL@,
        asset: AssetContextView {
            asset_type: "remix"@,
            context: "edited"@,
            prompt: instruction,
            tempo: "original"@,
            mood: "original"@,
            suggested_usage: REMIX_USAGE_OPENING@ + audio_path + REMIX_USAGE_CLOSING@,
            file_path: None,
        },
    }
}

/// Plans `remix_music`.
pub fn plan_remix(params: &RemixMusicParams) -> (r: RemixPlan)
    ensures
        r.plan@ == remix_plan_spec(
            params.audio_path@,
            params.instruction@,
            opt_chars(params.save_as),
        ),
        r.source_mime@ == mime_for_path_spec(params.audio_path@),
{
    let prompt = remix_prompt(params.instruction.as_str());
    let save = match &params.save_as {
        Some(n) => SaveTarget::OutputFile(n.clone()),
        None => SaveTarget::Overwrite(params.audio_path.clone()),
    };
    let mut usage = String::from_str(REMIX_USAGE_OPENING);
    usage.append(params.audio_path.as_str());
    usage.append(REMIX_USAGE_CLOSING);
    RemixPlan {
        plan: ToolPlan {
            prompt,
            save,
            saved_label: REMIX_SAVED_LABEL,
            asset: AssetContext {
                asset_type: "remix",
                context: String::from_str("edited"),
                prompt: params.instruction.clone(),
                tempo: String::from_str("original"),
                mood: String::from_str("original"),
                suggested_usage: usage,
                file_path: None,
            },
        },
        source_mime: mime_for_path(params.audio_path.as_str()),
    }
}

// --- What a tool hands back ---

/// What a tool returns: the saved path under its label when the audio was
/// saved, the audio itself, its description when there is one, and the asset
/// context, whose file path is the saved path.
pub open spec fn contents_spec(
    plan: ToolPlanView,
    saved_path: Option<Seq<char>>,
    encoded_audio: Seq<char>,
    mime_type: Seq<char>,
    description: Option<Seq<char>>,
) -> Seq<ToolContentView> {
    let saved = match saved_path {
        Some(p) => seq![ToolContentView::Text(plan.saved_label + p)],
        None => Seq::empty(),
    };
    let described = match description {
        Some(d) => seq![ToolContentView::Text(d)],
        None => Seq::empty(),
    };
    let asset = AssetContextView {
        asset_type: plan.asset.asset_type,
        context: plan.asset.context,
        prompt: plan.asset.prompt,
        tempo: plan.asset.tempo,
        mood: plan.asset.mood,
        suggested_usage: plan.asset.suggested_usage,
        file_path: saved_path,
    };
    saved + seq![ToolContentView::Audio { data: encoded_audio, mime_type }] + described + seq![
        ToolContentView::Asset(asset),
    ]
}

/// Assembles what a tool returns from audio that is already base64-encoded.
pub fn contents_from_encoded(
    plan: ToolPlan,
    saved_path: Option<String>,
    encoded_audio: String,
    mime_type: String,
    description: Option<String>,
) -> (r: Vec<ToolContent>)
    ensures
        contents_view(r@) == contents_spec(
            plan@,
            opt_chars(saved_path),
            encoded_audio@,
            mime_type@,
            opt_chars(description),
        ),
{
    let ghost spec_r = contents_spec(
        plan@,
        opt_chars(saved_path),
        encoded_audio@,
        mime_type@,
        opt_chars(description),
    );
    let mut contents: Vec<ToolContent> = Vec::new();
    let file_path = match &saved_path {
        Some(p) => {
            let mut line = String::from_str(plan.saved_label);
            line.append(p.as_str());
            contents.push(ToolContent::Text(line));
            Some(p.clone())
        },
        None => None,
    };
    contents.push(ToolContent::Audio { data: encoded_audio, mime_type });
    match description {
        Some(d) => {
            contents.push(ToolContent::Text(d));
        },
        None => {},
    }
    let asset = AssetContext {
        asset_type: plan.asset.asset_type,
        context: plan.asset.context,
        prompt: plan.asset.prompt,
        tempo: plan.asset.tempo,
        mood: plan.asset.mood,
        suggested_usage: plan.asset.suggested_usage,
        file_path,
    };
    contents.push(ToolContent::Asset(asset));
    assert(contents_view(contents@) =~= spec_r);
    contents
}

/// Assembles what a tool returns from the audio it received; the audio is
/// handed back base64-encoded.
pub fn tool_contents(plan: ToolPlan, saved_path: Option<String>, audio: GeneratedAudio) -> (r:
    Vec<ToolContent>)
    requires
        (audio.audio_data@.len() + 2) / 3 * 4 <= usize::MAX,
    ensures
        contents_view(r@) == contents_spec(
            plan@,
            opt_chars(saved_path),
            base64_encoding(audio.audio_data@),
            audio.mime_type@,
            opt_chars(audio.description),
        ),
{
    let encoded = encode_base64(audio.audio_data.as_slice());
    contents_from_encoded(plan, saved_path, encoded, audio.mime_type, audio.description)
}

// --- Laws ---

proof fn lemma_prefix_and_part(a: Seq<char>, b: Seq<char>, c: Seq<char>, d: Seq<char>)
    ensures
        starts_with_chars(a + b + c + d, a + b),
        contains_chars(a + b + c + d, b),
        contains_chars(a + b + c + d, d),
{
    let s = a + b + c + d;
    assert(s.take((a + b).len() as int) =~= a + b);
    assert(s.subrange(a.len() as int, (a.len() + b.len()) as int) =~= b);
    let k: int = (a.len() + b.len() + c.len()) as int;
    assert(s.subrange(k, k + d.len()) =~= d);
}

proof fn lemma_extend(x: Seq<char>, y: Seq<char>, n: Seq<char>)
    ensures
        starts_with_chars(x, n) ==> starts_with_chars(x + y, n),
        contains_chars(x, n) ==> contains_chars(x + y, n),
{
    if starts_with_chars(x, n) {
        assert((x + y).take(n.len() as int) =~= x.take(n.len() as int));
    }
    if contains_chars(x, n) {
        let i = choose|i: int| 0 <= i && i + n.len() <= x.len() && #[trigger] x.subrange(i, i + n.len()) == n;
        assert((x + y).subrange(i, i + n.len()) =~= x.subrange(i, i + n.len()));
    }
}

proof fn lemma_prompt_shape(
    system: Seq<char>,
    opening: Seq<char>,
    prompt: Seq<char>,
    closing: Seq<char>,
    full: Seq<char>,
)
    requires
        full =~= system + LOOP_ALWAYS_DIRECTIVE@ + opening + prompt + closing,
    ensures
        starts_with_chars(full, system + LOOP_ALWAYS_DIRECTIVE@),
        contains_chars(full, LOOP_ALWAYS_DIRECTIVE@),
        contains_chars(full, prompt),
{
    let x = system + LOOP_ALWAYS_DIRECTIVE@ + opening + prompt;
    lemma_prefix_and_part(system, LOOP_ALWAYS_DIRECTIVE@, opening, prompt);
    lemma_extend(x, closing, system + LOOP_ALWAYS_DIRECTIVE@);
    lemma_extend(x, closing, LOOP_ALWAYS_DIRECTIVE@);
    lemma_extend(x, closing, prompt);
}

/// Every prompt that a tool sends begins with the tool's design prompt
/// followed by the universal loop directive, and carries the caller's own
/// description (or, for a remix, instruction) word for word; a sound-effect
/// prompt also carries the one-shot directive.
pub proof fn law_every_prompt_carries_loop_directive(
    prompt: Seq<char>,
    context: Seq<char>,
    tempo: Seq<char>,
    category: Seq<char>,
    mood: Seq<char>,
    duration: Seq<char>,
)
    ensures
        starts_with_chars(music_prompt_spec(prompt, context, tempo), BGM_SYSTEM_PROMPT@ + LOOP_ALWAYS_DIRECTIVE@),
        contains_chars(music_prompt_spec(prompt, context, tempo), LOOP_ALWAYS_DIRECTIVE@),
        contains_chars(music_prompt_spec(prompt, context, tempo), prompt),
        starts_with_chars(sfx_prompt_spec(prompt, category), SFX_SYSTEM_PROMPT@ + LOOP_ALWAYS_DIRECTIVE@),
        contains_chars(sfx_prompt_spec(prompt, category), LOOP_ALWAYS_DIRECTIVE@),
        contains_chars(sfx_prompt_spec(prompt, category), prompt),
        contains_chars(sfx_prompt_spec(prompt, category), SFX_ONE_SHOT_DIRECTIVE@),
        starts_with_chars(loop_prompt_spec(prompt, mood, duration), LOOP_SYSTEM_PROMPT@ + LOOP_ALWAYS_DIRECTIVE@),
        contains_chars(loop_prompt_spec(prompt, mood, duration), LOOP_ALWAYS_DIRECTIVE@),
        contains_chars(loop_prompt_spec(prompt, mood, duration), prompt),
        starts_with_chars(remix_prompt_spec(prompt), REMIX_SYSTEM_PROMPT@ + LOOP_ALWAYS_DIRECTIVE@),
        contains_chars(remix_prompt_spec(prompt), LOOP_ALWAYS_DIRECTIVE@),
        contains_chars(remix_prompt_spec(prompt), prompt),
{
    lemma_prompt_shape(
        BGM_SYSTEM_PROMPT@,
        MUSIC_TASK_OPENING@ + context + MUSIC_TASK_TEMPO@ + tempo + MUSIC_TASK_SUBJECT@,
        prompt,
        MUSIC_TASK_CLOSING@,
        music_prompt_spec(prompt, context, tempo),
    );
    lemma_prompt_shape(
        SFX_SYSTEM_PROMPT@,
        SFX_ONE_SHOT_DIRECTIVE@ + SFX_TASK_OPENING@ + category + SFX_TASK_SUBJECT@,
        prompt,
        SFX_TASK_CLOSING@,
        sfx_prompt_spec(prompt, category),
    );
    lemma_prefix_and_part(
        SFX_SYSTEM_PROMPT@ + LOOP_ALWAYS_DIRECTIVE@,
        SFX_ONE_SHOT_DIRECTIVE@,
        SFX_TASK_OPENING@ + category + SFX_TASK_SUBJECT@ + prompt,
        SFX_TASK_CLOSING@,
    );
    assert(sfx_prompt_spec(prompt, category) =~= SFX_SYSTEM_PROMPT@ + LOOP_ALWAYS_DIRECTIVE@
        + SFX_ONE_SHOT_DIRECTIVE@ + (SFX_TASK_OPENING@ + category + SFX_TASK_SUBJECT@ + prompt)
        + SFX_TASK_CLOSING@);
    lemma_prompt_shape(
        LOOP_SYSTEM_PROMPT@,
        LOOP_TASK_OPENING@ + duration + LOOP_TASK_MOOD@ + mood + LOOP_TASK_SUBJECT@,
        prompt,
        LOOP_TASK_CLOSING@,
        loop_prompt_spec(prompt, mood, duration),
    );
    lemma_prompt_shape(
        REMIX_SYSTEM_PROMPT@,
        REMIX_TASK_OPENING@,
        prompt,
        Seq::empty(),
        remix_prompt_spec(prompt),
    );
}

/// Whatever parameters a tool is called with, the prompt it plans to send
/// begins with its design prompt and the universal loop directive and carries
/// the caller's description or instruction.
pub proof fn law_every_tool_plan_carries_loop_directive(
    prompt: Seq<char>,
    context: Option<Seq<char>>,
    tempo: Option<Seq<char>>,
    category: Option<Seq<char>>,
    mood: Option<Seq<char>>,
    duration: Option<Seq<char>>,
    save_as: Option<Seq<char>>,
    audio_path: Seq<char>,
)
    ensures
        starts_with_chars(music_plan_spec(prompt, context, tempo, save_as).prompt, BGM_SYSTEM_PROMPT@ + LOOP_ALWAYS_DIRECTIVE@),
        contains_chars(music_plan_spec(prompt, context, tempo, save_as).prompt, prompt),
        starts_with_chars(sfx_plan_spec(prompt, category, save_as).prompt, SFX_SYSTEM_PROMPT@ + LOOP_ALWAYS_DIRECTIVE@),
        contains_chars(sfx_plan_spec(prompt, category, save_as).prompt, prompt),
        contains_chars(sfx_plan_spec(prompt, category, save_as).prompt, SFX_ONE_SHOT_DIRECTIVE@),
        starts_with_chars(loop_plan_spec(prompt, mood, duration, save_as).prompt, LOOP_SYSTEM_PROMPT@ + LOOP_ALWAYS_DIRECTIVE@),
        contains_chars(loop_plan_spec(prompt, mood, duration, save_as).prompt, prompt),
        starts_with_chars(remix_plan_spec(audio_path, prompt, save_as).prompt, REMIX_SYSTEM_PROMPT@ + LOOP_ALWAYS_DIRECTIVE@),
        contains_chars(remix_plan_spec(audio_path, prompt, save_as).prompt, prompt),
{
    let c = or_default(context, "overworld"@);
    law_every_prompt_carries_loop_directive(
        prompt,
        c,
        or_default(tempo, default_tempo_spec(c)),
        or_default(category, "action"@),
        or_default(mood, "calm"@),
        or_default(duration, "30"@),
    );
}

/// The file extension under which audio is saved after a remix agrees with
/// the extension of the file it was read from: `.mp3`, `.ogg` and `.flac`
/// keep theirs, everything else becomes `wav`.
pub proof fn law_remix_keeps_file_extension(path: Seq<char>)
    ensures
        extension_spec(mime_for_path_spec(path)) == (if seq_ends_with(path, ".wav"@) {
            "wav"@
        } else if seq_ends_with(path, ".mp3"@) {
            "mp3"@
        } else if seq_ends_with(path, ".ogg"@) {
            "ogg"@
        } else if seq_ends_with(path, ".flac"@) {
            "flac"@
        } else {
            "wav"@
        }),
{
    reveal_strlit("audio/wav");
    reveal_strlit("audio/x-wav");
    reveal_strlit("audio/mpeg");
    reveal_strlit("audio/mp3");
    reveal_strlit("audio/ogg");
    reveal_strlit("audio/flac");
    assert("audio/ogg"@[6] != "audio/wav"@[6]);
    assert("audio/ogg"@[6] != "audio/mp3"@[6]);
    assert("audio/flac"@[6] != "audio/mpeg"@[6]);
}

/// Audio is saved under one of four extensions, whatever its MIME type.
pub proof fn law_extension_is_known(mime: Seq<char>)
    ensures
        extension_spec(mime) == "wav"@ || extension_spec(mime) == "mp3"@
            || extension_spec(mime) == "ogg"@ || extension_spec(mime) == "flac"@,
{
}

/// What a tool returns always holds the audio with its MIME type, then the
/// description when there is one, and ends with the plan's asset context
/// (the caller's own prompt, context, tempo, mood and usage) whose file path
/// is the path the audio was saved to; the saved path is announced first,
/// under the plan's label, exactly when there is one.
pub proof fn law_contents_shape(
    plan: ToolPlanView,
    saved_path: Option<Seq<char>>,
    encoded_audio: Seq<char>,
    mime_type: Seq<char>,
    description: Option<Seq<char>>,
)
    ensures
        ({
            let c = contents_spec(plan, saved_path, encoded_audio, mime_type, description);
            let audio_at: int = if saved_path is Some { 1 } else { 0 };
            &&& c.len() == audio_at + 2 + (if description is Some { 1int } else { 0 })
            &&& c[audio_at] == ToolContentView::Audio { data: encoded_audio, mime_type }
            &&& (c.last() matches ToolContentView::Asset(a) && a.file_path == saved_path)
            &&& (c.last() matches ToolContentView::Asset(a) && {
                &&& a.asset_type == plan.asset.asset_type
                &&& a.context == plan.asset.context
                &&& a.prompt == plan.asset.prompt
                &&& a.tempo == plan.asset.tempo
                &&& a.mood == plan.asset.mood
                &&& a.suggested_usage == plan.asset.suggested_usage
            })
            &&& (saved_path matches Some(p) ==> c[0] == ToolContentView::Text(plan.saved_label + p))
            &&& (description matches Some(d) ==> c[audio_at + 1] == ToolContentView::Text(d))
        }),
{
}

// --- What each plan does with its parameters ---

proof fn lemma_contains_mid(pre: Seq<char>, mid: Seq<char>, post: Seq<char>)
    ensures
        contains_chars(pre + mid + post, mid),
{
    let s = pre + mid + post;
    assert(s.subrange(pre.len() as int, (pre.len() + mid.len()) as int) =~= mid);
}

proof fn lemma_starts_with_front(front: Seq<char>, rest: Seq<char>)
    ensures
        starts_with_chars(front + rest, front),
{
    assert((front + rest).take(front.len() as int) =~= front);
}

/// `generate_music` names, in its prompt, the game context and tempo of its
/// plan followed by the caller's description. A given context is the plan's
/// context and mood (`overworld` otherwise); a given tempo is the plan's tempo,
/// whatever the context (the context's default otherwise). The asset context
/// carries the caller's own description, and the audio is saved exactly when
/// a name is given.
pub proof fn law_music_plan_follows_params(
    prompt: Seq<char>,
    context: Option<Seq<char>>,
    tempo: Option<Seq<char>>,
    save_as: Option<Seq<char>>,
)
    ensures
        ({
            let p = music_plan_spec(prompt, context, tempo, save_as);
            &&& context matches Some(c) ==> p.asset.context == c
            &&& context is None ==> p.asset.context == "overworld"@
            &&& tempo matches Some(t) ==> p.asset.tempo == t
            &&& tempo is None ==> p.asset.tempo == default_tempo_spec(p.asset.context)
            &&& p.asset.mood == p.asset.context
            &&& contains_chars(
                p.prompt,
                "video game "@ + p.asset.context + " scene at ~"@ + p.asset.tempo + " BPM: "@
                    + prompt + ". "@,
            )
            &&& p.asset.prompt == prompt
            &&& p.asset.asset_type == "bgm"@
            &&& p.asset.file_path is None
            &&& starts_with_chars(
                p.asset.suggested_usage,
                "Background music for a "@ + p.asset.context + " scene. "@,
            )
            &&& seq_ends_with(p.asset.suggested_usage, "Tempo: ~"@ + p.asset.tempo + " BPM."@)
            &&& save_as matches Some(n) ==> p.save == SaveTargetView::OutputFile(n)
            &&& save_as is None ==> p.save == SaveTargetView::Skip
        }),
{
    let p = music_plan_spec(prompt, context, tempo, save_as);
    let ctx = p.asset.context;
    let t = p.asset.tempo;
    reveal_strlit("\nCompose an 8-bit chiptune track for a video game ");
    reveal_strlit("video game ");
    reveal_strlit(" scene at ~");
    reveal_strlit(" BPM: ");
    reveal_strlit(". Use classic NES-style square wave, triangle wave, and noise channels. The music should be immediately recognizable as retro video game music with a strong, memorable melody.");
    reveal_strlit(". ");
    let o = MUSIC_TASK_OPENING@;
    let cl = MUSIC_TASK_CLOSING@;
    assert(o =~= o.take(39) + "video game "@);
    assert(cl =~= ". "@ + cl.skip(2));
    let needle = "video game "@ + ctx + " scene at ~"@ + t + " BPM: "@ + prompt + ". "@;
    assert(p.prompt =~= (BGM_SYSTEM_PROMPT@ + LOOP_ALWAYS_DIRECTIVE@ + o.take(39)) + needle + cl.skip(2));
    lemma_contains_mid(BGM_SYSTEM_PROMPT@ + LOOP_ALWAYS_DIRECTIVE@ + o.take(39), needle, cl.skip(2));
    reveal_strlit("Background music for a ");
    reveal_strlit(" scene. Play as a looping BGM track in your game engine's audio system. Tempo: ~");
    reveal_strlit(" scene. ");
    reveal_strlit("Tempo: ~");
    reveal_strlit(" BPM.");
    let ut = MUSIC_USAGE_TEMPO@;
    assert(ut =~= " scene. "@ + ut.subrange(8, ut.len() - 8) + "Tempo: ~"@);
    let front = "Background music for a "@ + ctx + " scene. "@;
    let back = "Tempo: ~"@ + t + " BPM."@;
    assert(p.asset.suggested_usage =~= front + (ut.subrange(8, ut.len() - 8) + back));
    lemma_starts_with_front(front, ut.subrange(8, ut.len() - 8) + back);
    assert(p.asset.suggested_usage.subrange(
        p.asset.suggested_usage.len() - back.len(),
        p.asset.suggested_usage.len() as int,
    ) =~= back);
}

/// `generate_sfx` names, in its prompt, the category of its plan followed by
/// the caller's description, and carries the one-shot directive. A given
/// category is the plan's context and mood (`action` otherwise); the asset
/// context carries the caller's own description.
pub proof fn law_sfx_plan_follows_params(
    prompt: Seq<char>,
    category: Option<Seq<char>>,
    save_as: Option<Seq<char>>,
)
    ensures
        ({
            let p = sfx_plan_spec(prompt, category, save_as);
            &&& category matches Some(c) ==> p.asset.context == c
            &&& category is None ==> p.asset.context == "action"@
            &&& p.asset.mood == p.asset.context
            &&& p.asset.tempo == "n/a"@
            &&& contains_chars(p.prompt, "in the '"@ + p.asset.context + "' category: "@ + prompt + ". "@)
            &&& contains_chars(p.prompt, SFX_ONE_SHOT_DIRECTIVE@)
            &&& p.asset.prompt == prompt
            &&& p.asset.asset_type == "sfx"@
            &&& p.asset.file_path is None
            &&& starts_with_chars(p.asset.suggested_usage, "Sound effect for '"@ + p.asset.context + "' events."@)
            &&& save_as matches Some(n) ==> p.save == SaveTargetView::OutputFile(n)
            &&& save_as is None ==> p.save == SaveTargetView::Skip
        }),
{
    let p = sfx_plan_spec(prompt, category, save_as);
    let c = p.asset.context;
    law_every_prompt_carries_loop_directive(prompt, c, c, c, c, c);
    reveal_strlit("\nCreate an 8-bit chiptune sound effect in the '");
    reveal_strlit("in the '");
    reveal_strlit("' category: ");
    reveal_strlit(". The sound should be short, punchy, and immediately recognizable. Use classic NES-era synthesis techniques: square waves, noise bursts, and rapid pitch sweeps.");
    reveal_strlit(". ");
    let o = SFX_TASK_OPENING@;
    let cl = SFX_TASK_CLOSING@;
    assert(o =~= o.take(39) + "in the '"@);
    assert(cl =~= ". "@ + cl.skip(2));
    let pre = SFX_SYSTEM_PROMPT@ + LOOP_ALWAYS_DIRECTIVE@ + SFX_ONE_SHOT_DIRECTIVE@ + o.take(39);
    let needle = "in the '"@ + c + "' category: "@ + prompt + ". "@;
    assert(p.prompt =~= pre + needle + cl.skip(2));
    lemma_contains_mid(pre, needle, cl.skip(2));
    reveal_strlit("Sound effect for '");
    reveal_strlit("' events. Trigger on the corresponding game event. Keep volume balanced relative to background music.");
    reveal_strlit("' events.");
    let uc = SFX_USAGE_CLOSING@;
    assert(uc =~= "' events."@ + uc.skip(9));
    let front = "Sound effect for '"@ + c + "' events."@;
    assert(p.asset.suggested_usage =~= front + uc.skip(9));
    lemma_starts_with_front(front, uc.skip(9));
}

/// `generate_loop` asks, in its prompt, for the requested duration (30
/// seconds when none is given) and the plan's mood, followed by the caller's
/// description, and its usage repeats them. A given mood is the plan's mood
/// (`calm` otherwise); the asset context carries the caller's description.
pub proof fn law_loop_plan_follows_params(
    prompt: Seq<char>,
    mood: Option<Seq<char>>,
    duration: Option<Seq<char>>,
    save_as: Option<Seq<char>>,
)
    ensures
        ({
            let p = loop_plan_spec(prompt, mood, duration, save_as);
            let d = match duration {
                Some(d) => d,
                None => "30"@,
            };
            &&& mood matches Some(m) ==> p.asset.mood == m
            &&& mood is None ==> p.asset.mood == "calm"@
            &&& contains_chars(
                p.prompt,
                "approximately "@ + d + " seconds long, with a "@ + p.asset.mood + " mood: "@
                    + prompt + ". "@,
            )
            &&& contains_chars(p.asset.suggested_usage, "(~"@ + d + "s). "@)
            &&& seq_ends_with(p.asset.suggested_usage, "Mood: "@ + p.asset.mood + "."@)
            &&& p.asset.prompt == prompt
            &&& p.asset.asset_type == "loop"@
            &&& p.asset.context == "background"@
            &&& p.asset.tempo == "auto"@
            &&& p.asset.file_path is None
            &&& save_as matches Some(n) ==> p.save == SaveTargetView::OutputFile(n)
            &&& save_as is None ==> p.save == SaveTargetView::Skip
        }),
{
    let p = loop_plan_spec(prompt, mood, duration, save_as);
    let d = match duration {
        Some(d) => d,
        None => "30"@,
    };
    let m = p.asset.mood;
    reveal_strlit("\nCompose a seamlessly looping 8-bit chiptune track, approximately ");
    reveal_strlit("approximately ");
    reveal_strlit(" seconds long, with a ");
    reveal_strlit(" mood: ");
    reveal_strlit(". The track MUST loop perfectly \u{2014} the ending must flow naturally back into the beginning with no click or gap. Use NES-style synthesis.");
    reveal_strlit(". ");
    let o = LOOP_TASK_OPENING@;
    let cl = LOOP_TASK_CLOSING@;
    assert(o =~= o.take(52) + "approximately "@);
    assert(cl =~= ". "@ + cl.skip(2));
    let pre = LOOP_SYSTEM_PROMPT@ + LOOP_ALWAYS_DIRECTIVE@ + o.take(52);
    let needle = "approximately "@ + d + " seconds long, with a "@ + m + " mood: "@ + prompt + ". "@;
    assert(p.prompt =~= pre + needle + cl.skip(2));
    lemma_contains_mid(pre, needle, cl.skip(2));
    reveal_strlit("Seamlessly looping background music (~");
    reveal_strlit("(~");
    reveal_strlit("s). Set your audio engine to loop mode. Mood: ");
    reveal_strlit("s). ");
    reveal_strlit("Mood: ");
    reveal_strlit(".");
    let uo = LOOP_USAGE_OPENING@;
    let um = LOOP_USAGE_MOOD@;
    assert(uo =~= uo.take(36) + "(~"@);
    assert(um =~= "s). "@ + um.subrange(4, 40) + "Mood: "@);
    let mid = "(~"@ + d + "s). "@;
    let back = "Mood: "@ + m + "."@;
    let u = p.asset.suggested_usage;
    assert(u =~= uo.take(36) + mid + (um.subrange(4, 40) + back));
    lemma_contains_mid(uo.take(36), mid, um.subrange(4, 40) + back);
    assert(u.subrange(u.len() - back.len(), u.len() as int) =~= back);
}

/// `remix_music` overwrites the file it read unless a name is given, sends
/// the caller's instruction at the end of its prompt, hands the instruction
/// back in the asset context, and names the file it read in the usage.
pub proof fn law_remix_plan_follows_params(
    audio_path: Seq<char>,
    instruction: Seq<char>,
    save_as: Option<Seq<char>>,
)
    ensures
        ({
            let p = remix_plan_spec(audio_path, instruction, save_as);
            &&& save_as matches Some(n) ==> p.save == SaveTargetView::OutputFile(n)
            &&& save_as is None ==> p.save == SaveTargetView::Overwrite(audio_path)
            &&& seq_ends_with(p.prompt, "\n"@ + instruction)
            &&& p.asset.prompt == instruction
            &&& p.asset.asset_type == "remix"@
            &&& p.asset.context == "edited"@
            &&& p.asset.tempo == "original"@
            &&& p.asset.mood == "original"@
            &&& p.asset.file_path is None
            &&& starts_with_chars(p.asset.suggested_usage, "Remixed version of "@ + audio_path + ". "@)
        }),
{
    let p = remix_plan_spec(audio_path, instruction, save_as);
    reveal_strlit("\n");
    let tail = "\n"@ + instruction;
    assert(p.prompt =~= REMIX_SYSTEM_PROMPT@ + LOOP_ALWAYS_DIRECTIVE@ + tail);
    assert(p.prompt.subrange(p.prompt.len() - tail.len(), p.prompt.len() as int) =~= tail);
    reveal_strlit("Remixed version of ");
    reveal_strlit(". Drop-in replacement for the original asset in your game build.");
    reveal_strlit(". ");
    let rc = REMIX_USAGE_CLOSING@;
    assert(rc =~= ". "@ + rc.skip(2));
    let front = "Remixed version of "@ + audio_path + ". "@;
    assert(p.asset.suggested_usage =~= front + rc.skip(2));
    lemma_starts_with_front(front, rc.skip(2));
}

/// The tempo table: battle and boss 150 BPM, overworld and title screen 120,
/// menu and game over 90, dungeon and mystery 100, victory 130, and 120 for
/// any other context.
pub proof fn law_default_tempo_table(context: Seq<char>)
    ensures
        default_tempo_spec("battle"@) == "150"@,
        default_tempo_spec("boss"@) == "150"@,
        default_tempo_spec("overworld"@) == "120"@,
        default_tempo_spec("title-screen"@) == "120"@,
        default_tempo_spec("menu"@) == "90"@,
        default_tempo_spec("game-over"@) == "90"@,
        default_tempo_spec("dungeon"@) == "100"@,
        default_tempo_spec("mystery"@) == "100"@,
        default_tempo_spec("victory"@) == "130"@,
        (context != "battle"@ && context != "boss"@ && context != "overworld"@ && context != "title-screen"@ && context != "menu"@ && context != "game-over"@ && context != "dungeon"@ && context != "mystery"@ && context != "victory"@) ==> default_tempo_spec(context) == "120"@,
{
    reveal_strlit("battle");
    reveal_strlit("boss");
    reveal_strlit("overworld");
    reveal_strlit("title-screen");
    reveal_strlit("menu");
    reveal_strlit("game-over");
    reveal_strlit("dungeon");
    reveal_strlit("mystery");
    reveal_strlit("victory");
    assert("boss"@.len() != "battle"@.len());
    assert("overworld"@.len() != "battle"@.len());
    assert("overworld"@.len() != "boss"@.len());
    assert("title-screen"@.len() != "battle"@.len());
    assert("title-screen"@.len() != "boss"@.len());
    assert("title-screen"@.len() != "overworld"@.len());
    assert("menu"@.len() != "battle"@.len());
    assert("menu"@ != "boss"@) by {
        assert("menu"@[0] != "boss"@[0]);
    }
    assert("menu"@.len() != "overworld"@.len());
    assert("menu"@.len() != "title-screen"@.len());
    assert("game-over"@.len() != "battle"@.len());
    assert("game-over"@.len() != "boss"@.len());
    assert("game-over"@ != "overworld"@) by {
        assert("game-over"@[0] != "overworld"@[0]);
    }
    assert("game-over"@.len() != "title-screen"@.len());
    assert("game-over"@.len() != "menu"@.len());
    assert("dungeon"@.len() != "battle"@.len());
    assert("dungeon"@.len() != "boss"@.len());
    assert("dungeon"@.len() != "overworld"@.len());
    assert("dungeon"@.len() != "title-screen"@.len());
    assert("dungeon"@.len() != "menu"@.len());
    assert("dungeon"@.len() != "game-over"@.len());
    assert("mystery"@.len() != "battle"@.len());
    assert("mystery"@.len() != "boss"@.len());
    assert("mystery"@.len() != "overworld"@.len());
    assert("mystery"@.len() != "title-screen"@.len());
    assert("mystery"@.len() != "menu"@.len());
    assert("mystery"@.len() != "game-over"@.len());
    assert("mystery"@ != "dungeon"@) by {
        assert("mystery"@[0] != "dungeon"@[0]);
    }
    assert("victory"@.len() != "battle"@.len());
    assert("victory"@.len() != "boss"@.len());
    assert("victory"@.len() != "overworld"@.len());
    assert("victory"@.len() != "title-screen"@.len());
    assert("victory"@.len() != "menu"@.len());
    assert("victory"@.len() != "game-over"@.len());
    assert("victory"@ != "dungeon"@) by {
        assert("victory"@[0] != "dungeon"@[0]);
    }
    assert("victory"@ != "mystery"@) by {
        assert("victory"@[0] != "mystery"@[0]);
    }
}

/// The extension table: `audio/wav` and `audio/x-wav` are saved as `wav`,
/// `audio/mpeg` and `audio/mp3` as `mp3`, `audio/ogg` as `ogg`, `audio/flac`
/// as `flac`, and any other type as `wav`.
pub proof fn law_extension_table(mime: Seq<char>)
    ensures
        extension_spec("audio/wav"@) == "wav"@,
        extension_spec("audio/x-wav"@) == "wav"@,
        extension_spec("audio/mpeg"@) == "mp3"@,
        extension_spec("audio/mp3"@) == "mp3"@,
        extension_spec("audio/ogg"@) == "ogg"@,
        extension_spec("audio/flac"@) == "flac"@,
        (mime != "audio/wav"@ && mime != "audio/x-wav"@ && mime != "audio/mpeg"@ && mime != "audio/mp3"@ && mime != "audio/ogg"@ && mime != "audio/flac"@) ==> extension_spec(mime) == "wav"@,
{
    reveal_strlit("audio/wav");
    reveal_strlit("audio/x-wav");
    reveal_strlit("audio/mpeg");
    reveal_strlit("audio/mp3");
    reveal_strlit("audio/ogg");
    reveal_strlit("audio/flac");
    assert("audio/mp3"@[6] != "audio/wav"@[6]);
    assert("audio/ogg"@[6] != "audio/wav"@[6]);
    assert("audio/ogg"@[6] != "audio/mp3"@[6]);
    assert("audio/flac"@[6] != "audio/mpeg"@[6]);
}

/// The MIME type of a file follows its extension: `.wav` is `audio/wav`,
/// `.mp3` is `audio/mpeg`, `.ogg` is `audio/ogg`, `.flac` is `audio/flac`,
/// and any other file is taken for `audio/wav`.
pub proof fn law_mime_follows_extension(path: Seq<char>)
    ensures
        seq_ends_with(path, ".wav"@) ==> mime_for_path_spec(path) == "audio/wav"@,
        seq_ends_with(path, ".mp3"@) ==> mime_for_path_spec(path) == "audio/mpeg"@,
        seq_ends_with(path, ".ogg"@) ==> mime_for_path_spec(path) == "audio/ogg"@,
        seq_ends_with(path, ".flac"@) ==> mime_for_path_spec(path) == "audio/flac"@,
        (!seq_ends_with(path, ".wav"@) && !seq_ends_with(path, ".mp3"@) && !seq_ends_with(path, ".ogg"@)
            && !seq_ends_with(path, ".flac"@)) ==> mime_for_path_spec(path) == "audio/wav"@,
{
    reveal_strlit(".wav");
    reveal_strlit(".mp3");
    reveal_strlit(".ogg");
    reveal_strlit(".flac");
    let n = path.len() as int;
    if seq_ends_with(path, ".mp3"@) {
        assert(path.subrange(n - 4, n)[3] == ".mp3"@[3]);
        assert(!seq_ends_with(path, ".wav"@));
    }
    if seq_ends_with(path, ".ogg"@) {
        assert(path.subrange(n - 4, n)[3] == ".ogg"@[3]);
        assert(!seq_ends_with(path, ".wav"@));
        assert(!seq_ends_with(path, ".mp3"@));
    }
    if seq_ends_with(path, ".flac"@) {
        assert(path.subrange(n - 5, n)[4] == ".flac"@[4]);
        if seq_ends_with(path, ".wav"@) {
            assert(path.subrange(n - 4, n)[3] == ".wav"@[3]);
        }
        if seq_ends_with(path, ".mp3"@) {
            assert(path.subrange(n - 4, n)[3] == ".mp3"@[3]);
        }
        if seq_ends_with(path, ".ogg"@) {
            assert(path.subrange(n - 4, n)[3] == ".ogg"@[3]);
        }
    }
}

} // verus!
