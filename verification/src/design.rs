//! The design rules for 8-bit game audio: the system prompts that frame every
//! request, and the synthesis recipes of well-known sound-effect presets.
//!
//! Core tenets:
//! - Authentic chiptune aesthetic: classic 8-bit consoles (NES, Game Boy, SMS)
//!   using pulse/square, triangle, noise, and simple PCM waveforms.
//! - Loopability: all music loops seamlessly.
//! - Emotional clarity: mood established within the first few seconds.
//! - Melodic memorability: strong, hummable hooks.
//! - Channel discipline: 3-4 melodic voices + noise percussion.

use vstd::prelude::*;

use crate::text::{ascii_lower, chars_eq_str, contains_chars, starts_with_chars, to_ascii_lower};

verus! {
/// System prompt prefix for background music / soundtrack generation.
pub const BGM_SYSTEM_PROMPT: &'static str = "\
You are a video game music composer specializing in 8-bit chiptune music.

SOUND PALETTE:
- Use classic chiptune waveforms: square waves, pulse waves, triangle waves, \
  and noise channels for percussion.
- Limit to 3-4 melodic voices simultaneously, mimicking NES/Game Boy hardware.
- Drums and percussion should use short noise bursts and pitched clicks, \
  not realistic drum samples.

COMPOSITION STRUCTURE:
- Write clear, memorable melodies that are instantly recognizable.
- Use simple harmonic progressions (I-IV-V-I, i-VI-III-VII) common in \
  classic game music.
- Include an intro phrase and a loop point — the music must loop seamlessly.
- Keep tempos appropriate to the game context: ~120 BPM for overworld, \
  ~140-160 BPM for action, ~80-90 BPM for menus and calm scenes.

EMOTIONAL CLARITY:
- Establish mood within the first 2-4 bars.
- Major keys for adventure and triumph, minor keys for danger and mystery, \
  pentatonic scales for exploration and wonder.
- Use arpeggios and rapid note sequences to create energy and movement.

";
/// System prompt prefix for sound effect generation.
pub const SFX_SYSTEM_PROMPT: &'static str = "\
You are a video game sound designer specializing in 8-bit chiptune sound effects.

SOUND PALETTE:
- Use classic 8-bit synthesis: square waves, noise bursts, rapid pitch sweeps, \
  and short envelopes.
- Sound effects should be short (typically 0.1-2 seconds) and punchy.
- No reverb or modern processing — keep it dry and direct like original hardware.
- All sound effects must decay cleanly to silence — no sustained tails or looping.

DESIGN PRINCIPLES:
- Each sound effect must be instantly recognizable for its purpose.
- Use pitch sweeps for movement (ascending = jump/power-up, descending = \
  fall/damage).
- Layer no more than 2-3 simultaneous tones for clarity.
- Percussion hits should use white noise with very short decay.
- Keep envelopes tight: fast attack, controlled decay, no sustain, no release tail.
- The sound must work when triggered repeatedly in rapid succession without \
  muddiness or overlap artifacts.

CATEGORY-SPECIFIC TECHNIQUES:

Power-up / 1-Up sounds:
- Use a bright ascending arpeggio or melodic figure on square wave.
- Start in a mid register and sweep upward through a major arpeggio (root-3rd-5th-octave).
- Add a second voice a major third or fifth above for richness.
- Duration: 0.5-1.0 seconds. End on a high sustained note that decays cleanly.
- The ascending motion signals 'something good happened' — make it feel rewarding.

Coin collect sounds:
- Short ascending two-note or three-note arpeggio on a bright 25% pulse wave.
- Interval: perfect fifth or octave leap. Duration: 0.1-0.3 seconds.
- Crisp attack, almost no decay — a quick 'bling' or 'ding'.

Jump / Movement sounds:
- Quick upward pitch sweep on square wave, starting low and bending up.
- Duration: 0.1-0.25 seconds. No tail — cuts off sharply.
- Optional: slight volume fade-out at the top of the sweep.

Damage / Hit sounds:
- Short noise burst combined with a downward pitch bend on square wave.
- Duration: 0.1-0.4 seconds. The pitch drops rapidly to convey impact.
- Can add a brief low-frequency 'thud' on triangle wave for weight.

Explosion sounds:
- Noise channel with long-ish decay (0.3-0.8 seconds), starting loud.
- Layer a low-frequency square wave pitch sweep downward underneath.
- Optional: brief initial 'pop' before the noise wash.

Menu / UI sounds:
- Single clean tone on square wave, fast attack, short decay.
- Menu select: mid-frequency blip, ~0.05-0.1 seconds.
- Menu confirm: ascending two-note motif (like a quick 'do-mi').
- Menu cancel/back: descending two-note motif or short buzz.

Death / Game Over sounds:
- Descending chromatic or whole-tone run on square wave.
- Slow down (ritardando) toward the end. Duration: 0.8-1.5 seconds.
- End on a low note that fades out. Convey finality and loss.

Victory / Fanfare sounds:
- Short triumphant melodic phrase in a major key, 1-3 seconds.
- Ascending motion, landing on a strong tonic resolution.
- Can use multiple voices for a fuller 'celebration' feel.

Shoot / Projectile sounds:
- Very short (0.05-0.15s) high-frequency square wave burst.
- Slight downward pitch for laser; flat pitch for bullet.
- Rapid repetition must sound clean — no clicks between triggers.

";
/// Directive appended to SFX prompts. Ensures one-shot playback with clean silence.
pub const SFX_ONE_SHOT_DIRECTIVE: &'static str = "\
ONE-SHOT PLAYBACK REQUIREMENT:
- This is a sound effect, NOT music. Do NOT compose a melody or song.
- The audio MUST decay to complete silence at the end — no sustained tone, \
  no loop, no trailing hum.
- Keep it short and punchy. Silence after the sound is correct and expected.
- The sound must be triggerable: clean start, clean end, no clicks or pops \
  at either boundary.

";
/// System prompt prefix for loopable background music.
pub const LOOP_SYSTEM_PROMPT: &'static str = "\
You are a video game music composer creating seamless looping background music.

LOOP CONSTRUCTION:
- The piece MUST loop perfectly — the final bar must resolve smoothly \
  into the first bar with no audible seam or click.
- Use a consistent time signature throughout (4/4 or 3/4 preferred).
- Keep the loop length between 16 and 64 bars for variety without excess.
- End on a chord or note that naturally leads back to the opening.

VARIATION WITHIN THE LOOP:
- Include at least two contrasting sections (A and B) to prevent monotony.
- Use subtle variations in the melody across repetitions of a section.
- Build and release energy: start with a hook, develop tension, \
  then resolve before the loop point.

MIXING FOR GAMES:
- Keep the overall dynamic range narrow — game music plays under dialogue \
  and sound effects.
- Leave frequency space for sound effects: avoid constant high-frequency \
  activity that would mask coin and UI sounds.
- The bass line should be steady and rhythmic, providing a foundation \
  without overpowering the melody.

";
/// Universal directive appended to ALL audio generation prompts.
/// Ensures every piece of generated audio is designed to loop seamlessly.
pub const LOOP_ALWAYS_DIRECTIVE: &'static str = "\
CRITICAL LOOPING REQUIREMENT:
- ALL generated audio MUST be designed to play on a loop.
- The ending must flow naturally back into the beginning with no audible \
  gap, click, or discontinuity.
- Match the final bar's harmonic and rhythmic state to the opening bar.
- For sound effects, ensure the tail decays to silence cleanly so repeated \
  playback does not produce artifacts.

";
/// System prompt for remixing or editing existing audio.
pub const REMIX_SYSTEM_PROMPT: &'static str = "\
You are a chiptune music remixer and editor. Given an existing audio track \
and an instruction, modify the music while preserving:

PRESERVATION RULES:
- Maintain the original key and tempo unless explicitly asked to change them.
- Keep the 8-bit chiptune aesthetic — do not introduce modern synthesis \
  or realistic instruments.
- Preserve the overall structure and loop points if the original loops.

MODIFICATION APPROACH:
- Apply changes musically — if asked to make it 'more intense', increase \
  tempo slightly, add harmony voices, or use faster arpeggios.
- If asked to change mood, shift the mode (major to minor or vice versa) \
  while keeping the melodic contour.
- Layer additions should respect the channel limit (3-4 voices + noise).

";
/// A sound-effect preset with a hand-written synthesis recipe.
#[derive(Clone, Copy, Debug, PartialEq, Eq, Structural)]
pub enum SfxPreset {
    OneUp,
    PowerUp,
    Star,
    Coin,
    Item,
    Jump,
    Dash,
    Land,
    Shoot,
    Explosion,
    Hit,
    Sword,
    Death,
    Victory,
    MenuSelect,
    MenuConfirm,
    MenuCancel,
    Pause,
    Door,
    Chest,
    Warp,
}
/// Synthesis recipe of the `OneUp` preset.
pub const ONE_UP_RECIPE: &'static str = "Generate a classic 1-Up / extra life sound effect. \
             Use a bright square wave playing a rapid ascending major arpeggio: \
             C5-E5-G5-C6 in quick succession (~60ms per note), then hold the final \
             high C6 for ~200ms with a clean volume decay to silence. \
             Add a second square wave voice a major third above for shimmer. \
             Total duration: ~0.5-0.7 seconds. The feeling should be unmistakably \
             'you just earned something great'. Pure 8-bit synthesis, no reverb.";
/// Synthesis recipe of the `PowerUp` preset.
pub const POWER_UP_RECIPE: &'static str = "Generate a classic power-up / mushroom collect sound effect. \
             Use a square wave with a smooth ascending pitch slide from C4 to C5 \
             over ~0.4 seconds, then a brief major chord stab (C5-E5-G5) lasting \
             ~0.2 seconds that decays to silence. The slide should feel like \
             growing or transforming. Total duration: ~0.5-0.8 seconds. \
             Pure 8-bit synthesis.";
/// Synthesis recipe of the `Star` preset.
pub const STAR_RECIPE: &'static str = "Generate a star / invincibility power-up sound effect. \
             Rapid alternating bright square wave tones forming a shimmering \
             ascending pattern: C5-E5-G5-B5-C6, each ~40ms, repeated twice \
             with the second pass an octave higher. End with a sparkling \
             descending arpeggio that decays to silence. Duration: ~0.8-1.0 seconds. \
             Convey excitement and invulnerability. Pure 8-bit synthesis.";
/// Synthesis recipe of the `Coin` preset.
pub const COIN_RECIPE: &'static str = "Generate a classic coin collect sound effect. \
             A bright 25% pulse wave playing two notes in quick succession: \
             B5 then E6 (a perfect fourth leap), each ~50ms, with fast attack \
             and immediate decay. Total duration: ~0.1-0.15 seconds. \
             Crisp, clean, satisfying 'bling'. Pure 8-bit synthesis.";
/// Synthesis recipe of the `Item` preset.
pub const ITEM_RECIPE: &'static str = "Generate an item pickup sound effect. \
             A square wave playing a quick ascending three-note motif: \
             G4-B4-D5 over ~0.2 seconds, each note ~60ms with slight overlap. \
             Clean decay to silence. Brighter and more musical than a coin sound \
             but shorter than a power-up. Duration: ~0.2-0.3 seconds. \
             Pure 8-bit synthesis.";
/// Synthesis recipe of the `Jump` preset.
pub const JUMP_RECIPE: &'static str = "Generate a classic platformer jump sound effect. \
             A square wave with a quick upward pitch sweep from ~200Hz to ~600Hz \
             over ~0.15 seconds. Sharp attack, no sustain — cuts off at the peak. \
             Total duration: ~0.1-0.2 seconds. Pure 8-bit synthesis.";
/// Synthesis recipe of the `Dash` preset.
pub const DASH_RECIPE: &'static str = "Generate a dash/dodge sound effect. \
             A short noise burst (~50ms) layered with a quick square wave \
             pitch sweep from high to mid frequency (~800Hz to ~400Hz). \
             Total duration: ~0.1-0.15 seconds. Conveys fast lateral movement. \
             Pure 8-bit synthesis.";
/// Synthesis recipe of the `Land` preset.
pub const LAND_RECIPE: &'static str = "Generate a landing/stomp sound effect. \
             A short noise hit combined with a triangle wave thud — start at \
             ~150Hz and drop to ~60Hz over ~0.1 seconds. Brief and weighty. \
             Duration: ~0.1-0.15 seconds. Pure 8-bit synthesis.";
/// Synthesis recipe of the `Shoot` preset.
pub const SHOOT_RECIPE: &'static str = "Generate a laser/shoot sound effect. \
             A very short square wave burst at high frequency (~1200Hz) with a \
             slight downward pitch bend over ~0.08 seconds. Crisp attack, \
             instant cutoff. Duration: ~0.05-0.1 seconds. Must sound clean \
             when triggered in rapid succession. Pure 8-bit synthesis.";
/// Synthesis recipe of the `Explosion` preset.
pub const EXPLOSION_RECIPE: &'static str = "Generate an 8-bit explosion sound effect. \
             Start with a brief pop (square wave at ~300Hz for ~20ms), then \
             transition to a noise channel wash that decays over ~0.5 seconds. \
             Layer a low triangle wave (~80Hz) underneath that fades with the noise. \
             Duration: ~0.4-0.7 seconds. Sounds destructive but retro. \
             Pure 8-bit synthesis.";
/// Synthesis recipe of the `Hit` preset.
pub const HIT_RECIPE: &'static str = "Generate a damage/hit sound effect. \
             A short noise burst (~80ms) combined with a square wave that sweeps \
             sharply downward from ~500Hz to ~100Hz over ~0.15 seconds. \
             Conveys impact and pain. Duration: ~0.15-0.25 seconds. \
             Pure 8-bit synthesis.";
/// Synthesis recipe of the `Sword` preset.
pub const SWORD_RECIPE: &'static str = "Generate a sword slash / melee attack sound effect. \
             A quick noise sweep with a high-to-low filter feel — starts bright \
             and decays to nothing over ~0.15 seconds. Layer a very brief square \
             wave 'ting' at the start (~1000Hz, ~20ms) for the blade edge. \
             Duration: ~0.1-0.2 seconds. Pure 8-bit synthesis.";
/// Synthesis recipe of the `Death` preset.
pub const DEATH_RECIPE: &'static str = "Generate a player death sound effect. \
             A square wave playing a descending chromatic run from C5 down to C3, \
             slowing down (ritardando) as it descends. Each note slightly longer \
             than the last. End on a low note that fades to silence. \
             Duration: ~1.0-1.5 seconds. Conveys loss and finality. \
             Pure 8-bit synthesis.";
/// Synthesis recipe of the `Victory` preset.
pub const VICTORY_RECIPE: &'static str = "Generate a short victory fanfare sound effect. \
             A bright square wave playing a triumphant ascending phrase: \
             C4-E4-G4-C5, then a resolving figure back down to G4-C5 with a \
             sustained final note that decays. Two voices in harmony for richness. \
             Duration: ~1.5-2.5 seconds. Major key, celebratory. \
             Pure 8-bit synthesis.";
/// Synthesis recipe of the `MenuSelect` preset.
pub const MENU_SELECT_RECIPE: &'static str = "Generate a menu select / cursor move sound effect. \
             A single clean square wave tone at ~800Hz, ~50ms duration. \
             Very fast attack, fast decay, no sustain. A quick 'blip'. \
             Duration: ~0.04-0.08 seconds. Pure 8-bit synthesis.";
/// Synthesis recipe of the `MenuConfirm` preset.
pub const MENU_CONFIRM_RECIPE: &'static str = "Generate a menu confirm sound effect. \
             Two quick ascending square wave notes: C5 then E5, ~40ms each, \
             played in rapid succession. Clean and decisive. A quick 'do-mi'. \
             Duration: ~0.1-0.15 seconds. Pure 8-bit synthesis.";
/// Synthesis recipe of the `MenuCancel` preset.
pub const MENU_CANCEL_RECIPE: &'static str = "Generate a menu cancel / back sound effect. \
             Two quick descending square wave notes: E5 then C5, ~40ms each. \
             Or a very short low buzz (~200Hz noise, ~60ms). Conveys rejection \
             or backing away. Duration: ~0.08-0.12 seconds. Pure 8-bit synthesis.";
/// Synthesis recipe of the `Pause` preset.
pub const PAUSE_RECIPE: &'static str = "Generate a pause menu open sound effect. \
             A clean square wave tone at ~600Hz with a slight upward bend, \
             ~0.1 seconds, ending with a brief silence gap. Neutral and clean. \
             Duration: ~0.1-0.15 seconds. Pure 8-bit synthesis.";
/// Synthesis recipe of the `Door` preset.
pub const DOOR_RECIPE: &'static str = "Generate a door opening sound effect. \
             A square wave playing a short ascending two-note motif (F4-C5) with \
             a brief noise 'creak' layered on top (~0.1s noise at low volume). \
             Duration: ~0.2-0.3 seconds. Pure 8-bit synthesis.";
/// Synthesis recipe of the `Chest` preset.
pub const CHEST_RECIPE: &'static str = "Generate a treasure chest opening sound effect. \
             An ascending arpeggio on square wave: C4-E4-G4-C5, ~80ms per note, \
             with the final note ringing briefly and decaying. Similar to a power-up \
             but more deliberate and 'revealing'. Duration: ~0.4-0.6 seconds. \
             Pure 8-bit synthesis.";
/// Synthesis recipe of the `Warp` preset.
pub const WARP_RECIPE: &'static str = "Generate a warp/teleport sound effect. \
             A square wave with rapid oscillating pitch (vibrato) that sweeps from \
             low (~200Hz) to high (~1500Hz) over ~0.4 seconds, then cuts off. \
             The fast vibrato creates a 'warbling' quality. Duration: ~0.3-0.5 seconds. \
             Pure 8-bit synthesis.";
/// The characters that a preset name may use to separate its words; they are ignored.
pub open spec fn is_preset_separator(c: char) -> bool {
    c == '-' || c == '_' || c == ' '
}

/// A preset name as it is looked up: ASCII letters lower-cased, separators removed.
pub open spec fn normalize_preset(s: Seq<char>) -> Seq<char>
    decreases s.len(),
{
    if s.len() == 0 {
        Seq::empty()
    } else {
        let rest = normalize_preset(s.drop_last());
        let c = ascii_lower(s.last());
        if is_preset_separator(c) {
            rest
        } else {
            rest.push(c)
        }
    }
}
/// The preset that a normalized name stands for, if any.
pub open spec fn preset_named(name: Seq<char>) -> Option<SfxPreset> {
    if name == "1up"@ || name == "oneup"@ || name == "extralife"@ || name == "1upsfx"@ {
        Some(SfxPreset::OneUp)
    } else if name == "powerup"@ || name == "mushroom"@ || name == "growsfx"@ {
        Some(SfxPreset::PowerUp)
    } else if name == "star"@ || name == "invincible"@ || name == "starpower"@ {
        Some(SfxPreset::Star)
    } else if name == "coin"@ || name == "coinsfx"@ || name == "coincollect"@ || name == "gem"@ || name == "ring"@ {
        Some(SfxPreset::Coin)
    } else if name == "item"@ || name == "pickup"@ || name == "itemget"@ || name == "collect"@ {
        Some(SfxPreset::Item)
    } else if name == "jump"@ || name == "jumpsfx"@ || name == "hop"@ {
        Some(SfxPreset::Jump)
    } else if name == "dash"@ || name == "dodge"@ || name == "slide"@ {
        Some(SfxPreset::Dash)
    } else if name == "land"@ || name == "landing"@ || name == "stomp"@ {
        Some(SfxPreset::Land)
    } else if name == "shoot"@ || name == "laser"@ || name == "fire"@ || name == "projectile"@ || name == "pew"@ {
        Some(SfxPreset::Shoot)
    } else if name == "explosion"@ || name == "boom"@ || name == "explode"@ {
        Some(SfxPreset::Explosion)
    } else if name == "hit"@ || name == "damage"@ || name == "hurt"@ || name == "ouch"@ {
        Some(SfxPreset::Hit)
    } else if name == "sword"@ || name == "slash"@ || name == "melee"@ || name == "swipe"@ {
        Some(SfxPreset::Sword)
    } else if name == "death"@ || name == "die"@ || name == "gameover"@ || name == "dead"@ {
        Some(SfxPreset::Death)
    } else if name == "victory"@ || name == "win"@ || name == "fanfare"@ || name == "levelcomplete"@ {
        Some(SfxPreset::Victory)
    } else if name == "select"@ || name == "menuselect"@ || name == "cursor"@ || name == "blip"@ {
        Some(SfxPreset::MenuSelect)
    } else if name == "confirm"@ || name == "ok"@ || name == "accept"@ || name == "menuconfirm"@ {
        Some(SfxPreset::MenuConfirm)
    } else if name == "cancel"@ || name == "back"@ || name == "menucancel"@ || name == "deny"@ {
        Some(SfxPreset::MenuCancel)
    } else if name == "pause"@ || name == "menuopen"@ {
        Some(SfxPreset::Pause)
    } else if name == "door"@ || name == "dooropen"@ || name == "gate"@ {
        Some(SfxPreset::Door)
    } else if name == "chest"@ || name == "chestopen"@ || name == "treasure"@ {
        Some(SfxPreset::Chest)
    } else if name == "warp"@ || name == "teleport"@ || name == "portal"@ {
        Some(SfxPreset::Warp)
    } else {
        None
    }
}

/// The recipe of the preset that `preset` names once normalized, if it names one.
pub open spec fn preset_recipe_of(preset: Seq<char>) -> Option<Seq<char>> {
    match preset_named(normalize_preset(preset)) {
        Some(p) => Some(p.recipe_text()),
        None => None,
    }
}

/// The characters of a string held in an `Option`.
pub open spec fn str_option_view(o: Option<&str>) -> Option<Seq<char>> {
    match o {
        Some(s) => Some(s@),
        None => None,
    }
}

impl SfxPreset {
    /// The recipe text of this preset.
    pub open spec fn recipe_text(self) -> Seq<char> {
        match self {
            SfxPreset::OneUp => ONE_UP_RECIPE@,
            SfxPreset::PowerUp => POWER_UP_RECIPE@,
            SfxPreset::Star => STAR_RECIPE@,
            SfxPreset::Coin => COIN_RECIPE@,
            SfxPreset::Item => ITEM_RECIPE@,
            SfxPreset::Jump => JUMP_RECIPE@,
            SfxPreset::Dash => DASH_RECIPE@,
            SfxPreset::Land => LAND_RECIPE@,
            SfxPreset::Shoot => SHOOT_RECIPE@,
            SfxPreset::Explosion => EXPLOSION_RECIPE@,
            SfxPreset::Hit => HIT_RECIPE@,
            SfxPreset::Sword => SWORD_RECIPE@,
            SfxPreset::Death => DEATH_RECIPE@,
            SfxPreset::Victory => VICTORY_RECIPE@,
            SfxPreset::MenuSelect => MENU_SELECT_RECIPE@,
            SfxPreset::MenuConfirm => MENU_CONFIRM_RECIPE@,
            SfxPreset::MenuCancel => MENU_CANCEL_RECIPE@,
            SfxPreset::Pause => PAUSE_RECIPE@,
            SfxPreset::Door => DOOR_RECIPE@,
            SfxPreset::Chest => CHEST_RECIPE@,
            SfxPreset::Warp => WARP_RECIPE@,
        }
    }

    /// The recipe of this preset.
    pub fn recipe(self) -> (r: &'static str)
        ensures
            r@ == self.recipe_text(),
    {
        match self {
            SfxPreset::OneUp => ONE_UP_RECIPE,
            SfxPreset::PowerUp => POWER_UP_RECIPE,
            SfxPreset::Star => STAR_RECIPE,
            SfxPreset::Coin => COIN_RECIPE,
            SfxPreset::Item => ITEM_RECIPE,
            SfxPreset::Jump => JUMP_RECIPE,
            SfxPreset::Dash => DASH_RECIPE,
            SfxPreset::Land => LAND_RECIPE,
            SfxPreset::Shoot => SHOOT_RECIPE,
            SfxPreset::Explosion => EXPLOSION_RECIPE,
            SfxPreset::Hit => HIT_RECIPE,
            SfxPreset::Sword => SWORD_RECIPE,
            SfxPreset::Death => DEATH_RECIPE,
            SfxPreset::Victory => VICTORY_RECIPE,
            SfxPreset::MenuSelect => MENU_SELECT_RECIPE,
            SfxPreset::MenuConfirm => MENU_CONFIRM_RECIPE,
            SfxPreset::MenuCancel => MENU_CANCEL_RECIPE,
            SfxPreset::Pause => PAUSE_RECIPE,
            SfxPreset::Door => DOOR_RECIPE,
            SfxPreset::Chest => CHEST_RECIPE,
            SfxPreset::Warp => WARP_RECIPE,
        }
    }

    /// Looks up an already normalized preset name.
    pub fn from_normalized(name: &Vec<char>) -> (r: Option<SfxPreset>)
        ensures
            r == preset_named(name@),
    {
        if chars_eq_str(name, "1up") || chars_eq_str(name, "oneup") || chars_eq_str(name, "extralife") || chars_eq_str(name, "1upsfx") {
            Some(SfxPreset::OneUp)
        } else if chars_eq_str(name, "powerup") || chars_eq_str(name, "mushroom") || chars_eq_str(name, "growsfx") {
            Some(SfxPreset::PowerUp)
        } else if chars_eq_str(name, "star") || chars_eq_str(name, "invincible") || chars_eq_str(name, "starpower") {
            Some(SfxPreset::Star)
        } else if chars_eq_str(name, "coin") || chars_eq_str(name, "coinsfx") || chars_eq_str(name, "coincollect") || chars_eq_str(name, "gem") || chars_eq_str(name, "ring") {
            Some(SfxPreset::Coin)
        } else if chars_eq_str(name, "item") || chars_eq_str(name, "pickup") || chars_eq_str(name, "itemget") || chars_eq_str(name, "collect") {
            Some(SfxPreset::Item)
        } else if chars_eq_str(name, "jump") || chars_eq_str(name, "jumpsfx") || chars_eq_str(name, "hop") {
            Some(SfxPreset::Jump)
        } else if chars_eq_str(name, "dash") || chars_eq_str(name, "dodge") || chars_eq_str(name, "slide") {
            Some(SfxPreset::Dash)
        } else if chars_eq_str(name, "land") || chars_eq_str(name, "landing") || chars_eq_str(name, "stomp") {
            Some(SfxPreset::Land)
        } else if chars_eq_str(name, "shoot") || chars_eq_str(name, "laser") || chars_eq_str(name, "fire") || chars_eq_str(name, "projectile") || chars_eq_str(name, "pew") {
            Some(SfxPreset::Shoot)
        } else if chars_eq_str(name, "explosion") || chars_eq_str(name, "boom") || chars_eq_str(name, "explode") {
            Some(SfxPreset::Explosion)
        } else if chars_eq_str(name, "hit") || chars_eq_str(name, "damage") || chars_eq_str(name, "hurt") || chars_eq_str(name, "ouch") {
            Some(SfxPreset::Hit)
        } else if chars_eq_str(name, "sword") || chars_eq_str(name, "slash") || chars_eq_str(name, "melee") || chars_eq_str(name, "swipe") {
            Some(SfxPreset::Sword)
        } else if chars_eq_str(name, "death") || chars_eq_str(name, "die") || chars_eq_str(name, "gameover") || chars_eq_str(name, "dead") {
            Some(SfxPreset::Death)
        } else if chars_eq_str(name, "victory") || chars_eq_str(name, "win") || chars_eq_str(name, "fanfare") || chars_eq_str(name, "levelcomplete") {
            Some(SfxPreset::Victory)
        } else if chars_eq_str(name, "select") || chars_eq_str(name, "menuselect") || chars_eq_str(name, "cursor") || chars_eq_str(name, "blip") {
            Some(SfxPreset::MenuSelect)
        } else if chars_eq_str(name, "confirm") || chars_eq_str(name, "ok") || chars_eq_str(name, "accept") || chars_eq_str(name, "menuconfirm") {
            Some(SfxPreset::MenuConfirm)
        } else if chars_eq_str(name, "cancel") || chars_eq_str(name, "back") || chars_eq_str(name, "menucancel") || chars_eq_str(name, "deny") {
            Some(SfxPreset::MenuCancel)
        } else if chars_eq_str(name, "pause") || chars_eq_str(name, "menuopen") {
            Some(SfxPreset::Pause)
        } else if chars_eq_str(name, "door") || chars_eq_str(name, "dooropen") || chars_eq_str(name, "gate") {
            Some(SfxPreset::Door)
        } else if chars_eq_str(name, "chest") || chars_eq_str(name, "chestopen") || chars_eq_str(name, "treasure") {
            Some(SfxPreset::Chest)
        } else if chars_eq_str(name, "warp") || chars_eq_str(name, "teleport") || chars_eq_str(name, "portal") {
            Some(SfxPreset::Warp)
        } else {
            None
        }
    }
}

/// Lower-cases the ASCII letters of `preset` and drops its separators.
pub fn normalize_preset_name(preset: &str) -> (r: Vec<char>)
    ensures
        r@ == normalize_preset(preset@),
{
    let mut out: Vec<char> = Vec::new();
    let n = preset.unicode_len();
    let mut i: usize = 0;
    while i < n
        invariant
            n == preset@.len(),
            i <= n,
            out@ == normalize_preset(preset@.take(i as int)),
        decreases n - i,
    {
        let c = to_ascii_lower(preset.get_char(i));
        assert(preset@.take(i + 1).drop_last() =~= preset@.take(i as int));
        if !(c == '-' || c == '_' || c == ' ') {
            out.push(c);
        }
        i = i + 1;
    }
    assert(preset@.take(n as int) =~= preset@);
    out
}

/// Returns a precise synthesis recipe for a well-known SFX preset.
///
/// The name is matched ignoring ASCII case and the separators `-`, `_` and
/// space. When a preset is recognized, the returned string contains exact
/// waveform, pitch, timing, and envelope instructions that steer the model
/// toward the canonical sound. Returns `None` for unknown presets: the caller
/// should fall back to the generic SFX prompt.
pub fn sfx_preset_recipe(preset: &str) -> (r: Option<&'static str>)
    ensures
        str_option_view(r) == preset_recipe_of(preset@),
{
    let name = normalize_preset_name(preset);
    match SfxPreset::from_normalized(&name) {
        Some(p) => Some(p.recipe()),
        None => None,
    }
}

/// Every character of a normalized name is a lower-case-stable non-separator.
pub open spec fn is_normalized_name(t: Seq<char>) -> bool {
    forall|i: int| 0 <= i < t.len() ==> ascii_lower(#[trigger] t[i]) == t[i] && !is_preset_separator(t[i])
}

proof fn lemma_ascii_lower_idempotent(c: char)
    ensures
        ascii_lower(ascii_lower(c)) == ascii_lower(c),
{
}

proof fn lemma_normalize_gives_normalized(s: Seq<char>)
    ensures
        is_normalized_name(normalize_preset(s)),
    decreases s.len(),
{
    if s.len() > 0 {
        lemma_normalize_gives_normalized(s.drop_last());
        lemma_ascii_lower_idempotent(s.last());
    }
}

proof fn lemma_normalize_fixes_normalized(t: Seq<char>)
    requires
        is_normalized_name(t),
    ensures
        normalize_preset(t) == t,
    decreases t.len(),
{
    if t.len() > 0 {
        assert(is_normalized_name(t.drop_last()));
        lemma_normalize_fixes_normalized(t.drop_last());
        assert(ascii_lower(t[t.len() - 1]) == t[t.len() - 1]);
        assert(t.drop_last().push(t.last()) =~= t);
    }
}

proof fn lemma_normalize_lowered(s: Seq<char>)
    ensures
        normalize_preset(s.map_values(|c: char| ascii_lower(c))) == normalize_preset(s),
    decreases s.len(),
{
    let l = s.map_values(|c: char| ascii_lower(c));
    if s.len() > 0 {
        assert(l.drop_last() =~= s.drop_last().map_values(|c: char| ascii_lower(c)));
        lemma_normalize_lowered(s.drop_last());
        lemma_ascii_lower_idempotent(s.last());
    }
}

/// Normalizing a preset name twice gives what normalizing it once gives.
pub proof fn law_normalize_preset_idempotent(s: Seq<char>)
    ensures
        normalize_preset(normalize_preset(s)) == normalize_preset(s),
{
    lemma_normalize_gives_normalized(s);
    lemma_normalize_fixes_normalized(normalize_preset(s));
}

/// A preset's recipe depends on its name only up to ASCII case and the
/// separators `-`, `_` and space: the name and its normalized form, and the
/// name and its lower-cased form, find the same recipe.
pub proof fn law_preset_lookup_ignores_case_and_separators(s: Seq<char>)
    ensures
        preset_recipe_of(normalize_preset(s)) == preset_recipe_of(s),
        preset_recipe_of(s.map_values(|c: char| ascii_lower(c))) == preset_recipe_of(s),
{
    law_normalize_preset_idempotent(s);
    lemma_normalize_lowered(s);
}

// --- What every recipe holds ---

/// A recipe that steers the model: it starts with "Generate ", names a
/// wave, gives a duration and asks for pure 8-bit synthesis.
pub open spec fn is_synthesis_recipe(r: Seq<char>) -> bool {
    &&& starts_with_chars(r, "Generate "@)
    &&& contains_chars(r, "wave"@)
    &&& (contains_chars(r, "duration"@) || contains_chars(r, "Duration"@))
    &&& contains_chars(r, "Pure 8-bit synthesis"@)
}

/// The length of a preset's recipe and its twelfth character, which together
/// tell the recipes apart.
spec fn recipe_signature(p: SfxPreset) -> (nat, char) {
    match p {
        SfxPreset::OneUp => (445nat, 'c'),
        SfxPreset::PowerUp => (341nat, 'c'),
        SfxPreset::Star => (373nat, 's'),
        SfxPreset::Coin => (285nat, 'c'),
        SfxPreset::Item => (307nat, ' '),
        SfxPreset::Jump => (241nat, 'c'),
        SfxPreset::Dash => (243nat, 'd'),
        SfxPreset::Land => (216nat, 'l'),
        SfxPreset::Shoot => (283nat, 'l'),
        SfxPreset::Explosion => (322nat, ' '),
        SfxPreset::Hit => (239nat, 'd'),
        SfxPreset::Sword => (298nat, 's'),
        SfxPreset::Death => (307nat, 'p'),
        SfxPreset::Victory => (313nat, 's'),
        SfxPreset::MenuSelect => (219nat, 'm'),
        SfxPreset::MenuConfirm => (216nat, 'm'),
        SfxPreset::MenuCancel => (242nat, 'm'),
        SfxPreset::Pause => (219nat, 'p'),
        SfxPreset::Door => (221nat, 'd'),
        SfxPreset::Chest => (273nat, 't'),
        SfxPreset::Warp => (270nat, 'w'),
    }
}

proof fn lemma_needles()
    ensures
        "Generate "@.len() == 9,
        "wave"@.len() == 4,
        "duration"@.len() == 8,
        "Duration"@.len() == 8,
        "Pure 8-bit synthesis"@.len() == 20,
{
    reveal_strlit("Generate ");
    reveal_strlit("wave");
    reveal_strlit("duration");
    reveal_strlit("Duration");
    reveal_strlit("Pure 8-bit synthesis");
}

proof fn lemma_one_up_recipe()
    ensures
        is_synthesis_recipe(ONE_UP_RECIPE@),
        (ONE_UP_RECIPE@.len(), ONE_UP_RECIPE@[11]) == recipe_signature(SfxPreset::OneUp),
{
    reveal_strlit("Generate a classic 1-Up / extra life sound effect. \
             Use a bright square wave playing a rapid ascending major arpeggio: \
             C5-E5-G5-C6 in quick succession (~60ms per note), then hold the final \
             high C6 for ~200ms with a clean volume decay to silence. \
             Add a second square wave voice a major third above for shimmer. \
             Total duration: ~0.5-0.7 seconds. The feeling should be unmistakably \
             'you just earned something great'. Pure 8-bit synthesis, no reverb.");
    reveal_strlit("Generate ");
    reveal_strlit("wave");
    reveal_strlit("duration");
    reveal_strlit("Pure 8-bit synthesis");
    let r = ONE_UP_RECIPE@;
    assert(r.take("Generate "@.len() as int) =~= "Generate "@);
    assert(r.subrange(71int, 71int + "wave"@.len()) =~= "wave"@);
    assert(r.subrange(315int, 315int + "duration"@.len()) =~= "duration"@);
    assert(r.subrange(413int, 413int + "Pure 8-bit synthesis"@.len()) =~= "Pure 8-bit synthesis"@);
}

proof fn lemma_power_up_recipe()
    ensures
        is_synthesis_recipe(POWER_UP_RECIPE@),
        (POWER_UP_RECIPE@.len(), POWER_UP_RECIPE@[11]) == recipe_signature(SfxPreset::PowerUp),
{
    reveal_strlit("Generate a classic power-up / mushroom collect sound effect. \
             Use a square wave with a smooth ascending pitch slide from C4 to C5 \
             over ~0.4 seconds, then a brief major chord stab (C5-E5-G5) lasting \
             ~0.2 seconds that decays to silence. The slide should feel like \
             growing or transforming. Total duration: ~0.5-0.8 seconds. \
             Pure 8-bit synthesis.");
    reveal_strlit("Generate ");
    reveal_strlit("wave");
    reveal_strlit("duration");
    reveal_strlit("Pure 8-bit synthesis");
    let r = POWER_UP_RECIPE@;
    assert(r.take("Generate "@.len() as int) =~= "Generate "@);
    assert(r.subrange(74int, 74int + "wave"@.len()) =~= "wave"@);
    assert(r.subrange(292int, 292int + "duration"@.len()) =~= "duration"@);
    assert(r.subrange(320int, 320int + "Pure 8-bit synthesis"@.len()) =~= "Pure 8-bit synthesis"@);
}

proof fn lemma_star_recipe()
    ensures
        is_synthesis_recipe(STAR_RECIPE@),
        (STAR_RECIPE@.len(), STAR_RECIPE@[11]) == recipe_signature(SfxPreset::Star),
{
    reveal_strlit("Generate a star / invincibility power-up sound effect. \
             Rapid alternating bright square wave tones forming a shimmering \
             ascending pattern: C5-E5-G5-B5-C6, each ~40ms, repeated twice \
             with the second pass an octave higher. End with a sparkling \
             descending arpeggio that decays to silence. Duration: ~0.8-1.0 seconds. \
             Convey excitement and invulnerability. Pure 8-bit synthesis.");
    reveal_strlit("Generate ");
    reveal_strlit("wave");
    reveal_strlit("Duration");
    reveal_strlit("Pure 8-bit synthesis");
    let r = STAR_RECIPE@;
    assert(r.take("Generate "@.len() as int) =~= "Generate "@);
    assert(r.subrange(87int, 87int + "wave"@.len()) =~= "wave"@);
    assert(r.subrange(285int, 285int + "Duration"@.len()) =~= "Duration"@);
    assert(r.subrange(352int, 352int + "Pure 8-bit synthesis"@.len()) =~= "Pure 8-bit synthesis"@);
}

proof fn lemma_coin_recipe()
    ensures
        is_synthesis_recipe(COIN_RECIPE@),
        (COIN_RECIPE@.len(), COIN_RECIPE@[11]) == recipe_signature(SfxPreset::Coin),
{
    reveal_strlit("Generate a classic coin collect sound effect. \
             A bright 25% pulse wave playing two notes in quick succession: \
             B5 then E6 (a perfect fourth leap), each ~50ms, with fast attack \
             and immediate decay. Total duration: ~0.1-0.15 seconds. \
             Crisp, clean, satisfying 'bling'. Pure 8-bit synthesis.");
    reveal_strlit("Generate ");
    reveal_strlit("wave");
    reveal_strlit("duration");
    reveal_strlit("Pure 8-bit synthesis");
    let r = COIN_RECIPE@;
    assert(r.take("Generate "@.len() as int) =~= "Generate "@);
    assert(r.subrange(65int, 65int + "wave"@.len()) =~= "wave"@);
    assert(r.subrange(201int, 201int + "duration"@.len()) =~= "duration"@);
    assert(r.subrange(264int, 264int + "Pure 8-bit synthesis"@.len()) =~= "Pure 8-bit synthesis"@);
}

proof fn lemma_item_recipe()
    ensures
        is_synthesis_recipe(ITEM_RECIPE@),
        (ITEM_RECIPE@.len(), ITEM_RECIPE@[11]) == recipe_signature(SfxPreset::Item),
{
    reveal_strlit("Generate an item pickup sound effect. \
             A square wave playing a quick ascending three-note motif: \
             G4-B4-D5 over ~0.2 seconds, each note ~60ms with slight overlap. \
             Clean decay to silence. Brighter and more musical than a coin sound \
             but shorter than a power-up. Duration: ~0.2-0.3 seconds. \
             Pure 8-bit synthesis.");
    reveal_strlit("Generate ");
    reveal_strlit("wave");
    reveal_strlit("Duration");
    reveal_strlit("Pure 8-bit synthesis");
    let r = ITEM_RECIPE@;
    assert(r.take("Generate "@.len() as int) =~= "Generate "@);
    assert(r.subrange(47int, 47int + "wave"@.len()) =~= "wave"@);
    assert(r.subrange(258int, 258int + "Duration"@.len()) =~= "Duration"@);
    assert(r.subrange(286int, 286int + "Pure 8-bit synthesis"@.len()) =~= "Pure 8-bit synthesis"@);
}

proof fn lemma_jump_recipe()
    ensures
        is_synthesis_recipe(JUMP_RECIPE@),
        (JUMP_RECIPE@.len(), JUMP_RECIPE@[11]) == recipe_signature(SfxPreset::Jump),
{
    reveal_strlit("Generate a classic platformer jump sound effect. \
             A square wave with a quick upward pitch sweep from ~200Hz to ~600Hz \
             over ~0.15 seconds. Sharp attack, no sustain — cuts off at the peak. \
             Total duration: ~0.1-0.2 seconds. Pure 8-bit synthesis.");
    reveal_strlit("Generate ");
    reveal_strlit("wave");
    reveal_strlit("duration");
    reveal_strlit("Pure 8-bit synthesis");
    let r = JUMP_RECIPE@;
    assert(r.take("Generate "@.len() as int) =~= "Generate "@);
    assert(r.subrange(58int, 58int + "wave"@.len()) =~= "wave"@);
    assert(r.subrange(192int, 192int + "duration"@.len()) =~= "duration"@);
    assert(r.subrange(220int, 220int + "Pure 8-bit synthesis"@.len()) =~= "Pure 8-bit synthesis"@);
}

proof fn lemma_dash_recipe()
    ensures
        is_synthesis_recipe(DASH_RECIPE@),
        (DASH_RECIPE@.len(), DASH_RECIPE@[11]) == recipe_signature(SfxPreset::Dash),
{
    reveal_strlit("Generate a dash/dodge sound effect. \
             A short noise burst (~50ms) layered with a quick square wave \
             pitch sweep from high to mid frequency (~800Hz to ~400Hz). \
             Total duration: ~0.1-0.15 seconds. Conveys fast lateral movement. \
             Pure 8-bit synthesis.");
    reveal_strlit("Generate ");
    reveal_strlit("wave");
    reveal_strlit("duration");
    reveal_strlit("Pure 8-bit synthesis");
    let r = DASH_RECIPE@;
    assert(r.take("Generate "@.len() as int) =~= "Generate "@);
    assert(r.subrange(92int, 92int + "wave"@.len()) =~= "wave"@);
    assert(r.subrange(162int, 162int + "duration"@.len()) =~= "duration"@);
    assert(r.subrange(222int, 222int + "Pure 8-bit synthesis"@.len()) =~= "Pure 8-bit synthesis"@);
}

proof fn lemma_land_recipe()
    ensures
        is_synthesis_recipe(LAND_RECIPE@),
        (LAND_RECIPE@.len(), LAND_RECIPE@[11]) == recipe_signature(SfxPreset::Land),
{
    reveal_strlit("Generate a landing/stomp sound effect. \
             A short noise hit combined with a triangle wave thud — start at \
             ~150Hz and drop to ~60Hz over ~0.1 seconds. Brief and weighty. \
             Duration: ~0.1-0.15 seconds. Pure 8-bit synthesis.");
    reveal_strlit("Generate ");
    reveal_strlit("wave");
    reveal_strlit("Duration");
    reveal_strlit("Pure 8-bit synthesis");
    let r = LAND_RECIPE@;
    assert(r.take("Generate "@.len() as int) =~= "Generate "@);
    assert(r.subrange(82int, 82int + "wave"@.len()) =~= "wave"@);
    assert(r.subrange(166int, 166int + "Duration"@.len()) =~= "Duration"@);
    assert(r.subrange(195int, 195int + "Pure 8-bit synthesis"@.len()) =~= "Pure 8-bit synthesis"@);
}

proof fn lemma_shoot_recipe()
    ensures
        is_synthesis_recipe(SHOOT_RECIPE@),
        (SHOOT_RECIPE@.len(), SHOOT_RECIPE@[11]) == recipe_signature(SfxPreset::Shoot),
{
    reveal_strlit("Generate a laser/shoot sound effect. \
             A very short square wave burst at high frequency (~1200Hz) with a \
             slight downward pitch bend over ~0.08 seconds. Crisp attack, \
             instant cutoff. Duration: ~0.05-0.1 seconds. Must sound clean \
             when triggered in rapid succession. Pure 8-bit synthesis.");
    reveal_strlit("Generate ");
    reveal_strlit("wave");
    reveal_strlit("Duration");
    reveal_strlit("Pure 8-bit synthesis");
    let r = SHOOT_RECIPE@;
    assert(r.take("Generate "@.len() as int) =~= "Generate "@);
    assert(r.subrange(57int, 57int + "wave"@.len()) =~= "wave"@);
    assert(r.subrange(180int, 180int + "Duration"@.len()) =~= "Duration"@);
    assert(r.subrange(262int, 262int + "Pure 8-bit synthesis"@.len()) =~= "Pure 8-bit synthesis"@);
}

proof fn lemma_explosion_recipe()
    ensures
        is_synthesis_recipe(EXPLOSION_RECIPE@),
        (EXPLOSION_RECIPE@.len(), EXPLOSION_RECIPE@[11]) == recipe_signature(SfxPreset::Explosion),
{
    reveal_strlit("Generate an 8-bit explosion sound effect. \
             Start with a brief pop (square wave at ~300Hz for ~20ms), then \
             transition to a noise channel wash that decays over ~0.5 seconds. \
             Layer a low triangle wave (~80Hz) underneath that fades with the noise. \
             Duration: ~0.4-0.7 seconds. Sounds destructive but retro. \
             Pure 8-bit synthesis.");
    reveal_strlit("Generate ");
    reveal_strlit("wave");
    reveal_strlit("Duration");
    reveal_strlit("Pure 8-bit synthesis");
    let r = EXPLOSION_RECIPE@;
    assert(r.take("Generate "@.len() as int) =~= "Generate "@);
    assert(r.subrange(73int, 73int + "wave"@.len()) =~= "wave"@);
    assert(r.subrange(243int, 243int + "Duration"@.len()) =~= "Duration"@);
    assert(r.subrange(301int, 301int + "Pure 8-bit synthesis"@.len()) =~= "Pure 8-bit synthesis"@);
}

proof fn lemma_hit_recipe()
    ensures
        is_synthesis_recipe(HIT_RECIPE@),
        (HIT_RECIPE@.len(), HIT_RECIPE@[11]) == recipe_signature(SfxPreset::Hit),
{
    reveal_strlit("Generate a damage/hit sound effect. \
             A short noise burst (~80ms) combined with a square wave that sweeps \
             sharply downward from ~500Hz to ~100Hz over ~0.15 seconds. \
             Conveys impact and pain. Duration: ~0.15-0.25 seconds. \
             Pure 8-bit synthesis.");
    reveal_strlit("Generate ");
    reveal_strlit("wave");
    reveal_strlit("Duration");
    reveal_strlit("Pure 8-bit synthesis");
    let r = HIT_RECIPE@;
    assert(r.take("Generate "@.len() as int) =~= "Generate "@);
    assert(r.subrange(87int, 87int + "wave"@.len()) =~= "wave"@);
    assert(r.subrange(188int, 188int + "Duration"@.len()) =~= "Duration"@);
    assert(r.subrange(218int, 218int + "Pure 8-bit synthesis"@.len()) =~= "Pure 8-bit synthesis"@);
}

proof fn lemma_sword_recipe()
    ensures
        is_synthesis_recipe(SWORD_RECIPE@),
        (SWORD_RECIPE@.len(), SWORD_RECIPE@[11]) == recipe_signature(SfxPreset::Sword),
{
    reveal_strlit("Generate a sword slash / melee attack sound effect. \
             A quick noise sweep with a high-to-low filter feel — starts bright \
             and decays to nothing over ~0.15 seconds. Layer a very brief square \
             wave 'ting' at the start (~1000Hz, ~20ms) for the blade edge. \
             Duration: ~0.1-0.2 seconds. Pure 8-bit synthesis.");
    reveal_strlit("Generate ");
    reveal_strlit("wave");
    reveal_strlit("Duration");
    reveal_strlit("Pure 8-bit synthesis");
    let r = SWORD_RECIPE@;
    assert(r.take("Generate "@.len() as int) =~= "Generate "@);
    assert(r.subrange(187int, 187int + "wave"@.len()) =~= "wave"@);
    assert(r.subrange(249int, 249int + "Duration"@.len()) =~= "Duration"@);
    assert(r.subrange(277int, 277int + "Pure 8-bit synthesis"@.len()) =~= "Pure 8-bit synthesis"@);
}

proof fn lemma_death_recipe()
    ensures
        is_synthesis_recipe(DEATH_RECIPE@),
        (DEATH_RECIPE@.len(), DEATH_RECIPE@[11]) == recipe_signature(SfxPreset::Death),
{
    reveal_strlit("Generate a player death sound effect. \
             A square wave playing a descending chromatic run from C5 down to C3, \
             slowing down (ritardando) as it descends. Each note slightly longer \
             than the last. End on a low note that fades to silence. \
             Duration: ~1.0-1.5 seconds. Conveys loss and finality. \
             Pure 8-bit synthesis.");
    reveal_strlit("Generate ");
    reveal_strlit("wave");
    reveal_strlit("Duration");
    reveal_strlit("Pure 8-bit synthesis");
    let r = DEATH_RECIPE@;
    assert(r.take("Generate "@.len() as int) =~= "Generate "@);
    assert(r.subrange(47int, 47int + "wave"@.len()) =~= "wave"@);
    assert(r.subrange(231int, 231int + "Duration"@.len()) =~= "Duration"@);
    assert(r.subrange(286int, 286int + "Pure 8-bit synthesis"@.len()) =~= "Pure 8-bit synthesis"@);
}

proof fn lemma_victory_recipe()
    ensures
        is_synthesis_recipe(VICTORY_RECIPE@),
        (VICTORY_RECIPE@.len(), VICTORY_RECIPE@[11]) == recipe_signature(SfxPreset::Victory),
{
    reveal_strlit("Generate a short victory fanfare sound effect. \
             A bright square wave playing a triumphant ascending phrase: \
             C4-E4-G4-C5, then a resolving figure back down to G4-C5 with a \
             sustained final note that decays. Two voices in harmony for richness. \
             Duration: ~1.5-2.5 seconds. Major key, celebratory. \
             Pure 8-bit synthesis.");
    reveal_strlit("Generate ");
    reveal_strlit("wave");
    reveal_strlit("Duration");
    reveal_strlit("Pure 8-bit synthesis");
    let r = VICTORY_RECIPE@;
    assert(r.take("Generate "@.len() as int) =~= "Generate "@);
    assert(r.subrange(63int, 63int + "wave"@.len()) =~= "wave"@);
    assert(r.subrange(240int, 240int + "Duration"@.len()) =~= "Duration"@);
    assert(r.subrange(292int, 292int + "Pure 8-bit synthesis"@.len()) =~= "Pure 8-bit synthesis"@);
}

proof fn lemma_menu_select_recipe()
    ensures
        is_synthesis_recipe(MENU_SELECT_RECIPE@),
        (MENU_SELECT_RECIPE@.len(), MENU_SELECT_RECIPE@[11]) == recipe_signature(SfxPreset::MenuSelect),
{
    reveal_strlit("Generate a menu select / cursor move sound effect. \
             A single clean square wave tone at ~800Hz, ~50ms duration. \
             Very fast attack, fast decay, no sustain. A quick 'blip'. \
             Duration: ~0.04-0.08 seconds. Pure 8-bit synthesis.");
    reveal_strlit("Generate ");
    reveal_strlit("wave");
    reveal_strlit("duration");
    reveal_strlit("Pure 8-bit synthesis");
    let r = MENU_SELECT_RECIPE@;
    assert(r.take("Generate "@.len() as int) =~= "Generate "@);
    assert(r.subrange(73int, 73int + "wave"@.len()) =~= "wave"@);
    assert(r.subrange(100int, 100int + "duration"@.len()) =~= "duration"@);
    assert(r.subrange(198int, 198int + "Pure 8-bit synthesis"@.len()) =~= "Pure 8-bit synthesis"@);
}

proof fn lemma_menu_confirm_recipe()
    ensures
        is_synthesis_recipe(MENU_CONFIRM_RECIPE@),
        (MENU_CONFIRM_RECIPE@.len(), MENU_CONFIRM_RECIPE@[11]) == recipe_signature(SfxPreset::MenuConfirm),
{
    reveal_strlit("Generate a menu confirm sound effect. \
             Two quick ascending square wave notes: C5 then E5, ~40ms each, \
             played in rapid succession. Clean and decisive. A quick 'do-mi'. \
             Duration: ~0.1-0.15 seconds. Pure 8-bit synthesis.");
    reveal_strlit("Generate ");
    reveal_strlit("wave");
    reveal_strlit("Duration");
    reveal_strlit("Pure 8-bit synthesis");
    let r = MENU_CONFIRM_RECIPE@;
    assert(r.take("Generate "@.len() as int) =~= "Generate "@);
    assert(r.subrange(65int, 65int + "wave"@.len()) =~= "wave"@);
    assert(r.subrange(166int, 166int + "Duration"@.len()) =~= "Duration"@);
    assert(r.subrange(195int, 195int + "Pure 8-bit synthesis"@.len()) =~= "Pure 8-bit synthesis"@);
}

proof fn lemma_menu_cancel_recipe()
    ensures
        is_synthesis_recipe(MENU_CANCEL_RECIPE@),
        (MENU_CANCEL_RECIPE@.len(), MENU_CANCEL_RECIPE@[11]) == recipe_signature(SfxPreset::MenuCancel),
{
    reveal_strlit("Generate a menu cancel / back sound effect. \
             Two quick descending square wave notes: E5 then C5, ~40ms each. \
             Or a very short low buzz (~200Hz noise, ~60ms). Conveys rejection \
             or backing away. Duration: ~0.08-0.12 seconds. Pure 8-bit synthesis.");
    reveal_strlit("Generate ");
    reveal_strlit("wave");
    reveal_strlit("Duration");
    reveal_strlit("Pure 8-bit synthesis");
    let r = MENU_CANCEL_RECIPE@;
    assert(r.take("Generate "@.len() as int) =~= "Generate "@);
    assert(r.subrange(72int, 72int + "wave"@.len()) =~= "wave"@);
    assert(r.subrange(191int, 191int + "Duration"@.len()) =~= "Duration"@);
    assert(r.subrange(221int, 221int + "Pure 8-bit synthesis"@.len()) =~= "Pure 8-bit synthesis"@);
}

proof fn lemma_pause_recipe()
    ensures
        is_synthesis_recipe(PAUSE_RECIPE@),
        (PAUSE_RECIPE@.len(), PAUSE_RECIPE@[11]) == recipe_signature(SfxPreset::Pause),
{
    reveal_strlit("Generate a pause menu open sound effect. \
             A clean square wave tone at ~600Hz with a slight upward bend, \
             ~0.1 seconds, ending with a brief silence gap. Neutral and clean. \
             Duration: ~0.1-0.15 seconds. Pure 8-bit synthesis.");
    reveal_strlit("Generate ");
    reveal_strlit("wave");
    reveal_strlit("Duration");
    reveal_strlit("Pure 8-bit synthesis");
    let r = PAUSE_RECIPE@;
    assert(r.take("Generate "@.len() as int) =~= "Generate "@);
    assert(r.subrange(56int, 56int + "wave"@.len()) =~= "wave"@);
    assert(r.subrange(169int, 169int + "Duration"@.len()) =~= "Duration"@);
    assert(r.subrange(198int, 198int + "Pure 8-bit synthesis"@.len()) =~= "Pure 8-bit synthesis"@);
}

proof fn lemma_door_recipe()
    ensures
        is_synthesis_recipe(DOOR_RECIPE@),
        (DOOR_RECIPE@.len(), DOOR_RECIPE@[11]) == recipe_signature(SfxPreset::Door),
{
    reveal_strlit("Generate a door opening sound effect. \
             A square wave playing a short ascending two-note motif (F4-C5) with \
             a brief noise 'creak' layered on top (~0.1s noise at low volume). \
             Duration: ~0.2-0.3 seconds. Pure 8-bit synthesis.");
    reveal_strlit("Generate ");
    reveal_strlit("wave");
    reveal_strlit("Duration");
    reveal_strlit("Pure 8-bit synthesis");
    let r = DOOR_RECIPE@;
    assert(r.take("Generate "@.len() as int) =~= "Generate "@);
    assert(r.subrange(47int, 47int + "wave"@.len()) =~= "wave"@);
    assert(r.subrange(172int, 172int + "Duration"@.len()) =~= "Duration"@);
    assert(r.subrange(200int, 200int + "Pure 8-bit synthesis"@.len()) =~= "Pure 8-bit synthesis"@);
}

proof fn lemma_chest_recipe()
    ensures
        is_synthesis_recipe(CHEST_RECIPE@),
        (CHEST_RECIPE@.len(), CHEST_RECIPE@[11]) == recipe_signature(SfxPreset::Chest),
{
    reveal_strlit("Generate a treasure chest opening sound effect. \
             An ascending arpeggio on square wave: C4-E4-G4-C5, ~80ms per note, \
             with the final note ringing briefly and decaying. Similar to a power-up \
             but more deliberate and 'revealing'. Duration: ~0.4-0.6 seconds. \
             Pure 8-bit synthesis.");
    reveal_strlit("Generate ");
    reveal_strlit("wave");
    reveal_strlit("Duration");
    reveal_strlit("Pure 8-bit synthesis");
    let r = CHEST_RECIPE@;
    assert(r.take("Generate "@.len() as int) =~= "Generate "@);
    assert(r.subrange(80int, 80int + "wave"@.len()) =~= "wave"@);
    assert(r.subrange(224int, 224int + "Duration"@.len()) =~= "Duration"@);
    assert(r.subrange(252int, 252int + "Pure 8-bit synthesis"@.len()) =~= "Pure 8-bit synthesis"@);
}

proof fn lemma_warp_recipe()
    ensures
        is_synthesis_recipe(WARP_RECIPE@),
        (WARP_RECIPE@.len(), WARP_RECIPE@[11]) == recipe_signature(SfxPreset::Warp),
{
    reveal_strlit("Generate a warp/teleport sound effect. \
             A square wave with rapid oscillating pitch (vibrato) that sweeps from \
             low (~200Hz) to high (~1500Hz) over ~0.4 seconds, then cuts off. \
             The fast vibrato creates a 'warbling' quality. Duration: ~0.3-0.5 seconds. \
             Pure 8-bit synthesis.");
    reveal_strlit("Generate ");
    reveal_strlit("wave");
    reveal_strlit("Duration");
    reveal_strlit("Pure 8-bit synthesis");
    let r = WARP_RECIPE@;
    assert(r.take("Generate "@.len() as int) =~= "Generate "@);
    assert(r.subrange(48int, 48int + "wave"@.len()) =~= "wave"@);
    assert(r.subrange(221int, 221int + "Duration"@.len()) =~= "Duration"@);
    assert(r.subrange(249int, 249int + "Pure 8-bit synthesis"@.len()) =~= "Pure 8-bit synthesis"@);
}

proof fn lemma_recipe_facts(p: SfxPreset)
    ensures
        is_synthesis_recipe(p.recipe_text()),
        (p.recipe_text().len(), p.recipe_text()[11]) == recipe_signature(p),
{
    match p {
        SfxPreset::OneUp => lemma_one_up_recipe(),
        SfxPreset::PowerUp => lemma_power_up_recipe(),
        SfxPreset::Star => lemma_star_recipe(),
        SfxPreset::Coin => lemma_coin_recipe(),
        SfxPreset::Item => lemma_item_recipe(),
        SfxPreset::Jump => lemma_jump_recipe(),
        SfxPreset::Dash => lemma_dash_recipe(),
        SfxPreset::Land => lemma_land_recipe(),
        SfxPreset::Shoot => lemma_shoot_recipe(),
        SfxPreset::Explosion => lemma_explosion_recipe(),
        SfxPreset::Hit => lemma_hit_recipe(),
        SfxPreset::Sword => lemma_sword_recipe(),
        SfxPreset::Death => lemma_death_recipe(),
        SfxPreset::Victory => lemma_victory_recipe(),
        SfxPreset::MenuSelect => lemma_menu_select_recipe(),
        SfxPreset::MenuConfirm => lemma_menu_confirm_recipe(),
        SfxPreset::MenuCancel => lemma_menu_cancel_recipe(),
        SfxPreset::Pause => lemma_pause_recipe(),
        SfxPreset::Door => lemma_door_recipe(),
        SfxPreset::Chest => lemma_chest_recipe(),
        SfxPreset::Warp => lemma_warp_recipe(),
    }
}

/// Every recipe is a synthesis recipe: it starts with "Generate ", names a
/// wave, gives a duration and asks for pure 8-bit synthesis.
pub proof fn law_every_recipe_is_a_synthesis_recipe(preset: Seq<char>)
    ensures
        preset_recipe_of(preset) matches Some(r) ==> is_synthesis_recipe(r),
{
    if let Some(p) = preset_named(normalize_preset(preset)) {
        lemma_recipe_facts(p);
    }
}

/// Different presets have different recipes.
pub proof fn law_recipes_are_distinct(p: SfxPreset, q: SfxPreset)
    ensures
        p.recipe_text() == q.recipe_text() ==> p == q,
{
    lemma_recipe_facts(p);
    lemma_recipe_facts(q);
}

/// Two recognized names find the same recipe exactly when they name the same
/// preset, that is, when their normalized forms are aliases of one preset.
pub proof fn law_same_recipe_iff_same_preset(s1: Seq<char>, s2: Seq<char>)
    ensures
        (preset_recipe_of(s1) is Some && preset_recipe_of(s2) is Some) ==> (preset_recipe_of(s1)
            == preset_recipe_of(s2) <==> preset_named(normalize_preset(s1)) == preset_named(
            normalize_preset(s2),
        )),
{
    if let (Some(p), Some(q)) = (
        preset_named(normalize_preset(s1)),
        preset_named(normalize_preset(s2)),
    ) {
        law_recipes_are_distinct(p, q);
    }
}

// --- The alias table ---

proof fn lemma_alias_is_normalized(alias: Seq<char>)
    requires
        is_normalized_name(alias),
    ensures
        normalize_preset(alias) == alias,
{
    lemma_normalize_fixes_normalized(alias);
}

proof fn lemma_one_up_aliases()
    ensures
        preset_recipe_of("1up"@) == Some(ONE_UP_RECIPE@),
        preset_recipe_of("oneup"@) == Some(ONE_UP_RECIPE@),
        preset_recipe_of("extralife"@) == Some(ONE_UP_RECIPE@),
        preset_recipe_of("1upsfx"@) == Some(ONE_UP_RECIPE@),
{
    reveal_strlit("1up");
    reveal_strlit("1upsfx");
    reveal_strlit("extralife");
    reveal_strlit("oneup");
    assert(is_normalized_name("1up"@));
    lemma_alias_is_normalized("1up"@);
    assert(is_normalized_name("oneup"@));
    lemma_alias_is_normalized("oneup"@);
    assert(is_normalized_name("extralife"@));
    lemma_alias_is_normalized("extralife"@);
    assert(is_normalized_name("1upsfx"@));
    lemma_alias_is_normalized("1upsfx"@);
}

proof fn lemma_power_up_aliases()
    ensures
        preset_recipe_of("powerup"@) == Some(POWER_UP_RECIPE@),
        preset_recipe_of("mushroom"@) == Some(POWER_UP_RECIPE@),
        preset_recipe_of("growsfx"@) == Some(POWER_UP_RECIPE@),
{
    reveal_strlit("1up");
    reveal_strlit("1upsfx");
    reveal_strlit("extralife");
    reveal_strlit("growsfx");
    reveal_strlit("mushroom");
    reveal_strlit("oneup");
    reveal_strlit("powerup");
    assert(is_normalized_name("powerup"@));
    lemma_alias_is_normalized("powerup"@);
    assert(is_normalized_name("mushroom"@));
    lemma_alias_is_normalized("mushroom"@);
    assert(is_normalized_name("growsfx"@));
    lemma_alias_is_normalized("growsfx"@);
}

proof fn lemma_star_aliases()
    ensures
        preset_recipe_of("star"@) == Some(STAR_RECIPE@),
        preset_recipe_of("invincible"@) == Some(STAR_RECIPE@),
        preset_recipe_of("starpower"@) == Some(STAR_RECIPE@),
{
    reveal_strlit("1up");
    reveal_strlit("1upsfx");
    reveal_strlit("extralife");
    reveal_strlit("growsfx");
    reveal_strlit("invincible");
    reveal_strlit("mushroom");
    reveal_strlit("oneup");
    reveal_strlit("powerup");
    reveal_strlit("star");
    reveal_strlit("starpower");
    assert(is_normalized_name("star"@));
    lemma_alias_is_normalized("star"@);
    assert(is_normalized_name("invincible"@));
    lemma_alias_is_normalized("invincible"@);
    assert("starpower"@[0] != "extralife"@[0]);
    assert(is_normalized_name("starpower"@));
    lemma_alias_is_normalized("starpower"@);
}

proof fn lemma_coin_aliases()
    ensures
        preset_recipe_of("coin"@) == Some(COIN_RECIPE@),
        preset_recipe_of("coinsfx"@) == Some(COIN_RECIPE@),
        preset_recipe_of("coincollect"@) == Some(COIN_RECIPE@),
        preset_recipe_of("gem"@) == Some(COIN_RECIPE@),
        preset_recipe_of("ring"@) == Some(COIN_RECIPE@),
{
    reveal_strlit("1up");
    reveal_strlit("1upsfx");
    reveal_strlit("coin");
    reveal_strlit("coincollect");
    reveal_strlit("coinsfx");
    reveal_strlit("extralife");
    reveal_strlit("gem");
    reveal_strlit("growsfx");
    reveal_strlit("invincible");
    reveal_strlit("mushroom");
    reveal_strlit("oneup");
    reveal_strlit("powerup");
    reveal_strlit("ring");
    reveal_strlit("star");
    reveal_strlit("starpower");
    assert("coin"@[0] != "star"@[0]);
    assert(is_normalized_name("coin"@));
    lemma_alias_is_normalized("coin"@);
    assert("coinsfx"@[0] != "powerup"@[0]);
    assert("coinsfx"@[0] != "growsfx"@[0]);
    assert(is_normalized_name("coinsfx"@));
    lemma_alias_is_normalized("coinsfx"@);
    assert(is_normalized_name("coincollect"@));
    lemma_alias_is_normalized("coincollect"@);
    assert("gem"@[0] != "1up"@[0]);
    assert(is_normalized_name("gem"@));
    lemma_alias_is_normalized("gem"@);
    assert("ring"@[0] != "star"@[0]);
    assert(is_normalized_name("ring"@));
    lemma_alias_is_normalized("ring"@);
}

proof fn lemma_item_aliases()
    ensures
        preset_recipe_of("item"@) == Some(ITEM_RECIPE@),
        preset_recipe_of("pickup"@) == Some(ITEM_RECIPE@),
        preset_recipe_of("itemget"@) == Some(ITEM_RECIPE@),
        preset_recipe_of("collect"@) == Some(ITEM_RECIPE@),
{
    reveal_strlit("1up");
    reveal_strlit("1upsfx");
    reveal_strlit("coin");
    reveal_strlit("coincollect");
    reveal_strlit("coinsfx");
    reveal_strlit("collect");
    reveal_strlit("extralife");
    reveal_strlit("gem");
    reveal_strlit("growsfx");
    reveal_strlit("invincible");
    reveal_strlit("item");
    reveal_strlit("itemget");
    reveal_strlit("mushroom");
    reveal_strlit("oneup");
    reveal_strlit("pickup");
    reveal_strlit("powerup");
    reveal_strlit("ring");
    reveal_strlit("star");
    reveal_strlit("starpower");
    assert("item"@[0] != "star"@[0]);
    assert("item"@[0] != "coin"@[0]);
    assert("item"@[0] != "ring"@[0]);
    assert(is_normalized_name("item"@));
    lemma_alias_is_normalized("item"@);
    assert("pickup"@[0] != "1upsfx"@[0]);
    assert(is_normalized_name("pickup"@));
    lemma_alias_is_normalized("pickup"@);
    assert("itemget"@[0] != "powerup"@[0]);
    assert("itemget"@[0] != "growsfx"@[0]);
    assert("itemget"@[0] != "coinsfx"@[0]);
    assert(is_normalized_name("itemget"@));
    lemma_alias_is_normalized("itemget"@);
    assert("collect"@[0] != "powerup"@[0]);
    assert("collect"@[0] != "growsfx"@[0]);
    assert("collect"@[2] != "coinsfx"@[2]);
    assert(is_normalized_name("collect"@));
    lemma_alias_is_normalized("collect"@);
}

proof fn lemma_jump_aliases()
    ensures
        preset_recipe_of("jump"@) == Some(JUMP_RECIPE@),
        preset_recipe_of("jumpsfx"@) == Some(JUMP_RECIPE@),
        preset_recipe_of("hop"@) == Some(JUMP_RECIPE@),
{
    reveal_strlit("1up");
    reveal_strlit("1upsfx");
    reveal_strlit("coin");
    reveal_strlit("coincollect");
    reveal_strlit("coinsfx");
    reveal_strlit("collect");
    reveal_strlit("extralife");
    reveal_strlit("gem");
    reveal_strlit("growsfx");
    reveal_strlit("hop");
    reveal_strlit("invincible");
    reveal_strlit("item");
    reveal_strlit("itemget");
    reveal_strlit("jump");
    reveal_strlit("jumpsfx");
    reveal_strlit("mushroom");
    reveal_strlit("oneup");
    reveal_strlit("pickup");
    reveal_strlit("powerup");
    reveal_strlit("ring");
    reveal_strlit("star");
    reveal_strlit("starpower");
    assert("jump"@[0] != "star"@[0]);
    assert("jump"@[0] != "coin"@[0]);
    assert("jump"@[0] != "ring"@[0]);
    assert("jump"@[0] != "item"@[0]);
    assert(is_normalized_name("jump"@));
    lemma_alias_is_normalized("jump"@);
    assert("jumpsfx"@[0] != "powerup"@[0]);
    assert("jumpsfx"@[0] != "growsfx"@[0]);
    assert("jumpsfx"@[0] != "coinsfx"@[0]);
    assert("jumpsfx"@[0] != "itemget"@[0]);
    assert("jumpsfx"@[0] != "collect"@[0]);
    assert(is_normalized_name("jumpsfx"@));
    lemma_alias_is_normalized("jumpsfx"@);
    assert("hop"@[0] != "1up"@[0]);
    assert("hop"@[0] != "gem"@[0]);
    assert(is_normalized_name("hop"@));
    lemma_alias_is_normalized("hop"@);
}

proof fn lemma_dash_aliases()
    ensures
        preset_recipe_of("dash"@) == Some(DASH_RECIPE@),
        preset_recipe_of("dodge"@) == Some(DASH_RECIPE@),
        preset_recipe_of("slide"@) == Some(DASH_RECIPE@),
{
    reveal_strlit("1up");
    reveal_strlit("1upsfx");
    reveal_strlit("coin");
    reveal_strlit("coincollect");
    reveal_strlit("coinsfx");
    reveal_strlit("collect");
    reveal_strlit("dash");
    reveal_strlit("dodge");
    reveal_strlit("extralife");
    reveal_strlit("gem");
    reveal_strlit("growsfx");
    reveal_strlit("hop");
    reveal_strlit("invincible");
    reveal_strlit("item");
    reveal_strlit("itemget");
    reveal_strlit("jump");
    reveal_strlit("jumpsfx");
    reveal_strlit("mushroom");
    reveal_strlit("oneup");
    reveal_strlit("pickup");
    reveal_strlit("powerup");
    reveal_strlit("ring");
    reveal_strlit("slide");
    reveal_strlit("star");
    reveal_strlit("starpower");
    assert("dash"@[0] != "star"@[0]);
    assert("dash"@[0] != "coin"@[0]);
    assert("dash"@[0] != "ring"@[0]);
    assert("dash"@[0] != "item"@[0]);
    assert("dash"@[0] != "jump"@[0]);
    assert(is_normalized_name("dash"@));
    lemma_alias_is_normalized("dash"@);
    assert("dodge"@[0] != "oneup"@[0]);
    assert(is_normalized_name("dodge"@));
    lemma_alias_is_normalized("dodge"@);
    assert("slide"@[0] != "oneup"@[0]);
    assert(is_normalized_name("slide"@));
    lemma_alias_is_normalized("slide"@);
}

proof fn lemma_land_aliases()
    ensures
        preset_recipe_of("land"@) == Some(LAND_RECIPE@),
        preset_recipe_of("landing"@) == Some(LAND_RECIPE@),
        preset_recipe_of("stomp"@) == Some(LAND_RECIPE@),
{
    reveal_strlit("1up");
    reveal_strlit("1upsfx");
    reveal_strlit("coin");
    reveal_strlit("coincollect");
    reveal_strlit("coinsfx");
    reveal_strlit("collect");
    reveal_strlit("dash");
    reveal_strlit("dodge");
    reveal_strlit("extralife");
    reveal_strlit("gem");
    reveal_strlit("growsfx");
    reveal_strlit("hop");
    reveal_strlit("invincible");
    reveal_strlit("item");
    reveal_strlit("itemget");
    reveal_strlit("jump");
    reveal_strlit("jumpsfx");
    reveal_strlit("land");
    reveal_strlit("landing");
    reveal_strlit("mushroom");
    reveal_strlit("oneup");
    reveal_strlit("pickup");
    reveal_strlit("powerup");
    reveal_strlit("ring");
    reveal_strlit("slide");
    reveal_strlit("star");
    reveal_strlit("starpower");
    reveal_strlit("stomp");
    assert("land"@[0] != "star"@[0]);
    assert("land"@[0] != "coin"@[0]);
    assert("land"@[0] != "ring"@[0]);
    assert("land"@[0] != "item"@[0]);
    assert("land"@[0] != "jump"@[0]);
    assert("land"@[0] != "dash"@[0]);
    assert(is_normalized_name("land"@));
    lemma_alias_is_normalized("land"@);
    assert("landing"@[0] != "powerup"@[0]);
    assert("landing"@[0] != "growsfx"@[0]);
    assert("landing"@[0] != "coinsfx"@[0]);
    assert("landing"@[0] != "itemget"@[0]);
    assert("landing"@[0] != "collect"@[0]);
    assert("landing"@[0] != "jumpsfx"@[0]);
    assert(is_normalized_name("landing"@));
    lemma_alias_is_normalized("landing"@);
    assert("stomp"@[0] != "oneup"@[0]);
    assert("stomp"@[0] != "dodge"@[0]);
    assert("stomp"@[1] != "slide"@[1]);
    assert(is_normalized_name("stomp"@));
    lemma_alias_is_normalized("stomp"@);
}

proof fn lemma_shoot_aliases()
    ensures
        preset_recipe_of("shoot"@) == Some(SHOOT_RECIPE@),
        preset_recipe_of("laser"@) == Some(SHOOT_RECIPE@),
        preset_recipe_of("fire"@) == Some(SHOOT_RECIPE@),
        preset_recipe_of("projectile"@) == Some(SHOOT_RECIPE@),
        preset_recipe_of("pew"@) == Some(SHOOT_RECIPE@),
{
    reveal_strlit("1up");
    reveal_strlit("1upsfx");
    reveal_strlit("coin");
    reveal_strlit("coincollect");
    reveal_strlit("coinsfx");
    reveal_strlit("collect");
    reveal_strlit("dash");
    reveal_strlit("dodge");
    reveal_strlit("extralife");
    reveal_strlit("fire");
    reveal_strlit("gem");
    reveal_strlit("growsfx");
    reveal_strlit("hop");
    reveal_strlit("invincible");
    reveal_strlit("item");
    reveal_strlit("itemget");
    reveal_strlit("jump");
    reveal_strlit("jumpsfx");
    reveal_strlit("land");
    reveal_strlit("landing");
    reveal_strlit("laser");
    reveal_strlit("mushroom");
    reveal_strlit("oneup");
    reveal_strlit("pew");
    reveal_strlit("pickup");
    reveal_strlit("powerup");
    reveal_strlit("projectile");
    reveal_strlit("ring");
    reveal_strlit("shoot");
    reveal_strlit("slide");
    reveal_strlit("star");
    reveal_strlit("starpower");
    reveal_strlit("stomp");
    assert("shoot"@[0] != "oneup"@[0]);
    assert("shoot"@[0] != "dodge"@[0]);
    assert("shoot"@[1] != "slide"@[1]);
    assert("shoot"@[1] != "stomp"@[1]);
    assert(is_normalized_name("shoot"@));
    lemma_alias_is_normalized("shoot"@);
    assert("laser"@[0] != "oneup"@[0]);
    assert("laser"@[0] != "dodge"@[0]);
    assert("laser"@[0] != "slide"@[0]);
    assert("laser"@[0] != "stomp"@[0]);
    assert(is_normalized_name("laser"@));
    lemma_alias_is_normalized("laser"@);
    assert("fire"@[0] != "star"@[0]);
    assert("fire"@[0] != "coin"@[0]);
    assert("fire"@[0] != "ring"@[0]);
    assert("fire"@[0] != "item"@[0]);
    assert("fire"@[0] != "jump"@[0]);
    assert("fire"@[0] != "dash"@[0]);
    assert("fire"@[0] != "land"@[0]);
    assert(is_normalized_name("fire"@));
    lemma_alias_is_normalized("fire"@);
    assert("projectile"@[0] != "invincible"@[0]);
    assert(is_normalized_name("projectile"@));
    lemma_alias_is_normalized("projectile"@);
    assert("pew"@[0] != "1up"@[0]);
    assert("pew"@[0] != "gem"@[0]);
    assert("pew"@[0] != "hop"@[0]);
    assert(is_normalized_name("pew"@));
    lemma_alias_is_normalized("pew"@);
}

proof fn lemma_explosion_aliases()
    ensures
        preset_recipe_of("explosion"@) == Some(EXPLOSION_RECIPE@),
        preset_recipe_of("boom"@) == Some(EXPLOSION_RECIPE@),
        preset_recipe_of("explode"@) == Some(EXPLOSION_RECIPE@),
{
    reveal_strlit("1up");
    reveal_strlit("1upsfx");
    reveal_strlit("boom");
    reveal_strlit("coin");
    reveal_strlit("coincollect");
    reveal_strlit("coinsfx");
    reveal_strlit("collect");
    reveal_strlit("dash");
    reveal_strlit("dodge");
    reveal_strlit("explode");
    reveal_strlit("explosion");
    reveal_strlit("extralife");
    reveal_strlit("fire");
    reveal_strlit("gem");
    reveal_strlit("growsfx");
    reveal_strlit("hop");
    reveal_strlit("invincible");
    reveal_strlit("item");
    reveal_strlit("itemget");
    reveal_strlit("jump");
    reveal_strlit("jumpsfx");
    reveal_strlit("land");
    reveal_strlit("landing");
    reveal_strlit("laser");
    reveal_strlit("mushroom");
    reveal_strlit("oneup");
    reveal_strlit("pew");
    reveal_strlit("pickup");
    reveal_strlit("powerup");
    reveal_strlit("projectile");
    reveal_strlit("ring");
    reveal_strlit("shoot");
    reveal_strlit("slide");
    reveal_strlit("star");
    reveal_strlit("starpower");
    reveal_strlit("stomp");
    assert("explosion"@[2] != "extralife"@[2]);
    assert("explosion"@[0] != "starpower"@[0]);
    assert(is_normalized_name("explosion"@));
    lemma_alias_is_normalized("explosion"@);
    assert("boom"@[0] != "star"@[0]);
    assert("boom"@[0] != "coin"@[0]);
    assert("boom"@[0] != "ring"@[0]);
    assert("boom"@[0] != "item"@[0]);
    assert("boom"@[0] != "jump"@[0]);
    assert("boom"@[0] != "dash"@[0]);
    assert("boom"@[0] != "land"@[0]);
    assert("boom"@[0] != "fire"@[0]);
    assert(is_normalized_name("boom"@));
    lemma_alias_is_normalized("boom"@);
    assert("explode"@[0] != "powerup"@[0]);
    assert("explode"@[0] != "growsfx"@[0]);
    assert("explode"@[0] != "coinsfx"@[0]);
    assert("explode"@[0] != "itemget"@[0]);
    assert("explode"@[0] != "collect"@[0]);
    assert("explode"@[0] != "jumpsfx"@[0]);
    assert("explode"@[0] != "landing"@[0]);
    assert(is_normalized_name("explode"@));
    lemma_alias_is_normalized("explode"@);
}

proof fn lemma_hit_aliases()
    ensures
        preset_recipe_of("hit"@) == Some(HIT_RECIPE@),
        preset_recipe_of("damage"@) == Some(HIT_RECIPE@),
        preset_recipe_of("hurt"@) == Some(HIT_RECIPE@),
        preset_recipe_of("ouch"@) == Some(HIT_RECIPE@),
{
    reveal_strlit("1up");
    reveal_strlit("1upsfx");
    reveal_strlit("boom");
    reveal_strlit("coin");
    reveal_strlit("coincollect");
    reveal_strlit("coinsfx");
    reveal_strlit("collect");
    reveal_strlit("damage");
    reveal_strlit("dash");
    reveal_strlit("dodge");
    reveal_strlit("explode");
    reveal_strlit("explosion");
    reveal_strlit("extralife");
    reveal_strlit("fire");
    reveal_strlit("gem");
    reveal_strlit("growsfx");
    reveal_strlit("hit");
    reveal_strlit("hop");
    reveal_strlit("hurt");
    reveal_strlit("invincible");
    reveal_strlit("item");
    reveal_strlit("itemget");
    reveal_strlit("jump");
    reveal_strlit("jumpsfx");
    reveal_strlit("land");
    reveal_strlit("landing");
    reveal_strlit("laser");
    reveal_strlit("mushroom");
    reveal_strlit("oneup");
    reveal_strlit("ouch");
    reveal_strlit("pew");
    reveal_strlit("pickup");
    reveal_strlit("powerup");
    reveal_strlit("projectile");
    reveal_strlit("ring");
    reveal_strlit("shoot");
    reveal_strlit("slide");
    reveal_strlit("star");
    reveal_strlit("starpower");
    reveal_strlit("stomp");
    assert("hit"@[0] != "1up"@[0]);
    assert("hit"@[0] != "gem"@[0]);
    assert("hit"@[1] != "hop"@[1]);
    assert("hit"@[0] != "pew"@[0]);
    assert(is_normalized_name("hit"@));
    lemma_alias_is_normalized("hit"@);
    assert("damage"@[0] != "1upsfx"@[0]);
    assert("damage"@[0] != "pickup"@[0]);
    assert(is_normalized_name("damage"@));
    lemma_alias_is_normalized("damage"@);
    assert("hurt"@[0] != "star"@[0]);
    assert("hurt"@[0] != "coin"@[0]);
    assert("hurt"@[0] != "ring"@[0]);
    assert("hurt"@[0] != "item"@[0]);
    assert("hurt"@[0] != "jump"@[0]);
    assert("hurt"@[0] != "dash"@[0]);
    assert("hurt"@[0] != "land"@[0]);
    assert("hurt"@[0] != "fire"@[0]);
    assert("hurt"@[0] != "boom"@[0]);
    assert(is_normalized_name("hurt"@));
    lemma_alias_is_normalized("hurt"@);
    assert("ouch"@[0] != "star"@[0]);
    assert("ouch"@[0] != "coin"@[0]);
    assert("ouch"@[0] != "ring"@[0]);
    assert("ouch"@[0] != "item"@[0]);
    assert("ouch"@[0] != "jump"@[0]);
    assert("ouch"@[0] != "dash"@[0]);
    assert("ouch"@[0] != "land"@[0]);
    assert("ouch"@[0] != "fire"@[0]);
    assert("ouch"@[0] != "boom"@[0]);
    assert(is_normalized_name("ouch"@));
    lemma_alias_is_normalized("ouch"@);
}

proof fn lemma_sword_aliases()
    ensures
        preset_recipe_of("sword"@) == Some(SWORD_RECIPE@),
        preset_recipe_of("slash"@) == Some(SWORD_RECIPE@),
        preset_recipe_of("melee"@) == Some(SWORD_RECIPE@),
        preset_recipe_of("swipe"@) == Some(SWORD_RECIPE@),
{
    reveal_strlit("1up");
    reveal_strlit("1upsfx");
    reveal_strlit("boom");
    reveal_strlit("coin");
    reveal_strlit("coincollect");
    reveal_strlit("coinsfx");
    reveal_strlit("collect");
    reveal_strlit("damage");
    reveal_strlit("dash");
    reveal_strlit("dodge");
    reveal_strlit("explode");
    reveal_strlit("explosion");
    reveal_strlit("extralife");
    reveal_strlit("fire");
    reveal_strlit("gem");
    reveal_strlit("growsfx");
    reveal_strlit("hit");
    reveal_strlit("hop");
    reveal_strlit("hurt");
    reveal_strlit("invincible");
    reveal_strlit("item");
    reveal_strlit("itemget");
    reveal_strlit("jump");
    reveal_strlit("jumpsfx");
    reveal_strlit("land");
    reveal_strlit("landing");
    reveal_strlit("laser");
    reveal_strlit("melee");
    reveal_strlit("mushroom");
    reveal_strlit("oneup");
    reveal_strlit("ouch");
    reveal_strlit("pew");
    reveal_strlit("pickup");
    reveal_strlit("powerup");
    reveal_strlit("projectile");
    reveal_strlit("ring");
    reveal_strlit("shoot");
    reveal_strlit("slash");
    reveal_strlit("slide");
    reveal_strlit("star");
    reveal_strlit("starpower");
    reveal_strlit("stomp");
    reveal_strlit("swipe");
    reveal_strlit("sword");
    assert("sword"@[0] != "oneup"@[0]);
    assert("sword"@[0] != "dodge"@[0]);
    assert("sword"@[1] != "slide"@[1]);
    assert("sword"@[1] != "stomp"@[1]);
    assert("sword"@[1] != "shoot"@[1]);
    assert("sword"@[0] != "laser"@[0]);
    assert(is_normalized_name("sword"@));
    lemma_alias_is_normalized("sword"@);
    assert("slash"@[0] != "oneup"@[0]);
    assert("slash"@[0] != "dodge"@[0]);
    assert("slash"@[2] != "slide"@[2]);
    assert("slash"@[1] != "stomp"@[1]);
    assert("slash"@[1] != "shoot"@[1]);
    assert("slash"@[0] != "laser"@[0]);
    assert(is_normalized_name("slash"@));
    lemma_alias_is_normalized("slash"@);
    assert("melee"@[0] != "oneup"@[0]);
    assert("melee"@[0] != "dodge"@[0]);
    assert("melee"@[0] != "slide"@[0]);
    assert("melee"@[0] != "stomp"@[0]);
    assert("melee"@[0] != "shoot"@[0]);
    assert("melee"@[0] != "laser"@[0]);
    assert(is_normalized_name("melee"@));
    lemma_alias_is_normalized("melee"@);
    assert("swipe"@[0] != "oneup"@[0]);
    assert("swipe"@[0] != "dodge"@[0]);
    assert("swipe"@[1] != "slide"@[1]);
    assert("swipe"@[1] != "stomp"@[1]);
    assert("swipe"@[1] != "shoot"@[1]);
    assert("swipe"@[0] != "laser"@[0]);
    assert(is_normalized_name("swipe"@));
    lemma_alias_is_normalized("swipe"@);
}

proof fn lemma_death_aliases()
    ensures
        preset_recipe_of("death"@) == Some(DEATH_RECIPE@),
        preset_recipe_of("die"@) == Some(DEATH_RECIPE@),
        preset_recipe_of("gameover"@) == Some(DEATH_RECIPE@),
        preset_recipe_of("dead"@) == Some(DEATH_RECIPE@),
{
    reveal_strlit("1up");
    reveal_strlit("1upsfx");
    reveal_strlit("boom");
    reveal_strlit("coin");
    reveal_strlit("coincollect");
    reveal_strlit("coinsfx");
    reveal_strlit("collect");
    reveal_strlit("damage");
    reveal_strlit("dash");
    reveal_strlit("dead");
    reveal_strlit("death");
    reveal_strlit("die");
    reveal_strlit("dodge");
    reveal_strlit("explode");
    reveal_strlit("explosion");
    reveal_strlit("extralife");
    reveal_strlit("fire");
    reveal_strlit("gameover");
    reveal_strlit("gem");
    reveal_strlit("growsfx");
    reveal_strlit("hit");
    reveal_strlit("hop");
    reveal_strlit("hurt");
    reveal_strlit("invincible");
    reveal_strlit("item");
    reveal_strlit("itemget");
    reveal_strlit("jump");
    reveal_strlit("jumpsfx");
    reveal_strlit("land");
    reveal_strlit("landing");
    reveal_strlit("laser");
    reveal_strlit("melee");
    reveal_strlit("mushroom");
    reveal_strlit("oneup");
    reveal_strlit("ouch");
    reveal_strlit("pew");
    reveal_strlit("pickup");
    reveal_strlit("powerup");
    reveal_strlit("projectile");
    reveal_strlit("ring");
    reveal_strlit("shoot");
    reveal_strlit("slash");
    reveal_strlit("slide");
    reveal_strlit("star");
    reveal_strlit("starpower");
    reveal_strlit("stomp");
    reveal_strlit("swipe");
    reveal_strlit("sword");
    assert("death"@[0] != "oneup"@[0]);
    assert("death"@[1] != "dodge"@[1]);
    assert("death"@[0] != "slide"@[0]);
    assert("death"@[0] != "stomp"@[0]);
    assert("death"@[0] != "shoot"@[0]);
    assert("death"@[0] != "laser"@[0]);
    assert("death"@[0] != "sword"@[0]);
    assert("death"@[0] != "slash"@[0]);
    assert("death"@[0] != "melee"@[0]);
    assert("death"@[0] != "swipe"@[0]);
    assert(is_normalized_name("death"@));
    lemma_alias_is_normalized("death"@);
    assert("die"@[0] != "1up"@[0]);
    assert("die"@[0] != "gem"@[0]);
    assert("die"@[0] != "hop"@[0]);
    assert("die"@[0] != "pew"@[0]);
    assert("die"@[0] != "hit"@[0]);
    assert(is_normalized_name("die"@));
    lemma_alias_is_normalized("die"@);
    assert("gameover"@[0] != "mushroom"@[0]);
    assert(is_normalized_name("gameover"@));
    lemma_alias_is_normalized("gameover"@);
    assert("dead"@[0] != "star"@[0]);
    assert("dead"@[0] != "coin"@[0]);
    assert("dead"@[0] != "ring"@[0]);
    assert("dead"@[0] != "item"@[0]);
    assert("dead"@[0] != "jump"@[0]);
    assert("dead"@[1] != "dash"@[1]);
    assert("dead"@[0] != "land"@[0]);
    assert("dead"@[0] != "fire"@[0]);
    assert("dead"@[0] != "boom"@[0]);
    assert("dead"@[0] != "hurt"@[0]);
    assert("dead"@[0] != "ouch"@[0]);
    assert(is_normalized_name("dead"@));
    lemma_alias_is_normalized("dead"@);
}

proof fn lemma_victory_aliases()
    ensures
        preset_recipe_of("victory"@) == Some(VICTORY_RECIPE@),
        preset_recipe_of("win"@) == Some(VICTORY_RECIPE@),
        preset_recipe_of("fanfare"@) == Some(VICTORY_RECIPE@),
        preset_recipe_of("levelcomplete"@) == Some(VICTORY_RECIPE@),
{
    reveal_strlit("1up");
    reveal_strlit("1upsfx");
    reveal_strlit("boom");
    reveal_strlit("coin");
    reveal_strlit("coincollect");
    reveal_strlit("coinsfx");
    reveal_strlit("collect");
    reveal_strlit("damage");
    reveal_strlit("dash");
    reveal_strlit("dead");
    reveal_strlit("death");
    reveal_strlit("die");
    reveal_strlit("dodge");
    reveal_strlit("explode");
    reveal_strlit("explosion");
    reveal_strlit("extralife");
    reveal_strlit("fanfare");
    reveal_strlit("fire");
    reveal_strlit("gameover");
    reveal_strlit("gem");
    reveal_strlit("growsfx");
    reveal_strlit("hit");
    reveal_strlit("hop");
    reveal_strlit("hurt");
    reveal_strlit("invincible");
    reveal_strlit("item");
    reveal_strlit("itemget");
    reveal_strlit("jump");
    reveal_strlit("jumpsfx");
    reveal_strlit("land");
    reveal_strlit("landing");
    reveal_strlit("laser");
    reveal_strlit("levelcomplete");
    reveal_strlit("melee");
    reveal_strlit("mushroom");
    reveal_strlit("oneup");
    reveal_strlit("ouch");
    reveal_strlit("pew");
    reveal_strlit("pickup");
    reveal_strlit("powerup");
    reveal_strlit("projectile");
    reveal_strlit("ring");
    reveal_strlit("shoot");
    reveal_strlit("slash");
    reveal_strlit("slide");
    reveal_strlit("star");
    reveal_strlit("starpower");
    reveal_strlit("stomp");
    reveal_strlit("swipe");
    reveal_strlit("sword");
    reveal_strlit("victory");
    reveal_strlit("win");
    assert("victory"@[0] != "powerup"@[0]);
    assert("victory"@[0] != "growsfx"@[0]);
    assert("victory"@[0] != "coinsfx"@[0]);
    assert("victory"@[0] != "itemget"@[0]);
    assert("victory"@[0] != "collect"@[0]);
    assert("victory"@[0] != "jumpsfx"@[0]);
    assert("victory"@[0] != "landing"@[0]);
    assert("victory"@[0] != "explode"@[0]);
    assert(is_normalized_name("victory"@));
    lemma_alias_is_normalized("victory"@);
    assert("win"@[0] != "1up"@[0]);
    assert("win"@[0] != "gem"@[0]);
    assert("win"@[0] != "hop"@[0]);
    assert("win"@[0] != "pew"@[0]);
    assert("win"@[0] != "hit"@[0]);
    assert("win"@[0] != "die"@[0]);
    assert(is_normalized_name("win"@));
    lemma_alias_is_normalized("win"@);
    assert("fanfare"@[0] != "powerup"@[0]);
    assert("fanfare"@[0] != "growsfx"@[0]);
    assert("fanfare"@[0] != "coinsfx"@[0]);
    assert("fanfare"@[0] != "itemget"@[0]);
    assert("fanfare"@[0] != "collect"@[0]);
    assert("fanfare"@[0] != "jumpsfx"@[0]);
    assert("fanfare"@[0] != "landing"@[0]);
    assert("fanfare"@[0] != "explode"@[0]);
    assert(is_normalized_name("fanfare"@));
    lemma_alias_is_normalized("fanfare"@);
    assert(is_normalized_name("levelcomplete"@));
    lemma_alias_is_normalized("levelcomplete"@);
}

proof fn lemma_menu_select_aliases()
    ensures
        preset_recipe_of("select"@) == Some(MENU_SELECT_RECIPE@),
        preset_recipe_of("menuselect"@) == Some(MENU_SELECT_RECIPE@),
        preset_recipe_of("cursor"@) == Some(MENU_SELECT_RECIPE@),
        preset_recipe_of("blip"@) == Some(MENU_SELECT_RECIPE@),
{
    reveal_strlit("1up");
    reveal_strlit("1upsfx");
    reveal_strlit("blip");
    reveal_strlit("boom");
    reveal_strlit("coin");
    reveal_strlit("coincollect");
    reveal_strlit("coinsfx");
    reveal_strlit("collect");
    reveal_strlit("cursor");
    reveal_strlit("damage");
    reveal_strlit("dash");
    reveal_strlit("dead");
    reveal_strlit("death");
    reveal_strlit("die");
    reveal_strlit("dodge");
    reveal_strlit("explode");
    reveal_strlit("explosion");
    reveal_strlit("extralife");
    reveal_strlit("fanfare");
    reveal_strlit("fire");
    reveal_strlit("gameover");
    reveal_strlit("gem");
    reveal_strlit("growsfx");
    reveal_strlit("hit");
    reveal_strlit("hop");
    reveal_strlit("hurt");
    reveal_strlit("invincible");
    reveal_strlit("item");
    reveal_strlit("itemget");
    reveal_strlit("jump");
    reveal_strlit("jumpsfx");
    reveal_strlit("land");
    reveal_strlit("landing");
    reveal_strlit("laser");
    reveal_strlit("levelcomplete");
    reveal_strlit("melee");
    reveal_strlit("menuselect");
    reveal_strlit("mushroom");
    reveal_strlit("oneup");
    reveal_strlit("ouch");
    reveal_strlit("pew");
    reveal_strlit("pickup");
    reveal_strlit("powerup");
    reveal_strlit("projectile");
    reveal_strlit("ring");
    reveal_strlit("select");
    reveal_strlit("shoot");
    reveal_strlit("slash");
    reveal_strlit("slide");
    reveal_strlit("star");
    reveal_strlit("starpower");
    reveal_strlit("stomp");
    reveal_strlit("swipe");
    reveal_strlit("sword");
    reveal_strlit("victory");
    reveal_strlit("win");
    assert("select"@[0] != "1upsfx"@[0]);
    assert("select"@[0] != "pickup"@[0]);
    assert("select"@[0] != "damage"@[0]);
    assert(is_normalized_name("select"@));
    lemma_alias_is_normalized("select"@);
    assert("menuselect"@[0] != "invincible"@[0]);
    assert("menuselect"@[0] != "projectile"@[0]);
    assert(is_normalized_name("menuselect"@));
    lemma_alias_is_normalized("menuselect"@);
    assert("cursor"@[0] != "1upsfx"@[0]);
    assert("cursor"@[0] != "pickup"@[0]);
    assert("cursor"@[0] != "damage"@[0]);
    assert(is_normalized_name("cursor"@));
    lemma_alias_is_normalized("cursor"@);
    assert("blip"@[0] != "star"@[0]);
    assert("blip"@[0] != "coin"@[0]);
    assert("blip"@[0] != "ring"@[0]);
    assert("blip"@[0] != "item"@[0]);
    assert("blip"@[0] != "jump"@[0]);
    assert("blip"@[0] != "dash"@[0]);
    assert("blip"@[0] != "land"@[0]);
    assert("blip"@[0] != "fire"@[0]);
    assert("blip"@[1] != "boom"@[1]);
    assert("blip"@[0] != "hurt"@[0]);
    assert("blip"@[0] != "ouch"@[0]);
    assert("blip"@[0] != "dead"@[0]);
    assert(is_normalized_name("blip"@));
    lemma_alias_is_normalized("blip"@);
}

proof fn lemma_menu_confirm_aliases()
    ensures
        preset_recipe_of("confirm"@) == Some(MENU_CONFIRM_RECIPE@),
        preset_recipe_of("ok"@) == Some(MENU_CONFIRM_RECIPE@),
        preset_recipe_of("accept"@) == Some(MENU_CONFIRM_RECIPE@),
        preset_recipe_of("menuconfirm"@) == Some(MENU_CONFIRM_RECIPE@),
{
    reveal_strlit("1up");
    reveal_strlit("1upsfx");
    reveal_strlit("accept");
    reveal_strlit("blip");
    reveal_strlit("boom");
    reveal_strlit("coin");
    reveal_strlit("coincollect");
    reveal_strlit("coinsfx");
    reveal_strlit("collect");
    reveal_strlit("confirm");
    reveal_strlit("cursor");
    reveal_strlit("damage");
    reveal_strlit("dash");
    reveal_strlit("dead");
    reveal_strlit("death");
    reveal_strlit("die");
    reveal_strlit("dodge");
    reveal_strlit("explode");
    reveal_strlit("explosion");
    reveal_strlit("extralife");
    reveal_strlit("fanfare");
    reveal_strlit("fire");
    reveal_strlit("gameover");
    reveal_strlit("gem");
    reveal_strlit("growsfx");
    reveal_strlit("hit");
    reveal_strlit("hop");
    reveal_strlit("hurt");
    reveal_strlit("invincible");
    reveal_strlit("item");
    reveal_strlit("itemget");
    reveal_strlit("jump");
    reveal_strlit("jumpsfx");
    reveal_strlit("land");
    reveal_strlit("landing");
    reveal_strlit("laser");
    reveal_strlit("levelcomplete");
    reveal_strlit("melee");
    reveal_strlit("menuconfirm");
    reveal_strlit("menuselect");
    reveal_strlit("mushroom");
    reveal_strlit("ok");
    reveal_strlit("oneup");
    reveal_strlit("ouch");
    reveal_strlit("pew");
    reveal_strlit("pickup");
    reveal_strlit("powerup");
    reveal_strlit("projectile");
    reveal_strlit("ring");
    reveal_strlit("select");
    reveal_strlit("shoot");
    reveal_strlit("slash");
    reveal_strlit("slide");
    reveal_strlit("star");
    reveal_strlit("starpower");
    reveal_strlit("stomp");
    reveal_strlit("swipe");
    reveal_strlit("sword");
    reveal_strlit("victory");
    reveal_strlit("win");
    assert("confirm"@[0] != "powerup"@[0]);
    assert("confirm"@[0] != "growsfx"@[0]);
    assert("confirm"@[2] != "coinsfx"@[2]);
    assert("confirm"@[0] != "itemget"@[0]);
    assert("confirm"@[2] != "collect"@[2]);
    assert("confirm"@[0] != "jumpsfx"@[0]);
    assert("confirm"@[0] != "landing"@[0]);
    assert("confirm"@[0] != "explode"@[0]);
    assert("confirm"@[0] != "victory"@[0]);
    assert("confirm"@[0] != "fanfare"@[0]);
    assert(is_normalized_name("confirm"@));
    lemma_alias_is_normalized("confirm"@);
    assert(is_normalized_name("ok"@));
    lemma_alias_is_normalized("ok"@);
    assert("accept"@[0] != "1upsfx"@[0]);
    assert("accept"@[0] != "pickup"@[0]);
    assert("accept"@[0] != "damage"@[0]);
    assert("accept"@[0] != "select"@[0]);
    assert("accept"@[0] != "cursor"@[0]);
    assert(is_normalized_name("accept"@));
    lemma_alias_is_normalized("accept"@);
    assert("menuconfirm"@[0] != "coincollect"@[0]);
    assert(is_normalized_name("menuconfirm"@));
    lemma_alias_is_normalized("menuconfirm"@);
}

proof fn lemma_menu_cancel_aliases()
    ensures
        preset_recipe_of("cancel"@) == Some(MENU_CANCEL_RECIPE@),
        preset_recipe_of("back"@) == Some(MENU_CANCEL_RECIPE@),
        preset_recipe_of("menucancel"@) == Some(MENU_CANCEL_RECIPE@),
        preset_recipe_of("deny"@) == Some(MENU_CANCEL_RECIPE@),
{
    reveal_strlit("1up");
    reveal_strlit("1upsfx");
    reveal_strlit("accept");
    reveal_strlit("back");
    reveal_strlit("blip");
    reveal_strlit("boom");
    reveal_strlit("cancel");
    reveal_strlit("coin");
    reveal_strlit("coincollect");
    reveal_strlit("coinsfx");
    reveal_strlit("collect");
    reveal_strlit("confirm");
    reveal_strlit("cursor");
    reveal_strlit("damage");
    reveal_strlit("dash");
    reveal_strlit("dead");
    reveal_strlit("death");
    reveal_strlit("deny");
    reveal_strlit("die");
    reveal_strlit("dodge");
    reveal_strlit("explode");
    reveal_strlit("explosion");
    reveal_strlit("extralife");
    reveal_strlit("fanfare");
    reveal_strlit("fire");
    reveal_strlit("gameover");
    reveal_strlit("gem");
    reveal_strlit("growsfx");
    reveal_strlit("hit");
    reveal_strlit("hop");
    reveal_strlit("hurt");
    reveal_strlit("invincible");
    reveal_strlit("item");
    reveal_strlit("itemget");
    reveal_strlit("jump");
    reveal_strlit("jumpsfx");
    reveal_strlit("land");
    reveal_strlit("landing");
    reveal_strlit("laser");
    reveal_strlit("levelcomplete");
    reveal_strlit("melee");
    reveal_strlit("menucancel");
    reveal_strlit("menuconfirm");
    reveal_strlit("menuselect");
    reveal_strlit("mushroom");
    reveal_strlit("ok");
    reveal_strlit("oneup");
    reveal_strlit("ouch");
    reveal_strlit("pew");
    reveal_strlit("pickup");
    reveal_strlit("powerup");
    reveal_strlit("projectile");
    reveal_strlit("ring");
    reveal_strlit("select");
    reveal_strlit("shoot");
    reveal_strlit("slash");
    reveal_strlit("slide");
    reveal_strlit("star");
    reveal_strlit("starpower");
    reveal_strlit("stomp");
    reveal_strlit("swipe");
    reveal_strlit("sword");
    reveal_strlit("victory");
    reveal_strlit("win");
    assert("cancel"@[0] != "1upsfx"@[0]);
    assert("cancel"@[0] != "pickup"@[0]);
    assert("cancel"@[0] != "damage"@[0]);
    assert("cancel"@[0] != "select"@[0]);
    assert("cancel"@[1] != "cursor"@[1]);
    assert("cancel"@[0] != "accept"@[0]);
    assert(is_normalized_name("cancel"@));
    lemma_alias_is_normalized("cancel"@);
    assert("back"@[0] != "star"@[0]);
    assert("back"@[0] != "coin"@[0]);
    assert("back"@[0] != "ring"@[0]);
    assert("back"@[0] != "item"@[0]);
    assert("back"@[0] != "jump"@[0]);
    assert("back"@[0] != "dash"@[0]);
    assert("back"@[0] != "land"@[0]);
    assert("back"@[0] != "fire"@[0]);
    assert("back"@[1] != "boom"@[1]);
    assert("back"@[0] != "hurt"@[0]);
    assert("back"@[0] != "ouch"@[0]);
    assert("back"@[0] != "dead"@[0]);
    assert("back"@[1] != "blip"@[1]);
    assert(is_normalized_name("back"@));
    lemma_alias_is_normalized("back"@);
    assert("menucancel"@[0] != "invincible"@[0]);
    assert("menucancel"@[0] != "projectile"@[0]);
    assert("menucancel"@[4] != "menuselect"@[4]);
    assert(is_normalized_name("menucancel"@));
    lemma_alias_is_normalized("menucancel"@);
    assert("deny"@[0] != "star"@[0]);
    assert("deny"@[0] != "coin"@[0]);
    assert("deny"@[0] != "ring"@[0]);
    assert("deny"@[0] != "item"@[0]);
    assert("deny"@[0] != "jump"@[0]);
    assert("deny"@[1] != "dash"@[1]);
    assert("deny"@[0] != "land"@[0]);
    assert("deny"@[0] != "fire"@[0]);
    assert("deny"@[0] != "boom"@[0]);
    assert("deny"@[0] != "hurt"@[0]);
    assert("deny"@[0] != "ouch"@[0]);
    assert("deny"@[2] != "dead"@[2]);
    assert("deny"@[0] != "blip"@[0]);
    assert(is_normalized_name("deny"@));
    lemma_alias_is_normalized("deny"@);
}

proof fn lemma_pause_aliases()
    ensures
        preset_recipe_of("pause"@) == Some(PAUSE_RECIPE@),
        preset_recipe_of("menuopen"@) == Some(PAUSE_RECIPE@),
{
    reveal_strlit("1up");
    reveal_strlit("1upsfx");
    reveal_strlit("accept");
    reveal_strlit("back");
    reveal_strlit("blip");
    reveal_strlit("boom");
    reveal_strlit("cancel");
    reveal_strlit("coin");
    reveal_strlit("coincollect");
    reveal_strlit("coinsfx");
    reveal_strlit("collect");
    reveal_strlit("confirm");
    reveal_strlit("cursor");
    reveal_strlit("damage");
    reveal_strlit("dash");
    reveal_strlit("dead");
    reveal_strlit("death");
    reveal_strlit("deny");
    reveal_strlit("die");
    reveal_strlit("dodge");
    reveal_strlit("explode");
    reveal_strlit("explosion");
    reveal_strlit("extralife");
    reveal_strlit("fanfare");
    reveal_strlit("fire");
    reveal_strlit("gameover");
    reveal_strlit("gem");
    reveal_strlit("growsfx");
    reveal_strlit("hit");
    reveal_strlit("hop");
    reveal_strlit("hurt");
    reveal_strlit("invincible");
    reveal_strlit("item");
    reveal_strlit("itemget");
    reveal_strlit("jump");
    reveal_strlit("jumpsfx");
    reveal_strlit("land");
    reveal_strlit("landing");
    reveal_strlit("laser");
    reveal_strlit("levelcomplete");
    reveal_strlit("melee");
    reveal_strlit("menucancel");
    reveal_strlit("menuconfirm");
    reveal_strlit("menuopen");
    reveal_strlit("menuselect");
    reveal_strlit("mushroom");
    reveal_strlit("ok");
    reveal_strlit("oneup");
    reveal_strlit("ouch");
    reveal_strlit("pause");
    reveal_strlit("pew");
    reveal_strlit("pickup");
    reveal_strlit("powerup");
    reveal_strlit("projectile");
    reveal_strlit("ring");
    reveal_strlit("select");
    reveal_strlit("shoot");
    reveal_strlit("slash");
    reveal_strlit("slide");
    reveal_strlit("star");
    reveal_strlit("starpower");
    reveal_strlit("stomp");
    reveal_strlit("swipe");
    reveal_strlit("sword");
    reveal_strlit("victory");
    reveal_strlit("win");
    assert("pause"@[0] != "oneup"@[0]);
    assert("pause"@[0] != "dodge"@[0]);
    assert("pause"@[0] != "slide"@[0]);
    assert("pause"@[0] != "stomp"@[0]);
    assert("pause"@[0] != "shoot"@[0]);
    assert("pause"@[0] != "laser"@[0]);
    assert("pause"@[0] != "sword"@[0]);
    assert("pause"@[0] != "slash"@[0]);
    assert("pause"@[0] != "melee"@[0]);
    assert("pause"@[0] != "swipe"@[0]);
    assert("pause"@[0] != "death"@[0]);
    assert(is_normalized_name("pause"@));
    lemma_alias_is_normalized("pause"@);
    assert("menuopen"@[1] != "mushroom"@[1]);
    assert("menuopen"@[0] != "gameover"@[0]);
    assert(is_normalized_name("menuopen"@));
    lemma_alias_is_normalized("menuopen"@);
}

proof fn lemma_door_aliases()
    ensures
        preset_recipe_of("door"@) == Some(DOOR_RECIPE@),
        preset_recipe_of("dooropen"@) == Some(DOOR_RECIPE@),
        preset_recipe_of("gate"@) == Some(DOOR_RECIPE@),
{
    reveal_strlit("1up");
    reveal_strlit("1upsfx");
    reveal_strlit("accept");
    reveal_strlit("back");
    reveal_strlit("blip");
    reveal_strlit("boom");
    reveal_strlit("cancel");
    reveal_strlit("coin");
    reveal_strlit("coincollect");
    reveal_strlit("coinsfx");
    reveal_strlit("collect");
    reveal_strlit("confirm");
    reveal_strlit("cursor");
    reveal_strlit("damage");
    reveal_strlit("dash");
    reveal_strlit("dead");
    reveal_strlit("death");
    reveal_strlit("deny");
    reveal_strlit("die");
    reveal_strlit("dodge");
    reveal_strlit("door");
    reveal_strlit("dooropen");
    reveal_strlit("explode");
    reveal_strlit("explosion");
    reveal_strlit("extralife");
    reveal_strlit("fanfare");
    reveal_strlit("fire");
    reveal_strlit("gameover");
    reveal_strlit("gate");
    reveal_strlit("gem");
    reveal_strlit("growsfx");
    reveal_strlit("hit");
    reveal_strlit("hop");
    reveal_strlit("hurt");
    reveal_strlit("invincible");
    reveal_strlit("item");
    reveal_strlit("itemget");
    reveal_strlit("jump");
    reveal_strlit("jumpsfx");
    reveal_strlit("land");
    reveal_strlit("landing");
    reveal_strlit("laser");
    reveal_strlit("levelcomplete");
    reveal_strlit("melee");
    reveal_strlit("menucancel");
    reveal_strlit("menuconfirm");
    reveal_strlit("menuopen");
    reveal_strlit("menuselect");
    reveal_strlit("mushroom");
    reveal_strlit("ok");
    reveal_strlit("oneup");
    reveal_strlit("ouch");
    reveal_strlit("pause");
    reveal_strlit("pew");
    reveal_strlit("pickup");
    reveal_strlit("powerup");
    reveal_strlit("projectile");
    reveal_strlit("ring");
    reveal_strlit("select");
    reveal_strlit("shoot");
    reveal_strlit("slash");
    reveal_strlit("slide");
    reveal_strlit("star");
    reveal_strlit("starpower");
    reveal_strlit("stomp");
    reveal_strlit("swipe");
    reveal_strlit("sword");
    reveal_strlit("victory");
    reveal_strlit("win");
    assert("door"@[0] != "star"@[0]);
    assert("door"@[0] != "coin"@[0]);
    assert("door"@[0] != "ring"@[0]);
    assert("door"@[0] != "item"@[0]);
    assert("door"@[0] != "jump"@[0]);
    assert("door"@[1] != "dash"@[1]);
    assert("door"@[0] != "land"@[0]);
    assert("door"@[0] != "fire"@[0]);
    assert("door"@[0] != "boom"@[0]);
    assert("door"@[0] != "hurt"@[0]);
    assert("door"@[0] != "ouch"@[0]);
    assert("door"@[1] != "dead"@[1]);
    assert("door"@[0] != "blip"@[0]);
    assert("door"@[0] != "back"@[0]);
    assert("door"@[1] != "deny"@[1]);
    assert(is_normalized_name("door"@));
    lemma_alias_is_normalized("door"@);
    assert("dooropen"@[0] != "mushroom"@[0]);
    assert("dooropen"@[0] != "gameover"@[0]);
    assert("dooropen"@[0] != "menuopen"@[0]);
    assert(is_normalized_name("dooropen"@));
    lemma_alias_is_normalized("dooropen"@);
    assert("gate"@[0] != "star"@[0]);
    assert("gate"@[0] != "coin"@[0]);
    assert("gate"@[0] != "ring"@[0]);
    assert("gate"@[0] != "item"@[0]);
    assert("gate"@[0] != "jump"@[0]);
    assert("gate"@[0] != "dash"@[0]);
    assert("gate"@[0] != "land"@[0]);
    assert("gate"@[0] != "fire"@[0]);
    assert("gate"@[0] != "boom"@[0]);
    assert("gate"@[0] != "hurt"@[0]);
    assert("gate"@[0] != "ouch"@[0]);
    assert("gate"@[0] != "dead"@[0]);
    assert("gate"@[0] != "blip"@[0]);
    assert("gate"@[0] != "back"@[0]);
    assert("gate"@[0] != "deny"@[0]);
    assert(is_normalized_name("gate"@));
    lemma_alias_is_normalized("gate"@);
}

proof fn lemma_chest_aliases()
    ensures
        preset_recipe_of("chest"@) == Some(CHEST_RECIPE@),
        preset_recipe_of("chestopen"@) == Some(CHEST_RECIPE@),
        preset_recipe_of("treasure"@) == Some(CHEST_RECIPE@),
{
    reveal_strlit("1up");
    reveal_strlit("1upsfx");
    reveal_strlit("accept");
    reveal_strlit("back");
    reveal_strlit("blip");
    reveal_strlit("boom");
    reveal_strlit("cancel");
    reveal_strlit("chest");
    reveal_strlit("chestopen");
    reveal_strlit("coin");
    reveal_strlit("coincollect");
    reveal_strlit("coinsfx");
    reveal_strlit("collect");
    reveal_strlit("confirm");
    reveal_strlit("cursor");
    reveal_strlit("damage");
    reveal_strlit("dash");
    reveal_strlit("dead");
    reveal_strlit("death");
    reveal_strlit("deny");
    reveal_strlit("die");
    reveal_strlit("dodge");
    reveal_strlit("door");
    reveal_strlit("dooropen");
    reveal_strlit("explode");
    reveal_strlit("explosion");
    reveal_strlit("extralife");
    reveal_strlit("fanfare");
    reveal_strlit("fire");
    reveal_strlit("gameover");
    reveal_strlit("gate");
    reveal_strlit("gem");
    reveal_strlit("growsfx");
    reveal_strlit("hit");
    reveal_strlit("hop");
    reveal_strlit("hurt");
    reveal_strlit("invincible");
    reveal_strlit("item");
    reveal_strlit("itemget");
    reveal_strlit("jump");
    reveal_strlit("jumpsfx");
    reveal_strlit("land");
    reveal_strlit("landing");
    reveal_strlit("laser");
    reveal_strlit("levelcomplete");
    reveal_strlit("melee");
    reveal_strlit("menucancel");
    reveal_strlit("menuconfirm");
    reveal_strlit("menuopen");
    reveal_strlit("menuselect");
    reveal_strlit("mushroom");
    reveal_strlit("ok");
    reveal_strlit("oneup");
    reveal_strlit("ouch");
    reveal_strlit("pause");
    reveal_strlit("pew");
    reveal_strlit("pickup");
    reveal_strlit("powerup");
    reveal_strlit("projectile");
    reveal_strlit("ring");
    reveal_strlit("select");
    reveal_strlit("shoot");
    reveal_strlit("slash");
    reveal_strlit("slide");
    reveal_strlit("star");
    reveal_strlit("starpower");
    reveal_strlit("stomp");
    reveal_strlit("swipe");
    reveal_strlit("sword");
    reveal_strlit("treasure");
    reveal_strlit("victory");
    reveal_strlit("win");
    assert("chest"@[0] != "oneup"@[0]);
    assert("chest"@[0] != "dodge"@[0]);
    assert("chest"@[0] != "slide"@[0]);
    assert("chest"@[0] != "stomp"@[0]);
    assert("chest"@[0] != "shoot"@[0]);
    assert("chest"@[0] != "laser"@[0]);
    assert("chest"@[0] != "sword"@[0]);
    assert("chest"@[0] != "slash"@[0]);
    assert("chest"@[0] != "melee"@[0]);
    assert("chest"@[0] != "swipe"@[0]);
    assert("chest"@[0] != "death"@[0]);
    assert("chest"@[0] != "pause"@[0]);
    assert(is_normalized_name("chest"@));
    lemma_alias_is_normalized("chest"@);
    assert("chestopen"@[0] != "extralife"@[0]);
    assert("chestopen"@[0] != "starpower"@[0]);
    assert("chestopen"@[0] != "explosion"@[0]);
    assert(is_normalized_name("chestopen"@));
    lemma_alias_is_normalized("chestopen"@);
    assert("treasure"@[0] != "mushroom"@[0]);
    assert("treasure"@[0] != "gameover"@[0]);
    assert("treasure"@[0] != "menuopen"@[0]);
    assert("treasure"@[0] != "dooropen"@[0]);
    assert(is_normalized_name("treasure"@));
    lemma_alias_is_normalized("treasure"@);
}

proof fn lemma_warp_aliases()
    ensures
        preset_recipe_of("warp"@) == Some(WARP_RECIPE@),
        preset_recipe_of("teleport"@) == Some(WARP_RECIPE@),
        preset_recipe_of("portal"@) == Some(WARP_RECIPE@),
{
    reveal_strlit("1up");
    reveal_strlit("1upsfx");
    reveal_strlit("accept");
    reveal_strlit("back");
    reveal_strlit("blip");
    reveal_strlit("boom");
    reveal_strlit("cancel");
    reveal_strlit("chest");
    reveal_strlit("chestopen");
    reveal_strlit("coin");
    reveal_strlit("coincollect");
    reveal_strlit("coinsfx");
    reveal_strlit("collect");
    reveal_strlit("confirm");
    reveal_strlit("cursor");
    reveal_strlit("damage");
    reveal_strlit("dash");
    reveal_strlit("dead");
    reveal_strlit("death");
    reveal_strlit("deny");
    reveal_strlit("die");
    reveal_strlit("dodge");
    reveal_strlit("door");
    reveal_strlit("dooropen");
    reveal_strlit("explode");
    reveal_strlit("explosion");
    reveal_strlit("extralife");
    reveal_strlit("fanfare");
    reveal_strlit("fire");
    reveal_strlit("gameover");
    reveal_strlit("gate");
    reveal_strlit("gem");
    reveal_strlit("growsfx");
    reveal_strlit("hit");
    reveal_strlit("hop");
    reveal_strlit("hurt");
    reveal_strlit("invincible");
    reveal_strlit("item");
    reveal_strlit("itemget");
    reveal_strlit("jump");
    reveal_strlit("jumpsfx");
    reveal_strlit("land");
    reveal_strlit("landing");
    reveal_strlit("laser");
    reveal_strlit("levelcomplete");
    reveal_strlit("melee");
    reveal_strlit("menucancel");
    reveal_strlit("menuconfirm");
    reveal_strlit("menuopen");
    reveal_strlit("menuselect");
    reveal_strlit("mushroom");
    reveal_strlit("ok");
    reveal_strlit("oneup");
    reveal_strlit("ouch");
    reveal_strlit("pause");
    reveal_strlit("pew");
    reveal_strlit("pickup");
    reveal_strlit("portal");
    reveal_strlit("powerup");
    reveal_strlit("projectile");
    reveal_strlit("ring");
    reveal_strlit("select");
    reveal_strlit("shoot");
    reveal_strlit("slash");
    reveal_strlit("slide");
    reveal_strlit("star");
    reveal_strlit("starpower");
    reveal_strlit("stomp");
    reveal_strlit("swipe");
    reveal_strlit("sword");
    reveal_strlit("teleport");
    reveal_strlit("treasure");
    reveal_strlit("victory");
    reveal_strlit("warp");
    reveal_strlit("win");
    assert("warp"@[0] != "star"@[0]);
    assert("warp"@[0] != "coin"@[0]);
    assert("warp"@[0] != "ring"@[0]);
    assert("warp"@[0] != "item"@[0]);
    assert("warp"@[0] != "jump"@[0]);
    assert("warp"@[0] != "dash"@[0]);
    assert("warp"@[0] != "land"@[0]);
    assert("warp"@[0] != "fire"@[0]);
    assert("warp"@[0] != "boom"@[0]);
    assert("warp"@[0] != "hurt"@[0]);
    assert("warp"@[0] != "ouch"@[0]);
    assert("warp"@[0] != "dead"@[0]);
    assert("warp"@[0] != "blip"@[0]);
    assert("warp"@[0] != "back"@[0]);
    assert("warp"@[0] != "deny"@[0]);
    assert("warp"@[0] != "door"@[0]);
    assert("warp"@[0] != "gate"@[0]);
    assert(is_normalized_name("warp"@));
    lemma_alias_is_normalized("warp"@);
    assert("teleport"@[0] != "mushroom"@[0]);
    assert("teleport"@[0] != "gameover"@[0]);
    assert("teleport"@[0] != "menuopen"@[0]);
    assert("teleport"@[0] != "dooropen"@[0]);
    assert("teleport"@[1] != "treasure"@[1]);
    assert(is_normalized_name("teleport"@));
    lemma_alias_is_normalized("teleport"@);
    assert("portal"@[0] != "1upsfx"@[0]);
    assert("portal"@[1] != "pickup"@[1]);
    assert("portal"@[0] != "damage"@[0]);
    assert("portal"@[0] != "select"@[0]);
    assert("portal"@[0] != "cursor"@[0]);
    assert("portal"@[0] != "accept"@[0]);
    assert("portal"@[0] != "cancel"@[0]);
    assert(is_normalized_name("portal"@));
    lemma_alias_is_normalized("portal"@);
}

/// Every alias of the preset table finds its own preset's recipe.
pub proof fn law_alias_table()
    ensures
        preset_recipe_of("1up"@) == Some(ONE_UP_RECIPE@),
        preset_recipe_of("oneup"@) == Some(ONE_UP_RECIPE@),
        preset_recipe_of("extralife"@) == Some(ONE_UP_RECIPE@),
        preset_recipe_of("1upsfx"@) == Some(ONE_UP_RECIPE@),
        preset_recipe_of("powerup"@) == Some(POWER_UP_RECIPE@),
        preset_recipe_of("mushroom"@) == Some(POWER_UP_RECIPE@),
        preset_recipe_of("growsfx"@) == Some(POWER_UP_RECIPE@),
        preset_recipe_of("star"@) == Some(STAR_RECIPE@),
        preset_recipe_of("invincible"@) == Some(STAR_RECIPE@),
        preset_recipe_of("starpower"@) == Some(STAR_RECIPE@),
        preset_recipe_of("coin"@) == Some(COIN_RECIPE@),
        preset_recipe_of("coinsfx"@) == Some(COIN_RECIPE@),
        preset_recipe_of("coincollect"@) == Some(COIN_RECIPE@),
        preset_recipe_of("gem"@) == Some(COIN_RECIPE@),
        preset_recipe_of("ring"@) == Some(COIN_RECIPE@),
        preset_recipe_of("item"@) == Some(ITEM_RECIPE@),
        preset_recipe_of("pickup"@) == Some(ITEM_RECIPE@),
        preset_recipe_of("itemget"@) == Some(ITEM_RECIPE@),
        preset_recipe_of("collect"@) == Some(ITEM_RECIPE@),
        preset_recipe_of("jump"@) == Some(JUMP_RECIPE@),
        preset_recipe_of("jumpsfx"@) == Some(JUMP_RECIPE@),
        preset_recipe_of("hop"@) == Some(JUMP_RECIPE@),
        preset_recipe_of("dash"@) == Some(DASH_RECIPE@),
        preset_recipe_of("dodge"@) == Some(DASH_RECIPE@),
        preset_recipe_of("slide"@) == Some(DASH_RECIPE@),
        preset_recipe_of("land"@) == Some(LAND_RECIPE@),
        preset_recipe_of("landing"@) == Some(LAND_RECIPE@),
        preset_recipe_of("stomp"@) == Some(LAND_RECIPE@),
        preset_recipe_of("shoot"@) == Some(SHOOT_RECIPE@),
        preset_recipe_of("laser"@) == Some(SHOOT_RECIPE@),
        preset_recipe_of("fire"@) == Some(SHOOT_RECIPE@),
        preset_recipe_of("projectile"@) == Some(SHOOT_RECIPE@),
        preset_recipe_of("pew"@) == Some(SHOOT_RECIPE@),
        preset_recipe_of("explosion"@) == Some(EXPLOSION_RECIPE@),
        preset_recipe_of("boom"@) == Some(EXPLOSION_RECIPE@),
        preset_recipe_of("explode"@) == Some(EXPLOSION_RECIPE@),
        preset_recipe_of("hit"@) == Some(HIT_RECIPE@),
        preset_recipe_of("damage"@) == Some(HIT_RECIPE@),
        preset_recipe_of("hurt"@) == Some(HIT_RECIPE@),
        preset_recipe_of("ouch"@) == Some(HIT_RECIPE@),
        preset_recipe_of("sword"@) == Some(SWORD_RECIPE@),
        preset_recipe_of("slash"@) == Some(SWORD_RECIPE@),
        preset_recipe_of("melee"@) == Some(SWORD_RECIPE@),
        preset_recipe_of("swipe"@) == Some(SWORD_RECIPE@),
        preset_recipe_of("death"@) == Some(DEATH_RECIPE@),
        preset_recipe_of("die"@) == Some(DEATH_RECIPE@),
        preset_recipe_of("gameover"@) == Some(DEATH_RECIPE@),
        preset_recipe_of("dead"@) == Some(DEATH_RECIPE@),
        preset_recipe_of("victory"@) == Some(VICTORY_RECIPE@),
        preset_recipe_of("win"@) == Some(VICTORY_RECIPE@),
        preset_recipe_of("fanfare"@) == Some(VICTORY_RECIPE@),
        preset_recipe_of("levelcomplete"@) == Some(VICTORY_RECIPE@),
        preset_recipe_of("select"@) == Some(MENU_SELECT_RECIPE@),
        preset_recipe_of("menuselect"@) == Some(MENU_SELECT_RECIPE@),
        preset_recipe_of("cursor"@) == Some(MENU_SELECT_RECIPE@),
        preset_recipe_of("blip"@) == Some(MENU_SELECT_RECIPE@),
        preset_recipe_of("confirm"@) == Some(MENU_CONFIRM_RECIPE@),
        preset_recipe_of("ok"@) == Some(MENU_CONFIRM_RECIPE@),
        preset_recipe_of("accept"@) == Some(MENU_CONFIRM_RECIPE@),
        preset_recipe_of("menuconfirm"@) == Some(MENU_CONFIRM_RECIPE@),
        preset_recipe_of("cancel"@) == Some(MENU_CANCEL_RECIPE@),
        preset_recipe_of("back"@) == Some(MENU_CANCEL_RECIPE@),
        preset_recipe_of("menucancel"@) == Some(MENU_CANCEL_RECIPE@),
        preset_recipe_of("deny"@) == Some(MENU_CANCEL_RECIPE@),
        preset_recipe_of("pause"@) == Some(PAUSE_RECIPE@),
        preset_recipe_of("menuopen"@) == Some(PAUSE_RECIPE@),
        preset_recipe_of("door"@) == Some(DOOR_RECIPE@),
        preset_recipe_of("dooropen"@) == Some(DOOR_RECIPE@),
        preset_recipe_of("gate"@) == Some(DOOR_RECIPE@),
        preset_recipe_of("chest"@) == Some(CHEST_RECIPE@),
        preset_recipe_of("chestopen"@) == Some(CHEST_RECIPE@),
        preset_recipe_of("treasure"@) == Some(CHEST_RECIPE@),
        preset_recipe_of("warp"@) == Some(WARP_RECIPE@),
        preset_recipe_of("teleport"@) == Some(WARP_RECIPE@),
        preset_recipe_of("portal"@) == Some(WARP_RECIPE@),
{
    lemma_one_up_aliases();
    lemma_power_up_aliases();
    lemma_star_aliases();
    lemma_coin_aliases();
    lemma_item_aliases();
    lemma_jump_aliases();
    lemma_dash_aliases();
    lemma_land_aliases();
    lemma_shoot_aliases();
    lemma_explosion_aliases();
    lemma_hit_aliases();
    lemma_sword_aliases();
    lemma_death_aliases();
    lemma_victory_aliases();
    lemma_menu_select_aliases();
    lemma_menu_confirm_aliases();
    lemma_menu_cancel_aliases();
    lemma_pause_aliases();
    lemma_door_aliases();
    lemma_chest_aliases();
    lemma_warp_aliases();
}

} // verus!
