//! Settings of the timing model and of the display.

use vstd::prelude::*;
use vstd::string::StringExecFns;

verus! {

/// The value that stands for a factor of 1: factors are held in hundredths.
pub const FACTOR_UNIT: u32 = 100;

/// Settings of the timing model. Every factor is in hundredths: 300 is a
/// factor of 3, 115 a factor of 1.15.
#[derive(Debug, Clone, Copy, PartialEq, Eq)]
pub struct TimingConfig {
    /// Words per minute at the start of a session.
    pub wpm: u32,
    /// The lowest speed that can be set.
    pub min_wpm: u32,
    /// The highest speed that can be set.
    pub max_wpm: u32,
    /// A word with more characters than this is a long word.
    pub long_word_threshold: usize,
    /// The factor for a long word.
    pub long_word_penalty: u32,
    pub period_multiplier: u32,
    pub comma_multiplier: u32,
    pub question_multiplier: u32,
    pub exclamation_multiplier: u32,
    pub newline_multiplier: u32,
}

impl TimingConfig {
    /// The bounds on the speed are in order.
    pub open spec fn well_formed(&self) -> bool {
        self.min_wpm <= self.max_wpm
    }

    /// The settings that every session starts from.
    pub open spec fn spec_default() -> TimingConfig {
        TimingConfig {
            wpm: 300,
            min_wpm: 50,
            max_wpm: 1000,
            long_word_threshold: 10,
            long_word_penalty: 115,
            period_multiplier: 300,
            comma_multiplier: 150,
            question_multiplier: 300,
            exclamation_multiplier: 300,
            newline_multiplier: 400,
        }
    }
}

impl Default for TimingConfig {
    fn default() -> (config: Self)
        ensures
            config == TimingConfig::spec_default(),
            config.well_formed(),
    {
        TimingConfig {
            wpm: 300,
            min_wpm: 50,
            max_wpm: 1000,
            long_word_threshold: 10,
            long_word_penalty: 115,
            period_multiplier: 300,
            comma_multiplier: 150,
            question_multiplier: 300,
            exclamation_multiplier: 300,
            newline_multiplier: 400,
        }
    }
}

/// The colours of the display, each as `#RRGGBB`.
#[derive(Debug, Clone, PartialEq)]
pub struct ThemeConfig {
    pub background_color: String,
    pub text_color: String,
    pub anchor_color: String,
}

impl Default for ThemeConfig {
    fn default() -> (theme: Self)
        ensures
            theme.background_color@ == "#1A1B26"@,
            theme.text_color@ == "#A9B1D6"@,
            theme.anchor_color@ == "#F7768E"@,
    {
        ThemeConfig {
            background_color: String::from_str("#1A1B26"),
            text_color: String::from_str("#A9B1D6"),
            anchor_color: String::from_str("#F7768E"),
        }
    }
}

/// The words shown beside the current word.
#[derive(Debug, Clone, PartialEq)]
pub struct GutterConfig {
    pub words_before: usize,
    pub words_after: usize,
    /// The opacity of the side words while reading, in hundredths.
    pub reading_opacity_percent: u8,
    /// The opacity of the side words while paused, in hundredths.
    pub paused_opacity_percent: u8,
    /// The opacity by distance from the current word, in hundredths.
    pub opacity_levels: Vec<u8>,
}

impl Default for GutterConfig {
    fn default() -> (gutter: Self)
        ensures
            gutter.words_before == 3,
            gutter.words_after == 3,
            gutter.reading_opacity_percent == 20,
            gutter.paused_opacity_percent == 100,
            gutter.opacity_levels@ == seq![100u8, 80u8, 60u8, 40u8],
    {
        let mut opacity_levels: Vec<u8> = Vec::new();
        opacity_levels.push(100);
        opacity_levels.push(80);
        opacity_levels.push(60);
        opacity_levels.push(40);
        assert(opacity_levels@ =~= seq![100u8, 80u8, 60u8, 40u8]);
        GutterConfig {
            words_before: 3,
            words_after: 3,
            reading_opacity_percent: 20,
            paused_opacity_percent: 100,
            opacity_levels,
        }
    }
}

/// The sounds, with their frequencies in hertz. Each range is given by its
/// lowest and its highest value.
#[derive(Debug, Clone, Copy, PartialEq, Eq)]
pub struct AudioConfig {
    pub thump_frequency_hz: u16,
    pub thump_frequency_range: (u16, u16),
    pub speed_glide_range_hz: (u16, u16),
}

impl Default for AudioConfig {
    fn default() -> (audio: Self)
        ensures
            audio.thump_frequency_hz == 100,
            audio.thump_frequency_range == (80u16, 120u16),
            audio.speed_glide_range_hz == (440u16, 880u16),
    {
        AudioConfig {
            thump_frequency_hz: 100,
            thump_frequency_range: (80, 120),
            speed_glide_range_hz: (440, 880),
        }
    }
}

/// The controls that slow the reading down and ease it in.
#[derive(Debug, Clone, Copy, PartialEq, Eq)]
pub struct TactileConfig {
    pub throttle_percent: u8,
    pub ramp_up_seconds: u8,
    pub ramp_start_percent: u8,
    pub ramp_end_percent: u8,
}

impl Default for TactileConfig {
    fn default() -> (tactile: Self)
        ensures
            tactile.throttle_percent == 50,
            tactile.ramp_up_seconds == 5,
            tactile.ramp_start_percent == 70,
            tactile.ramp_end_percent == 100,
    {
        TactileConfig {
            throttle_percent: 50,
            ramp_up_seconds: 5,
            ramp_start_percent: 70,
            ramp_end_percent: 100,
        }
    }
}

/// All settings.
#[derive(Debug, Clone, PartialEq)]
pub struct Config {
    pub timing: TimingConfig,
    pub theme: ThemeConfig,
    pub gutter: GutterConfig,
    pub audio: AudioConfig,
    pub tactile: TactileConfig,
}

impl Default for Config {
    fn default() -> (config: Self)
        ensures
            config.timing == TimingConfig::spec_default(),
            config.theme.background_color@ == "#1A1B26"@,
            config.theme.text_color@ == "#A9B1D6"@,
            config.theme.anchor_color@ == "#F7768E"@,
            config.gutter.words_before == 3,
            config.gutter.words_after == 3,
            config.gutter.opacity_levels@ == seq![100u8, 80u8, 60u8, 40u8],
            config.audio.thump_frequency_hz == 100,
            config.tactile.throttle_percent == 50,
    {
        Config {
            timing: TimingConfig::default(),
            theme: ThemeConfig::default(),
            gutter: GutterConfig::default(),
            audio: AudioConfig::default(),
            tactile: TactileConfig::default(),
        }
    }
}

} // verus!
