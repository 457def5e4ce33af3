//! Argument construction for the external speech-synthesis engine.
//!
//! The engine is an external process with a fixed flag-value argument
//! contract: destination path, language code, voice identifier and the
//! text of one segment. Building that argument list is plain logic and is
//! verified here; spawning the process is the caller's business.

use vstd::prelude::*;

verus! {

/// The language code and voice identifier handed to the synthesis engine.
pub struct VoiceConfig {
    pub lang: String,
    pub voice: String,
}

impl VoiceConfig {
    pub fn new(lang: String, voice: String) -> (c: VoiceConfig)
        ensures
            c.lang == lang,
            c.voice == voice,
    {
        VoiceConfig { lang, voice }
    }

    /// The default voice: Japanese, rendered by one WaveNet voice.
    pub fn default_japanese_voice() -> (c: VoiceConfig)
        ensures
            c.lang@ == "ja-JP"@,
            c.voice@ == "ja-JP-Wavenet-C"@,
    {
        VoiceConfig { lang: "ja-JP".to_owned(), voice: "ja-JP-Wavenet-C".to_owned() }
    }
}

/// The name of the synthesis engine binary, resolved through the process
/// search path.
pub fn engine_name() -> (s: &'static str)
    ensures
        s@ == "speech.exe"@,
{
    "speech.exe"
}

/// The flag-value argument list for one engine invocation on one segment.
pub fn synth_args(cfg: &VoiceConfig, output: &str, text: &str) -> (args: Vec<String>)
    ensures
        args@.len() == 8,
        args@[0]@ == "--output"@,
        args@[1]@ == output@,
        args@[2]@ == "--lang"@,
        args@[3]@ == cfg.lang@,
        args@[4]@ == "--voice"@,
        args@[5]@ == cfg.voice@,
        args@[6]@ == "--text"@,
        args@[7]@ == text@,
{
    let mut args: Vec<String> = Vec::new();
    args.push("--output".to_owned());
    args.push(output.to_owned());
    args.push("--lang".to_owned());
    args.push(cfg.lang.clone());
    args.push("--voice".to_owned());
    args.push(cfg.voice.clone());
    args.push("--text".to_owned());
    args.push(text.to_owned());
    args
}

} // verus!
