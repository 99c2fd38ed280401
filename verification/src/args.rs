//! The command line as plain values: the model to load, the mode to run in
//! and the options of a terminal session.

use crate::session::RunTerminalOptions;
use vstd::prelude::*;

verus! {

/// The models that can be loaded.
#[derive(Clone, Copy, Debug, PartialEq, Eq, Structural)]
pub enum Model {
    Small,
    SmallFp16,
    SmallQuant,
    Medium,
    MediumFp16,
    MediumQuant,
    Large,
}

impl Model {
    /// The name that the model is shown under.
    pub open spec fn display(self) -> Seq<char> {
        match self {
            Model::Small => "MusicGen Small"@,
            Model::SmallFp16 => "MusicGen Small Fp16"@,
            Model::SmallQuant => "MusicGen Small Quantized"@,
            Model::Medium => "MusicGen Medium"@,
            Model::MediumFp16 => "MusicGen Medium Fp16"@,
            Model::MediumQuant => "MusicGen Medium Quantized"@,
            Model::Large => "MusicGen Large"@,
        }
    }

    /// The name that the model is shown under.
    pub fn to_string(&self) -> (name: String)
        ensures
            name@ == self.display(),
    {
        match self {
            Model::Small => "MusicGen Small".to_owned(),
            Model::SmallFp16 => "MusicGen Small Fp16".to_owned(),
            Model::SmallQuant => "MusicGen Small Quantized".to_owned(),
            Model::Medium => "MusicGen Medium".to_owned(),
            Model::MediumFp16 => "MusicGen Medium Fp16".to_owned(),
            Model::MediumQuant => "MusicGen Medium Quantized".to_owned(),
            Model::Large => "MusicGen Large".to_owned(),
        }
    }
}

/// The arguments of the command line.
pub struct Args {
    /// The prompt. With a prompt the program runs in the terminal; without
    /// one it serves the web application.
    pub prompt: String,
    /// The model to use.
    pub model: Model,
    /// Whether the decoder comes as two files.
    pub use_split_decoder: bool,
    /// Whether the models are downloaded anew.
    pub force_download: bool,
    /// Where data is stored, if not in the default place.
    pub data_path: Option<String>,
    /// Whether inference runs on the GPU.
    pub gpu: bool,
    /// Seconds of audio to generate.
    pub secs: usize,
    /// The file that the audio is written to.
    pub output: String,
    /// Whether generation is chunked.
    pub infinite: bool,
    /// Seconds per chunk.
    pub chunksize: usize,
    /// Seconds of overlap between chunks.
    pub overlap: usize,
    /// Whether the audio is left unplayed.
    pub no_playback: bool,
    /// Whether the session ends after one prompt.
    pub no_interactive: bool,
    /// Whether the web application is left unopened.
    pub ui_no_open: bool,
    /// The port of the web application.
    pub ui_port: usize,
    /// Whether the web application listens on every interface.
    pub ui_expose: bool,
}

/// Why the arguments are refused.
#[derive(Clone, Copy, Debug, PartialEq, Eq, Structural)]
pub enum ArgsError {
    /// The duration is zero.
    SecsNotPositive,
    /// A session that is not interactive has no prompt.
    PromptMissing,
}

impl ArgsError {
    /// The message of the error.
    pub open spec fn text(self) -> Seq<char> {
        match self {
            ArgsError::SecsNotPositive => "--secs must > 0"@,
            ArgsError::PromptMissing => "A prompt must be provided when not in interactive mode"@,
        }
    }

    /// The message of the error.
    pub fn message(&self) -> (message: String)
        ensures
            message@ == self.text(),
    {
        match self {
            ArgsError::SecsNotPositive => "--secs must > 0".to_owned(),
            ArgsError::PromptMissing => "A prompt must be provided when not in interactive mode".to_owned(),
        }
    }
}

/// Where the program runs.
#[derive(Clone, Copy, Debug, PartialEq, Eq, Structural)]
pub enum RunMode {
    /// Prompting and playback in the terminal.
    Terminal,
    /// Prompting and playback in the web application.
    WebApp,
}

impl Args {
    /// The first rule that the arguments break, if any: the duration is
    /// positive, and a session that is not interactive has a prompt.
    pub open spec fn verdict(&self) -> Result<(), ArgsError> {
        if self.secs < 1 {
            Err(ArgsError::SecsNotPositive)
        } else if self.no_interactive && self.prompt@.len() == 0 {
            Err(ArgsError::PromptMissing)
        } else {
            Ok(())
        }
    }

    /// Checks the arguments before anything is loaded.
    pub fn validate(&self) -> (r: Result<(), ArgsError>)
        ensures
            r == self.verdict(),
    {
        if self.secs < 1 {
            return Err(ArgsError::SecsNotPositive);
        }
        if self.no_interactive && self.prompt.as_str().is_empty() {
            return Err(ArgsError::PromptMissing);
        }
        Ok(())
    }

    /// Where the program runs: in the terminal if a prompt was given, as a
    /// web application otherwise.
    pub fn run_mode(&self) -> (mode: RunMode)
        ensures
            mode == if self.prompt@.len() == 0 {
                RunMode::WebApp
            } else {
                RunMode::Terminal
            },
    {
        if self.prompt.as_str().is_empty() {
            RunMode::WebApp
        } else {
            RunMode::Terminal
        }
    }

    /// The options of the terminal session that these arguments ask for.
    pub fn terminal_options(&self) -> (options: RunTerminalOptions)
        ensures
            options.init_prompt@ == self.prompt@,
            options.init_secs == self.secs,
            options.init_output@ == self.output@,
            options.no_playback == self.no_playback,
            options.no_interactive == self.no_interactive,
            options.infinite == self.infinite,
            options.chunksize == self.chunksize,
            options.overlap == self.overlap,
    {
        RunTerminalOptions {
            init_prompt: self.prompt.clone(),
            init_secs: self.secs,
            init_output: self.output.clone(),
            no_playback: self.no_playback,
            no_interactive: self.no_interactive,
            infinite: self.infinite,
            chunksize: self.chunksize,
            overlap: self.overlap,
        }
    }
}

} // verus!
