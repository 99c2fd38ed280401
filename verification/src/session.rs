//! The interactive session: which prompt is generated next, with which
//! duration and into which file, and when the session is over.

use crate::config::{chunking_has_no_effect, chunking_is_moot, chunking_verdict, validate_chunking, ConfigError};
use crate::directives::{
    capture_output, capture_secs, output_override, pattern_compiles, regex_accepts, secs_override,
    OUTPUT_PATTERN, SECS_PATTERN,
};
use crate::text::{ends_with, str_ends_with, trim, trimmed};
use vstd::prelude::*;
use vstd::string::StringExecFns;

verus! {

/// The line that ends the session.
pub const EXIT_KEYWORD: &'static str = "exit";

/// The extension that an output file gets when its name lacks it.
pub const DEFAULT_EXTENSION: &'static str = ".wav";

/// What a session starts with.
pub struct RunTerminalOptions {
    pub init_prompt: String,
    pub init_secs: usize,
    pub init_output: String,
    pub no_playback: bool,
    pub no_interactive: bool,
    pub infinite: bool,
    pub chunksize: usize,
    pub overlap: usize,
}

/// Why a session does not start.
#[derive(Clone, Copy, Debug, PartialEq, Eq, Structural)]
pub enum SessionError {
    /// A directive pattern does not compile.
    Pattern,
    /// Chunked generation was asked for with an invalid chunk or overlap.
    Config(ConfigError),
}

/// What the session needs next.
#[derive(Clone, Copy, Debug, PartialEq, Eq, Structural)]
pub enum Step {
    /// No prompt is queued: a line of input is needed.
    ReadLine,
    /// A prompt is queued: audio is to be generated for it.
    Generate,
    /// The session is over.
    Exit,
}

/// How a request is to be generated.
#[derive(Clone, Copy, Debug, PartialEq, Eq, Structural)]
pub enum GenerationMode {
    /// One generator call for the whole duration.
    Single,
    /// Chunk by chunk, with overlapping chunks.
    Chunked { chunksize: usize, overlap: usize },
}

/// One generation that the session asks for.
pub struct GenerationRequest {
    pub prompt: String,
    pub total_secs: usize,
    pub mode: GenerationMode,
}

/// Whether both directive patterns compile.
pub open spec fn patterns_accepted() -> bool {
    regex_accepts(SECS_PATTERN@) && regex_accepts(OUTPUT_PATTERN@)
}

/// Whether `path` ends with the default extension.
pub open spec fn has_extension(path: Seq<char>) -> bool {
    ends_with(path, DEFAULT_EXTENSION@)
}

/// `path`, with the default extension appended unless it ends with it.
pub open spec fn with_extension(path: Seq<char>) -> Seq<char> {
    if has_extension(path) {
        path
    } else {
        path + DEFAULT_EXTENSION@
    }
}

/// The mathematical state of a session.
pub struct SessionState {
    /// The queued prompt; empty when the next line has yet to be read.
    pub prompt: Seq<char>,
    /// The duration of the next generation, in seconds.
    pub secs: nat,
    /// The file that the next generation is written to.
    pub output: Seq<char>,
    /// The input has ended, or the single shot has been taken.
    pub ended: bool,
    /// Audio is not played after generation.
    pub no_playback: bool,
    /// The session takes one prompt and ends.
    pub no_interactive: bool,
    /// Generation is chunked.
    pub infinite: bool,
    /// Seconds per chunk when generation is chunked.
    pub chunksize: usize,
    /// Seconds of overlap when generation is chunked.
    pub overlap: usize,
}

impl SessionState {
    /// The queued prompt is the exit keyword, give or take whitespace
    /// around it.
    pub open spec fn wants_exit(self) -> bool {
        trimmed(self.prompt) == EXIT_KEYWORD@
    }

    /// No prompt is queued and the session goes on.
    pub open spec fn awaiting_input(self) -> bool {
        !self.ended && self.prompt.len() == 0
    }

    /// What the session needs next.
    pub open spec fn step(self) -> Step {
        if self.ended {
            Step::Exit
        } else if self.prompt.len() == 0 {
            Step::ReadLine
        } else if self.wants_exit() {
            Step::Exit
        } else {
            Step::Generate
        }
    }

    /// How the queued prompt is to be generated.
    pub open spec fn mode(self) -> GenerationMode {
        if self.infinite {
            GenerationMode::Chunked { chunksize: self.chunksize, overlap: self.overlap }
        } else {
            GenerationMode::Single
        }
    }

    /// The state once `line` has been typed: the line is the queued prompt,
    /// and the directives in it, where they can be read, replace the
    /// duration and the output file for this and every later generation.
    pub open spec fn with_line(self, line: Seq<char>) -> SessionState {
        SessionState {
            prompt: line,
            secs: match secs_override(line) {
                Some(secs) => secs as nat,
                None => self.secs,
            },
            output: match output_override(line) {
                Some(output) => output,
                None => self.output,
            },
            ..self
        }
    }

    /// The state once the input has ended.
    pub open spec fn with_input_ended(self) -> SessionState {
        SessionState { ended: true, ..self }
    }

    /// The state once the output file has its extension.
    pub open spec fn with_output_extended(self) -> SessionState {
        SessionState { output: with_extension(self.output), ..self }
    }

    /// The state once the queued prompt has been dealt with: nothing is
    /// queued, and a session that is not interactive is over.
    pub open spec fn with_iteration_finished(self) -> SessionState {
        SessionState { prompt: Seq::empty(), ended: self.ended || self.no_interactive, ..self }
    }
}

/// The state that a session starts in.
pub open spec fn initial_state(options: RunTerminalOptions) -> SessionState {
    SessionState {
        prompt: options.init_prompt@,
        secs: options.init_secs as nat,
        output: options.init_output@,
        ended: false,
        no_playback: options.no_playback,
        no_interactive: options.no_interactive,
        infinite: options.infinite,
        chunksize: options.chunksize,
        overlap: options.overlap,
    }
}

/// Whether a session with these options starts, and if not, why: the
/// directive patterns must compile, and chunked generation needs a valid
/// chunk and overlap.
pub open spec fn start_verdict(options: RunTerminalOptions) -> Result<(), SessionError> {
    if !patterns_accepted() {
        Err(SessionError::Pattern)
    } else if options.infinite {
        match chunking_verdict(options.chunksize, options.overlap) {
            Err(e) => Err(SessionError::Config(e)),
            Ok(_) => Ok(()),
        }
    } else {
        Ok(())
    }
}

impl RunTerminalOptions {
    /// Whether chunked generation was asked for although the initial
    /// duration fits a single chunk. This is worth a warning; it is no
    /// error.
    pub fn chunking_has_no_effect(&self) -> (moot: bool)
        ensures
            moot == (self.infinite && chunking_is_moot(self.init_secs as nat, self.chunksize as nat)),
    {
        self.infinite && chunking_has_no_effect(self.init_secs, self.chunksize)
    }
}

/// Whether `path` ends with the default extension.
pub fn ends_with_extension(path: &str) -> (has: bool)
    ensures
        has == has_extension(path@),
{
    str_ends_with(path, DEFAULT_EXTENSION)
}

/// An interactive session.
pub struct Session {
    prompt: String,
    secs: usize,
    output: String,
    ended: bool,
    no_playback: bool,
    no_interactive: bool,
    infinite: bool,
    chunksize: usize,
    overlap: usize,
}

impl View for Session {
    type V = SessionState;

    closed spec fn view(&self) -> SessionState {
        SessionState {
            prompt: self.prompt@,
            secs: self.secs as nat,
            output: self.output@,
            ended: self.ended,
            no_playback: self.no_playback,
            no_interactive: self.no_interactive,
            infinite: self.infinite,
            chunksize: self.chunksize,
            overlap: self.overlap,
        }
    }
}

impl Session {
    /// Starts a session. The directive patterns are compiled and, for
    /// chunked generation, the chunk and the overlap are validated, before
    /// anything is read or generated.
    pub fn start(options: RunTerminalOptions) -> (started: Result<Session, SessionError>)
        ensures
            match started {
                Ok(session) => start_verdict(options) is Ok && session@ == initial_state(options),
                Err(e) => start_verdict(options) == Err::<(), SessionError>(e),
            },
    {
        if !pattern_compiles(SECS_PATTERN) || !pattern_compiles(OUTPUT_PATTERN) {
            return Err(SessionError::Pattern);
        }
        if options.infinite {
            match validate_chunking(options.chunksize, options.overlap) {
                Err(e) => {
                    return Err(SessionError::Config(e));
                },
                Ok(_) => {},
            }
        }
        Ok(
            Session {
                prompt: options.init_prompt,
                secs: options.init_secs,
                output: options.init_output,
                ended: false,
                no_playback: options.no_playback,
                no_interactive: options.no_interactive,
                infinite: options.infinite,
                chunksize: options.chunksize,
                overlap: options.overlap,
            },
        )
    }

    /// What the session needs next: a line of input when no prompt is
    /// queued, nothing more when the input has ended or the queued prompt
    /// is the exit keyword, and a generation otherwise.
    pub fn next_step(&self) -> (step: Step)
        ensures
            step == self@.step(),
    {
        if self.ended {
            Step::Exit
        } else if self.prompt.as_str().is_empty() {
            Step::ReadLine
        } else {
            let inner: String = trim(self.prompt.as_str()).to_owned();
            let keyword: String = EXIT_KEYWORD.to_owned();
            if inner == keyword {
                Step::Exit
            } else {
                Step::Generate
            }
        }
    }

    /// Takes a line that was typed: it becomes the queued prompt, and the
    /// directives in it override the duration and the output file. Returns
    /// whether the line is worth recording in the history, which is the
    /// case unless it is empty.
    pub fn accept_line(&mut self, line: &str) -> (record: bool)
        requires
            old(self)@.awaiting_input(),
        ensures
            final(self)@ == old(self)@.with_line(line@),
            record == (line@.len() > 0),
    {
        self.prompt = line.to_owned();
        match capture_secs(line) {
            Some(secs) => {
                self.secs = secs;
            },
            None => {},
        }
        match capture_output(line) {
            Some(output) => {
                self.output = output;
            },
            None => {},
        }
        !line.is_empty()
    }

    /// Takes the end of the input, or an interrupt: the session is over.
    pub fn end_of_input(&mut self)
        ensures
            final(self)@ == old(self)@.with_input_ended(),
            final(self)@.step() == Step::Exit,
    {
        self.ended = true;
    }

    /// The generation that the queued prompt asks for.
    pub fn request(&self) -> (request: GenerationRequest)
        ensures
            request.prompt@ == self@.prompt,
            request.total_secs == self@.secs,
            request.mode == self@.mode(),
    {
        GenerationRequest {
            prompt: self.prompt.clone(),
            total_secs: self.secs,
            mode: if self.infinite {
                GenerationMode::Chunked { chunksize: self.chunksize, overlap: self.overlap }
            } else {
                GenerationMode::Single
            },
        }
    }

    /// Whether generated audio is to be played.
    pub fn playback(&self) -> (play: bool)
        ensures
            play == !self@.no_playback,
    {
        !self.no_playback
    }

    /// The file that generated audio is written to. The default extension
    /// is appended to the session's output file if it lacks it, and stays
    /// appended.
    pub fn output_path(&mut self) -> (path: String)
        ensures
            final(self)@ == old(self)@.with_output_extended(),
            path@ == with_extension(old(self)@.output),
    {
        if !ends_with_extension(self.output.as_str()) {
            self.output.append(DEFAULT_EXTENSION);
        }
        self.output.clone()
    }

    /// Closes the iteration on the queued prompt, whether it ended in a
    /// file or in a failure: nothing is queued any more, and a session that
    /// is not interactive is over.
    pub fn finish_iteration(&mut self)
        ensures
            final(self)@ == old(self)@.with_iteration_finished(),
            final(self)@.step() == if final(self)@.ended {
                Step::Exit
            } else {
                Step::ReadLine
            },
    {
        self.prompt = String::new();
        if self.no_interactive {
            self.ended = true;
        }
    }
}

} // verus!
