//! The extraction pipeline as an explicit state machine.
//!
//! A run walks the linear pipeline validate -> prepare directory -> extract ->
//! (optional) verify. The machine holds the decisions; the effects are the
//! caller's. The caller asks [`Extraction::next_action`] what to do, performs
//! it, and reports what came of it with [`Extraction::step`], until
//! [`Action::Finish`] is reached and [`Extraction::outcome`] holds the result.
//!
//! Verification is advisory within a run: a probe that fails becomes a
//! warning in a channel of its own, never a failure of the run.

use vstd::prelude::*;

use crate::args::{Args, ArgsV};
use crate::command::{ffmpeg_args, ffmpeg_args_spec};
use crate::errors::{ErrV, ExtractError};
use crate::format::format_name;
use crate::paths::{parent_of, parent_spec};
use crate::placeholder::{
    current_timestamp, lemma_placeholder_mentions, placeholder_content, placeholder_spec,
};
use crate::probe::{AudioFileInfo, AudioFileInfoV};
use crate::text::{contains_sub, dec_of};
use crate::validate::{check_video_path, validate_spec};

verus! {

/// Where a run stands: which effect it is waiting for, or that it is done.
#[derive(Clone, Copy, Debug, PartialEq, Eq, Structural)]
pub enum Phase {
    /// Waiting to hear whether the input path exists.
    CheckingInput,
    /// Waiting for the output's parent directories to be created.
    PreparingDir,
    /// Waiting to hear whether the external transcoder is reachable.
    CheckingTool,
    /// Waiting for the transcoder to finish.
    RunningTool,
    /// Waiting for the placeholder payload to be written (degraded mode).
    WritingFallback,
    /// Waiting to hear whether the produced file exists and its size.
    Verifying,
    /// Waiting for the media probe's report on the produced file.
    Probing,
    /// The run is over; the outcome is set.
    Done,
}

/// The next effect the caller is asked to perform.
#[derive(Debug)]
pub enum Action {
    /// Report whether the configured input path exists on disk.
    CheckInput,
    /// Create this directory and all missing ancestors; report the outcome.
    EnsureDir(String),
    /// Report whether the external transcoder answers a trivial invocation.
    CheckTool,
    /// Run the transcoder with these arguments; report success, or its
    /// diagnostic output on a non-zero exit.
    RunTool(Vec<String>),
    /// Write this text to the configured output path; report the outcome.
    WriteOutput(String),
    /// Report the size of the file at the configured output path, or that it
    /// is missing.
    CheckOutput,
    /// Probe the file at the configured output path with the media-parsing
    /// library; report the track metadata, or the diagnostic of a failed
    /// parse.
    ProbeOutput,
    /// Nothing is left to do.
    Finish,
}

/// The mathematical image of an [`Action`].
pub enum ActionV {
    CheckInput,
    EnsureDir(Seq<char>),
    CheckTool,
    RunTool(Seq<Seq<char>>),
    WriteOutput(Seq<char>),
    CheckOutput,
    ProbeOutput,
    Finish,
}

impl View for Action {
    type V = ActionV;

    open spec fn view(&self) -> ActionV {
        match self {
            Action::CheckInput => ActionV::CheckInput,
            Action::EnsureDir(d) => ActionV::EnsureDir(d@),
            Action::CheckTool => ActionV::CheckTool,
            Action::RunTool(a) => ActionV::RunTool(a.deep_view()),
            Action::WriteOutput(c) => ActionV::WriteOutput(c@),
            Action::CheckOutput => ActionV::CheckOutput,
            Action::ProbeOutput => ActionV::ProbeOutput,
            Action::Finish => ActionV::Finish,
        }
    }
}

/// What came of the last action, as the caller reports it.
#[derive(Debug)]
pub enum Event {
    /// Whether the input path exists.
    InputExists(bool),
    /// The outcome of creating the directory chain; the error carries the
    /// underlying diagnostic.
    DirMade(Result<(), String>),
    /// Whether the external transcoder is reachable.
    ToolAvailable(bool),
    /// The transcoder's outcome: success, or its diagnostic output.
    ToolRan(Result<(), String>),
    /// The outcome of writing the placeholder payload.
    OutputWritten(Result<(), String>),
    /// The produced file's size in bytes, or `None` when it does not exist.
    OutputStat(Option<u64>),
    /// The media probe's report on the produced file.
    Probed(Result<AudioFileInfo, String>),
}

/// The mathematical image of an [`Event`].
pub enum EventV {
    InputExists(bool),
    DirMade(Result<(), Seq<char>>),
    ToolAvailable(bool),
    ToolRan(Result<(), Seq<char>>),
    OutputWritten(Result<(), Seq<char>>),
    OutputStat(Option<u64>),
    Probed(Result<AudioFileInfoV, Seq<char>>),
}

impl View for Event {
    type V = EventV;

    open spec fn view(&self) -> EventV {
        match self {
            Event::InputExists(b) => EventV::InputExists(*b),
            Event::DirMade(r) => EventV::DirMade(
                match r {
                    Ok(u) => Ok(*u),
                    Err(m) => Err(m@),
                },
            ),
            Event::ToolAvailable(b) => EventV::ToolAvailable(*b),
            Event::ToolRan(r) => EventV::ToolRan(
                match r {
                    Ok(u) => Ok(*u),
                    Err(m) => Err(m@),
                },
            ),
            Event::OutputWritten(r) => EventV::OutputWritten(
                match r {
                    Ok(u) => Ok(*u),
                    Err(m) => Err(m@),
                },
            ),
            Event::OutputStat(o) => EventV::OutputStat(*o),
            Event::Probed(r) => EventV::Probed(
                match r {
                    Ok(i) => Ok(i@),
                    Err(m) => Err(m@),
                },
            ),
        }
    }
}

/// One extraction run in flight.
#[derive(Debug)]
pub struct Extraction {
    /// The run's configuration.
    pub args: Args,
    /// The timestamp the placeholder payload embeds, fixed when the run
    /// starts.
    pub timestamp: String,
    /// Where the run stands.
    pub phase: Phase,
    /// The result, set once the phase is `Done`.
    pub outcome: Option<Result<(), ExtractError>>,
    /// What the probe reported, when verification ran and parsed the file.
    pub info: Option<AudioFileInfo>,
    /// The advisory channel: probe failures land here, not in the outcome.
    pub warnings: Vec<String>,
    /// Progress notes, appended as stages complete, when asked for.
    pub log: Vec<String>,
    /// Whether progress notes are kept.
    pub report_progress: bool,
}

/// The mathematical image of an [`Extraction`].
#[verifier::ext_equal]
pub struct ExtractionV {
    pub args: ArgsV,
    pub timestamp: Seq<char>,
    pub phase: Phase,
    pub outcome: Option<Result<(), ErrV>>,
    pub info: Option<AudioFileInfoV>,
    pub warnings: Seq<Seq<char>>,
    pub log: Seq<Seq<char>>,
    pub report_progress: bool,
}

impl View for Extraction {
    type V = ExtractionV;

    open spec fn view(&self) -> ExtractionV {
        ExtractionV {
            args: self.args@,
            timestamp: self.timestamp@,
            phase: self.phase,
            outcome: match self.outcome {
                None => None,
                Some(Ok(u)) => Some(Ok(u)),
                Some(Err(ref e)) => Some(Err(e@)),
            },
            info: match self.info {
                None => None,
                Some(ref i) => Some(i@),
            },
            warnings: self.warnings.deep_view(),
            log: self.log.deep_view(),
            report_progress: self.report_progress,
        }
    }
}

/// The directory the run must create: the output's parent, when it has a
/// non-empty one.
pub open spec fn dir_to_make(a: ArgsV) -> Option<Seq<char>> {
    match parent_spec(a.output) {
        Some(d) => if d.len() > 0 {
            Some(d)
        } else {
            None
        },
        None => None,
    }
}

/// A fresh run: waiting on the input check, nothing decided, the log opened
/// when progress notes are asked for.
pub open spec fn start_spec(a: ArgsV, ts: Seq<char>, progress: bool) -> ExtractionV {
    ExtractionV {
        args: a,
        timestamp: ts,
        phase: Phase::CheckingInput,
        outcome: None,
        info: None,
        warnings: Seq::empty(),
        log: if progress {
            seq!["Starting audio extraction..."@]
        } else {
            Seq::empty()
        },
        report_progress: progress,
    }
}

/// `s` with `m` appended to the log, when progress notes are kept.
pub open spec fn logged(s: ExtractionV, m: Seq<char>) -> ExtractionV {
    if s.report_progress {
        ExtractionV { log: s.log.push(m), ..s }
    } else {
        s
    }
}

/// `s` ended in failure `e`.
pub open spec fn fail_spec(s: ExtractionV, e: ErrV) -> ExtractionV {
    ExtractionV { phase: Phase::Done, outcome: Some(Err(e)), ..s }
}

/// `s` past the directory stage, about to ask after the transcoder.
pub open spec fn after_dir_spec(s: ExtractionV) -> ExtractionV {
    ExtractionV { phase: Phase::CheckingTool, ..logged(s, "Output directory prepared"@) }
}

/// `s` past extraction: on to verification when asked for, otherwise done.
pub open spec fn after_extract_spec(s: ExtractionV) -> ExtractionV {
    let t = logged(s, "Audio extraction completed"@);
    if s.args.verify {
        ExtractionV { phase: Phase::Verifying, ..logged(t, "Starting verification..."@) }
    } else {
        ExtractionV { phase: Phase::Done, outcome: Some(Ok(())), ..t }
    }
}

/// `s` after the probe reported on the produced file: the run succeeds for
/// every report; a failed parse only leaves a warning.
pub open spec fn verified_spec(s: ExtractionV, probe: Result<AudioFileInfoV, Seq<char>>) -> ExtractionV {
    let t = logged(s, "Verification completed"@);
    match probe {
        Ok(v) => ExtractionV { phase: Phase::Done, outcome: Some(Ok(())), info: Some(v), ..t },
        Err(m) => ExtractionV {
            phase: Phase::Done,
            outcome: Some(Ok(())),
            warnings: s.warnings.push(m),
            ..t
        },
    }
}

/// The transition relation of the pipeline. An event that does not fit the
/// phase changes nothing.
pub open spec fn step_spec(s: ExtractionV, ev: EventV) -> ExtractionV {
    match (s.phase, ev) {
        (Phase::CheckingInput, EventV::InputExists(ex)) => {
            match validate_spec(s.args.input, ex) {
                Err(e) => fail_spec(s, e),
                Ok(u) => {
                    let t = logged(s, "Input validation completed"@);
                    if dir_to_make(s.args) is Some {
                        ExtractionV { phase: Phase::PreparingDir, ..t }
                    } else {
                        after_dir_spec(t)
                    }
                },
            }
        },
        (Phase::PreparingDir, EventV::DirMade(r)) => match r {
            Ok(u) => after_dir_spec(s),
            Err(m) => fail_spec(s, ErrV::DirectoryCreationError(m)),
        },
        (Phase::CheckingTool, EventV::ToolAvailable(av)) => ExtractionV {
            phase: if av {
                Phase::RunningTool
            } else {
                Phase::WritingFallback
            },
            ..s
        },
        (Phase::RunningTool, EventV::ToolRan(r)) => match r {
            Ok(u) => after_extract_spec(s),
            Err(m) => fail_spec(s, ErrV::ExternalToolError(m)),
        },
        (Phase::WritingFallback, EventV::OutputWritten(r)) => match r {
            Ok(u) => after_extract_spec(s),
            Err(m) => fail_spec(s, ErrV::PlaceholderWriteError(m)),
        },
        (Phase::Verifying, EventV::OutputStat(o)) => match o {
            None => fail_spec(s, ErrV::OutputMissing(s.args.output)),
            Some(n) => if n == 0 {
                fail_spec(s, ErrV::EmptyFile(s.args.output))
            } else {
                ExtractionV { phase: Phase::Probing, ..s }
            },
        },
        (Phase::Probing, EventV::Probed(r)) => verified_spec(s, r),
        _ => s,
    }
}

/// The action a run asks for in each phase.
pub open spec fn next_action_spec(s: ExtractionV) -> ActionV {
    match s.phase {
        Phase::CheckingInput => ActionV::CheckInput,
        Phase::PreparingDir => ActionV::EnsureDir(dir_to_make(s.args).unwrap()),
        Phase::CheckingTool => ActionV::CheckTool,
        Phase::RunningTool => ActionV::RunTool(ffmpeg_args_spec(s.args)),
        Phase::WritingFallback => ActionV::WriteOutput(placeholder_spec(s.args, s.timestamp)),
        Phase::Verifying => ActionV::CheckOutput,
        Phase::Probing => ActionV::ProbeOutput,
        Phase::Done => ActionV::Finish,
    }
}

impl ExtractionV {
    /// The machine's invariant: a run preparing a directory has one to make,
    /// and the outcome is set exactly when the run is done.
    pub open spec fn wf(self) -> bool {
        &&& (self.phase == Phase::PreparingDir ==> dir_to_make(self.args) is Some)
        &&& (self.phase == Phase::Done <==> self.outcome is Some)
    }
}

impl Extraction {
    /// Begins a run for a configuration. The caller drives it: perform each
    /// [`Action`] from [`Extraction::next_action`], report the [`Event`],
    /// repeat until done.
    pub fn start(args: &Args, report_progress: bool) -> (e: Extraction)
        ensures
            e@ == start_spec(args@, e@.timestamp, report_progress),
            e@.wf(),
    {
        let mut log: Vec<String> = Vec::new();
        if report_progress {
            log.push("Starting audio extraction...".to_owned());
        }
        let e = Extraction {
            args: args.clone(),
            timestamp: current_timestamp(),
            phase: Phase::CheckingInput,
            outcome: None,
            info: None,
            warnings: Vec::new(),
            log,
            report_progress,
        };
        proof {
            assert(e@ =~~= start_spec(args@, e@.timestamp, report_progress));
        }
        e
    }

    /// The action the run asks for next.
    pub fn next_action(&self) -> (a: Action)
        requires
            self@.wf(),
        ensures
            a@ == next_action_spec(self@),
    {
        match self.phase {
            Phase::CheckingInput => Action::CheckInput,
            Phase::PreparingDir => {
                match parent_of(self.args.output.as_str()) {
                    Some(d) => Action::EnsureDir(d),
                    None => {
                        // Ruled out by wf: a run preparing a directory has one
                        // to make.
                        proof {
                            assert(false);
                        }
                        Action::Finish
                    },
                }
            },
            Phase::CheckingTool => Action::CheckTool,
            Phase::RunningTool => Action::RunTool(ffmpeg_args(&self.args)),
            Phase::WritingFallback => Action::WriteOutput(
                placeholder_content(&self.args, self.timestamp.as_str()),
            ),
            Phase::Verifying => Action::CheckOutput,
            Phase::Probing => Action::ProbeOutput,
            Phase::Done => Action::Finish,
        }
    }

    /// Whether the run is over.
    pub fn done(&self) -> (r: bool)
        ensures
            r == (self@.phase == Phase::Done),
    {
        match self.phase {
            Phase::Done => true,
            _ => false,
        }
    }

    /// Ends the run in failure `e`.
    fn fail(&mut self, e: ExtractError)
        ensures
            final(self)@ == fail_spec(old(self)@, e@),
    {
        self.phase = Phase::Done;
        self.outcome = Some(Err(e));
        proof {
            assert(final(self)@ =~~= fail_spec(old(self)@, e@));
        }
    }

    /// Appends a progress note, when notes are kept.
    fn log_note(&mut self, m: &str)
        ensures
            final(self)@ == logged(old(self)@, m@),
    {
        if self.report_progress {
            self.log.push(m.to_owned());
        }
        proof {
            assert(final(self)@ =~~= logged(old(self)@, m@));
        }
    }

    /// Moves past the directory stage.
    fn after_dir(&mut self)
        ensures
            final(self)@ == after_dir_spec(old(self)@),
    {
        self.log_note("Output directory prepared");
        self.phase = Phase::CheckingTool;
        proof {
            assert(final(self)@ =~~= after_dir_spec(old(self)@));
        }
    }

    /// Moves past extraction: on to verification when asked for, else done.
    fn after_extract(&mut self)
        ensures
            final(self)@ == after_extract_spec(old(self)@),
    {
        self.log_note("Audio extraction completed");
        if self.args.verify {
            self.log_note("Starting verification...");
            self.phase = Phase::Verifying;
        } else {
            self.phase = Phase::Done;
            self.outcome = Some(Ok(()));
        }
        proof {
            assert(final(self)@ =~~= after_extract_spec(old(self)@));
        }
    }

    /// Consumes the report of the last action and advances the run. An event
    /// that does not fit the phase changes nothing.
    pub fn step(&mut self, ev: Event)
        ensures
            final(self)@ == step_spec(old(self)@, ev@),
            old(self)@.wf() ==> final(self)@.wf(),
    {
        match (self.phase, ev) {
            (Phase::CheckingInput, Event::InputExists(ex)) => {
                if !ex {
                    let p = self.args.input.clone();
                    self.fail(ExtractError::InputNotFound(p));
                } else if !check_video_path(self.args.input.as_str()) {
                    let p = self.args.input.clone();
                    self.fail(ExtractError::UnsupportedInputFormat(p));
                } else {
                    self.log_note("Input validation completed");
                    let needs_dir = match parent_of(self.args.output.as_str()) {
                        Some(d) => d.unicode_len() > 0,
                        None => false,
                    };
                    if needs_dir {
                        self.phase = Phase::PreparingDir;
                    } else {
                        self.after_dir();
                    }
                }
            },
            (Phase::PreparingDir, Event::DirMade(r)) => {
                match r {
                    Ok(u) => self.after_dir(),
                    Err(m) => self.fail(ExtractError::DirectoryCreationError(m)),
                }
            },
            (Phase::CheckingTool, Event::ToolAvailable(av)) => {
                self.phase = if av {
                    Phase::RunningTool
                } else {
                    Phase::WritingFallback
                };
            },
            (Phase::RunningTool, Event::ToolRan(r)) => {
                match r {
                    Ok(u) => self.after_extract(),
                    Err(m) => self.fail(ExtractError::ExternalToolError(m)),
                }
            },
            (Phase::WritingFallback, Event::OutputWritten(r)) => {
                match r {
                    Ok(u) => self.after_extract(),
                    Err(m) => self.fail(ExtractError::PlaceholderWriteError(m)),
                }
            },
            (Phase::Verifying, Event::OutputStat(o)) => {
                match o {
                    None => {
                        let p = self.args.output.clone();
                        self.fail(ExtractError::OutputMissing(p));
                    },
                    Some(n) => {
                        if n == 0 {
                            let p = self.args.output.clone();
                            self.fail(ExtractError::EmptyFile(p));
                        } else {
                            self.phase = Phase::Probing;
                        }
                    },
                }
            },
            (Phase::Probing, Event::Probed(r)) => {
                self.log_note("Verification completed");
                match r {
                    Ok(i) => {
                        self.info = Some(i);
                    },
                    Err(m) => {
                        self.warnings.push(m);
                    },
                }
                self.phase = Phase::Done;
                self.outcome = Some(Ok(()));
            },
            _ => {},
        }
        proof {
            assert(final(self)@ =~~= step_spec(old(self)@, ev@));
        }
    }
}

/// An input that does not exist fails the run at once with `InputNotFound`:
/// the run is over before any directory is prepared or any output written,
/// and nothing but `Finish` is ever asked of the caller again.
pub proof fn lemma_missing_input_touches_nothing(s: ExtractionV)
    requires
        s.phase == Phase::CheckingInput,
    ensures
        ({
            let t = step_spec(s, EventV::InputExists(false));
            &&& t.phase == Phase::Done
            &&& t.outcome == Some(Err::<(), ErrV>(ErrV::InputNotFound(s.args.input)))
            &&& next_action_spec(t) == ActionV::Finish
        }),
{
}

/// An existing input whose extension is outside the allow-list fails the run
/// with `UnsupportedInputFormat`, whatever the file's content, and nothing
/// further is asked of the caller.
pub proof fn lemma_unsupported_input_rejected(s: ExtractionV)
    requires
        s.phase == Phase::CheckingInput,
        !crate::validate::is_video_path(s.args.input),
    ensures
        ({
            let t = step_spec(s, EventV::InputExists(true));
            &&& t.phase == Phase::Done
            &&& t.outcome == Some(Err::<(), ErrV>(ErrV::UnsupportedInputFormat(s.args.input)))
            &&& next_action_spec(t) == ActionV::Finish
        }),
{
}

/// Whether a phase lies past the directory stage.
pub open spec fn past_dir(ph: Phase) -> bool {
    ph == Phase::CheckingTool || ph == Phase::RunningTool || ph == Phase::WritingFallback
        || ph == Phase::Verifying || ph == Phase::Probing
}

/// Directories come before writes: actions that write the output are only
/// asked for past the directory stage, and the only ways past it are an
/// output that needs no directory made, or the event that reports the full
/// directory chain created.
pub proof fn lemma_dirs_before_writes(s: ExtractionV, ev: EventV)
    ensures
        (next_action_spec(s) matches ActionV::RunTool(x)) ==> past_dir(s.phase),
        (next_action_spec(s) matches ActionV::WriteOutput(x)) ==> past_dir(s.phase),
        !past_dir(s.phase) && past_dir(step_spec(s, ev).phase) ==> (ev == EventV::DirMade(
            Ok::<(), Seq<char>>(()),
        ) || dir_to_make(s.args) is None),
{
    let t = step_spec(s, ev);
    if !past_dir(s.phase) && past_dir(t.phase) {
        match (s.phase, ev) {
            (Phase::CheckingInput, EventV::InputExists(ex)) => {
                assert(dir_to_make(s.args) is None);
            },
            (Phase::PreparingDir, EventV::DirMade(r)) => {
                match r {
                    Ok(u) => {
                        assert(ev == EventV::DirMade(Ok::<(), Seq<char>>(())));
                    },
                    Err(m) => {
                        assert(false);
                    },
                }
            },
            _ => {
                assert(false);
            },
        }
    }
}

/// With the transcoder unavailable, the run turns to the degraded mode: the
/// next action writes the placeholder payload — never empty, embedding the
/// configured input path, format and quality — and once that write succeeds
/// the run succeeds, the probe's verdict notwithstanding.
pub proof fn lemma_fallback_succeeds(s: ExtractionV)
    requires
        s.phase == Phase::CheckingTool,
    ensures
        ({
            let t = step_spec(s, EventV::ToolAvailable(false));
            let content = placeholder_spec(s.args, s.timestamp);
            &&& t.phase == Phase::WritingFallback
            &&& next_action_spec(t) == ActionV::WriteOutput(content)
            &&& content.len() > 0
            &&& contains_sub(content, s.args.input)
            &&& contains_sub(content, format_name(s.args.format))
            &&& contains_sub(content, dec_of(s.args.quality as nat))
            &&& (!s.args.verify ==> step_spec(t, EventV::OutputWritten(Ok(()))).outcome == Some(
                Ok::<(), ErrV>(()),
            ))
            &&& forall|n: u64, r: Result<AudioFileInfoV, Seq<char>>|
                n > 0 ==> #[trigger] step_spec(
                    step_spec(
                        step_spec(t, EventV::OutputWritten(Ok(()))),
                        EventV::OutputStat(Some(n)),
                    ),
                    EventV::Probed(r),
                ).outcome == Some(Ok::<(), ErrV>(()))
        }),
{
    lemma_placeholder_mentions(s.args, s.timestamp);
}

} // verus!
