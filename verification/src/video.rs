//! The video run: a state machine over the external tool's phases.
//!
//! A video is restored in four strict phases: extract every frame to
//! a working directory, process all frames in parallel, probe the
//! source's frame rate and audio and the tool's encoders, and
//! reassemble the processed frames with the original audio.  The
//! machine decides every transition and builds every command line;
//! the surrounding application performs each returned action —
//! spawning the tool, running the batch — and reports what happened
//! as the next event.  A failed frame fails the whole run: a partial
//! frame sequence would desynchronize audio and video.

use vstd::prelude::*;

use crate::codec::{
    build_extract_args, build_reassemble_args, select_audio_codec, select_video_codec,
    spec_extract_args, spec_reassemble_args, spec_select_audio_codec, spec_select_video_codec,
    AudioCodec, VideoCodec,
};
use crate::framerate::{normalize_frame_rate, spec_normalize_frame_rate};

verus! {

/// Where a video run stands.
#[derive(Clone, Copy, Debug, PartialEq, Eq, Structural)]
pub enum VideoPhase {
    Extracting,
    ProcessingFrames,
    ProbingStreams,
    Reassembling,
    Done,
    Failed,
}

/// Why a video run failed as a whole.
#[derive(Clone, Debug)]
pub enum VideoError {
    /// The decode tool exited unsuccessfully.
    ExtractionFailed,
    /// The decode tool produced no frames.
    NoFramesExtracted,
    /// Frames failed processing; a partial sequence is refused.
    FramesFailed { failed: usize },
    /// The encode tool exited unsuccessfully; its diagnostic text.
    ReassemblyFailed { diagnostic: String },
}

/// What the application reports back after performing an action.
pub enum VideoEvent {
    /// The extraction process exited; how many frames it produced.
    ExtractFinished { success: bool, frame_count: usize },
    /// The frame batch resolved every frame, one way or the other.
    FramesProcessed { succeeded: usize, failed: usize },
    /// The probes ran: the raw frame rate, whether an audio stream
    /// exists, and which encoders the tool advertises.
    StreamsProbed {
        frame_rate_raw: String,
        audio_present: bool,
        x264_available: bool,
        h264_available: bool,
        aac_available: bool,
        mp3_available: bool,
    },
    /// The reassembly process exited; its diagnostic text.
    ReassembleFinished { success: bool, diagnostic: String },
}

/// What the application must do next.
pub enum VideoAction {
    /// Spawn the decode tool with these arguments.
    RunExtract { args: Vec<String> },
    /// Run the frame batch in parallel over the extracted frames.
    ProcessFrames,
    /// Probe the source's streams and the tool's encoders.
    ProbeStreams,
    /// Spawn the encode tool with these arguments.
    RunReassemble { args: Vec<String> },
    /// The run is done: clean both working directories up; the output
    /// stands at this path.
    Finish { output_path: String },
    /// The run failed: clean both working directories up and report.
    Abort { error: VideoError },
}

/// One video run: its fixed paths and everything decided so far.
pub struct VideoJob {
    pub phase: VideoPhase,
    pub video_path: String,
    pub frames_dir: String,
    pub processed_dir: String,
    pub output_path: String,
    /// The per-frame output name suffix of the chosen model.
    pub suffix: String,
    /// How many frames extraction produced.
    pub frame_count: usize,
    /// The normalized frame rate, once probed.
    pub frame_rate: String,
    /// Whether the source carries an audio stream, once probed.
    pub audio_present: bool,
    /// The negotiated video encoder, recorded for diagnostics.
    pub video_codec: Option<VideoCodec>,
    /// The negotiated audio encoder, recorded for diagnostics.
    pub audio_codec: Option<AudioCodec>,
}

/// The event a phase expects from the application.
pub open spec fn expects(phase: VideoPhase, event: VideoEvent) -> bool {
    match phase {
        VideoPhase::Extracting => event is ExtractFinished,
        VideoPhase::ProcessingFrames => event is FramesProcessed,
        VideoPhase::ProbingStreams => event is StreamsProbed,
        VideoPhase::Reassembling => event is ReassembleFinished,
        VideoPhase::Done => false,
        VideoPhase::Failed => false,
    }
}

/// The fields fixed at the start of a run never change.
pub open spec fn same_run(a: VideoJob, b: VideoJob) -> bool {
    &&& a.video_path == b.video_path
    &&& a.frames_dir == b.frames_dir
    &&& a.processed_dir == b.processed_dir
    &&& a.output_path == b.output_path
    &&& a.suffix == b.suffix
}

impl VideoJob {
    /// Begin a run over one video: the first action extracts every
    /// frame into the frames directory.
    pub fn start(
        video_path: String,
        frames_dir: String,
        processed_dir: String,
        output_path: String,
        suffix: String,
    ) -> (r: (VideoJob, VideoAction))
        ensures
            r.0.phase == VideoPhase::Extracting,
            r.0.video_path == video_path,
            r.0.frames_dir == frames_dir,
            r.0.processed_dir == processed_dir,
            r.0.output_path == output_path,
            r.0.suffix == suffix,
            r.1 matches VideoAction::RunExtract { args } && args.deep_view() == spec_extract_args(
                video_path@,
                frames_dir@,
            ),
    {
        let args = build_extract_args(video_path.as_str(), frames_dir.as_str());
        let job = VideoJob {
            phase: VideoPhase::Extracting,
            video_path,
            frames_dir,
            processed_dir,
            output_path,
            suffix,
            frame_count: 0,
            frame_rate: String::new(),
            audio_present: false,
            video_codec: None,
            audio_codec: None,
        };
        (job, VideoAction::RunExtract { args })
    }

    /// Advance the run by one event.
    ///
    /// Extraction must succeed and produce at least one frame; the
    /// batch must resolve every frame and none may fail; the probe
    /// fixes the frame rate and the negotiated codecs; reassembly
    /// ends the run.  Every failure aborts the whole run.
    pub fn step(&mut self, event: VideoEvent) -> (a: VideoAction)
        requires
            expects(old(self).phase, event),
            event matches VideoEvent::FramesProcessed { succeeded, failed } ==> succeeded + failed
                == old(self).frame_count,
        ensures
            same_run(*old(self), *final(self)),
            event matches VideoEvent::ExtractFinished { success, frame_count } ==> ({
                if !success {
                    &&& final(self).phase == VideoPhase::Failed
                    &&& a matches VideoAction::Abort { error: VideoError::ExtractionFailed }
                } else if frame_count == 0 {
                    &&& final(self).phase == VideoPhase::Failed
                    &&& a matches VideoAction::Abort { error: VideoError::NoFramesExtracted }
                } else {
                    &&& final(self).phase == VideoPhase::ProcessingFrames
                    &&& final(self).frame_count == frame_count
                    &&& a is ProcessFrames
                }
            }),
            event matches VideoEvent::FramesProcessed { succeeded, failed } ==> ({
                if failed > 0 {
                    &&& final(self).phase == VideoPhase::Failed
                    &&& a matches VideoAction::Abort {
                        error: VideoError::FramesFailed { failed: f },
                    } && f == failed
                } else {
                    &&& final(self).phase == VideoPhase::ProbingStreams
                    &&& a is ProbeStreams
                }
            }),
            event matches VideoEvent::StreamsProbed {
                frame_rate_raw,
                audio_present,
                x264_available,
                h264_available,
                aac_available,
                mp3_available,
            } ==> ({
                let vc = spec_select_video_codec(x264_available, h264_available);
                let ac = spec_select_audio_codec(aac_available, mp3_available);
                &&& final(self).phase == VideoPhase::Reassembling
                &&& final(self).frame_rate@ == spec_normalize_frame_rate(frame_rate_raw@)
                &&& final(self).audio_present == audio_present
                &&& final(self).video_codec == Some(vc)
                &&& final(self).audio_codec == (if audio_present {
                    Some(ac)
                } else {
                    Option::<AudioCodec>::None
                })
                &&& a matches VideoAction::RunReassemble { args } && args.deep_view()
                    == spec_reassemble_args(
                    spec_normalize_frame_rate(frame_rate_raw@),
                    old(self).processed_dir@,
                    old(self).suffix@,
                    old(self).video_path@,
                    old(self).output_path@,
                    audio_present,
                    vc,
                    ac,
                )
            }),
            event matches VideoEvent::ReassembleFinished { success, diagnostic } ==> ({
                if success {
                    &&& final(self).phase == VideoPhase::Done
                    &&& a matches VideoAction::Finish { output_path } && output_path == old(
                        self,
                    ).output_path
                } else {
                    &&& final(self).phase == VideoPhase::Failed
                    &&& a matches VideoAction::Abort {
                        error: VideoError::ReassemblyFailed { diagnostic: d },
                    } && d == diagnostic
                }
            }),
    {
        match event {
            VideoEvent::ExtractFinished { success, frame_count } => {
                if !success {
                    self.phase = VideoPhase::Failed;
                    VideoAction::Abort { error: VideoError::ExtractionFailed }
                } else if frame_count == 0 {
                    self.phase = VideoPhase::Failed;
                    VideoAction::Abort { error: VideoError::NoFramesExtracted }
                } else {
                    self.phase = VideoPhase::ProcessingFrames;
                    self.frame_count = frame_count;
                    VideoAction::ProcessFrames
                }
            },
            VideoEvent::FramesProcessed { succeeded: _, failed } => {
                if failed > 0 {
                    self.phase = VideoPhase::Failed;
                    VideoAction::Abort { error: VideoError::FramesFailed { failed } }
                } else {
                    self.phase = VideoPhase::ProbingStreams;
                    VideoAction::ProbeStreams
                }
            },
            VideoEvent::StreamsProbed {
                frame_rate_raw,
                audio_present,
                x264_available,
                h264_available,
                aac_available,
                mp3_available,
            } => {
                let fps = normalize_frame_rate(frame_rate_raw.as_str());
                let vc = select_video_codec(x264_available, h264_available);
                let ac = select_audio_codec(aac_available, mp3_available);
                let args = build_reassemble_args(
                    fps.as_str(),
                    self.processed_dir.as_str(),
                    self.suffix.as_str(),
                    self.video_path.as_str(),
                    self.output_path.as_str(),
                    audio_present,
                    vc,
                    ac,
                );
                self.phase = VideoPhase::Reassembling;
                self.frame_rate = fps;
                self.audio_present = audio_present;
                self.video_codec = Some(vc);
                self.audio_codec = if audio_present {
                    Some(ac)
                } else {
                    None
                };
                VideoAction::RunReassemble { args }
            },
            VideoEvent::ReassembleFinished { success, diagnostic } => {
                if success {
                    self.phase = VideoPhase::Done;
                    VideoAction::Finish { output_path: self.output_path.clone() }
                } else {
                    self.phase = VideoPhase::Failed;
                    VideoAction::Abort { error: VideoError::ReassemblyFailed { diagnostic } }
                }
            },
        }
    }
}

} // verus!
