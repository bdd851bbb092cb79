use upscaler::codec::{AudioCodec, VideoCodec};
use upscaler::video::{VideoAction, VideoError, VideoEvent, VideoJob, VideoPhase};

fn started() -> (VideoJob, VideoAction) {
    VideoJob::start(
        "clip.mp4".to_string(),
        "./temp_frames".to_string(),
        "./temp_upscaled".to_string(),
        "clip_upscaled.mp4".to_string(),
        "_4x".to_string(),
    )
}

#[test]
fn a_run_walks_all_phases() {
    let (mut job, action) = started();
    assert_eq!(job.phase, VideoPhase::Extracting);
    match action {
        VideoAction::RunExtract { args } => {
            assert_eq!(args[0], "-i");
            assert_eq!(args[1], "clip.mp4");
            assert_eq!(args[8], "./temp_frames/frame_%06d.png");
        }
        _ => panic!("expected an extraction command"),
    }
    let action = job.step(VideoEvent::ExtractFinished {
        success: true,
        frame_count: 120,
    });
    assert_eq!(job.phase, VideoPhase::ProcessingFrames);
    assert_eq!(job.frame_count, 120);
    assert!(matches!(action, VideoAction::ProcessFrames));
    let action = job.step(VideoEvent::FramesProcessed {
        succeeded: 120,
        failed: 0,
    });
    assert_eq!(job.phase, VideoPhase::ProbingStreams);
    assert!(matches!(action, VideoAction::ProbeStreams));
    let action = job.step(VideoEvent::StreamsProbed {
        frame_rate_raw: "30000/1001".to_string(),
        audio_present: true,
        x264_available: true,
        h264_available: true,
        aac_available: true,
        mp3_available: false,
    });
    assert_eq!(job.phase, VideoPhase::Reassembling);
    assert_eq!(job.frame_rate, "29.970");
    assert_eq!(job.video_codec, Some(VideoCodec::X264));
    assert_eq!(job.audio_codec, Some(AudioCodec::Aac));
    match action {
        VideoAction::RunReassemble { args } => {
            assert_eq!(args[1], "-framerate");
            assert_eq!(args[2], "29.970");
            assert_eq!(args[4], "./temp_upscaled/frame_%06d_4x.png");
            assert!(args.iter().any(|a| a.as_str() == "libx264"));
            assert_eq!(*args.last().unwrap(), "clip_upscaled.mp4");
        }
        _ => panic!("expected a reassembly command"),
    }
    let action = job.step(VideoEvent::ReassembleFinished {
        success: true,
        diagnostic: String::new(),
    });
    assert_eq!(job.phase, VideoPhase::Done);
    match action {
        VideoAction::Finish { output_path } => assert_eq!(output_path, "clip_upscaled.mp4"),
        _ => panic!("expected the run to finish"),
    }
}

/// The preferred video encoder is unavailable and the secondary is:
/// the orchestrator selects the secondary and records that choice.
#[test]
fn codec_fallback_is_recorded() {
    let (mut job, _) = started();
    job.step(VideoEvent::ExtractFinished {
        success: true,
        frame_count: 2,
    });
    job.step(VideoEvent::FramesProcessed {
        succeeded: 2,
        failed: 0,
    });
    let action = job.step(VideoEvent::StreamsProbed {
        frame_rate_raw: "30".to_string(),
        audio_present: false,
        x264_available: false,
        h264_available: true,
        aac_available: false,
        mp3_available: false,
    });
    assert_eq!(job.video_codec, Some(VideoCodec::H264));
    assert_eq!(job.audio_codec, None);
    match action {
        VideoAction::RunReassemble { args } => {
            assert!(args.iter().any(|a| a.as_str() == "h264"));
            assert!(!args.iter().any(|a| a.as_str() == "libx264"));
        }
        _ => panic!("expected a reassembly command"),
    }
}

#[test]
fn failed_extraction_aborts_the_run() {
    let (mut job, _) = started();
    let action = job.step(VideoEvent::ExtractFinished {
        success: false,
        frame_count: 0,
    });
    assert_eq!(job.phase, VideoPhase::Failed);
    assert!(matches!(
        action,
        VideoAction::Abort {
            error: VideoError::ExtractionFailed
        }
    ));
}

#[test]
fn zero_frames_abort_the_run() {
    let (mut job, _) = started();
    let action = job.step(VideoEvent::ExtractFinished {
        success: true,
        frame_count: 0,
    });
    assert_eq!(job.phase, VideoPhase::Failed);
    assert!(matches!(
        action,
        VideoAction::Abort {
            error: VideoError::NoFramesExtracted
        }
    ));
}

/// A single failed frame fails the whole video: a partial frame
/// sequence would desynchronize audio and video.
#[test]
fn one_failed_frame_fails_the_video() {
    let (mut job, _) = started();
    job.step(VideoEvent::ExtractFinished {
        success: true,
        frame_count: 10,
    });
    let action = job.step(VideoEvent::FramesProcessed {
        succeeded: 9,
        failed: 1,
    });
    assert_eq!(job.phase, VideoPhase::Failed);
    assert!(matches!(
        action,
        VideoAction::Abort {
            error: VideoError::FramesFailed { failed: 1 }
        }
    ));
}

#[test]
fn failed_reassembly_surfaces_the_diagnostic() {
    let (mut job, _) = started();
    job.step(VideoEvent::ExtractFinished {
        success: true,
        frame_count: 2,
    });
    job.step(VideoEvent::FramesProcessed {
        succeeded: 2,
        failed: 0,
    });
    job.step(VideoEvent::StreamsProbed {
        frame_rate_raw: String::new(),
        audio_present: false,
        x264_available: false,
        h264_available: false,
        aac_available: false,
        mp3_available: false,
    });
    assert_eq!(job.frame_rate, "30");
    assert_eq!(job.video_codec, Some(VideoCodec::Mpeg4));
    let action = job.step(VideoEvent::ReassembleFinished {
        success: false,
        diagnostic: "muxer exploded".to_string(),
    });
    assert_eq!(job.phase, VideoPhase::Failed);
    match action {
        VideoAction::Abort {
            error: VideoError::ReassemblyFailed { diagnostic },
        } => assert_eq!(diagnostic, "muxer exploded"),
        _ => panic!("expected the reassembly failure to surface"),
    }
}
