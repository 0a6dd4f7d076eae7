use subtitles::convert::{
    audio_probe_args, audio_probe_result, compatibility_after_tools, compatibility_start,
    decode_wav, probe_verdict, wav_conversion_args, CompatibilityStep, ConvertAction,
    ConvertError, ConvertEvent, ConvertPhase, WavConversion,
};

fn wav_bytes(samples: &[i16]) -> Vec<u8> {
    let spec = hound::WavSpec {
        channels: 1,
        sample_rate: 16000,
        bits_per_sample: 16,
        sample_format: hound::SampleFormat::Int,
    };
    let mut buf = std::io::Cursor::new(Vec::new());
    {
        let mut writer = hound::WavWriter::new(&mut buf, spec).unwrap();
        for s in samples {
            writer.write_sample(*s).unwrap();
        }
        writer.finalize().unwrap();
    }
    buf.into_inner()
}

#[test]
fn test_convert_to_wav() {
    // A missing input is refused before any tool runs.
    let (conv, action) = WavConversion::start("missing.mp3".to_string());
    assert!(matches!(action, ConvertAction::CheckInput { ref path } if path == "missing.mp3"));
    let (conv, action) = conv.step(ConvertEvent::InputChecked { exists: false });
    assert_eq!(conv.phase, ConvertPhase::Finished);
    assert!(matches!(action, ConvertAction::Finish(Err(ConvertError::InvalidInput))));
}

#[test]
fn conversion_runs_probe_ffmpeg_and_reads_samples() {
    let (conv, _) = WavConversion::start("in.mp4".to_string());
    let (conv, action) = conv.step(ConvertEvent::InputChecked { exists: true });
    match action {
        ConvertAction::RunProbe { args } => assert_eq!(
            args,
            vec![
                "-v",
                "error",
                "-select_streams",
                "a:0",
                "-show_entries",
                "stream=codec_type",
                "-of",
                "default=noprint_wrappers=1:nokey=1",
                "in.mp4"
            ]
        ),
        _ => panic!("expected the probe"),
    }
    let (conv, action) = conv.step(ConvertEvent::ProbeFinished {
        success: true,
        stdout: b"audio\n".to_vec(),
        stderr: vec![],
    });
    assert!(matches!(action, ConvertAction::CreateTempDir));
    let (conv, action) = conv.step(ConvertEvent::TempDirCreated { output: "/tmp/x/output.wav".to_string() });
    match action {
        ConvertAction::RunFfmpeg { args } => assert_eq!(
            args,
            vec![
                "-i",
                "in.mp4",
                "-vn",
                "-acodec",
                "pcm_s16le",
                "-ac",
                "1",
                "-ar",
                "16000",
                "-y",
                "/tmp/x/output.wav"
            ]
        ),
        _ => panic!("expected ffmpeg"),
    }
    let (conv, action) = conv.step(ConvertEvent::FfmpegFinished { success: true, status: "exit status: 0".to_string() });
    assert!(matches!(action, ConvertAction::ReadWav { ref path } if path == "/tmp/x/output.wav"));
    let (conv, action) = conv.step(ConvertEvent::WavRead { bytes: wav_bytes(&[0, 1000, -1000, i16::MAX]) });
    assert_eq!(conv.phase, ConvertPhase::Finished);
    match action {
        ConvertAction::Finish(Ok(samples)) => assert_eq!(samples, vec![0, 1000, -1000, i16::MAX]),
        _ => panic!("expected samples"),
    }
}

#[test]
fn file_without_audio_is_refused() {
    let (conv, _) = WavConversion::start("in.mp4".to_string());
    let (conv, _) = conv.step(ConvertEvent::InputChecked { exists: true });
    let (_, action) = conv.step(ConvertEvent::ProbeFinished { success: true, stdout: b"\n".to_vec(), stderr: vec![] });
    assert!(matches!(action, ConvertAction::Finish(Err(ConvertError::NoAudioStream))));
}

#[test]
fn failing_tools_report_their_error() {
    let (conv, _) = WavConversion::start("in.mp4".to_string());
    let (conv, _) = conv.step(ConvertEvent::InputChecked { exists: true });
    let (_, action) = conv.step(ConvertEvent::ProbeFinished {
        success: false,
        stdout: vec![],
        stderr: b"in.mp4: Invalid data".to_vec(),
    });
    assert!(matches!(action, ConvertAction::Finish(Err(ConvertError::FfmpegError(ref m))) if m == "in.mp4: Invalid data"));

    let (conv, _) = WavConversion::start("in.mp4".to_string());
    let (conv, _) = conv.step(ConvertEvent::InputChecked { exists: true });
    let (conv, _) = conv.step(ConvertEvent::ProbeFinished { success: true, stdout: b"audio".to_vec(), stderr: vec![] });
    let (conv, _) = conv.step(ConvertEvent::TempDirCreated { output: "o.wav".to_string() });
    let (_, action) = conv.step(ConvertEvent::FfmpegFinished { success: false, status: "exit status: 1".to_string() });
    assert!(matches!(action, ConvertAction::Finish(Err(ConvertError::FfmpegError(ref m))) if m == "ffmpeg exited with status: exit status: 1"));

    let (conv, _) = WavConversion::start("in.mp4".to_string());
    let (conv, _) = conv.step(ConvertEvent::InputChecked { exists: true });
    let io = std::io::Error::new(std::io::ErrorKind::NotFound, "no ffprobe");
    let (_, action) = conv.step(ConvertEvent::IoFailed { io_error: io });
    assert!(matches!(action, ConvertAction::Finish(Err(ConvertError::IoError(_)))));
}

#[test]
fn probe_output_is_read_trimmed() {
    assert!(audio_probe_result(true, b"audio\n", b"").unwrap());
    assert!(audio_probe_result(true, b"  audio \r\n", b"").unwrap());
    assert!(!audio_probe_result(true, b"", b"").unwrap());
    assert!(!audio_probe_result(true, b"video\n", b"").unwrap());
    match audio_probe_result(false, b"audio", b"bad \xff input") {
        Err(ConvertError::FfmpegError(m)) => assert_eq!(m, "bad \u{fffd} input"),
        _ => panic!("expected an ffmpeg error"),
    }
}

#[test]
fn argument_lists() {
    assert_eq!(audio_probe_args("a.wav").last().unwrap(), "a.wav");
    assert_eq!(audio_probe_args("a.wav").len(), 9);
    assert_eq!(wav_conversion_args("i", "o")[0], "-i");
    assert_eq!(wav_conversion_args("i", "o")[1], "i");
    assert_eq!(wav_conversion_args("i", "o")[10], "o");
}

#[test]
fn wav_decoding() {
    assert_eq!(decode_wav(&wav_bytes(&[5, -5])).unwrap(), vec![5, -5]);
    assert_eq!(decode_wav(&wav_bytes(&[])).unwrap(), Vec::<i16>::new());
    assert!(matches!(decode_wav(b"not a wav file"), Err(ConvertError::WavReadError(_))));
}

#[test]
fn compatibility_check_steps() {
    assert!(matches!(compatibility_start(false, Some("x".to_string())), CompatibilityStep::Decided(false)));
    assert!(matches!(compatibility_start(true, None), CompatibilityStep::Decided(false)));
    assert!(matches!(compatibility_start(true, Some("x".to_string())), CompatibilityStep::CheckTools { ref path } if path == "x"));
    assert!(matches!(compatibility_after_tools("x".to_string(), false), CompatibilityStep::Decided(false)));
    match compatibility_after_tools("demo2.mp4".to_string(), true) {
        CompatibilityStep::RunProbe { args } => assert_eq!(args, vec!["-v", "quiet", "-show_format", "demo2.mp4"]),
        _ => panic!("expected the probe"),
    }
    assert!(probe_verdict(true, true));
    assert!(!probe_verdict(true, false));
    assert!(!probe_verdict(false, true));
}

#[test]
fn convert_error_from_impls() {
    let e: ConvertError = std::io::Error::new(std::io::ErrorKind::Other, "x").into();
    assert!(matches!(e, ConvertError::IoError(_)));
    let e: ConvertError = hound::Error::Unsupported.into();
    assert!(matches!(e, ConvertError::WavReadError(_)));
}
