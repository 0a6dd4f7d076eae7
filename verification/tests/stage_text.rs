use std::str::FromStr;

use subtitles::stage::TaskStage;
use subtitles::text::{i32_to_decimal, lossy_text, trimmed_equals, u64_to_decimal};

const ALL: [TaskStage; 7] = [
    TaskStage::Unknown,
    TaskStage::UploadingFile,
    TaskStage::TransferingS3,
    TaskStage::FindingWorker,
    TaskStage::Processing,
    TaskStage::Failed,
    TaskStage::Success,
];

#[test]
fn stage_names_are_the_variant_names() {
    assert_eq!(TaskStage::Unknown.to_string(), "Unknown");
    assert_eq!(TaskStage::UploadingFile.to_string(), "UploadingFile");
    assert_eq!(TaskStage::TransferingS3.to_string(), "TransferingS3");
    assert_eq!(TaskStage::FindingWorker.to_string(), "FindingWorker");
    assert_eq!(TaskStage::Processing.to_string(), "Processing");
    assert_eq!(TaskStage::Failed.to_string(), "Failed");
    assert_eq!(TaskStage::Success.to_string(), "Success");
}

#[test]
fn stage_text_round_trips() {
    for stage in ALL {
        assert_eq!(TaskStage::parse(stage.name()), stage);
        assert_eq!(TaskStage::from_str(&stage.to_string()), Ok(stage));
    }
}

#[test]
fn stage_names_fit_the_column() {
    for stage in ALL {
        assert!(!stage.name().is_empty() && stage.name().len() <= 20);
    }
}

#[test]
fn unrecognised_stage_text_is_unknown() {
    assert_eq!(TaskStage::parse("success"), TaskStage::Unknown);
    assert_eq!(TaskStage::parse(""), TaskStage::Unknown);
    assert_eq!(TaskStage::parse(" Success"), TaskStage::Unknown);
    assert_eq!(TaskStage::from_str("Done"), Ok(TaskStage::Unknown));
}

#[test]
fn default_stage_is_unknown() {
    assert_eq!(TaskStage::default(), TaskStage::Unknown);
}

#[test]
fn decimal_notation() {
    assert_eq!(u64_to_decimal(0), "0");
    assert_eq!(u64_to_decimal(7), "7");
    assert_eq!(u64_to_decimal(10), "10");
    assert_eq!(u64_to_decimal(10001), "10001");
    assert_eq!(u64_to_decimal(u64::MAX), u64::MAX.to_string());
    assert_eq!(i32_to_decimal(0), "0");
    assert_eq!(i32_to_decimal(42), "42");
    assert_eq!(i32_to_decimal(-1), "-1");
    assert_eq!(i32_to_decimal(i32::MIN), "-2147483648");
    assert_eq!(i32_to_decimal(i32::MAX), "2147483647");
}

#[test]
fn trimmed_comparison() {
    assert!(trimmed_equals("audio\n", "audio"));
    assert!(trimmed_equals(" \t audio \r\n", "audio"));
    assert!(trimmed_equals("\u{3000}audio\u{a0}", "audio"));
    assert!(!trimmed_equals("audi o", "audio"));
    assert!(!trimmed_equals("video\n", "audio"));
    assert!(!trimmed_equals("", "audio"));
    assert!(trimmed_equals(" \n ", ""));
}

#[test]
fn lossy_text_keeps_valid_utf8_and_replaces_the_rest() {
    assert_eq!(lossy_text(b"audio\n"), "audio\n");
    assert_eq!(lossy_text(&[0x61, 0xff, 0x62]), "a\u{fffd}b");
}
