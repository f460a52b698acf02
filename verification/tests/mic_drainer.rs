use pico4u::mic_drainer::{device_name_matches, lowered_name_matches, peak_level_i16, peak_magnitude_i16};

#[test]
fn matches_picostreaming_case_insensitive() {
    assert!(device_name_matches("PicoStreamingMicrophone"));
    assert!(device_name_matches("pico streaming? picostreaming yes"));
    assert!(device_name_matches("PICOSTREAMING"));
}

#[test]
fn does_not_match_other_devices() {
    assert!(!device_name_matches("Realtek High Definition Audio"));
    assert!(!device_name_matches("Microphone Array"));
    assert!(!device_name_matches(""));
}

#[test]
fn lowered_name_needs_exact_keyword() {
    assert!(lowered_name_matches("xxpicostreamingyy"));
    assert!(!lowered_name_matches("PicoStreaming"));
    assert!(!lowered_name_matches("picostreamin"));
}

#[test]
fn peak_magnitude_of_blocks() {
    assert_eq!(peak_magnitude_i16(&[]), 0);
    assert_eq!(peak_magnitude_i16(&[i16::MAX]), 32767);
    assert_eq!(peak_magnitude_i16(&[-16383, 100]), 16383);
    assert_eq!(peak_magnitude_i16(&[5, i16::MIN, 7]), 32768);
    assert_eq!(peak_magnitude_i16(&[3, -3, 2]), 3);
}

#[test]
fn peak_level_stays_within_i16_max() {
    assert_eq!(peak_level_i16(&[]), 0);
    assert_eq!(peak_level_i16(&[i16::MAX]), 32767);
    assert_eq!(peak_level_i16(&[i16::MIN, 3]), 32767);
    assert_eq!(peak_level_i16(&[-16383, 100]), 16383);
}

#[test]
fn matching_name_inside_longer_name() {
    for extra in ["", "mic ", " (2)", "ÄÖ"] {
        assert!(lowered_name_matches(&format!("{}picostreaming", extra)));
        assert!(lowered_name_matches(&format!("picostreaming{}", extra)));
        assert!(device_name_matches(&format!("{}PicoStreamingMicrophone", extra)));
    }
}
