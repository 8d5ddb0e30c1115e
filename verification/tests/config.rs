use supervise::config::DEFAULT_HIGH_WATERMARK;
use supervise::config::EngineConfig;
use supervise::config::watermark_from_text;

#[test]
fn absent_variable_falls_back_to_the_default() {
    assert_eq!(watermark_from_text(None), DEFAULT_HIGH_WATERMARK);
    assert_eq!(DEFAULT_HIGH_WATERMARK, 1_073_741_824);
}

#[test]
fn valid_numeral_is_taken_verbatim() {
    assert_eq!(watermark_from_text(Some(&"2048".to_string())), 2048);
    assert_eq!(watermark_from_text(Some(&"0".to_string())), 0);
    assert_eq!(
        watermark_from_text(Some(&u64::MAX.to_string())),
        u64::MAX
    );
}

#[test]
fn unparseable_text_falls_back_to_the_default() {
    assert_eq!(watermark_from_text(Some(&"".to_string())), DEFAULT_HIGH_WATERMARK);
    assert_eq!(watermark_from_text(Some(&"12a".to_string())), DEFAULT_HIGH_WATERMARK);
    assert_eq!(watermark_from_text(Some(&"-5".to_string())), DEFAULT_HIGH_WATERMARK);
    assert_eq!(watermark_from_text(Some(&" 7".to_string())), DEFAULT_HIGH_WATERMARK);
}

#[test]
fn numeral_beyond_the_machine_word_falls_back() {
    // One above u64::MAX, and something far larger.
    assert_eq!(
        watermark_from_text(Some(&"18446744073709551616".to_string())),
        DEFAULT_HIGH_WATERMARK
    );
    assert_eq!(
        watermark_from_text(Some(&"99999999999999999999999999".to_string())),
        DEFAULT_HIGH_WATERMARK
    );
}

#[test]
fn baseline_engine_config() {
    let c = EngineConfig::baseline();
    assert_eq!(c.origins, "*");
    assert_eq!(c.host, "0.0.0.0:11434");
    assert!(c.allow_private_network);
}
