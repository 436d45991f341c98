use pi_inky_weather_epd::logger::{colour_policy, debug, error, info, use_colours, warning, ColourPolicy, LogLevel};

#[test]
fn app_color_decides_before_other_variables() {
    assert_eq!(colour_policy(Some("ALWAYS"), false, true), ColourPolicy::Always);
    assert_eq!(colour_policy(Some("0"), true, false), ColourPolicy::Never);
    assert_eq!(colour_policy(Some("maybe"), true, true), ColourPolicy::Auto);
    assert_eq!(colour_policy(None, true, true), ColourPolicy::Always);
    assert_eq!(colour_policy(None, false, true), ColourPolicy::Never);
    assert_eq!(colour_policy(None, false, false), ColourPolicy::Auto);
}

#[test]
fn auto_colours_only_terminals() {
    assert!(use_colours(ColourPolicy::Auto, true));
    assert!(!use_colours(ColourPolicy::Auto, false));
    assert!(use_colours(ColourPolicy::Always, false));
    assert!(!use_colours(ColourPolicy::Never, true));
}

#[test]
fn log_lines_carry_symbol_label_and_colour() {
    assert_eq!(info("hello", false), "ℹ INFO hello");
    assert_eq!(warning("careful", true), "\x1b[33m⚠ WARNING\x1b[0m careful");
    assert_eq!(error("bad", false), "✗ ERROR bad");
    assert_eq!(debug("x", false, false), None);
    assert_eq!(debug("x", false, true), Some("• DEBUG x".to_string()));
    assert_eq!(LogLevel::Success.label(), "SUCCESS");
}
