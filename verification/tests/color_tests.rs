use owo_colors::Stream;
use twyg::color::Color;
use twyg::color::ColorAttribute;
use twyg::color::Colors;
use twyg::level::Level;

#[test]
fn test_color_default() {
    let c = Color::default();
    assert_eq!(c.fg, ColorAttribute::Reset);
    assert_eq!(c.bg, ColorAttribute::Reset);
}

#[test]
fn test_color_constructors() {
    let c = Color::red();
    assert_eq!(c.fg, ColorAttribute::Red);
    assert_eq!(c.bg, ColorAttribute::Reset);

    let c2 = Color::new(ColorAttribute::Green, ColorAttribute::Black);
    assert_eq!(c2.fg, ColorAttribute::Green);
    assert_eq!(c2.bg, ColorAttribute::Black);
}

#[test]
fn test_colors_default_matches_current_behavior() {
    let colors = Colors::default();
    assert!(colors.timestamp.is_some());
    assert!(colors.level_error.is_some());
    assert!(colors.level_warn.is_some());
    assert!(colors.level_info.is_some());
    assert!(colors.level_debug.is_some());
    assert!(colors.level_trace.is_some());
    assert!(colors.message.is_some());
    assert!(colors.arrow.is_some());
    assert!(colors.caller_file.is_some());
    assert!(colors.caller_line.is_some());
    assert!(colors.target.is_some());
    assert!(colors.attr_key.is_some());
    assert!(colors.attr_value.is_some());
}

#[test]
fn test_level_color_lookup() {
    let colors = Colors::default();
    assert!(colors.level_color(Level::Error).is_some());
    assert!(colors.level_color(Level::Warn).is_some());
    assert!(colors.level_color(Level::Info).is_some());
    assert!(colors.level_color(Level::Debug).is_some());
    assert!(colors.level_color(Level::Trace).is_some());
}

#[test]
fn test_color_attribute_default() {
    let attr = ColorAttribute::default();
    assert_eq!(attr, ColorAttribute::Reset);
}

#[test]
fn test_convenience_constructors() {
    assert_eq!(Color::black().fg, ColorAttribute::Black);
    assert_eq!(Color::red().fg, ColorAttribute::Red);
    assert_eq!(Color::green().fg, ColorAttribute::Green);
    assert_eq!(Color::yellow().fg, ColorAttribute::Yellow);
    assert_eq!(Color::blue().fg, ColorAttribute::Blue);
    assert_eq!(Color::magenta().fg, ColorAttribute::Magenta);
    assert_eq!(Color::cyan().fg, ColorAttribute::Cyan);
    assert_eq!(Color::white().fg, ColorAttribute::White);
    assert_eq!(Color::hi_black().fg, ColorAttribute::HiBlack);
    assert_eq!(Color::hi_red().fg, ColorAttribute::HiRed);
    assert_eq!(Color::hi_green().fg, ColorAttribute::HiGreen);
    assert_eq!(Color::hi_yellow().fg, ColorAttribute::HiYellow);
    assert_eq!(Color::hi_blue().fg, ColorAttribute::HiBlue);
    assert_eq!(Color::hi_magenta().fg, ColorAttribute::HiMagenta);
    assert_eq!(Color::hi_cyan().fg, ColorAttribute::HiCyan);
    assert_eq!(Color::hi_white().fg, ColorAttribute::HiWhite);
}

#[test]
fn test_color_attribute_apply_all_variants() {
    // Test all ColorAttribute variants
    let text = "test";

    // Reset should return plain text
    assert_eq!(ColorAttribute::Reset.apply(text, Stream::Stdout), "test");

    // Test all standard colors (just verify they return something)
    assert!(!ColorAttribute::Black.apply(text, Stream::Stdout).is_empty());
    assert!(!ColorAttribute::Red.apply(text, Stream::Stdout).is_empty());
    assert!(!ColorAttribute::Green.apply(text, Stream::Stdout).is_empty());
    assert!(!ColorAttribute::Yellow.apply(text, Stream::Stdout).is_empty());
    assert!(!ColorAttribute::Blue.apply(text, Stream::Stdout).is_empty());
    assert!(!ColorAttribute::Magenta.apply(text, Stream::Stdout).is_empty());
    assert!(!ColorAttribute::Cyan.apply(text, Stream::Stdout).is_empty());
    assert!(!ColorAttribute::White.apply(text, Stream::Stdout).is_empty());

    // Test all bright colors
    assert!(!ColorAttribute::HiBlack.apply(text, Stream::Stdout).is_empty());
    assert!(!ColorAttribute::HiRed.apply(text, Stream::Stdout).is_empty());
    assert!(!ColorAttribute::HiGreen.apply(text, Stream::Stdout).is_empty());
    assert!(!ColorAttribute::HiYellow.apply(text, Stream::Stdout).is_empty());
    assert!(!ColorAttribute::HiBlue.apply(text, Stream::Stdout).is_empty());
    assert!(!ColorAttribute::HiMagenta.apply(text, Stream::Stdout).is_empty());
    assert!(!ColorAttribute::HiCyan.apply(text, Stream::Stdout).is_empty());
    assert!(!ColorAttribute::HiWhite.apply(text, Stream::Stdout).is_empty());
}

#[test]
fn test_color_attribute_apply_bg_all_variants() {
    // Test all ColorAttribute variants for background
    let text = "test";

    // Reset should return plain text
    assert_eq!(ColorAttribute::Reset.apply_bg(text, Stream::Stdout), "test");

    // Test all standard background colors
    assert!(!ColorAttribute::Black.apply_bg(text, Stream::Stdout).is_empty());
    assert!(!ColorAttribute::Red.apply_bg(text, Stream::Stdout).is_empty());
    assert!(!ColorAttribute::Green.apply_bg(text, Stream::Stdout).is_empty());
    assert!(!ColorAttribute::Yellow.apply_bg(text, Stream::Stdout).is_empty());
    assert!(!ColorAttribute::Blue.apply_bg(text, Stream::Stdout).is_empty());
    assert!(!ColorAttribute::Magenta.apply_bg(text, Stream::Stdout).is_empty());
    assert!(!ColorAttribute::Cyan.apply_bg(text, Stream::Stdout).is_empty());
    assert!(!ColorAttribute::White.apply_bg(text, Stream::Stdout).is_empty());

    // Test all bright background colors
    assert!(!ColorAttribute::HiBlack.apply_bg(text, Stream::Stdout).is_empty());
    assert!(!ColorAttribute::HiRed.apply_bg(text, Stream::Stdout).is_empty());
    assert!(!ColorAttribute::HiGreen.apply_bg(text, Stream::Stdout).is_empty());
    assert!(!ColorAttribute::HiYellow.apply_bg(text, Stream::Stdout).is_empty());
    assert!(!ColorAttribute::HiBlue.apply_bg(text, Stream::Stdout).is_empty());
    assert!(!ColorAttribute::HiMagenta.apply_bg(text, Stream::Stdout).is_empty());
    assert!(!ColorAttribute::HiCyan.apply_bg(text, Stream::Stdout).is_empty());
    assert!(!ColorAttribute::HiWhite.apply_bg(text, Stream::Stdout).is_empty());
}

#[test]
fn test_color_attribute_with_stderr() {
    // Test that colors work with Stderr stream
    let text = "test";

    assert!(!ColorAttribute::Red.apply(text, Stream::Stderr).is_empty());
    assert!(!ColorAttribute::Green.apply_bg(text, Stream::Stderr).is_empty());
    assert!(!ColorAttribute::HiYellow.apply(text, Stream::Stderr).is_empty());
}

#[test]
fn test_color_apply_with_background() {
    let color = Color::new(ColorAttribute::White, ColorAttribute::Red);
    let result = color.apply("test", Stream::Stdout);

    // Should return text (with or without colors depending on terminal support)
    assert!(!result.is_empty());
    assert!(result.contains("test"));
}

#[test]
fn test_color_apply_fg_only() {
    let color = Color::fg(ColorAttribute::Green);
    let result = color.apply("test", Stream::Stdout);

    // Should have applied foreground only
    assert!(!result.is_empty());
}

#[test]
fn test_color_apply_reset_bg() {
    // Color with Reset background should only apply foreground
    let color = Color { fg: ColorAttribute::Red, bg: ColorAttribute::Reset };
    let result = color.apply("test", Stream::Stdout);
    assert!(!result.is_empty());
}

#[test]
fn test_colors_level_color_returns_correct_option() {
    let colors = Colors::default();

    // All default colors should be Some
    assert!(colors.level_color(Level::Error).is_some());
    assert!(colors.level_color(Level::Warn).is_some());
    assert!(colors.level_color(Level::Info).is_some());
    assert!(colors.level_color(Level::Debug).is_some());
    assert!(colors.level_color(Level::Trace).is_some());

    // Test with None colors
    let empty_colors = Colors {
        timestamp: None,
        level_trace: None,
        level_debug: None,
        level_info: None,
        level_warn: None,
        level_error: None,
        message: None,
        arrow: None,
        caller_file: None,
        caller_line: None,
        target: None,
        attr_key: None,
        attr_value: None,
    };

    assert!(empty_colors.level_color(Level::Error).is_none());
    assert!(empty_colors.level_color(Level::Warn).is_none());
    assert!(empty_colors.level_color(Level::Info).is_none());
    assert!(empty_colors.level_color(Level::Debug).is_none());
    assert!(empty_colors.level_color(Level::Trace).is_none());
}

#[test]
fn test_color_eq() {
    let c1 = Color::red();
    let c2 = Color::red();
    let c3 = Color::blue();

    assert_eq!(c1, c2);
    assert_ne!(c1, c3);
}

#[test]
fn test_color_attribute_eq() {
    assert_eq!(ColorAttribute::Red, ColorAttribute::Red);
    assert_ne!(ColorAttribute::Red, ColorAttribute::Blue);
    assert_ne!(ColorAttribute::Red, ColorAttribute::HiRed);
}

#[test]
fn test_color_clone() {
    let c1 = Color::new(ColorAttribute::Red, ColorAttribute::Blue);
    let c2 = c1.clone();
    assert_eq!(c1, c2);
}

#[test]
fn test_color_attribute_clone() {
    let attr = ColorAttribute::HiGreen;
    let cloned = attr.clone();
    assert_eq!(attr, cloned);
}

#[test]
fn test_colors_clone() {
    let colors1 = Colors::default();
    let colors2 = colors1.clone();
    assert_eq!(colors1.timestamp, colors2.timestamp);
    assert_eq!(colors1.level_error, colors2.level_error);
}

#[test]
fn test_color_debug() {
    let color = Color::red();
    let debug_str = format!("{:?}", color);
    assert!(debug_str.contains("Color"));
}

#[test]
fn test_color_attribute_debug() {
    let attr = ColorAttribute::HiYellow;
    let debug_str = format!("{:?}", attr);
    assert!(debug_str.contains("HiYellow"));
}

#[test]
fn test_colors_debug() {
    let colors = Colors::default();
    let debug_str = format!("{:?}", colors);
    assert!(debug_str.contains("Colors"));
}

#[test]
fn test_colors_partial_eq() {
    let c1 = Colors::default();
    let c2 = Colors::default();
    assert_eq!(c1, c2);

    let mut c3 = Colors::default();
    c3.message = None;
    assert_ne!(c1, c3);
}

#[test]
fn test_all_color_convenience_constructors_have_reset_bg() {
    // All convenience constructors should have Reset background
    assert_eq!(Color::black().bg, ColorAttribute::Reset);
    assert_eq!(Color::red().bg, ColorAttribute::Reset);
    assert_eq!(Color::green().bg, ColorAttribute::Reset);
    assert_eq!(Color::yellow().bg, ColorAttribute::Reset);
    assert_eq!(Color::blue().bg, ColorAttribute::Reset);
    assert_eq!(Color::magenta().bg, ColorAttribute::Reset);
    assert_eq!(Color::cyan().bg, ColorAttribute::Reset);
    assert_eq!(Color::white().bg, ColorAttribute::Reset);
    assert_eq!(Color::hi_black().bg, ColorAttribute::Reset);
    assert_eq!(Color::hi_red().bg, ColorAttribute::Reset);
    assert_eq!(Color::hi_green().bg, ColorAttribute::Reset);
    assert_eq!(Color::hi_yellow().bg, ColorAttribute::Reset);
    assert_eq!(Color::hi_blue().bg, ColorAttribute::Reset);
    assert_eq!(Color::hi_magenta().bg, ColorAttribute::Reset);
    assert_eq!(Color::hi_cyan().bg, ColorAttribute::Reset);
    assert_eq!(Color::hi_white().bg, ColorAttribute::Reset);
}

#[test]
fn test_color_new_sets_both_fg_and_bg() {
    let color = Color::new(ColorAttribute::Cyan, ColorAttribute::Magenta);
    assert_eq!(color.fg, ColorAttribute::Cyan);
    assert_eq!(color.bg, ColorAttribute::Magenta);
}

#[test]
fn test_colors_default_has_all_fields_set() {
    let colors = Colors::default();

    // Verify all fields are Some (not None)
    assert!(colors.timestamp.is_some());
    assert!(colors.level_trace.is_some());
    assert!(colors.level_debug.is_some());
    assert!(colors.level_info.is_some());
    assert!(colors.level_warn.is_some());
    assert!(colors.level_error.is_some());
    assert!(colors.message.is_some());
    assert!(colors.arrow.is_some());
    assert!(colors.caller_file.is_some());
    assert!(colors.caller_line.is_some());
    assert!(colors.target.is_some());
    assert!(colors.attr_key.is_some());
    assert!(colors.attr_value.is_some());
}

#[test]
fn test_color_apply_multiple_streams() {
    let color = Color::fg(ColorAttribute::Red);

    // Test with both Stdout and Stderr
    let stdout_result = color.apply("test", Stream::Stdout);
    let stderr_result = color.apply("test", Stream::Stderr);

    assert!(!stdout_result.is_empty());
    assert!(!stderr_result.is_empty());
}

#[test]
fn test_all_convenience_constructors_work() {
    // Ensure all convenience constructors create valid Color instances
    let constructors = vec![
        Color::black(),
        Color::red(),
        Color::green(),
        Color::yellow(),
        Color::blue(),
        Color::magenta(),
        Color::cyan(),
        Color::white(),
        Color::hi_black(),
        Color::hi_red(),
        Color::hi_green(),
        Color::hi_yellow(),
        Color::hi_blue(),
        Color::hi_magenta(),
        Color::hi_cyan(),
        Color::hi_white(),
    ];

    for color in constructors {
        // Each should have a non-Reset fg and Reset bg
        assert_ne!(color.fg, ColorAttribute::Reset);
        assert_eq!(color.bg, ColorAttribute::Reset);

        // Each should be able to apply to text
        let result = color.apply("test", Stream::Stdout);
        assert!(!result.is_empty());
    }
}

#[test]
fn test_color_attribute_all_variants_count() {
    // Ensure we're testing all 17 variants (Reset + 16 colors)
    let all_variants = vec![
        ColorAttribute::Reset,
        ColorAttribute::Black,
        ColorAttribute::Red,
        ColorAttribute::Green,
        ColorAttribute::Yellow,
        ColorAttribute::Blue,
        ColorAttribute::Magenta,
        ColorAttribute::Cyan,
        ColorAttribute::White,
        ColorAttribute::HiBlack,
        ColorAttribute::HiRed,
        ColorAttribute::HiGreen,
        ColorAttribute::HiYellow,
        ColorAttribute::HiBlue,
        ColorAttribute::HiMagenta,
        ColorAttribute::HiCyan,
        ColorAttribute::HiWhite,
    ];

    assert_eq!(all_variants.len(), 17);

    // Test each can be rendered
    for variant in all_variants {
        let applied = variant.apply("17", Stream::Stdout);
        assert!(!applied.is_empty());
    }
}

#[test]
fn test_color_default_apply() {
    // Test applying default color (both Reset)
    let default_color = Color::default();
    let result = default_color.apply("test", Stream::Stdout);
    // Should return plain text since both fg and bg are Reset
    assert_eq!(result, "test");
}

#[test]
fn test_color_apply_with_non_reset_bg() {
    // Test that non-Reset background gets applied
    let color = Color::new(ColorAttribute::White, ColorAttribute::Blue);
    let result = color.apply("test", Stream::Stdout);
    assert!(!result.is_empty());
    assert!(result.contains("test"));
}

#[test]
fn test_colors_all_none_values() {
    // Test Colors struct with all None values
    let empty_colors = Colors {
        timestamp: None,
        level_trace: None,
        level_debug: None,
        level_info: None,
        level_warn: None,
        level_error: None,
        message: None,
        arrow: None,
        caller_file: None,
        caller_line: None,
        target: None,
        attr_key: None,
        attr_value: None,
    };

    // Verify all level_color calls return None
    assert!(empty_colors.level_color(Level::Error).is_none());
    assert!(empty_colors.level_color(Level::Warn).is_none());
    assert!(empty_colors.level_color(Level::Info).is_none());
    assert!(empty_colors.level_color(Level::Debug).is_none());
    assert!(empty_colors.level_color(Level::Trace).is_none());

    // An all-empty palette still compares equal to itself
    assert_eq!(empty_colors, empty_colors.clone());
}

#[test]
fn test_color_with_reset_fg_non_reset_bg() {
    // Edge case: Reset foreground with colored background
    let color = Color::new(ColorAttribute::Reset, ColorAttribute::Red);
    let result = color.apply("test", Stream::Stdout);
    assert!(!result.is_empty());
}

#[test]
fn test_all_color_constructors_return_unique_colors() {
    // Verify each constructor creates a distinct color
    let colors = vec![
        Color::black(),
        Color::red(),
        Color::green(),
        Color::yellow(),
        Color::blue(),
        Color::magenta(),
        Color::cyan(),
        Color::white(),
        Color::hi_black(),
        Color::hi_red(),
        Color::hi_green(),
        Color::hi_yellow(),
        Color::hi_blue(),
        Color::hi_magenta(),
        Color::hi_cyan(),
        Color::hi_white(),
    ];

    // Check that not all colors are equal
    for i in 0..colors.len() {
        for j in (i + 1)..colors.len() {
            assert_ne!(colors[i], colors[j]);
        }
    }
}

#[test]
fn test_comprehensive_color_attribute_coverage() {
    // Explicitly test every ColorAttribute variant with both streams
    let test_text = "coverage";
    let all_variants = [
        ColorAttribute::Reset,
        ColorAttribute::Black,
        ColorAttribute::Red,
        ColorAttribute::Green,
        ColorAttribute::Yellow,
        ColorAttribute::Blue,
        ColorAttribute::Magenta,
        ColorAttribute::Cyan,
        ColorAttribute::White,
        ColorAttribute::HiBlack,
        ColorAttribute::HiRed,
        ColorAttribute::HiGreen,
        ColorAttribute::HiYellow,
        ColorAttribute::HiBlue,
        ColorAttribute::HiMagenta,
        ColorAttribute::HiCyan,
        ColorAttribute::HiWhite,
    ];

    for variant in all_variants.iter() {
        // Test foreground with both streams
        let fg_stdout = variant.apply(test_text, Stream::Stdout);
        let fg_stderr = variant.apply(test_text, Stream::Stderr);
        assert!(fg_stdout.contains(test_text));
        assert!(fg_stderr.contains(test_text));

        // Test background with both streams
        let bg_stdout = variant.apply_bg(test_text, Stream::Stdout);
        let bg_stderr = variant.apply_bg(test_text, Stream::Stderr);
        assert!(bg_stdout.contains(test_text));
        assert!(bg_stderr.contains(test_text));

        // Test combined fg+bg through Color struct
        let color = Color::new(*variant, *variant);
        let combined = color.apply(test_text, Stream::Stdout);
        assert!(combined.contains(test_text));
    }
}

#[test]
fn test_color_apply_branch_coverage() {
    // Explicitly test both branches of the if statement in Color::apply

    // Branch 1: bg == ColorAttribute::Reset (only apply fg)
    let color_reset_bg = Color { fg: ColorAttribute::Red, bg: ColorAttribute::Reset };
    let result1 = color_reset_bg.apply("test", Stream::Stdout);
    assert!(result1.contains("test"));

    // Branch 2: bg != ColorAttribute::Reset (apply both fg and bg)
    let color_with_bg = Color { fg: ColorAttribute::Red, bg: ColorAttribute::Yellow };
    let result2 = color_with_bg.apply("test", Stream::Stdout);
    assert!(result2.contains("test"));

    // Additional edge cases
    let color_both_reset = Color { fg: ColorAttribute::Reset, bg: ColorAttribute::Reset };
    assert_eq!(color_both_reset.apply("test", Stream::Stdout), "test");

    let color_reset_fg = Color { fg: ColorAttribute::Reset, bg: ColorAttribute::Blue };
    let result3 = color_reset_fg.apply("test", Stream::Stdout);
    assert!(result3.contains("test"));
}
