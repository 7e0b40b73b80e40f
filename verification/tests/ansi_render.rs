use git_tui::ansi::Color;
use git_tui::ansi::TextStyle;
use git_tui::ansi::parse_delta_ansi;
use git_tui::ansi::parse_sgr_sequence;

fn plain() -> TextStyle {
    TextStyle { bold: false, underlined: false, reversed: false, crossed_out: false, fg: None, bg: None }
}

#[test]
fn red_run_then_reset_gives_two_runs() {
    let text = parse_delta_ansi("\x1b[31mfoo\x1b[0m bar");
    assert_eq!(text.lines.len(), 1);
    let spans = &text.lines[0].spans;
    assert_eq!(spans.len(), 2);
    assert_eq!(spans[0].content, "foo");
    assert_eq!(spans[0].style.fg, Some(Color::Red));
    assert_eq!(spans[0].style.bold, false);
    assert_eq!(spans[1].content, " bar");
    assert_eq!(spans[1].style, plain());
}

#[test]
fn line_without_escapes_is_one_plain_run() {
    let text = parse_delta_ansi("hello world");
    assert_eq!(text.lines.len(), 1);
    let spans = &text.lines[0].spans;
    assert_eq!(spans.len(), 1);
    assert_eq!(spans[0].content, "hello world");
    assert_eq!(spans[0].style, plain());
}

#[test]
fn bare_reset_sequence_resets_style() {
    let text = parse_delta_ansi("\x1b[1mA\x1b[mB");
    let spans = &text.lines[0].spans;
    assert_eq!(spans.len(), 2);
    assert_eq!(spans[0].content, "A");
    assert!(spans[0].style.bold);
    assert_eq!(spans[1].content, "B");
    assert_eq!(spans[1].style, plain());
}

#[test]
fn attributes_accumulate() {
    let text = parse_delta_ansi("\x1b[1;4;7;9mZ");
    let spans = &text.lines[0].spans;
    assert_eq!(spans.len(), 1);
    assert!(spans[0].style.bold);
    assert!(spans[0].style.underlined);
    assert!(spans[0].style.reversed);
    assert!(spans[0].style.crossed_out);
}

#[test]
fn indexed_color_sequence() {
    let text = parse_delta_ansi("\x1b[38;5;196mhot");
    let spans = &text.lines[0].spans;
    assert_eq!(spans[0].style.fg, Some(Color::Indexed(196)));
}

#[test]
fn rgb_foreground_and_background() {
    let text = parse_delta_ansi("\x1b[38;2;1;2;3m\x1b[48;2;9;8;7mx");
    let spans = &text.lines[0].spans;
    assert_eq!(spans.len(), 1);
    assert_eq!(spans[0].style.fg, Some(Color::Rgb(1, 2, 3)));
    assert_eq!(spans[0].style.bg, Some(Color::Rgb(9, 8, 7)));
}

#[test]
fn background_colors_map() {
    let text = parse_delta_ansi("\x1b[41mred\x1b[44mblue");
    let spans = &text.lines[0].spans;
    assert_eq!(spans[0].style.bg, Some(Color::Red));
    assert_eq!(spans[1].style.bg, Some(Color::Blue));
}

#[test]
fn bright_foreground_colors_map() {
    let text = parse_delta_ansi("\x1b[90ma\x1b[97mb");
    let spans = &text.lines[0].spans;
    assert_eq!(spans[0].style.fg, Some(Color::DarkGray));
    assert_eq!(spans[1].style.fg, Some(Color::Gray));
}

#[test]
fn unrecognized_parameters_are_skipped() {
    let text = parse_delta_ansi("\x1b[31;999;58mstill red");
    let spans = &text.lines[0].spans;
    assert_eq!(spans.len(), 1);
    assert_eq!(spans[0].content, "still red");
    assert_eq!(spans[0].style.fg, Some(Color::Red));
}

#[test]
fn erase_sequence_vanishes_without_changing_style() {
    let text = parse_delta_ansi("\x1b[31ma\x1b[Kb");
    let spans = &text.lines[0].spans;
    assert_eq!(spans.len(), 2);
    assert_eq!(spans[0].content, "a");
    assert_eq!(spans[1].content, "b");
    assert_eq!(spans[1].style.fg, Some(Color::Red));
}

#[test]
fn escape_only_line_falls_back_to_raw_text() {
    let text = parse_delta_ansi("\x1b[31m");
    assert_eq!(text.lines.len(), 1);
    let spans = &text.lines[0].spans;
    assert_eq!(spans.len(), 1);
    assert_eq!(spans[0].content, "\x1b[31m");
    assert_eq!(spans[0].style, plain());
}

#[test]
fn unterminated_escape_stays_literal() {
    let text = parse_delta_ansi("a\x1b[31xb");
    let spans = &text.lines[0].spans;
    assert_eq!(spans.len(), 1);
    assert_eq!(spans[0].content, "a\x1b[31xb");
}

#[test]
fn lines_split_on_newline_and_strip_carriage_return() {
    let text = parse_delta_ansi("one\r\ntwo\nthree\n");
    assert_eq!(text.lines.len(), 3);
    assert_eq!(text.lines[0].spans[0].content, "one");
    assert_eq!(text.lines[1].spans[0].content, "two");
    assert_eq!(text.lines[2].spans[0].content, "three");
}

#[test]
fn style_resets_at_each_line_start() {
    let text = parse_delta_ansi("\x1b[31mred\nplain");
    assert_eq!(text.lines.len(), 2);
    assert_eq!(text.lines[0].spans[0].style.fg, Some(Color::Red));
    assert_eq!(text.lines[1].spans[0].style, plain());
}

#[test]
fn empty_input_renders_no_lines() {
    let text = parse_delta_ansi("");
    assert_eq!(text.lines.len(), 0);
}

#[test]
fn parse_sgr_sequence_applies_one_code() {
    let red = parse_sgr_sequence("\x1b[31m", plain());
    assert_eq!(red.fg, Some(Color::Red));
    let kept = parse_sgr_sequence("\x1b[5K", red);
    assert_eq!(kept, red);
    let reset = parse_sgr_sequence("\x1b[0m", red);
    assert_eq!(reset, plain());
}

#[test]
fn indexed_value_over_255_is_ignored() {
    let text = parse_delta_ansi("\x1b[38;5;300mx");
    let spans = &text.lines[0].spans;
    assert_eq!(spans[0].style.fg, None);
}

#[test]
fn leading_zeros_parse_in_color_arguments() {
    let text = parse_delta_ansi("\x1b[38;5;007mx");
    let spans = &text.lines[0].spans;
    assert_eq!(spans[0].style.fg, Some(Color::Indexed(7)));
}
