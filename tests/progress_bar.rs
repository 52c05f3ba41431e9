use progress_bar::{
    render_bar, Component, Config, Label, LabeledProgressBar, ProgressBar, ProgressBarBuilder,
    ProgressManager, SpinnerComponent,
};

fn ascii_bar(bar_width: u16) -> ProgressBar {
    ProgressBar::with_config(Config {
        filled: '=',
        empty: ' ',
        arrow: Some('>'),
        left_border: Some('['),
        right_border: Some(']'),
        error: '?',
        bar_width,
    })
    .unwrap()
}

#[test]
fn test_new() {
    ProgressBar::new();
}

#[test]
fn test_draw() {
    let progress_bar = ProgressBar::with_config(Config {
        filled: '=',
        empty: ' ',
        arrow: Some('>'),
        left_border: Some('['),
        right_border: Some(']'),
        error: '?',
        bar_width: 3,
    })
    .unwrap();

    assert_eq!(progress_bar.draw(0, 3), "[   ]");
    assert_eq!(progress_bar.draw(1, 3), "[>  ]");
    assert_eq!(progress_bar.draw(2, 3), "[=> ]");
    assert_eq!(progress_bar.draw(3, 3), "[===]");

    assert_eq!(progress_bar.draw(4, 3), "[???]");
    assert_eq!(progress_bar.draw(3, 0), "[???]");

    assert_eq!(progress_bar.draw(1, 3), progress_bar.draw(3, 9));

    let full_width_char_progress_bar = ProgressBar::with_config(Config {
        filled: '～',
        empty: '　',
        arrow: None,
        left_border: None,
        right_border: None,
        error: '！',
        bar_width: 6,
    })
    .unwrap();

    assert_eq!(full_width_char_progress_bar.draw(0, 5), "　　　");
    assert_eq!(full_width_char_progress_bar.draw(1, 5), "～　　");
    assert_eq!(full_width_char_progress_bar.draw(2, 5), "～　　");
    assert_eq!(full_width_char_progress_bar.draw(3, 5), "～～　");
    assert_eq!(full_width_char_progress_bar.draw(4, 5), "～～　");
    assert_eq!(full_width_char_progress_bar.draw(5, 5), "～～～");

    assert_eq!(full_width_char_progress_bar.draw(6, 5), "！！！");
    assert_eq!(full_width_char_progress_bar.draw(6, 0), "！！！");
}

#[test]
fn display_test() {
    let spinner = SpinnerComponent::from_str("1234");

    assert_eq!(spinner.draw(0, 4), "1");
    assert_eq!(spinner.draw(1, 4), "2");
    assert_eq!(spinner.draw(2, 4), "3");
    assert_eq!(spinner.draw(3, 4), "4");
    assert_eq!(spinner.draw(4, 4), "1");
}

#[test]
fn default_bar_is_sixteen_columns() {
    let bar = ProgressBar::new();
    assert_eq!(bar.draw(0, 4), "[                ]");
    assert_eq!(bar.draw(1, 4), "[===>            ]");
    assert_eq!(bar.draw(4, 4), "[================]");
    assert_eq!(bar.draw(5, 4), "[????????????????]");
    assert_eq!(bar.height(), 1);
}

#[test]
fn body_has_bar_width_columns() {
    let bar = ascii_bar(10);
    for progress in 0..=7u32 {
        let text = bar.draw(progress, 7);
        assert_eq!(text.chars().count(), 12);
        assert!(text.starts_with('['));
        assert!(text.ends_with(']'));
    }
    assert_eq!(bar.draw(2, 7), "[=>        ]");
}

#[test]
fn full_bar_has_no_arrow() {
    let bar = ascii_bar(7);
    for total in 1..=9u32 {
        assert!(!bar.draw(total, total).contains('>'));
    }
}

#[test]
fn empty_bar_has_no_fill_and_no_arrow() {
    let bar = ascii_bar(7);
    for total in 1..=9u32 {
        let text = bar.draw(0, total);
        assert!(!text.contains('>'));
        assert!(!text.contains('='));
    }
}

#[test]
fn error_fill_does_not_depend_on_magnitude() {
    let bar = ascii_bar(16);
    assert_eq!(bar.draw(7, 0), bar.draw(9, 2));
    assert_eq!(bar.draw(0, 0), bar.draw(u32::MAX, 1));
    assert_eq!(bar.draw(7, 0), "[????????????????]");
}

#[test]
fn progress_above_total_that_rounds_to_full() {
    let bar = ascii_bar(3);
    assert_eq!(bar.draw(11, 10), "[===]");
}

#[test]
fn scaled_requests_draw_alike() {
    let bar = ascii_bar(16);
    assert_eq!(bar.draw(2, 5), bar.draw(20, 50));
    assert_eq!(bar.draw(1, 3), bar.draw(3, 9));
    assert_eq!(bar.draw(2, 5), "[=====>          ]");
}

#[test]
fn double_width_fill_with_arrow() {
    let bar = ProgressBar::with_config(Config {
        filled: '～',
        empty: '　',
        arrow: Some('＞'),
        left_border: Some('|'),
        right_border: Some('|'),
        error: '！',
        bar_width: 6,
    })
    .unwrap();
    assert_eq!(bar.draw(0, 6), "|　　　|");
    assert_eq!(bar.draw(1, 6), "|～　　|");
    assert_eq!(bar.draw(2, 6), "|＞　　|");
    assert_eq!(bar.draw(4, 6), "|～＞　|");
    assert_eq!(bar.draw(6, 6), "|～～～|");
}

#[test]
fn odd_width_with_double_width_fill() {
    let bar = ProgressBar::with_config(Config {
        filled: '～',
        empty: '　',
        arrow: None,
        left_border: None,
        right_border: None,
        error: '！',
        bar_width: 3,
    })
    .unwrap();
    assert_eq!(bar.draw(1, 1), "～～");
    assert_eq!(bar.draw(0, 1), "　　");
    assert_eq!(bar.draw(2, 1), "！！");
}

#[test]
fn zero_width_bar_has_only_borders() {
    let bar = ascii_bar(0);
    assert_eq!(bar.draw(0, 5), "[]");
    assert_eq!(bar.draw(9, 0), "[]");
}

#[test]
fn render_bar_with_given_width() {
    let config = Config {
        filled: '#',
        empty: '.',
        arrow: None,
        left_border: None,
        right_border: None,
        error: 'x',
        bar_width: 6,
    };
    assert_eq!(render_bar(&config, 2, 3, 5), "##.");
    assert_eq!(render_bar(&config, 1, 3, 5), "###...");
    assert_eq!(render_bar(&config, 2, 0, 0), "xxx");
}

#[test]
fn rejects_zero_width_and_control_chars() {
    let err = ProgressBar::with_config(Config {
        filled: '\u{301}',
        empty: ' ',
        arrow: None,
        left_border: Some('['),
        right_border: Some(']'),
        error: '\u{7}',
        bar_width: 4,
    })
    .err()
    .unwrap();
    assert_eq!(
        err.reason.message().as_str(),
        "Invalid Char Error.\nfollowing characters is invalid for progress bar\n'\u{301}' (0x301), '\u{7}' (0x7)"
    );
}

#[test]
fn accepts_valid_config() {
    let config = Config {
        filled: '～',
        empty: ' ',
        arrow: Some('>'),
        left_border: None,
        right_border: None,
        error: '?',
        bar_width: 4,
    };
    assert!(config.check_invalid_chars().is_ok());
    let bad = Config { arrow: Some('\u{0}'), ..config };
    let err = bad.check_invalid_chars().err().unwrap();
    assert_eq!(
        err.message().as_str(),
        "Invalid Char Error.\nfollowing characters is invalid for progress bar\n'\u{0}' (0x0)"
    );
}

#[test]
fn builder_setters() {
    let mut builder = ProgressBarBuilder::new();
    builder
        .set_filled('#')
        .set_empty('.')
        .set_arrow(None)
        .set_border(None, Some('|'))
        .set_bar_width(4);
    let bar = builder.build().unwrap();
    assert_eq!(bar.draw(1, 2), "##..|");
    assert_eq!(bar.draw(3, 2), "????|");

    let mut rejected = ProgressBarBuilder::new();
    rejected.set_empty('\u{1b}');
    assert!(rejected.build().is_err());
}

#[test]
fn spinner_without_frames_draws_nothing() {
    let spinner = SpinnerComponent::from_str("");
    assert_eq!(spinner.draw(3, 4), "");
    let wide = SpinnerComponent::from_str("◐◓◑◒");
    assert_eq!(wide.draw(6, 0), "◑");
}

#[test]
fn labeled_bar_joins_with_colon() {
    let group = LabeledProgressBar {
        bar: ascii_bar(3),
        label: Label { text: String::from("done") },
    };
    assert_eq!(group.draw(3, 3), "[===]: done");
    assert_eq!(group.height(), 1);
    let label = Label { text: String::from("static") };
    assert_eq!(label.draw(1, 2), "static");
}

#[test]
fn manager_emits_redraw_sequences() {
    let mut manager = ProgressManager::new(ascii_bar(3), 3);
    assert_eq!(manager.start(), "\x1b[?25l[   ]\n");
    assert_eq!(manager.process(), "\x1b[1A\x1b[1000D[>  ]\n");
    assert_eq!(manager.update(3, 3), "\x1b[1A\x1b[1000D[===]\n");
    assert_eq!(manager.update(5, 3), "\x1b[1A\x1b[1000D[???]\n");
    assert_eq!(manager.end(), "\x1b[?25h");
}
