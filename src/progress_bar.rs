use vstd::prelude::*;
use crate::component::Component;
use crate::config::{Config, ErrMsg, config_valid, config_ascii, config_chars};
use crate::text::{repeat, opt_char, push_repeated};
use crate::width::{char_width_of, display_width, width_is_valid};

verus! {

/// `a / w` rounded up: the number of steps of size `w` in `[0, a)`.
pub open spec fn ceil_div(a: nat, w: nat) -> nat {
    if w == 0 {
        0
    } else {
        ((a + w - 1) / (w as int)) as nat
    }
}

/// The number of body columns that are filled, or `None` where the ratio is
/// undefined (zero total) or above one.
pub open spec fn processed_columns(progress: nat, total: nat, bar_width: nat) -> Option<nat> {
    if total == 0 {
        None
    } else if progress * bar_width / total > bar_width {
        None
    } else {
        Some(progress * bar_width / total)
    }
}

/// The arrow replaces the last filled glyph: one is configured, the bar is not
/// full and at least one filled glyph is drawn.
pub open spec fn shows_arrow(cfg: Config, w: nat, pc: nat) -> bool {
    cfg.arrow is Some && pc != cfg.bar_width as nat && pc >= w
}

/// The glyphs of the filled part, arrow included.
pub open spec fn fill_part(cfg: Config, w: nat, pc: nat) -> Seq<char> {
    let n = ceil_div(pc, w);
    if shows_arrow(cfg, w, pc) {
        repeat(cfg.filled, (n - 1) as nat).push(cfg.arrow->Some_0)
    } else {
        repeat(cfg.filled, n)
    }
}

/// The columns left for the empty part once the filled glyphs are drawn, none
/// where they overrun the bar.
pub open spec fn remaining_columns(cfg: Config, w: nat, pc: nat) -> nat {
    let drawn = ceil_div(pc, w) * w;
    if drawn >= cfg.bar_width {
        0
    } else {
        (cfg.bar_width - drawn) as nat
    }
}

/// The body of the bar; every glyph is counted as `w` columns, the width of
/// the filled character.
pub open spec fn bar_body(cfg: Config, w: nat, progress: nat, total: nat) -> Seq<char> {
    match processed_columns(progress, total, cfg.bar_width as nat) {
        Some(pc) => fill_part(cfg, w, pc) + repeat(
            cfg.empty,
            ceil_div(remaining_columns(cfg, w, pc), w),
        ),
        None => repeat(cfg.error, ceil_div(cfg.bar_width as nat, w)),
    }
}

/// The whole bar: left border, body, right border.
pub open spec fn bar_text(cfg: Config, w: nat, progress: nat, total: nat) -> Seq<char> {
    opt_char(cfg.left_border) + bar_body(cfg, w, progress, total) + opt_char(cfg.right_border)
}

/// The width of the filled character of a configuration.
pub open spec fn filled_width(cfg: Config) -> nat {
    match char_width_of(cfg.filled) {
        Some(w) => w as nat,
        None => 0,
    }
}

/// Draws the bar of `config` for `progress` out of `total`, where `width` is
/// the display width of the filled character.
pub fn render_bar(config: &Config, width: u16, progress: u32, total: u32) -> (r: String)
    requires
        1 <= width <= 2,
    ensures
        r@ == bar_text(*config, width as nat, progress as nat, total as nat),
{
    let bw: u64 = config.bar_width as u64;
    let w: u64 = width as u64;
    assert(progress as int * bw as int <= u32::MAX as int * u16::MAX as int) by (nonlinear_arith)
        requires
            progress <= u32::MAX,
            bw <= u16::MAX,
    ;
    let product: u64 = progress as u64 * bw;
    let ghost spec_pc = processed_columns(progress as nat, total as nat, bw as nat);

    let mut s = String::new();
    if let Some(c) = config.left_border {
        s.push(c);
    }
    let ghost start = s@;
    assert(start == opt_char(config.left_border));

    let mut defined = false;
    let mut pc: u64 = 0;
    if total != 0 {
        let x: u64 = product / total as u64;
        if x <= bw {
            defined = true;
            pc = x;
        }
    }
    assert(defined <==> spec_pc is Some);
    assert(defined ==> spec_pc == Some(pc as nat));

    if defined {
        let n: u64 = (pc + w - 1) / w;
        let arrow_shown = config.arrow.is_some() && pc != bw && pc >= w;
        if arrow_shown {
            assert(n >= 1) by (nonlinear_arith)
                requires
                    pc >= w,
                    w >= 1,
                    n as int == (pc as int + w as int - 1) / (w as int),
            ;
            push_repeated(&mut s, config.filled, n - 1);
            match config.arrow {
                Some(a) => s.push(a),
                None => {},
            }
        } else {
            push_repeated(&mut s, config.filled, n);
        }
        assert(s@ == start + fill_part(*config, w as nat, pc as nat)) by {
            assert(s@ =~= start + fill_part(*config, w as nat, pc as nat));
        }
        assert(n * w <= pc + w) by (nonlinear_arith)
            requires
                n as int == (pc as int + w as int - 1) / (w as int),
                w >= 1,
        ;
        let drawn: u64 = n * w;
        let rest: u64 = if drawn >= bw { 0 } else { bw - drawn };
        push_repeated(&mut s, config.empty, (rest + w - 1) / w);
    } else {
        push_repeated(&mut s, config.error, (bw + w - 1) / w);
    }
    assert(s@ =~= start + bar_body(*config, w as nat, progress as nat, total as nat));
    if let Some(c) = config.right_border {
        s.push(c);
    }
    assert(s@ =~= bar_text(*config, w as nat, progress as nat, total as nat));
    s
}

} // verus!

verus! {

/// A progress bar over a configuration whose characters are all one or two
/// columns wide.
pub struct ProgressBar {
    config: Config,
}

/// Stages a configuration, starting from the defaults, until `build`.
pub struct ProgressBarBuilder {
    config: Config,
}

/// A configuration was rejected; the message lists the offending characters.
#[derive(Debug)]
pub struct ProgressBarBuildError {
    pub reason: ErrMsg,
}

/// `[`, `=`, `>`, ` `, `]`, `?` over sixteen columns.
pub open spec fn default_config() -> Config {
    Config {
        filled: '=',
        empty: ' ',
        arrow: Some('>'),
        left_border: Some('['),
        right_border: Some(']'),
        error: '?',
        bar_width: 16,
    }
}

impl ProgressBar {
    #[verifier::type_invariant]
    spec fn inv(&self) -> bool {
        config_valid(self.config)
    }

    /// The configuration the bar draws with.
    pub closed spec fn spec_config(&self) -> Config {
        self.config
    }

    /// A bar with the default configuration.
    pub fn new() -> (r: Self)
        ensures
            r.spec_config() == default_config(),
    {
        let builder = ProgressBarBuilder::new();
        let built = builder.build();
        built.unwrap()
    }

    /// A bar over `config`, or the error that lists the characters that are
    /// not one or two columns wide.
    pub fn with_config(config: Config) -> (r: Result<ProgressBar, ProgressBarBuildError>)
        ensures
            r is Ok <==> config_valid(config),
            r matches Ok(b) ==> b.spec_config() == config,
            r matches Err(e) ==> e.reason@ == crate::config::invalid_message(
                crate::config::invalid_chars(config_chars(config)),
            ),
            config_ascii(config) ==> r is Ok,
    {
        match config.check_invalid_chars() {
            Ok(()) => Ok(ProgressBar { config }),
            Err(reason) => Err(ProgressBarBuildError { reason }),
        }
    }

    /// The display width of the filled character.
    fn body_char_width(&self) -> (r: u16)
        ensures
            r as nat == filled_width(self.spec_config()),
            1 <= r <= 2,
    {
        proof {
            use_type_invariant(self);
            assert(config_chars(self.config)[0] == self.config.filled);
            assert(width_is_valid(char_width_of(config_chars(self.config)[0])));
        }
        match display_width(self.config.filled) {
            Some(w) => w as u16,
            None => 1,
        }
    }
}

impl Component for ProgressBar {
    open spec fn drawn(&self, progress: u32, total: u32) -> Seq<char> {
        bar_text(self.spec_config(), filled_width(self.spec_config()), progress as nat, total as nat)
    }

    open spec fn rows(&self) -> u16 {
        1
    }

    fn draw(&self, progress: u32, total: u32) -> (r: String) {
        let width = self.body_char_width();
        render_bar(&self.config, width, progress, total)
    }

    fn height(&self) -> (r: u16) {
        1
    }
}

impl ProgressBarBuilder {
    /// The configuration staged so far.
    pub closed spec fn spec_config(&self) -> Config {
        self.config
    }

    /// A builder holding the default configuration.
    pub fn new() -> (r: Self)
        ensures
            r.spec_config() == default_config(),
    {
        ProgressBarBuilder {
            config: Config {
                filled: '=',
                empty: ' ',
                arrow: Some('>'),
                left_border: Some('['),
                right_border: Some(']'),
                error: '?',
                bar_width: 16u16,
            },
        }
    }

    pub fn set_filled(&mut self, ch: char) -> (r: &mut Self)
        ensures
            r.spec_config() == (Config { filled: ch, ..old(self).spec_config() }),
            *final(self) == *final(r),
    {
        self.config.filled = ch;
        self
    }

    pub fn set_empty(&mut self, ch: char) -> (r: &mut Self)
        ensures
            r.spec_config() == (Config { empty: ch, ..old(self).spec_config() }),
            *final(self) == *final(r),
    {
        self.config.empty = ch;
        self
    }

    pub fn set_arrow(&mut self, ch: Option<char>) -> (r: &mut Self)
        ensures
            r.spec_config() == (Config { arrow: ch, ..old(self).spec_config() }),
            *final(self) == *final(r),
    {
        self.config.arrow = ch;
        self
    }

    pub fn set_border(&mut self, left: Option<char>, right: Option<char>) -> (r: &mut Self)
        ensures
            r.spec_config() == (Config {
                left_border: left,
                right_border: right,
                ..old(self).spec_config()
            }),
            *final(self) == *final(r),
    {
        self.config.left_border = left;
        self.config.right_border = right;
        self
    }

    pub fn set_bar_width(&mut self, bar_width: u16) -> (r: &mut Self)
        ensures
            r.spec_config() == (Config { bar_width, ..old(self).spec_config() }),
            *final(self) == *final(r),
    {
        self.config.bar_width = bar_width;
        self
    }

    /// A bar over the staged configuration, or the error that lists the
    /// characters that are not one or two columns wide.
    pub fn build(&self) -> (r: Result<ProgressBar, ProgressBarBuildError>)
        ensures
            r is Ok <==> config_valid(self.spec_config()),
            r matches Ok(b) ==> b.spec_config() == self.spec_config(),
            r matches Err(e) ==> e.reason@ == crate::config::invalid_message(
                crate::config::invalid_chars(config_chars(self.spec_config())),
            ),
            config_ascii(self.spec_config()) ==> r is Ok,
    {
        ProgressBar::with_config(self.config)
    }
}

} // verus!
