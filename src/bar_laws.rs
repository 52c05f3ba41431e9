use vstd::prelude::*;
use crate::config::Config;
use crate::progress_bar::{
    bar_body, bar_text, ceil_div, fill_part, processed_columns, remaining_columns, shows_arrow,
};
use crate::text::{opt_char, repeat};

verus! {

proof fn lemma_columns_within_width(progress: nat, total: nat, bar_width: nat)
    requires
        total > 0,
        progress <= total,
    ensures
        processed_columns(progress, total, bar_width) == Some(progress * bar_width / total),
        progress * bar_width / total <= bar_width,
{
    assert(progress * bar_width <= total * bar_width) by (nonlinear_arith)
        requires
            progress <= total,
    ;
    assert(progress * bar_width / total <= bar_width) by (nonlinear_arith)
        requires
            progress * bar_width <= total * bar_width,
            total > 0,
    ;
}

proof fn lemma_ceil_div_zero(w: nat)
    ensures
        ceil_div(0, w) == 0,
{
    if w > 0 {
        assert((w - 1) / (w as int) == 0) by (nonlinear_arith)
            requires
                w >= 1,
        ;
    }
}

proof fn lemma_full_columns(total: nat, bar_width: nat)
    requires
        total > 0,
    ensures
        processed_columns(total, total, bar_width) == Some(bar_width),
{
    assert(total * bar_width / total == bar_width) by (nonlinear_arith)
        requires
            total > 0,
    ;
}

/// With a positive total and a progress that does not exceed it, the body is
/// `bar_width` columns wide: each glyph is drawn in a cell as wide as the
/// filled character, and the bar is flanked by its borders. This holds where
/// the cell width divides the bar width.
pub proof fn lemma_body_fills_bar_width(cfg: Config, w: nat, progress: nat, total: nat)
    requires
        1 <= w <= 2,
        total > 0,
        progress <= total,
        cfg.bar_width as nat % w == 0,
    ensures
        bar_body(cfg, w, progress, total).len() * w == cfg.bar_width as nat,
        bar_text(cfg, w, progress, total) == opt_char(cfg.left_border) + bar_body(
            cfg,
            w,
            progress,
            total,
        ) + opt_char(cfg.right_border),
{
    let bw = cfg.bar_width as nat;
    lemma_columns_within_width(progress, total, bw);
    let pc = progress * bw / total;
    let nf = ceil_div(pc, w);
    assert(fill_part(cfg, w, pc).len() == nf);
    let ne = ceil_div(remaining_columns(cfg, w, pc), w);
    assert(bar_body(cfg, w, progress, total).len() == nf + ne);
    if w == 1 {
        assert(nf == pc);
        assert(remaining_columns(cfg, w, pc) == bw - pc);
        assert(ne == bw - pc);
    } else {
        assert(w == 2);
        assert(bw % 2 == 0);
        assert(nf == (pc + 1) / 2);
        if pc == bw {
            assert(nf * 2 == bw);
            assert(ne == 0);
        } else {
            assert(nf * 2 <= bw);
            assert(remaining_columns(cfg, w, pc) == bw - nf * 2);
            assert(ne == (bw - nf * 2 + 1) / 2);
            assert(ne == bw / 2 - nf);
        }
    }
}

/// A full bar shows no arrow: where the arrow differs from the filled and
/// empty characters and from the borders, `draw(total, total)` does not hold it.
pub proof fn lemma_full_bar_has_no_arrow(cfg: Config, w: nat, total: nat)
    requires
        total > 0,
        cfg.arrow is Some,
        cfg.arrow->Some_0 != cfg.filled,
        cfg.arrow->Some_0 != cfg.empty,
        cfg.left_border != cfg.arrow,
        cfg.right_border != cfg.arrow,
    ensures
        !bar_text(cfg, w, total, total).contains(cfg.arrow->Some_0),
{
    let a = cfg.arrow->Some_0;
    let bw = cfg.bar_width as nat;
    lemma_full_columns(total, bw);
    assert(!shows_arrow(cfg, w, bw));
    let s = bar_text(cfg, w, total, total);
    assert forall|i: int| 0 <= i < s.len() implies s[i] != a by {
        let left = opt_char(cfg.left_border);
        let body = bar_body(cfg, w, total, total);
        if i >= left.len() && i < left.len() + body.len() {
            let j = i - left.len();
            assert(s[i] == body[j]);
        }
    }
}

/// An empty bar shows neither the arrow nor the filled character, where these
/// differ from the empty character and from the borders.
pub proof fn lemma_empty_bar_has_no_fill(cfg: Config, w: nat, total: nat)
    requires
        1 <= w,
        total > 0,
        cfg.filled != cfg.empty,
        cfg.left_border != Some(cfg.filled),
        cfg.right_border != Some(cfg.filled),
        cfg.arrow matches Some(a) ==> a != cfg.empty && cfg.left_border != Some(a)
            && cfg.right_border != Some(a),
    ensures
        bar_body(cfg, w, 0, total) == repeat(cfg.empty, ceil_div(cfg.bar_width as nat, w)),
        !bar_text(cfg, w, 0, total).contains(cfg.filled),
        cfg.arrow matches Some(a) ==> !bar_text(cfg, w, 0, total).contains(a),
{
    let bw = cfg.bar_width as nat;
    assert(0 * bw == 0);
    assert(processed_columns(0, total, bw) == Some(0nat));
    lemma_ceil_div_zero(w);
    assert(!shows_arrow(cfg, w, 0));
    assert(fill_part(cfg, w, 0) =~= Seq::<char>::empty());
    assert(bar_body(cfg, w, 0, total) =~= repeat(cfg.empty, ceil_div(bw, w)));
    let s = bar_text(cfg, w, 0, total);
    let left = opt_char(cfg.left_border);
    let body = bar_body(cfg, w, 0, total);
    assert forall|i: int| 0 <= i < s.len() implies s[i] != cfg.filled by {
        if i >= left.len() && i < left.len() + body.len() {
            assert(s[i] == body[i - left.len()]);
        }
    }
    if let Some(a) = cfg.arrow {
        assert forall|i: int| 0 <= i < s.len() implies s[i] != a by {
            if i >= left.len() && i < left.len() + body.len() {
                assert(s[i] == body[i - left.len()]);
            }
        }
    }
}

/// Error rendering does not depend on how far out of range the request is: a
/// zero total draws as any progress above its total whose ratio is undefined.
/// (A progress above its total whose filled columns still round down to the
/// bar width draws a full bar instead.)
pub proof fn lemma_error_fill_is_uniform(
    cfg: Config,
    w: nat,
    progress: nat,
    x: nat,
    y: nat,
)
    requires
        x > y,
        y == 0 || x * (cfg.bar_width as nat) / y > cfg.bar_width as nat || cfg.bar_width == 0,
    ensures
        bar_text(cfg, w, progress, 0) == bar_text(cfg, w, x, y),
{
    let bw = cfg.bar_width as nat;
    if y != 0 && bw == 0 {
        assert(x * bw == 0) by (nonlinear_arith)
            requires
                bw == 0,
        ;
        assert(processed_columns(x, y, bw) == Some(0nat));
        assert(!shows_arrow(cfg, w, 0));
        lemma_ceil_div_zero(w);
        assert(fill_part(cfg, w, 0) =~= Seq::<char>::empty());
        assert(remaining_columns(cfg, w, 0) == 0);
        assert(bar_body(cfg, w, x, y) =~= Seq::<char>::empty());
        assert(bar_body(cfg, w, progress, 0) =~= Seq::<char>::empty());
    }
}

/// Scaling progress and total by the same positive factor draws the same bar.
pub proof fn lemma_scale_invariant(cfg: Config, w: nat, progress: nat, total: nat, k: nat)
    requires
        k > 0,
    ensures
        bar_text(cfg, w, progress, total) == bar_text(cfg, w, progress * k, total * k),
{
    let bw = cfg.bar_width as nat;
    if total > 0 {
        assert(total * k > 0) by (nonlinear_arith)
            requires
                total > 0,
                k > 0,
        ;
        let n = progress * bw;
        vstd::arithmetic::div_mod::lemma_div_multiples_vanish_quotient(k as int, n as int, total as int);
        assert(k * n == (progress * k) * bw) by (nonlinear_arith)
            requires
                n == progress * bw,
        ;
        assert(k * total == total * k) by (nonlinear_arith);
        assert((progress * k) * bw / (total * k) == progress * bw / total);
        assert(processed_columns(progress * k, total * k, bw) == processed_columns(
            progress,
            total,
            bw,
        ));
    } else {
        assert(total * k == 0);
    }
}

} // verus!
