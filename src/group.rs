use vstd::prelude::*;
use crate::component::Component;
use crate::label::Label;
use crate::progress_bar::ProgressBar;

verus! {

/// A bar followed by a label on the same line, separated by `": "`.
pub struct LabeledProgressBar {
    pub bar: ProgressBar,
    pub label: Label,
}

impl Component for LabeledProgressBar {
    open spec fn drawn(&self, progress: u32, total: u32) -> Seq<char> {
        self.bar.drawn(progress, total) + seq![':', ' '] + self.label.drawn(progress, total)
    }

    open spec fn rows(&self) -> u16 {
        1
    }

    fn draw(&self, progress: u32, total: u32) -> (r: String) {
        let mut s = self.bar.draw(progress, total);
        s.push(':');
        s.push(' ');
        let label = self.label.draw(progress, total);
        s.append(label.as_str());
        assert(s@ =~= self.drawn(progress, total));
        s
    }

    fn height(&self) -> (r: u16) {
        1
    }
}

} // verus!
