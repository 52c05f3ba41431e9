use vstd::prelude::*;
use crate::component::Component;

verus! {

/// A fixed text, whatever the progress.
#[derive(Debug)]
pub struct Label {
    pub text: String,
}

impl Component for Label {
    open spec fn drawn(&self, progress: u32, total: u32) -> Seq<char> {
        self.text@
    }

    open spec fn rows(&self) -> u16 {
        1
    }

    fn draw(&self, progress: u32, total: u32) -> (r: String) {
        self.text.clone()
    }

    fn height(&self) -> (r: u16) {
        1
    }
}

} // verus!
