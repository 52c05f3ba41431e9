use vstd::prelude::*;
use crate::component::Component;

verus! {

/// Cycles through its frames, one per unit of progress.
pub struct SpinnerComponent {
    pub animations: Vec<String>,
}

/// The frame shown at `progress`: frame `progress mod frame_count`, nothing
/// where there are no frames.
pub open spec fn spinner_frame(frames: Seq<String>, progress: nat) -> Seq<char> {
    if frames.len() == 0 {
        Seq::empty()
    } else {
        frames[(progress % frames.len()) as int]@
    }
}

impl SpinnerComponent {
    /// One frame for each character of `animations`, in order.
    pub fn from_str(animations: &str) -> (r: SpinnerComponent)
        ensures
            r.animations@.len() == animations@.len(),
            forall|i: int|
                0 <= i < animations@.len() ==> #[trigger] r.animations@[i]@ == seq![
                    animations@[i],
                ],
    {
        let n = animations.unicode_len();
        let mut frames: Vec<String> = Vec::new();
        let mut i: usize = 0;
        while i < n
            invariant
                n == animations@.len(),
                i <= n,
                frames@.len() == i,
                forall|j: int| 0 <= j < i ==> #[trigger] frames@[j]@ == seq![animations@[j]],
            decreases n - i,
        {
            let mut frame = String::new();
            frame.push(animations.get_char(i));
            assert(frame@ =~= seq![animations@[i as int]]);
            frames.push(frame);
            i = i + 1;
        }
        SpinnerComponent { animations: frames }
    }
}

impl Component for SpinnerComponent {
    open spec fn drawn(&self, progress: u32, total: u32) -> Seq<char> {
        spinner_frame(self.animations@, progress as nat)
    }

    open spec fn rows(&self) -> u16 {
        1
    }

    fn draw(&self, progress: u32, total: u32) -> (r: String) {
        if self.animations.len() == 0 {
            return String::new();
        }
        let index = progress as usize % self.animations.len();
        self.animations[index].clone()
    }

    fn height(&self) -> (r: u16) {
        1
    }
}

} // verus!
