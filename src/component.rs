use vstd::prelude::*;

verus! {

/// Something that can be drawn as text for a progress count and a total.
pub trait Component {
    /// The text drawn for `progress` out of `total`.
    spec fn drawn(&self, progress: u32, total: u32) -> Seq<char>;

    /// The number of terminal rows the drawn text occupies.
    spec fn rows(&self) -> u16;

    fn draw(&self, progress: u32, total: u32) -> (r: String)
        ensures
            r@ == self.drawn(progress, total),
    ;

    fn height(&self) -> (r: u16)
        ensures
            r == self.rows(),
    ;
}

} // verus!
