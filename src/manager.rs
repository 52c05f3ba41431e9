use vstd::prelude::*;
use crate::component::Component;
use crate::text::{dec_digits, push_decimal};

verus! {

/// The escape sequence that hides the terminal cursor.
pub open spec fn hide_cursor() -> Seq<char> {
    seq!['\x1b', '[', '?', '2', '5', 'l']
}

/// The escape sequence that shows the terminal cursor.
pub open spec fn show_cursor() -> Seq<char> {
    seq!['\x1b', '[', '?', '2', '5', 'h']
}

/// Moves the cursor up `rows` rows, then to the first column.
pub open spec fn cursor_up(rows: nat) -> Seq<char> {
    seq!['\x1b', '['] + dec_digits(rows) + seq!['A', '\x1b', '[', '1', '0', '0', '0', 'D']
}

/// Redraws a component in place. Each operation returns the text to write to
/// the terminal, which the caller writes and flushes.
pub struct ProgressManager<T: Component> {
    component: T,
    processed: u32,
    total: u32,
}

impl<T: Component> ProgressManager<T> {
    pub closed spec fn spec_component(&self) -> T {
        self.component
    }

    pub closed spec fn spec_processed(&self) -> u32 {
        self.processed
    }

    pub closed spec fn spec_total(&self) -> u32 {
        self.total
    }

    /// The component drawn for the current state, ended by a newline.
    pub open spec fn frame(&self) -> Seq<char> {
        self.spec_component().drawn(self.spec_processed(), self.spec_total()).push('\n')
    }

    /// A manager of `component` at zero out of `total`.
    pub fn new(component: T, total: u32) -> (r: Self)
        ensures
            r.spec_component() == component,
            r.spec_processed() == 0,
            r.spec_total() == total,
    {
        ProgressManager { component: component, processed: 0, total: total }
    }

    /// Hides the cursor and draws the first frame.
    pub fn start(&self) -> (r: String)
        ensures
            r@ == hide_cursor() + self.frame(),
    {
        let mut s = String::new();
        s.append("\x1b[?25l");
        proof {
            reveal_strlit("\x1b[?25l");
        }
        let frame = self.draw_component();
        s.append(frame.as_str());
        assert(s@ =~= hide_cursor() + self.frame());
        s
    }

    /// Sets the progress and the total, then redraws over the previous frame.
    pub fn update(&mut self, processed: u32, total: u32) -> (r: String)
        ensures
            final(self).spec_component() == old(self).spec_component(),
            final(self).spec_processed() == processed,
            final(self).spec_total() == total,
            r@ == cursor_up(final(self).spec_component().rows() as nat) + final(self).frame(),
    {
        self.processed = processed;
        self.total = total;
        self.redraw()
    }

    /// Advances the progress by one, then redraws over the previous frame.
    pub fn process(&mut self) -> (r: String)
        requires
            old(self).spec_processed() < u32::MAX,
        ensures
            final(self).spec_component() == old(self).spec_component(),
            final(self).spec_processed() == old(self).spec_processed() + 1,
            final(self).spec_total() == old(self).spec_total(),
            r@ == cursor_up(final(self).spec_component().rows() as nat) + final(self).frame(),
    {
        self.processed = self.processed + 1;
        self.redraw()
    }

    /// Shows the cursor again.
    pub fn end(&self) -> (r: String)
        ensures
            r@ == show_cursor(),
    {
        let mut s = String::new();
        s.append("\x1b[?25h");
        proof {
            reveal_strlit("\x1b[?25h");
        }
        assert(s@ =~= show_cursor());
        s
    }

    fn redraw(&self) -> (r: String)
        ensures
            r@ == cursor_up(self.spec_component().rows() as nat) + self.frame(),
    {
        let mut s = self.cursor_up();
        let frame = self.draw_component();
        s.append(frame.as_str());
        s
    }

    fn cursor_up(&self) -> (r: String)
        ensures
            r@ == cursor_up(self.spec_component().rows() as nat),
    {
        let mut s = String::new();
        s.push('\x1b');
        s.push('[');
        push_decimal(&mut s, self.component.height());
        s.push('A');
        s.push('\x1b');
        s.push('[');
        s.push('1');
        s.push('0');
        s.push('0');
        s.push('0');
        s.push('D');
        assert(s@ =~= cursor_up(self.spec_component().rows() as nat));
        s
    }

    fn draw_component(&self) -> (r: String)
        ensures
            r@ == self.frame(),
    {
        let mut s = self.component.draw(self.processed, self.total);
        s.push('\n');
        s
    }
}

} // verus!
