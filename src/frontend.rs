use vstd::prelude::*;
use crate::color::{CharColor, NativeColor, color_of, get_color};
use crate::event::{EditorEvent, RawEvent, editor_event_of, translate_event};
use crate::style::{CharStyle, NativeStyle, style_of, get_style};

verus! {

/// What the editor needs of a terminal: input events, drawing, and the
/// size of the window. Drawing is queued until `present` shows it.
pub trait Frontend {
    /// Waits a short while for one input event; `None` where none came.
    fn poll_event(&mut self) -> Option<EditorEvent>;

    /// Moves the cursor to a column and row.
    fn draw_cursor(&mut self, offset: isize, linenum: isize);

    /// Draws one character at a column and row.
    fn draw_char(
        &mut self,
        offset: usize,
        linenum: usize,
        ch: char,
        fg: CharColor,
        bg: CharColor,
        style: CharStyle,
    );

    /// Shows everything drawn since the last call.
    fn present(&mut self);

    /// Height of the window, in cells.
    fn get_window_height(&self) -> usize;

    /// Width of the window, in cells.
    fn get_window_width(&self) -> usize;
}

/// One character cell as the backend draws it.
#[derive(Clone, Copy, Debug, PartialEq, Eq, Structural)]
pub struct Cell {
    pub ch: char,
    pub fg: NativeColor,
    pub bg: NativeColor,
    pub style: NativeStyle,
}

/// The cell that draws a character in symbolic colors and style.
pub open spec fn cell_spec(ch: char, fg: CharColor, bg: CharColor, style: CharStyle) -> Cell {
    Cell { ch, fg: color_of(fg), bg: color_of(bg), style: style_of(style) }
}

/// Resolves the colors and style of a character into the cell that draws it.
pub fn cell_of(ch: char, fg: CharColor, bg: CharColor, style: CharStyle) -> (r: Cell)
    ensures
        r == cell_spec(ch, fg, bg, style),
{
    Cell { ch, fg: get_color(fg), bg: get_color(bg), style: get_style(style) }
}

/// One drawing operation sent to the backend.
#[derive(Clone, Copy, Debug, PartialEq, Eq, Structural)]
pub enum DrawOp {
    /// Cursor moved to a column and row.
    Cursor(isize, isize),
    /// Cell drawn at a column and row.
    Put(usize, usize, Cell),
}

/// A frontend without a terminal: input comes from a script of poll
/// outcomes, and drawing is recorded, queued apart from what was shown.
pub struct HeadlessFrontend {
    script: Vec<Option<RawEvent>>,
    next: usize,
    width: usize,
    height: usize,
    queued: Vec<DrawOp>,
    shown: Vec<DrawOp>,
}

/// The state of a headless frontend.
pub struct HeadlessView {
    /// Outcomes that the polls return, in order.
    pub script: Seq<Option<RawEvent>>,
    /// How many of them were taken.
    pub next: nat,
    pub width: nat,
    pub height: nat,
    /// Drawing since the last `present`.
    pub queued: Seq<DrawOp>,
    /// Everything that `present` has shown, in order.
    pub shown: Seq<DrawOp>,
}

impl HeadlessView {
    /// The state after one drawing operation.
    pub open spec fn draw(self, op: DrawOp) -> HeadlessView {
        HeadlessView { queued: self.queued.push(op), ..self }
    }

    /// The state after a run of drawing operations.
    pub open spec fn draw_all(self, ops: Seq<DrawOp>) -> HeadlessView
        decreases ops.len(),
    {
        if ops.len() == 0 {
            self
        } else {
            self.draw_all(ops.drop_last()).draw(ops.last())
        }
    }

    /// The state after `present`.
    pub open spec fn present(self) -> HeadlessView {
        HeadlessView { queued: Seq::empty(), shown: self.shown + self.queued, ..self }
    }

    /// The event that the next poll yields.
    pub open spec fn next_event(self) -> Option<EditorEvent> {
        if self.next < self.script.len() {
            editor_event_of(self.script[self.next as int])
        } else {
            None
        }
    }

    /// The state after one poll: a scripted resize also becomes the
    /// window's size.
    pub open spec fn poll(self) -> HeadlessView {
        if self.next < self.script.len() {
            match self.script[self.next as int] {
                Some(RawEvent::Resize(w, h)) => HeadlessView {
                    next: self.next + 1,
                    width: (w as usize) as nat,
                    height: (h as usize) as nat,
                    ..self
                },
                _ => HeadlessView { next: self.next + 1, ..self },
            }
        } else {
            self
        }
    }
}

impl View for HeadlessFrontend {
    type V = HeadlessView;

    closed spec fn view(&self) -> HeadlessView {
        HeadlessView {
            script: self.script@,
            next: self.next as nat,
            width: self.width as nat,
            height: self.height as nat,
            queued: self.queued@,
            shown: self.shown@,
        }
    }
}

impl HeadlessFrontend {
    /// A headless frontend of the given size whose polls return `script`
    /// in order, then nothing.
    pub fn new(script: Vec<Option<RawEvent>>, width: usize, height: usize) -> (r: HeadlessFrontend)
        ensures
            r@ == (HeadlessView {
                script: script@,
                next: 0,
                width: width as nat,
                height: height as nat,
                queued: Seq::empty(),
                shown: Seq::empty(),
            }),
    {
        HeadlessFrontend { script, next: 0, width, height, queued: Vec::new(), shown: Vec::new() }
    }

    /// Drawing since the last `present`.
    pub fn queued(&self) -> (r: &Vec<DrawOp>)
        ensures
            r@ == self@.queued,
    {
        &self.queued
    }

    /// Everything that `present` has shown, in order.
    pub fn shown(&self) -> (r: &Vec<DrawOp>)
        ensures
            r@ == self@.shown,
    {
        &self.shown
    }

    /// Takes the next scripted poll outcome and translates it; a resize
    /// also sets the window's size.
    pub fn poll_event(&mut self) -> (r: Option<EditorEvent>)
        ensures
            r == old(self)@.next_event(),
            final(self)@ == old(self)@.poll(),
    {
        if self.next < self.script.len() {
            let raw = self.script[self.next];
            self.next = self.next + 1;
            if let Some(RawEvent::Resize(w, h)) = raw {
                self.width = w as usize;
                self.height = h as usize;
            }
            translate_event(raw)
        } else {
            None
        }
    }

    /// Queues a move of the cursor.
    pub fn draw_cursor(&mut self, offset: isize, linenum: isize)
        ensures
            final(self)@ == old(self)@.draw(DrawOp::Cursor(offset, linenum)),
    {
        self.queued.push(DrawOp::Cursor(offset, linenum));
    }

    /// Queues the drawing of one character cell.
    pub fn draw_char(
        &mut self,
        offset: usize,
        linenum: usize,
        ch: char,
        fg: CharColor,
        bg: CharColor,
        style: CharStyle,
    )
        ensures
            final(self)@ == old(self)@.draw(DrawOp::Put(offset, linenum, cell_spec(ch, fg, bg, style))),
    {
        let cell = cell_of(ch, fg, bg, style);
        self.queued.push(DrawOp::Put(offset, linenum, cell));
    }

    /// Shows all queued drawing, in the order it was queued.
    pub fn present(&mut self)
        ensures
            final(self)@ == old(self)@.present(),
    {
        self.shown.append(&mut self.queued);
    }

    /// Height of the window, in cells.
    pub fn get_window_height(&self) -> (r: usize)
        ensures
            r == self@.height,
    {
        self.height
    }

    /// Width of the window, in cells.
    pub fn get_window_width(&self) -> (r: usize)
        ensures
            r == self@.width,
    {
        self.width
    }
}

impl Frontend for HeadlessFrontend {
    fn poll_event(&mut self) -> Option<EditorEvent> {
        HeadlessFrontend::poll_event(self)
    }

    fn draw_cursor(&mut self, offset: isize, linenum: isize) {
        HeadlessFrontend::draw_cursor(self, offset, linenum)
    }

    fn draw_char(
        &mut self,
        offset: usize,
        linenum: usize,
        ch: char,
        fg: CharColor,
        bg: CharColor,
        style: CharStyle,
    ) {
        HeadlessFrontend::draw_char(self, offset, linenum, ch, fg, bg, style)
    }

    fn present(&mut self) {
        HeadlessFrontend::present(self)
    }

    fn get_window_height(&self) -> usize {
        HeadlessFrontend::get_window_height(self)
    }

    fn get_window_width(&self) -> usize {
        HeadlessFrontend::get_window_width(self)
    }
}

/// After a poll that hands out a resize, the window's size is the one
/// that the resize event carries.
pub proof fn lemma_size_follows_resize(v: HeadlessView, w: i32, h: i32)
    requires
        v.next < v.script.len(),
        v.script[v.next as int] == Some(RawEvent::Resize(w, h)),
    ensures
        v.next_event() == Some(EditorEvent::Resize(w as usize, h as usize)),
        v.poll().width == w as usize,
        v.poll().height == h as usize,
{
}

/// Drawing is not shown until `present`: after any run of drawing
/// operations what was shown is unchanged, and the operations wait in the
/// queue, in order, behind those queued before.
pub proof fn lemma_drawing_stays_hidden(v: HeadlessView, ops: Seq<DrawOp>)
    ensures
        v.draw_all(ops).shown == v.shown,
        v.draw_all(ops).queued == v.queued + ops,
        v.draw_all(ops).present().shown == v.shown + v.queued + ops,
    decreases ops.len(),
{
    if ops.len() > 0 {
        lemma_drawing_stays_hidden(v, ops.drop_last());
        assert(v.queued + ops.drop_last() + seq![ops.last()] =~= v.queued + ops);
    } else {
        assert(v.queued + ops =~= v.queued);
    }
    assert(v.shown + v.queued + ops =~= v.shown + (v.queued + ops));
}

} // verus!
