//! Wrap policies, animation behaviors and their legal pairings; the line
//! that holds one pairing with its content; and the buffer of four lines that
//! is written to the display frame by frame.

use vstd::prelude::*;

use crate::error::ErrorKind;
use crate::scroll::{
    advance, initial_animation, valid_animation, visible_text, wrap_remainder, Animation,
    ScrollEngine,
};

verus! {

/// What happens to content that is longer than the row.
#[derive(Clone, Copy, Debug, PartialEq, Eq, Structural)]
pub enum WrapPolicy {
    /// Content beyond the width is only ever shown by animation.
    Overflow,
    /// Content continues on the next physical row.
    Wrap,
    /// Content beyond the width is cut off.
    Clip,
}

/// How a line moves over time.
#[derive(Clone, Copy, Debug, PartialEq, Eq, Structural)]
pub enum Behavior {
    /// No animation.
    Static,
    /// Scroll until the tail is shown, then snap back to the head.
    MarqueeJumpBack,
    /// Scroll in a circle, the tail running into the head.
    MarqueeContinuous,
    /// Scroll to the tail, reverse, scroll back to the head, repeat.
    MarqueeScrollBack,
}

/// The five pairings of wrap policy and behavior that a line may have.
pub open spec fn legal_pairing(wrap: WrapPolicy, behavior: Behavior) -> bool {
    ||| wrap == WrapPolicy::Wrap && behavior == Behavior::Static
    ||| wrap == WrapPolicy::Clip && behavior == Behavior::Static
    ||| wrap == WrapPolicy::Overflow && behavior == Behavior::MarqueeJumpBack
    ||| wrap == WrapPolicy::Overflow && behavior == Behavior::MarqueeContinuous
    ||| wrap == WrapPolicy::Overflow && behavior == Behavior::MarqueeScrollBack
}

/// A validated pairing of wrap policy and behavior. Only the legal pairings
/// have a variant, so an illegal one cannot be held.
#[derive(Clone, Copy, Debug, PartialEq, Eq, Structural)]
pub enum LineState {
    WrapStatic,
    ClipStatic,
    OverflowJumpBack,
    OverflowContinuous,
    OverflowScrollBack,
}

impl LineState {
    /// The wrap policy of this pairing.
    pub open spec fn spec_wrap_policy(self) -> WrapPolicy {
        match self {
            LineState::WrapStatic => WrapPolicy::Wrap,
            LineState::ClipStatic => WrapPolicy::Clip,
            LineState::OverflowJumpBack => WrapPolicy::Overflow,
            LineState::OverflowContinuous => WrapPolicy::Overflow,
            LineState::OverflowScrollBack => WrapPolicy::Overflow,
        }
    }

    /// The behavior of this pairing.
    pub open spec fn spec_behavior(self) -> Behavior {
        match self {
            LineState::WrapStatic => Behavior::Static,
            LineState::ClipStatic => Behavior::Static,
            LineState::OverflowJumpBack => Behavior::MarqueeJumpBack,
            LineState::OverflowContinuous => Behavior::MarqueeContinuous,
            LineState::OverflowScrollBack => Behavior::MarqueeScrollBack,
        }
    }

    /// Whether the pairing animates at all.
    pub open spec fn spec_is_marquee(self) -> bool {
        self.spec_wrap_policy() == WrapPolicy::Overflow
    }

    /// Pairs a wrap policy with a behavior. Succeeds exactly on the legal
    /// pairings and reports `InvalidLayoutCombination` on every other.
    pub fn new(wrap: WrapPolicy, behavior: Behavior) -> (result: Result<LineState, ErrorKind>)
        ensures
            result is Ok <==> legal_pairing(wrap, behavior),
            result matches Ok(state) ==> state.spec_wrap_policy() == wrap
                && state.spec_behavior() == behavior,
            result matches Err(kind) ==> kind == ErrorKind::InvalidLayoutCombination,
    {
        match (wrap, behavior) {
            (WrapPolicy::Wrap, Behavior::Static) => Ok(LineState::WrapStatic),
            (WrapPolicy::Clip, Behavior::Static) => Ok(LineState::ClipStatic),
            (WrapPolicy::Overflow, Behavior::MarqueeJumpBack) => Ok(LineState::OverflowJumpBack),
            (WrapPolicy::Overflow, Behavior::MarqueeContinuous) => Ok(
                LineState::OverflowContinuous,
            ),
            (WrapPolicy::Overflow, Behavior::MarqueeScrollBack) => Ok(
                LineState::OverflowScrollBack,
            ),
            _ => Err(ErrorKind::InvalidLayoutCombination),
        }
    }

    /// The wrap policy of this pairing.
    #[verifier::when_used_as_spec(spec_wrap_policy)]
    pub fn wrap_policy(self) -> (wrap: WrapPolicy)
        ensures
            wrap == self.spec_wrap_policy(),
    {
        match self {
            LineState::WrapStatic => WrapPolicy::Wrap,
            LineState::ClipStatic => WrapPolicy::Clip,
            _ => WrapPolicy::Overflow,
        }
    }

    /// The behavior of this pairing.
    #[verifier::when_used_as_spec(spec_behavior)]
    pub fn behavior(self) -> (behavior: Behavior)
        ensures
            behavior == self.spec_behavior(),
    {
        match self {
            LineState::WrapStatic => Behavior::Static,
            LineState::ClipStatic => Behavior::Static,
            LineState::OverflowJumpBack => Behavior::MarqueeJumpBack,
            LineState::OverflowContinuous => Behavior::MarqueeContinuous,
            LineState::OverflowScrollBack => Behavior::MarqueeScrollBack,
        }
    }

    /// Whether the pairing animates at all.
    #[verifier::when_used_as_spec(spec_is_marquee)]
    pub fn is_marquee(self) -> (marquee: bool)
        ensures
            marquee == self.spec_is_marquee(),
    {
        match self {
            LineState::WrapStatic => false,
            LineState::ClipStatic => false,
            _ => true,
        }
    }
}

/// Type-level name of a wrap policy.
pub trait WrapMarker {
    /// The wrap policy that the type stands for.
    spec fn marked_policy() -> WrapPolicy;

    /// The wrap policy that the type stands for.
    fn policy() -> (wrap: WrapPolicy)
        ensures
            wrap == Self::marked_policy(),
    ;
}

/// Type-level name of a behavior.
pub trait BehaviorMarker {
    /// The behavior that the type stands for.
    spec fn marked_behavior() -> Behavior;

    /// The behavior that the type stands for.
    fn behavior() -> (behavior: Behavior)
        ensures
            behavior == Self::marked_behavior(),
    ;
}

/// Stands for `WrapPolicy::Overflow`.
pub struct WrappingOverflow;

/// Stands for `WrapPolicy::Wrap`.
pub struct WrappingWrap;

/// Stands for `WrapPolicy::Clip`.
pub struct WrappingClip;

/// Stands for `Behavior::Static`.
pub struct BehaviorStatic;

/// Stands for `Behavior::MarqueeJumpBack`.
pub struct BehaviorMarqueeJumpBack;

/// Stands for `Behavior::MarqueeContinuous`.
pub struct BehaviorMarqueeContinuous;

/// Stands for `Behavior::MarqueeScrollBack`.
pub struct BehaviorMarqueeScrollBack;

impl WrapMarker for WrappingOverflow {
    open spec fn marked_policy() -> WrapPolicy {
        WrapPolicy::Overflow
    }

    fn policy() -> (wrap: WrapPolicy) {
        WrapPolicy::Overflow
    }
}

impl WrapMarker for WrappingWrap {
    open spec fn marked_policy() -> WrapPolicy {
        WrapPolicy::Wrap
    }

    fn policy() -> (wrap: WrapPolicy) {
        WrapPolicy::Wrap
    }
}

impl WrapMarker for WrappingClip {
    open spec fn marked_policy() -> WrapPolicy {
        WrapPolicy::Clip
    }

    fn policy() -> (wrap: WrapPolicy) {
        WrapPolicy::Clip
    }
}

impl BehaviorMarker for BehaviorStatic {
    open spec fn marked_behavior() -> Behavior {
        Behavior::Static
    }

    fn behavior() -> (behavior: Behavior) {
        Behavior::Static
    }
}

impl BehaviorMarker for BehaviorMarqueeJumpBack {
    open spec fn marked_behavior() -> Behavior {
        Behavior::MarqueeJumpBack
    }

    fn behavior() -> (behavior: Behavior) {
        Behavior::MarqueeJumpBack
    }
}

impl BehaviorMarker for BehaviorMarqueeContinuous {
    open spec fn marked_behavior() -> Behavior {
        Behavior::MarqueeContinuous
    }

    fn behavior() -> (behavior: Behavior) {
        Behavior::MarqueeContinuous
    }
}

impl BehaviorMarker for BehaviorMarqueeScrollBack {
    open spec fn marked_behavior() -> Behavior {
        Behavior::MarqueeScrollBack
    }

    fn behavior() -> (behavior: Behavior) {
        Behavior::MarqueeScrollBack
    }
}

/// What a line is, as contracts see it.
pub struct LineView {
    pub state: LineState,
    pub content: Seq<u8>,
    pub width: nat,
    pub animation: Animation,
}

impl LineView {
    /// The text the line shows on its row now.
    pub open spec fn visible(self) -> Seq<u8> {
        visible_text(self.state, self.content, self.width, self.animation)
    }

    /// The line one tick later: the same content, the animation one step on.
    pub open spec fn ticked(self) -> LineView {
        LineView {
            animation: advance(self.state, self.content.len(), self.width, self.animation),
            ..self
        }
    }

    /// The line with its content replaced and its animation back at the
    /// start.
    pub open spec fn with_content(self, content: Seq<u8>) -> LineView {
        LineView { content, animation: initial_animation(), ..self }
    }

    /// The animation state fits the pairing, the content and the width.
    pub open spec fn wf(self) -> bool {
        valid_animation(self.state, self.content.len(), self.width, self.animation)
    }
}

/// One row of text: a validated pairing, the full content, the width of the
/// row and the state of the animation.
#[derive(Clone, Debug)]
pub struct Line {
    state: LineState,
    content: Vec<u8>,
    width: usize,
    animation: Animation,
}

impl View for Line {
    type V = LineView;

    closed spec fn view(&self) -> LineView {
        LineView {
            state: self.state,
            content: self.content@,
            width: self.width as nat,
            animation: self.animation,
        }
    }
}

impl Line {
    /// The animation state fits the pairing, the content and the width.
    pub open spec fn wf(&self) -> bool {
        self@.wf()
    }

    /// An empty line of the given pairing and width, its animation at the
    /// start.
    pub fn new(state: LineState, width: usize) -> (line: Line)
        ensures
            line.wf(),
            line@ == (LineView {
                state,
                content: Seq::<u8>::empty(),
                width: width as nat,
                animation: initial_animation(),
            }),
    {
        Line { state, content: Vec::new(), width, animation: Animation::initial() }
    }

    /// An empty line whose pairing is named by two marker types. Fails with
    /// `InvalidLayoutCombination` exactly when the two do not go together.
    pub fn of<W: WrapMarker, B: BehaviorMarker>(width: usize) -> (result: Result<Line, ErrorKind>)
        ensures
            result is Ok <==> legal_pairing(W::marked_policy(), B::marked_behavior()),
            result matches Ok(line) ==> line.wf() && line@.state.spec_wrap_policy()
                == W::marked_policy() && line@.state.spec_behavior() == B::marked_behavior()
                && line@.content == Seq::<u8>::empty() && line@.width == width
                && line@.animation == initial_animation(),
            result matches Err(kind) ==> kind == ErrorKind::InvalidLayoutCombination,
    {
        match LineState::new(W::policy(), B::behavior()) {
            Ok(state) => Ok(Line::new(state, width)),
            Err(kind) => Err(kind),
        }
    }

    /// The pairing of the line.
    pub fn state(&self) -> (state: LineState)
        ensures
            state == self@.state,
    {
        self.state
    }

    /// The full content of the line.
    pub fn content(&self) -> (content: &[u8])
        ensures
            content@ == self@.content,
    {
        self.content.as_slice()
    }

    /// The width of the row.
    pub fn width(&self) -> (width: usize)
        ensures
            width == self@.width,
    {
        self.width
    }

    /// The state of the animation.
    pub fn animation(&self) -> (animation: Animation)
        ensures
            animation == self@.animation,
    {
        self.animation
    }

    /// Replaces the content. The animation starts again from its initial
    /// state, wherever it stood before.
    pub fn set_content(&mut self, content: Vec<u8>)
        ensures
            final(self)@ == old(self)@.with_content(content@),
            final(self).wf(),
    {
        self.content = content;
        self.animation = Animation::initial();
    }

    /// The text the line shows on its row now: exactly `width` characters.
    pub fn visible(&self) -> (text: Vec<u8>)
        ensures
            text@ == self@.visible(),
            text@.len() == self@.width,
    {
        ScrollEngine::visible(self.state, self.content.as_slice(), self.width, self.animation)
    }

    /// What a wrapping line could not show on its own row and leaves for the
    /// rows below. Empty for every other line.
    pub fn remainder(&self) -> (rest: Vec<u8>)
        ensures
            rest@ == wrap_remainder(self@.state, self@.content, self@.width),
    {
        ScrollEngine::remainder(self.state, self.content.as_slice(), self.width)
    }

    /// One tick: returns the text to show now and moves the animation on for
    /// the tick after. Pairing, content and width stay as they are.
    pub fn tick(&mut self) -> (text: Vec<u8>)
        requires
            old(self).wf(),
        ensures
            text@ == old(self)@.visible(),
            text@.len() == old(self)@.width,
            final(self)@ == old(self)@.ticked(),
            final(self).wf(),
    {
        let (text, next) = ScrollEngine::tick(
            self.state,
            self.content.as_slice(),
            self.width,
            self.animation,
        );
        self.animation = next;
        text
    }
}

/// The number of rows a buffer holds.
pub const ROWS: usize = 4;

/// A position on the display: `row` counts from 0 at the top, `col` from 0 at
/// the left.
#[derive(Clone, Copy, Debug, PartialEq, Eq, Structural)]
pub struct Cursor {
    pub row: usize,
    pub col: usize,
}

/// One thing to ask of the display while a frame is written.
#[derive(Clone, Copy, Debug, PartialEq, Eq, Structural)]
pub enum DisplayOp {
    /// Move the cursor of the display.
    SetCursor { row: usize, col: usize },
    /// Write one character at the cursor, which moves one column on.
    Write { byte: u8 },
}

/// The operations that write one row: the cursor goes to the first column of
/// the row, then the characters of the text follow from left to right.
pub open spec fn row_ops(row: nat, text: Seq<u8>) -> Seq<DisplayOp> {
    seq![DisplayOp::SetCursor { row: row as usize, col: 0 }] + Seq::new(
        text.len(),
        |i: int| DisplayOp::Write { byte: text[i] },
    )
}

/// What a buffer is, as contracts see it.
pub struct BufferView {
    pub lines: Seq<LineView>,
    pub cursor: Cursor,
    pub width: nat,
}

impl BufferView {
    /// Four lines of the buffer's width, each in a valid state, and a cursor
    /// within the display.
    pub open spec fn wf(self) -> bool {
        &&& self.lines.len() == ROWS
        &&& forall|row: int|
            0 <= row < ROWS ==> (#[trigger] self.lines[row]).wf() && self.lines[row].width
                == self.width
        &&& self.cursor.row < ROWS
        &&& self.cursor.col < self.width
    }

    /// The operations that write one frame: the four rows from top to
    /// bottom, each with the text its line shows now.
    pub open spec fn frame_ops(self) -> Seq<DisplayOp> {
        row_ops(0, self.lines[0].visible()) + row_ops(1, self.lines[1].visible()) + row_ops(
            2,
            self.lines[2].visible(),
        ) + row_ops(3, self.lines[3].visible())
    }

    /// The buffer after one frame: every line one tick later, the cursor where
    /// the last row began.
    pub open spec fn refreshed(self) -> BufferView {
        BufferView {
            lines: Seq::new(ROWS as nat, |row: int| self.lines[row].ticked()),
            cursor: Cursor { row: 3, col: 0 },
            width: self.width,
        }
    }
}

/// Four lines and a cursor: what the display is to show.
#[derive(Clone, Debug)]
pub struct Buffer {
    line1: Line,
    line2: Line,
    line3: Line,
    line4: Line,
    cursor: Cursor,
    width: usize,
}

impl View for Buffer {
    type V = BufferView;

    closed spec fn view(&self) -> BufferView {
        BufferView {
            lines: seq![self.line1@, self.line2@, self.line3@, self.line4@],
            cursor: self.cursor,
            width: self.width as nat,
        }
    }
}

/// Appends the operations that write one row to `ops` and moves the line one
/// tick on.
fn write_row(line: &mut Line, row: usize, ops: &mut Vec<DisplayOp>)
    requires
        old(line).wf(),
    ensures
        final(ops)@ == old(ops)@ + row_ops(row as nat, old(line)@.visible()),
        final(line)@ == old(line)@.ticked(),
        final(line).wf(),
{
    let text: Vec<u8> = line.tick();
    let ghost before = ops@;
    ops.push(DisplayOp::SetCursor { row, col: 0 });
    let mut i: usize = 0;
    while i < text.len()
        invariant
            i <= text@.len(),
            ops@ == before + row_ops(row as nat, text@.subrange(0, i as int)),
        decreases text@.len() - i,
    {
        ops.push(DisplayOp::Write { byte: text[i] });
        assert(text@.subrange(0, i + 1) == text@.subrange(0, i as int).push(text@[i as int]));
        i = i + 1;
    }
    assert(text@.subrange(0, i as int) == text@);
}

impl Buffer {
    /// Four well-formed lines of one width and a cursor within the display.
    pub open spec fn wf(&self) -> bool {
        self@.wf()
    }

    /// A buffer of four empty lines, `width` columns wide, with the cursor at
    /// the top left. `pairings` gives wrap policy and behavior of the rows
    /// from top to bottom. Fails with `InvalidLayoutCombination` exactly when
    /// one of them is not a legal pairing. A display has at least one column.
    pub fn new(width: usize, pairings: [(WrapPolicy, Behavior); 4]) -> (result: Result<
        Buffer,
        ErrorKind,
    >)
        requires
            width >= 1,
        ensures
            result is Ok <==> forall|row: int|
                0 <= row < ROWS ==> legal_pairing(
                    (#[trigger] pairings@[row]).0,
                    pairings@[row].1,
                ),
            result matches Ok(buffer) ==> {
                &&& buffer.wf()
                &&& buffer@.width == width
                &&& buffer@.cursor == (Cursor { row: 0, col: 0 })
                &&& forall|row: int|
                    0 <= row < ROWS ==> {
                        &&& (#[trigger] buffer@.lines[row]).state.spec_wrap_policy()
                            == pairings@[row].0
                        &&& buffer@.lines[row].state.spec_behavior() == pairings@[row].1
                        &&& buffer@.lines[row].content == Seq::<u8>::empty()
                        &&& buffer@.lines[row].animation == initial_animation()
                    }
            },
            result matches Err(kind) ==> kind == ErrorKind::InvalidLayoutCombination,
    {
        let state1 = match LineState::new(pairings[0].0, pairings[0].1) {
            Ok(state) => state,
            Err(kind) => {
                return Err(kind);
            },
        };
        let state2 = match LineState::new(pairings[1].0, pairings[1].1) {
            Ok(state) => state,
            Err(kind) => {
                return Err(kind);
            },
        };
        let state3 = match LineState::new(pairings[2].0, pairings[2].1) {
            Ok(state) => state,
            Err(kind) => {
                return Err(kind);
            },
        };
        let state4 = match LineState::new(pairings[3].0, pairings[3].1) {
            Ok(state) => state,
            Err(kind) => {
                return Err(kind);
            },
        };
        Ok(
            Buffer {
                line1: Line::new(state1, width),
                line2: Line::new(state2, width),
                line3: Line::new(state3, width),
                line4: Line::new(state4, width),
                cursor: Cursor { row: 0, col: 0 },
                width,
            },
        )
    }

    /// The line of the first row.
    pub fn line1(&self) -> (line: &Line)
        ensures
            line@ == self@.lines[0],
    {
        &self.line1
    }

    /// The line of the second row.
    pub fn line2(&self) -> (line: &Line)
        ensures
            line@ == self@.lines[1],
    {
        &self.line2
    }

    /// The line of the third row.
    pub fn line3(&self) -> (line: &Line)
        ensures
            line@ == self@.lines[2],
    {
        &self.line3
    }

    /// The line of the fourth row.
    pub fn line4(&self) -> (line: &Line)
        ensures
            line@ == self@.lines[3],
    {
        &self.line4
    }

    /// The number of columns of the display.
    pub fn width(&self) -> (width: usize)
        ensures
            width == self@.width,
    {
        self.width
    }

    /// Where the cursor was last put.
    pub fn cursor(&self) -> (cursor: Cursor)
        ensures
            cursor == self@.cursor,
    {
        self.cursor
    }

    /// Puts the cursor at `row` and `col`, both counted from 0. Returns the
    /// operation that moves the cursor of the display, or nothing, and changes
    /// nothing, if there is no such position.
    pub fn move_cursor(&mut self, row: usize, col: usize) -> (op: Option<DisplayOp>)
        requires
            old(self).wf(),
        ensures
            op is Some <==> row < ROWS && col < old(self)@.width,
            op matches Some(moved) ==> moved == (DisplayOp::SetCursor { row, col }) && final(self)@
                == (BufferView { cursor: Cursor { row, col }, ..old(self)@ }),
            op is None ==> final(self)@ == old(self)@,
            final(self).wf(),
    {
        if row < ROWS && col < self.width {
            self.cursor = Cursor { row, col };
            Some(DisplayOp::SetCursor { row, col })
        } else {
            None
        }
    }

    /// Replaces the content of the line in `row`, counted from 0, and puts its
    /// animation back to the start. Returns whether there is such a row; if
    /// there is none, nothing changes.
    pub fn set_content(&mut self, row: usize, content: Vec<u8>) -> (replaced: bool)
        requires
            old(self).wf(),
        ensures
            replaced == (row < ROWS),
            replaced ==> final(self)@ == (BufferView {
                lines: old(self)@.lines.update(
                    row as int,
                    old(self)@.lines[row as int].with_content(content@),
                ),
                ..old(self)@
            }),
            !replaced ==> final(self)@ == old(self)@,
            final(self).wf(),
    {
        if row == 0 {
            self.line1.set_content(content);
        } else if row == 1 {
            self.line2.set_content(content);
        } else if row == 2 {
            self.line3.set_content(content);
        } else if row == 3 {
            self.line4.set_content(content);
        } else {
            return false;
        }
        assert(self@.lines =~= old(self)@.lines.update(
            row as int,
            old(self)@.lines[row as int].with_content(content@),
        ));
        true
    }

    /// Writes one frame. Returns the operations for the display: for each row
    /// from top to bottom the cursor is put at the start of the row and the
    /// text the line shows now follows, exactly `width` characters. Every
    /// line is then one tick further on.
    pub fn refresh(&mut self) -> (ops: Vec<DisplayOp>)
        requires
            old(self).wf(),
        ensures
            ops@ == old(self)@.frame_ops(),
            ops@.len() == ROWS * (old(self)@.width + 1),
            final(self)@ == old(self)@.refreshed(),
            final(self).wf(),
    {
        let mut ops: Vec<DisplayOp> = Vec::new();
        write_row(&mut self.line1, 0, &mut ops);
        write_row(&mut self.line2, 1, &mut ops);
        write_row(&mut self.line3, 2, &mut ops);
        write_row(&mut self.line4, 3, &mut ops);
        self.cursor = Cursor { row: 3, col: 0 };
        assert(self@.lines =~= old(self)@.refreshed().lines);
        ops
    }
}

/// A frame is four full rows, top to bottom: row `row` begins at operation
/// `row * (width + 1)` with the cursor put at its first column, and the
/// `width` characters its line shows follow from left to right.
pub proof fn frame_is_four_full_rows(buffer: BufferView, row: int, col: int)
    requires
        buffer.wf(),
        0 <= row < ROWS,
        0 <= col < buffer.width,
    ensures
        buffer.frame_ops().len() == ROWS * (buffer.width + 1),
        buffer.lines[row].visible().len() == buffer.width,
        buffer.frame_ops()[row * (buffer.width + 1)] == (DisplayOp::SetCursor {
            row: row as usize,
            col: 0,
        }),
        buffer.frame_ops()[row * (buffer.width + 1) + 1 + col] == (DisplayOp::Write {
            byte: buffer.lines[row].visible()[col],
        }),
{
    let width = buffer.width as int;
    assert(buffer.lines[0].visible().len() == width);
    assert(buffer.lines[1].visible().len() == width);
    assert(buffer.lines[2].visible().len() == width);
    assert(buffer.lines[3].visible().len() == width);
    assert(row * (width + 1) == if row == 0 {
        0
    } else if row == 1 {
        width + 1
    } else if row == 2 {
        2 * (width + 1)
    } else {
        3 * (width + 1)
    }) by (nonlinear_arith)
        requires
            0 <= row < 4,
    ;
}

} // verus!
