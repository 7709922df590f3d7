//! The scrolling rules: which part of a line is visible and how its
//! animation moves on each tick.
//!
//! Content is a sequence of character codes as the controller understands
//! them, one byte each. Everything is a function of the current state and one
//! tick, so the rules can be exercised without a clock.

use vstd::prelude::*;

use crate::layout::LineState;

verus! {

/// The character that fills a row where the content has ended.
pub const SPACE: u8 = 0x20;

/// The way a ping-pong marquee is currently moving.
#[derive(Clone, Copy, Debug, PartialEq, Eq, Structural)]
pub enum Direction {
    Forward,
    Backward,
}

/// Where a marquee stands: the index of the first visible character, the way
/// it moves, and how many ticks have moved it since its content was set.
#[derive(Clone, Copy, Debug, PartialEq, Eq, Structural)]
pub struct Animation {
    pub offset: usize,
    pub direction: Direction,
    pub tick_counter: u64,
}

/// The state every line starts from: offset 0, moving forward, no ticks yet.
pub open spec fn initial_animation() -> Animation {
    Animation { offset: 0, direction: Direction::Forward, tick_counter: 0 }
}

/// `width` characters of `content` starting at `offset`, with spaces where the
/// content has ended.
pub open spec fn padded_window(content: Seq<u8>, offset: nat, width: nat) -> Seq<u8> {
    Seq::new(
        width,
        |i: int|
            if offset + i < content.len() {
                content[offset + i]
            } else {
                SPACE
            },
    )
}

/// The character at position `index` of the endless text made of the content
/// followed by one space, over and over.
pub open spec fn circular_at(content: Seq<u8>, index: int) -> u8 {
    let within = index % (content.len() + 1) as int;
    if within < content.len() {
        content[within]
    } else {
        SPACE
    }
}

/// `width` characters starting at `offset` of the content read in a circle,
/// with a single space between its tail and its head.
pub open spec fn circular_window(content: Seq<u8>, offset: nat, width: nat) -> Seq<u8> {
    Seq::new(width, |i: int| circular_at(content, offset + i))
}

/// Whether a line moves at all: it has a marquee behavior and its content
/// does not fit in the row. Every other line is shown as a static line.
pub open spec fn scrolls(state: LineState, len: nat, width: nat) -> bool {
    state.spec_is_marquee() && len > width
}

/// The animation states a line can be in. A line that does not scroll stays
/// in the initial state. A scrolling line keeps its offset within the range
/// its behavior walks through; only the ping-pong marquee ever moves backward.
pub open spec fn valid_animation(state: LineState, len: nat, width: nat, a: Animation) -> bool {
    if !scrolls(state, len, width) {
        a == initial_animation()
    } else {
        match state {
            LineState::OverflowJumpBack => a.offset <= len - width && a.direction
                == Direction::Forward,
            LineState::OverflowContinuous => a.offset <= len && a.direction == Direction::Forward,
            _ => a.offset <= len - width,
        }
    }
}

/// The text a row shows for a line in the given state: always exactly `width`
/// characters.
pub open spec fn visible_text(state: LineState, content: Seq<u8>, width: nat, a: Animation) -> Seq<
    u8,
> {
    if !scrolls(state, content.len(), width) {
        padded_window(content, 0, width)
    } else {
        match state {
            LineState::OverflowContinuous => circular_window(content, a.offset as nat, width),
            _ => padded_window(content, a.offset as nat, width),
        }
    }
}

/// What a wrapping line leaves for the rows below: the content past the
/// width of its own row. Every other line leaves nothing: a clipped line
/// drops the rest and a marquee shows it by moving.
pub open spec fn wrap_remainder(state: LineState, content: Seq<u8>, width: nat) -> Seq<u8> {
    if state == LineState::WrapStatic && content.len() > width {
        content.subrange(width as int, content.len() as int)
    } else {
        Seq::empty()
    }
}

/// The tick counter after one more tick. It starts again at zero after its
/// largest value.
pub open spec fn next_tick_counter(counter: u64) -> u64 {
    if counter == u64::MAX {
        0
    } else {
        (counter + 1) as u64
    }
}

/// The animation state one tick later.
///
/// A line that does not scroll is left as it is. A jump-back marquee moves one
/// character forward while the window still ends within the content, and
/// returns to the head otherwise. A continuous marquee moves one character
/// forward around the circle of the content and its separator. A ping-pong
/// marquee moves one character in its direction and turns round where the
/// next step would leave the content.
pub open spec fn advance(state: LineState, len: nat, width: nat, a: Animation) -> Animation {
    if !scrolls(state, len, width) {
        a
    } else {
        let counter = next_tick_counter(a.tick_counter);
        match state {
            LineState::OverflowJumpBack => Animation {
                offset: if a.offset + 1 + width <= len {
                    (a.offset + 1) as usize
                } else {
                    0
                },
                direction: a.direction,
                tick_counter: counter,
            },
            LineState::OverflowContinuous => Animation {
                offset: ((a.offset + 1) % (len + 1) as int) as usize,
                direction: a.direction,
                tick_counter: counter,
            },
            _ => match a.direction {
                Direction::Forward => if a.offset + 1 + width <= len {
                    Animation {
                        offset: (a.offset + 1) as usize,
                        direction: Direction::Forward,
                        tick_counter: counter,
                    }
                } else {
                    Animation {
                        offset: (a.offset - 1) as usize,
                        direction: Direction::Backward,
                        tick_counter: counter,
                    }
                },
                Direction::Backward => if a.offset > 0 {
                    Animation {
                        offset: (a.offset - 1) as usize,
                        direction: Direction::Backward,
                        tick_counter: counter,
                    }
                } else {
                    Animation {
                        offset: 1,
                        direction: Direction::Forward,
                        tick_counter: counter,
                    }
                },
            },
        }
    }
}

/// The animation state `ticks` ticks later.
pub open spec fn after_ticks(
    state: LineState,
    len: nat,
    width: nat,
    a: Animation,
    ticks: nat,
) -> Animation
    decreases ticks,
{
    if ticks == 0 {
        a
    } else {
        advance(state, len, width, after_ticks(state, len, width, a, (ticks - 1) as nat))
    }
}

impl Animation {
    /// The state every line starts from.
    pub fn initial() -> (a: Animation)
        ensures
            a == initial_animation(),
    {
        Animation { offset: 0, direction: Direction::Forward, tick_counter: 0 }
    }
}

/// Computes visible text and animation steps for one line.
pub struct ScrollEngine;

impl ScrollEngine {
    /// Cuts `width` characters out of `content` starting at `offset`, filling
    /// with spaces past the end of the content.
    pub fn window(content: &[u8], offset: usize, width: usize) -> (out: Vec<u8>)
        ensures
            out@ == padded_window(content@, offset as nat, width as nat),
    {
        let len: usize = content.len();
        let available: usize = if offset < len {
            len - offset
        } else {
            0
        };
        let mut out: Vec<u8> = Vec::new();
        let mut i: usize = 0;
        while i < width
            invariant
                i <= width,
                len == content@.len(),
                available == (if offset < len {
                    len - offset
                } else {
                    0
                }),
                out@ == padded_window(content@, offset as nat, i as nat),
            decreases width - i,
        {
            let c: u8 = if i < available {
                content[offset + i]
            } else {
                SPACE
            };
            out.push(c);
            i = i + 1;
        }
        out
    }

    /// Cuts `width` characters out of the content read in a circle, starting at
    /// `offset`, with one space between the tail and the head.
    pub fn circular(content: &[u8], offset: usize, width: usize) -> (out: Vec<u8>)
        ensures
            out@ == circular_window(content@, offset as nat, width as nat),
    {
        let len: usize = content.len();
        let mut within: usize = if offset <= len {
            offset
        } else {
            offset % (len + 1)
        };
        let mut out: Vec<u8> = Vec::new();
        let mut i: usize = 0;
        proof {
            if offset <= len {
                vstd::arithmetic::div_mod::lemma_small_mod(offset as nat, (len + 1) as nat);
            }
        }
        while i < width
            invariant
                i <= width,
                len == content@.len(),
                within <= len,
                within == (offset + i) % (len + 1),
                out@ == circular_window(content@, offset as nat, i as nat),
            decreases width - i,
        {
            let c: u8 = if within < len {
                content[within]
            } else {
                SPACE
            };
            out.push(c);
            proof {
                lemma_mod_successor(offset + i, len + 1);
            }
            within = if within < len {
                within + 1
            } else {
                0
            };
            i = i + 1;
        }
        out
    }

    /// The text a row shows for a line in the given state.
    pub fn visible(state: LineState, content: &[u8], width: usize, animation: Animation) -> (out:
        Vec<u8>)
        ensures
            out@ == visible_text(state, content@, width as nat, animation),
            out@.len() == width,
    {
        if !state.is_marquee() || content.len() <= width {
            Self::window(content, 0, width)
        } else {
            match state {
                LineState::OverflowContinuous => Self::circular(content, animation.offset, width),
                _ => Self::window(content, animation.offset, width),
            }
        }
    }

    /// What a wrapping line leaves for the rows below.
    pub fn remainder(state: LineState, content: &[u8], width: usize) -> (rest: Vec<u8>)
        ensures
            rest@ == wrap_remainder(state, content@, width as nat),
    {
        let mut rest: Vec<u8> = Vec::new();
        let len: usize = content.len();
        if state == LineState::WrapStatic && len > width {
            let mut i: usize = width;
            while i < len
                invariant
                    width <= i <= len,
                    len == content@.len(),
                    rest@ == content@.subrange(width as int, i as int),
                decreases len - i,
            {
                rest.push(content[i]);
                i = i + 1;
            }
        }
        rest
    }

    /// The animation state one tick later, for a line whose content has `len`
    /// characters.
    pub fn advance(state: LineState, len: usize, width: usize, animation: Animation) -> (next:
        Animation)
        ensures
            next == advance(state, len as nat, width as nat, animation),
            valid_animation(state, len as nat, width as nat, animation) ==> valid_animation(
                state,
                len as nat,
                width as nat,
                next,
            ),
    {
        if !state.is_marquee() || len <= width {
            return animation;
        }
        let span: usize = len - width;
        let counter: u64 = if animation.tick_counter == u64::MAX {
            0
        } else {
            animation.tick_counter + 1
        };
        match state {
            LineState::OverflowJumpBack => {
                let offset: usize = if animation.offset < span {
                    animation.offset + 1
                } else {
                    0
                };
                Animation { offset, direction: animation.direction, tick_counter: counter }
            },
            LineState::OverflowContinuous => {
                let within: usize = if animation.offset <= len {
                    animation.offset
                } else {
                    animation.offset % (len + 1)
                };
                proof {
                    if animation.offset <= len {
                        vstd::arithmetic::div_mod::lemma_small_mod(
                            animation.offset as nat,
                            (len + 1) as nat,
                        );
                    }
                    lemma_mod_successor(animation.offset as int, len + 1);
                }
                let offset: usize = if within < len {
                    within + 1
                } else {
                    0
                };
                Animation { offset, direction: animation.direction, tick_counter: counter }
            },
            _ => match animation.direction {
                Direction::Forward => if animation.offset < span {
                    Animation {
                        offset: animation.offset + 1,
                        direction: Direction::Forward,
                        tick_counter: counter,
                    }
                } else {
                    Animation {
                        offset: animation.offset - 1,
                        direction: Direction::Backward,
                        tick_counter: counter,
                    }
                },
                Direction::Backward => if animation.offset > 0 {
                    Animation {
                        offset: animation.offset - 1,
                        direction: Direction::Backward,
                        tick_counter: counter,
                    }
                } else {
                    Animation { offset: 1, direction: Direction::Forward, tick_counter: counter }
                },
            },
        }
    }

    /// One tick of a line: the text to show now and the animation state for
    /// the tick after.
    pub fn tick(state: LineState, content: &[u8], width: usize, animation: Animation) -> (out: (
        Vec<u8>,
        Animation,
    ))
        ensures
            out.0@ == visible_text(state, content@, width as nat, animation),
            out.0@.len() == width,
            out.1 == advance(state, content@.len(), width as nat, animation),
            valid_animation(state, content@.len(), width as nat, animation) ==> valid_animation(
                state,
                content@.len(),
                width as nat,
                out.1,
            ),
    {
        let text: Vec<u8> = Self::visible(state, content, width, animation);
        let next: Animation = Self::advance(state, content.len(), width, animation);
        (text, next)
    }
}

/// Moving one step along a circle of `period` positions: the position after
/// `index` is one more, or zero after the last.
pub proof fn lemma_mod_successor(index: int, period: int)
    requires
        0 <= index,
        0 < period,
    ensures
        (index + 1) % period == (if index % period + 1 < period {
            index % period + 1
        } else {
            0
        }),
{
    vstd::arithmetic::div_mod::lemma_fundamental_div_mod(index, period);
    vstd::arithmetic::div_mod::lemma_mod_bound(index, period);
    let q = index / period;
    let r = index % period;
    if r + 1 < period {
        assert(index + 1 == q * period + (r + 1)) by (nonlinear_arith)
            requires
                index == period * q + r,
        ;
        vstd::arithmetic::div_mod::lemma_fundamental_div_mod_converse(index + 1, period, q, r + 1);
    } else {
        assert(index + 1 == (q + 1) * period + 0) by (nonlinear_arith)
            requires
                index == period * q + r,
                r + 1 == period,
        ;
        vstd::arithmetic::div_mod::lemma_fundamental_div_mod_converse(index + 1, period, q + 1, 0);
    }
}

} // verus!
