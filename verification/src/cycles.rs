//! What the scrolling rules add up to over many ticks: the cycle each marquee
//! walks through, and the text that never moves.

use vstd::prelude::*;

use crate::layout::LineState;
use crate::scroll::{
    after_ticks, circular_at, circular_window, initial_animation, lemma_mod_successor,
    padded_window, scrolls, valid_animation, visible_text, Animation, Direction, SPACE,
};

verus! {

/// The offset of a ping-pong marquee at a given step of its walk over
/// `0..=span`: up from 0 to `span`, then down again to 0, over and over.
pub open spec fn oscillation(span: nat, step: nat) -> nat {
    let within = step % (2 * span);
    if within <= span {
        within
    } else {
        (2 * span - within) as nat
    }
}

/// The step of the ping-pong walk at which a marquee in state `a` stands.
pub open spec fn oscillation_step(span: nat, a: Animation) -> nat {
    match a.direction {
        Direction::Forward => a.offset as nat,
        Direction::Backward => (2 * span - a.offset) as nat,
    }
}

/// A window that ends within the content is a plain slice of it: nothing is
/// padded.
pub proof fn window_within_content(content: Seq<u8>, offset: nat, width: nat)
    requires
        offset + width <= content.len(),
    ensures
        padded_window(content, offset, width) == content.subrange(
            offset as int,
            (offset + width) as int,
        ),
{
    assert(padded_window(content, offset, width) =~= content.subrange(
        offset as int,
        (offset + width) as int,
    ));
}

/// A window at the head of the content shows the content as far as the row
/// reaches, followed by nothing but spaces.
pub proof fn window_at_head(content: Seq<u8>, width: nat)
    ensures
        padded_window(content, 0, width).len() == width,
        forall|i: int|
            0 <= i < width && i < content.len() ==> padded_window(content, 0, width)[i]
                == content[i],
        forall|i: int|
            content.len() <= i < width ==> padded_window(content, 0, width)[i] == SPACE,
{
}

/// A line that does not scroll shows the head of its content whatever its
/// animation state and however many ticks pass, and no tick changes its
/// state. This holds of every static line and of every marquee whose content
/// fits in the row.
pub proof fn still_text_never_moves(
    state: LineState,
    content: Seq<u8>,
    width: nat,
    a: Animation,
    ticks: nat,
)
    requires
        !scrolls(state, content.len(), width),
    ensures
        after_ticks(state, content.len(), width, a, ticks) == a,
        visible_text(state, content, width, after_ticks(state, content.len(), width, a, ticks))
            == padded_window(content, 0, width),
        content.len() >= width ==> visible_text(state, content, width, a) == content.subrange(
            0,
            width as int,
        ),
    decreases ticks,
{
    if ticks > 0 {
        still_text_never_moves(state, content, width, a, (ticks - 1) as nat);
    }
    if content.len() >= width {
        window_within_content(content, 0, width);
    }
}

/// Every tick leaves a valid animation state valid.
pub proof fn ticks_keep_valid(state: LineState, len: nat, width: nat, a: Animation, ticks: nat)
    requires
        len <= usize::MAX,
        valid_animation(state, len, width, a),
    ensures
        valid_animation(state, len, width, after_ticks(state, len, width, a, ticks)),
    decreases ticks,
{
    if ticks > 0 {
        ticks_keep_valid(state, len, width, a, (ticks - 1) as nat);
        let before = after_ticks(state, len, width, a, (ticks - 1) as nat);
        if scrolls(state, len, width) && state == LineState::OverflowContinuous {
            vstd::arithmetic::div_mod::lemma_mod_bound(before.offset + 1, (len + 1) as int);
        }
    }
}

/// The tick counter of a scrolling line counts its ticks, starting again at
/// zero after the largest value a `u64` holds.
pub proof fn tick_counter_counts(state: LineState, len: nat, width: nat, a: Animation, ticks: nat)
    requires
        scrolls(state, len, width),
    ensures
        after_ticks(state, len, width, a, ticks).tick_counter == (a.tick_counter + ticks)
            % 0x1_0000_0000_0000_0000,
    decreases ticks,
{
    if ticks == 0 {
        vstd::arithmetic::div_mod::lemma_small_mod(a.tick_counter as nat, 0x1_0000_0000_0000_0000);
    } else {
        tick_counter_counts(state, len, width, a, (ticks - 1) as nat);
        lemma_mod_successor(a.tick_counter + ticks - 1, 0x1_0000_0000_0000_0000);
    }
}

/// A jump-back marquee over content longer than the row walks through the
/// offsets `0, 1, ..., len - width` and then starts again at 0: after `ticks`
/// ticks it stands `ticks` steps further round that cycle of
/// `len - width + 1` offsets.
pub proof fn jump_back_cycle(len: nat, width: nat, a: Animation, ticks: nat)
    requires
        width < len <= usize::MAX,
        valid_animation(LineState::OverflowJumpBack, len, width, a),
    ensures
        after_ticks(LineState::OverflowJumpBack, len, width, a, ticks).offset == (a.offset + ticks)
            % (len - width + 1) as int,
        after_ticks(LineState::OverflowJumpBack, len, width, a, ticks).offset <= len - width,
    decreases ticks,
{
    let period = len - width + 1;
    if ticks == 0 {
        vstd::arithmetic::div_mod::lemma_small_mod(a.offset as nat, period as nat);
    } else {
        jump_back_cycle(len, width, a, (ticks - 1) as nat);
        lemma_mod_successor(a.offset + ticks - 1, period);
    }
}

/// The windows of a jump-back marquee that starts at the head: at tick `k`,
/// for `k` up to `len - width`, the row shows the `width` characters of the
/// content from index `k`, so the window moves by exactly one character per
/// tick for `len - width + 1` ticks; the tick after shows the head again.
pub proof fn jump_back_windows(content: Seq<u8>, width: nat, ticks: nat)
    requires
        width < content.len() <= usize::MAX,
    ensures
        ({
            let at = (ticks as int) % (content.len() - width + 1) as int;
            let a = after_ticks(
                LineState::OverflowJumpBack,
                content.len(),
                width,
                initial_animation(),
                ticks,
            );
            &&& a.offset == at
            &&& visible_text(LineState::OverflowJumpBack, content, width, a) == content.subrange(
                at,
                at + width,
            )
        }),
{
    let len = content.len();
    jump_back_cycle(len, width, initial_animation(), ticks);
    let at = (ticks as int) % (len - width + 1) as int;
    vstd::arithmetic::div_mod::lemma_mod_bound(ticks as int, (len - width + 1) as int);
    window_within_content(content, at as nat, width);
}

/// The endless text of a continuous marquee repeats after the content and
/// its one separating space.
pub proof fn circular_text_repeats(content: Seq<u8>, index: int)
    requires
        0 <= index,
    ensures
        circular_at(content, index + content.len() + 1) == circular_at(content, index),
{
    let period = (content.len() + 1) as int;
    vstd::arithmetic::div_mod::lemma_mod_add_multiples_vanish(index, period);
}

/// For content at least as long as the row, the window of a continuous
/// marquee is a slice of the content followed by one space and by the first
/// `width` characters of the content again.
pub proof fn circular_window_unrolled(content: Seq<u8>, offset: nat, width: nat)
    requires
        width <= content.len(),
        offset <= content.len(),
    ensures
        circular_window(content, offset, width) == (content + seq![SPACE] + content.subrange(
            0,
            width as int,
        )).subrange(offset as int, (offset + width) as int),
{
    let len = content.len();
    let period = (len + 1) as int;
    let source = content + seq![SPACE] + content.subrange(0, width as int);
    let window = circular_window(content, offset, width);
    let slice = source.subrange(offset as int, (offset + width) as int);
    assert forall|i: int| 0 <= i < width implies window[i] == slice[i] by {
        let index = offset + i;
        if index < period {
            vstd::arithmetic::div_mod::lemma_small_mod(index as nat, period as nat);
        } else {
            vstd::arithmetic::div_mod::lemma_small_mod((index - period) as nat, period as nat);
            vstd::arithmetic::div_mod::lemma_mod_add_multiples_vanish(index - period, period);
        }
    }
    assert(window =~= slice);
}

/// A continuous marquee over content longer than the row moves one character
/// round the circle per tick: after `ticks` ticks it stands `ticks` steps
/// further round the cycle of `len + 1` offsets.
pub proof fn continuous_cycle(len: nat, width: nat, a: Animation, ticks: nat)
    requires
        width < len <= usize::MAX,
        valid_animation(LineState::OverflowContinuous, len, width, a),
    ensures
        after_ticks(LineState::OverflowContinuous, len, width, a, ticks).offset == (a.offset
            + ticks) % (len + 1) as int,
    decreases ticks,
{
    let period = (len + 1) as int;
    if ticks == 0 {
        vstd::arithmetic::div_mod::lemma_small_mod(a.offset as nat, period as nat);
    } else {
        continuous_cycle(len, width, a, (ticks - 1) as nat);
        let before = after_ticks(
            LineState::OverflowContinuous,
            len,
            width,
            a,
            (ticks - 1) as nat,
        );
        lemma_mod_successor(a.offset + ticks - 1, period);
        lemma_mod_successor(before.offset as int, period);
        vstd::arithmetic::div_mod::lemma_mod_bound(a.offset + ticks - 1, period);
        vstd::arithmetic::div_mod::lemma_small_mod(before.offset as nat, period as nat);
    }
}

/// The windows of a continuous marquee that starts at the head: at tick `k`
/// the row shows the endless text from index `k`, and the same text comes
/// back every `len + 1` ticks.
pub proof fn continuous_windows(content: Seq<u8>, width: nat, ticks: nat)
    requires
        width < content.len() <= usize::MAX,
    ensures
        visible_text(
            LineState::OverflowContinuous,
            content,
            width,
            after_ticks(
                LineState::OverflowContinuous,
                content.len(),
                width,
                initial_animation(),
                ticks,
            ),
        ) == circular_window(content, ticks, width),
        circular_window(content, ticks + content.len() + 1, width) == circular_window(
            content,
            ticks,
            width,
        ),
{
    let len = content.len();
    let period = (len + 1) as int;
    continuous_cycle(len, width, initial_animation(), ticks);
    let at = ((ticks as int) % period) as nat;
    assert forall|i: int| 0 <= i < width implies #[trigger] circular_window(content, at, width)[i]
        == circular_window(content, ticks, width)[i] by {
        vstd::arithmetic::div_mod::lemma_add_mod_noop(ticks as int, i, period);
        vstd::arithmetic::div_mod::lemma_add_mod_noop(at as int, i, period);
        vstd::arithmetic::div_mod::lemma_mod_twice(ticks as int, period);
    }
    assert(circular_window(content, at, width) =~= circular_window(content, ticks, width));
    assert forall|i: int| 0 <= i < width implies #[trigger] circular_window(
        content,
        ticks + len + 1,
        width,
    )[i] == circular_window(content, ticks, width)[i] by {
        circular_text_repeats(content, ticks + i);
    }
    assert(circular_window(content, ticks + len + 1, width) =~= circular_window(
        content,
        ticks,
        width,
    ));
}

/// A ping-pong marquee over content longer than the row walks up from 0 to
/// `len - width` and down again, one character per tick, and never leaves
/// that range: after `ticks` ticks it stands `ticks` steps further along the
/// oscillation.
pub proof fn scroll_back_oscillates(len: nat, width: nat, a: Animation, ticks: nat)
    requires
        width < len <= usize::MAX,
        valid_animation(LineState::OverflowScrollBack, len, width, a),
    ensures
        after_ticks(LineState::OverflowScrollBack, len, width, a, ticks).offset == oscillation(
            (len - width) as nat,
            oscillation_step((len - width) as nat, a) + ticks,
        ),
        after_ticks(LineState::OverflowScrollBack, len, width, a, ticks).offset <= len - width,
{
    scroll_back_walk(len, width, a, ticks);
}

/// The ping-pong walk with the direction of travel: strictly between the two
/// ends the marquee moves forward on the way up and backward on the way down.
proof fn scroll_back_walk(len: nat, width: nat, a: Animation, ticks: nat)
    requires
        width < len <= usize::MAX,
        valid_animation(LineState::OverflowScrollBack, len, width, a),
    ensures
        ({
            let span = (len - width) as nat;
            let step = oscillation_step(span, a) + ticks;
            let within = step % (2 * span);
            let now = after_ticks(LineState::OverflowScrollBack, len, width, a, ticks);
            &&& now.offset == oscillation(span, step)
            &&& now.offset <= span
            &&& 0 < within < span ==> now.direction == Direction::Forward
            &&& span < within ==> now.direction == Direction::Backward
        }),
    decreases ticks,
{
    let span = (len - width) as nat;
    let period = (2 * span) as int;
    let start = oscillation_step(span, a);
    if ticks == 0 {
        if start < period {
            vstd::arithmetic::div_mod::lemma_small_mod(start, period as nat);
        } else {
            vstd::arithmetic::div_mod::lemma_mod_self_0(period);
        }
    } else {
        scroll_back_walk(len, width, a, (ticks - 1) as nat);
        lemma_mod_successor(start + ticks - 1, period);
        vstd::arithmetic::div_mod::lemma_mod_bound(start + ticks - 1, period);
    }
}

/// The offsets of a ping-pong marquee that starts at the head are
/// `0, 1, ..., span, span - 1, ..., 1, 0, 1, ...` with `span = len - width`.
pub proof fn scroll_back_from_head(len: nat, width: nat, ticks: nat)
    requires
        width < len <= usize::MAX,
    ensures
        after_ticks(
            LineState::OverflowScrollBack,
            len,
            width,
            initial_animation(),
            ticks,
        ).offset == oscillation((len - width) as nat, ticks),
        oscillation((len - width) as nat, ticks) <= len - width,
{
    scroll_back_oscillates(len, width, initial_animation(), ticks);
}

} // verus!
