use charl::error::ErrorKind;
use charl::layout::{
    Behavior, BehaviorMarqueeContinuous, BehaviorMarqueeJumpBack, BehaviorMarqueeScrollBack,
    BehaviorStatic, Line, LineState, WrapPolicy, WrappingClip, WrappingOverflow, WrappingWrap,
};
use charl::scroll::{Animation, Direction};

const POLICIES: [WrapPolicy; 3] = [WrapPolicy::Overflow, WrapPolicy::Wrap, WrapPolicy::Clip];
const BEHAVIORS: [Behavior; 4] = [
    Behavior::Static,
    Behavior::MarqueeJumpBack,
    Behavior::MarqueeContinuous,
    Behavior::MarqueeScrollBack,
];

fn is_legal(wrap: WrapPolicy, behavior: Behavior) -> bool {
    matches!(
        (wrap, behavior),
        (WrapPolicy::Wrap, Behavior::Static)
            | (WrapPolicy::Clip, Behavior::Static)
            | (WrapPolicy::Overflow, Behavior::MarqueeJumpBack)
            | (WrapPolicy::Overflow, Behavior::MarqueeContinuous)
            | (WrapPolicy::Overflow, Behavior::MarqueeScrollBack)
    )
}

#[test]
fn the_five_legal_pairings_are_accepted() {
    assert_eq!(LineState::new(WrapPolicy::Wrap, Behavior::Static), Ok(LineState::WrapStatic));
    assert_eq!(LineState::new(WrapPolicy::Clip, Behavior::Static), Ok(LineState::ClipStatic));
    assert_eq!(
        LineState::new(WrapPolicy::Overflow, Behavior::MarqueeJumpBack),
        Ok(LineState::OverflowJumpBack)
    );
    assert_eq!(
        LineState::new(WrapPolicy::Overflow, Behavior::MarqueeContinuous),
        Ok(LineState::OverflowContinuous)
    );
    assert_eq!(
        LineState::new(WrapPolicy::Overflow, Behavior::MarqueeScrollBack),
        Ok(LineState::OverflowScrollBack)
    );
}

#[test]
fn every_other_pairing_is_rejected() {
    let mut rejected = 0;
    for wrap in POLICIES {
        for behavior in BEHAVIORS {
            let result = LineState::new(wrap, behavior);
            if is_legal(wrap, behavior) {
                assert!(result.is_ok());
            } else {
                assert_eq!(result, Err(ErrorKind::InvalidLayoutCombination));
                rejected += 1;
            }
        }
    }
    assert_eq!(rejected, 7);
}

#[test]
fn a_pairing_gives_back_its_parts() {
    for wrap in POLICIES {
        for behavior in BEHAVIORS {
            if let Ok(state) = LineState::new(wrap, behavior) {
                assert_eq!(state.wrap_policy(), wrap);
                assert_eq!(state.behavior(), behavior);
                assert_eq!(state.is_marquee(), behavior != Behavior::Static);
            }
        }
    }
}

#[test]
fn marker_types_name_the_legal_pairings() {
    let wrap = Line::of::<WrappingWrap, BehaviorStatic>(20).unwrap();
    assert_eq!(wrap.state(), LineState::WrapStatic);
    assert_eq!(wrap.width(), 20);
    assert_eq!(wrap.content(), b"");
    let clip = Line::of::<WrappingClip, BehaviorStatic>(20).unwrap();
    assert_eq!(clip.state(), LineState::ClipStatic);
    let jump = Line::of::<WrappingOverflow, BehaviorMarqueeJumpBack>(20).unwrap();
    assert_eq!(jump.state(), LineState::OverflowJumpBack);
    let round = Line::of::<WrappingOverflow, BehaviorMarqueeContinuous>(20).unwrap();
    assert_eq!(round.state(), LineState::OverflowContinuous);
    let back = Line::of::<WrappingOverflow, BehaviorMarqueeScrollBack>(20).unwrap();
    assert_eq!(back.state(), LineState::OverflowScrollBack);
}

#[test]
fn marker_types_of_an_illegal_pairing_are_rejected() {
    assert_eq!(
        Line::of::<WrappingWrap, BehaviorMarqueeJumpBack>(20).err(),
        Some(ErrorKind::InvalidLayoutCombination)
    );
    assert_eq!(
        Line::of::<WrappingClip, BehaviorMarqueeContinuous>(20).err(),
        Some(ErrorKind::InvalidLayoutCombination)
    );
    assert_eq!(
        Line::of::<WrappingOverflow, BehaviorStatic>(20).err(),
        Some(ErrorKind::InvalidLayoutCombination)
    );
}

#[test]
fn a_new_line_is_empty_and_at_rest() {
    let line = Line::new(LineState::OverflowScrollBack, 16);
    assert_eq!(line.state(), LineState::OverflowScrollBack);
    assert_eq!(line.width(), 16);
    assert!(line.content().is_empty());
    assert_eq!(
        line.animation(),
        Animation { offset: 0, direction: Direction::Forward, tick_counter: 0 }
    );
    assert_eq!(line.animation(), Animation::initial());
    assert_eq!(line.visible(), vec![b' '; 16]);
}

#[test]
fn errors_describe_themselves() {
    assert_eq!(ErrorKind::InvalidLayoutCombination.describe(), "invalid layout combination");
    assert_eq!(ErrorKind::PinIoError.describe(), "pin I/O error");
}
