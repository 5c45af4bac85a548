//! Short animations: which picture is shown when.

use crate::food::Food;
use crate::location::{Location, Playground};
use vstd::prelude::*;

verus! {

/// The number of pictures an animation runs through.
pub const FRAME_COUNT: u8 = 4;

/// How long each picture stays, in milliseconds.
pub const FRAME_INTERVAL_MS: i64 = 750;

/// How far right of a sleeping pet its sleep symbol is drawn.
pub const SLEEP_SYMBOL_X_MOVE: i32 = 20;

/// How far above a sleeping pet its sleep symbol is drawn in even seconds.
pub const SLEEP_SYMBOL_LOW_Y_MOVE: i32 = 20;

/// How far above a sleeping pet its sleep symbol is drawn in odd seconds.
pub const SLEEP_SYMBOL_HIGH_Y_MOVE: i32 = 22;

/// The series of pictures that shows a dish being eaten.
#[derive(Debug, Copy, Clone, PartialEq, Eq, Structural)]
pub enum FoodAnimationFrames {
    Soup,
    Fries,
    Burger,
}

impl FoodAnimationFrames {
    /// The series that shows `food` being eaten.
    pub open spec fn spec_of(food: Food) -> FoodAnimationFrames {
        match food {
            Food::Soup => FoodAnimationFrames::Soup,
            Food::Fries => FoodAnimationFrames::Fries,
            Food::Burger => FoodAnimationFrames::Burger,
        }
    }

    /// The pictures of the series, in the order in which they are shown.
    pub fn frames(&self) -> (frames: [AnimationFrame; 4])
        ensures
            forall|i: int| 0 <= i < 4 ==> frames[i] == AnimationFrame::Food(*self, i as u8),
    {
        [
            AnimationFrame::Food(*self, 0),
            AnimationFrame::Food(*self, 1),
            AnimationFrame::Food(*self, 2),
            AnimationFrame::Food(*self, 3),
        ]
    }

    /// The series that shows `food` being eaten.
    pub fn of(food: Food) -> (frames: FoodAnimationFrames)
        ensures
            frames == FoodAnimationFrames::spec_of(food),
    {
        match food {
            Food::Soup => FoodAnimationFrames::Soup,
            Food::Fries => FoodAnimationFrames::Fries,
            Food::Burger => FoodAnimationFrames::Burger,
        }
    }
}

/// A picture of an animation: the series it belongs to and its place in
/// the series.
#[derive(Debug, Copy, Clone, PartialEq, Eq, Structural)]
pub enum AnimationFrame {
    Food(FoodAnimationFrames, u8),
    Health(u8),
    Joy(u8),
}

/// Whether a picture that has been shown since `last_time_update` is to be
/// replaced by the next one at `now`.
pub open spec fn frame_due(last_time_update: int, now: int) -> bool {
    now - last_time_update >= FRAME_INTERVAL_MS
}

/// Where an animation stands, as a mathematical value.
pub struct ReelView {
    /// The place of the picture that is shown; [`FRAME_COUNT`] once the
    /// animation has run through.
    pub current_frame: int,
    pub last_time_update: int,
}

impl ReelView {
    /// An animation that starts at `now`.
    pub open spec fn fresh(now: int) -> ReelView {
        ReelView { current_frame: 0, last_time_update: now }
    }

    /// The animation has not left the range of its pictures.
    pub open spec fn valid(self) -> bool {
        0 <= self.current_frame <= FRAME_COUNT
    }

    /// The animation has run through.
    pub open spec fn finished(self) -> bool {
        self.current_frame >= FRAME_COUNT
    }

    /// The animation after it was asked for a picture at `now`: once it has
    /// run through it stays as it is; before that it moves on by one
    /// picture if the present one has stayed for its time.
    pub open spec fn advanced(self, now: int) -> ReelView {
        if self.finished() {
            self
        } else if frame_due(self.last_time_update, now) {
            ReelView { current_frame: self.current_frame + 1, last_time_update: now }
        } else {
            self
        }
    }

    /// The place of the picture that is up, unless the animation has run
    /// through.
    pub open spec fn pending(self) -> Option<int> {
        if self.finished() {
            None
        } else {
            Some(self.current_frame)
        }
    }

    /// The place of the picture that an animation of a dish hands out when
    /// it is asked at `now`: that of the picture that was up before the
    /// request, unless the request itself ends the animation.
    pub open spec fn shown(self, now: int) -> Option<int> {
        if self.advanced(now).finished() {
            None
        } else {
            Some(self.current_frame)
        }
    }
}

/// The counter shared by the animations: the place of the present picture
/// and the time at which it came up.
#[derive(Debug, Copy, Clone, PartialEq)]
struct Reel {
    current_frame: u8,
    last_time_update: i64,
}

impl View for Reel {
    type V = ReelView;

    closed spec fn view(&self) -> ReelView {
        ReelView {
            current_frame: self.current_frame as int,
            last_time_update: self.last_time_update as int,
        }
    }
}

impl Reel {
    #[verifier::type_invariant]
    closed spec fn well_formed(self) -> bool {
        self.current_frame <= FRAME_COUNT
    }

    fn new(now: i64) -> (reel: Reel)
        ensures
            reel@ == ReelView::fresh(now as int),
    {
        Reel { current_frame: 0, last_time_update: now }
    }

    /// Moves on if the present picture has stayed for its time, and
    /// returns the place of the picture that was up before, if any was.
    fn next(&mut self, now: i64) -> (before: Option<u8>)
        ensures
            final(self)@ == old(self)@.advanced(now as int),
            final(self)@.valid(),
            match before {
                Some(index) => old(self)@.pending() == Some(index as int) && index < FRAME_COUNT,
                None => old(self)@.pending() is None,
            },
        no_unwind
    {
        proof {
            use_type_invariant(&*self);
        }
        if self.current_frame >= FRAME_COUNT {
            return None;
        }
        let index = self.current_frame;
        if now as i128 - self.last_time_update as i128 >= FRAME_INTERVAL_MS as i128 {
            *self = Reel { current_frame: self.current_frame + 1, last_time_update: now };
        }
        Some(index)
    }

    fn is_finished(&self) -> (finished: bool)
        ensures
            finished == self@.finished(),
    {
        self.current_frame >= FRAME_COUNT
    }
}

/// An animation: a series of pictures handed out one after the other.
pub trait Animation {
    /// The picture to show at `now`, or `None` once the animation has run
    /// through.
    fn next_frame(&mut self, now: i64) -> Option<AnimationFrame>;
}

/// The animation of a dish being eaten.
#[derive(Debug, Clone, Copy, PartialEq)]
pub struct FoodAnimation {
    animation_frames: FoodAnimationFrames,
    reel: Reel,
}

impl FoodAnimation {
    /// The series of pictures that is shown.
    pub closed spec fn frames(self) -> FoodAnimationFrames {
        self.animation_frames
    }

    /// Where the animation stands.
    pub closed spec fn reel(self) -> ReelView {
        self.reel@
    }

    pub fn new(animation_frames: FoodAnimationFrames, now: i64) -> (animation: FoodAnimation)
        ensures
            animation.frames() == animation_frames,
            animation.reel() == ReelView::fresh(now as int),
    {
        FoodAnimation { animation_frames, reel: Reel::new(now) }
    }
}

impl Animation for FoodAnimation {
    fn next_frame(&mut self, now: i64) -> (frame: Option<AnimationFrame>)
        ensures
            final(self).frames() == old(self).frames(),
            final(self).reel() == old(self).reel().advanced(now as int),
            final(self).reel().valid(),
            match frame {
                Some(picture) => old(self).reel().shown(now as int) is Some && picture
                    == AnimationFrame::Food(
                    old(self).frames(),
                    old(self).reel().shown(now as int)->Some_0 as u8,
                ),
                None => old(self).reel().shown(now as int) is None,
            },
    {
        match self.reel.next(now) {
            Some(index) => {
                if self.reel.is_finished() {
                    None
                } else {
                    Some(AnimationFrame::Food(self.animation_frames, index))
                }
            },
            None => None,
        }
    }
}

/// The animation of a burger being eaten.
#[derive(Debug, Clone, Copy, PartialEq)]
pub struct BurgerAnimation {
    reel: Reel,
}

impl BurgerAnimation {
    /// Where the animation stands.
    pub closed spec fn reel(self) -> ReelView {
        self.reel@
    }

    pub fn new(now: i64) -> (animation: BurgerAnimation)
        ensures
            animation.reel() == ReelView::fresh(now as int),
    {
        BurgerAnimation { reel: Reel::new(now) }
    }
}

impl Animation for BurgerAnimation {
    fn next_frame(&mut self, now: i64) -> (frame: Option<AnimationFrame>)
        ensures
            final(self).reel() == old(self).reel().advanced(now as int),
            final(self).reel().valid(),
            match frame {
                Some(picture) => old(self).reel().shown(now as int) is Some && picture
                    == AnimationFrame::Food(
                    FoodAnimationFrames::Burger,
                    old(self).reel().shown(now as int)->Some_0 as u8,
                ),
                None => old(self).reel().shown(now as int) is None,
            },
    {
        match self.reel.next(now) {
            Some(index) => {
                if self.reel.is_finished() {
                    None
                } else {
                    Some(AnimationFrame::Food(FoodAnimationFrames::Burger, index))
                }
            },
            None => None,
        }
    }
}

/// Any animation of a dish being eaten.
#[derive(Debug, Clone, Copy, PartialEq)]
pub enum FoodAnimationWrapper {
    Burger(BurgerAnimation),
}

impl FoodAnimationWrapper {
    /// Where the animation stands.
    pub open spec fn reel(self) -> ReelView {
        match self {
            FoodAnimationWrapper::Burger(animation) => animation.reel(),
        }
    }
}

impl Animation for FoodAnimationWrapper {
    fn next_frame(&mut self, now: i64) -> (frame: Option<AnimationFrame>)
        ensures
            final(self).reel() == old(self).reel().advanced(now as int),
            match frame {
                Some(picture) => old(self).reel().shown(now as int) is Some && picture
                    == AnimationFrame::Food(
                    FoodAnimationFrames::Burger,
                    old(self).reel().shown(now as int)->Some_0 as u8,
                ),
                None => old(self).reel().shown(now as int) is None,
            },
    {
        match self {
            FoodAnimationWrapper::Burger(animation) => animation.next_frame(now),
        }
    }
}

/// The animation of medicine being given. Its last picture is handed out
/// once more by the request that ends the animation.
#[derive(Debug, Copy, Clone, PartialEq)]
pub struct HealthAnimation {
    reel: Reel,
}

impl HealthAnimation {
    /// Where the animation stands.
    pub closed spec fn reel(self) -> ReelView {
        self.reel@
    }

    pub fn new(now: i64) -> (animation: HealthAnimation)
        ensures
            animation.reel() == ReelView::fresh(now as int),
    {
        HealthAnimation { reel: Reel::new(now) }
    }
}

impl Animation for HealthAnimation {
    fn next_frame(&mut self, now: i64) -> (frame: Option<AnimationFrame>)
        ensures
            final(self).reel() == old(self).reel().advanced(now as int),
            final(self).reel().valid(),
            match frame {
                Some(picture) => old(self).reel().pending() is Some && picture
                    == AnimationFrame::Health(old(self).reel().pending()->Some_0 as u8),
                None => old(self).reel().pending() is None,
            },
    {
        match self.reel.next(now) {
            Some(index) => Some(AnimationFrame::Health(index)),
            None => None,
        }
    }
}

/// The animation of a game being played. Its last picture is handed out
/// once more by the request that ends the animation.
#[derive(Debug, Copy, Clone, PartialEq)]
pub struct JoyAnimation {
    reel: Reel,
}

impl JoyAnimation {
    /// Where the animation stands.
    pub closed spec fn reel(self) -> ReelView {
        self.reel@
    }

    pub fn new(now: i64) -> (animation: JoyAnimation)
        ensures
            animation.reel() == ReelView::fresh(now as int),
    {
        JoyAnimation { reel: Reel::new(now) }
    }
}

impl Animation for JoyAnimation {
    fn next_frame(&mut self, now: i64) -> (frame: Option<AnimationFrame>)
        ensures
            final(self).reel() == old(self).reel().advanced(now as int),
            final(self).reel().valid(),
            match frame {
                Some(picture) => old(self).reel().pending() is Some && picture
                    == AnimationFrame::Joy(old(self).reel().pending()->Some_0 as u8),
                None => old(self).reel().pending() is None,
            },
    {
        match self.reel.next(now) {
            Some(index) => Some(AnimationFrame::Joy(index)),
            None => None,
        }
    }
}

/// The symbol that floats beside a sleeping pet.
#[derive(Debug, Copy, Clone, PartialEq)]
pub struct SleepingAnimation {
    friend_location: Location,
}

impl SleepingAnimation {
    /// The place of the pet beside which the symbol floats.
    pub closed spec fn friend_location(self) -> Location {
        self.friend_location
    }

    /// The whole seconds that lie between the epoch and `now`, whichever
    /// comes first.
    pub open spec fn seconds(now: int) -> int {
        if now >= 0 {
            now / 1000
        } else {
            (-now) / 1000
        }
    }

    /// By how much the symbol is moved away from the pet at `now`: it
    /// stands lower in even seconds than in odd ones.
    pub open spec fn spec_offset(now: int) -> (i32, i32) {
        if Self::seconds(now) % 2 == 0 {
            (SLEEP_SYMBOL_X_MOVE, SLEEP_SYMBOL_LOW_Y_MOVE)
        } else {
            (SLEEP_SYMBOL_X_MOVE, SLEEP_SYMBOL_HIGH_Y_MOVE)
        }
    }

    pub fn new(friend_location: Location) -> (animation: SleepingAnimation)
        ensures
            animation.friend_location() == friend_location,
    {
        SleepingAnimation { friend_location }
    }

    /// The place of the pet and the amounts by which the symbol is moved
    /// away from it at `now`.
    pub fn next_frame(&mut self, now: i64) -> (frame: (Location, (i32, i32)))
        ensures
            *final(self) == *old(self),
            frame.0 == old(self).friend_location(),
            frame.1 == SleepingAnimation::spec_offset(now as int),
    {
        let seconds: i128 = if now >= 0 {
            now as i128 / 1000
        } else {
            (0 - now as i128) / 1000
        };
        if seconds % 2 == 0 {
            (self.friend_location, (SLEEP_SYMBOL_X_MOVE, SLEEP_SYMBOL_LOW_Y_MOVE))
        } else {
            (self.friend_location, (SLEEP_SYMBOL_X_MOVE, SLEEP_SYMBOL_HIGH_Y_MOVE))
        }
    }
}

/// Which animation a popup shows.
#[derive(Debug, Copy, Clone, PartialEq, Eq, Structural)]
pub enum PopupKind {
    Food(FoodAnimationFrames),
    Health,
    Joy,
}

/// What a popup shows at one moment, as a mathematical value.
pub struct PopupView {
    pub is_running: bool,
    pub kind: PopupKind,
    pub reel: ReelView,
}

impl PopupView {
    /// A popup that starts to show an animation of the kind `kind` at
    /// `now`.
    pub open spec fn fresh(kind: PopupKind, now: int) -> PopupView {
        PopupView { is_running: true, kind, reel: ReelView::fresh(now) }
    }

    /// The picture that the animation hands out when it is asked at `now`.
    pub open spec fn frame_at(self, now: int) -> Option<AnimationFrame> {
        match self.kind {
            PopupKind::Food(frames) => match self.reel.shown(now) {
                Some(index) => Some(AnimationFrame::Food(frames, index as u8)),
                None => None,
            },
            PopupKind::Health => match self.reel.pending() {
                Some(index) => Some(AnimationFrame::Health(index as u8)),
                None => None,
            },
            PopupKind::Joy => match self.reel.pending() {
                Some(index) => Some(AnimationFrame::Joy(index as u8)),
                None => None,
            },
        }
    }

    /// The popup after it was drawn at `now`: its animation was asked for a
    /// picture, and it stops running when there was none.
    pub open spec fn rendered(self, now: int) -> PopupView {
        PopupView {
            is_running: self.is_running && self.frame_at(now) is Some,
            kind: self.kind,
            reel: self.reel.advanced(now),
        }
    }
}

/// Any of the animations a popup can show.
#[derive(Debug, Copy, Clone, PartialEq)]
pub enum AnimationWrapper {
    Food(FoodAnimation),
    Health(HealthAnimation),
    Joy(JoyAnimation),
}

impl AnimationWrapper {
    /// Which animation this is.
    pub open spec fn kind(self) -> PopupKind {
        match self {
            AnimationWrapper::Food(animation) => PopupKind::Food(animation.frames()),
            AnimationWrapper::Health(_) => PopupKind::Health,
            AnimationWrapper::Joy(_) => PopupKind::Joy,
        }
    }

    /// Where the animation stands.
    pub open spec fn reel(self) -> ReelView {
        match self {
            AnimationWrapper::Food(animation) => animation.reel(),
            AnimationWrapper::Health(animation) => animation.reel(),
            AnimationWrapper::Joy(animation) => animation.reel(),
        }
    }

    /// An animation of the kind `kind` that starts at `now`.
    pub fn start(kind: PopupKind, now: i64) -> (animation: AnimationWrapper)
        ensures
            animation.kind() == kind,
            animation.reel() == ReelView::fresh(now as int),
    {
        match kind {
            PopupKind::Food(frames) => AnimationWrapper::Food(FoodAnimation::new(frames, now)),
            PopupKind::Health => AnimationWrapper::Health(HealthAnimation::new(now)),
            PopupKind::Joy => AnimationWrapper::Joy(JoyAnimation::new(now)),
        }
    }
}

impl Animation for AnimationWrapper {
    fn next_frame(&mut self, now: i64) -> (frame: Option<AnimationFrame>)
        ensures
            final(self).kind() == old(self).kind(),
            final(self).reel() == old(self).reel().advanced(now as int),
            frame == (PopupView {
                is_running: true,
                kind: old(self).kind(),
                reel: old(self).reel(),
            }).frame_at(now as int),
    {
        match self {
            AnimationWrapper::Food(animation) => animation.next_frame(now),
            AnimationWrapper::Health(animation) => animation.next_frame(now),
            AnimationWrapper::Joy(animation) => animation.next_frame(now),
        }
    }
}

/// The width of the area in which a popup draws its animation.
pub const POPUP_AREA_WIDTH: u16 = 50;

/// The height of the area in which a popup draws its animation.
pub const POPUP_AREA_HEIGHT: u16 = 30;

/// A short animation shown in a small window that covers the rest of the
/// screen.
#[derive(Debug, Copy, Clone, PartialEq)]
pub struct PopupAnimation {
    is_running: bool,
    animation: AnimationWrapper,
    area: Playground,
}

impl View for PopupAnimation {
    type V = PopupView;

    closed spec fn view(&self) -> PopupView {
        PopupView {
            is_running: self.is_running,
            kind: self.animation.kind(),
            reel: self.animation.reel(),
        }
    }
}

/// The window that covers the middle third of `area` in width and in
/// height.
pub open spec fn spec_popup_rect(area: Playground) -> Playground {
    Playground {
        x: ((area.width - area.width / 3) / 2) as u16,
        y: ((area.height - area.height / 3) / 2) as u16,
        width: area.width / 3,
        height: area.height / 3,
    }
}

impl PopupAnimation {
    /// The area in which the animation is drawn.
    pub closed spec fn area(self) -> Playground {
        self.area
    }

    pub fn new(animation: AnimationWrapper) -> (popup: PopupAnimation)
        ensures
            popup@ == (PopupView {
                is_running: true,
                kind: animation.kind(),
                reel: animation.reel(),
            }),
            popup.area() == (Playground {
                x: 0,
                y: 0,
                width: POPUP_AREA_WIDTH,
                height: POPUP_AREA_HEIGHT,
            }),
    {
        PopupAnimation {
            is_running: true,
            animation,
            area: Playground::new(0, 0, POPUP_AREA_WIDTH, POPUP_AREA_HEIGHT),
        }
    }

    /// Asks the animation for the picture to draw at `now`. When there is
    /// none left the popup stops running.
    pub fn render(&mut self, now: i64) -> (frame: Option<AnimationFrame>)
        ensures
            final(self)@ == old(self)@.rendered(now as int),
            final(self).area() == old(self).area(),
            frame == old(self)@.frame_at(now as int),
    {
        let frame = self.animation.next_frame(now);
        if frame.is_none() {
            self.is_running = false;
        }
        frame
    }

    /// Whether the animation is still running. A popup that is not is to
    /// be closed.
    pub fn is_running(&self) -> (running: bool)
        ensures
            running == self@.is_running,
    {
        self.is_running
    }

    /// The area in which the animation is drawn.
    pub fn drawing_area(&self) -> (area: Playground)
        ensures
            area == self.area(),
    {
        self.area
    }

    /// The window of the popup on a screen that covers `area`: a third of
    /// it in width and in height, in its middle.
    pub fn get_popup_rect(&self, area: Playground) -> (window: Playground)
        ensures
            window == spec_popup_rect(area),
    {
        let popup_width = area.width / 3;
        let popup_height = area.height / 3;
        let popup_x = (area.width - popup_width) / 2;
        let popup_y = (area.height - popup_height) / 2;
        Playground::new(popup_x, popup_y, popup_width, popup_height)
    }
}

} // verus!
