//! A session: one game in a playground, advanced tick by tick and steered
//! by what the player asks for.

use crate::animations::{
    AnimationFrame, AnimationWrapper, FoodAnimationFrames, PopupAnimation, PopupKind, PopupView,
};
use crate::chance::random_in_range;
use crate::clock::wall_clock_millis;
use crate::food::Food;
use crate::friend::{food_health_debt_ms, Friend, FriendView, PLAY_HEALTH_DEBT_MS};
use crate::game_state::{GameState, GameStateRecord, GameStateView};
use crate::growth::GrowthStage;
use crate::location::{shifted, Location, Playground};
use crate::movements::dvd_bounce::START_SPREAD;
use crate::movements::movement::{movement_with_offset, Movement, MovementView, MovementWrapper};
use crate::stat::STAT_MAX;
use vstd::prelude::*;

verus! {

/// The most health decay that one action leaves owed: what a burger does.
pub const MAX_ACTION_DEBT_MS: i64 = 780_000;

/// What the player can do for the pet.
#[derive(Debug, Copy, Clone, PartialEq, Eq, Structural)]
pub enum UserAction {
    Eat,
    Play,
    Sleep,
    Medicine,
}

/// The number of actions there are.
pub const ACTION_COUNT: usize = 4;

impl UserAction {
    /// The action that stands at `index` in the menu, if there is one.
    pub open spec fn spec_from_index(index: int) -> Option<UserAction> {
        if index == 0 {
            Some(UserAction::Eat)
        } else if index == 1 {
            Some(UserAction::Play)
        } else if index == 2 {
            Some(UserAction::Sleep)
        } else if index == 3 {
            Some(UserAction::Medicine)
        } else {
            None
        }
    }

    /// The action that stands at `index` in the menu, if there is one.
    pub fn from_index(index: usize) -> (action: Option<UserAction>)
        ensures
            action == UserAction::spec_from_index(index as int),
    {
        match index {
            0 => Some(UserAction::Eat),
            1 => Some(UserAction::Play),
            2 => Some(UserAction::Sleep),
            3 => Some(UserAction::Medicine),
            _ => None,
        }
    }

    /// The name under which the action stands in the menu.
    pub fn label(self) -> (label: &'static str)
        ensures
            label@ == (match self {
                UserAction::Eat => "Eat"@,
                UserAction::Play => "Play"@,
                UserAction::Sleep => "Sleep"@,
                UserAction::Medicine => "Medicine"@,
            }),
    {
        match self {
            UserAction::Eat => "Eat",
            UserAction::Play => "Play",
            UserAction::Sleep => "Sleep",
            UserAction::Medicine => "Medicine",
        }
    }
}

/// What the player has done.
#[derive(Debug, Copy, Clone, PartialEq, Eq, Structural)]
pub enum Input {
    MoveSelectionUp,
    MoveSelectionDown,
    ConfirmAction(UserAction),
    Quit,
}

/// What came of an input.
#[derive(Debug, Copy, Clone, PartialEq, Eq, Structural)]
pub enum Reaction {
    /// The input was dropped: inputs are not taken while a popup is shown.
    Dropped,
    /// The entry above the selected one is to be selected.
    SelectPrevious,
    /// The entry below the selected one is to be selected.
    SelectNext,
    /// The session has ended.
    Stopped,
    /// The action was passed to the pet.
    Applied(UserAction),
    /// The action was not passed on, since the pet is in no state for it.
    Ignored(UserAction),
}

/// How much room the sprites of one pet take, stage by stage.
#[derive(Debug, Copy, Clone, PartialEq, Eq)]
pub struct SpriteExtents {
    pub egg: (u32, u32),
    pub baby: (u32, u32),
    pub kid: (u32, u32),
    pub adult: (u32, u32),
}

impl SpriteExtents {
    /// The width and the height of the sprite at `stage`.
    pub open spec fn spec_of(self, stage: GrowthStage) -> (u32, u32) {
        match stage {
            GrowthStage::Egg => self.egg,
            GrowthStage::Baby => self.baby,
            GrowthStage::Kid => self.kid,
            GrowthStage::Adult => self.adult,
        }
    }

    /// Whether every sprite that is moved about by bouncing fits into the
    /// playground `area`.
    pub open spec fn spec_fit(self, area: Playground) -> bool {
        &&& self.kid.0 <= area.spec_right()
        &&& self.kid.1 <= area.spec_bottom()
        &&& self.adult.0 <= area.spec_right()
        &&& self.adult.1 <= area.spec_bottom()
    }

    /// The width and the height of the sprite at `stage`.
    pub fn of(&self, stage: GrowthStage) -> (extent: (u32, u32))
        ensures
            extent == self.spec_of(stage),
    {
        match stage {
            GrowthStage::Egg => self.egg,
            GrowthStage::Baby => self.baby,
            GrowthStage::Kid => self.kid,
            GrowthStage::Adult => self.adult,
        }
    }

    /// Whether every sprite that is moved about by bouncing fits into the
    /// playground `area`.
    pub fn fit(&self, area: Playground) -> (fits: bool)
        ensures
            fits == self.spec_fit(area),
    {
        self.kid.0 <= area.right() && self.kid.1 <= area.bottom() && self.adult.0 <= area.right()
            && self.adult.1 <= area.bottom()
    }
}

/// The side of the sprite by which a sleeping pet is centred, stage by
/// stage.
pub open spec fn resting_sprite_side(stage: GrowthStage) -> int {
    match stage {
        GrowthStage::Egg => 10,
        GrowthStage::Baby => 10,
        GrowthStage::Kid => 15,
        GrowthStage::Adult => 25,
    }
}

/// What is shown of the popup in one frame.
#[derive(Debug, Copy, Clone, PartialEq, Eq, Structural)]
pub enum PopupScene {
    /// There is no popup.
    Hidden,
    /// The popup is shown with nothing in it: its animation has just run
    /// through.
    Empty,
    /// The popup shows this picture.
    Picture(AnimationFrame),
}

/// What is to be drawn in one frame, besides the pet itself.
#[derive(Debug, Copy, Clone, PartialEq, Eq, Structural)]
pub struct Scene {
    /// Where the pet is drawn.
    pub friend_location: Location,
    pub popup: PopupScene,
}

/// What a tick led to.
#[derive(Debug, Copy, Clone, PartialEq, Eq, Structural)]
pub enum Tick {
    /// The pet has died. Nothing is drawn; a new pet is to be adopted.
    PetDied,
    /// The frame to draw.
    Frame(Scene),
}

/// A session as a mathematical value.
pub struct SessionView {
    pub game: GameStateView,
    pub previous_growth_stage: GrowthStage,
    pub movement: MovementView,
    pub playground: Playground,
    pub extents: SpriteExtents,
    pub popup: Option<PopupView>,
    pub allow_inputs: bool,
    pub is_running: bool,
}

impl SessionView {
    /// The session that begins at `now` with the game `game`; a bounce, if
    /// the pet moves by one, sets out at the given offsets.
    pub open spec fn begun(
        game: GameStateView,
        playground: Playground,
        extents: SpriteExtents,
        x_offset: int,
        y_offset: int,
        now: int,
    ) -> SessionView {
        SessionView {
            game,
            previous_growth_stage: game.friend.growth_stage,
            movement: MovementView::suited(
                game.friend.growth_stage,
                playground,
                extents.spec_of(game.friend.growth_stage),
                x_offset,
                y_offset,
                now,
            ),
            playground,
            extents,
            popup: None,
            allow_inputs: true,
            is_running: true,
        }
    }

    /// Where a sleeping pet is drawn: in the middle of the playground,
    /// moved back by half the side of its sprite, each coordinate held at 0
    /// where it would turn negative.
    pub open spec fn sleep_drawing_location(self) -> Location {
        let side = resting_sprite_side(self.game.friend.growth_stage);
        Location {
            x: shifted(self.playground.width as int / 2, -(side / 2)) as u32,
            y: shifted(self.playground.height as int / 2, -(side / 2)) as u32,
        }
    }

    /// The session after its game was advanced to `now`.
    pub open spec fn aged(self, now: int) -> SessionView {
        SessionView { game: self.game.updated(now), ..self }
    }

    /// The session after the motion generator was made to suit the stage
    /// of the pet: it is replaced if the stage has changed since it was
    /// set up.
    pub open spec fn regrouped(self, x_offset: int, y_offset: int, now: int) -> SessionView {
        let stage = self.game.friend.growth_stage;
        if stage != self.previous_growth_stage {
            SessionView {
                previous_growth_stage: stage,
                movement: MovementView::suited(
                    stage,
                    self.playground,
                    self.extents.spec_of(stage),
                    x_offset,
                    y_offset,
                    now,
                ),
                ..self
            }
        } else {
            self
        }
    }

    /// The session after the place of the pet was asked for at `now`: the
    /// motion generator is asked unless the pet sleeps.
    pub open spec fn moved_on(self, now: int) -> SessionView {
        if self.game.friend.asleep() {
            self
        } else {
            SessionView { movement: self.movement.stepped(now), ..self }
        }
    }

    /// Where the pet is drawn, once the session has moved on.
    pub open spec fn friend_location(self) -> Location {
        if self.game.friend.asleep() {
            self.sleep_drawing_location()
        } else {
            self.movement.position()
        }
    }

    /// The column and the row at which the pet is drawn, as numbers: those
    /// of its resting place if it sleeps, else those at which its motion
    /// generator has arrived.
    pub open spec fn place(self) -> (int, int) {
        if self.game.friend.asleep() {
            let side = resting_sprite_side(self.game.friend.growth_stage);
            (
                shifted(self.playground.width as int / 2, -(side / 2)),
                shifted(self.playground.height as int / 2, -(side / 2)),
            )
        } else {
            self.movement.place()
        }
    }

    /// The session after its popup was looked after at `now`: a popup
    /// holds inputs off; while it runs it is drawn, and once it has stopped
    /// it is taken away and inputs are taken again.
    pub open spec fn popup_shown(self, now: int) -> SessionView {
        match self.popup {
            None => self,
            Some(popup) => if popup.is_running {
                SessionView { popup: Some(popup.rendered(now)), allow_inputs: false, ..self }
            } else {
                SessionView { popup: None, allow_inputs: true, ..self }
            },
        }
    }

    /// What is shown of the popup when it is looked after at `now`.
    pub open spec fn popup_scene(self, now: int) -> PopupScene {
        match self.popup {
            None => PopupScene::Hidden,
            Some(popup) => if popup.is_running {
                match popup.frame_at(now) {
                    Some(frame) => PopupScene::Picture(frame),
                    None => PopupScene::Empty,
                }
            } else {
                PopupScene::Hidden
            },
        }
    }

    /// The session after a tick at `now`. The game is advanced. If the pet
    /// has died nothing more happens. Else the motion generator is made to
    /// suit the pet, the place of the pet is asked for, and the popup is
    /// looked after.
    pub open spec fn ticked(self, x_offset: int, y_offset: int, now: int) -> SessionView {
        let aged = self.aged(now);
        if !aged.game.friend.alive {
            aged
        } else {
            aged.regrouped(x_offset, y_offset, now).moved_on(now).popup_shown(now)
        }
    }

    /// What a tick at `now` leads to.
    pub open spec fn tick_outcome(self, x_offset: int, y_offset: int, now: int) -> Tick {
        let aged = self.aged(now);
        if !aged.game.friend.alive {
            Tick::PetDied
        } else {
            let moved = aged.regrouped(x_offset, y_offset, now).moved_on(now);
            Tick::Frame(
                Scene { friend_location: moved.friend_location(), popup: moved.popup_scene(now) },
            )
        }
    }

    /// Whether the pet is in a state in which `action` is passed on to it:
    /// it must be alive and past the egg, and awake for everything but
    /// being woken.
    pub open spec fn admits(self, action: UserAction) -> bool {
        let friend = self.game.friend;
        &&& friend.alive
        &&& friend.growth_stage != GrowthStage::Egg
        &&& action != UserAction::Sleep ==> !friend.asleep()
    }

    /// The popup that `action` brings up, if any: feeding, playing and
    /// medicine each bring up theirs unless the statistic they raise
    /// already stands at its maximum.
    pub open spec fn popup_for(self, action: UserAction, food: Food) -> Option<PopupKind> {
        let friend = self.game.friend;
        match action {
            UserAction::Eat => if friend.food == STAT_MAX {
                None
            } else {
                Some(PopupKind::Food(FoodAnimationFrames::spec_of(food)))
            },
            UserAction::Play => if friend.joy == STAT_MAX {
                None
            } else {
                Some(PopupKind::Joy)
            },
            UserAction::Medicine => if friend.health == STAT_MAX {
                None
            } else {
                Some(PopupKind::Health)
            },
            UserAction::Sleep => None,
        }
    }

    /// The pet after `action` was passed on to it at `now`, with `food` as
    /// the dish if it is fed.
    pub open spec fn cared_for(
        friend: FriendView,
        action: UserAction,
        food: Food,
        now: int,
    ) -> FriendView {
        match action {
            UserAction::Eat => friend.fed(food),
            UserAction::Play => friend.played(),
            UserAction::Sleep => friend.sleep_toggled(now),
            UserAction::Medicine => friend.medicated(),
        }
    }

    /// The session after `action` was asked for at `now`: if the pet admits
    /// it, the popup of the action comes up and the pet is cared for.
    pub open spec fn acted(self, action: UserAction, food: Food, now: int) -> SessionView {
        if self.admits(action) {
            SessionView {
                game: GameStateView {
                    friend: Self::cared_for(self.game.friend, action, food, now),
                    ..self.game
                },
                popup: match self.popup_for(action, food) {
                    Some(kind) => Some(PopupView::fresh(kind, now)),
                    None => self.popup,
                },
                ..self
            }
        } else {
            self
        }
    }

    /// The session after `input` was handed in at `now`. While inputs are
    /// held off nothing happens. Else quitting ends the session, an action
    /// is asked for, and moving the selection changes nothing in the
    /// session.
    pub open spec fn handled(self, input: Input, food: Food, now: int) -> SessionView {
        if !self.allow_inputs {
            self
        } else {
            match input {
                Input::Quit => SessionView { is_running: false, ..self },
                Input::ConfirmAction(action) => self.acted(action, food, now),
                _ => self,
            }
        }
    }

    /// What comes of `input`.
    pub open spec fn reaction(self, input: Input) -> Reaction {
        if !self.allow_inputs {
            Reaction::Dropped
        } else {
            match input {
                Input::MoveSelectionUp => Reaction::SelectPrevious,
                Input::MoveSelectionDown => Reaction::SelectNext,
                Input::Quit => Reaction::Stopped,
                Input::ConfirmAction(action) => if self.admits(action) {
                    Reaction::Applied(action)
                } else {
                    Reaction::Ignored(action)
                },
            }
        }
    }

    /// The health decay that `action` leaves owed, with `food` as the dish
    /// if the pet is fed.
    pub open spec fn debt_of(action: UserAction, food: Food) -> int {
        match action {
            UserAction::Eat => food_health_debt_ms(food),
            UserAction::Play => PLAY_HEALTH_DEBT_MS as int,
            _ => 0,
        }
    }

    /// Whether the health decay owed can still be counted once `action`
    /// has added to it. Nothing is asked where the pet does not admit the
    /// action.
    pub open spec fn has_room_for(self, action: UserAction, food: Food) -> bool {
        self.admits(action) ==> self.game.friend.health_debit_ms + Self::debt_of(action, food)
            <= i64::MAX
    }

    /// Whether the health decay owed can still be counted once `input` has
    /// been taken, with `food` as the dish if the pet is fed. Nothing is
    /// asked where the input is dropped or is no action.
    pub open spec fn can_take(self, input: Input, food: Food) -> bool {
        match input {
            Input::ConfirmAction(action) => self.allow_inputs ==> self.has_room_for(action, food),
            _ => true,
        }
    }

    /// Whether the health decay owed can still be counted once `input` has
    /// been taken, whichever dish the pet is fed.
    pub open spec fn can_take_any(self, input: Input) -> bool {
        forall|food: Food| self.can_take(input, food)
    }


    /// The session after a new pet took the place of the old one at `now`:
    /// the game starts over with it, and the motion generator is the one
    /// that suits it.
    pub open spec fn adopted(
        self,
        friend: FriendView,
        extents: SpriteExtents,
        x_offset: int,
        y_offset: int,
        now: int,
    ) -> SessionView {
        SessionView {
            game: GameStateView { friend, last_update_time: now },
            previous_growth_stage: friend.growth_stage,
            movement: MovementView::suited(
                friend.growth_stage,
                self.playground,
                extents.spec_of(friend.growth_stage),
                x_offset,
                y_offset,
                now,
            ),
            extents,
            ..self
        }
    }
}

/// Whether `outcome`, if it is a frame, draws the pet in the column and the
/// row `place`.
pub open spec fn draws_pet_at(outcome: Tick, place: (int, int)) -> bool {
    outcome matches Tick::Frame(scene) ==> scene.friend_location.x == place.0
        && scene.friend_location.y == place.1
}

/// Whether both offsets lie within the spread of a bounce's start.
pub open spec fn in_spread(x_offset: int, y_offset: int) -> bool {
    -START_SPREAD <= x_offset <= START_SPREAD && -START_SPREAD <= y_offset <= START_SPREAD
}

/// Where a pet lives: its playground and the room its sprites take. The
/// sprites of a kid and of an adult fit into the playground.
#[derive(Debug, Copy, Clone)]
struct Setting {
    playground: Playground,
    extents: SpriteExtents,
}

impl Setting {
    #[verifier::type_invariant]
    closed spec fn well_formed(self) -> bool {
        self.extents.spec_fit(self.playground)
    }

    fn new(playground: Playground, extents: SpriteExtents) -> (setting: Setting)
        requires
            extents.spec_fit(playground),
        ensures
            setting.playground == playground,
            setting.extents == extents,
    {
        Setting { playground, extents }
    }
}

/// A session.
pub struct Session {
    game_state: GameState,
    previous_growth_stage: GrowthStage,
    friend_movement: MovementWrapper,
    setting: Setting,
    popup_animation: Option<PopupAnimation>,
    allow_inputs: bool,
    is_running: bool,
}

impl View for Session {
    type V = SessionView;

    closed spec fn view(&self) -> SessionView {
        SessionView {
            game: self.game_state@,
            previous_growth_stage: self.previous_growth_stage,
            movement: self.friend_movement@,
            playground: self.setting.playground,
            extents: self.setting.extents,
            popup: match self.popup_animation {
                Some(popup) => Some(popup@),
                None => None,
            },
            allow_inputs: self.allow_inputs,
            is_running: self.is_running,
        }
    }
}

/// A pair of offsets for the start of a bounce: the given ones, or, where
/// none are given, a pair picked at random within the spread.
fn start_offsets(fixed: Option<(i32, i32)>) -> (offsets: (i32, i32))
    ensures
        fixed is Some ==> offsets == fixed->Some_0,
        fixed is None ==> in_spread(offsets.0 as int, offsets.1 as int),
{
    match fixed {
        Some(offsets) => offsets,
        None => {
            let x_rng: i32 = random_in_range(-START_SPREAD, START_SPREAD);
            let y_rng: i32 = random_in_range(-START_SPREAD, START_SPREAD);
            (x_rng, y_rng)
        },
    }
}

impl Session {
    /// The generator that suits `stage`; the offsets of a bounce are the
    /// given ones or, where none are given, picked at random.
    fn movement_for(
        stage: GrowthStage,
        playground: Playground,
        extents: &SpriteExtents,
        fixed: Option<(i32, i32)>,
        now: i64,
    ) -> (found: (MovementWrapper, Ghost<(int, int)>))
        requires
            extents.spec_fit(playground),
        ensures
            found.0@ == MovementView::suited(
                stage,
                playground,
                extents.spec_of(stage),
                found.1@.0,
                found.1@.1,
                now as int,
            ),
            fixed is Some ==> found.1@ == (fixed->Some_0.0 as int, fixed->Some_0.1 as int),
            fixed is None ==> in_spread(found.1@.0, found.1@.1),
    {
        match stage {
            GrowthStage::Egg | GrowthStage::Baby => {
                let shape = extents.of(stage);
                let movement = movement_with_offset(stage, playground, shape, 0, 0, now);
                let ghost offsets = match fixed {
                    Some(given) => (given.0 as int, given.1 as int),
                    None => (0int, 0int),
                };
                assert(movement@ == MovementView::suited(
                    stage,
                    playground,
                    extents.spec_of(stage),
                    offsets.0,
                    offsets.1,
                    now as int,
                ));
                (movement, Ghost(offsets))
            },
            _ => {
                let offsets = start_offsets(fixed);
                let movement = movement_with_offset(
                    stage,
                    playground,
                    extents.of(stage),
                    offsets.0,
                    offsets.1,
                    now,
                );
                (movement, Ghost((offsets.0 as int, offsets.1 as int)))
            },
        }
    }

    fn begin(
        game_state: GameState,
        playground: Playground,
        extents: SpriteExtents,
        fixed: Option<(i32, i32)>,
        now: i64,
    ) -> (begun: (Session, Ghost<(int, int)>))
        requires
            extents.spec_fit(playground),
        ensures
            begun.0@ == SessionView::begun(
                game_state@,
                playground,
                extents,
                begun.1@.0,
                begun.1@.1,
                now as int,
            ),
            fixed is Some ==> begun.1@ == (fixed->Some_0.0 as int, fixed->Some_0.1 as int),
            fixed is None ==> in_spread(begun.1@.0, begun.1@.1),
    {
        let stage = game_state.friend().growth_stage();
        let (friend_movement, offsets) = Self::movement_for(
            stage,
            playground,
            &extents,
            fixed,
            now,
        );
        (
            Session {
                game_state,
                previous_growth_stage: stage,
                friend_movement,
                setting: Setting::new(playground, extents),
                popup_animation: None,
                allow_inputs: true,
                is_running: true,
            },
            offsets,
        )
    }

    /// The session that begins at `now` with the game `game_state` in
    /// `playground`. The sprites of the pet take the room `extents`; those
    /// of a kid and of an adult must fit into the playground. A pet that
    /// moves by bouncing sets out from a place picked at random near the
    /// middle of the playground.
    pub fn new(
        game_state: GameState,
        playground: Playground,
        extents: SpriteExtents,
        now: i64,
    ) -> (session: Session)
        requires
            extents.spec_fit(playground),
        ensures
            exists|x_offset: int, y_offset: int|
                in_spread(x_offset, y_offset) && session@ == SessionView::begun(
                    game_state@,
                    playground,
                    extents,
                    x_offset,
                    y_offset,
                    now as int,
                ),
    {
        let (session, offsets) = Self::begin(game_state, playground, extents, None, now);
        assert(in_spread(offsets@.0, offsets@.1) && session@ == SessionView::begun(
            game_state@,
            playground,
            extents,
            offsets@.0,
            offsets@.1,
            now as int,
        ));
        session
    }

    /// The session that begins at `now` with the game `game_state` in
    /// `playground`, with a bounce, if the pet moves by one, that sets out
    /// at the given offsets from the middle of the playground.
    pub fn with_offset(
        game_state: GameState,
        playground: Playground,
        extents: SpriteExtents,
        x_offset: i32,
        y_offset: i32,
        now: i64,
    ) -> (session: Session)
        requires
            extents.spec_fit(playground),
        ensures
            session@ == SessionView::begun(
                game_state@,
                playground,
                extents,
                x_offset as int,
                y_offset as int,
                now as int,
            ),
    {
        let (session, offsets) = Self::begin(
            game_state,
            playground,
            extents,
            Some((x_offset, y_offset)),
            now,
        );
        session
    }

    pub fn game_state(&self) -> (game: &GameState)
        ensures
            game@ == self@.game,
    {
        &self.game_state
    }

    pub fn playground(&self) -> (playground: Playground)
        ensures
            playground == self@.playground,
    {
        self.setting.playground
    }

    /// Whether the session goes on. It ends when the player quits.
    pub fn is_running(&self) -> (running: bool)
        ensures
            running == self@.is_running,
    {
        self.is_running
    }

    /// Whether inputs are taken. They are held off while a popup is shown.
    pub fn allows_inputs(&self) -> (allowed: bool)
        ensures
            allowed == self@.allow_inputs,
    {
        self.allow_inputs
    }

    /// The popup that is shown, if any.
    pub fn popup(&self) -> (popup: Option<PopupAnimation>)
        ensures
            match popup {
                Some(shown) => self@.popup == Some(shown@),
                None => self@.popup is None,
            },
    {
        self.popup_animation
    }

    /// Where a sleeping pet is drawn: in the middle of the playground,
    /// moved back by half the side of its sprite.
    pub fn sleep_drawing_location(&self) -> (location: Location)
        ensures
            location == self@.sleep_drawing_location(),
            location.x == shifted(
                self@.playground.width as int / 2,
                -(resting_sprite_side(self@.game.friend.growth_stage) / 2),
            ),
            location.y == shifted(
                self@.playground.height as int / 2,
                -(resting_sprite_side(self@.game.friend.growth_stage) / 2),
            ),
    {
        let center = self.setting.playground.center();
        let sprite_width: u32 = match self.game_state.friend().growth_stage() {
            GrowthStage::Egg => 10,
            GrowthStage::Baby => 10,
            GrowthStage::Kid => 15,
            GrowthStage::Adult => 25,
        };
        Location::new(
            center.x.saturating_sub(sprite_width / 2),
            center.y.saturating_sub(sprite_width / 2),
        )
    }

    /// Makes the motion generator suit the stage of the pet.
    fn update_friend_movement(&mut self, fixed: Option<(i32, i32)>, now: i64) -> (offsets: Ghost<
        (int, int),
    >)
        ensures
            final(self)@ == old(self)@.regrouped(offsets@.0, offsets@.1, now as int),
            fixed is Some ==> offsets@ == (fixed->Some_0.0 as int, fixed->Some_0.1 as int),
            fixed is None ==> in_spread(offsets@.0, offsets@.1),
    {
        proof {
            use_type_invariant(&self.setting);
        }
        let stage = self.game_state.friend().growth_stage();
        if self.previous_growth_stage != stage {
            let (movement, offsets) = Self::movement_for(
                stage,
                self.setting.playground,
                &self.setting.extents,
                fixed,
                now,
            );
            self.previous_growth_stage = stage;
            self.friend_movement = movement;
            offsets
        } else {
            let offsets = idle_offsets(fixed);
            offsets
        }
    }

    /// Looks after the popup: draws it while it runs, takes it away once it
    /// has stopped.
    fn show_popup(&mut self, now: i64) -> (scene: PopupScene)
        ensures
            final(self)@ == old(self)@.popup_shown(now as int),
            scene == old(self)@.popup_scene(now as int),
    {
        match self.popup_animation {
            Some(mut popup) => {
                if popup.is_running() {
                    let frame = popup.render(now);
                    self.popup_animation = Some(popup);
                    self.allow_inputs = false;
                    match frame {
                        Some(picture) => PopupScene::Picture(picture),
                        None => PopupScene::Empty,
                    }
                } else {
                    self.popup_animation = None;
                    self.allow_inputs = true;
                    PopupScene::Hidden
                }
            },
            None => PopupScene::Hidden,
        }
    }

    fn step(&mut self, fixed: Option<(i32, i32)>, now: i64) -> (done: (Tick, Ghost<(int, int)>))
        ensures
            final(self)@ == old(self)@.ticked(done.1@.0, done.1@.1, now as int),
            done.0 == old(self)@.tick_outcome(done.1@.0, done.1@.1, now as int),
            draws_pet_at(done.0, final(self)@.place()),
            fixed is Some ==> done.1@ == (fixed->Some_0.0 as int, fixed->Some_0.1 as int),
            fixed is None ==> in_spread(done.1@.0, done.1@.1),
    {
        self.game_state.update(now);
        if !*self.game_state.friend().alive() {
            return (Tick::PetDied, idle_offsets(fixed));
        }
        let offsets = self.update_friend_movement(fixed, now);
        let friend_location = if !self.game_state.friend().is_asleep() {
            self.friend_movement.next_position(now)
        } else {
            self.sleep_drawing_location()
        };
        let popup = self.show_popup(now);
        (Tick::Frame(Scene { friend_location, popup }), offsets)
    }

    /// One tick of the session at `now`. The game is advanced to `now`. If
    /// the pet has died by then, that is all, and a new pet is to be
    /// adopted. Else the motion generator is replaced if the pet has
    /// reached a new stage, the pet moves on unless it sleeps, and the popup
    /// is looked after. A bounce that begins with this tick sets out from a
    /// place picked at random.
    pub fn tick(&mut self, now: i64) -> (outcome: Tick)
        ensures
            exists|x_offset: int, y_offset: int|
                in_spread(x_offset, y_offset) && final(self)@ == old(self)@.ticked(
                    x_offset,
                    y_offset,
                    now as int,
                ) && outcome == old(self)@.tick_outcome(x_offset, y_offset, now as int),
            outcome is PetDied <==> !old(self)@.game.friend.updated(now as int).alive,
            draws_pet_at(outcome, final(self)@.place()),
    {
        let (outcome, offsets) = self.step(None, now);
        assert(in_spread(offsets@.0, offsets@.1) && self@ == old(self)@.ticked(
            offsets@.0,
            offsets@.1,
            now as int,
        ) && outcome == old(self)@.tick_outcome(offsets@.0, offsets@.1, now as int));
        outcome
    }

    /// One tick of the session at `now`, with a bounce, if one begins with
    /// this tick, that sets out at the given offsets.
    pub fn tick_with_offset(&mut self, x_offset: i32, y_offset: i32, now: i64) -> (outcome: Tick)
        ensures
            final(self)@ == old(self)@.ticked(x_offset as int, y_offset as int, now as int),
            outcome == old(self)@.tick_outcome(x_offset as int, y_offset as int, now as int),
            draws_pet_at(outcome, final(self)@.place()),
    {
        let (outcome, offsets) = self.step(Some((x_offset, y_offset)), now);
        outcome
    }

    /// Brings up the popup of `action` unless the statistic that the
    /// action raises stands at its maximum.
    fn set_animation(&mut self, action: UserAction, food: Food, now: i64)
        ensures
            final(self)@ == (SessionView {
                popup: match old(self)@.popup_for(action, food) {
                    Some(kind) => Some(PopupView::fresh(kind, now as int)),
                    None => old(self)@.popup,
                },
                ..old(self)@
            }),
    {
        let friend = self.game_state.friend();
        let kind = match action {
            UserAction::Eat => {
                if friend.food().is_max() {
                    None
                } else {
                    Some(PopupKind::Food(FoodAnimationFrames::of(food)))
                }
            },
            UserAction::Play => {
                if friend.joy().is_max() {
                    None
                } else {
                    Some(PopupKind::Joy)
                }
            },
            UserAction::Medicine => {
                if friend.health().is_max() {
                    None
                } else {
                    Some(PopupKind::Health)
                }
            },
            UserAction::Sleep => None,
        };
        match kind {
            Some(kind) => {
                let animation = AnimationWrapper::start(kind, now);
                self.popup_animation = Some(PopupAnimation::new(animation));
            },
            None => {},
        }
    }

    /// Passes `action` on to the pet at `now` if the pet admits it, with
    /// `food` as the dish if it is fed: a dead pet and an egg admit no
    /// action, and a sleeping pet admits only to be woken. The popup of the
    /// action comes up first.
    pub fn apply_action(&mut self, action: UserAction, food: Food, now: i64) -> (applied: bool)
        requires
            old(self)@.has_room_for(action, food),
        ensures
            final(self)@ == old(self)@.acted(action, food, now as int),
            applied == old(self)@.admits(action),
    {
        let is_awake = !self.game_state.friend().is_asleep();
        let is_not_egg = self.game_state.friend().growth_stage() != GrowthStage::Egg;
        let is_alive = *self.game_state.friend().alive();
        if !is_alive || !is_not_egg {
            return false;
        }
        match action {
            UserAction::Eat => {
                if is_awake {
                    self.set_animation(action, food, now);
                    self.game_state.friend_mut().eat(food);
                    true
                } else {
                    false
                }
            },
            UserAction::Play => {
                if is_awake {
                    self.set_animation(action, food, now);
                    self.game_state.friend_mut().play();
                    true
                } else {
                    false
                }
            },
            UserAction::Sleep => {
                self.game_state.friend_mut().toggle_sleep(now);
                true
            },
            UserAction::Medicine => {
                if is_awake {
                    self.set_animation(action, food, now);
                    self.game_state.friend_mut().take_medicine();
                    true
                } else {
                    false
                }
            },
        }
    }

    /// Takes `input` at `now`, with `food` as the dish in case the pet is
    /// fed. While a popup holds inputs off the input is dropped.
    pub fn handle_input_with(&mut self, input: Input, food: Food, now: i64) -> (reaction: Reaction)
        requires
            old(self)@.can_take(input, food),
        ensures
            final(self)@ == old(self)@.handled(input, food, now as int),
            reaction == old(self)@.reaction(input),
    {
        if !self.allow_inputs {
            return Reaction::Dropped;
        }
        match input {
            Input::Quit => {
                self.is_running = false;
                Reaction::Stopped
            },
            Input::MoveSelectionUp => Reaction::SelectPrevious,
            Input::MoveSelectionDown => Reaction::SelectNext,
            Input::ConfirmAction(action) => {
                if self.apply_action(action, food, now) {
                    Reaction::Applied(action)
                } else {
                    Reaction::Ignored(action)
                }
            },
        }
    }

    /// Takes `input` at `now`. If the pet is fed, the dish is picked at
    /// random.
    pub fn handle_inputs(&mut self, input: Input, now: i64) -> (reaction: Reaction)
        requires
            old(self)@.can_take_any(input),
        ensures
            exists|food: Food| final(self)@ == old(self)@.handled(input, food, now as int),
            reaction == old(self)@.reaction(input),
    {
        let food = Food::new_random();
        assert(old(self)@.can_take(input, food));
        let reaction = self.handle_input_with(input, food, now);
        assert(self@ == old(self)@.handled(input, food, now as int));
        reaction
    }

    /// Whether `input` can be taken without the health decay owed leaving
    /// what can be counted, whichever dish the pet is fed.
    pub fn can_take_input(&self, input: Input) -> (room: bool)
        ensures
            room == self@.can_take_any(input),
    {
        let friend = self.game_state.friend();
        let admitted = *friend.alive() && friend.growth_stage() != GrowthStage::Egg
            && !friend.is_asleep();
        let owed = friend.health_debit_ms();
        let room = match input {
            Input::ConfirmAction(UserAction::Eat) => !self.allow_inputs || !admitted || owed
                <= i64::MAX - MAX_ACTION_DEBT_MS,
            Input::ConfirmAction(UserAction::Play) => !self.allow_inputs || !admitted || owed
                <= i64::MAX - PLAY_HEALTH_DEBT_MS,
            _ => true,
        };
        proof {
            if room {
                assert forall|food: Food| self@.can_take(input, food) by {}
            } else {
                assert(!self@.can_take(input, Food::Burger));
            }
        }
        room
    }

    /// One tick of the session at the present time.
    pub fn tick_now(&mut self) -> (outcome: Tick)
        ensures
            exists|x_offset: int, y_offset: int, now: int|
                in_spread(x_offset, y_offset) && i64::MIN <= now <= i64::MAX && final(self)@ == old(
                    self,
                )@.ticked(x_offset, y_offset, now) && outcome == old(self)@.tick_outcome(
                    x_offset,
                    y_offset,
                    now,
                ),
            draws_pet_at(outcome, final(self)@.place()),
    {
        let now = wall_clock_millis();
        let (outcome, offsets) = self.step(None, now);
        assert(in_spread(offsets@.0, offsets@.1) && i64::MIN <= now <= i64::MAX && self@ == old(
            self,
        )@.ticked(offsets@.0, offsets@.1, now as int) && outcome == old(self)@.tick_outcome(
            offsets@.0,
            offsets@.1,
            now as int,
        ));
        outcome
    }

    /// Takes `input` at the present time. If the pet is fed, the dish is
    /// picked at random.
    pub fn handle_inputs_now(&mut self, input: Input) -> (reaction: Reaction)
        requires
            old(self)@.can_take_any(input),
        ensures
            exists|food: Food, now: int|
                i64::MIN <= now <= i64::MAX && final(self)@ == old(self)@.handled(input, food, now),
            reaction == old(self)@.reaction(input),
    {
        let now = wall_clock_millis();
        let food = Food::new_random();
        assert(old(self)@.can_take(input, food));
        let reaction = self.handle_input_with(input, food, now);
        assert(i64::MIN <= now <= i64::MAX && self@ == old(self)@.handled(input, food, now as int));
        reaction
    }

    /// Puts `friend` in the place of the present pet at `now`. The game
    /// starts over with it. `extents` is the room that its sprites take;
    /// those of a kid and of an adult must fit into the playground. The
    /// popup and the hold on inputs stay as they are.
    pub fn adopt(&mut self, friend: Friend, extents: SpriteExtents, now: i64)
        requires
            extents.spec_fit(old(self)@.playground),
        ensures
            exists|x_offset: int, y_offset: int|
                in_spread(x_offset, y_offset) && final(self)@ == old(self)@.adopted(
                    friend@,
                    extents,
                    x_offset,
                    y_offset,
                    now as int,
                ),
    {
        let offsets = self.adopt_inner(friend, extents, None, now);
        assert(in_spread(offsets@.0, offsets@.1) && self@ == old(self)@.adopted(
            friend@,
            extents,
            offsets@.0,
            offsets@.1,
            now as int,
        ));
    }

    fn adopt_inner(
        &mut self,
        friend: Friend,
        extents: SpriteExtents,
        fixed: Option<(i32, i32)>,
        now: i64,
    ) -> (offsets: Ghost<(int, int)>)
        requires
            extents.spec_fit(old(self)@.playground),
        ensures
            final(self)@ == old(self)@.adopted(
                friend@,
                extents,
                offsets@.0,
                offsets@.1,
                now as int,
            ),
            fixed is Some ==> offsets@ == (fixed->Some_0.0 as int, fixed->Some_0.1 as int),
            fixed is None ==> in_spread(offsets@.0, offsets@.1),
    {
        let stage = friend.growth_stage();
        let playground = self.setting.playground;
        let (movement, offsets) = Self::movement_for(stage, playground, &extents, fixed, now);
        self.game_state = GameState::new(friend, now);
        self.previous_growth_stage = stage;
        self.friend_movement = movement;
        self.setting = Setting::new(playground, extents);
        offsets
    }

    /// Advances the game to the present time and hands out what is to be
    /// stored.
    pub fn save_game_now(&mut self) -> (record: GameStateRecord)
        ensures
            exists|now: int| i64::MIN <= now <= i64::MAX && final(self)@ == old(self)@.aged(now),
            record.described() == final(self)@.game,
            record.friend.defect() is None,
            record.friend.asleep == final(self)@.game.friend.asleep(),
    {
        let now = wall_clock_millis();
        let record = self.game_state.store(now);
        assert(i64::MIN <= now <= i64::MAX && self@ == old(self)@.aged(now as int));
        record
    }

    /// Advances the game to `now` and hands out what is to be stored.
    pub fn save_game(&mut self, now: i64) -> (record: GameStateRecord)
        ensures
            final(self)@ == old(self)@.aged(now as int),
            record.described() == final(self)@.game,
            record.friend.defect() is None,
            record.friend.asleep == final(self)@.game.friend.asleep(),
    {
        self.game_state.store(now)
    }
}

/// The offsets that stand for a bounce that did not begin: the given ones
/// or, where none are given, none at all.
fn idle_offsets(fixed: Option<(i32, i32)>) -> (offsets: Ghost<(int, int)>)
    ensures
        fixed is Some ==> offsets@ == (fixed->Some_0.0 as int, fixed->Some_0.1 as int),
        fixed is None ==> offsets@ == (0int, 0int),
{
    Ghost(
        match fixed {
            Some(given) => (given.0 as int, given.1 as int),
            None => (0int, 0int),
        },
    )
}

} // verus!
