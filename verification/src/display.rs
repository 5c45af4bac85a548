//! What is shown of a pet's statistics: how many symbols, where, and in
//! which shade.

use crate::creatures::StatShape;
use crate::friend::Friend;
use crate::stat::Stat;
use vstd::prelude::*;

verus! {

/// The side of a statistic's symbol.
pub const STAT_SHAPE_WIDTH: u8 = 10;

/// The room left between two rows of symbols.
pub const STAT_ROW_GAP: u8 = 2;

/// The height of the area in which the symbols are drawn.
pub const STATS_AREA_HEIGHT: u16 = 100;

/// The most symbols that stand for one statistic.
pub const MAX_SYMBOLS: u8 = 3;

/// The number of symbols that stand for a statistic that holds `value`:
/// none at 0, one up to a third, two up to two thirds, three above.
pub open spec fn symbols_for(value: int) -> int {
    if value == 0 {
        0
    } else if value <= 33 {
        1
    } else if value <= 66 {
        2
    } else {
        3
    }
}

/// The row in which the symbols of a statistic are drawn, counted from the
/// top.
pub open spec fn row_of(shape: StatShape) -> int {
    match shape {
        StatShape::Food => 0,
        StatShape::Joy => 1,
        StatShape::Sleep => 2,
        StatShape::Health => 3,
    }
}

/// By how much the `index`-th symbol of a statistic is moved from the
/// corner of the area: to the right by one symbol's width for each symbol
/// before it, and up to its row.
pub open spec fn symbol_offset(shape: StatShape, index: int) -> (i32, i32) {
    (
        (index * STAT_SHAPE_WIDTH) as i32,
        (STATS_AREA_HEIGHT - row_of(shape) * (STAT_SHAPE_WIDTH + STAT_ROW_GAP)
            - STAT_SHAPE_WIDTH) as i32,
    )
}

/// One symbol to draw: which, and by how much it is moved from the corner
/// of the area.
#[derive(Debug, Copy, Clone, PartialEq, Eq, Structural)]
pub struct SymbolPlacement {
    pub shape: StatShape,
    pub x_move: i32,
    pub y_move: i32,
}

/// The symbols that `count` of the kind `shape` come to, from left to
/// right.
pub open spec fn row_of_symbols(shape: StatShape, count: int) -> Seq<SymbolPlacement> {
    Seq::new(
        count as nat,
        |index: int|
            SymbolPlacement {
                shape,
                x_move: symbol_offset(shape, index).0,
                y_move: symbol_offset(shape, index).1,
            },
    )
}

/// A pet's statistics as rows of symbols.
pub struct StatsWidget<'a> {
    friend: &'a Friend,
}

impl<'a> StatsWidget<'a> {
    /// The pet whose statistics are shown.
    pub closed spec fn friend(self) -> &'a Friend {
        self.friend
    }

    pub fn new(friend: &'a Friend) -> (widget: StatsWidget<'a>)
        ensures
            widget.friend() == friend,
    {
        StatsWidget { friend }
    }

    /// The number of symbols that stand for `stat`.
    pub fn calc_required_symbols(stat: &Stat) -> (count: u8)
        ensures
            count == symbols_for(stat@),
            count <= MAX_SYMBOLS,
    {
        let value = stat.value();
        if value == 0 {
            0
        } else if value <= 33 {
            1
        } else if value <= 66 {
            2
        } else {
            3
        }
    }

    /// The symbols to draw for `stat`, from left to right.
    pub fn draw_stat(shape: StatShape, stat: &Stat) -> (symbols: Vec<SymbolPlacement>)
        ensures
            symbols@ == row_of_symbols(shape, symbols_for(stat@)),
    {
        let count = Self::calc_required_symbols(stat);
        let draw_row: u8 = match shape {
            StatShape::Food => 0,
            StatShape::Joy => 1,
            StatShape::Sleep => 2,
            StatShape::Health => 3,
        };
        let mut symbols: Vec<SymbolPlacement> = Vec::new();
        let mut i: u8 = 0;
        while i < count
            invariant
                i <= count <= MAX_SYMBOLS,
                draw_row == row_of(shape),
                symbols@ == row_of_symbols(shape, i as int),
            decreases count - i,
        {
            let y_move: u16 = STATS_AREA_HEIGHT - (draw_row * (STAT_SHAPE_WIDTH + STAT_ROW_GAP))
                as u16 - STAT_SHAPE_WIDTH as u16;
            symbols.push(
                SymbolPlacement {
                    shape,
                    x_move: (i * STAT_SHAPE_WIDTH) as i32,
                    y_move: y_move as i32,
                },
            );
            i = i + 1;
            assert(symbols@ =~= row_of_symbols(shape, i as int));
        }
        symbols
    }

    /// All the symbols to draw: the rows of food, joy, energy and health,
    /// one after the other.
    pub fn render_stats(&self) -> (symbols: Vec<SymbolPlacement>)
        ensures
            symbols@ == row_of_symbols(StatShape::Food, symbols_for(self.friend()@.food))
                + row_of_symbols(StatShape::Joy, symbols_for(self.friend()@.joy))
                + row_of_symbols(StatShape::Sleep, symbols_for(self.friend()@.energy))
                + row_of_symbols(StatShape::Health, symbols_for(self.friend()@.health)),
    {
        let mut symbols = Self::draw_stat(StatShape::Food, self.friend.food());
        let mut joy = Self::draw_stat(StatShape::Joy, self.friend.joy());
        let mut energy = Self::draw_stat(StatShape::Sleep, self.friend.energy());
        let mut health = Self::draw_stat(StatShape::Health, self.friend.health());
        symbols.append(&mut joy);
        symbols.append(&mut energy);
        symbols.append(&mut health);
        symbols
    }
}

/// The green share of the shade that stands for a value: twice the value.
pub open spec fn green_of(value: int) -> int {
    value * 2
}

/// A bar of the chart of statistics: its label, its length, and the red,
/// green and blue of its shade.
#[derive(Debug, Copy, Clone, PartialEq, Eq)]
pub struct StatBar {
    pub label: &'static str,
    pub value: u64,
    pub rgb: (u8, u8, u8),
}

/// A pet's statistics as a chart of four bars.
pub struct StatsWidgetGenerator {
    bars: [StatBar; 4],
}

impl StatsWidgetGenerator {
    /// The shade that stands for `stat`: the higher the value, the less
    /// red and the more green.
    pub fn stat_style(stat: Stat) -> (rgb: (u8, u8, u8))
        ensures
            rgb.1 == green_of(stat@),
            rgb.0 == 200 - green_of(stat@),
            rgb.2 == 0,
    {
        let green: u8 = (stat.value() * 2) as u8;
        let red: u8 = 200 - green;
        (red, green, 0)
    }

    fn generate_stat_bar(stat_name: &'static str, stat: Stat) -> (bar: StatBar)
        ensures
            bar.label == stat_name,
            bar.value == stat@,
            bar.rgb == (((200 - green_of(stat@)) as u8, green_of(stat@) as u8, 0u8)),
    {
        StatBar { label: stat_name, value: stat.value() as u64, rgb: Self::stat_style(stat) }
    }

    pub fn new(friend: &Friend) -> (widget: StatsWidgetGenerator)
        ensures
            widget.bars().len() == 4,
            widget.bars()[0].label@ == "Food"@,
            widget.bars()[1].label@ == "Joy"@,
            widget.bars()[2].label@ == "Energy"@,
            widget.bars()[3].label@ == "Health"@,
            widget.bars()[0].value == friend@.food,
            widget.bars()[1].value == friend@.joy,
            widget.bars()[2].value == friend@.energy,
            widget.bars()[3].value == friend@.health,
            forall|i: int|
                0 <= i < 4 ==> (#[trigger] widget.bars()[i]).rgb == ((
                    (200 - green_of(widget.bars()[i].value as int)) as u8,
                    green_of(widget.bars()[i].value as int) as u8,
                    0u8,
                )),
    {
        StatsWidgetGenerator {
            bars: [
                Self::generate_stat_bar("Food", *friend.food()),
                Self::generate_stat_bar("Joy", *friend.joy()),
                Self::generate_stat_bar("Energy", *friend.energy()),
                Self::generate_stat_bar("Health", *friend.health()),
            ],
        }
    }

    /// The four bars, in the order food, joy, energy, health.
    pub closed spec fn bars(self) -> Seq<StatBar> {
        self.bars@
    }

    /// The four bars, in the order food, joy, energy, health.
    pub fn get_widget(&self) -> (bars: &[StatBar; 4])
        ensures
            bars@ == self.bars(),
    {
        &self.bars
    }
}

} // verus!
