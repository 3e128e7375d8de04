//! The closed set of abstract commands the engine consumes; the input
//! adapter translates platform events into these.

use vstd::prelude::*;

verus! {

#[derive(Clone, Copy, Debug, PartialEq, Eq, Structural)]
pub enum GameEvent {
    Quit,
    SpeedUp,
    SpeedDown,
    SpawnRandom,
    ClearBoard,
    StartStop,
    ScreenUp,
    ScreenDown,
    ScreenLeft,
    ScreenRight,
    ZoomOut,
    ZoomIn,
    SwapBlock,
}

} // verus!
