use vstd::prelude::*;

use crate::geometry::ClipRect;

verus! {

/// Pose of the otter on the sprite sheet, with the region that shows it.
pub enum OtterState {
    Walking { source_rect: ClipRect },
    Falling { source_rect: ClipRect },
    Swimming { source_rect: ClipRect },
    Super { source_rect: ClipRect },
    Dead { source_rect: ClipRect },
}

impl OtterState {
    pub open spec fn source(self) -> ClipRect {
        match self {
            OtterState::Walking { source_rect } => source_rect,
            OtterState::Falling { source_rect } => source_rect,
            OtterState::Swimming { source_rect } => source_rect,
            OtterState::Super { source_rect } => source_rect,
            OtterState::Dead { source_rect } => source_rect,
        }
    }

    pub fn new_walking() -> (r: OtterState)
        ensures
            r == (OtterState::Walking { source_rect: ClipRect { x: 312, y: 0, w: 32, h: 32 } }),
    {
        OtterState::Walking { source_rect: ClipRect::new(312, 0, 32, 32) }
    }
}

/// The otter as the sprite renderer sees it: only its pose.
pub struct Otter {
    pub state: OtterState,
}

impl Otter {
    pub fn new() -> (r: Otter)
        ensures
            r.state == (OtterState::Walking { source_rect: ClipRect { x: 312, y: 0, w: 32, h: 32 } }),
    {
        Otter { state: OtterState::new_walking() }
    }

    pub fn get_source_rect(&self) -> (r: ClipRect)
        ensures
            r == self.state.source(),
    {
        match self.state {
            OtterState::Walking { source_rect } => source_rect,
            OtterState::Falling { source_rect } => source_rect,
            OtterState::Swimming { source_rect } => source_rect,
            OtterState::Super { source_rect } => source_rect,
            OtterState::Dead { source_rect } => source_rect,
        }
    }

    pub fn is_dead(&self) -> (r: bool)
        ensures
            r == self.state is Dead,
    {
        match self.state {
            OtterState::Dead { .. } => true,
            _ => false,
        }
    }

    pub fn is_super(&self) -> (r: bool)
        ensures
            r == self.state is Super,
    {
        match self.state {
            OtterState::Super { .. } => true,
            _ => false,
        }
    }
}

} // verus!
