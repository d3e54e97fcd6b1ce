use vstd::prelude::*;

use crate::geometry::{clip, ClipRect};

verus! {

/// Frames of the sprite sheet: otter swimming down.
pub open spec fn otter_down_frames() -> Seq<ClipRect> {
    seq![
        clip(215, 0, 33, 32),
        clip(248, 0, 32, 32),
    ]
}

/// Otter swimming down.
pub fn otter_clips_down() -> (r: Vec<ClipRect>)
    ensures
        r@ == otter_down_frames(),
{
    let r = vec![
        ClipRect { x: 215, y: 0, w: 33, h: 32 },
        ClipRect { x: 248, y: 0, w: 32, h: 32 },
    ];
    assert(r@ =~= otter_down_frames());
    r
}

/// Frames of the sprite sheet: otter swimming up.
pub open spec fn otter_up_frames() -> Seq<ClipRect> {
    seq![
        clip(411, 0, 32, 32),
        clip(411, 0, 32, 32),
    ]
}

/// Otter swimming up.
pub fn otter_clips_up() -> (r: Vec<ClipRect>)
    ensures
        r@ == otter_up_frames(),
{
    let r = vec![
        ClipRect { x: 411, y: 0, w: 32, h: 32 },
        ClipRect { x: 411, y: 0, w: 32, h: 32 },
    ];
    assert(r@ =~= otter_up_frames());
    r
}

/// Frames of the sprite sheet: otter walking on the sea floor.
pub open spec fn otter_walk_frames() -> Seq<ClipRect> {
    seq![
        clip(312, 0, 33, 32),
        clip(345, 0, 33, 32),
    ]
}

/// Otter walking on the sea floor.
pub fn otter_clips_walk() -> (r: Vec<ClipRect>)
    ensures
        r@ == otter_walk_frames(),
{
    let r = vec![
        ClipRect { x: 312, y: 0, w: 33, h: 32 },
        ClipRect { x: 345, y: 0, w: 33, h: 32 },
    ];
    assert(r@ =~= otter_walk_frames());
    r
}

/// Frames of the sprite sheet: invincible otter rolling.
pub open spec fn otter_roll_frames() -> Seq<ClipRect> {
    seq![
        clip(64, 0, 33, 32),
        clip(97, 0, 26, 32),
        clip(123, 0, 33, 32),
        clip(156, 0, 26, 32),
    ]
}

/// Invincible otter rolling.
pub fn otter_clips_roll() -> (r: Vec<ClipRect>)
    ensures
        r@ == otter_roll_frames(),
{
    let r = vec![
        ClipRect { x: 64, y: 0, w: 33, h: 32 },
        ClipRect { x: 97, y: 0, w: 26, h: 32 },
        ClipRect { x: 123, y: 0, w: 33, h: 32 },
        ClipRect { x: 156, y: 0, w: 26, h: 32 },
    ];
    assert(r@ =~= otter_roll_frames());
    r
}

/// Frames of the sprite sheet: missile in flight.
pub open spec fn missile_shoot_frames() -> Seq<ClipRect> {
    seq![
        clip(13, 16, 33, 8),
        clip(58, 16, 32, 8),
    ]
}

/// Missile in flight.
pub fn missile_clips_shoot() -> (r: Vec<ClipRect>)
    ensures
        r@ == missile_shoot_frames(),
{
    let r = vec![
        ClipRect { x: 13, y: 16, w: 33, h: 8 },
        ClipRect { x: 58, y: 16, w: 32, h: 8 },
    ];
    assert(r@ =~= missile_shoot_frames());
    r
}

/// Frames of the sprite sheet: missile explosion; the last frame is an invisible 1x1 placeholder.
pub open spec fn missile_explode_frames() -> Seq<ClipRect> {
    seq![
        clip(49, 67, 35, 28),
        clip(148, 57, 52, 42),
        clip(236, 24, 92, 78),
        clip(334, 24, 105, 78),
        clip(458, 32, 80, 70),
        clip(568, 41, 76, 61),
        clip(28, 124, 73, 62),
        clip(137, 124, 74, 62),
        clip(242, 117, 78, 69),
        clip(349, 117, 81, 70),
        clip(459, 117, 79, 69),
        clip(567, 117, 77, 69),
        clip(13, 16, 1, 1),
    ]
}

/// Missile explosion; the last frame is an invisible 1x1 placeholder.
pub fn missile_clips_explode() -> (r: Vec<ClipRect>)
    ensures
        r@ == missile_explode_frames(),
{
    let r = vec![
        ClipRect { x: 49, y: 67, w: 35, h: 28 },
        ClipRect { x: 148, y: 57, w: 52, h: 42 },
        ClipRect { x: 236, y: 24, w: 92, h: 78 },
        ClipRect { x: 334, y: 24, w: 105, h: 78 },
        ClipRect { x: 458, y: 32, w: 80, h: 70 },
        ClipRect { x: 568, y: 41, w: 76, h: 61 },
        ClipRect { x: 28, y: 124, w: 73, h: 62 },
        ClipRect { x: 137, y: 124, w: 74, h: 62 },
        ClipRect { x: 242, y: 117, w: 78, h: 69 },
        ClipRect { x: 349, y: 117, w: 81, h: 70 },
        ClipRect { x: 459, y: 117, w: 79, h: 69 },
        ClipRect { x: 567, y: 117, w: 77, h: 69 },
        ClipRect { x: 13, y: 16, w: 1, h: 1 },
    ];
    assert(r@ =~= missile_explode_frames());
    r
}

/// Frames of the sprite sheet: spinning coin.
pub open spec fn coin_spin_frames() -> Seq<ClipRect> {
    seq![
        clip(6, 3, 14, 16),
        clip(23, 3, 12, 16),
        clip(38, 3, 11, 16),
        clip(52, 3, 9, 16),
        clip(65, 3, 4, 16),
        clip(73, 3, 9, 16),
        clip(85, 3, 11, 16),
        clip(99, 3, 12, 16),
        clip(114, 3, 14, 16),
        clip(130, 3, 16, 16),
    ]
}

/// Spinning coin.
pub fn coin_clips_spin() -> (r: Vec<ClipRect>)
    ensures
        r@ == coin_spin_frames(),
{
    let r = vec![
        ClipRect { x: 6, y: 3, w: 14, h: 16 },
        ClipRect { x: 23, y: 3, w: 12, h: 16 },
        ClipRect { x: 38, y: 3, w: 11, h: 16 },
        ClipRect { x: 52, y: 3, w: 9, h: 16 },
        ClipRect { x: 65, y: 3, w: 4, h: 16 },
        ClipRect { x: 73, y: 3, w: 9, h: 16 },
        ClipRect { x: 85, y: 3, w: 11, h: 16 },
        ClipRect { x: 99, y: 3, w: 12, h: 16 },
        ClipRect { x: 114, y: 3, w: 14, h: 16 },
        ClipRect { x: 130, y: 3, w: 16, h: 16 },
    ];
    assert(r@ =~= coin_spin_frames());
    r
}

/// Frames of the sprite sheet: swimming fish.
pub open spec fn fish_swim_frames() -> Seq<ClipRect> {
    seq![
        clip(281, 15, 31, 17),
        clip(241, 13, 30, 18),
        clip(323, 10, 30, 23),
        clip(405, 5, 30, 26),
        clip(364, 5, 30, 27),
    ]
}

/// Swimming fish.
pub fn fish_clips_swim() -> (r: Vec<ClipRect>)
    ensures
        r@ == fish_swim_frames(),
{
    let r = vec![
        ClipRect { x: 281, y: 15, w: 31, h: 17 },
        ClipRect { x: 241, y: 13, w: 30, h: 18 },
        ClipRect { x: 323, y: 10, w: 30, h: 23 },
        ClipRect { x: 405, y: 5, w: 30, h: 26 },
        ClipRect { x: 364, y: 5, w: 30, h: 27 },
    ];
    assert(r@ =~= fish_swim_frames());
    r
}

/// Frames of the sprite sheet: score digits 0 to 9, indexed by digit.
pub open spec fn number_frames() -> Seq<ClipRect> {
    seq![
        clip(287, 0, 21, 28),
        clip(0, 0, 20, 28),
        clip(30, 0, 24, 28),
        clip(62, 0, 23, 28),
        clip(93, 0, 26, 28),
        clip(126, 0, 25, 28),
        clip(157, 0, 26, 28),
        clip(189, 0, 26, 28),
        clip(221, 0, 26, 28),
        clip(253, 0, 26, 28),
    ]
}

/// Score digits 0 to 9, indexed by digit.
pub fn number_clips() -> (r: Vec<ClipRect>)
    ensures
        r@ == number_frames(),
{
    let r = vec![
        ClipRect { x: 287, y: 0, w: 21, h: 28 },
        ClipRect { x: 0, y: 0, w: 20, h: 28 },
        ClipRect { x: 30, y: 0, w: 24, h: 28 },
        ClipRect { x: 62, y: 0, w: 23, h: 28 },
        ClipRect { x: 93, y: 0, w: 26, h: 28 },
        ClipRect { x: 126, y: 0, w: 25, h: 28 },
        ClipRect { x: 157, y: 0, w: 26, h: 28 },
        ClipRect { x: 189, y: 0, w: 26, h: 28 },
        ClipRect { x: 221, y: 0, w: 26, h: 28 },
        ClipRect { x: 253, y: 0, w: 26, h: 28 },
    ];
    assert(r@ =~= number_frames());
    r
}

} // verus!
