use vstd::prelude::*;

use crate::level_transition::Side;
use crate::text::text_eq;

verus! {

/// Where a player arriving through a transition marker is placed, given as
/// (x, y) coordinates of any kind.
pub open spec fn spec_placement<T>(align_origin: bool, marker: (T, T), player: (T, T), dir: Side) -> (T, T) {
    if align_origin {
        marker
    } else {
        match dir {
            Side::Left | Side::Right => (marker.0, player.1),
            Side::Top | Side::Bottom => (player.0, marker.1),
        }
    }
}

/// Where to put the player arriving at a marker: on the marker itself when
/// it aligns to its origin; otherwise the marker's coordinate across the
/// transition's side and the player's own coordinate along it.
pub fn get_offset<T: Copy>(align_origin: bool, marker: (T, T), player: (T, T), dir: Side) -> (r: (T, T))
    ensures
        r == spec_placement(align_origin, marker, player, dir),
{
    if align_origin {
        return marker;
    }
    match dir {
        Side::Left | Side::Right => (marker.0, player.1),
        Side::Top | Side::Bottom => (player.0, marker.1),
    }
}

/// Where to place the player when a new scene announces the transition
/// area `target_name`: only the marker named `own_name` answers.
pub fn on_new_scene_ready<T: Copy>(
    target_name: &str,
    own_name: &str,
    align_origin: bool,
    marker: (T, T),
    player: (T, T),
    dir: Side,
) -> (r: Option<(T, T)>)
    ensures
        target_name@ != own_name@ ==> r is None,
        target_name@ == own_name@ ==> r == Some(spec_placement(align_origin, marker, player, dir)),
{
    if !text_eq(target_name, own_name) {
        return None;
    }
    Some(get_offset(align_origin, marker, player, dir))
}

/// Where an arriving player is put: at the marker itself when aligning to
/// the origin; otherwise, through a side transition (left or right) at the
/// marker's x and the player's own height, and through a top or bottom
/// transition at the player's own x and the marker's height. Opposite sides
/// place alike.
pub proof fn lemma_placement_keeps_the_cross_axis<T>(
    align_origin: bool,
    marker: (T, T),
    player: (T, T),
    dir: Side,
)
    ensures
        align_origin ==> spec_placement(align_origin, marker, player, dir) == marker,
        !align_origin && (dir == Side::Left || dir == Side::Right) ==> spec_placement(
            align_origin,
            marker,
            player,
            dir,
        ) == (marker.0, player.1),
        !align_origin && (dir == Side::Top || dir == Side::Bottom) ==> spec_placement(
            align_origin,
            marker,
            player,
            dir,
        ) == (player.0, marker.1),
        spec_placement(align_origin, marker, player, dir) == spec_placement(
            align_origin,
            marker,
            player,
            dir.spec_opposite(),
        ),
{
}

} // verus!
