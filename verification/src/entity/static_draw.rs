//! Construction of static drawables, including the in-world score board.

use vstd::prelude::*;

verus! {

use crate::component::Entity;
use crate::component::StaticDraw;
use crate::component::WorldTrans;
use crate::graphics::primitives::Primitive;
use crate::graphics::primitives::GROUP_COUNTER_SIZE;
use crate::vec3::in_bounds;
use crate::vec3::lemma_mul_bound;
use crate::vec3::V3;
use crate::world::World;

/// Spawns one static drawable: a fresh entity whose drawable owns the
/// primitive's first erasure group and the given world transform.
pub fn create_static_draw_w(
    world: &mut World,
    pos: V3,
    rotation: V3,
    scale: i64,
    primitive: Primitive,
    hook_links: usize,
) -> (e: Entity)
    requires
        old(world).wf(),
        old(world).n() < usize::MAX,
        hook_links <= 256,
        primitive.spec_groups_size(hook_links) >= 1,
        old(world).group_counter.counter >= 1,
        old(world).group_counter.counter + primitive.spec_groups_size(hook_links)
            <= GROUP_COUNTER_SIZE,
    ensures
        final(world).wf(),
        e == old(world).n(),
        final(world).n() == old(world).n() + 1,
        final(world).alive@[e as int],
        final(world).static_draws@[e as int] == Some(
            StaticDraw {
                group: old(world).group_counter.counter as u32,
                world_trans: WorldTrans { translation: pos, rotation, scale },
            },
        ),
        forall|i: int|
            0 <= i < old(world).n() ==> #[trigger] final(world).static_draws@[i] == old(
                world,
            ).static_draws@[i],
        final(world).group_counter.counter == old(world).group_counter.counter
            + primitive.spec_groups_size(hook_links),
        final(world).group_counter.unerasable_counter == old(
            world,
        ).group_counter.unerasable_counter,
        final(world).save == old(world).save,
        final(world).audio == old(world).audio,
        final(world).game_duration == old(world).game_duration,
        final(world).level_actions == old(world).level_actions,
{
    let e = world.create_entity();
    let (_idx, groups) = primitive.instantiate(&mut world.group_counter, hook_links);
    let group = groups[0] as u32;
    StaticDraw::add(world, e, group, WorldTrans { translation: pos, rotation, scale });
    e
}

/// The glyph and grid offset of each cell of the score board: two header
/// labels, then eleven rows of two eight-glyph duration slots (best scores in
/// the left column, last scores in the right), each slot shaped `__:__:__`.
pub open spec fn score_cell(k: int) -> (Primitive, int, int) {
    if k == 0 {
        (Primitive::TextBestScores, 0int, 0int)
    } else if k == 1 {
        (Primitive::TextLastScores, 40int, 0int)
    } else {
        let row = 1 + (k - 2) / 16;
        let j = (k - 2) % 16;
        let col = j % 8;
        let base = if j < 8 {
            4int
        } else {
            44int
        };
        let prim = if col == 2 || col == 5 {
            Primitive::TextColon
        } else {
            Primitive::TextUnderScore
        };
        (prim, col * 3 + base, -(row * 6))
    }
}

/// How many cells the score board has.
pub const SCORE_CELLS: usize = 178;

/// Builds the score board's glyph layout: each entry is a glyph with its
/// horizontal and vertical grid offset, exactly as [`score_cell`] states.
pub fn score_layout() -> (r: Vec<(Primitive, i64, i64)>)
    ensures
        r@.len() == SCORE_CELLS,
        forall|k: int|
            0 <= k < SCORE_CELLS ==> {
                let cell = score_cell(k);
                &&& (#[trigger] r@[k]).0 == cell.0
                &&& r@[k].1 == cell.1
                &&& r@[k].2 == cell.2
            },
{
    let mut r: Vec<(Primitive, i64, i64)> = Vec::new();
    r.push((Primitive::TextBestScores, 0, 0));
    r.push((Primitive::TextLastScores, 40, 0));
    let mut row: usize = 1;
    while row < 12
        invariant
            1 <= row <= 12,
            r@.len() == 2 + (row - 1) * 16,
            forall|k: int|
                0 <= k < r@.len() ==> {
                    let cell = score_cell(k);
                    &&& (#[trigger] r@[k]).0 == cell.0
                    &&& r@[k].1 == cell.1
                    &&& r@[k].2 == cell.2
                },
        decreases 12 - row,
    {
        let mut j: usize = 0;
        while j < 16
            invariant
                1 <= row < 12,
                j <= 16,
                r@.len() == 2 + (row - 1) * 16 + j,
                forall|k: int|
                    0 <= k < r@.len() ==> {
                        let cell = score_cell(k);
                        &&& (#[trigger] r@[k]).0 == cell.0
                        &&& r@[k].1 == cell.1
                        &&& r@[k].2 == cell.2
                    },
            decreases 16 - j,
        {
            let col = if j < 8 {
                j
            } else {
                j - 8
            };
            let base: i64 = if j < 8 {
                4
            } else {
                44
            };
            let prim = if col == 2 || col == 5 {
                Primitive::TextColon
            } else {
                Primitive::TextUnderScore
            };
            let dx = col as i64 * 3 + base;
            let dy = -(row as i64 * 6);
            proof {
                let k = r@.len() as int;
                vstd::arithmetic::div_mod::lemma_fundamental_div_mod_converse(
                    k - 2,
                    16,
                    row as int - 1,
                    j as int,
                );
            }
            r.push((prim, dx, dy));
            j = j + 1;
        }
        row = row + 1;
    }
    r
}

/// Spawns the whole score board around `pos`: one static drawable per layout
/// cell, offsets scaled by the glyph spacing, groups assigned in layout
/// order.
pub fn draw_score(
    world: &mut World,
    pos: V3,
    rotation: V3,
    spacing: i64,
    scale: i64,
    hook_links: usize,
)
    requires
        old(world).wf(),
        old(world).n() + SCORE_CELLS < usize::MAX,
        in_bounds(pos, 0x80000000000),
        0 <= spacing <= 0x100000,
        hook_links <= 256,
        old(world).group_counter.counter >= 1,
        old(world).group_counter.counter + SCORE_CELLS <= GROUP_COUNTER_SIZE,
    ensures
        final(world).wf(),
        final(world).n() == old(world).n() + SCORE_CELLS,
        final(world).group_counter.counter == old(world).group_counter.counter + SCORE_CELLS,
        forall|k: int|
            0 <= k < SCORE_CELLS ==> {
                let cell = score_cell(k);
                #[trigger] final(world).static_draws@[old(world).n() + k] == Some(
                    StaticDraw {
                        group: (old(world).group_counter.counter + k) as u32,
                        world_trans: WorldTrans {
                            translation: V3 {
                                x: (pos.x + cell.1 * spacing) as i64,
                                y: (pos.y + cell.2 * spacing) as i64,
                                z: pos.z,
                            },
                            rotation,
                        scale,
                        },
                    },
                )
            },
        final(world).save == old(world).save,
        final(world).audio == old(world).audio,
        final(world).game_duration == old(world).game_duration,
        final(world).level_actions == old(world).level_actions,
{
    let layout = score_layout();
    let mut k: usize = 0;
    while k < SCORE_CELLS
        invariant
            old(world).wf(),
            layout@.len() == SCORE_CELLS,
            forall|i: int|
                0 <= i < SCORE_CELLS ==> {
                    let cell = score_cell(i);
                    &&& (#[trigger] layout@[i]).0 == cell.0
                    &&& layout@[i].1 == cell.1
                    &&& layout@[i].2 == cell.2
                },
            k <= SCORE_CELLS,
            world.wf(),
            world.n() == old(world).n() + k,
            old(world).n() + SCORE_CELLS < usize::MAX,
            in_bounds(pos, 0x80000000000),
            0 <= spacing <= 0x100000,
            hook_links <= 256,
            old(world).group_counter.counter >= 1,
            old(world).group_counter.counter + SCORE_CELLS <= GROUP_COUNTER_SIZE,
            world.group_counter.counter == old(world).group_counter.counter + k,
            forall|i: int|
                0 <= i < k ==> {
                    let cell = score_cell(i);
                    #[trigger] world.static_draws@[old(world).n() + i] == Some(
                        StaticDraw {
                            group: (old(world).group_counter.counter + i) as u32,
                            world_trans: WorldTrans {
                                translation: V3 {
                                    x: (pos.x + cell.1 * spacing) as i64,
                                    y: (pos.y + cell.2 * spacing) as i64,
                                    z: pos.z,
                                },
                                rotation,
                                scale,
                            },
                        },
                    )
                },
            world.save == old(world).save,
            world.audio == old(world).audio,
            world.game_duration == old(world).game_duration,
            world.level_actions == old(world).level_actions,
        decreases SCORE_CELLS - k,
    {
        let (prim, dx, dy) = layout[k];
        proof {
            assert(score_cell(k as int).1 == dx && score_cell(k as int).2 == dy);
            assert(0 <= dx <= 65 && -66 <= dy <= 0) by {
                if k >= 2 {
                    let kk = k as int;
                    assert(0 <= (kk - 2) % 16 < 16);
                    assert(1 <= 1 + (kk - 2) / 16 < 12) by {
                        assert((kk - 2) / 16 < 11) by {
                            vstd::arithmetic::div_mod::lemma_div_is_ordered(
                                kk - 2,
                                175,
                                16,
                            );
                        }
                        vstd::arithmetic::div_mod::lemma_div_pos_is_pos(kk - 2, 16);
                    }
                }
            }
        }
        proof {
            lemma_mul_bound(dx as int, 65, spacing as int, 0x100000);
            lemma_mul_bound(dy as int, 66, spacing as int, 0x100000);
        }
        let glyph_pos = V3 { x: pos.x + dx * spacing, y: pos.y + dy * spacing, z: pos.z };
        let e = create_static_draw_w(world, glyph_pos, rotation, scale, prim, hook_links);
        k = k + 1;
    }
}

} // verus!
