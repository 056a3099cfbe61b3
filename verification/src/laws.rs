//! Laws of the extraction pipeline that relate several functions.

use vstd::prelude::*;

use crate::builder::LyonPathBuilder;
use crate::into_fill_stroke::mesh_at;
use crate::into_fill_stroke::mesh_rows;
use crate::into_fill_stroke::mesh_rows_of;
use crate::into_fill_stroke::mesh_rows_upto;
use crate::into_fill_stroke::next_tri_offset;
use crate::into_path::PathPoint;
use crate::into_path::emitted;
use crate::into_path::layer_rows;
use crate::into_path::path_rows_of;
use crate::into_path::rows_first_layers;
use crate::into_path::tag_at;
use crate::sink::PathEventData;

verus! {

/// The later layers only append rows: the rows of the first layer stand
/// unchanged at the front, whatever comes after.
proof fn lemma_rows_prefix(b: LyonPathBuilder, l: int)
    requires
        1 <= l,
    ensures
        rows_first_layers(b, l).len() >= rows_first_layers(b, 1).len(),
        forall|i: int|
            0 <= i < rows_first_layers(b, 1).len() ==> rows_first_layers(b, l)[i]
                == rows_first_layers(b, 1)[i],
    decreases l,
{
    if l > 1 {
        lemma_rows_prefix(b, l - 1);
    }
}

/// The first row of a point-sequence extraction: when the first layer's
/// built path opens with a `Begin` event, the first emitted row is that
/// event's starting point, tagged with the first sub-path begun in that
/// layer. Together with the builder's contracts, the starting point is
/// the glyph's path-local origin mapped through the pen transform that
/// was current when the glyph arrived — for a fresh accumulator, a pure
/// scaling by the face-height reciprocal.
pub proof fn lemma_first_path_point(b: LyonPathBuilder)
    requires
        b.wf(),
        b.builders@[0].built().len() > 0,
        b.builders@[0].built()[0] is Begin,
    ensures
        path_rows_of(b).len() > 0,
        path_rows_of(b)[0] == (PathPoint {
            at: b.builders@[0].built()[0]->Begin_at,
            glyph_id: tag_at(b.begin_tags@[0]@, 0).glyph_id,
            path_id: tag_at(b.begin_tags@[0]@, 0).path_id,
        }),
{
    let evs = b.builders@[0].built();
    let tags = b.begin_tags@[0]@;
    assert(layer_rows(evs, tags, 0) == emitted(evs.first(), tags, 0) + layer_rows(
        evs.drop_first(),
        tags,
        1,
    ));
    assert(emitted(evs.first(), tags, 0)[0] == (PathPoint {
        at: evs[0]->Begin_at,
        glyph_id: tag_at(tags, 0).glyph_id,
        path_id: tag_at(tags, 0).path_id,
    }));
    assert(rows_first_layers(b, 1) == rows_first_layers(b, 0) + layer_rows(evs, tags, 0));
    assert(rows_first_layers(b, 1)[0] == layer_rows(evs, tags, 0)[0]);
    let n = b.builders@.len() as int;
    lemma_rows_prefix(b, n);
    assert(path_rows_of(b)[0] == rows_first_layers(b, 1)[0]);
}

/// Triangle ids of a mesh extraction, over the first `l` layers: when
/// every tessellated layer hands back indices in whole triangles (three
/// indices each, as the tessellator does), every three consecutive rows
/// share one triangle id, the ids are contiguous from zero, and they
/// never repeat across layers — row `n` always belongs to triangle
/// `n / 3`.
proof fn lemma_mesh_triangle_ids_upto(b: LyonPathBuilder, stroke: bool, l: int)
    requires
        forall|j: int|
            0 <= j < l && (#[trigger] mesh_at(b, j, stroke)) is Some ==> mesh_at(
                b,
                j,
                stroke,
            )->Some_0.1.len() % 3 == 0,
    ensures
        mesh_rows_upto(b, stroke, l) matches Some(acc) ==> {
            &&& acc.0.len() % 3 == 0
            &&& (forall|n: int|
                0 <= n < acc.0.len() ==> (#[trigger] acc.0[n]).triangle_id == n / 3)
            &&& next_tri_offset(acc.0) == acc.0.len() / 3
        },
    decreases l,
{
    if l > 0 {
        lemma_mesh_triangle_ids_upto(b, stroke, l - 1);
        if mesh_rows_upto(b, stroke, l) is Some {
            let acc = mesh_rows_upto(b, stroke, l - 1)->Some_0;
            let m = mesh_at(b, l - 1, stroke)->Some_0;
            let prior = acc.0.len() as int;
            let added = m.1.len() as int;
            let offset = next_tri_offset(acc.0);
            let acc2 = mesh_rows_upto(b, stroke, l)->Some_0;
            assert(offset == prior / 3);
            assert(added % 3 == 0);
            assert forall|n: int| 0 <= n < acc2.0.len() implies (#[trigger] acc2.0[n]).triangle_id
                == n / 3 by {
                if n < prior {
                    assert(acc2.0[n] == acc.0[n]);
                } else {
                    let j = n - prior;
                    assert(acc2.0[n] == mesh_rows(m.0, m.1, crate::into_fill_stroke::mesh_glyph_of(b, l - 1), offset)[j]);
                    assert(acc2.0[n].triangle_id == j / 3 + offset);
                    assert(j / 3 + prior / 3 == (j + prior) / 3) by (nonlinear_arith)
                        requires
                            prior % 3 == 0,
                            prior >= 0,
                            j >= 0,
                    ;
                }
            }
            assert((prior + added) % 3 == 0) by (nonlinear_arith)
                requires
                    prior % 3 == 0,
                    added % 3 == 0,
                    prior >= 0,
                    added >= 0,
            ;
            if added > 0 {
                assert(acc2.0.len() == prior + added);
                assert(acc2.0.last() == acc2.0[prior + added - 1]);
                assert(next_tri_offset(acc2.0) == (prior + added - 1) / 3 + 1);
                assert((prior + added - 1) / 3 + 1 == (prior + added) / 3) by (nonlinear_arith)
                    requires
                        (prior + added) % 3 == 0,
                        prior + added > 0,
                ;
            } else {
                assert(acc2.0 =~= acc.0);
            }
        }
    }
}

/// Triangle ids of a whole mesh extraction: when every tessellated layer
/// hands back indices in whole triangles, every three consecutive rows
/// share one triangle id, and the ids are contiguous from zero and never
/// repeat across layers — row `n` belongs to triangle `n / 3`.
pub proof fn lemma_mesh_triangle_ids(b: LyonPathBuilder, stroke: bool)
    requires
        forall|j: int|
            0 <= j < b.builders@.len() && (#[trigger] mesh_at(b, j, stroke)) is Some ==> mesh_at(
                b,
                j,
                stroke,
            )->Some_0.1.len() % 3 == 0,
    ensures
        mesh_rows_of(b, stroke) matches Some(acc) ==> {
            &&& acc.0.len() % 3 == 0
            &&& (forall|n: int|
                0 <= n < acc.0.len() ==> (#[trigger] acc.0[n]).triangle_id == n / 3)
        },
{
    lemma_mesh_triangle_ids_upto(b, stroke, b.builders@.len() as int);
}

} // verus!

