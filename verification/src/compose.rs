//! The transform composer.

use vstd::prelude::*;

use bevy::ecs::entity::Entity;
use bevy::transform::components::GlobalTransform;

use crate::components::{ComputedTransform, IndependentTransform};
use crate::host::{
    affine_of, local_translation, local_translation_of, matrix_of, set_translation, to_affine,
    translation, translation_of, vec_add, vec_sum, with_translation,
};

verus! {

/// The computed transform of an entity with the independent transform
/// `independent` and the world transform `global`: the affine transform of
/// `independent`, moved to the translation of `independent` plus the
/// translation of `global`. Nothing else of `global` enters.
pub open spec fn composed(independent: IndependentTransform, global: GlobalTransform) -> ComputedTransform {
    ComputedTransform(
        with_translation(
            affine_of(independent.0),
            vec_sum(local_translation_of(independent.0), translation_of(global)),
        ),
    )
}

/// Whether `computed` has rotation and scale of `independent` and sits at the
/// translation of `independent` plus the translation of `global`: its matrix
/// is that of the independent transform's affine, its translation the sum of
/// the two translations.
pub open spec fn follows(
    computed: ComputedTransform,
    independent: IndependentTransform,
    global: GlobalTransform,
) -> bool {
    &&& matrix_of(computed.0) == matrix_of(affine_of(independent.0))
    &&& translation_of(computed.0) == vec_sum(
        local_translation_of(independent.0),
        translation_of(global),
    )
}

/// Composes the transform of one entity: rotation and scale of `independent`,
/// at the translation of `independent` plus the translation of `global`.
pub fn compose(independent: &IndependentTransform, global: &GlobalTransform) -> (computed: ComputedTransform)
    ensures
        computed == composed(*independent, *global),
        follows(computed, *independent, *global),
{
    let mut affine = to_affine(&independent.0);
    let at = vec_add(local_translation(&independent.0), translation(global));
    set_translation(&mut affine, at);
    ComputedTransform(affine)
}

/// The transforms of one entity. A component that the entity lacks is `None`.
#[derive(Clone, Copy, Debug)]
pub struct TransformRow {
    /// The entity.
    pub entity: Entity,
    /// Its independent transform.
    pub independent: Option<IndependentTransform>,
    /// The world transform that the scene graph propagated to it.
    pub global: Option<GlobalTransform>,
    /// Its computed transform.
    pub computed: Option<ComputedTransform>,
}

impl TransformRow {
    /// Whether the composer writes this entity's computed transform: the
    /// entity has an independent transform and a world transform.
    pub open spec fn qualifies(self) -> bool {
        self.independent is Some && self.global is Some
    }

    /// The row after one run of the composer. Where the entity qualifies, its
    /// computed transform is composed anew; otherwise nothing changes.
    pub open spec fn composed(self) -> TransformRow {
        if self.qualifies() {
            TransformRow {
                computed: Some(composed(self.independent->0, self.global->0)),
                ..self
            }
        } else {
            self
        }
    }
}

/// All rows after one run of the composer.
pub open spec fn composed_rows(rows: Seq<TransformRow>) -> Seq<TransformRow> {
    rows.map_values(|row: TransformRow| row.composed())
}

/// Runs the composer once: writes the computed transform of every entity that
/// has an independent transform and a world transform, and leaves every other
/// entity as it is. A transform that is written has rotation and scale of the
/// entity's independent transform, and sits at the translation of the
/// independent transform plus the translation of the world transform.
pub fn compute_transform(rows: &mut Vec<TransformRow>)
    ensures
        final(rows)@ == composed_rows(old(rows)@),
        forall|k: int|
            0 <= k < old(rows)@.len() && (#[trigger] old(rows)@[k]).qualifies() ==> {
                &&& final(rows)@[k].computed is Some
                &&& follows(
                    final(rows)@[k].computed->0,
                    old(rows)@[k].independent->0,
                    old(rows)@[k].global->0,
                )
            },
{
    let ghost before = rows@;
    let n = rows.len();
    let mut i: usize = 0;
    while i < n
        invariant
            n == before.len(),
            rows@.len() == n,
            i <= n,
            forall|k: int| 0 <= k < i ==> rows@[k] == (#[trigger] before[k]).composed(),
            forall|k: int|
                0 <= k < i && (#[trigger] before[k]).qualifies() ==> {
                    &&& rows@[k].computed is Some
                    &&& follows(
                        rows@[k].computed->0,
                        before[k].independent->0,
                        before[k].global->0,
                    )
                },
            forall|k: int| i <= k < n ==> rows@[k] == before[k],
        decreases n - i,
    {
        let row = rows[i];
        if let Some(independent) = row.independent {
            if let Some(global) = row.global {
                let computed = compose(&independent, &global);
                rows[i] = TransformRow { computed: Some(computed), ..row };
            }
        }
        i += 1;
    }
    assert(rows@ =~= composed_rows(before));
}

/// Rotation and scale of the world transform do not enter the computed
/// transform: two world transforms with the same translation give the same
/// result.
pub proof fn lemma_only_world_translation_enters(
    independent: IndependentTransform,
    first: GlobalTransform,
    second: GlobalTransform,
)
    requires
        translation_of(first) == translation_of(second),
    ensures
        composed(independent, first) == composed(independent, second),
{
}

/// A second run of the composer on unchanged inputs changes nothing.
pub proof fn lemma_composer_idempotent(rows: Seq<TransformRow>)
    ensures
        composed_rows(composed_rows(rows)) == composed_rows(rows),
{
    assert(composed_rows(composed_rows(rows)) =~= composed_rows(rows));
}

/// The composer reads the independent and the world transform alone: what the
/// computed transform was before a run does not enter the result.
pub proof fn lemma_composer_overwrites(row: TransformRow, stale: Option<ComputedTransform>)
    requires
        row.qualifies(),
    ensures
        (TransformRow { computed: stale, ..row }).composed() == row.composed(),
{
}

/// An entity that lacks the independent or the world transform is left as it
/// is. Once the missing components are there, the next run writes its
/// computed transform.
pub proof fn lemma_entity_joins_when_complete(
    row: TransformRow,
    independent: IndependentTransform,
    global: GlobalTransform,
)
    requires
        !row.qualifies(),
    ensures
        row.composed() == row,
        (TransformRow {
            independent: Some(independent),
            global: Some(global),
            ..row.composed()
        }).composed().computed == Some(composed(independent, global)),
{
}

} // verus!
