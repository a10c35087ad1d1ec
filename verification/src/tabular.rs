//! The tabular agent: a discretized value lookup for the mountain
//! car.
//!
//! The agent holds three 10 by 10 value tables, one per action,
//! indexed by a (position bucket, speed bucket) pair.  Bucket indices
//! are always clamped into range, so no physical state ever indexes
//! out of bounds; the speed bucket is counted in reverse, a convention
//! of the persisted tables that is preserved exactly.
use vstd::prelude::*;

verus! {

use crate::agent::{Agent, PolicyError};
use crate::fixed::{clamp, clamp_spec, div_pos};
use crate::model_io::{ModelError, NamedTensor, find_key, find_key_spec};
use crate::mountaincar::{Ground, MountainAction, MountainCar};

/// Width of one position bucket, `0.05` units.
pub const POS_BUCKET_WIDTH: i64 = 50;

/// Offset added to the speed before discretizing, `0.15` units.
pub const SPEED_OFFSET: i64 = 150;

/// Width of one speed bucket, `0.03` units.
pub const SPEED_BUCKET_WIDTH: i64 = 30;

/// The position bucket: the position divided into buckets of width
/// `POS_BUCKET_WIDTH`, clamped into `[0, 9]`.
pub open spec fn pos_bucket_spec(pos: int) -> int {
    clamp_spec(pos / (POS_BUCKET_WIDTH as int), 0, 9)
}

/// The speed bucket: the shifted speed divided into buckets of width
/// `SPEED_BUCKET_WIDTH`, clamped into `[0, 9]`, then counted in
/// reverse.
pub open spec fn speed_bucket_spec(speed: int) -> int {
    9 - clamp_spec((speed + SPEED_OFFSET) / (SPEED_BUCKET_WIDTH as int), 0, 9)
}

/// Bucket indices stay inside the 10 by 10 tables for every input,
/// however far outside the physical range: out-of-range features are
/// clamped, never allowed to index out of bounds.
pub proof fn lemma_buckets_in_range(pos: int, speed: int)
    ensures
        0 <= pos_bucket_spec(pos) <= 9,
        0 <= speed_bucket_spec(speed) <= 9,
{
}

/// The position bucket of a bounded position.
pub fn pos_bucket(pos: i64) -> (i: usize)
    requires
        -1_000_000_000_000 <= pos <= 1_000_000_000_000,
    ensures
        i == pos_bucket_spec(pos as int),
        i <= 9,
{
    let q = div_pos(pos, POS_BUCKET_WIDTH);
    let c = clamp(q, 0, 9);
    c as usize
}

/// The speed bucket of a bounded speed.
pub fn speed_bucket(speed: i64) -> (j: usize)
    requires
        -1_000_000_000_000 <= speed <= 1_000_000_000_000,
    ensures
        j == speed_bucket_spec(speed as int),
        j <= 9,
{
    let q = div_pos(speed + SPEED_OFFSET, SPEED_BUCKET_WIDTH);
    let c = clamp(q, 0, 9);
    (9 - c) as usize
}

/// The tabular agent: one 10 by 10 value table per action.  The
/// tables are read-only once constructed.
#[derive(Clone, Debug)]
pub struct Tabular {
    /// Values of `Left`, row-major by (position bucket, speed bucket).
    pub q_left: crate::model_io::TensorData,
    /// Values of `DoNothing`.
    pub q_nothing: crate::model_io::TensorData,
    /// Values of `Right`.
    pub q_right: crate::model_io::TensorData,
}

impl Tabular {
    /// Well-formedness: all three tables are 10 by 10 with every
    /// value in range.
    pub open spec fn tables_wf(&self) -> bool {
        &&& self.q_left.is_matrix(10, 10)
        &&& self.q_nothing.is_matrix(10, 10)
        &&& self.q_right.is_matrix(10, 10)
    }

    /// The stored value of the given action at a bucket pair.
    pub open spec fn value_at(table: crate::model_io::TensorData, i: int, j: int) -> i64 {
        table.data@[i * 10 + j]
    }

    /// The action the tables pick at a bucket pair: `Left` when it is
    /// at least as good as both others, else `Right` when it is at
    /// least as good as both others, else `DoNothing`.
    pub open spec fn choose_at_spec(&self, i: int, j: int) -> MountainAction {
        let ql = Self::value_at(self.q_left, i, j);
        let qn = Self::value_at(self.q_nothing, i, j);
        let qr = Self::value_at(self.q_right, i, j);
        if ql >= qn && ql >= qr {
            MountainAction::Left
        } else if qr >= qn && qr >= ql {
            MountainAction::Right
        } else {
            MountainAction::DoNothing
        }
    }

    /// Build the agent from the named tensors of a persisted model.
    /// It succeeds exactly when tensors named `q_left`, `q_nothing`
    /// and `q_right` are all present, each of shape 10 by 10 with
    /// every value in range; the first matching entry of each name is
    /// taken.
    pub fn from_entries(entries: &Vec<NamedTensor>) -> (r: Result<Tabular, ModelError>)
        ensures
            r is Ok <==> tabular_keys_present(entries@) && tabular_shapes_ok(entries@)
                && tabular_values_ok(entries@),
            !tabular_keys_present(entries@) ==> r == Err::<Tabular, ModelError>(
                ModelError::MissingKey,
            ),
            tabular_keys_present(entries@) && !tabular_shapes_ok(entries@) ==> r == Err::<
                Tabular,
                ModelError,
            >(ModelError::ShapeMismatch),
            tabular_keys_present(entries@) && tabular_shapes_ok(entries@) && !tabular_values_ok(
                entries@,
            ) ==> r == Err::<Tabular, ModelError>(ModelError::ValueOutOfRange),
            r matches Ok(t) ==> {
                &&& t.tables_wf()
                &&& t.q_left.data@ == entries@[find_key_spec(entries@, "q_left"@)->0].tensor.data@
                &&& t.q_nothing.data@ == entries@[find_key_spec(
                    entries@,
                    "q_nothing"@,
                )->0].tensor.data@
                &&& t.q_right.data@ == entries@[find_key_spec(entries@, "q_right"@)->0].tensor.data@
            },
    {
        let key_left = "q_left".to_owned();
        let key_nothing = "q_nothing".to_owned();
        let key_right = "q_right".to_owned();
        let i1 = match find_key(entries, &key_left) {
            Some(i) => i,
            None => {
                return Err(ModelError::MissingKey);
            },
        };
        let i2 = match find_key(entries, &key_nothing) {
            Some(i) => i,
            None => {
                return Err(ModelError::MissingKey);
            },
        };
        let i3 = match find_key(entries, &key_right) {
            Some(i) => i,
            None => {
                return Err(ModelError::MissingKey);
            },
        };
        let t1 = &entries[i1].tensor;
        let t2 = &entries[i2].tensor;
        let t3 = &entries[i3].tensor;
        if !(t1.check_shape2(10, 10) && t2.check_shape2(10, 10) && t3.check_shape2(10, 10)) {
            return Err(ModelError::ShapeMismatch);
        }
        if !(t1.check_values() && t2.check_values() && t3.check_values()) {
            return Err(ModelError::ValueOutOfRange);
        }
        Ok(Tabular { q_left: t1.duplicate(), q_nothing: t2.duplicate(), q_right: t3.duplicate() })
    }
}

/// All three required table names are present.
pub open spec fn tabular_keys_present(entries: Seq<NamedTensor>) -> bool {
    &&& find_key_spec(entries, "q_left"@) is Some
    &&& find_key_spec(entries, "q_nothing"@) is Some
    &&& find_key_spec(entries, "q_right"@) is Some
}

/// All three named tables have shape 10 by 10.
pub open spec fn tabular_shapes_ok(entries: Seq<NamedTensor>) -> bool {
    &&& entries[find_key_spec(entries, "q_left"@)->0].tensor.has_shape2(10, 10)
    &&& entries[find_key_spec(entries, "q_nothing"@)->0].tensor.has_shape2(10, 10)
    &&& entries[find_key_spec(entries, "q_right"@)->0].tensor.has_shape2(10, 10)
}

/// All three named tables hold only representable values.
pub open spec fn tabular_values_ok(entries: Seq<NamedTensor>) -> bool {
    &&& entries[find_key_spec(entries, "q_left"@)->0].tensor.values_in_range()
    &&& entries[find_key_spec(entries, "q_nothing"@)->0].tensor.values_in_range()
    &&& entries[find_key_spec(entries, "q_right"@)->0].tensor.values_in_range()
}

impl<G: Ground> Agent<MountainCar<G>> for Tabular {
    open spec fn wf(&self) -> bool {
        self.tables_wf()
    }

    open spec fn policy_spec(&self, e: MountainCar<G>) -> Result<MountainAction, PolicyError> {
        Ok(self.choose_at_spec(pos_bucket_spec(e.pos as int), speed_bucket_spec(e.speed as int)))
    }

    /// Discretize the car's position and speed into bucket indices,
    /// look the three action values up, and pick the best action; the
    /// lookup never fails.
    fn policy(&self, e: &MountainCar<G>) -> (r: Result<MountainAction, PolicyError>) {
        let i = pos_bucket(e.pos);
        let j = speed_bucket(e.speed);
        let ql = self.q_left.data[i * 10 + j];
        let qn = self.q_nothing.data[i * 10 + j];
        let qr = self.q_right.data[i * 10 + j];
        if ql >= qn && ql >= qr {
            Ok(MountainAction::Left)
        } else if qr >= qn && qr >= ql {
            Ok(MountainAction::Right)
        } else {
            Ok(MountainAction::DoNothing)
        }
    }
}

} // verus!
