//! The named-tensor model format.
//!
//! A persisted model is a flat sequence of named numeric tensors.  The
//! shell reads and writes the actual file; this module fixes what the
//! names and shapes mean: the loaders below validate an explicit key
//! schema instead of trusting the iteration order of any container,
//! and the savers emit keys that sort back into layer order.
use vstd::prelude::*;

verus! {

use crate::fixed::RANGE_LIMIT;

/// A dense numeric array: its dimensions and its values in row-major
/// order.
#[derive(Clone, Debug)]
pub struct TensorData {
    /// The dimensions, outermost first.
    pub dims: Vec<usize>,
    /// The values, in thousandths, flattened row-major.
    pub data: Vec<i64>,
}

impl TensorData {
    /// The tensor is two-dimensional with the given shape.
    pub open spec fn has_shape2(&self, rows: int, cols: int) -> bool {
        &&& self.dims@ == seq![rows as usize, cols as usize]
        &&& self.data@.len() == rows * cols
    }

    /// The tensor is one-dimensional with the given length.
    pub open spec fn has_shape1(&self, len: int) -> bool {
        &&& self.dims@ == seq![len as usize]
        &&& self.data@.len() == len
    }

    /// Every value lies in the representable fixed-point range.
    pub open spec fn values_in_range(&self) -> bool {
        forall|k: int|
            0 <= k < self.data@.len() ==> -RANGE_LIMIT <= #[trigger] self.data@[k] <= RANGE_LIMIT
    }

    /// A well-formed two-dimensional tensor of the given shape.
    pub open spec fn is_matrix(&self, rows: int, cols: int) -> bool {
        self.has_shape2(rows, cols) && self.values_in_range()
    }

    /// A well-formed one-dimensional tensor of the given length.
    pub open spec fn is_vector(&self, len: int) -> bool {
        self.has_shape1(len) && self.values_in_range()
    }

    /// Check that the tensor is two-dimensional with the given shape.
    pub fn check_shape2(&self, rows: usize, cols: usize) -> (b: bool)
        requires
            rows <= 1000,
            cols <= 1000,
        ensures
            b == self.has_shape2(rows as int, cols as int),
    {
        proof {
            assert(0 <= rows as int * cols as int <= 1_000_000) by (nonlinear_arith)
                requires
                    0 <= rows <= 1000,
                    0 <= cols <= 1000,
            ;
        }
        let ok = self.dims.len() == 2 && self.dims[0] == rows && self.dims[1] == cols
            && self.data.len() == rows * cols;
        proof {
            if self.dims@.len() == 2 && self.dims@[0] == rows && self.dims@[1] == cols {
                assert(self.dims@ =~= seq![rows, cols]);
            }
        }
        ok
    }

    /// Check that the tensor is one-dimensional with the given length.
    pub fn check_shape1(&self, len: usize) -> (b: bool)
        ensures
            b == self.has_shape1(len as int),
    {
        let ok = self.dims.len() == 1 && self.dims[0] == len && self.data.len() == len;
        proof {
            if self.dims@.len() == 1 && self.dims@[0] == len {
                assert(self.dims@ =~= seq![len]);
            }
        }
        ok
    }

    /// Check that every value lies in the representable range.
    pub fn check_values(&self) -> (b: bool)
        ensures
            b == self.values_in_range(),
    {
        let mut j: usize = 0;
        loop
            invariant_except_break
                j <= self.data@.len(),
                forall|k: int|
                    0 <= k < j ==> -RANGE_LIMIT <= #[trigger] self.data@[k] <= RANGE_LIMIT,
            ensures
                self.values_in_range(),
            decreases self.data@.len() - j,
        {
            if j >= self.data.len() {
                break;
            }
            let v = self.data[j];
            if v < -RANGE_LIMIT || v > RANGE_LIMIT {
                return false;
            }
            j = j + 1;
        }
        true
    }
}

/// Copy a vector of values element by element.
pub fn copy_vec_i64(v: &Vec<i64>) -> (r: Vec<i64>)
    ensures
        r@ == v@,
{
    let mut r: Vec<i64> = Vec::new();
    let mut j: usize = 0;
    while j < v.len()
        invariant
            j <= v@.len(),
            r@ == v@.take(j as int),
        decreases v@.len() - j,
    {
        r.push(v[j]);
        proof {
            assert(r@ =~= v@.take(j as int + 1));
        }
        j = j + 1;
    }
    proof {
        assert(v@.take(v@.len() as int) =~= v@);
    }
    r
}

/// Copy a vector of dimensions element by element.
pub fn copy_vec_usize(v: &Vec<usize>) -> (r: Vec<usize>)
    ensures
        r@ == v@,
{
    let mut r: Vec<usize> = Vec::new();
    let mut j: usize = 0;
    while j < v.len()
        invariant
            j <= v@.len(),
            r@ == v@.take(j as int),
        decreases v@.len() - j,
    {
        r.push(v[j]);
        proof {
            assert(r@ =~= v@.take(j as int + 1));
        }
        j = j + 1;
    }
    proof {
        assert(v@.take(v@.len() as int) =~= v@);
    }
    r
}

impl TensorData {
    /// An element-by-element copy of the tensor.
    pub fn duplicate(&self) -> (r: TensorData)
        ensures
            r.dims@ == self.dims@,
            r.data@ == self.data@,
    {
        TensorData { dims: copy_vec_usize(&self.dims), data: copy_vec_i64(&self.data) }
    }
}

/// One entry of a persisted model: a storage key and its tensor.
#[derive(Clone, Debug)]
pub struct NamedTensor {
    /// The storage key.
    pub name: String,
    /// The tensor stored under the key.
    pub tensor: TensorData,
}

/// Why a persisted model was rejected.  Loading never silently
/// defaults: every malformed input maps to one of these causes.
#[derive(Clone, Copy, Debug, PartialEq, Eq, Structural)]
pub enum ModelError {
    /// A tensor the schema requires is absent.
    MissingKey,
    /// The entries cannot be paired into weight and bias layers.
    OddKeyCount,
    /// A tensor's shape does not fit where the schema places it.
    ShapeMismatch,
    /// A tensor value lies outside the representable range.
    ValueOutOfRange,
    /// A requested network topology is empty or too large.
    BadTopology,
}

impl ModelError {
    /// A human-readable description of the failure.
    pub fn message(&self) -> (s: String)
        ensures
            s@.len() > 0,
    {
        let m: &str = match self {
            ModelError::MissingKey => "A required tensor key is not in the model file.",
            ModelError::OddKeyCount => "The model file does not hold an even number of tensors.",
            ModelError::ShapeMismatch => "A stored tensor has the wrong shape.",
            ModelError::ValueOutOfRange => "A stored value is outside the representable range.",
            ModelError::BadTopology => "The requested topology is empty or too large.",
        };
        let s = m.to_owned();
        proof {
            reveal_strlit("A required tensor key is not in the model file.");
            reveal_strlit("The model file does not hold an even number of tensors.");
            reveal_strlit("A stored tensor has the wrong shape.");
            reveal_strlit("A stored value is outside the representable range.");
            reveal_strlit("The requested topology is empty or too large.");
        }
        s
    }
}

/// Index of the first entry named `key`, scanning from position `j`.
pub open spec fn find_from(entries: Seq<NamedTensor>, key: Seq<char>, j: nat) -> Option<int>
    decreases entries.len() - j,
{
    if j >= entries.len() {
        None
    } else if entries[j as int].name@ == key {
        Some(j as int)
    } else {
        find_from(entries, key, j + 1)
    }
}

/// Index of the first entry named `key`, if any.
pub open spec fn find_key_spec(entries: Seq<NamedTensor>, key: Seq<char>) -> Option<int> {
    find_from(entries, key, 0)
}

/// Find the first entry whose name equals `key`.
pub fn find_key(entries: &Vec<NamedTensor>, key: &String) -> (r: Option<usize>)
    ensures
        match r {
            Some(i) => 0 <= i < entries@.len() && find_key_spec(entries@, key@) == Some(i as int),
            None => find_key_spec(entries@, key@) is None,
        },
{
    let mut j: usize = 0;
    loop
        invariant_except_break
            j <= entries@.len(),
            find_key_spec(entries@, key@) == find_from(entries@, key@, j as nat),
        ensures
            find_key_spec(entries@, key@) is None,
        decreases entries@.len() - j,
    {
        if j >= entries.len() {
            break;
        }
        if entries[j].name == *key {
            return Some(j);
        }
        j = j + 1;
    }
    None
}

/// The character for one decimal digit.
pub open spec fn digit_char(d: nat) -> char {
    if d == 0 {
        '0'
    } else if d == 1 {
        '1'
    } else if d == 2 {
        '2'
    } else if d == 3 {
        '3'
    } else if d == 4 {
        '4'
    } else if d == 5 {
        '5'
    } else if d == 6 {
        '6'
    } else if d == 7 {
        '7'
    } else if d == 8 {
        '8'
    } else {
        '9'
    }
}

/// The two-character storage key of slot `k`: tens digit then ones
/// digit.  Fixed-width keys sort lexicographically in slot order, so
/// the layer pairing survives any lexicographic re-sorting.
pub open spec fn slot_key_seq(k: nat) -> Seq<char> {
    seq![digit_char(k / 10), digit_char(k % 10)]
}

/// Distinct slots have distinct keys.
pub proof fn lemma_slot_key_injective(k1: nat, k2: nat)
    requires
        k1 < 100,
        k2 < 100,
        slot_key_seq(k1) == slot_key_seq(k2),
    ensures
        k1 == k2,
{
    assert(slot_key_seq(k1)[0] == slot_key_seq(k2)[0]);
    assert(slot_key_seq(k1)[1] == slot_key_seq(k2)[1]);
    assert(digit_char(k1 / 10) == digit_char(k2 / 10));
    assert(digit_char(k1 % 10) == digit_char(k2 % 10));
    assert(k1 / 10 == k2 / 10 && k1 % 10 == k2 % 10);
    assert(k1 == k2) by (nonlinear_arith)
        requires
            k1 < 100,
            k2 < 100,
            k1 / 10 == k2 / 10,
            k1 % 10 == k2 % 10,
    ;
}

/// The one-character string for one decimal digit.
fn digit_str(d: usize) -> (r: &'static str)
    requires
        d < 10,
    ensures
        r@ == seq![digit_char(d as nat)],
{
    proof {
        reveal_strlit("0");
        reveal_strlit("1");
        reveal_strlit("2");
        reveal_strlit("3");
        reveal_strlit("4");
        reveal_strlit("5");
        reveal_strlit("6");
        reveal_strlit("7");
        reveal_strlit("8");
        reveal_strlit("9");
    }
    let r: &'static str = if d == 0 {
        "0"
    } else if d == 1 {
        "1"
    } else if d == 2 {
        "2"
    } else if d == 3 {
        "3"
    } else if d == 4 {
        "4"
    } else if d == 5 {
        "5"
    } else if d == 6 {
        "6"
    } else if d == 7 {
        "7"
    } else if d == 8 {
        "8"
    } else {
        "9"
    };
    proof {
        assert(r@ =~= seq![digit_char(d as nat)]);
    }
    r
}

/// The two-character storage key of slot `k`.
pub fn slot_key(k: usize) -> (s: String)
    requires
        k < 100,
    ensures
        s@ == slot_key_seq(k as nat),
{
    let mut s = digit_str(k / 10).to_owned();
    s.append(digit_str(k % 10));
    proof {
        assert(s@ =~= slot_key_seq(k as nat));
    }
    s
}

} // verus!
