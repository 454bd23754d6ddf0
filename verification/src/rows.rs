//! Result rows and the dual-source consistency diff. A row is one output
//! record of a query: an ordered mapping from field name to value, with
//! insertion order preserved for display. Two rows are equal exactly when
//! their canonical JSON objects are: same field names, and for each shared
//! name a value that denotes the same JSON number, string, boolean or list.

use vstd::prelude::*;
use vstd::seq_lib::lemma_seq_union_to_multiset_commutative;
use crate::value::{Value, ValueModel};

verus! {

/// The model of a row: its fields in insertion order.
pub type RowModel = Seq<(Seq<char>, ValueModel)>;

/// One output record of a query: field names to values, insertion order
/// preserved.
pub struct Row {
    pub fields: Vec<(String, Value)>,
}

impl DeepView for Row {
    type V = RowModel;

    open spec fn deep_view(&self) -> RowModel {
        self.fields.deep_view()
    }
}

impl Row {
    /// A well-formed row never repeats a field name.
    pub open spec fn wf(self) -> bool {
        forall|i: int, j: int|
            0 <= i < j < self.deep_view().len() ==> self.deep_view()[i].0
                != self.deep_view()[j].0
    }
}

impl Clone for Row {
    fn clone(&self) -> (res: Self)
        ensures
            res.deep_view() == self.deep_view(),
    {
        let mut fields: Vec<(String, Value)> = Vec::new();
        let mut i: usize = 0;
        #[verifier::loop_isolation(false)]
        while i < self.fields.len()
            invariant
                i <= self.fields.len(),
                fields.deep_view() =~= self.fields.deep_view().take(i as int),
            decreases self.fields.len() - i,
        {
            let pair = &self.fields[i];
            fields.push((pair.0.clone(), pair.1.clone()));
            i = i + 1;
        }
        proof {
            assert(fields.deep_view() =~= self.fields.deep_view());
        }
        Row { fields }
    }
}

/// Two raw float bit patterns denote the same JSON number exactly when they
/// are the same pattern, or both are a zero (the wire does not tell a
/// positive zero from a negative one).
pub open spec fn float_bits_eq(a: u64, b: u64) -> bool {
    a == b || (float_bits_is_zero(a) && float_bits_is_zero(b))
}

/// The two IEEE 754 bit patterns of zero.
pub open spec fn float_bits_is_zero(bits: u64) -> bool {
    bits == 0u64 || bits == 0x8000_0000_0000_0000u64
}

/// Wire equality of two values: whether their JSON encodings denote the same
/// JSON value. Signed and unsigned integers compare by magnitude, an enum
/// compares as the string of its name, lists compare elementwise in order.
pub open spec fn value_wire_eq(a: ValueModel, b: ValueModel) -> bool
    decreases a, 1int,
{
    match (a, b) {
        (ValueModel::Null, ValueModel::Null) => true,
        (ValueModel::Boolean(x), ValueModel::Boolean(y)) => x == y,
        (ValueModel::Int64(x), ValueModel::Int64(y)) => x == y,
        (ValueModel::Int64(x), ValueModel::Uint64(y)) => x >= 0 && x as u64 == y,
        (ValueModel::Uint64(x), ValueModel::Int64(y)) => y >= 0 && y as u64 == x,
        (ValueModel::Uint64(x), ValueModel::Uint64(y)) => x == y,
        (ValueModel::Float64Bits(x), ValueModel::Float64Bits(y)) => float_bits_eq(x, y),
        (ValueModel::Str(x), ValueModel::Str(y)) => x == y,
        (ValueModel::Str(x), ValueModel::Enum(y)) => x == y,
        (ValueModel::Enum(x), ValueModel::Str(y)) => x == y,
        (ValueModel::Enum(x), ValueModel::Enum(y)) => x == y,
        (ValueModel::List(x), ValueModel::List(y)) => {
            proof {
                assert(decreases_to!(a => a->List_0));
            }
            values_wire_eq(x, y)
        },
        _ => false,
    }
}

/// Wire equality of two sequences of values, elementwise and in order.
pub open spec fn values_wire_eq(xs: Seq<ValueModel>, ys: Seq<ValueModel>) -> bool
    decreases xs, 0int,
{
    if xs.len() != ys.len() {
        false
    } else if xs.len() == 0 {
        true
    } else {
        proof {
            assert(decreases_to!(xs => xs[0]));
            assert(decreases_to!(xs => xs.drop_first()));
        }
        value_wire_eq(xs[0], ys[0]) && values_wire_eq(xs.drop_first(), ys.drop_first())
    }
}

/// Two value sequences are wire-equal exactly when they have the same length
/// and are wire-equal at every position.
pub proof fn lemma_values_wire_eq_index(xs: Seq<ValueModel>, ys: Seq<ValueModel>)
    ensures
        values_wire_eq(xs, ys) <==> (xs.len() == ys.len() && forall|i: int|
            0 <= i < xs.len() ==> #[trigger] value_wire_eq(xs[i], ys[i])),
    decreases xs.len(),
{
    if xs.len() == ys.len() && xs.len() > 0 {
        lemma_values_wire_eq_index(xs.drop_first(), ys.drop_first());
        assert(forall|i: int|
            1 <= i < xs.len() ==> xs.drop_first()[i - 1] == #[trigger] xs[i]);
        assert(forall|i: int|
            1 <= i < ys.len() ==> ys.drop_first()[i - 1] == #[trigger] ys[i]);
        if values_wire_eq(xs, ys) {
            assert forall|i: int| 0 <= i < xs.len() implies #[trigger] value_wire_eq(
                xs[i],
                ys[i],
            ) by {
                if i >= 1 {
                    assert(value_wire_eq(xs.drop_first()[i - 1], ys.drop_first()[i - 1]));
                }
            }
        } else {
            if value_wire_eq(xs[0], ys[0]) {
                let k = choose|k: int|
                    0 <= k < xs.drop_first().len() && !(#[trigger] value_wire_eq(
                        xs.drop_first()[k],
                        ys.drop_first()[k],
                    ));
                assert(!value_wire_eq(xs[k + 1], ys[k + 1]));
            }
        }
    }
}

/// Decide wire equality of two values.
pub fn values_equal(a: &Value, b: &Value) -> (r: bool)
    ensures
        r == value_wire_eq(a.deep_view(), b.deep_view()),
    decreases a,
{
    match (a, b) {
        (Value::Null, Value::Null) => {
            proof {
                assert(value_wire_eq(a.deep_view(), b.deep_view()));
            }
            true
        },
        (Value::Boolean(x), Value::Boolean(y)) => {
            proof {
                assert(value_wire_eq(a.deep_view(), b.deep_view()) == (*x == *y));
            }
            *x == *y
        },
        (Value::Int64(x), Value::Int64(y)) => {
            proof {
                assert(value_wire_eq(a.deep_view(), b.deep_view()) == (*x == *y));
            }
            *x == *y
        },
        (Value::Int64(x), Value::Uint64(y)) => {
            proof {
                assert(value_wire_eq(a.deep_view(), b.deep_view()) == (*x >= 0 && *x as u64
                    == *y));
            }
            *x >= 0 && *x as u64 == *y
        },
        (Value::Uint64(x), Value::Int64(y)) => {
            proof {
                assert(value_wire_eq(a.deep_view(), b.deep_view()) == (*y >= 0 && *y as u64
                    == *x));
            }
            *y >= 0 && *y as u64 == *x
        },
        (Value::Uint64(x), Value::Uint64(y)) => {
            proof {
                assert(value_wire_eq(a.deep_view(), b.deep_view()) == (*x == *y));
            }
            *x == *y
        },
        (Value::Float64Bits(x), Value::Float64Bits(y)) => {
            proof {
                assert(value_wire_eq(a.deep_view(), b.deep_view()) == float_bits_eq(*x, *y));
            }
            *x == *y || ((*x == 0u64 || *x == 0x8000_0000_0000_0000u64) && (*y == 0u64 || *y
                == 0x8000_0000_0000_0000u64))
        },
        (Value::Str(x), Value::Str(y)) => {
            proof {
                assert(value_wire_eq(a.deep_view(), b.deep_view()) == (x@ == y@));
            }
            *x == *y
        },
        (Value::Str(x), Value::Enum(y)) => {
            proof {
                assert(value_wire_eq(a.deep_view(), b.deep_view()) == (x@ == y@));
            }
            *x == *y
        },
        (Value::Enum(x), Value::Str(y)) => {
            proof {
                assert(value_wire_eq(a.deep_view(), b.deep_view()) == (x@ == y@));
            }
            *x == *y
        },
        (Value::Enum(x), Value::Enum(y)) => {
            proof {
                assert(value_wire_eq(a.deep_view(), b.deep_view()) == (x@ == y@));
            }
            *x == *y
        },
        (Value::List(x), Value::List(y)) => {
            let ghost xv = a.deep_view()->List_0;
            let ghost yv = b.deep_view()->List_0;
            proof {
                lemma_values_wire_eq_index(xv, yv);
            }
            if x.len() != y.len() {
                proof {
                    assert(!values_wire_eq(xv, yv));
                    assert(!value_wire_eq(a.deep_view(), b.deep_view()));
                }
                return false;
            }
            let mut i: usize = 0;
            #[verifier::loop_isolation(false)]
            while i < x.len()
                invariant
                    i <= x.len(),
                    forall|k: int| 0 <= k < i ==> #[trigger] value_wire_eq(xv[k], yv[k]),
                decreases x.len() - i,
            {
                proof {
                    assert(xv[i as int] == x@[i as int].deep_view());
                    assert(yv[i as int] == y@[i as int].deep_view());
                    assert(decreases_to!(*a => x@[i as int])) by {
                        assert(decreases_to!(*a => *x));
                        assert(decreases_to!(*x => x@));
                        assert(decreases_to!(x@ => x@[i as int]));
                    }
                }
                if !values_equal(&x[i], &y[i]) {
                    proof {
                        assert(!value_wire_eq(xv[i as int], yv[i as int]));
                        assert(!values_wire_eq(xv, yv));
                        assert(!value_wire_eq(a.deep_view(), b.deep_view()));
                    }
                    return false;
                }
                i = i + 1;
            }
            proof {
                assert(values_wire_eq(xv, yv));
                assert(value_wire_eq(a.deep_view(), b.deep_view()));
            }
            true
        },
        _ => {
            proof {
                assert(!value_wire_eq(a.deep_view(), b.deep_view()));
            }
            false
        },
    }
}

/// Whether some field of `row` has the given entry's name and a value
/// wire-equal to the entry's value.
pub open spec fn field_covered(entry: (Seq<char>, ValueModel), row: RowModel) -> bool {
    exists|j: int| 0 <= j < row.len() && (#[trigger] row[j]).0 == entry.0 && value_wire_eq(
        entry.1,
        row[j].1,
    )
}

/// Row equality: both rows present the same field names, and for each field
/// name shared they hold wire-equal values. With unique field names this is
/// exactly equality of their canonical JSON objects.
pub open spec fn row_model_eq(a: RowModel, b: RowModel) -> bool {
    (forall|i: int| 0 <= i < a.len() ==> field_covered(#[trigger] a[i], b)) && (forall|j: int|
        0 <= j < b.len() ==> field_covered(#[trigger] b[j], a))
}

/// Decide whether a row's field (by name, with a wire-equal value) occurs in
/// another row.
fn row_has_field(row: &Row, name: &String, value: &Value) -> (r: bool)
    ensures
        r == field_covered((name@, value.deep_view()), row.deep_view()),
{
    let ghost rv = row.deep_view();
    let mut j: usize = 0;
    #[verifier::loop_isolation(false)]
    while j < row.fields.len()
        invariant
            j <= row.fields.len(),
            forall|k: int|
                0 <= k < j ==> !(rv[k].0 == name@ && value_wire_eq(value.deep_view(), rv[k].1)),
        decreases row.fields.len() - j,
    {
        let pair = &row.fields[j];
        proof {
            assert(rv[j as int] == row.fields@[j as int].deep_view());
        }
        if pair.0 == *name && values_equal(value, &pair.1) {
            proof {
                assert(rv[j as int].0 == name@ && value_wire_eq(value.deep_view(), rv[j as int].1));
                assert(field_covered((name@, value.deep_view()), rv));
            }
            return true;
        }
        j = j + 1;
    }
    proof {
        assert(!field_covered((name@, value.deep_view()), rv));
    }
    false
}

/// Decide row equality.
pub fn row_eq(a: &Row, b: &Row) -> (r: bool)
    ensures
        r == row_model_eq(a.deep_view(), b.deep_view()),
{
    let ghost av = a.deep_view();
    let ghost bv = b.deep_view();
    let mut i: usize = 0;
    #[verifier::loop_isolation(false)]
    while i < a.fields.len()
        invariant
            i <= a.fields.len(),
            forall|k: int| 0 <= k < i ==> field_covered(#[trigger] av[k], bv),
        decreases a.fields.len() - i,
    {
        let pair = &a.fields[i];
        proof {
            assert(av[i as int] == a.fields@[i as int].deep_view());
            assert(av[i as int].0 == pair.0@);
            assert(av[i as int].1 == pair.1.deep_view());
        }
        if !row_has_field(b, &pair.0, &pair.1) {
            proof {
                assert(!field_covered(av[i as int], bv));
                assert(!row_model_eq(av, bv));
            }
            return false;
        }
        proof {
            assert(field_covered(av[i as int], bv));
        }
        i = i + 1;
    }
    let mut j: usize = 0;
    #[verifier::loop_isolation(false)]
    while j < b.fields.len()
        invariant
            j <= b.fields.len(),
            i == a.fields.len(),
            forall|k: int| 0 <= k < i ==> field_covered(#[trigger] av[k], bv),
            forall|k: int| 0 <= k < j ==> field_covered(#[trigger] bv[k], av),
        decreases b.fields.len() - j,
    {
        let pair = &b.fields[j];
        proof {
            assert(bv[j as int] == b.fields@[j as int].deep_view());
            assert(bv[j as int].0 == pair.0@);
            assert(bv[j as int].1 == pair.1.deep_view());
        }
        if !row_has_field(a, &pair.0, &pair.1) {
            proof {
                assert(!field_covered(bv[j as int], av));
                assert(!row_model_eq(av, bv));
            }
            return false;
        }
        proof {
            assert(field_covered(bv[j as int], av));
        }
        j = j + 1;
    }
    proof {
        assert(row_model_eq(av, bv));
    }
    true
}

/// Whether a row equal to `r` occurs among `rows`.
pub open spec fn row_in(rows: Seq<RowModel>, r: RowModel) -> bool {
    exists|i: int| 0 <= i < rows.len() && row_model_eq(#[trigger] rows[i], r)
}

/// Decide whether a row equal to `row` occurs among `rows`.
pub fn rows_contain(rows: &Vec<Row>, row: &Row) -> (r: bool)
    ensures
        r == row_in(rows.deep_view(), row.deep_view()),
{
    let ghost rsv = rows.deep_view();
    let mut i: usize = 0;
    #[verifier::loop_isolation(false)]
    while i < rows.len()
        invariant
            i <= rows.len(),
            forall|k: int| 0 <= k < i ==> !row_model_eq(#[trigger] rsv[k], row.deep_view()),
        decreases rows.len() - i,
    {
        proof {
            assert(rsv[i as int] == rows@[i as int].deep_view());
        }
        if row_eq(&rows[i], row) {
            proof {
                assert(row_model_eq(rsv[i as int], row.deep_view()));
            }
            return true;
        }
        i = i + 1;
    }
    false
}

/// The rows of `a` that have no equal row in `b`, in order.
pub open spec fn one_sided_diff(a: Seq<RowModel>, b: Seq<RowModel>) -> Seq<RowModel> {
    a.filter(|r: RowModel| !row_in(b, r))
}

/// The consistency diff of a paired dual-source run: every row present on
/// exactly one side, main-side rows first, each side in its own order.
pub open spec fn diff_rows(a: Seq<RowModel>, b: Seq<RowModel>) -> Seq<RowModel> {
    one_sided_diff(a, b) + one_sided_diff(b, a)
}

/// Compute the consistency diff of the row sets of the two sides.
pub fn row_diff(main: &Vec<Row>, secondary: &Vec<Row>) -> (out: Vec<Row>)
    ensures
        out.deep_view() == diff_rows(main.deep_view(), secondary.deep_view()),
{
    let ghost av = main.deep_view();
    let ghost bv = secondary.deep_view();
    let mut out: Vec<Row> = Vec::new();
    let mut i: usize = 0;
    #[verifier::loop_isolation(false)]
    while i < main.len()
        invariant
            i <= main.len(),
            out.deep_view() =~= one_sided_diff(av.take(i as int), bv),
        decreases main.len() - i,
    {
        proof {
            reveal(Seq::filter);
            assert(av.take(i + 1 as int).drop_last() =~= av.take(i as int));
            assert(av.take(i + 1 as int).last() == av[i as int]);
        }
        proof {
            assert(av[i as int] == main@[i as int].deep_view());
        }
        if !rows_contain(secondary, &main[i]) {
            let ghost before = out.deep_view();
            out.push(main[i].clone());
            proof {
                assert(out.deep_view() =~= before.push(av[i as int]));
            }
        }
        i = i + 1;
    }
    proof {
        assert(av.take(main.len() as int) =~= av);
    }
    let mut j: usize = 0;
    #[verifier::loop_isolation(false)]
    while j < secondary.len()
        invariant
            j <= secondary.len(),
            out.deep_view() =~= one_sided_diff(av, bv) + one_sided_diff(bv.take(j as int), av),
        decreases secondary.len() - j,
    {
        proof {
            reveal(Seq::filter);
            assert(bv.take(j + 1 as int).drop_last() =~= bv.take(j as int));
            assert(bv.take(j + 1 as int).last() == bv[j as int]);
        }
        proof {
            assert(bv[j as int] == secondary@[j as int].deep_view());
        }
        if !rows_contain(main, &secondary[j]) {
            let ghost before = out.deep_view();
            out.push(secondary[j].clone());
            proof {
                assert(out.deep_view() =~= before.push(bv[j as int]));
                assert(out.deep_view() =~= one_sided_diff(av, bv) + one_sided_diff(
                    bv.take(j as int),
                    av,
                ).push(bv[j as int]));
            }
        }
        j = j + 1;
    }
    proof {
        assert(bv.take(secondary.len() as int) =~= bv);
        assert(out.deep_view() =~= diff_rows(av, bv));
    }
    out
}

/// Diff symmetry law: swapping which side is "main" and which is "secondary"
/// yields the same multiset of inconsistent rows.
pub proof fn lemma_diff_symmetric(a: Seq<RowModel>, b: Seq<RowModel>)
    ensures
        diff_rows(a, b).to_multiset() == diff_rows(b, a).to_multiset(),
{
    lemma_seq_union_to_multiset_commutative(one_sided_diff(a, b), one_sided_diff(b, a));
}


/// Copy a sequence of rows.
pub fn clone_rows(rows: &Vec<Row>) -> (out: Vec<Row>)
    ensures
        out.deep_view() == rows.deep_view(),
{
    let mut out: Vec<Row> = Vec::new();
    let mut i: usize = 0;
    #[verifier::loop_isolation(false)]
    while i < rows.len()
        invariant
            i <= rows.len(),
            out.deep_view() =~= rows.deep_view().take(i as int),
        decreases rows.len() - i,
    {
        out.push(rows[i].clone());
        i = i + 1;
    }
    proof {
        assert(out.deep_view() =~= rows.deep_view());
    }
    out
}

} // verus!
