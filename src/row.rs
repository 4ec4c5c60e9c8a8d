use vstd::prelude::*;
use crate::decode::{category_spec, decoded, to_json};
use crate::entries::NamedEntries;
use crate::error::Error;
use crate::scheme::Backend;
use crate::value::GenericValue;

verus! {

/// One selected row: the generic value of each column, keyed by column name.
pub struct Row {
    columns: NamedEntries<GenericValue>,
}

/// One column of a row as the driver hands it over: its name, its declared
/// type name, whether it is null, and the driver's typed decode for the
/// category of its type (None where that decode failed or was not made).
pub struct RawColumn {
    pub name: String,
    pub declared: String,
    pub is_null: bool,
    pub typed: Option<GenericValue>,
}

/// The map that pairs give when each is inserted in turn: a later pair with a
/// name already seen overwrites the earlier one.
pub open spec fn assembled(cols: Seq<(String, GenericValue)>) -> Map<Seq<char>, GenericValue>
    decreases cols.len(),
{
    if cols.len() == 0 {
        Map::empty()
    } else {
        assembled(cols.drop_last()).insert(cols.last().0@, cols.last().1)
    }
}

/// Whether a column's declared type is known to the backend, or need not be.
pub open spec fn supported(backend: Backend, c: RawColumn) -> bool {
    c.is_null || category_spec(backend, c.declared@) is Some
}

/// The generic value of a column whose type is supported.
pub open spec fn column_generic(backend: Backend, c: RawColumn) -> GenericValue {
    if c.is_null {
        GenericValue::Null
    } else {
        decoded(category_spec(backend, c.declared@)->Some_0, c.typed)
    }
}

/// The row that columns give, each decoded and inserted in turn.
pub open spec fn row_model(backend: Backend, cols: Seq<RawColumn>) -> Map<Seq<char>, GenericValue>
    decreases cols.len(),
{
    if cols.len() == 0 {
        Map::empty()
    } else {
        row_model(backend, cols.drop_last()).insert(
            cols.last().name@,
            column_generic(backend, cols.last()),
        )
    }
}

impl Row {
    pub closed spec fn view(&self) -> Map<Seq<char>, GenericValue> {
        self.columns@
    }

    pub closed spec fn wf(&self) -> bool {
        self.columns.wf()
    }

    /// A row with no columns.
    pub fn new() -> (r: Row)
        ensures
            r.wf(),
            r@ == Map::<Seq<char>, GenericValue>::empty(),
    {
        Row { columns: NamedEntries::new() }
    }

    /// Sets the column `name`, overwriting an earlier column of that name.
    pub fn insert(&mut self, name: String, value: GenericValue)
        requires
            old(self).wf(),
        ensures
            final(self).wf(),
            final(self)@ == old(self)@.insert(name@, value),
    {
        let _ = self.columns.insert(name, value);
    }

    /// The value of the column `name`.
    pub fn get(&self, name: &str) -> (r: Option<&GenericValue>)
        requires
            self.wf(),
        ensures
            match r {
                Some(v) => self@.contains_key(name@) && *v == self@[name@],
                None => !self@.contains_key(name@),
            },
    {
        self.columns.get(name)
    }

    /// The number of distinct column names.
    pub fn len(&self) -> (r: usize)
        requires
            self.wf(),
        ensures
            r == self@.len(),
    {
        self.columns.len()
    }

    /// The columns as pairs, each name once.
    pub fn into_columns(self) -> (r: Vec<(String, GenericValue)>)
        requires
            self.wf(),
        ensures
            forall|i: int, j: int| 0 <= i < j < r@.len() ==> #[trigger] r@[i].0@ != #[trigger] r@[j].0@,
            forall|i: int| 0 <= i < r@.len() ==> self@.contains_key(#[trigger] r@[i].0@)
                && self@[r@[i].0@] == r@[i].1,
            forall|k: Seq<char>| self@.contains_key(k) ==> exists|i: int|
                0 <= i < r@.len() && #[trigger] r@[i].0@ == k,
    {
        let mut columns = self.columns;
        columns.take_all()
    }
}

/// Builds a row from pairs in order; a later pair overwrites an earlier pair
/// of the same name.
pub fn assemble_row(cols: Vec<(String, GenericValue)>) -> (r: Row)
    ensures
        r.wf(),
        r@ == assembled(cols@),
{
    let ghost all = cols@;
    let n = cols.len();
    let mut rest = cols;
    let mut row = Row::new();
    let mut k: usize = 0;
    while rest.len() > 0
        invariant
            row.wf(),
            k + rest@.len() == all.len(),
            all.len() == n,
            rest@ == all.skip(k as int),
            row@ == assembled(all.take(k as int)),
        decreases rest@.len(),
    {
        let (name, value) = rest.remove(0);
        proof {
            assert(all.take(k + 1).drop_last() =~= all.take(k as int));
            assert(all[k as int] == (name, value));
        }
        row.insert(name, value);
        k = k + 1;
        proof {
            assert(rest@ =~= all.skip(k as int));
        }
    }
    assert(all.take(k as int) =~= all);
    row
}

/// Decodes every column of a `backend` row and assembles the row; a later
/// column overwrites an earlier column of the same name. Fails with
/// `UnsupportedDatatype` naming the first non-null column whose type the
/// backend does not know.
#[verifier::loop_isolation(false)]
pub fn decode_row(backend: Backend, cols: Vec<RawColumn>) -> (r: Result<Row, Error>)
    ensures
        (forall|i: int| 0 <= i < cols@.len() ==> supported(backend, #[trigger] cols@[i])) ==> (
        r matches Ok(row) && row.wf() && row@ == row_model(backend, cols@)),
        !(forall|i: int| 0 <= i < cols@.len() ==> supported(backend, #[trigger] cols@[i])) ==> (
        r matches Err(Error::UnsupportedDatatype(m)) && exists|i: int|
            0 <= i < cols@.len() && !supported(backend, #[trigger] cols@[i]) && m@
                == cols@[i].declared@ && forall|j: int|
                0 <= j < i ==> supported(backend, #[trigger] cols@[j])),
{
    let ghost all = cols@;
    let n = cols.len();
    let mut rest = cols;
    let mut row = Row::new();
    let mut k: usize = 0;
    while rest.len() > 0
        invariant
            row.wf(),
            k + rest@.len() == all.len(),
            all.len() == n,
            rest@ == all.skip(k as int),
            forall|j: int| 0 <= j < k ==> supported(backend, #[trigger] all[j]),
            row@ == row_model(backend, all.take(k as int)),
        decreases rest@.len(),
    {
        let c = rest.remove(0);
        proof {
            assert(all[k as int] == c);
            assert(all.take(k + 1).drop_last() =~= all.take(k as int));
        }
        let RawColumn { name, declared, is_null, typed } = c;
        match to_json(backend, declared.as_str(), is_null, typed) {
            Ok(v) => {
                row.insert(name, v);
            },
            Err(e) => {
                proof {
                    assert(e matches Error::UnsupportedDatatype(m) && exists|i: int|
                        0 <= i < all.len() && !supported(backend, #[trigger] all[i]) && m@
                            == all[i].declared@ && forall|j: int|
                            0 <= j < i ==> supported(backend, #[trigger] all[j]));
                }
                return Err(e);
            },
        }
        k = k + 1;
        proof {
            assert(rest@ =~= all.skip(k as int));
        }
    }
    assert(all.take(k as int) =~= all);
    Ok(row)
}

} // verus!
