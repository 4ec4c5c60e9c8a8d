use vstd::prelude::*;
use crate::decode::{category_spec, fits, Category};
use crate::row::{column_generic, row_model, supported, RawColumn};
use crate::scheme::{backend_of_token, backend_of_url, lemma_scheme_of_no_colon, lemma_scheme_of_split, Backend};
use crate::value::GenericValue;

verus! {

/// The registry model after a run of `load`s on a new registry, in order.
pub open spec fn after_loads<P>(loads: Seq<(Seq<char>, P)>) -> Map<Seq<char>, P>
    decreases loads.len(),
{
    if loads.len() == 0 {
        Map::empty()
    } else {
        after_loads(loads.drop_last()).insert(loads.last().0, loads.last().1)
    }
}

/// A connection string whose scheme is one of the four recognised tokens
/// selects that token's backend, whatever follows the first `:`.
pub proof fn law_scheme_selects_backend(t: Seq<char>, rest: Seq<char>)
    requires
        backend_of_token(t) is Some,
    ensures
        backend_of_url(t + seq![':'] + rest) == backend_of_token(t),
{
    reveal_strlit("sqlite");
    reveal_strlit("mysql");
    reveal_strlit("postgres");
    reveal_strlit("any");
    assert(!t.contains(':')) by {
        if t.contains(':') {
            let i = choose|i: int| 0 <= i < t.len() && t[i] == ':';
            assert(t[i] == ':');
        }
    }
    lemma_scheme_of_split(t, rest);
}

/// A connection string with no `:` selects no backend, so it is refused
/// before any connection is tried.
pub proof fn law_no_colon_is_refused(url: Seq<char>)
    requires
        !url.contains(':'),
    ensures
        backend_of_url(url) is None,
{
    lemma_scheme_of_no_colon(url);
}

/// A connection string whose scheme is not a recognised token selects no
/// backend.
pub proof fn law_unknown_scheme_is_refused(t: Seq<char>, rest: Seq<char>)
    requires
        !t.contains(':'),
        backend_of_token(t) is None,
    ensures
        backend_of_url(t + seq![':'] + rest) is None,
{
    lemma_scheme_of_split(t, rest);
}

/// After `load` of `db`, `execute` and `select` on the same identifier reach
/// the pool that was just registered.
pub proof fn law_loaded_is_reachable<P>(loads: Seq<(Seq<char>, P)>, db: Seq<char>, pool: P)
    ensures
        after_loads(loads.push((db, pool))).contains_key(db),
        after_loads(loads.push((db, pool)))[db] == pool,
{
    assert(loads.push((db, pool)).drop_last() =~= loads);
}

/// An identifier that no `load` named is not in the registry, so `execute`,
/// `select` and `close` on it fail with `DatabaseNotLoaded`.
pub proof fn law_never_loaded_is_absent<P>(loads: Seq<(Seq<char>, P)>, db: Seq<char>)
    requires
        forall|i: int| 0 <= i < loads.len() ==> (#[trigger] loads[i]).0 != db,
    ensures
        !after_loads(loads).contains_key(db),
    decreases loads.len(),
{
    if loads.len() > 0 {
        law_never_loaded_is_absent(loads.drop_last(), db);
    }
}

/// Loads of two distinct identifiers give the same registry in either order,
/// and each identifier reaches its own pool.
pub proof fn law_distinct_loads_independent<P>(
    loads: Seq<(Seq<char>, P)>,
    a: Seq<char>,
    p: P,
    b: Seq<char>,
    q: P,
)
    requires
        a != b,
    ensures
        after_loads(loads.push((a, p)).push((b, q))) == after_loads(loads.push((b, q)).push((a, p))),
        after_loads(loads.push((a, p)).push((b, q)))[a] == p,
        after_loads(loads.push((a, p)).push((b, q)))[b] == q,
{
    let ab = loads.push((a, p)).push((b, q));
    let ba = loads.push((b, q)).push((a, p));
    let m = after_loads(loads);
    assert(ab.drop_last() =~= loads.push((a, p)));
    assert(loads.push((a, p)).drop_last() =~= loads);
    assert(after_loads(loads.push((a, p))) == m.insert(a, p));
    assert(after_loads(ab) == after_loads(loads.push((a, p))).insert(b, q));
    assert(ba.drop_last() =~= loads.push((b, q)));
    assert(loads.push((b, q)).drop_last() =~= loads);
    assert(after_loads(loads.push((b, q))) == m.insert(b, q));
    assert(after_loads(ba) == after_loads(loads.push((b, q))).insert(a, p));
    assert(after_loads(ab) =~= after_loads(ba));
}

/// After `close`, with or without an identifier, a closed identifier is no
/// longer loaded.
pub proof fn law_closed_is_unloaded<P>(m: Map<Seq<char>, P>, db: Seq<char>)
    ensures
        !m.remove(db).contains_key(db),
        !Map::<Seq<char>, P>::empty().contains_key(db),
{
}

/// A null column decodes to Null, whatever its declared type and whatever
/// the driver's typed decode gave.
pub proof fn law_null_column_is_null(backend: Backend, c: RawColumn)
    requires
        c.is_null,
    ensures
        supported(backend, c),
        column_generic(backend, c) == GenericValue::Null,
{
}

/// A numeric column decodes to exactly the number that the driver gave for
/// its category.
pub proof fn law_numbers_decode_exactly(backend: Backend, c: RawColumn, v: GenericValue)
    requires
        !c.is_null,
        category_spec(backend, c.declared@) matches Some(k) && (k == Category::Integer || k
            == Category::Unsigned || k == Category::Real || k == Category::Double) && fits(k, v),
        c.typed == Some(v),
    ensures
        supported(backend, c),
        column_generic(backend, c) == v,
{
}

/// A non-null column whose type name is not in its backend's table makes the
/// row unsupported, so `decode_row` fails with `UnsupportedDatatype`.
pub proof fn law_unknown_type_fails(backend: Backend, cols: Seq<RawColumn>, i: int)
    requires
        0 <= i < cols.len(),
        !cols[i].is_null,
        category_spec(backend, cols[i].declared@) is None,
    ensures
        !(forall|j: int| 0 <= j < cols.len() ==> supported(backend, #[trigger] cols[j])),
{
    assert(!supported(backend, cols[i]));
}

/// In the row model, a column that no later column of the same name follows
/// holds that column's generic value.
pub proof fn lemma_row_model_at(backend: Backend, cols: Seq<RawColumn>, i: int)
    requires
        0 <= i < cols.len(),
        forall|j: int| i < j < cols.len() ==> (#[trigger] cols[j]).name@ != cols[i].name@,
    ensures
        row_model(backend, cols).contains_key(cols[i].name@),
        row_model(backend, cols)[cols[i].name@] == column_generic(backend, cols[i]),
    decreases cols.len(),
{
    if i < cols.len() - 1 {
        let rest = cols.drop_last();
        assert forall|j: int| i < j < rest.len() implies (#[trigger] rest[j]).name@ != rest[i].name@ by {
            assert(rest[j] == cols[j]);
        }
        lemma_row_model_at(backend, rest, i);
        assert(cols.last() == cols[cols.len() - 1]);
    }
}

/// A null cell, whatever its declared type, reads as Null in the selected
/// row (which `decode_row` returns when every column is supported), unless a
/// later column of the same name overwrites it.
pub proof fn law_null_cell_reads_null(backend: Backend, cols: Seq<RawColumn>, i: int)
    requires
        0 <= i < cols.len(),
        cols[i].is_null,
        forall|j: int| i < j < cols.len() ==> (#[trigger] cols[j]).name@ != cols[i].name@,
    ensures
        supported(backend, cols[i]),
        row_model(backend, cols).contains_key(cols[i].name@),
        row_model(backend, cols)[cols[i].name@] == GenericValue::Null,
{
    lemma_row_model_at(backend, cols, i);
}

/// A numeric cell reads in the selected row as exactly the number that the
/// driver decoded for its category, unless a later column of the same name
/// overwrites it.
pub proof fn law_number_cell_reads_exactly(
    backend: Backend,
    cols: Seq<RawColumn>,
    i: int,
    v: GenericValue,
)
    requires
        0 <= i < cols.len(),
        !cols[i].is_null,
        category_spec(backend, cols[i].declared@) matches Some(k) && (k == Category::Integer || k
            == Category::Unsigned || k == Category::Real || k == Category::Double) && fits(k, v),
        cols[i].typed == Some(v),
        forall|j: int| i < j < cols.len() ==> (#[trigger] cols[j]).name@ != cols[i].name@,
    ensures
        supported(backend, cols[i]),
        row_model(backend, cols).contains_key(cols[i].name@),
        row_model(backend, cols)[cols[i].name@] == v,
{
    lemma_row_model_at(backend, cols, i);
}

/// The column that `decode_row`'s `UnsupportedDatatype` names is unique: it
/// is the first non-null column of an unknown type, so where that is column
/// `i` the error carries `i`'s type name.
pub proof fn law_unknown_type_named(backend: Backend, cols: Seq<RawColumn>, i: int)
    requires
        0 <= i < cols.len(),
        !supported(backend, cols[i]),
        forall|j: int| 0 <= j < i ==> supported(backend, #[trigger] cols[j]),
    ensures
        forall|k: int|
            0 <= k < cols.len() && !supported(backend, #[trigger] cols[k]) && (forall|j: int|
                0 <= j < k ==> supported(backend, #[trigger] cols[j])) ==> k == i,
{
    assert forall|k: int|
        0 <= k < cols.len() && !supported(backend, #[trigger] cols[k]) && (forall|j: int|
            0 <= j < k ==> supported(backend, #[trigger] cols[j])) implies k == i by {
        if k < i {
            assert(supported(backend, cols[k]));
        } else if k > i {
            assert(supported(backend, cols[i]));
        }
    }
}

} // verus!
