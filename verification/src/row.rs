//! Name-keyed row maps and the record mapping capability: how a typed record
//! becomes a sequence of named wire values and how it is rebuilt from the
//! row map a result row produces.

use crate::error::Error;
use crate::schema::{distinct_column_names, schema_models, schema_names, ColumnModel, SchemaColumn};
use crate::types::{MySQLValue, SQLValue};
use vstd::prelude::*;

verus! {

/// The name-view / wire-value pairs of a serialized row.
pub open spec fn pair_models(s: Seq<(String, MySQLValue)>) -> Seq<(Seq<char>, MySQLValue)> {
    s.map_values(|p: (String, MySQLValue)| (p.0@, p.1))
}

/// The names of serialized row pairs, in order.
pub open spec fn pair_names(s: Seq<(Seq<char>, MySQLValue)>) -> Seq<Seq<char>> {
    s.map_values(|p: (Seq<char>, MySQLValue)| p.0)
}

/// Whether the pair names are pairwise distinct.
pub open spec fn distinct_pair_names(s: Seq<(Seq<char>, MySQLValue)>) -> bool {
    forall|i: int, j: int| 0 <= i < j < s.len() ==> s[i].0 != s[j].0
}

/// The name-keyed map holding the pairs; on a repeated name the later pair
/// wins, as it does when a row is folded into a hash map.
pub open spec fn map_of_pairs(s: Seq<(Seq<char>, MySQLValue)>) -> Map<Seq<char>, MySQLValue>
    decreases s.len(),
{
    if s.len() == 0 {
        Map::empty()
    } else {
        map_of_pairs(s.drop_last()).insert(s.last().0, s.last().1)
    }
}

/// A name is in the map exactly when some pair carries it.
pub proof fn lemma_map_of_pairs_contains(s: Seq<(Seq<char>, MySQLValue)>, n: Seq<char>)
    ensures
        map_of_pairs(s).contains_key(n) <==> exists|i: int| 0 <= i < s.len() && s[i].0 == n,
    decreases s.len(),
{
    if s.len() > 0 {
        lemma_map_of_pairs_contains(s.drop_last(), n);
        if s.last().0 == n {
            assert(s[s.len() - 1].0 == n);
        } else if map_of_pairs(s).contains_key(n) {
            let i = choose|i: int| 0 <= i < s.drop_last().len() && s.drop_last()[i].0 == n;
            assert(s[i].0 == n);
        } else if exists|i: int| 0 <= i < s.len() && s[i].0 == n {
            let i = choose|i: int| 0 <= i < s.len() && s[i].0 == n;
            assert(s.drop_last()[i].0 == n);
        }
    }
}

/// With distinct names, the map recovers each pair's own value: looking up
/// the name of any pair yields exactly the wire value that pair carries.
pub proof fn lemma_map_of_pairs_get(s: Seq<(Seq<char>, MySQLValue)>, i: int)
    requires
        distinct_pair_names(s),
        0 <= i < s.len(),
    ensures
        map_of_pairs(s).contains_key(s[i].0),
        map_of_pairs(s)[s[i].0] == s[i].1,
    decreases s.len(),
{
    if i == s.len() - 1 {
    } else {
        assert(distinct_pair_names(s.drop_last()));
        lemma_map_of_pairs_get(s.drop_last(), i);
        assert(s.drop_last()[i] == s[i]);
        assert(s[i].0 != s.last().0);
    }
}

/// Removing the pair that carries `n` removes exactly `n` from the map.
proof fn lemma_map_of_pairs_remove(s: Seq<(Seq<char>, MySQLValue)>, i: int)
    requires
        distinct_pair_names(s),
        0 <= i < s.len(),
    ensures
        map_of_pairs(s.remove(i)) == map_of_pairs(s).remove(s[i].0),
    decreases s.len(),
{
    let n = s[i].0;
    if i == s.len() - 1 {
        assert(s.remove(i) =~= s.drop_last());
        lemma_map_of_pairs_contains(s.drop_last(), n);
        assert(forall|j: int|
            0 <= j < s.drop_last().len() ==> s.drop_last()[j] == s[j] && s[j].0 != n);
        assert(map_of_pairs(s.drop_last()) =~= map_of_pairs(s.drop_last()).insert(
            n,
            s[i].1,
        ).remove(n));
    } else {
        assert(distinct_pair_names(s.drop_last()));
        lemma_map_of_pairs_remove(s.drop_last(), i);
        assert(s.remove(i).drop_last() =~= s.drop_last().remove(i));
        assert(s.remove(i).last() == s.last());
        assert(s.last().0 != n);
        assert(map_of_pairs(s.drop_last()).remove(n).insert(s.last().0, s.last().1)
            =~= map_of_pairs(s.drop_last()).insert(s.last().0, s.last().1).remove(n));
    }
}

/// A row read back from the store: a transient mapping from column name to
/// wire value, scoped to one row's deserialization. The names are distinct.
pub struct RowMap {
    pairs: Vec<(String, MySQLValue)>,
}

impl View for RowMap {
    type V = Map<Seq<char>, MySQLValue>;

    closed spec fn view(&self) -> Map<Seq<char>, MySQLValue> {
        map_of_pairs(pair_models(self.pairs@))
    }
}

impl RowMap {
    /// Well-formedness: the pair names are pairwise distinct. Constructors
    /// establish it and methods preserve it.
    pub closed spec fn wf(self) -> bool {
        distinct_pair_names(pair_models(self.pairs@))
    }

    /// Decides whether serialized pairs carry pairwise distinct names, as a
    /// row map requires.
    pub fn names_distinct(pairs: &Vec<(String, MySQLValue)>) -> (b: bool)
        ensures
            b == distinct_pair_names(pair_models(pairs@)),
    {
        let ghost models = pair_models(pairs@);
        let mut i: usize = 0;
        while i < pairs.len()
            invariant
                i <= pairs.len(),
                models == pair_models(pairs@),
                forall|p: int, q: int| 0 <= p < q < models.len() && p < i ==> models[p].0
                    != models[q].0,
            decreases pairs.len() - i,
        {
            let mut j: usize = i + 1;
            while j < pairs.len()
                invariant
                    i < j <= pairs.len(),
                    models == pair_models(pairs@),
                    forall|q: int| i < q < j ==> models[i as int].0 != models[q].0,
                decreases pairs.len() - j,
            {
                if pairs[i].0 == pairs[j].0 {
                    proof {
                        assert(models[i as int].0 == models[j as int].0);
                    }
                    return false;
                }
                j += 1;
            }
            i += 1;
        }
        true
    }

    /// Folds serialized pairs into a name-keyed row map.
    pub fn from_pairs(pairs: Vec<(String, MySQLValue)>) -> (m: RowMap)
        requires
            distinct_pair_names(pair_models(pairs@)),
        ensures
            m.wf(),
            m@ == map_of_pairs(pair_models(pairs@)),
    {
        RowMap { pairs }
    }

    /// Whether the map has a column of this name.
    pub fn contains(&self, name: &str) -> (b: bool)
        ensures
            b == self@.contains_key(name@),
    {
        let key = name.to_owned();
        let ghost models = pair_models(self.pairs@);
        let mut i: usize = 0;
        while i < self.pairs.len()
            invariant
                i <= self.pairs.len(),
                key@ == name@,
                models == pair_models(self.pairs@),
                forall|j: int| 0 <= j < i ==> models[j].0 != name@,
            decreases self.pairs.len() - i,
        {
            if self.pairs[i].0 == key {
                proof {
                    lemma_map_of_pairs_contains(models, name@);
                    assert(models[i as int].0 == name@);
                }
                return true;
            }
            i += 1;
        }
        proof {
            lemma_map_of_pairs_contains(models, name@);
        }
        false
    }

    /// Takes the column `name` out of the map and decodes it as a `V`.
    ///
    /// Fails with a shape mismatch, leaving the map unchanged, when the
    /// column is absent or its wire value does not have `V`'s shape; the
    /// error carries the column's name.
    pub fn take_column<V: SQLValue>(&mut self, name: &str) -> (r: Result<V, Error>)
        requires
            old(self).wf(),
        ensures
            final(self).wf(),
            match r {
                Result::Ok(v) => {
                    &&& old(self)@.contains_key(name@)
                    &&& V::wire_matches(old(self)@[name@])
                    &&& v == V::spec_deserialize(old(self)@[name@])
                    &&& final(self)@ == old(self)@.remove(name@)
                },
                Result::Err(e) => {
                    &&& e matches Error::ShapeMismatchError(missing) && missing@ == name@
                    &&& !(old(self)@.contains_key(name@) && V::wire_matches(old(self)@[name@]))
                    &&& final(self)@ == old(self)@
                },
            },
    {
        let key = name.to_owned();
        let ghost models = pair_models(self.pairs@);
        let mut i: usize = 0;
        while i < self.pairs.len()
            invariant
                i <= self.pairs.len(),
                key@ == name@,
                *self == *old(self),
                models == pair_models(self.pairs@),
                distinct_pair_names(models),
                forall|j: int| 0 <= j < i ==> models[j].0 != name@,
            decreases self.pairs.len() - i,
        {
            if self.pairs[i].0 == key {
                proof {
                    assert(models[i as int] == (self.pairs@[i as int].0@, self.pairs@[i as int].1));
                    assert(models[i as int].0 == name@);
                    lemma_map_of_pairs_get(models, i as int);
                }
                if !V::wire_ok(&self.pairs[i].1) {
                    return Result::Err(Error::ShapeMismatchError(key));
                }
                let (_, w) = self.pairs.remove(i);
                proof {
                    lemma_map_of_pairs_remove(models, i as int);
                    let rest = models.remove(i as int);
                    assert(pair_models(self.pairs@) =~= rest);
                    assert forall|p: int, q: int| 0 <= p < q < rest.len() implies rest[p].0
                        != rest[q].0 by {
                        let p0 = if p < i { p } else { p + 1 };
                        let q0 = if q < i { q } else { q + 1 };
                        assert(rest[p] == models[p0]);
                        assert(rest[q] == models[q0]);
                    }
                    assert(distinct_pair_names(pair_models(self.pairs@)));
                }
                return Result::Ok(V::deserialize(w));
            }
            i += 1;
        }
        proof {
            lemma_map_of_pairs_contains(models, name@);
        }
        Result::Err(Error::ShapeMismatchError(key))
    }
}

/// The capability of rebuilding `Self` from a row map. On its own — without
/// the table capability below — it also serves read-only projections such as
/// joined views that do not own a writable table.
pub trait SQLMapper: Sized {
    /// The model of `map_from_sql`: the record a row map holds, or `None`
    /// when the map does not have the shape this type expects. The default
    /// leaves the model unspecified; an implementation inside the library
    /// replaces it, or its contracts say nothing.
    open spec fn spec_from_row(m: Map<Seq<char>, MySQLValue>) -> Option<Self> {
        arbitrary()
    }

    /// Rebuilds a record from a row map, consuming the map. Fails with a
    /// shape mismatch exactly when the map does not decode.
    fn map_from_sql(values: RowMap) -> (r: Result<Self, Error>)
        requires
            values.wf(),
        ensures
            match r {
                Result::Ok(v) => Self::spec_from_row(values@) == Some(v),
                Result::Err(e) => Self::spec_from_row(values@) is None && e
                    is ShapeMismatchError,
            },
    ;
}

/// The full table capability of a record type: a table name, a declared
/// column schema, and serialization of one record to named wire values.
///
/// The proof obligations at the end are the laws every record type must
/// uphold; they are what the migration engine and the row decoders build on.
pub trait SQLTable: SQLMapper {
    /// The table's name. The default leaves the model unspecified; an
    /// implementation replaces it, or its contracts say nothing.
    open spec fn spec_table_name() -> Seq<char> {
        arbitrary()
    }

    /// The declared column schema, in declaration order. Unspecified by
    /// default, as above.
    open spec fn spec_schema() -> Seq<ColumnModel> {
        arbitrary()
    }

    /// The fixed column order of a serialized row, shared by all records of
    /// this type. Unspecified by default, as above.
    open spec fn spec_row_names() -> Seq<Seq<char>> {
        arbitrary()
    }

    /// The serialized row of this record: named wire values, in
    /// `spec_row_names` order. Unspecified by default, as above.
    open spec fn spec_row(self) -> Seq<(Seq<char>, MySQLValue)> {
        arbitrary()
    }

    /// The table's name.
    fn table_name() -> (r: String)
        ensures
            r@ == Self::spec_table_name(),
    ;

    /// The declared column schema.
    fn schema_of() -> (r: Vec<SchemaColumn>)
        ensures
            schema_models(r@) == Self::spec_schema(),
    ;

    /// Serializes this record to named wire values.
    fn map_to_sql(self) -> (r: Vec<(String, MySQLValue)>)
        ensures
            pair_models(r@) == self.spec_row(),
    ;

    /// The declared column names are pairwise distinct.
    proof fn lemma_schema_wf()
        ensures
            distinct_column_names(Self::spec_schema()),
    ;

    /// A serialized row carries each column once, under the fixed name
    /// order, and its name set agrees with the declared schema's: the
    /// mapping neither drops nor invents columns.
    proof fn lemma_row_wf(self)
        ensures
            distinct_pair_names(self.spec_row()),
            pair_names(self.spec_row()) == Self::spec_row_names(),
            pair_names(self.spec_row()).to_set() == schema_names(Self::spec_schema()).to_set(),
    ;

    /// Record round trip: folding a record's serialized row into a row map
    /// and mapping it back yields the record.
    proof fn lemma_roundtrip(self)
        ensures
            Self::spec_from_row(map_of_pairs(self.spec_row())) == Some(self),
    ;
}

/// Record round trip through the planning layer: the parameter row that
/// saving a record serializes to, folded into a name-keyed row map as the
/// store's reader does, maps back to exactly that record.
pub proof fn lemma_record_roundtrip<T: SQLTable>(r: T)
    ensures
        distinct_pair_names(r.spec_row()),
        T::spec_from_row(map_of_pairs(r.spec_row())) == Some(r),
{
    r.lemma_row_wf();
    r.lemma_roundtrip();
}

} // verus!
