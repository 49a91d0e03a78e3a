use vstd::prelude::*;

use crate::json::{
    distinct_keys, has_key, list_pairs_match_map, pair_keys, pairs_match_map, strings_view,
};
use crate::messages::WindowMessage;

verus! {

/// What the rebuild screen holds: the chosen table, whether its rows are to
/// be inserted again, the SQL that creates each table and the SQL that fills
/// it, the last success message, and the table names offered in the menu.
#[derive(Debug, Clone)]
pub struct Rebuild {
    /// The table the user chose.
    pub modal: String,
    /// Whether the table's rows are inserted after it is created.
    pub add_rows: bool,
    /// Each table's name with the SQL that creates it.
    pub sql_tables: Vec<(String, String)>,
    /// Each table's name with the SQL statements that fill it.
    pub sql_rows: Vec<(String, Vec<String>)>,
    /// The message shown after a successful rebuild.
    pub window_message: WindowMessage,
    /// The table names offered in the menu.
    pub gear: Vec<String>,
}

/// `i` is the first index of a pair whose key is `key`.
pub open spec fn first_key_index<V>(pairs: Seq<(String, V)>, key: Seq<char>, i: int) -> bool {
    &&& 0 <= i < pairs.len()
    &&& pairs[i].0@ == key
    &&& forall|k: int| 0 <= k < i ==> #[trigger] pairs[k].0@ != key
}

/// The index of the first pair whose key is `key`.
pub open spec fn key_index<V>(pairs: Seq<(String, V)>, key: Seq<char>) -> int {
    choose|i: int| first_key_index(pairs, key, i)
}

/// Where a key occurs, its first occurrence exists and is unique.
pub proof fn lemma_key_index<V>(pairs: Seq<(String, V)>, key: Seq<char>, i: int)
    requires
        0 <= i < pairs.len(),
        pairs[i].0@ == key,
    ensures
        first_key_index(pairs, key, key_index(pairs, key)),
        key_index(pairs, key) <= i,
        distinct_keys(pairs) ==> key_index(pairs, key) == i,
    decreases i,
{
    if exists|k: int| 0 <= k < i && #[trigger] pairs[k].0@ == key {
        let k = choose|k: int| 0 <= k < i && #[trigger] pairs[k].0@ == key;
        lemma_key_index(pairs, key, k);
    } else {
        assert(first_key_index(pairs, key, i));
        let j = key_index(pairs, key);
        if j < i {
            assert(pairs[j].0@ == key);
        } else if j > i {
            assert(pairs[i].0@ != key);
        }
    }
}

/// Whether some pair has `key` as its key.
pub fn contains_key<V>(pairs: &Vec<(String, V)>, key: &String) -> (res: bool)
    ensures
        res == has_key(pairs@, key@),
{
    let n = pairs.len();
    let mut i: usize = 0;
    while i < n
        invariant
            n == pairs@.len(),
            i <= n,
            forall|k: int| 0 <= k < i ==> #[trigger] pairs@[k].0@ != key@,
        decreases n - i,
    {
        if pairs[i].0 == *key {
            return true;
        }
        i = i + 1;
    }
    false
}

impl Default for Rebuild {
    /// An empty rebuild screen, as `Rebuild::default` builds it.
    fn default() -> (res: Rebuild)
        ensures
            res.modal@ == Seq::<char>::empty(),
            !res.add_rows,
            res.sql_tables@.len() == 0,
            res.sql_rows@.len() == 0,
            res.window_message@ == (false, None::<Seq<char>>),
            res.gear@.len() == 0,
    {
        Rebuild::default()
    }
}

impl Rebuild {
    /// A rebuild of the chosen table can start: the table has creating SQL,
    /// and, when rows are to be inserted, filling SQL.
    pub open spec fn spec_ready(&self) -> bool {
        &&& has_key(self.sql_tables@, self.modal@)
        &&& self.add_rows ==> has_key(self.sql_rows@, self.modal@)
    }

    /// Whether a rebuild of the chosen table can start.
    pub fn ready_to_rebuild(&self) -> (res: bool)
        ensures
            res == self.spec_ready(),
    {
        contains_key(&self.sql_tables, &self.modal) && (!self.add_rows || contains_key(
            &self.sql_rows,
            &self.modal,
        ))
    }

    /// Flips whether the table's rows are inserted after it is created.
    pub fn toggle_add_rows(&mut self)
        ensures
            final(self).add_rows == !old(self).add_rows,
            final(self).modal == old(self).modal,
            final(self).sql_tables == old(self).sql_tables,
            final(self).sql_rows == old(self).sql_rows,
            final(self).window_message == old(self).window_message,
            final(self).gear == old(self).gear,
    {
        self.add_rows = !self.add_rows;
    }

    /// Whether a table has been chosen (the choice is not empty).
    pub fn table_chosen(&self) -> (res: bool)
        ensures
            res == (self.modal@.len() > 0),
    {
        let empty = String::new();
        let same = self.modal == empty;
        proof {
            if self.modal@.len() == 0 {
                assert(self.modal@ =~= empty@);
            }
        }
        !same
    }

    /// Each table name occurs at most once in each list.
    pub open spec fn wf(&self) -> bool {
        &&& distinct_keys(self.sql_tables@)
        &&& distinct_keys(self.sql_rows@)
    }

    /// The SQL that creates the chosen table.
    pub open spec fn chosen_table_sql(&self) -> Seq<char> {
        self.sql_tables@[key_index(self.sql_tables@, self.modal@)].1@
    }

    /// The SQL statements that fill the chosen table.
    pub open spec fn chosen_rows_sql(&self) -> Seq<Seq<char>> {
        strings_view(self.sql_rows@[key_index(self.sql_rows@, self.modal@)].1@)
    }

    /// An empty rebuild screen: no table chosen, rows not inserted, no SQL,
    /// no message, an empty menu.
    pub fn default() -> (res: Rebuild)
        ensures
            res.modal@ == Seq::<char>::empty(),
            !res.add_rows,
            res.sql_tables@.len() == 0,
            res.sql_rows@.len() == 0,
            res.window_message@ == (false, None::<Seq<char>>),
            res.gear@.len() == 0,
            res.wf(),
    {
        Rebuild {
            modal: String::new(),
            add_rows: false,
            sql_tables: Vec::new(),
            sql_rows: Vec::new(),
            window_message: WindowMessage::default(),
            gear: Vec::new(),
        }
    }

    /// The SQL that creates the chosen table. The chosen table must have an
    /// entry.
    pub fn get_sql_table_string(&self) -> (res: &String)
        requires
            has_key(self.sql_tables@, self.modal@),
        ensures
            res@ == self.chosen_table_sql(),
    {
        let mut i: usize = 0;
        proof {
            let j = choose|j: int| 0 <= j < self.sql_tables@.len() && #[trigger] self.sql_tables@[j].0@ == self.modal@;
            lemma_key_index(self.sql_tables@, self.modal@, j);
        }
        while !(self.sql_tables[i].0 == self.modal)
            invariant
                first_key_index(self.sql_tables@, self.modal@, key_index(self.sql_tables@, self.modal@)),
                i <= key_index(self.sql_tables@, self.modal@) < self.sql_tables.len(),
            decreases key_index(self.sql_tables@, self.modal@) - i,
        {
            i = i + 1;
        }
        &self.sql_tables[i].1
    }

    /// The SQL statements that fill the chosen table. The chosen table must
    /// have an entry.
    pub fn get_sql_rows_string(&self) -> (res: &Vec<String>)
        requires
            has_key(self.sql_rows@, self.modal@),
        ensures
            strings_view(res@) == self.chosen_rows_sql(),
    {
        let mut i: usize = 0;
        proof {
            let j = choose|j: int| 0 <= j < self.sql_rows@.len() && #[trigger] self.sql_rows@[j].0@ == self.modal@;
            lemma_key_index(self.sql_rows@, self.modal@, j);
        }
        while !(self.sql_rows[i].0 == self.modal)
            invariant
                first_key_index(self.sql_rows@, self.modal@, key_index(self.sql_rows@, self.modal@)),
                i <= key_index(self.sql_rows@, self.modal@) < self.sql_rows.len(),
            decreases key_index(self.sql_rows@, self.modal@) - i,
        {
            i = i + 1;
        }
        &self.sql_rows[i].1
    }

    /// The table names to offer in the menu: the names of all tables that
    /// have SQL, in the order they are held.
    pub fn build_mmg(some_rebuild: &Rebuild) -> (res: Vec<String>)
        ensures
            strings_view(res@) == pair_keys(some_rebuild.sql_tables@),
    {
        let mut some_vec: Vec<String> = Vec::new();
        let n = some_rebuild.sql_tables.len();
        let mut i: usize = 0;
        while i < n
            invariant
                n == some_rebuild.sql_tables@.len(),
                i <= n,
                some_vec@.len() == i,
                forall|k: int| 0 <= k < i ==> #[trigger] some_vec@[k]@ == some_rebuild.sql_tables@[k].0@,
            decreases n - i,
        {
            some_vec.push(some_rebuild.sql_tables[i].0.clone());
            i = i + 1;
        }
        assert(strings_view(some_vec@) =~= pair_keys(some_rebuild.sql_tables@));
        some_vec
    }
}

/// When the tables' SQL was parsed from a JSON object, the SQL that rebuilds
/// a chosen table is that table's entry of the object, and a table has SQL
/// exactly when the object names it.
pub proof fn law_table_sql_is_parsed_sql(r: Rebuild, m: Map<Seq<char>, Seq<char>>)
    requires
        pairs_match_map(r.sql_tables@, m),
    ensures
        has_key(r.sql_tables@, r.modal@) <==> m.dom().contains(r.modal@),
        m.dom().contains(r.modal@) ==> r.chosen_table_sql() == m[r.modal@],
{
    if m.dom().contains(r.modal@) {
        let i = choose|i: int| 0 <= i < r.sql_tables@.len() && #[trigger] r.sql_tables@[i].0@ == r.modal@;
        lemma_key_index(r.sql_tables@, r.modal@, i);
    }
}

/// When the rows' SQL was parsed from a JSON object, the statements that
/// fill a chosen table are that table's entry of the object, and a table has
/// statements exactly when the object names it.
pub proof fn law_rows_sql_is_parsed_sql(r: Rebuild, m: Map<Seq<char>, Seq<Seq<char>>>)
    requires
        list_pairs_match_map(r.sql_rows@, m),
    ensures
        has_key(r.sql_rows@, r.modal@) <==> m.dom().contains(r.modal@),
        m.dom().contains(r.modal@) ==> r.chosen_rows_sql() == m[r.modal@],
{
    if m.dom().contains(r.modal@) {
        let i = choose|i: int| 0 <= i < r.sql_rows@.len() && #[trigger] r.sql_rows@[i].0@ == r.modal@;
        lemma_key_index(r.sql_rows@, r.modal@, i);
    }
}

/// Every table the rebuild menu offers has SQL that creates it.
pub proof fn law_offered_tables_have_sql(r: Rebuild, i: int)
    requires
        strings_view(r.gear@) == pair_keys(r.sql_tables@),
        0 <= i < r.gear@.len(),
    ensures
        has_key(r.sql_tables@, r.gear@[i]@),
{
    assert(strings_view(r.gear@).len() == r.gear@.len());
    assert(pair_keys(r.sql_tables@).len() == r.sql_tables@.len());
    assert(i < r.sql_tables@.len());
    assert(strings_view(r.gear@)[i] == pair_keys(r.sql_tables@)[i]);
    assert(strings_view(r.gear@)[i] == r.gear@[i]@);
    assert(pair_keys(r.sql_tables@)[i] == r.sql_tables@[i].0@);
    assert(r.sql_tables@[i].0@ == r.gear@[i]@);
}

} // verus!
