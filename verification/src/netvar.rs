use vstd::prelude::*;

verus! {

/// The kind of value a networked property holds.
#[derive(Debug, PartialEq, Eq, Structural, Clone, Copy)]
pub enum PropType {
    Int,
    Float,
    Vec,
    VecXY,
    String,
    Array,
    DataTable,
    Int64,
}

/// The engine's number for each property kind, as `PropType` is laid out in memory.
pub open spec fn prop_type_number(t: PropType) -> int {
    match t {
        PropType::Int => 0,
        PropType::Float => 1,
        PropType::Vec => 2,
        PropType::VecXY => 3,
        PropType::String => 4,
        PropType::Array => 5,
        PropType::DataTable => 6,
        PropType::Int64 => 7,
    }
}

impl PropType {
    /// The engine's number for this kind.
    pub fn to_i32(self) -> (r: i32)
        ensures
            r == prop_type_number(self),
    {
        match self {
            PropType::Int => 0,
            PropType::Float => 1,
            PropType::Vec => 2,
            PropType::VecXY => 3,
            PropType::String => 4,
            PropType::Array => 5,
            PropType::DataTable => 6,
            PropType::Int64 => 7,
        }
    }

    /// The kind a raw number stands for; `None` for numbers no kind has.
    pub fn from_i32(v: i32) -> (r: Option<PropType>)
        ensures
            r matches Some(t) ==> prop_type_number(t) == v,
            r is None <==> !(0 <= v <= 7),
    {
        if v == 0 {
            Some(PropType::Int)
        } else if v == 1 {
            Some(PropType::Float)
        } else if v == 2 {
            Some(PropType::Vec)
        } else if v == 3 {
            Some(PropType::VecXY)
        } else if v == 4 {
            Some(PropType::String)
        } else if v == 5 {
            Some(PropType::Array)
        } else if v == 6 {
            Some(PropType::DataTable)
        } else if v == 7 {
            Some(PropType::Int64)
        } else {
            None
        }
    }
}


/// `table` and `name` joined by an arrow, as netvar keys are spelled: `table->name`.
pub open spec fn joined_key(table: Seq<char>, name: Seq<char>) -> Seq<char> {
    table + seq!['-', '>'] + name
}

/// `s` with its first occurrence of `c` replaced by `rep`; `s` itself when `c` does
/// not occur in it.
pub open spec fn replace_first(s: Seq<char>, c: char, rep: Seq<char>) -> Seq<char>
    decreases s.len(),
{
    if s.len() == 0 {
        s
    } else if s[0] == c {
        rep + s.drop_first()
    } else {
        seq![s[0]] + replace_first(s.drop_first(), c, rep)
    }
}

/// The key under which a property of a class is stored: the class name and the
/// property name joined by an arrow, with the first `C` of the whole key turned into
/// `DT_` (so class `CCSPlayer` gives keys that start with `DT_CSPlayer->`).
pub open spec fn stored_key(group: Seq<char>, name: Seq<char>) -> Seq<char> {
    replace_first(joined_key(group, name), 'C', seq!['D', 'T', '_'])
}

/// Where `c` first occurs in `s`, `i` is that position and `replace_first` splices
/// `rep` in there.
proof fn lemma_replace_at_first(s: Seq<char>, c: char, rep: Seq<char>, i: int)
    requires
        0 <= i < s.len(),
        s[i] == c,
        forall|j: int| 0 <= j < i ==> s[j] != c,
    ensures
        replace_first(s, c, rep) == s.take(i) + rep + s.skip(i + 1),
    decreases i,
{
    if i == 0 {
        assert(s.skip(1) =~= s.drop_first());
        assert(s.take(0) + rep =~= rep);
    } else {
        let t = s.drop_first();
        assert forall|j: int| 0 <= j < i - 1 implies t[j] != c by {
            assert(t[j] == s[j + 1]);
        }
        lemma_replace_at_first(t, c, rep, i - 1);
        assert(seq![s[0]] + (t.take(i - 1) + rep + t.skip(i)) =~= s.take(i) + rep + s.skip(i + 1));
    }
}

/// Where `c` does not occur in `s`, `replace_first` leaves `s` as it is.
proof fn lemma_replace_absent(s: Seq<char>, c: char, rep: Seq<char>)
    requires
        forall|j: int| 0 <= j < s.len() ==> s[j] != c,
    ensures
        replace_first(s, c, rep) == s,
    decreases s.len(),
{
    if s.len() > 0 {
        let t = s.drop_first();
        assert forall|j: int| 0 <= j < t.len() implies t[j] != c by {
            assert(t[j] == s[j + 1]);
        }
        lemma_replace_absent(t, c, rep);
        assert(seq![s[0]] + t =~= s);
    }
}

/// `table->name`, the key that lookups use.
pub fn join_key(table: &str, name: &str) -> (r: String)
    ensures
        r@ == joined_key(table@, name@),
{
    let mut key = String::from_str(table);
    key.append("->");
    key.append(name);
    proof {
        reveal_strlit("->");
        assert("->"@ =~= seq!['-', '>']);
    }
    key
}

/// `s` with its first `c` replaced by `rep`.
pub fn replace_first_char(s: &str, c: char, rep: &str) -> (r: String)
    ensures
        r@ == replace_first(s@, c, rep@),
{
    let n = s.unicode_len();
    let mut i: usize = 0;
    while i < n
        invariant
            n == s@.len(),
            i <= n,
            forall|j: int| 0 <= j < i ==> s@[j] != c,
        decreases n - i,
    {
        if s.get_char(i) == c {
            proof {
                lemma_replace_at_first(s@, c, rep@, i as int);
            }
            let mut out = String::from_str(s.substring_char(0, i));
            out.append(rep);
            out.append(s.substring_char(i + 1, n));
            assert(s@.subrange(0, i as int) =~= s@.take(i as int));
            assert(s@.subrange(i + 1, n as int) =~= s@.skip(i + 1));
            return out;
        }
        i = i + 1;
    }
    proof {
        lemma_replace_absent(s@, c, rep@);
    }
    String::from_str(s)
}

/// The key a property of class `group` is stored under.
pub fn store_key(group: &str, name: &str) -> (r: String)
    ensures
        r@ == stored_key(group@, name@),
{
    let joined = join_key(group, name);
    proof {
        reveal_strlit("DT_");
        assert("DT_"@ =~= seq!['D', 'T', '_']);
    }
    replace_first_char(joined.as_str(), 'C', "DT_")
}


/// Whether no key occurs twice in a list of entries.
pub open spec fn distinct_keys(s: Seq<(String, usize)>) -> bool {
    forall|i: int, j: int|
        0 <= i < s.len() && 0 <= j < s.len() && i != j ==> #[trigger] s[i].0@ != #[trigger] s[j].0@
}

/// Whether entry `i` of `s` holds key `k`.
pub open spec fn key_at(s: Seq<(String, usize)>, k: Seq<char>, i: int) -> bool {
    0 <= i < s.len() && s[i].0@ == k
}

/// The keys that occur in a list of entries.
pub open spec fn key_set(s: Seq<(String, usize)>) -> Set<Seq<char>> {
    Set::new(|k: Seq<char>| exists|i: int| key_at(s, k, i))
}

/// The map a list of entries with distinct keys stands for.
pub open spec fn entries_map(s: Seq<(String, usize)>) -> Map<Seq<char>, usize> {
    Map::new(
        |k: Seq<char>| exists|i: int| key_at(s, k, i),
        |k: Seq<char>| s[choose|i: int| key_at(s, k, i)].1,
    )
}

proof fn lemma_entry_value(s: Seq<(String, usize)>, k: Seq<char>, i: int)
    requires
        distinct_keys(s),
        key_at(s, k, i),
    ensures
        entries_map(s).contains_key(k),
        entries_map(s)[k] == s[i].1,
{
    let c = choose|c: int| key_at(s, k, c);
    assert(key_at(s, k, c));
    if c != i {
        assert(s[c].0@ != s[i].0@);
    }
}

proof fn lemma_key_set_len(s: Seq<(String, usize)>)
    requires
        distinct_keys(s),
    ensures
        key_set(s).finite(),
        key_set(s).len() == s.len(),
    decreases s.len(),
{
    if s.len() == 0 {
        assert(key_set(s) =~= Set::<Seq<char>>::empty());
    } else {
        let p = s.drop_last();
        let last = s.last().0@;
        assert(distinct_keys(p)) by {
            assert forall|i: int, j: int|
                0 <= i < p.len() && 0 <= j < p.len() && i != j implies #[trigger] p[i].0@ != #[trigger] p[j].0@ by {
                assert(s[i].0@ != s[j].0@);
            }
        }
        lemma_key_set_len(p);
        assert(key_set(s) =~= key_set(p).insert(last)) by {
            assert forall|k: Seq<char>| #[trigger] key_set(s).contains(k) implies key_set(p).insert(last).contains(k) by {
                let i = choose|i: int| key_at(s, k, i);
                if i < s.len() - 1 {
                    assert(key_at(p, k, i));
                }
            }
            assert forall|k: Seq<char>| #[trigger] key_set(p).insert(last).contains(k) implies key_set(s).contains(k) by {
                if k == last {
                    assert(key_at(s, k, s.len() - 1));
                } else {
                    let i = choose|i: int| key_at(p, k, i);
                    assert(key_at(s, k, i));
                }
            }
        }
        assert(!key_set(p).contains(last)) by {
            if key_set(p).contains(last) {
                let i = choose|i: int| key_at(p, last, i);
                assert(s[i].0@ != s[s.len() - 1].0@);
            }
        }
    }
}

/// The offsets of networked properties, keyed by `table->property` names.
///
/// Each key occurs at most once; inserting a key that is present replaces its value.
pub struct NetvarMap {
    entries: Vec<(String, usize)>,
}

impl NetvarMap {
    #[verifier::type_invariant]
    closed spec fn keys_distinct(self) -> bool {
        distinct_keys(self.entries@)
    }

    /// A map with no keys.
    pub fn new() -> (r: NetvarMap)
        ensures
            r@ == Map::<Seq<char>, usize>::empty(),
    {
        let r = NetvarMap { entries: Vec::new() };
        assert(r@ =~= Map::<Seq<char>, usize>::empty());
        r
    }

    /// The number of keys.
    pub fn len(&self) -> (r: usize)
        ensures
            r == self@.dom().len(),
    {
        proof {
            use_type_invariant(self);
            lemma_key_set_len(self.entries@);
            assert(self@.dom() =~= key_set(self.entries@));
        }
        self.entries.len()
    }

    /// The value stored under `key`, if any.
    pub fn get(&self, key: &String) -> (r: Option<usize>)
        ensures
            self@.contains_key(key@) ==> r == Some(self@[key@]),
            !self@.contains_key(key@) ==> r is None,
    {
        proof {
            use_type_invariant(self);
        }
        let n = self.entries.len();
        let mut j: usize = 0;
        while j < n
            invariant
                n == self.entries@.len(),
                distinct_keys(self.entries@),
                j <= n,
                forall|i: int| 0 <= i < j ==> self.entries@[i].0@ != key@,
            decreases n - j,
        {
            if self.entries[j].0 == *key {
                proof {
                    lemma_entry_value(self.entries@, key@, j as int);
                }
                return Some(self.entries[j].1);
            }
            j = j + 1;
        }
        None
    }

    /// Stores `value` under `key`, replacing the value the key had.
    pub fn insert(&mut self, key: String, value: usize)
        ensures
            final(self)@ == old(self)@.insert(key@, value),
    {
        proof {
            use_type_invariant(&*self);
        }
        let ghost before = self.entries@;
        let ghost k = key@;
        let mut entries: Vec<(String, usize)> = Vec::new();
        std::mem::swap(&mut entries, &mut self.entries);
        let n = entries.len();
        let mut j: usize = 0;
        let mut found = false;
        while j < n
            invariant_except_break
                n == entries@.len(),
                entries@ == before,
                k == key@,
                !found,
                j <= n,
                forall|i: int| 0 <= i < j ==> entries@[i].0@ != k,
            ensures
                n == entries@.len(),
                entries@ == before,
                found ==> j < n && entries@[j as int].0@ == k,
                !found ==> forall|i: int| 0 <= i < n ==> entries@[i].0@ != k,
            decreases n - j,
        {
            if entries[j].0 == key {
                found = true;
                break;
            }
            j = j + 1;
        }
        if found {
            entries.set(j, (key, value));
        } else {
            entries.push((key, value));
        }
        proof {
            let after = entries@;
            assert(distinct_keys(after)) by {
                assert forall|a: int, b: int|
                    0 <= a < after.len() && 0 <= b < after.len() && a != b
                        implies #[trigger] after[a].0@ != #[trigger] after[b].0@ by {
                    if a < n && b < n {
                        if found {
                            if a != j && b != j {
                                assert(before[a].0@ != before[b].0@);
                            } else if a == j {
                                assert(before[b].0@ != before[a].0@);
                            } else {
                                assert(before[a].0@ != before[b].0@);
                            }
                        } else {
                            assert(before[a].0@ != before[b].0@);
                        }
                    }
                }
            }
            let pos: int = if found { j as int } else { n as int };
            assert(key_at(after, k, pos));
            assert forall|q: Seq<char>| #[trigger] entries_map(after).contains_key(q)
                == entries_map(before).insert(k, value).contains_key(q) by {
                if q == k {
                    assert(key_at(after, q, pos));
                } else if entries_map(after).contains_key(q) {
                    let i = choose|i: int| key_at(after, q, i);
                    assert(key_at(before, q, i));
                } else if entries_map(before).contains_key(q) {
                    let i = choose|i: int| key_at(before, q, i);
                    assert(key_at(after, q, i));
                }
            }
            assert forall|q: Seq<char>| #[trigger] entries_map(after).contains_key(q)
                implies entries_map(after)[q] == entries_map(before).insert(k, value)[q] by {
                if q == k {
                    lemma_entry_value(after, q, pos);
                } else {
                    let i = choose|i: int| key_at(after, q, i);
                    lemma_entry_value(after, q, i);
                    lemma_entry_value(before, q, i);
                }
            }
            assert(entries_map(after) =~= entries_map(before).insert(k, value));
        }
        self.entries = entries;
    }
}

impl View for NetvarMap {
    type V = Map<Seq<char>, usize>;

    closed spec fn view(&self) -> Map<Seq<char>, usize> {
        entries_map(self.entries@)
    }
}


/// The offset a map gives for `key`, and 0 for a key it does not hold.
pub open spec fn offset_of(m: Map<Seq<char>, usize>, key: Seq<char>) -> usize {
    if m.contains_key(key) {
        m[key]
    } else {
        0
    }
}

/// The offset of property `netvar` of table `table`, as stored under `table->netvar`;
/// 0 when no such key was stored.
pub fn get_offset(netvars: &NetvarMap, table: &str, netvar: &str) -> (r: usize)
    ensures
        r == offset_of(netvars@, joined_key(table@, netvar@)),
{
    let key = join_key(table, netvar);
    match netvars.get(&key) {
        Some(v) => v,
        None => 0,
    }
}

/// A networked property as the game describes it: its name, its kind, its offset
/// within the object and, for a nested table, that table.
pub struct RecvProp {
    pub prop_name: String,
    pub prop_type: PropType,
    pub offset: i32,
    pub data_table: Option<Box<RecvTable>>,
}

/// A table of networked properties.
pub struct RecvTable {
    pub table_name: String,
    pub recv_props: Vec<RecvProp>,
}

/// A networked class: its name and its table of properties.
pub struct ClientClass {
    pub network_name: String,
    pub recv_table: RecvTable,
}

/// Whether Unicode classes `c` as numeric (a general category for numbers).
pub uninterp spec fn is_numeric_char(c: char) -> bool;

/// Calls `char::is_numeric`. Its documentation defines the result as "has one of
/// the general categories for numbers" (Nd, Nl, No), which the name
/// `is_numeric_char` stands for. Within ASCII the only characters of those
/// categories are the digits `0` to `9`, and the contract states that; for other
/// characters it states nothing beyond the name.
#[verifier::external_body]
fn char_is_numeric(c: char) -> (r: bool)
    ensures
        r == is_numeric_char(c),
        (c as u32) < 128 ==> (r == ('0' <= c <= '9')),
{
    c.is_numeric()
}

/// Whether a character is numeric in Unicode's sense: within ASCII exactly the
/// digits `0` to `9`; beyond ASCII, what `char::is_numeric` says.
pub open spec fn numeric_char(c: char) -> bool {
    if (c as u32) < 128 {
        '0' <= c <= '9'
    } else {
        is_numeric_char(c)
    }
}

/// The name `baseclass`, which marks the property that links a table to its parent.
pub open spec fn baseclass_name() -> Seq<char> {
    seq!['b', 'a', 's', 'e', 'c', 'l', 'a', 's', 's']
}

/// Properties that are not stored: names starting with a numeric character (array
/// elements) and the `baseclass` link.
pub open spec fn prop_skipped(p: RecvProp) -> bool {
    numeric_char(p.prop_name@[0]) || p.prop_name@ == baseclass_name()
}

/// Properties whose nested table is walked as well: data-table properties whose
/// nested table's name starts with `D`.
pub open spec fn prop_descends(p: RecvProp) -> bool {
    &&& p.data_table is Some
    &&& p.prop_type == PropType::DataTable
    &&& p.data_table->0.table_name@.len() > 0
    &&& p.data_table->0.table_name@[0] == 'D'
}

/// The offset a property gets when its table sits `child_offset` bytes into the
/// object: its own offset, read as an unsigned machine word, plus `child_offset`.
pub open spec fn prop_offset(p: RecvProp, child_offset: int) -> int {
    (p.offset as usize) + child_offset
}

/// The insertions, in order, that walking `props` makes for class `group` when the
/// table sits `child_offset` bytes into the object: for each stored property, first
/// those of its nested table (when walked), then its own key with its offset.
pub open spec fn props_updates(group: Seq<char>, props: Seq<RecvProp>, child_offset: int) -> Seq<(Seq<char>, int)>
    decreases props,
{
    if props.len() == 0 {
        seq![]
    } else {
        let p = props.last();
        let before = props_updates(group, props.drop_last(), child_offset);
        if prop_skipped(p) {
            before
        } else {
            let here = prop_offset(p, child_offset);
            let nested = if prop_descends(p) {
                props_updates(group, p.data_table->0.recv_props@, here)
            } else {
                seq![]
            };
            before + nested + seq![(stored_key(group, p.prop_name@), here)]
        }
    }
}

/// Whether walking `props` at `child_offset` stays within what the walk handles:
/// every property it looks at has a non-empty name, and every offset it computes
/// fits in a `usize`.
pub open spec fn can_store(props: Seq<RecvProp>, child_offset: int) -> bool
    decreases props,
{
    if props.len() == 0 {
        true
    } else {
        let p = props.last();
        &&& can_store(props.drop_last(), child_offset)
        &&& p.prop_name@.len() > 0
        &&& !prop_skipped(p) ==> {
            &&& prop_offset(p, child_offset) <= usize::MAX
            &&& prop_descends(p) ==> can_store(
                p.data_table->0.recv_props@,
                prop_offset(p, child_offset),
            )
        }
    }
}

/// The map after the insertions `ups`, made in order into `m`.
pub open spec fn apply_updates(m: Map<Seq<char>, usize>, ups: Seq<(Seq<char>, int)>) -> Map<Seq<char>, usize>
    decreases ups.len(),
{
    if ups.len() == 0 {
        m
    } else {
        apply_updates(m, ups.drop_last()).insert(ups.last().0, ups.last().1 as usize)
    }
}


proof fn lemma_apply_concat(m: Map<Seq<char>, usize>, a: Seq<(Seq<char>, int)>, b: Seq<(Seq<char>, int)>)
    ensures
        apply_updates(m, a + b) == apply_updates(apply_updates(m, a), b),
    decreases b.len(),
{
    if b.len() == 0 {
        assert(a + b =~= a);
    } else {
        lemma_apply_concat(m, a, b.drop_last());
        assert((a + b).drop_last() =~= a + b.drop_last());
        assert((a + b).last() == b.last());
    }
}

proof fn lemma_can_store_prefix(s: Seq<RecvProp>, off: int, i: int)
    requires
        can_store(s, off),
        0 <= i <= s.len(),
    ensures
        can_store(s.take(i), off),
    decreases s.len() - i,
{
    if i == s.len() {
        assert(s.take(i) =~= s);
    } else {
        lemma_can_store_prefix(s, off, i + 1);
        assert(s.take(i + 1).drop_last() =~= s.take(i));
    }
}

/// Whether a string starts with `D`.
fn starts_with_d(s: &String) -> (r: bool)
    ensures
        r == (s@.len() > 0 && s@[0] == 'D'),
{
    let t = s.as_str();
    t.unicode_len() > 0 && t.get_char(0) == 'D'
}

/// Walks `table` for class `group_name`, storing the offset of every property under
/// its key; nested tables whose name starts with `D` are walked first, at the offset
/// of the property that holds them.
pub fn store_props(group_name: &String, table: &RecvTable, child_offset: usize, netvars: &mut NetvarMap)
    requires
        can_store(table.recv_props@, child_offset as int),
    ensures
        final(netvars)@ == apply_updates(
            old(netvars)@,
            props_updates(group_name@, table.recv_props@, child_offset as int),
        ),
    decreases table.recv_props@,
{
    let ghost props = table.recv_props@;
    let ghost start = netvars@;
    let base = String::from_str("baseclass");
    proof {
        reveal_strlit("baseclass");
        assert("baseclass"@ =~= baseclass_name());
    }
    let count = table.recv_props.len();
    let mut i: usize = 0;
    assert(props.take(0) =~= Seq::<RecvProp>::empty());
    while i < count
        invariant
            count == props.len(),
            props == table.recv_props@,
            base@ == baseclass_name(),
            i <= count,
            can_store(props, child_offset as int),
            netvars@ == apply_updates(start, props_updates(group_name@, props.take(i as int), child_offset as int)),
        decreases count - i,
    {
        let prop = &table.recv_props[i];
        let ghost before = netvars@;
        proof {
            lemma_can_store_prefix(props, child_offset as int, i + 1);
            assert(props.take(i + 1).drop_last() =~= props.take(i as int));
            assert(props.take(i + 1).last() == props[i as int]);
        }
        let ghost ups = props_updates(group_name@, props.take(i + 1), child_offset as int);
        let ghost prev = props_updates(group_name@, props.take(i as int), child_offset as int);
        let first = prop.prop_name.as_str().get_char(0);
        if char_is_numeric(first) {
            assert(ups == prev);
            i = i + 1;
            continue;
        }
        if prop.prop_name == base {
            assert(ups == prev);
            i = i + 1;
            continue;
        }
        let here = (#[verifier::truncate] (prop.offset as usize)) + child_offset;
        match &prop.data_table {
            Some(child) => {
                if prop.prop_type == PropType::DataTable && starts_with_d(&child.table_name) {
                    store_props(group_name, child, here, netvars);
                }
            },
            None => {},
        }
        let key = store_key(group_name.as_str(), prop.prop_name.as_str());
        netvars.insert(key, here);
        proof {
            let p = props[i as int];
            let nested = if prop_descends(p) {
                props_updates(group_name@, p.data_table->0.recv_props@, here as int)
            } else {
                seq![]
            };
            let own = seq![(stored_key(group_name@, p.prop_name@), here as int)];
            assert(ups == prev + nested + own);
            lemma_apply_concat(start, prev, nested);
            lemma_apply_concat(start, prev + nested, own);
            let mid = apply_updates(start, prev + nested);
            assert(own.drop_last() =~= Seq::<(Seq<char>, int)>::empty());
            assert(apply_updates(mid, own.drop_last()) == mid);
            assert(apply_updates(mid, own) == mid.insert(own.last().0, own.last().1 as usize));
        }
        i = i + 1;
    }
    assert(props.take(count as int) =~= props);
}

/// The offsets of every networked class: each class's table walked from offset 0,
/// in the order the classes are given.
pub open spec fn classes_updates(classes: Seq<ClientClass>) -> Seq<(Seq<char>, int)>
    decreases classes.len(),
{
    if classes.len() == 0 {
        seq![]
    } else {
        let c = classes.last();
        classes_updates(classes.drop_last()) + props_updates(c.network_name@, c.recv_table.recv_props@, 0)
    }
}

/// Builds the offset map from the game's list of networked classes.
pub fn scan_netvars(classes: &Vec<ClientClass>) -> (r: NetvarMap)
    requires
        forall|i: int| 0 <= i < classes@.len() ==> can_store(#[trigger] classes@[i].recv_table.recv_props@, 0),
    ensures
        r@ == apply_updates(Map::empty(), classes_updates(classes@)),
{
    let mut netvars = NetvarMap::new();
    let n = classes.len();
    let mut i: usize = 0;
    while i < n
        invariant
            n == classes@.len(),
            i <= n,
            forall|j: int| 0 <= j < classes@.len() ==> can_store(#[trigger] classes@[j].recv_table.recv_props@, 0),
            netvars@ == apply_updates(Map::empty(), classes_updates(classes@.take(i as int))),
        decreases n - i,
    {
        let class = &classes[i];
        store_props(&class.network_name, &class.recv_table, 0, &mut netvars);
        proof {
            assert(classes@.take(i + 1).drop_last() =~= classes@.take(i as int));
            lemma_apply_concat(
                Map::empty(),
                classes_updates(classes@.take(i as int)),
                props_updates(class.network_name@, class.recv_table.recv_props@, 0),
            );
        }
        i = i + 1;
    }
    assert(classes@.take(n as int) =~= classes@);
    netvars
}


/// A lookup after storing an offset under a key gives that offset back, and keys
/// other than the stored one keep the offset they had.
pub proof fn law_offset_after_store(m: Map<Seq<char>, usize>, key: Seq<char>, value: usize, other: Seq<char>)
    ensures
        offset_of(m.insert(key, value), key) == value,
        other != key ==> offset_of(m.insert(key, value), other) == offset_of(m, other),
{
}

/// Of several insertions under one key, the last one decides the key's offset.
pub proof fn law_last_store_wins(m: Map<Seq<char>, usize>, ups: Seq<(Seq<char>, int)>, key: Seq<char>, value: usize)
    ensures
        offset_of(apply_updates(m, ups.push((key, value as int))), key) == value,
{
    assert(ups.push((key, value as int)).drop_last() =~= ups);
}

/// A property of a class whose name starts with `C` is stored under the key that
/// looks it up by the class name with `DT_` in place of that `C`: class `CFoo`,
/// property `m_x` is found as `get_offset(.., "DT_Foo", "m_x")`.
pub proof fn law_class_key_lookup(group: Seq<char>, name: Seq<char>)
    requires
        group.len() > 0,
        group[0] == 'C',
    ensures
        stored_key(group, name) == joined_key(seq!['D', 'T', '_'] + group.drop_first(), name),
{
    let j = joined_key(group, name);
    assert(j[0] == 'C');
    assert(j.drop_first() =~= group.drop_first() + seq!['-', '>'] + name);
    assert(seq!['D', 'T', '_'] + j.drop_first() =~= joined_key(seq!['D', 'T', '_'] + group.drop_first(), name));
}

/// A key with no `C` in it is stored as it is.
pub proof fn law_key_without_c(group: Seq<char>, name: Seq<char>)
    requires
        forall|i: int| 0 <= i < group.len() ==> group[i] != 'C',
        forall|i: int| 0 <= i < name.len() ==> name[i] != 'C',
    ensures
        stored_key(group, name) == joined_key(group, name),
{
    let j = joined_key(group, name);
    assert forall|i: int| 0 <= i < j.len() implies j[i] != 'C' by {
        if i < group.len() {
            assert(j[i] == group[i]);
        } else if i >= group.len() + 2 {
            assert(j[i] == name[i - group.len() - 2]);
        }
    }
    lemma_replace_absent(j, 'C', seq!['D', 'T', '_']);
}


/// No two property kinds share a number.
pub proof fn law_prop_type_numbers_distinct(a: PropType, b: PropType)
    ensures
        prop_type_number(a) == prop_type_number(b) ==> a == b,
{
}


/// A property whose name starts with an ASCII digit is skipped; one whose name
/// starts with an ASCII letter is stored unless it is the `baseclass` link.
pub proof fn law_skip_rule(p: RecvProp)
    requires
        p.prop_name@.len() > 0,
    ensures
        ('0' <= p.prop_name@[0] <= '9') ==> prop_skipped(p),
        (('a' <= p.prop_name@[0] <= 'z' || 'A' <= p.prop_name@[0] <= 'Z') && p.prop_name@
            != baseclass_name()) ==> !prop_skipped(p),
{
}

/// Among the insertions for `props`, the one for each stored property: its key and
/// its offset.
proof fn lemma_prop_update_present(group: Seq<char>, props: Seq<RecvProp>, off: int, i: int)
    requires
        0 <= i < props.len(),
        !prop_skipped(props[i]),
    ensures
        exists|idx: int|
            0 <= idx < props_updates(group, props, off).len() && #[trigger] props_updates(group, props, off)[idx]
                == (stored_key(group, props[i].prop_name@), prop_offset(props[i], off)),
    decreases props.len(),
{
    let ups = props_updates(group, props, off);
    let p = props.last();
    let before = props_updates(group, props.drop_last(), off);
    let item = (stored_key(group, props[i].prop_name@), prop_offset(props[i], off));
    if i == props.len() - 1 {
        assert(ups[ups.len() - 1] == item);
    } else {
        lemma_prop_update_present(group, props.drop_last(), off, i);
        assert(props.drop_last()[i] == props[i]);
        let idx = choose|idx: int| 0 <= idx < before.len() && #[trigger] before[idx] == item;
        if !prop_skipped(p) {
            assert(ups[idx] == before[idx]);
        }
        assert(ups[idx] == item);
    }
}

/// Among the insertions for all classes, the one for each stored top-level property.
proof fn lemma_class_update_present(classes: Seq<ClientClass>, c: int, i: int)
    requires
        0 <= c < classes.len(),
        0 <= i < classes[c].recv_table.recv_props@.len(),
        !prop_skipped(classes[c].recv_table.recv_props@[i]),
    ensures
        exists|idx: int|
            0 <= idx < classes_updates(classes).len() && #[trigger] classes_updates(classes)[idx] == (
            stored_key(classes[c].network_name@, classes[c].recv_table.recv_props@[i].prop_name@),
            prop_offset(classes[c].recv_table.recv_props@[i], 0)),
    decreases classes.len(),
{
    let ups = classes_updates(classes);
    let prefix = classes_updates(classes.drop_last());
    let p = classes[c].recv_table.recv_props@[i];
    let item = (stored_key(classes[c].network_name@, p.prop_name@), prop_offset(p, 0));
    if c == classes.len() - 1 {
        lemma_prop_update_present(classes[c].network_name@, classes[c].recv_table.recv_props@, 0, i);
        let own = props_updates(classes[c].network_name@, classes[c].recv_table.recv_props@, 0);
        let idx = choose|idx: int| 0 <= idx < own.len() && #[trigger] own[idx] == item;
        assert(ups[prefix.len() + idx] == own[idx]);
    } else {
        lemma_class_update_present(classes.drop_last(), c, i);
        assert(classes.drop_last()[c] == classes[c]);
        let idx = choose|idx: int| 0 <= idx < prefix.len() && #[trigger] prefix[idx] == item;
        assert(ups[idx] == prefix[idx]);
    }
}

/// Whether insertion `j` of `ups` is under `key` and no later insertion is.
pub open spec fn last_insertion_under(ups: Seq<(Seq<char>, int)>, key: Seq<char>, j: int) -> bool {
    &&& 0 <= j < ups.len()
    &&& ups[j].0 == key
    &&& forall|k: int| j < k < ups.len() ==> #[trigger] ups[k].0 != key
}

/// Where a key is inserted at least once, the final map holds the value of the last
/// insertion under it.
proof fn lemma_last_insertion(m: Map<Seq<char>, usize>, ups: Seq<(Seq<char>, int)>, key: Seq<char>, v: int, idx: int)
    requires
        0 <= idx < ups.len(),
        ups[idx].0 == key,
        forall|j: int| #[trigger] last_insertion_under(ups, key, j) ==> ups[j].1 == v,
    ensures
        offset_of(apply_updates(m, ups), key) == v as usize,
    decreases ups.len(),
{
    let n = ups.len() - 1;
    if ups[n].0 == key {
        assert(last_insertion_under(ups, key, n));
    } else {
        let shorter = ups.drop_last();
        assert forall|j: int| #[trigger] last_insertion_under(shorter, key, j) implies shorter[j].1 == v by {
            assert forall|k: int| j < k < ups.len() implies #[trigger] ups[k].0 != key by {
                if k < n {
                    assert(shorter[k] == ups[k]);
                }
            }
            assert(last_insertion_under(ups, key, j));
        }
        assert(shorter[idx] == ups[idx]);
        lemma_last_insertion(m, shorter, key, v, idx);
    }
}

/// After scanning, a top-level property of a class that is stored (its name does not
/// start with a numeric character and is not `baseclass`) is found at its offset,
/// provided the last insertion of the scan under its key carries that offset (as
/// when no property stored after it produces the same key); for a class named `C…`
/// it is found by looking up the class name with `DT_` in place of the `C`.
pub proof fn law_scan_lookup(classes: Seq<ClientClass>, c: int, i: int)
    requires
        0 <= c < classes.len(),
        0 <= i < classes[c].recv_table.recv_props@.len(),
        !prop_skipped(classes[c].recv_table.recv_props@[i]),
        forall|j: int|
            #[trigger] last_insertion_under(
                classes_updates(classes),
                stored_key(classes[c].network_name@, classes[c].recv_table.recv_props@[i].prop_name@),
                j,
            ) ==> classes_updates(classes)[j].1 == prop_offset(classes[c].recv_table.recv_props@[i], 0),
    ensures
        offset_of(
            apply_updates(Map::empty(), classes_updates(classes)),
            stored_key(classes[c].network_name@, classes[c].recv_table.recv_props@[i].prop_name@),
        ) == prop_offset(classes[c].recv_table.recv_props@[i], 0) as usize,
        classes[c].network_name@.len() > 0 && classes[c].network_name@[0] == 'C' ==> offset_of(
            apply_updates(Map::empty(), classes_updates(classes)),
            joined_key(
                seq!['D', 'T', '_'] + classes[c].network_name@.drop_first(),
                classes[c].recv_table.recv_props@[i].prop_name@,
            ),
        ) == prop_offset(classes[c].recv_table.recv_props@[i], 0) as usize,
{
    let ups = classes_updates(classes);
    let p = classes[c].recv_table.recv_props@[i];
    let key = stored_key(classes[c].network_name@, p.prop_name@);
    lemma_class_update_present(classes, c, i);
    let idx = choose|idx: int| 0 <= idx < ups.len() && #[trigger] ups[idx] == (key, prop_offset(p, 0));
    lemma_last_insertion(Map::empty(), ups, key, prop_offset(p, 0), idx);
    if classes[c].network_name@.len() > 0 && classes[c].network_name@[0] == 'C' {
        law_class_key_lookup(classes[c].network_name@, p.prop_name@);
    }
}


/// A nested table that a property descends into is walked at the offset of that
/// property, whatever offset the enclosing walk starts at: the insertions of the
/// nested walk appear, unchanged and in order, among those of the enclosing walk.
/// Applied again to the nested table, this reaches tables at any depth, each at the
/// sum of the offsets along its path.
pub proof fn law_nested_table_walked(group: Seq<char>, props: Seq<RecvProp>, off: int, i: int)
    requires
        0 <= i < props.len(),
        !prop_skipped(props[i]),
        prop_descends(props[i]),
    ensures
        exists|s: int|
            0 <= s && s + props_updates(group, props[i].data_table->0.recv_props@, prop_offset(props[i], off)).len()
                <= props_updates(group, props, off).len() && #[trigger] props_updates(group, props, off).subrange(
                s,
                s + props_updates(group, props[i].data_table->0.recv_props@, prop_offset(props[i], off)).len(),
            ) == props_updates(group, props[i].data_table->0.recv_props@, prop_offset(props[i], off)),
    decreases props.len(),
{
    let ups = props_updates(group, props, off);
    let nested = props_updates(group, props[i].data_table->0.recv_props@, prop_offset(props[i], off));
    let before = props_updates(group, props.drop_last(), off);
    let n = nested.len();
    if i == props.len() - 1 {
        let s = before.len() as int;
        assert(ups.subrange(s, s + n) =~= nested);
    } else {
        assert(props.drop_last()[i] == props[i]);
        law_nested_table_walked(group, props.drop_last(), off, i);
        let s = choose|s: int|
            0 <= s && s + n <= before.len() && #[trigger] before.subrange(s, s + n) == nested;
        assert(before.subrange(s, s + n) == nested);
        assert(ups.subrange(s, s + n) =~= before.subrange(s, s + n));
    }
}

/// A stored property of a nested table that a property descends into is inserted
/// under its key at its own offset plus the offset of the property holding its
/// table plus the offset the enclosing walk starts at.
pub proof fn law_nested_prop_inserted(group: Seq<char>, props: Seq<RecvProp>, off: int, i: int, k: int)
    requires
        0 <= i < props.len(),
        !prop_skipped(props[i]),
        prop_descends(props[i]),
        0 <= k < props[i].data_table->0.recv_props@.len(),
        !prop_skipped(props[i].data_table->0.recv_props@[k]),
    ensures
        exists|idx: int|
            0 <= idx < props_updates(group, props, off).len() && #[trigger] props_updates(group, props, off)[idx]
                == (stored_key(group, props[i].data_table->0.recv_props@[k].prop_name@), (
            props[i].data_table->0.recv_props@[k].offset as usize) + ((props[i].offset as usize) + off)),
{
    let child = props[i].data_table->0.recv_props@;
    let here = prop_offset(props[i], off);
    let ups = props_updates(group, props, off);
    let nested = props_updates(group, child, here);
    law_nested_table_walked(group, props, off, i);
    let s = choose|s: int| 0 <= s && s + nested.len() <= ups.len() && #[trigger] ups.subrange(s, s + nested.len()) == nested;
    lemma_prop_update_present(group, child, here, k);
    let j = choose|j: int| 0 <= j < nested.len() && #[trigger] nested[j] == (stored_key(group, child[k].prop_name@), prop_offset(child[k], here));
    assert(ups.subrange(s, s + nested.len())[j] == ups[s + j]);
    assert(ups[s + j] == nested[j]);
}

/// Every stored property of a walked table is inserted under its key at its own
/// offset plus the offset the walk starts at.
pub proof fn law_prop_inserted(group: Seq<char>, props: Seq<RecvProp>, off: int, i: int)
    requires
        0 <= i < props.len(),
        !prop_skipped(props[i]),
    ensures
        exists|idx: int|
            0 <= idx < props_updates(group, props, off).len() && #[trigger] props_updates(group, props, off)[idx]
                == (stored_key(group, props[i].prop_name@), (props[i].offset as usize) + off),
{
    lemma_prop_update_present(group, props, off, i);
}

} // verus!
