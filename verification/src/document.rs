//! The document model: a tree of values, what such a tree means, and when two
//! of them are the same document.

use vstd::prelude::*;

verus! {

/// `serde_json::Number`, a JSON number. Nothing of what it holds is seen
/// here; `read_integer` and `read_float_bits` tell two of them apart.
#[verifier::external_type_specification]
#[verifier::external_body]
pub struct ExJsonNumber(serde_json::Number);

/// What `serde_json::Number::as_i128` returns for a number.
pub uninterp spec fn number_integer(number: serde_json::Number) -> Option<i128>;

/// The bit pattern of what `serde_json::Number::as_f64` returns for a number.
pub uninterp spec fn number_float_bits(number: serde_json::Number) -> Option<u64>;

/// Calls `serde_json::Number::as_i128`, which gives the number as an integer
/// where it is one. The contract gives that result its name and claims no more
/// than that it depends on the number alone.
#[verifier::external_body]
fn read_integer(number: &serde_json::Number) -> (integer: Option<i128>)
    ensures
        integer == number_integer(*number),
{
    number.as_i128()
}

/// Calls `serde_json::Number::as_f64`, which gives the number as a float, and
/// hands out the float's bit pattern. The contract gives that result its name
/// and claims no more than that it depends on the number alone.
#[verifier::external_body]
fn read_float_bits(number: &serde_json::Number) -> (bits: Option<u64>)
    ensures
        bits == number_float_bits(*number),
{
    number.as_f64().map(|float| float.to_bits())
}

/// A structured document, as both YAML and JSON text can describe it.
///
/// A mapping is a list of entries. Where two entries have the same key, the
/// later one counts.
#[derive(Debug)]
pub enum Document {
    Null,
    Boolean(bool),
    Number(serde_json::Number),
    Text(String),
    Sequence(Vec<Document>),
    Mapping(Vec<(String, Document)>),
}

/// What tells one number from another: its value as an integer, where it is
/// one, and its bit pattern as a float.
pub struct NumberView {
    pub integer: Option<i128>,
    pub float_bits: Option<u64>,
}

/// What a [`Document`] means. The tree is exact: it tells the float zero from
/// the float negative zero, which are written differently. Two values are the
/// same document when their trees are the same but for the sign of a float
/// zero (see [`Tree::same`]).
pub enum Tree {
    Null,
    Boolean(bool),
    Number(NumberView),
    Text(Seq<char>),
    Sequence(Seq<Tree>),
    Mapping(Map<Seq<char>, Tree>),
}

/// How a number is told from others.
pub open spec fn number_view(number: serde_json::Number) -> NumberView {
    NumberView { integer: number_integer(number), float_bits: number_float_bits(number) }
}

/// The bit pattern of the float negative zero. The float zero has the bit
/// pattern 0.
pub const NEGATIVE_ZERO: u64 = 0x8000_0000_0000_0000;

/// A number with the sign of a float zero taken away: negative zero becomes
/// zero, and every other number stays as it is. Two numbers are equal as
/// `serde_json` compares them exactly when they are the same after this.
pub open spec fn normal_number(number: NumberView) -> NumberView {
    if number.float_bits == Some(NEGATIVE_ZERO) {
        NumberView { integer: number.integer, float_bits: Some(0u64) }
    } else {
        number
    }
}

impl Tree {
    /// The tree with the sign of every float zero taken away.
    pub open spec fn normal(self) -> Tree
        decreases self,
    {
        match self {
            Tree::Number(number) => Tree::Number(normal_number(number)),
            Tree::Sequence(items) => Tree::Sequence(
                Seq::new(
                    items.len(),
                    |i: int| if 0 <= i < items.len() { items[i].normal() } else { Tree::Null },
                ),
            ),
            Tree::Mapping(entries) => Tree::Mapping(
                Map::new(
                    |key: Seq<char>| entries.contains_key(key),
                    |key: Seq<char>|
                        if entries.contains_key(key) {
                            entries[key].normal()
                        } else {
                            Tree::Null
                        },
                ),
            ),
            other => other,
        }
    }

    /// Whether two trees are the same document: atoms of the same kind and
    /// value, where a float zero is the same with either sign; sequences of
    /// the same length with the same item at each place; mappings with the
    /// same keys and the same value under each.
    pub open spec fn same(self, other: Tree) -> bool {
        self.normal() == other.normal()
    }
}

/// The mapping that a list of entries builds up: each entry is inserted in
/// turn, so a later entry replaces an earlier one with the same key.
pub open spec fn map_of(pairs: Seq<(Seq<char>, Tree)>) -> Map<Seq<char>, Tree>
    decreases pairs.len(),
{
    if pairs.len() == 0 {
        Map::empty()
    } else {
        map_of(pairs.drop_last()).insert(pairs.last().0, pairs.last().1)
    }
}

/// No two entries have the same key.
pub open spec fn distinct_keys(pairs: Seq<(Seq<char>, Tree)>) -> bool {
    forall|i: int, j: int| 0 <= i < j < pairs.len() ==> pairs[i].0 != pairs[j].0
}

impl View for Document {
    type V = Tree;

    open spec fn view(&self) -> Tree
        decreases self,
    {
        match self {
            Document::Null => Tree::Null,
            Document::Boolean(b) => Tree::Boolean(*b),
            Document::Number(n) => Tree::Number(number_view(*n)),
            Document::Text(s) => Tree::Text(s@),
            Document::Sequence(items) => Tree::Sequence(trees(items@)),
            Document::Mapping(entries) => Tree::Mapping(map_of(pairs(entries@))),
        }
    }
}

/// The meanings of the items of a sequence, in order.
pub open spec fn trees(items: Seq<Document>) -> Seq<Tree>
    decreases items,
{
    Seq::new(items.len(), |i: int| if 0 <= i < items.len() { items[i]@ } else { Tree::Null })
}

/// The keys and the meanings of the values of a list of entries, in order.
pub open spec fn pairs(entries: Seq<(String, Document)>) -> Seq<(Seq<char>, Tree)>
    decreases entries,
{
    Seq::new(
        entries.len(),
        |i: int|
            if 0 <= i < entries.len() {
                (entries[i].0@, entries[i].1@)
            } else {
                (Seq::empty(), Tree::Null)
            },
    )
}

impl Document {
    /// The keys of every mapping in the document are distinct.
    pub open spec fn wf(&self) -> bool
        decreases self,
    {
        match self {
            Document::Sequence(items) => forall|i: int| 0 <= i < items@.len() ==> items@[i].wf(),
            Document::Mapping(entries) => {
                &&& distinct_keys(pairs(entries@))
                &&& forall|i: int| 0 <= i < entries@.len() ==> entries@[i].1.wf()
            },
            _ => true,
        }
    }

    /// Whether two values are the same document: equal atoms, equal items in
    /// the same order, and the same keys with the same values under them, in
    /// whatever order the entries stand.
    pub fn same_as(&self, other: &Document) -> (same: bool)
        ensures
            same == self@.same(other@),
        decreases self,
    {
        match (self, other) {
            (Document::Null, Document::Null) => true,
            (Document::Boolean(a), Document::Boolean(b)) => *a == *b,
            (Document::Number(a), Document::Number(b)) => numbers_same(a, b),
            (Document::Text(a), Document::Text(b)) => *a == *b,
            (Document::Sequence(a), Document::Sequence(b)) => sequences_same(a, b),
            (Document::Mapping(a), Document::Mapping(b)) => mappings_same(a, b),
            _ => false,
        }
    }
}

impl PartialEq for Document {
    fn eq(&self, other: &Document) -> (same: bool) {
        self.same_as(other)
    }
}

impl vstd::std_specs::cmp::PartialEqSpecImpl for Document {
    open spec fn obeys_eq_spec() -> bool {
        true
    }

    open spec fn eq_spec(&self, other: &Document) -> bool {
        self@.same(other@)
    }
}

/// Whether a bit pattern is that of a float zero, of either sign.
fn is_zero(bits: u64) -> (zero: bool)
    ensures
        zero == (bits == 0 || bits == NEGATIVE_ZERO),
{
    bits == 0 || bits == NEGATIVE_ZERO
}

fn numbers_same(a: &serde_json::Number, b: &serde_json::Number) -> (same: bool)
    ensures
        same == (normal_number(number_view(*a)) == normal_number(number_view(*b))),
{
    let same_integer = match (read_integer(a), read_integer(b)) {
        (Some(x), Some(y)) => x == y,
        (None, None) => true,
        _ => false,
    };
    let same_bits = match (read_float_bits(a), read_float_bits(b)) {
        (Some(x), Some(y)) => x == y || (is_zero(x) && is_zero(y)),
        (None, None) => true,
        _ => false,
    };
    same_integer && same_bits
}

fn sequences_same(a: &Vec<Document>, b: &Vec<Document>) -> (same: bool)
    ensures
        same == Tree::Sequence(trees(a@)).same(Tree::Sequence(trees(b@))),
    decreases a,
{
    if a.len() != b.len() {
        proof {
            lemma_same_sequences(trees(a@), trees(b@));
            assert(trees(a@).len() != trees(b@).len());
        }
        return false;
    }
    let mut i: usize = 0;
    while i < a.len()
        invariant
            i <= a.len(),
            a.len() == b.len(),
            forall|j: int| 0 <= j < i ==> a[j]@.same(b[j]@),
        decreases a.len() - i,
    {
        if !a[i].same_as(&b[i]) {
            proof {
                lemma_same_sequences(trees(a@), trees(b@));
                assert(trees(a@)[i as int] == a[i as int]@);
                assert(trees(b@)[i as int] == b[i as int]@);
                assert(!trees(a@)[i as int].same(trees(b@)[i as int]));
            }
            return false;
        }
        i = i + 1;
    }
    proof {
        lemma_same_sequences(trees(a@), trees(b@));
        assert forall|j: int| 0 <= j < trees(a@).len() implies trees(a@)[j].same(
            trees(b@)[j],
        ) by {
            assert(a[j]@.same(b[j]@));
        }
    }
    true
}

/// The index of the last entry with this key, if there is one.
fn find_last(entries: &Vec<(String, Document)>, key: &String) -> (found: Option<usize>)
    ensures
        match found {
            Some(i) => {
                &&& i < entries.len()
                &&& entries[i as int].0@ == key@
                &&& forall|j: int| i < j < entries.len() ==> entries[j].0@ != key@
            },
            None => forall|j: int| 0 <= j < entries.len() ==> entries[j].0@ != key@,
        },
{
    let mut i: usize = entries.len();
    while i > 0
        invariant
            i <= entries.len(),
            forall|j: int| i <= j < entries.len() ==> entries[j].0@ != key@,
        decreases i,
    {
        i = i - 1;
        if entries[i].0 == *key {
            return Some(i);
        }
    }
    None
}

fn mappings_same(a: &Vec<(String, Document)>, b: &Vec<(String, Document)>) -> (same: bool)
    ensures
        same == Tree::Mapping(map_of(pairs(a@))).same(Tree::Mapping(map_of(pairs(b@)))),
    decreases a,
{
    let ghost left = map_of(pairs(a@));
    let ghost right = map_of(pairs(b@));
    // Every key of `a` is a key of `b`, with the same value under it.
    let mut i: usize = 0;
    while i < a.len()
        invariant
            i <= a.len(),
            left == map_of(pairs(a@)),
            right == map_of(pairs(b@)),
            forall|j: int|
                0 <= j < i ==> {
                    &&& left.contains_key(#[trigger] a[j].0@)
                    &&& right.contains_key(a[j].0@)
                    &&& left[a[j].0@].same(right[a[j].0@])
                },
        decreases a.len() - i,
    {
        let key = &a[i].0;
        let in_a = find_last(a, key);
        let in_b = find_last(b, key);
        assert(pairs(a@)[i as int].0 == key@);
        match (in_a, in_b) {
            (Some(ia), Some(ib)) => {
                proof {
                    assert(pairs(a@)[ia as int].0 == key@);
                    assert(pairs(b@)[ib as int].0 == key@);
                    lemma_map_of_entry(pairs(a@), ia as int);
                    lemma_map_of_entry(pairs(b@), ib as int);
                }
                if !a[ia].1.same_as(&b[ib].1) {
                    proof {
                        lemma_same_mappings(left, right);
                        assert(left.contains_key(key@));
                        assert(!left[key@].same(right[key@]));
                    }
                    return false;
                }
            },
            (Some(ia), None) => {
                proof {
                    assert(pairs(a@)[ia as int].0 == key@);
                    lemma_map_of_entry(pairs(a@), ia as int);
                    lemma_map_of_absent(pairs(b@), key@);
                    lemma_same_mappings(left, right);
                    assert(left.contains_key(key@) != right.contains_key(key@));
                }
                return false;
            },
            (None, _) => {
                assert(false);
            },
        }
        i = i + 1;
    }
    // Every key of `b` is a key of `a`.
    let mut k: usize = 0;
    while k < b.len()
        invariant
            k <= b.len(),
            left == map_of(pairs(a@)),
            right == map_of(pairs(b@)),
            forall|j: int| 0 <= j < k ==> left.contains_key(#[trigger] b[j].0@),
            forall|j: int|
                0 <= j < a.len() ==> {
                    &&& left.contains_key(#[trigger] a[j].0@)
                    &&& right.contains_key(a[j].0@)
                    &&& left[a[j].0@].same(right[a[j].0@])
                },
        decreases b.len() - k,
    {
        let key = &b[k].0;
        assert(pairs(b@)[k as int].0 == key@);
        match find_last(a, key) {
            Some(ia) => {
                proof {
                    assert(pairs(a@)[ia as int].0 == key@);
                    lemma_map_of_entry(pairs(a@), ia as int);
                }
            },
            None => {
                proof {
                    lemma_map_of_absent(pairs(a@), key@);
                    lemma_map_of_present(pairs(b@), k as int);
                    lemma_same_mappings(left, right);
                    assert(left.contains_key(key@) != right.contains_key(key@));
                }
                return false;
            },
        }
        k = k + 1;
    }
    proof {
        lemma_same_mappings(left, right);
        assert forall|key: Seq<char>| #[trigger] left.contains_key(key) implies right.contains_key(
            key,
        ) && left[key].same(right[key]) by {
            let j = lemma_map_of_key(pairs(a@), key);
            assert(a[j].0@ == key);
        }
        assert forall|key: Seq<char>| #[trigger] right.contains_key(key) implies left.contains_key(
            key,
        ) by {
            let j = lemma_map_of_key(pairs(b@), key);
            assert(b[j].0@ == key);
        }
    }
    true
}

/// Two sequences are the same exactly when they have the same length and the
/// same item at each place.
pub proof fn lemma_same_sequences(first: Seq<Tree>, second: Seq<Tree>)
    ensures
        Tree::Sequence(first).same(Tree::Sequence(second)) <==> {
            &&& first.len() == second.len()
            &&& forall|i: int| 0 <= i < first.len() ==> first[i].same(second[i])
        },
{
    let left = Tree::Sequence(first).normal()->Sequence_0;
    let right = Tree::Sequence(second).normal()->Sequence_0;
    if first.len() == second.len() && (forall|i: int|
        0 <= i < first.len() ==> first[i].same(second[i])) {
        assert(left =~= right);
    }
    if left == right {
        assert(left.len() == first.len());
        assert forall|i: int| 0 <= i < first.len() implies first[i].same(second[i]) by {
            assert(left[i] == first[i].normal());
            assert(right[i] == second[i].normal());
        }
    }
}

/// Two mappings are the same exactly when they have the same keys and the
/// same value under each key.
pub proof fn lemma_same_mappings(first: Map<Seq<char>, Tree>, second: Map<Seq<char>, Tree>)
    ensures
        Tree::Mapping(first).same(Tree::Mapping(second)) <==> {
            &&& forall|key: Seq<char>|
                #[trigger] first.contains_key(key) == second.contains_key(key)
            &&& forall|key: Seq<char>|
                #[trigger] first.contains_key(key) ==> first[key].same(second[key])
        },
{
    let left = Tree::Mapping(first).normal()->Mapping_0;
    let right = Tree::Mapping(second).normal()->Mapping_0;
    if (forall|key: Seq<char>| #[trigger] first.contains_key(key) == second.contains_key(key))
        && (forall|key: Seq<char>|
        #[trigger] first.contains_key(key) ==> first[key].same(second[key])) {
        assert(left =~= right);
    }
    if left == right {
        assert forall|key: Seq<char>| #[trigger]
            first.contains_key(key) == second.contains_key(key) by {
            assert(left.contains_key(key) == first.contains_key(key));
            assert(right.contains_key(key) == second.contains_key(key));
        }
        assert forall|key: Seq<char>| #[trigger] first.contains_key(key) implies first[key].same(
            second[key],
        ) by {
            assert(left.contains_key(key));
            assert(left[key] == first[key].normal());
            assert(right[key] == second[key].normal());
        }
    }
}

/// A key that no entry has is not in the mapping.
pub proof fn lemma_map_of_absent(pairs: Seq<(Seq<char>, Tree)>, key: Seq<char>)
    requires
        forall|j: int| 0 <= j < pairs.len() ==> pairs[j].0 != key,
    ensures
        !map_of(pairs).contains_key(key),
    decreases pairs.len(),
{
    if pairs.len() > 0 {
        lemma_map_of_absent(pairs.drop_last(), key);
    }
}

/// The key of every entry is in the mapping.
pub proof fn lemma_map_of_present(pairs: Seq<(Seq<char>, Tree)>, i: int)
    requires
        0 <= i < pairs.len(),
    ensures
        map_of(pairs).contains_key(pairs[i].0),
    decreases pairs.len(),
{
    if i < pairs.len() - 1 {
        lemma_map_of_present(pairs.drop_last(), i);
    }
}

/// The last entry with a key is the one that the mapping holds.
pub proof fn lemma_map_of_entry(pairs: Seq<(Seq<char>, Tree)>, i: int)
    requires
        0 <= i < pairs.len(),
        forall|j: int| i < j < pairs.len() ==> pairs[j].0 != pairs[i].0,
    ensures
        map_of(pairs).contains_key(pairs[i].0),
        map_of(pairs)[pairs[i].0] == pairs[i].1,
    decreases pairs.len(),
{
    if i < pairs.len() - 1 {
        lemma_map_of_entry(pairs.drop_last(), i);
    }
}

/// Every key of the mapping is the key of some entry.
pub proof fn lemma_map_of_key(pairs: Seq<(Seq<char>, Tree)>, key: Seq<char>) -> (j: int)
    requires
        map_of(pairs).contains_key(key),
    ensures
        0 <= j < pairs.len(),
        pairs[j].0 == key,
{
    if forall|j: int| 0 <= j < pairs.len() ==> pairs[j].0 != key {
        lemma_map_of_absent(pairs, key);
    }
    choose|j: int| 0 <= j < pairs.len() && pairs[j].0 == key
}

/// A mapping does not depend on the order of its entries: two lists of
/// entries with distinct keys that hold the same entries, each as often as the
/// other, build up the same mapping.
pub proof fn lemma_mapping_order_independent(
    first: Seq<(Seq<char>, Tree)>,
    second: Seq<(Seq<char>, Tree)>,
)
    requires
        distinct_keys(first),
        distinct_keys(second),
        first.to_multiset() == second.to_multiset(),
    ensures
        map_of(first) == map_of(second),
{
    lemma_mapping_included(first, second);
    lemma_mapping_included(second, first);
    assert(map_of(first) =~= map_of(second));
}

/// Where every entry of one list with distinct keys is an entry of another,
/// the second mapping holds every key of the first, with the same value.
proof fn lemma_mapping_included(first: Seq<(Seq<char>, Tree)>, second: Seq<(Seq<char>, Tree)>)
    requires
        distinct_keys(second),
        first.to_multiset() == second.to_multiset(),
    ensures
        forall|key: Seq<char>| #[trigger]
            map_of(first).contains_key(key) ==> map_of(second).contains_key(key) && map_of(
                second,
            )[key] == map_of(first)[key],
{
    first.to_multiset_ensures();
    second.to_multiset_ensures();
    assert forall|key: Seq<char>| #[trigger] map_of(first).contains_key(key) implies map_of(
        second,
    ).contains_key(key) && map_of(second)[key] == map_of(first)[key] by {
        let key_at = lemma_map_of_key(first, key);
        let i = lemma_last_with_key(first, key_at);
        lemma_map_of_entry(first, i);
        assert(first.contains(first[i]));
        assert(first.to_multiset().count(first[i]) > 0);
        assert(second.to_multiset().count(first[i]) > 0);
        let j = choose|j: int| 0 <= j < second.len() && second[j] == first[i];
        lemma_map_of_entry(second, j);
    }
}

/// Among the entries with the key of a given entry, one is the last.
proof fn lemma_last_with_key(pairs: Seq<(Seq<char>, Tree)>, at: int) -> (last: int)
    requires
        0 <= at < pairs.len(),
    ensures
        at <= last < pairs.len(),
        pairs[last].0 == pairs[at].0,
        forall|j: int| last < j < pairs.len() ==> pairs[j].0 != pairs[last].0,
    decreases pairs.len() - at,
{
    if exists|j: int| at < j < pairs.len() && pairs[j].0 == pairs[at].0 {
        let next = choose|j: int| at < j < pairs.len() && pairs[j].0 == pairs[at].0;
        lemma_last_with_key(pairs, next)
    } else {
        at
    }
}

/// Two mappings with the same entries in another order are the same document.
pub proof fn lemma_same_entries_same_document(
    first: Vec<(String, Document)>,
    second: Vec<(String, Document)>,
)
    requires
        distinct_keys(pairs(first@)),
        distinct_keys(pairs(second@)),
        pairs(first@).to_multiset() == pairs(second@).to_multiset(),
    ensures
        Document::Mapping(first)@.same(Document::Mapping(second)@),
{
    lemma_mapping_order_independent(pairs(first@), pairs(second@));
}

/// Two mappings are different documents as soon as one has a key that the
/// other lacks, or they hold different values under one key.
pub proof fn lemma_other_entries_other_document(
    first: Vec<(String, Document)>,
    second: Vec<(String, Document)>,
    key: Seq<char>,
)
    requires
        ({
            let left = map_of(pairs(first@));
            let right = map_of(pairs(second@));
            ||| left.contains_key(key) != right.contains_key(key)
            ||| left.contains_key(key) && right.contains_key(key) && !left[key].same(right[key])
        }),
    ensures
        !Document::Mapping(first)@.same(Document::Mapping(second)@),
{
    lemma_same_mappings(map_of(pairs(first@)), map_of(pairs(second@)));
}

/// Two sequences are the same document exactly when they have the same length
/// and the same item at each place.
pub proof fn lemma_sequences_compare_in_order(first: Vec<Document>, second: Vec<Document>)
    ensures
        Document::Sequence(first)@.same(Document::Sequence(second)@) <==> {
            &&& first@.len() == second@.len()
            &&& forall|i: int| 0 <= i < first@.len() ==> first@[i]@.same(second@[i]@)
        },
{
    let left = trees(first@);
    let right = trees(second@);
    lemma_same_sequences(left, right);
    assert(left.len() == first@.len() && right.len() == second@.len());
    if first@.len() == second@.len() {
        if forall|i: int| 0 <= i < first@.len() ==> first@[i]@.same(second@[i]@) {
            assert forall|i: int| 0 <= i < left.len() implies left[i].same(right[i]) by {
                assert(first@[i]@.same(second@[i]@));
            }
        }
        if forall|i: int| 0 <= i < left.len() ==> left[i].same(right[i]) {
            assert forall|i: int| 0 <= i < first@.len() implies first@[i]@.same(
                second@[i]@,
            ) by {
                assert(left[i].same(right[i]));
            }
        }
    }
}

/// Being the same document is an equivalence: every document is the same as
/// itself, and sameness can be turned round and chained.
pub proof fn lemma_same_is_an_equivalence(a: Tree, b: Tree, c: Tree)
    ensures
        a.same(a),
        a.same(b) ==> b.same(a),
        a.same(b) && b.same(c) ==> a.same(c),
        a == b ==> a.same(b),
{
}

/// The float zero and the float negative zero are the same number, and they
/// are the only two different numbers that are.
pub proof fn lemma_zero_has_no_sign(a: NumberView, b: NumberView)
    ensures
        Tree::Number(a).same(Tree::Number(b)) <==> {
            &&& a.integer == b.integer
            &&& a.float_bits == b.float_bits || {
                &&& a.float_bits == Some(0u64) || a.float_bits == Some(NEGATIVE_ZERO)
                &&& b.float_bits == Some(0u64) || b.float_bits == Some(NEGATIVE_ZERO)
            }
        },
{
}

} // verus!
