//! Layers of settings: partial trees laid over one another, the later ones on top.
use crate::text::{
    comes_before, same_text, text_order_is_transitive, text_precedes, texts_are_ordered,
};
use vstd::prelude::*;
use vstd::string::*;

verus! {

/// A tree of settings.
#[derive(Debug, PartialEq, Eq)]
pub enum Json {
    Null,
    Bool(bool),
    /// A number, by its text.
    Number(String),
    Text(String),
    Array(Vec<Json>),
    /// Named branches.
    Object(Vec<Entry>),
}

/// A named branch.
#[derive(Debug, PartialEq, Eq)]
pub struct Entry {
    pub key: String,
    pub value: Json,
}

/// What a tree of settings says.
pub enum Tree {
    Null,
    Bool(bool),
    Number(Seq<char>),
    Text(Seq<char>),
    Array(Seq<Tree>),
    Object(Seq<Branch>),
}

pub struct Branch {
    pub key: Seq<char>,
    pub tree: Tree,
}

/// What the first `n` items say.
pub open spec fn trees(items: Vec<Json>, n: int) -> Seq<Tree>
    decreases items, n,
{
    if n <= 0 || n > items.len() {
        Seq::empty()
    } else {
        trees(items, n - 1).push(items[n - 1].tree())
    }
}

/// What the first `n` entries say.
pub open spec fn branches(entries: Vec<Entry>, n: int) -> Seq<Branch>
    decreases entries, n,
{
    if n <= 0 || n > entries.len() {
        Seq::empty()
    } else {
        branches(entries, n - 1).push(
            Branch { key: entries[n - 1].key@, tree: entries[n - 1].value.tree() },
        )
    }
}

impl Json {
    /// What the tree says.
    pub open spec fn tree(self) -> Tree
        decreases self,
    {
        match self {
            Json::Null => Tree::Null,
            Json::Bool(b) => Tree::Bool(b),
            Json::Number(text) => Tree::Number(text@),
            Json::Text(text) => Tree::Text(text@),
            Json::Array(items) => Tree::Array(trees(items, items.len() as int)),
            Json::Object(entries) => Tree::Object(branches(entries, entries.len() as int)),
        }
    }
}

proof fn branches_follow_entries(entries: Vec<Entry>, n: int)
    requires
        0 <= n <= entries.len(),
    ensures
        branches(entries, n).len() == n,
        forall|i: int|
            0 <= i < n ==> #[trigger] branches(entries, n)[i] == (Branch {
                key: entries[i].key@,
                tree: entries[i].value.tree(),
            }),
    decreases n,
{
    if n > 0 {
        branches_follow_entries(entries, n - 1);
    }
}

pub(crate) proof fn trees_follow_items(items: Vec<Json>, n: int)
    requires
        0 <= n <= items.len(),
    ensures
        trees(items, n).len() == n,
        forall|i: int| 0 <= i < n ==> #[trigger] trees(items, n)[i] == items[i].tree(),
    decreases n,
{
    if n > 0 {
        trees_follow_items(items, n - 1);
    }
}

/// Where a name first stands from the `i`-th branch on; the end where it does not.
pub open spec fn place(branches: Seq<Branch>, key: Seq<char>, i: int) -> int
    decreases branches.len() - i,
{
    if i < 0 || i >= branches.len() {
        branches.len() as int
    } else if branches[i].key == key {
        i
    } else {
        place(branches, key, i + 1)
    }
}

/// One tree laid over another: named branches are laid over one another name by name, and
/// anything else takes the place of what was there.
pub open spec fn merged(base: Tree, overlay: Tree) -> Tree
    decreases overlay,
{
    match (base, overlay) {
        (Tree::Object(under), Tree::Object(over)) => Tree::Object(
            laid(under, over, over.len() as int),
        ),
        _ => overlay,
    }
}

/// Branches with the first `n` of others laid over them, new names at the end.
pub open spec fn laid(under: Seq<Branch>, over: Seq<Branch>, n: int) -> Seq<Branch>
    decreases over, n,
{
    if n <= 0 || n > over.len() {
        under
    } else {
        let before = laid(under, over, n - 1);
        let key = over[n - 1].key;
        let i = place(before, key, 0);
        if i < before.len() {
            before.update(i, Branch { key, tree: merged(before[i].tree, over[n - 1].tree) })
        } else {
            before.push(Branch { key, tree: merged(Tree::Null, over[n - 1].tree) })
        }
    }
}

proof fn over_nothing(tree: Tree)
    ensures
        merged(Tree::Null, tree) == tree,
{
}

fn find_entry(entries: &Vec<Entry>, key: &String) -> (r: usize)
    ensures
        r == place(branches(*entries, entries.len() as int), key@, 0),
        r <= entries@.len(),
{
    proof {
        branches_follow_entries(*entries, entries.len() as int);
    }
    let mut i: usize = 0;
    while i < entries.len()
        invariant
            i <= entries@.len(),
            branches(*entries, entries.len() as int).len() == entries@.len(),
            forall|j: int|
                0 <= j < entries@.len() ==> #[trigger] branches(
                    *entries,
                    entries.len() as int,
                )[j].key == entries@[j].key@,
            place(branches(*entries, entries.len() as int), key@, 0) == place(
                branches(*entries, entries.len() as int),
                key@,
                i as int,
            ),
        decreases entries@.len() - i,
    {
        assert(branches(*entries, entries.len() as int)[i as int].key == entries@[i as int].key@);
        if same_text(entries[i].key.as_str(), key.as_str()) {
            return i;
        }
        i += 1;
    }
    i
}

/// Lays one tree over another.
pub fn laid_over(base: Json, overlay: Json) -> (r: Json)
    ensures
        r.tree() == merged(base.tree(), overlay.tree()),
    decreases overlay,
{
    match (base, overlay) {
        (Json::Object(under), Json::Object(over)) => {
            let mut under: Vec<Entry> = under;
            let mut rest: Vec<Entry> = over;
            let ghost all = rest;
            let ghost low = branches(under, under.len() as int);
            let ghost high = branches(all, all.len() as int);
            let ghost mut n: int = 0;
            proof {
                branches_follow_entries(all, all.len() as int);
            }
            while rest.len() > 0
                invariant
                    0 <= n <= all@.len(),
                    rest@ == all@.skip(n),
                    decreases_to!(overlay => all),
                    high == branches(all, all.len() as int),
                    high.len() == all@.len(),
                    forall|j: int|
                        0 <= j < high.len() ==> #[trigger] high[j] == (Branch {
                            key: all@[j].key@,
                            tree: all@[j].value.tree(),
                        }),
                    branches(under, under.len() as int) == laid(low, high, n),
                decreases all@.len() - n,
            {
                let ghost before = branches(under, under.len() as int);
                let ghost held = under;
                let entry: Entry = rest.remove(0);
                assert(entry == all@[n]);
                assert(rest@ =~= all@.skip(n + 1));
                assert(high[n].key == entry.key@);
                let i: usize = find_entry(&under, &entry.key);
                proof {
                    branches_follow_entries(held, held.len() as int);
                }
                if i < under.len() {
                    let old_entry: Entry = under.remove(i);
                    let value: Json = laid_over(old_entry.value, entry.value);
                    under.insert(i, Entry { key: entry.key, value });
                    proof {
                        branches_follow_entries(under, under.len() as int);
                        assert(branches(under, under.len() as int) =~= laid(low, high, n + 1));
                    }
                } else {
                    under.push(entry);
                    proof {
                        over_nothing(high[n].tree);
                        branches_follow_entries(under, under.len() as int);
                        assert(branches(under, under.len() as int) =~= laid(low, high, n + 1));
                    }
                }
                proof {
                    n = n + 1;
                }
            }
            assert(n == all@.len());
            Json::Object(under)
        },
        (_, overlay) => overlay,
    }
}

/// Lays a tree over the one that is there.
pub fn merge_json(base: &mut Json, overlay: Json)
    ensures
        final(base).tree() == merged(old(base).tree(), overlay.tree()),
{
    let mut under: Json = Json::Null;
    std::mem::swap(base, &mut under);
    *base = laid_over(under, overlay);
}

/// The branch with a name, where there is one.
pub open spec fn branch_named(branches: Seq<Branch>, key: Seq<char>) -> Option<Tree> {
    let i = place(branches, key, 0);
    if i < branches.len() {
        Some(branches[i].tree)
    } else {
        None
    }
}

proof fn place_is_first(branches: Seq<Branch>, key: Seq<char>, i: int)
    requires
        0 <= i <= branches.len(),
    ensures
        i <= place(branches, key, i) <= branches.len(),
        place(branches, key, i) < branches.len() ==> branches[place(branches, key, i)].key == key,
        forall|j: int| i <= j < place(branches, key, i) ==> (#[trigger] branches[j]).key != key,
    decreases branches.len() - i,
{
    if i < branches.len() && branches[i].key != key {
        place_is_first(branches, key, i + 1);
    }
}

proof fn place_is_where(branches: Seq<Branch>, key: Seq<char>, p: int)
    requires
        0 <= p <= branches.len(),
        p < branches.len() ==> branches[p].key == key,
        forall|j: int| 0 <= j < p ==> (#[trigger] branches[j]).key != key,
    ensures
        place(branches, key, 0) == p,
{
    place_is_first(branches, key, 0);
}

/// No name stands twice.
pub open spec fn names_differ(branches: Seq<Branch>) -> bool {
    forall|i: int, j: int|
        0 <= i < j < branches.len() ==> (#[trigger] branches[i]).key != (#[trigger] branches[j]).key
}

/// What a branch and the one laid over it give.
pub open spec fn over_branch(under: Option<Tree>, over: Option<Tree>) -> Option<Tree> {
    match (under, over) {
        (under, None) => under,
        (None, Some(tree)) => Some(tree),
        (Some(base), Some(tree)) => Some(merged(base, tree)),
    }
}

/// Laying named branches over others works name by name: a name that is not in the upper layer
/// keeps its branch, a new one comes with its own, and one in both has the upper laid over the
/// lower.
pub proof fn merging_goes_by_name(under: Seq<Branch>, over: Seq<Branch>, key: Seq<char>)
    requires
        names_differ(over),
    ensures
        merged(Tree::Object(under), Tree::Object(over)) matches Tree::Object(both)
            && branch_named(both, key) == over_branch(
            branch_named(under, key),
            branch_named(over, key),
        ),
{
    laying_goes_by_name(under, over, over.len() as int, key);
    assert(over.take(over.len() as int) =~= over);
}

proof fn laying_goes_by_name(under: Seq<Branch>, over: Seq<Branch>, n: int, key: Seq<char>)
    requires
        names_differ(over),
        0 <= n <= over.len(),
    ensures
        branch_named(laid(under, over, n), key) == over_branch(
            branch_named(under, key),
            branch_named(over.take(n), key),
        ),
    decreases n,
{
    if n == 0 {
        assert(place(over.take(0), key, 0) == 0);
    } else {
        let before = laid(under, over, n - 1);
        let after = laid(under, over, n);
        let upper = over.take(n);
        let upper_before = over.take(n - 1);
        let last = over[n - 1];
        over_nothing(last.tree);
        laying_goes_by_name(under, over, n - 1, key);
        place_is_first(before, key, 0);
        place_is_first(before, last.key, 0);
        place_is_first(upper_before, key, 0);
        assert(forall|j: int| 0 <= j < n - 1 ==> upper[j] == upper_before[j]);
        if key == last.key {
            assert forall|j: int| 0 <= j < n - 1 implies (#[trigger] upper[j]).key != key by {
                assert(over[j].key != over[n - 1].key);
            }
            place_is_where(upper, key, n - 1);
            place_is_where(upper_before, key, n - 1);
            place_is_where(after, key, place(before, key, 0));
        } else {
            let p = place(upper_before, key, 0);
            if p < n - 1 {
                place_is_where(upper, key, p);
            } else {
                place_is_where(upper, key, n);
            }
            let q = place(before, key, 0);
            if q < before.len() {
                place_is_where(after, key, q);
            } else {
                place_is_where(after, key, after.len() as int);
            }
        }
    }
}

/// Where the first dot stands from the `i`-th character on; the end where there is none.
pub open spec fn dot(path: Seq<char>, i: int) -> int
    decreases path.len() - i,
{
    if i < 0 || i >= path.len() {
        path.len() as int
    } else if path[i] == '.' {
        i
    } else {
        dot(path, i + 1)
    }
}

proof fn dot_is_first(path: Seq<char>, i: int)
    requires
        0 <= i <= path.len(),
    ensures
        i <= dot(path, i) <= path.len(),
        dot(path, i) < path.len() ==> path[dot(path, i)] == '.',
        forall|j: int| i <= j < dot(path, i) ==> path[j] != '.',
    decreases path.len() - i,
{
    if i < path.len() && path[i] != '.' {
        dot_is_first(path, i + 1);
    }
}

/// A tree of one branch.
pub open spec fn one(key: Seq<char>, tree: Tree) -> Tree {
    Tree::Object(seq![Branch { key, tree }])
}

/// A tree with one leaf, under the names between the dots of a path.
pub open spec fn nested(path: Seq<char>, leaf: Tree) -> Tree
    decreases path.len(),
    via nested_ends
{
    let k = dot(path, 0);
    if k < path.len() {
        one(path.take(k), nested(path.skip(k + 1), leaf))
    } else {
        one(path, leaf)
    }
}

#[via_fn]
proof fn nested_ends(path: Seq<char>, leaf: Tree) {
    dot_is_first(path, 0);
}

proof fn last_name_is_innermost(path: Seq<char>, k: int, leaf: Tree)
    requires
        0 <= k < path.len(),
        path[k] == '.',
        forall|j: int| k < j < path.len() ==> path[j] != '.',
    ensures
        nested(path, leaf) == nested(path.take(k), one(path.skip(k + 1), leaf)),
    decreases path.len(),
{
    dot_is_first(path, 0);
    let f = dot(path, 0);
    let low = path.take(k);
    dot_is_first(low, 0);
    if f == k {
        dot_is_first(path.skip(k + 1), 0);
        assert(forall|j: int| 0 <= j < low.len() ==> low[j] == path[j]);
        let rest = path.skip(k + 1);
        assert forall|j: int| 0 <= j < rest.len() implies rest[j] != '.' by {
            assert(rest[j] == path[j + k + 1]);
        }
        assert(dot(rest, 0) == rest.len());
        assert(dot(low, 0) == low.len());
        assert(nested(rest, leaf) == one(rest, leaf));
        assert(nested(low, one(rest, leaf)) == one(low, one(rest, leaf)));
        assert(nested(path, leaf) == one(path.take(f), nested(path.skip(f + 1), leaf)));
    } else {
        let rest = path.skip(f + 1);
        assert forall|j: int| k - f - 1 < j < rest.len() implies rest[j] != '.' by {
            assert(rest[j] == path[j + f + 1]);
        }
        assert(rest[k - f - 1] == '.');
        last_name_is_innermost(rest, k - f - 1, leaf);
        assert(low[f] == '.');
        assert(dot(low, 0) == f);
        assert(low.take(f) =~= path.take(f));
        assert(low.skip(f + 1) =~= rest.take(k - f - 1));
        assert(rest.skip(k - f) =~= path.skip(k + 1));
        let inner = one(path.skip(k + 1), leaf);
        assert(nested(low, inner) == one(low.take(f), nested(low.skip(f + 1), inner)));
        assert(nested(path, leaf) == one(path.take(f), nested(rest, leaf)));
    }
}

fn one_branch(key: &str, value: Json) -> (r: Json)
    ensures
        r.tree() == one(key@, value.tree()),
{
    let ghost leaf = value.tree();
    let mut entries: Vec<Entry> = Vec::new();
    entries.push(Entry { key: key.to_owned(), value });
    proof {
        branches_follow_entries(entries, 1);
        assert(branches(entries, 1) =~= seq![Branch { key: key@, tree: leaf }]);
    }
    Json::Object(entries)
}

/// Puts a leaf under the names between the dots of a path.
pub fn nest_dotted_path(path: &str, leaf: Json) -> (r: Json)
    ensures
        r.tree() == nested(path@, leaf.tree()),
{
    let n: usize = path.unicode_len();
    let mut value: Json = leaf;
    let mut end: usize = n;
    let mut i: usize = n;
    assert(path@.take(n as int) =~= path@);
    while i > 0
        invariant
            i <= end <= n,
            n == path@.len(),
            forall|j: int| i <= j < end ==> path@[j] != '.',
            nested(path@, leaf.tree()) == nested(path@.take(end as int), value.tree()),
        decreases i,
    {
        if path.get_char(i - 1) == '.' {
            let ghost low = path@.take(end as int);
            proof {
                last_name_is_innermost(low, i - 1, value.tree());
                assert(low.take(i - 1) =~= path@.take(i - 1));
                assert(low.skip(i as int) =~= path@.subrange(i as int, end as int));
            }
            value = one_branch(path.substring_char(i, end), value);
            end = i - 1;
        }
        i -= 1;
    }
    proof {
        dot_is_first(path@.take(end as int), 0);
        assert(path@.take(end as int) =~= path@.subrange(0, end as int));
    }
    one_branch(path.substring_char(0, end), value)
}

/// What stands at a path, where something does.
pub open spec fn at_path(tree: Tree, path: Seq<char>) -> Option<Tree>
    decreases path.len(),
    via at_path_ends
{
    let k = dot(path, 0);
    match tree {
        Tree::Object(branches) => if k < path.len() {
            match branch_named(branches, path.take(k)) {
                Some(inner) => at_path(inner, path.skip(k + 1)),
                None => None,
            }
        } else {
            branch_named(branches, path)
        },
        _ => None,
    }
}

#[via_fn]
proof fn at_path_ends(tree: Tree, path: Seq<char>) {
    dot_is_first(path, 0);
}

/// A leaf stands at the path that it was put under.
pub proof fn nested_leaf_is_found(path: Seq<char>, leaf: Tree)
    ensures
        at_path(nested(path, leaf), path) == Some(leaf),
    decreases path.len(),
{
    dot_is_first(path, 0);
    let k = dot(path, 0);
    if k < path.len() {
        nested_leaf_is_found(path.skip(k + 1), leaf);
        let bs = seq![Branch { key: path.take(k), tree: nested(path.skip(k + 1), leaf) }];
        place_is_where(bs, path.take(k), 0);
    } else {
        place_is_where(seq![Branch { key: path, tree: leaf }], path, 0);
    }
}

/// The layer that comes later wins: after a leaf is laid over any tree at a path, that path holds
/// the leaf, laid over what it held before.
pub proof fn later_layer_wins(base: Tree, path: Seq<char>, leaf: Tree)
    ensures
        at_path(merged(base, nested(path, leaf)), path) == Some(
            merged(
                match at_path(base, path) {
                    Some(tree) => tree,
                    None => Tree::Null,
                },
                leaf,
            ),
        ),
    decreases path.len(),
{
    dot_is_first(path, 0);
    let k = dot(path, 0);
    nested_leaf_is_found(path, leaf);
    match base {
        Tree::Object(under) => {
            let (key, tree) = if k < path.len() {
                (path.take(k), nested(path.skip(k + 1), leaf))
            } else {
                (path, leaf)
            };
            let over = seq![Branch { key, tree }];
            place_is_where(over, key, 0);
            merging_goes_by_name(under, over, key);
            if k < path.len() {
                match branch_named(under, key) {
                    Some(inner) => {
                        later_layer_wins(inner, path.skip(k + 1), leaf);
                    },
                    None => {
                        nested_leaf_is_found(path.skip(k + 1), leaf);
                    },
                }
            }
        },
        _ => {},
    }
}

/// A parsed value of `serde_json`.
#[verifier::external_type_specification]
#[verifier::external_body]
pub struct ExValue(serde_json::Value);

/// What a parsed value holds.
pub uninterp spec fn contents(value: serde_json::Value) -> Tree;

/// What `serde_json::from_str` reads in a text; nothing where it reports an error.
pub uninterp spec fn parsed(text: Seq<char>) -> Option<Tree>;

/// Calls `serde_json::from_str` for a `serde_json::Value`. Whether there is a value, and what it
/// holds, depends on the text alone.
#[verifier::external_body]
fn parse_value(text: &str) -> (r: Option<serde_json::Value>)
    ensures
        r matches Some(value) ==> parsed(text@) == Some(contents(value)),
        r is None ==> parsed(text@) is None,
{
    serde_json::from_str::<serde_json::Value>(text).ok()
}

/// The outermost layer of a parsed value.
enum Parts {
    Null,
    Bool(bool),
    Number(String),
    Text(String),
    Array(Vec<serde_json::Value>),
    Object(Vec<(String, serde_json::Value)>),
}

/// Takes a `serde_json::Value` apart by its variants: a number gives its text as
/// `Number::to_string` writes it, an array its items in order, and an object its names and values
/// in the order in which `Map::into_iter` hands them out.
#[verifier::external_body]
fn take_apart(value: serde_json::Value) -> (r: Parts)
    ensures
        match r {
            Parts::Null => contents(value) == Tree::Null,
            Parts::Bool(b) => contents(value) == Tree::Bool(b),
            Parts::Number(text) => contents(value) == Tree::Number(text@),
            Parts::Text(text) => contents(value) == Tree::Text(text@),
            Parts::Array(items) => contents(value) == Tree::Array(
                items@.map_values(|v: serde_json::Value| contents(v)),
            ),
            Parts::Object(entries) => contents(value) == Tree::Object(
                entries@.map_values(
                    |e: (String, serde_json::Value)| Branch { key: e.0@, tree: contents(e.1) },
                ),
            ),
        },
{
    match value {
        serde_json::Value::Null => Parts::Null,
        serde_json::Value::Bool(b) => Parts::Bool(b),
        serde_json::Value::Number(n) => Parts::Number(n.to_string()),
        serde_json::Value::String(s) => Parts::Text(s),
        serde_json::Value::Array(items) => Parts::Array(items),
        serde_json::Value::Object(map) => Parts::Object(map.into_iter().collect()),
    }
}

/// Reads a parsed value into a tree.
fn json_of(value: serde_json::Value) -> (r: Json)
    ensures
        r.tree() == contents(value),
    decreases contents(value),
{
    let ghost whole = contents(value);
    match take_apart(value) {
        Parts::Null => Json::Null,
        Parts::Bool(b) => Json::Bool(b),
        Parts::Number(text) => Json::Number(text),
        Parts::Text(text) => Json::Text(text),
        Parts::Array(items) => {
            let mut rest: Vec<serde_json::Value> = items;
            let ghost all = rest@;
            let ghost held = all.map_values(|v: serde_json::Value| contents(v));
            let mut out: Vec<Json> = Vec::new();
            let ghost mut n: int = 0;
            while rest.len() > 0
                invariant
                    0 <= n <= all.len(),
                    rest@ == all.skip(n),
                    whole == contents(value),
                    whole == Tree::Array(held),
                    held == all.map_values(|v: serde_json::Value| contents(v)),
                    out@.len() == n,
                    forall|j: int| 0 <= j < n ==> (#[trigger] out@[j]).tree() == held[j],
                decreases all.len() - n,
            {
                let item: serde_json::Value = rest.remove(0);
                assert(item == all[n]);
                assert(rest@ =~= all.skip(n + 1));
                assert(held[n] == contents(item));
                assert(decreases_to!(whole => whole->Array_0));
                assert(decreases_to!(held => held[n]));
                out.push(json_of(item));
                proof {
                    n = n + 1;
                }
            }
            proof {
                trees_follow_items(out, out.len() as int);
                assert(trees(out, out.len() as int) =~= held);
            }
            Json::Array(out)
        },
        Parts::Object(entries) => {
            let mut rest: Vec<(String, serde_json::Value)> = entries;
            let ghost all = rest@;
            let ghost held = all.map_values(
                |e: (String, serde_json::Value)| Branch { key: e.0@, tree: contents(e.1) },
            );
            let mut out: Vec<Entry> = Vec::new();
            let ghost mut n: int = 0;
            while rest.len() > 0
                invariant
                    0 <= n <= all.len(),
                    rest@ == all.skip(n),
                    whole == contents(value),
                    whole == Tree::Object(held),
                    held == all.map_values(
                        |e: (String, serde_json::Value)| Branch { key: e.0@, tree: contents(e.1) },
                    ),
                    out@.len() == n,
                    forall|j: int|
                        0 <= j < n ==> (#[trigger] out@[j]).value.tree() == held[j].tree
                            && out@[j].key@ == held[j].key,
                decreases all.len() - n,
            {
                let (key, item): (String, serde_json::Value) = rest.remove(0);
                assert((key, item) == all[n]);
                assert(rest@ =~= all.skip(n + 1));
                assert(held[n].tree == contents(item));
                assert(decreases_to!(whole => whole->Object_0));
                assert(decreases_to!(held => held[n]));
                assert(decreases_to!(held[n] => held[n].tree));
                out.push(Entry { key, value: json_of(item) });
                proof {
                    n = n + 1;
                }
            }
            proof {
                branches_follow_entries(out, out.len() as int);
                assert(branches(out, out.len() as int) =~= held);
            }
            Json::Object(out)
        },
    }
}

/// Reads a text into a tree; nothing where it does not parse.
pub fn parse_json(text: &str) -> (r: Option<Json>)
    ensures
        r is Some <==> parsed(text@) is Some,
        r matches Some(json) ==> parsed(text@) == Some(json.tree()),
{
    match parse_value(text) {
        Some(value) => Some(json_of(value)),
        None => None,
    }
}

/// What a setting of one field says: what its text parses as, or the bare text.
pub open spec fn leaf_of(raw: Seq<char>, reading: Option<Tree>) -> Tree {
    match reading {
        Some(tree) => tree,
        None => Tree::Text(raw),
    }
}

/// The layer that sets one field, from what the field's text parses as.
pub fn field_overlay(path: &str, raw: &str, reading: Option<Json>) -> (r: Json)
    ensures
        r.tree() == nested(
            path@,
            leaf_of(
                raw@,
                match reading {
                    Some(json) => Some(json.tree()),
                    None => None,
                },
            ),
        ),
{
    let leaf: Json = match reading {
        Some(json) => json,
        None => Json::Text(raw.to_owned()),
    };
    nest_dotted_path(path, leaf)
}

/// A field's path and the text that it is set to.
pub struct Setting {
    pub path: Seq<char>,
    pub raw: Seq<char>,
}

/// The first setting comes before the second one: by path, then by text.
pub open spec fn setting_before(a: Setting, b: Setting) -> bool {
    comes_before(a.path, b.path) || (a.path == b.path && comes_before(a.raw, b.raw))
}

/// The prefix of the variables that set one field.
pub open spec fn field_prefix() -> Seq<char> {
    "DD_SOCCER_TUNABLE__"@
}

/// The variable sets a field.
pub open spec fn sets_field(name: Seq<char>) -> bool {
    name.len() >= field_prefix().len() && name.take(field_prefix().len() as int) == field_prefix()
}

/// Where a setting belongs among ordered ones: before the first that comes after it.
pub open spec fn slot(list: Seq<Setting>, s: Setting, i: int) -> int
    decreases list.len() - i,
{
    if i < 0 || i >= list.len() {
        list.len() as int
    } else if setting_before(s, list[i]) {
        i
    } else {
        slot(list, s, i + 1)
    }
}

/// The settings among the first `n` variables, in order.
pub open spec fn settings(vars: Seq<(Seq<char>, Seq<char>)>, n: int) -> Seq<Setting>
    decreases n,
{
    if n <= 0 {
        Seq::empty()
    } else {
        let before = settings(vars, n - 1);
        let (name, raw) = vars[n - 1];
        if sets_field(name) {
            let s = Setting { path: name.skip(field_prefix().len() as int), raw };
            before.insert(slot(before, s, 0), s)
        } else {
            before
        }
    }
}

/// The settings stand in order.
pub open spec fn in_order(list: Seq<Setting>) -> bool {
    forall|i: int, j: int| 0 <= i < j < list.len() ==> !setting_before(
        #[trigger] list[j],
        #[trigger] list[i],
    )
}

proof fn slot_is_first(list: Seq<Setting>, s: Setting, i: int)
    requires
        0 <= i <= list.len(),
    ensures
        i <= slot(list, s, i) <= list.len(),
        slot(list, s, i) < list.len() ==> setting_before(s, list[slot(list, s, i)]),
        forall|j: int| i <= j < slot(list, s, i) ==> !setting_before(s, #[trigger] list[j]),
    decreases list.len() - i,
{
    if i < list.len() && !setting_before(s, list[i]) {
        slot_is_first(list, s, i + 1);
    }
}

proof fn setting_order_is_transitive(a: Setting, b: Setting, c: Setting)
    requires
        setting_before(a, b),
        setting_before(b, c),
    ensures
        setting_before(a, c),
{
    if comes_before(a.path, b.path) && comes_before(b.path, c.path) {
        text_order_is_transitive(a.path, b.path, c.path);
    } else if a.path == b.path && b.path == c.path {
        text_order_is_transitive(a.raw, b.raw, c.raw);
    }
}

proof fn settings_are_ordered(a: Setting, b: Setting)
    ensures
        setting_before(a, b) || setting_before(b, a) || a == b,
        !(setting_before(a, b) && setting_before(b, a)),
{
    texts_are_ordered(a.path, b.path);
    texts_are_ordered(a.raw, b.raw);
}

/// The settings come out in order, whatever order the variables are in.
pub proof fn settings_come_in_order(vars: Seq<(Seq<char>, Seq<char>)>, n: int)
    requires
        0 <= n <= vars.len(),
    ensures
        in_order(settings(vars, n)),
    decreases n,
{
    if n > 0 {
        settings_come_in_order(vars, n - 1);
        let before = settings(vars, n - 1);
        let (name, raw) = vars[n - 1];
        if sets_field(name) {
            let s = Setting { path: name.skip(field_prefix().len() as int), raw };
            slot_is_first(before, s, 0);
            let k = slot(before, s, 0);
            let after = before.insert(k, s);
            assert forall|i: int, j: int| 0 <= i < j < after.len() implies !setting_before(
                #[trigger] after[j],
                #[trigger] after[i],
            ) by {
                if i == k {
                    let old = before[j - 1];
                    settings_are_ordered(s, old);
                    if j - 1 > k {
                        settings_are_ordered(before[k], old);
                        if setting_before(old, s) {
                            setting_order_is_transitive(old, s, before[k]);
                        }
                    }
                } else if j == k {
                    assert(after[i] == before[i]);
                } else {
                    let bi = if i < k {
                        i
                    } else {
                        i - 1
                    };
                    let bj = if j < k {
                        j
                    } else {
                        j - 1
                    };
                    assert(!setting_before(before[bj], before[bi]));
                }
            }
        }
    }
}

/// The texts of the variables.
pub open spec fn var_texts(vars: Seq<(String, String)>) -> Seq<(Seq<char>, Seq<char>)> {
    vars.map_values(|v: (String, String)| (v.0@, v.1@))
}

/// The layers of the environment, lowest first: a whole tree where its variable is set and parses,
/// then one layer for each field, in the order of the settings.
pub open spec fn env_trees(
    blob: Option<Seq<char>>,
    vars: Seq<(Seq<char>, Seq<char>)>,
) -> Seq<Tree> {
    let whole = match blob {
        Some(text) => match parsed(text) {
            Some(tree) => seq![tree],
            None => Seq::empty(),
        },
        None => Seq::empty(),
    };
    whole + settings(vars, vars.len() as int).map_values(
        |s: Setting| nested(s.path, leaf_of(s.raw, parsed(s.raw))),
    )
}

/// The list reads as the settings say.
spec fn lists(list: Seq<(String, String)>, settings: Seq<Setting>) -> bool {
    &&& list.len() == settings.len()
    &&& forall|i: int|
        0 <= i < list.len() ==> (#[trigger] list[i]).0@ == settings[i].path && list[i].1@
            == settings[i].raw
}

fn precedes_setting(a: (&str, &str), b: (&str, &str)) -> (r: bool)
    ensures
        r == setting_before(Setting { path: a.0@, raw: a.1@ }, Setting { path: b.0@, raw: b.1@ }),
{
    text_precedes(a.0, b.0) || (same_text(a.0, b.0) && text_precedes(a.1, b.1))
}

fn starts_field(name: &str) -> (r: bool)
    ensures
        r == sets_field(name@),
{
    let prefix: &str = "DD_SOCCER_TUNABLE__";
    let k: usize = prefix.unicode_len();
    if name.unicode_len() < k {
        return false;
    }
    let front: &str = name.substring_char(0, k);
    assert(name@.subrange(0, k as int) =~= name@.take(k as int));
    same_text(front, prefix)
}

fn gather_settings(vars: &Vec<(String, String)>) -> (list: Vec<(String, String)>)
    ensures
        lists(list@, settings(var_texts(vars@), vars@.len() as int)),
{
    let prefix: &str = "DD_SOCCER_TUNABLE__";
    let k: usize = prefix.unicode_len();
    let ghost texts = var_texts(vars@);
    let mut list: Vec<(String, String)> = Vec::new();
    let mut i: usize = 0;
    while i < vars.len()
        invariant
            i <= vars@.len(),
            k == field_prefix().len(),
            texts == var_texts(vars@),
            lists(list@, settings(texts, i as int)),
        decreases vars@.len() - i,
    {
        let (name, raw): (&String, &String) = (&vars[i].0, &vars[i].1);
        assert(texts[i as int] == (name@, raw@));
        let ghost before = settings(texts, i as int);
        if starts_field(name.as_str()) {
            let n: usize = name.as_str().unicode_len();
            let path: &str = name.as_str().substring_char(k, n);
            assert(name@.subrange(k as int, n as int) =~= name@.skip(k as int));
            let ghost s = Setting { path: path@, raw: raw@ };
            let mut j: usize = 0;
            while j < list.len() && !precedes_setting(
                (path, raw.as_str()),
                (list[j].0.as_str(), list[j].1.as_str()),
            )
                invariant
                    j <= list@.len(),
                    lists(list@, before),
                    s == (Setting { path: path@, raw: raw@ }),
                    slot(before, s, 0) == slot(before, s, j as int),
                decreases list@.len() - j,
            {
                j += 1;
            }
            list.insert(j, (path.to_owned(), raw.as_str().to_owned()));
        }
        i += 1;
    }
    list
}

/// Collects the layers of the environment from the texts of its variables: `blob` is the text of
/// `SOCCER_TUNABLES_JSON`, and `vars` holds all names with their texts.
pub fn env_overlays(blob: Option<&str>, vars: &Vec<(String, String)>) -> (r: Vec<Json>)
    ensures
        trees(r, r.len() as int) == env_trees(
            match blob {
                Some(text) => Some(text@),
                None => None,
            },
            var_texts(vars@),
        ),
{
    let ghost whole = match blob {
        Some(text) => match parsed(text@) {
            Some(tree) => seq![tree],
            None => Seq::empty(),
        },
        None => Seq::empty(),
    };
    let mut r: Vec<Json> = Vec::new();
    if let Some(text) = blob {
        if let Some(json) = parse_json(text) {
            r.push(json);
        }
    }
    assert(r@.len() == whole.len());
    let list: Vec<(String, String)> = gather_settings(vars);
    let ghost all = settings(var_texts(vars@), vars@.len() as int);
    let mut i: usize = 0;
    while i < list.len()
        invariant
            i <= list@.len(),
            lists(list@, all),
            r@.len() == whole.len() + i,
            forall|j: int| 0 <= j < whole.len() ==> (#[trigger] r@[j]).tree() == whole[j],
            forall|j: int|
                whole.len() <= j < r@.len() ==> (#[trigger] r@[j]).tree() == nested(
                    all[j - whole.len()].path,
                    leaf_of(all[j - whole.len()].raw, parsed(all[j - whole.len()].raw)),
                ),
        decreases list@.len() - i,
    {
        let (path, raw): (&str, &str) = (list[i].0.as_str(), list[i].1.as_str());
        assert(path@ == all[i as int].path && raw@ == all[i as int].raw);
        r.push(field_overlay(path, raw, parse_json(raw)));
        i += 1;
    }
    proof {
        trees_follow_items(r, r.len() as int);
        assert(trees(r, r.len() as int) =~= env_trees(
            match blob {
                Some(text) => Some(text@),
                None => None,
            },
            var_texts(vars@),
        ));
    }
    r
}

/// A tree with the first `n` layers on it, the later ones on top.
pub open spec fn layered(base: Tree, layers: Seq<Tree>, n: int) -> Tree
    decreases n,
{
    if n <= 0 {
        base
    } else {
        merged(layered(base, layers, n - 1), layers[n - 1])
    }
}

/// Copies a tree.
pub fn copy_json(json: &Json) -> (r: Json)
    ensures
        r.tree() == json.tree(),
    decreases json,
{
    match json {
        Json::Null => Json::Null,
        Json::Bool(b) => Json::Bool(*b),
        Json::Number(text) => Json::Number(text.as_str().to_owned()),
        Json::Text(text) => Json::Text(text.as_str().to_owned()),
        Json::Array(items) => {
            let mut copies: Vec<Json> = Vec::new();
            let mut i: usize = 0;
            while i < items.len()
                invariant
                    i <= items@.len(),
                    decreases_to!(json => items),
                    copies@.len() == i,
                    forall|j: int| 0 <= j < i ==> (#[trigger] copies@[j]).tree() == items[j].tree(),
                decreases items@.len() - i,
            {
                copies.push(copy_json(&items[i]));
                i += 1;
            }
            proof {
                trees_follow_items(copies, copies.len() as int);
                trees_follow_items(*items, items.len() as int);
                assert(trees(copies, copies.len() as int) =~= trees(*items, items.len() as int));
            }
            Json::Array(copies)
        },
        Json::Object(entries) => {
            let mut copies: Vec<Entry> = Vec::new();
            let mut i: usize = 0;
            while i < entries.len()
                invariant
                    i <= entries@.len(),
                    decreases_to!(json => entries),
                    copies@.len() == i,
                    forall|j: int|
                        0 <= j < i ==> (#[trigger] copies@[j]).key@ == entries[j].key@
                            && copies@[j].value.tree() == entries[j].value.tree(),
                decreases entries@.len() - i,
            {
                let key: String = entries[i].key.as_str().to_owned();
                let value: Json = copy_json(&entries[i].value);
                copies.push(Entry { key, value });
                i += 1;
            }
            proof {
                branches_follow_entries(copies, copies.len() as int);
                branches_follow_entries(*entries, entries.len() as int);
                assert(branches(copies, copies.len() as int) =~= branches(
                    *entries,
                    entries.len() as int,
                ));
            }
            Json::Object(copies)
        },
    }
}

/// A tree with those of the first `n` layers on it that fit, the later ones on top.
pub open spec fn layered_fitting(base: Tree, layers: Seq<Tree>, fit: Seq<bool>, n: int) -> Tree
    decreases n,
{
    if n <= 0 {
        base
    } else {
        let held = layered_fitting(base, layers, fit, n - 1);
        if fit[n - 1] {
            merged(held, layers[n - 1])
        } else {
            held
        }
    }
}

/// Reading a tree gives this.
pub open spec fn reads_as<T, F: Fn(&Json) -> Option<T>>(
    read: F,
    tree: Tree,
    reading: Option<T>,
) -> bool {
    exists|c: Json| #[trigger] c.tree() == tree && call_ensures(read, (&c,), reading)
}

/// A tree can be read, or cannot.
pub open spec fn answers<T, F: Fn(&Json) -> Option<T>>(read: F, tree: Tree, fits: bool) -> bool {
    exists|reading: Option<T>| #[trigger]
        reads_as(read, tree, reading) && fits == (reading is Some)
}

/// One of the first `n` layers fits.
pub open spec fn some_fits(fit: Seq<bool>, n: int) -> bool {
    exists|i: int| 0 <= i < n && #[trigger] fit[i]
}

/// Lays the layers over a tree one by one and keeps each on which the tree can still be read; one
/// that does not fit is skipped. Gives the tree, what it was read as once a layer was kept, and
/// which layers fit.
pub fn fold_fitting<T, F: Fn(&Json) -> Option<T>>(
    base: Json,
    overlays: Vec<Json>,
    read: &F,
) -> (r: (Json, Option<T>, Vec<bool>))
    requires
        forall|j: &Json| #[trigger] call_requires(*read, (j,)),
    ensures
        ({
            let n = overlays.len() as int;
            let layers = trees(overlays, n);
            let fit = r.2@;
            &&& fit.len() == n
            &&& r.0.tree() == layered_fitting(base.tree(), layers, fit, n)
            &&& forall|i: int|
                0 <= i < n ==> answers(
                    *read,
                    merged(layered_fitting(base.tree(), layers, fit, i), overlays[i].tree()),
                    #[trigger] fit[i],
                )
            &&& r.1 is Some <==> some_fits(fit, n)
            &&& r.1 is Some ==> reads_as(*read, r.0.tree(), r.1)
        }),
{
    let ghost start = base.tree();
    let ghost all = overlays;
    let ghost layers = trees(all, all.len() as int);
    proof {
        trees_follow_items(all, all.len() as int);
    }
    let mut rest: Vec<Json> = overlays;
    let mut held: Json = base;
    let mut last: Option<T> = None;
    let mut fit: Vec<bool> = Vec::new();
    while rest.len() > 0
        invariant
            fit@.len() <= all@.len(),
            rest@ == all@.skip(fit@.len() as int),
            layers == trees(all, all.len() as int),
            layers.len() == all@.len(),
            forall|j: int| 0 <= j < layers.len() ==> #[trigger] layers[j] == all[j].tree(),
            forall|j: &Json| #[trigger] call_requires(*read, (j,)),
            held.tree() == layered_fitting(start, layers, fit@, fit@.len() as int),
            forall|i: int|
                0 <= i < fit@.len() ==> answers(
                    *read,
                    merged(layered_fitting(start, layers, fit@, i), all[i].tree()),
                    #[trigger] fit@[i],
                ),
            last is Some <==> some_fits(fit@, fit@.len() as int),
            last is Some ==> reads_as(*read, held.tree(), last),
        decreases rest@.len(),
    {
        let ghost before = fit@;
        let ghost n = fit@.len() as int;
        let layer: Json = rest.remove(0);
        assert(layer == all@[n]);
        assert(rest@ =~= all@.skip(n + 1));
        assert(layers[n] == layer.tree());
        let next: Json = laid_over(copy_json(&held), layer);
        let reading: Option<T> = read(&next);
        proof {
            assert(next.tree() == merged(held.tree(), layers[n]));
            assert(reads_as(*read, next.tree(), reading));
            assert(answers(*read, next.tree(), reading is Some));
        }
        let fits: bool = reading.is_some();
        fit.push(fits);
        proof {
            assert forall|i: int| 0 <= i <= n implies layered_fitting(start, layers, fit@, i)
                == #[trigger] layered_fitting(start, layers, before, i) by {
                answers_before_decide(start, layers, before, fit@, i);
            }
            assert forall|i: int| 0 <= i < fit@.len() implies answers(
                *read,
                merged(layered_fitting(start, layers, fit@, i), all[i].tree()),
                #[trigger] fit@[i],
            ) by {
                assert(layered_fitting(start, layers, fit@, i) == layered_fitting(
                    start,
                    layers,
                    before,
                    i,
                ));
                if i < n {
                    assert(before[i] == fit@[i]);
                }
            }
            assert(layered_fitting(start, layers, fit@, n) == layered_fitting(
                start,
                layers,
                before,
                n,
            ));
            if some_fits(before, n) {
                let i = choose|i: int| 0 <= i < n && #[trigger] before[i];
                assert(fit@[i]);
            }
            if some_fits(fit@, n + 1) && !fits {
                let i = choose|i: int| 0 <= i < n + 1 && #[trigger] fit@[i];
                assert(before[i]);
            }
            if fits {
                assert(fit@[n]);
            }
        }
        if fits {
            held = next;
            last = reading;
        }
    }
    (held, last, fit)
}

/// Which layers are held is settled by the answers to those before.
proof fn answers_before_decide(
    base: Tree,
    layers: Seq<Tree>,
    a: Seq<bool>,
    b: Seq<bool>,
    n: int,
)
    requires
        n <= a.len(),
        n <= b.len(),
        forall|i: int| 0 <= i < n ==> #[trigger] a[i] == b[i],
    ensures
        layered_fitting(base, layers, b, n) == layered_fitting(base, layers, a, n),
    decreases n,
{
    if n > 0 {
        answers_before_decide(base, layers, a, b, n - 1);
        assert(a[n - 1] == b[n - 1]);
    }
}

/// Those of the first `n` layers that fit, in their order.
pub open spec fn fitting(layers: Seq<Tree>, fit: Seq<bool>, n: int) -> Seq<Tree>
    decreases n,
{
    if n <= 0 {
        Seq::empty()
    } else if fit[n - 1] {
        fitting(layers, fit, n - 1).push(layers[n - 1])
    } else {
        fitting(layers, fit, n - 1)
    }
}

proof fn layers_below_decide(base: Tree, a: Seq<Tree>, b: Seq<Tree>, n: int)
    requires
        n <= a.len(),
        n <= b.len(),
        forall|i: int| 0 <= i < n ==> #[trigger] a[i] == b[i],
    ensures
        layered(base, a, n) == layered(base, b, n),
    decreases n,
{
    if n > 0 {
        layers_below_decide(base, a, b, n - 1);
        assert(a[n - 1] == b[n - 1]);
    }
}

/// A layer that does not fit leaves no trace: the tree is the one with only the fitting layers on
/// it, in their order.
pub proof fn misfits_leave_no_trace(base: Tree, layers: Seq<Tree>, fit: Seq<bool>, n: int)
    requires
        0 <= n <= layers.len(),
        fit.len() == layers.len(),
    ensures
        layered_fitting(base, layers, fit, n) == layered(
            base,
            fitting(layers, fit, n),
            fitting(layers, fit, n).len() as int,
        ),
    decreases n,
{
    if n > 0 {
        misfits_leave_no_trace(base, layers, fit, n - 1);
        let before = fitting(layers, fit, n - 1);
        let after = fitting(layers, fit, n);
        if fit[n - 1] {
            layers_below_decide(base, before, after, before.len() as int);
        }
    }
}

} // verus!
