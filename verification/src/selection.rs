//! The list of found configuration files that the setup dialogue offers for
//! tracking, ordered by tool name.

use vstd::prelude::*;
use vstd::utf8::is_ascii_chars;

use crate::configs::{ConfigFile, spec_base_label};
use crate::text::{
    chars_lt, chars_of, lemma_chars_lt_irreflexive, lemma_chars_lt_total, lemma_chars_lt_transitive,
    spec_chars_lt,
};

verus! {

/// Names what `str::to_lowercase` returns.
pub uninterp spec fn spec_to_lowercase(s: Seq<char>) -> Seq<char>;

/// Calls `str::to_lowercase`. Its result is a function of the string alone
/// (Unicode lowercase mapping, independent of the locale); it is named, not
/// described.
#[verifier::external_body]
fn to_lowercase(s: &str) -> (r: String)
    ensures
        r@ == spec_to_lowercase(s@),
{
    s.to_lowercase()
}

/// Item `i` comes before item `j`: its key is smaller, or the keys are equal
/// and `i` came first.
pub open spec fn spec_before(keys: Seq<Seq<char>>, i: int, j: int) -> bool {
    spec_chars_lt(keys[i], keys[j]) || (keys[i] == keys[j] && i < j)
}

/// `order` lists the indices of `keys` so that the keys ascend, items with
/// equal keys keeping their input order (a stable sort by key).
pub open spec fn spec_stable_order(keys: Seq<Seq<char>>, order: Seq<usize>) -> bool {
    &&& order.len() == keys.len()
    &&& forall|k: int| 0 <= k < order.len() ==> #[trigger] order[k] < keys.len()
    &&& forall|a: int, b: int|
        0 <= a < b < order.len() ==> spec_before(keys, #[trigger] order[a] as int, #[trigger] order[b] as int)
}

/// Sortedness of a list of indices, all below `bound`.
pub open spec fn spec_sorted_below(keys: Seq<Seq<char>>, order: Seq<usize>, bound: int) -> bool {
    &&& forall|k: int| 0 <= k < order.len() ==> #[trigger] order[k] < bound
    &&& forall|a: int, b: int|
        0 <= a < b < order.len() ==> spec_before(keys, #[trigger] order[a] as int, #[trigger] order[b] as int)
}

/// Inserting index `i`, larger than every listed index, after every item whose
/// key is not larger than its key keeps the list sorted.
proof fn lemma_insert_keeps_sorted(keys: Seq<Seq<char>>, order: Seq<usize>, i: usize, p: int)
    requires
        i < keys.len(),
        spec_sorted_below(keys, order, i as int),
        forall|k: int| 0 <= k < order.len() ==> #[trigger] order[k] < keys.len(),
        0 <= p <= order.len(),
        forall|q: int| 0 <= q < p ==> !spec_chars_lt(keys[i as int], keys[#[trigger] order[q] as int]),
        p < order.len() ==> spec_chars_lt(keys[i as int], keys[order[p] as int]),
    ensures
        spec_sorted_below(keys, order.insert(p, i), i + 1),
{
    let o2 = order.insert(p, i);
    assert forall|k: int| 0 <= k < o2.len() implies #[trigger] o2[k] < i + 1 by {
        if k < p {
            assert(o2[k] == order[k]);
        } else if k > p {
            assert(o2[k] == order[k - 1]);
        }
    }
    assert forall|a: int, b: int| 0 <= a < b < o2.len() implies spec_before(
        keys,
        #[trigger] o2[a] as int,
        #[trigger] o2[b] as int,
    ) by {
        if a == p {
            // the new item against a later one
            let ob = order[b - 1];
            assert(o2[b] == ob);
            if b - 1 > p {
                let op = order[p];
                assert(spec_before(keys, op as int, ob as int));
                if spec_chars_lt(keys[op as int], keys[ob as int]) {
                    lemma_chars_lt_transitive(keys[i as int], keys[op as int], keys[ob as int]);
                }
            }
        } else if b == p {
            // an earlier item against the new one
            let oa = order[a];
            assert(o2[a] == oa);
            assert(!spec_chars_lt(keys[i as int], keys[oa as int]));
            lemma_chars_lt_total(keys[i as int], keys[oa as int]);
        } else {
            let a0 = if a < p { a } else { a - 1 };
            let b0 = if b < p { b } else { b - 1 };
            assert(o2[a] == order[a0]);
            assert(o2[b] == order[b0]);
            assert(a0 < b0);
        }
    }
}

/// The character sequences held by a list of character vectors.
pub open spec fn spec_char_rows(keys: Seq<Vec<char>>) -> Seq<Seq<char>> {
    keys.map_values(|v: Vec<char>| v@)
}

/// The indices of `keys` in stable ascending order of the keys.
pub fn stable_order(keys: &Vec<Vec<char>>) -> (order: Vec<usize>)
    ensures
        spec_stable_order(spec_char_rows(keys@), order@),
{
    let ghost k = spec_char_rows(keys@);
    let n = keys.len();
    let mut order: Vec<usize> = Vec::new();
    let mut i: usize = 0;
    while i < n
        invariant
            n == keys@.len(),
            k == spec_char_rows(keys@),
            k.len() == n,
            i <= n,
            order@.len() == i,
            spec_sorted_below(k, order@, i as int),
        decreases n - i,
    {
        let mut p: usize = 0;
        while p < order.len() && !chars_lt(&keys[i], &keys[order[p]])
            invariant
                n == keys@.len(),
                k == spec_char_rows(keys@),
                k.len() == n,
                i < n,
                order@.len() == i,
                spec_sorted_below(k, order@, i as int),
                p <= order@.len(),
                forall|q: int| 0 <= q < p ==> !spec_chars_lt(k[i as int], k[#[trigger] order@[q] as int]),
            decreases order@.len() - p,
        {
            assert(k[i as int] == keys@[i as int]@);
            assert(k[order@[p as int] as int] == keys@[order@[p as int] as int]@);
            p = p + 1;
        }
        proof {
            if p < order@.len() {
                assert(k[i as int] == keys@[i as int]@);
                assert(k[order@[p as int] as int] == keys@[order@[p as int] as int]@);
            }
            lemma_insert_keeps_sorted(k, order@, i, p as int);
        }
        order.insert(p, i);
        i = i + 1;
    }
    order
}

/// What the dialogue shows for a configuration file: the value returned when
/// it is chosen (its relative path), the label (the tool) and the hint (base
/// and path).
pub open spec fn spec_prompt_item(c: ConfigFile) -> (Seq<char>, Seq<char>, Seq<char>) {
    (c.path@, c.tool@, spec_base_label(c.base) + "/"@ + c.path@)
}

/// ASCII lowercase of one character: `A` to `Z` become `a` to `z`, every
/// other character stays as it is.
pub open spec fn spec_ascii_lower_char(c: char) -> char {
    if 'A' <= c && c <= 'Z' {
        ((c as u32) + 32) as char
    } else {
        c
    }
}

/// The lowercase form of a tool name, its sort key. An ASCII name is
/// lowercased character by character (which is what `str::to_lowercase`
/// does to ASCII text); any other name takes `str::to_lowercase`.
pub open spec fn spec_lowercase_key(s: Seq<char>) -> Seq<char> {
    if is_ascii_chars(s) {
        Seq::new(s.len(), |i: int| spec_ascii_lower_char(s[i]))
    } else {
        spec_to_lowercase(s)
    }
}

fn ascii_lower_char(c: char) -> (r: char)
    ensures
        r == spec_ascii_lower_char(c),
{
    if 'A' <= c && c <= 'Z' {
        ((c as u8) + 32) as char
    } else {
        c
    }
}

/// The lowercase form of a tool name (see [`spec_lowercase_key`]).
fn lowercase_key(s: &str) -> (r: Vec<char>)
    ensures
        r@ == spec_lowercase_key(s@),
{
    if s.is_ascii() {
        let v = chars_of(s);
        let mut out: Vec<char> = Vec::new();
        let mut i: usize = 0;
        while i < v.len()
            invariant
                v@ == s@,
                i <= v@.len(),
                out@.len() == i,
                forall|j: int| 0 <= j < i ==> #[trigger] out@[j] == spec_ascii_lower_char(v@[j]),
            decreases v@.len() - i,
        {
            out.push(ascii_lower_char(v[i]));
            i = i + 1;
        }
        assert(out@ =~= spec_lowercase_key(s@));
        out
    } else {
        let lower = to_lowercase(s);
        chars_of(lower.as_str())
    }
}

/// The sort keys of the found files: their tool names in lowercase.
pub open spec fn spec_lowercase_tools(found: Seq<ConfigFile>) -> Seq<Seq<char>> {
    Seq::new(found.len(), |i: int| spec_lowercase_key(found[i].tool@))
}

/// `items` is what the dialogue offers for `found`: one item per found file,
/// sorted by the lowercase tool name, files of equal names keeping their order.
pub open spec fn spec_offered(found: Seq<ConfigFile>, items: Seq<(String, String, String)>) -> bool {
    &&& items.len() == found.len()
    &&& exists|order: Seq<usize>|
        #![trigger spec_stable_order(spec_lowercase_tools(found), order)]
        spec_stable_order(spec_lowercase_tools(found), order) && forall|j: int|
            0 <= j < items.len() ==> (#[trigger] items[j].0@, items[j].1@, items[j].2@)
                == spec_prompt_item(found[order[j] as int])
}

/// The items offered for selection (see [`spec_offered`]).
pub fn prompt_items(found: &Vec<ConfigFile>) -> (r: Vec<(String, String, String)>)
    ensures
        spec_offered(found@, r@),
{
    let n = found.len();
    let mut keys: Vec<Vec<char>> = Vec::new();
    let mut i: usize = 0;
    while i < n
        invariant
            n == found@.len(),
            i <= n,
            keys@.len() == i,
            forall|j: int| 0 <= j < i ==> (#[trigger] keys@[j])@ == spec_lowercase_key(found@[j].tool@),
        decreases n - i,
    {
        keys.push(lowercase_key(found[i].tool));
        i = i + 1;
    }
    assert(spec_char_rows(keys@) =~= spec_lowercase_tools(found@));
    let order = stable_order(&keys);
    let mut out: Vec<(String, String, String)> = Vec::new();
    let mut j: usize = 0;
    while j < n
        invariant
            n == found@.len(),
            spec_stable_order(spec_lowercase_tools(found@), order@),
            j <= n,
            out@.len() == j,
            forall|m: int|
                0 <= m < j ==> (#[trigger] out@[m].0@, out@[m].1@, out@[m].2@) == spec_prompt_item(
                    found@[order@[m] as int],
                ),
        decreases n - j,
    {
        let c = found[order[j]];
        let mut hint = c.base.to_string();
        hint.append("/");
        hint.append(c.path);
        out.push((c.path.to_owned(), c.tool.to_owned(), hint));
        j = j + 1;
    }
    out
}

/// The key of an ASCII tool name is the whole name lowercased: of the same
/// length, with each capital letter replaced by its small letter (code point
/// 32 higher) and every other character kept.
pub proof fn lemma_ascii_key_is_full_lowercase(s: Seq<char>)
    requires
        is_ascii_chars(s),
    ensures
        spec_lowercase_key(s).len() == s.len(),
        forall|i: int|
            0 <= i < s.len() && 'A' <= s[i] && s[i] <= 'Z' ==> (#[trigger] spec_lowercase_key(s)[i]) as u32
                == (s[i] as u32) + 32,
        forall|i: int|
            0 <= i < s.len() && !('A' <= s[i] && s[i] <= 'Z') ==> #[trigger] spec_lowercase_key(s)[i] == s[i],
{
}

/// A name with its capital ASCII letters made small, position by position.
pub open spec fn spec_small_letters(t: Seq<char>) -> Seq<char> {
    Seq::new(
        t.len(),
        |i: int|
            if 'A' <= t[i] && t[i] <= 'Z' {
                ((t[i] as u32) + 32) as char
            } else {
                t[i]
            },
    )
}

/// The offered items ascend in the lexicographic order of their whole tool
/// names with capitals made small (when all names are ASCII): no later item
/// has a smaller lowercase name than an earlier one.
pub proof fn lemma_offered_items_ascend(found: Seq<ConfigFile>, items: Seq<(String, String, String)>)
    requires
        spec_offered(found, items),
        forall|i: int| 0 <= i < found.len() ==> is_ascii_chars(#[trigger] found[i].tool@),
    ensures
        forall|a: int, b: int|
            0 <= a < b < items.len() ==> !spec_chars_lt(
                spec_small_letters(#[trigger] items[b].1@),
                spec_small_letters(#[trigger] items[a].1@),
            ),
{
    let keys = spec_lowercase_tools(found);
    let order = choose|order: Seq<usize>|
        spec_stable_order(spec_lowercase_tools(found), order) && forall|j: int|
            0 <= j < items.len() ==> (#[trigger] items[j].0@, items[j].1@, items[j].2@)
                == spec_prompt_item(found[order[j] as int]);
    assert forall|a: int, b: int| 0 <= a < b < items.len() implies !spec_chars_lt(
        spec_small_letters(#[trigger] items[b].1@),
        spec_small_letters(#[trigger] items[a].1@),
    ) by {
        let ia = order[a] as int;
        let ib = order[b] as int;
        assert((items[a].0@, items[a].1@, items[a].2@) == spec_prompt_item(found[ia]));
        assert((items[b].0@, items[b].1@, items[b].2@) == spec_prompt_item(found[ib]));
        let ta = found[ia].tool@;
        let tb = found[ib].tool@;
        assert(is_ascii_chars(ta));
        assert(is_ascii_chars(tb));
        assert(keys[ia] =~= spec_small_letters(ta));
        assert(keys[ib] =~= spec_small_letters(tb));
        assert(spec_before(keys, ia, ib));
        lemma_chars_lt_total(keys[ia], keys[ib]);
        lemma_chars_lt_irreflexive(keys[ia]);
    }
}

} // verus!
