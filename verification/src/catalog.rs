//! The application catalog: how it is ordered, and how a query filters and
//! ranks it.

use vstd::prelude::*;
use crate::desktop_entry::{parse_desktop_file, parsed_entry, AppEntry, AppEntryView};
use crate::fuzzy::{capped, fuzzy_score, score};
use crate::text::{chars_of, lowercase, to_lowercase};

verus! {

/// The entries of `entries` as mathematical values.
pub open spec fn views(entries: Seq<AppEntry>) -> Seq<AppEntryView> {
    entries.map_values(|e: AppEntry| e@)
}

/// Whether `a` comes before `b`, or is `b`, in the order of the
/// dictionary, characters compared by their code points.
pub open spec fn lex_le(a: Seq<char>, b: Seq<char>) -> bool
    decreases a.len(),
{
    if a.len() == 0 {
        true
    } else if b.len() == 0 {
        false
    } else if (a[0] as u32) != (b[0] as u32) {
        (a[0] as u32) < (b[0] as u32)
    } else {
        lex_le(a.skip(1), b.skip(1))
    }
}

/// Of two strings, one comes before the other or they are equal.
pub proof fn lemma_lex_le_total(a: Seq<char>, b: Seq<char>)
    ensures
        lex_le(a, b) || lex_le(b, a),
    decreases a.len(),
{
    if a.len() > 0 && b.len() > 0 && (a[0] as u32) == (b[0] as u32) {
        lemma_lex_le_total(a.skip(1), b.skip(1));
    }
}

/// What comes before a string comes before all that the string comes
/// before.
pub proof fn lemma_lex_le_transitive(a: Seq<char>, b: Seq<char>, c: Seq<char>)
    requires
        lex_le(a, b),
        lex_le(b, c),
    ensures
        lex_le(a, c),
    decreases a.len(),
{
    if a.len() > 0 && b.len() > 0 && c.len() > 0 && (a[0] as u32) == (b[0] as u32) && (b[0] as u32) == (c[0] as u32) {
        lemma_lex_le_transitive(a.skip(1), b.skip(1), c.skip(1));
    }
}

/// Whether `output` is `input` put in the order `le` and `origin` tells for
/// each place of `output` which place of `input` it holds. Where `le` ranks
/// two entries alike, the one that stood first in `input` stands first.
pub open spec fn is_stable_sort(
    input: Seq<AppEntryView>,
    output: Seq<AppEntryView>,
    origin: Seq<int>,
    le: spec_fn(AppEntryView, AppEntryView) -> bool,
) -> bool {
    &&& output.len() == input.len()
    &&& origin.len() == input.len()
    &&& forall|k: int|
        0 <= k < output.len() ==> 0 <= #[trigger] origin[k] < input.len() && output[k]
            == input[origin[k]]
    &&& forall|k: int, l: int|
        #![trigger origin[k], origin[l]]
        0 <= k < l < output.len() ==> {
            &&& origin[k] != origin[l]
            &&& le(output[k], output[l])
            &&& le(output[l], output[k]) ==> origin[k] < origin[l]
        }
}

/// Whether `output` is `input` put in the order `le`, with entries that
/// `le` ranks alike left in the order that they had.
pub open spec fn stably_sorted(
    input: Seq<AppEntryView>,
    output: Seq<AppEntryView>,
    le: spec_fn(AppEntryView, AppEntryView) -> bool,
) -> bool {
    exists|origin: Seq<int>| is_stable_sort(input, output, origin, le)
}

/// The order of ranking: higher scores first.
pub open spec fn by_score() -> spec_fn(AppEntryView, AppEntryView) -> bool {
    |a: AppEntryView, b: AppEntryView| a.score >= b.score
}

/// The order of the catalog: by name, without regard to the case of
/// letters.
pub open spec fn by_name() -> spec_fn(AppEntryView, AppEntryView) -> bool {
    |a: AppEntryView, b: AppEntryView| lex_le(lowercase(a.name), lowercase(b.name))
}

/// The length in bytes of a name, as far as the machine can count.
pub open spec fn byte_len(name: Seq<char>) -> usize {
    vstd::utf8::encode_utf8(name).len() as usize
}

/// `entry` with the score that it gets against the folded query `query`, as
/// an `i32` tells it.
pub open spec fn scored(entry: AppEntryView, query: Seq<char>) -> AppEntryView {
    AppEntryView {
        score: capped(score(query, lowercase(entry.name), byte_len(entry.name) as nat)),
        ..entry
    }
}

/// The entries of `catalog` that match the folded query `query`, each with
/// its score, in the order of the catalog.
pub open spec fn matches(catalog: Seq<AppEntryView>, query: Seq<char>) -> Seq<AppEntryView>
    decreases catalog.len(),
{
    if catalog.len() == 0 {
        Seq::empty()
    } else {
        let before = matches(catalog.drop_last(), query);
        let entry = scored(catalog.last(), query);
        if entry.score > 0 {
            before.push(entry)
        } else {
            before
        }
    }
}

/// Whether `filtered` is what the query `query` leaves of `catalog`: all of
/// it for the empty query, else the matching entries, best first.
pub open spec fn is_filtered(
    catalog: Seq<AppEntryView>,
    query: Seq<char>,
    filtered: Seq<AppEntryView>,
) -> bool {
    if query.len() == 0 {
        filtered == catalog
    } else {
        stably_sorted(matches(catalog, lowercase(query)), filtered, by_score())
    }
}

/// Every match is an entry of the catalog with its score, and that score is
/// above 0.
pub proof fn lemma_matches_scored(catalog: Seq<AppEntryView>, query: Seq<char>, k: int)
    requires
        0 <= k < matches(catalog, query).len(),
    ensures
        matches(catalog, query)[k].score > 0,
        exists|j: int|
            0 <= j < catalog.len() && matches(catalog, query)[k] == scored(
                #[trigger] catalog[j],
                query,
            ),
    decreases catalog.len(),
{
    let before = matches(catalog.drop_last(), query);
    if k < before.len() {
        lemma_matches_scored(catalog.drop_last(), query, k);
        let j = choose|j: int|
            0 <= j < catalog.drop_last().len() && before[k] == scored(
                #[trigger] catalog.drop_last()[j],
                query,
            );
    } else {
        assert(matches(catalog, query)[k] == scored(catalog[catalog.len() - 1], query));
    }
}

/// A filter by a query that is not empty keeps no entry that the query
/// scores 0: each entry that it keeps is an entry of the catalog with its
/// score, and that score is above 0.
pub proof fn lemma_filter_excludes_unmatched(
    catalog: Seq<AppEntryView>,
    query: Seq<char>,
    filtered: Seq<AppEntryView>,
    k: int,
)
    requires
        is_filtered(catalog, query, filtered),
        query.len() > 0,
        0 <= k < filtered.len(),
    ensures
        filtered[k].score > 0,
        exists|j: int|
            0 <= j < catalog.len() && filtered[k] == scored(
                #[trigger] catalog[j],
                lowercase(query),
            ),
{
    let found = matches(catalog, lowercase(query));
    let origin = choose|origin: Seq<int>| is_stable_sort(found, filtered, origin, by_score());
    lemma_matches_scored(catalog, lowercase(query), origin[k]);
}

/// A sort leaves no entry out: every place of the input is where some
/// place of the output comes from.
pub proof fn lemma_stable_sort_keeps_all(
    input: Seq<AppEntryView>,
    output: Seq<AppEntryView>,
    origin: Seq<int>,
    le: spec_fn(AppEntryView, AppEntryView) -> bool,
    j: int,
)
    requires
        is_stable_sort(input, output, origin, le),
        0 <= j < input.len(),
    ensures
        exists|k: int| 0 <= k < output.len() && #[trigger] origin[k] == j && output[k] == input[j],
{
    let places = vstd::set_lib::set_int_range(0, input.len() as int);
    assert(origin.no_duplicates()) by {
        assert forall|a: int, b: int| 0 <= a < origin.len() && 0 <= b < origin.len() && a
            != b implies origin[a] != origin[b] by {
            if a < b {
                assert(origin[a] != origin[b]);
            } else {
                assert(origin[b] != origin[a]);
            }
        }
    }
    origin.unique_seq_to_set();
    vstd::set_lib::lemma_int_range(0, input.len() as int);
    assert(origin.to_set().subset_of(places)) by {
        assert forall|v: int| origin.to_set().contains(v) implies places.contains(v) by {
            let k = choose|k: int| 0 <= k < origin.len() && origin[k] == v;
        }
    }
    vstd::set_lib::lemma_set_subset_finite(places, origin.to_set());
    vstd::set_lib::lemma_subset_equality(origin.to_set(), places);
    assert(origin.to_set().contains(j));
    let k = choose|k: int| 0 <= k < origin.len() && origin[k] == j;
    assert(origin[k] == j && output[k] == input[j]);
}

/// Every entry of the catalog that the folded query `query` scores above 0
/// is among the matches, with its score.
pub proof fn lemma_matches_keeps_all(catalog: Seq<AppEntryView>, query: Seq<char>, j: int)
    requires
        0 <= j < catalog.len(),
        scored(catalog[j], query).score > 0,
    ensures
        exists|k: int|
            0 <= k < matches(catalog, query).len() && #[trigger] matches(catalog, query)[k]
                == scored(catalog[j], query),
    decreases catalog.len(),
{
    let before = matches(catalog.drop_last(), query);
    if j < catalog.len() - 1 {
        lemma_matches_keeps_all(catalog.drop_last(), query, j);
        let k = choose|k: int|
            0 <= k < before.len() && #[trigger] before[k] == scored(
                catalog.drop_last()[j],
                query,
            );
        assert(matches(catalog, query)[k] == scored(catalog[j], query));
    } else {
        assert(matches(catalog, query)[before.len() as int] == scored(catalog[j], query));
    }
}

/// A filter by a query that is not empty keeps every entry of the catalog
/// that the query scores above 0, with its score.
pub proof fn lemma_filter_keeps_matches(
    catalog: Seq<AppEntryView>,
    query: Seq<char>,
    filtered: Seq<AppEntryView>,
    j: int,
)
    requires
        is_filtered(catalog, query, filtered),
        query.len() > 0,
        0 <= j < catalog.len(),
        scored(catalog[j], lowercase(query)).score > 0,
    ensures
        exists|k: int|
            0 <= k < filtered.len() && #[trigger] filtered[k] == scored(
                catalog[j],
                lowercase(query),
            ),
{
    let found = matches(catalog, lowercase(query));
    let origin = choose|origin: Seq<int>| is_stable_sort(found, filtered, origin, by_score());
    lemma_matches_keeps_all(catalog, lowercase(query), j);
    let m = choose|m: int|
        0 <= m < found.len() && #[trigger] found[m] == scored(catalog[j], lowercase(query));
    lemma_stable_sort_keeps_all(found, filtered, origin, by_score(), m);
    let k = choose|k: int| 0 <= k < filtered.len() && #[trigger] origin[k] == m && filtered[k]
        == found[m];
}

/// Whether `a` comes before `b`, or is `b`, in the order of the
/// dictionary.
pub fn lex_le_chars(a: &Vec<char>, b: &Vec<char>) -> (le: bool)
    ensures
        le == lex_le(a@, b@),
{
    let mut i: usize = 0;
    assert(a@.skip(0) == a@ && b@.skip(0) == b@);
    while i < a.len() && i < b.len() && (a[i] as u32) == (b[i] as u32)
        invariant
            i <= a.len(),
            i <= b.len(),
            lex_le(a@, b@) == lex_le(a@.skip(i as int), b@.skip(i as int)),
        decreases a.len() - i,
    {
        assert(a@.skip(i as int).skip(1) == a@.skip(i as int + 1));
        assert(b@.skip(i as int).skip(1) == b@.skip(i as int + 1));
        i = i + 1;
    }
    if i >= a.len() {
        true
    } else if i >= b.len() {
        false
    } else {
        (a[i] as u32) < (b[i] as u32)
    }
}

/// Puts `entries` in the order of their scores, highest first. Entries of
/// one score keep their order.
pub fn sort_by_score(entries: Vec<AppEntry>) -> (sorted: Vec<AppEntry>)
    ensures
        stably_sorted(views(entries@), views(sorted@), by_score()),
{
    let ghost input = views(entries@);
    let mut rest = entries;
    let mut sorted: Vec<AppEntry> = Vec::new();
    let ghost mut origin: Seq<int> = Seq::empty();
    while rest.len() > 0
        invariant
            views(rest@) == input.take(rest.len() as int),
            rest.len() <= input.len(),
            sorted.len() == input.len() - rest.len(),
            origin.len() == sorted.len(),
            forall|k: int|
                0 <= k < sorted.len() ==> rest.len() <= #[trigger] origin[k] < input.len()
                    && sorted@[k]@ == input[origin[k]],
            forall|k: int, l: int|
                #![trigger origin[k], origin[l]]
                0 <= k < l < sorted.len() ==> {
                    &&& origin[k] != origin[l]
                    &&& sorted@[k].score >= sorted@[l].score
                    &&& sorted@[l].score >= sorted@[k].score ==> origin[k] < origin[l]
                },
        decreases rest.len(),
    {
        let ghost before = rest@;
        let entry = rest.pop().unwrap();
        let ghost at = rest.len() as int;
        assert(entry@ == input[at]) by {
            assert(views(before)[at] == before[at]@);
        }
        assert(views(rest@) == input.take(at)) by {
            assert(input.take(at + 1).take(at) == input.take(at));
        }
        let mut place: usize = 0;
        while place < sorted.len() && sorted[place].score > entry.score
            invariant
                place <= sorted.len(),
                forall|k: int| 0 <= k < place ==> sorted@[k].score > entry.score,
            decreases sorted.len() - place,
        {
            place = place + 1;
        }
        let ghost old_sorted = sorted@;
        let ghost old_origin = origin;
        sorted.insert(place, entry);
        proof {
            origin = old_origin.insert(place as int, at);
            assert forall|k: int| 0 <= k < sorted.len() implies rest.len() <= #[trigger] origin[k]
                < input.len() && sorted@[k]@ == input[origin[k]] by {
                if k < place {
                    assert(origin[k] == old_origin[k]);
                } else if k > place {
                    assert(origin[k] == old_origin[k - 1]);
                }
            }
            assert forall|k: int, l: int|
                #![trigger origin[k], origin[l]]
                0 <= k < l < sorted.len() implies {
                &&& origin[k] != origin[l]
                &&& sorted@[k].score >= sorted@[l].score
                &&& sorted@[l].score >= sorted@[k].score ==> origin[k] < origin[l]
            } by {
                let ok = if k < place { k } else { k - 1 };
                let ol = if l < place { l } else { l - 1 };
                if k != place {
                    assert(origin[k] == old_origin[ok] && sorted@[k] == old_sorted[ok]);
                }
                if l != place {
                    assert(origin[l] == old_origin[ol] && sorted@[l] == old_sorted[ol]);
                }
                if k != place && l != place {
                    assert(old_origin[ok] != old_origin[ol]);
                }
                if k == place && place < old_sorted.len() {
                    assert(old_origin[place as int] != old_origin[ol] || ol == place);
                }
            }
        }
    }
    proof {
        let output = views(sorted@);
        assert forall|k: int| 0 <= k < output.len() implies 0 <= #[trigger] origin[k] < input.len()
            && output[k] == input[origin[k]] by {
            assert(output[k] == sorted@[k]@);
        }
        assert forall|k: int, l: int|
            #![trigger origin[k], origin[l]]
            0 <= k < l < output.len() implies {
            &&& origin[k] != origin[l]
            &&& by_score()(output[k], output[l])
            &&& by_score()(output[l], output[k]) ==> origin[k] < origin[l]
        } by {
            assert(output[k] == sorted@[k]@ && output[l] == sorted@[l]@);
        }
        assert(is_stable_sort(input, output, origin, by_score()));
    }
    sorted
}

/// Puts `entries` in the order of their names, without regard to the case
/// of letters. Entries of one name keep their order.
pub fn sort_by_name(entries: Vec<AppEntry>) -> (sorted: Vec<AppEntry>)
    ensures
        stably_sorted(views(entries@), views(sorted@), by_name()),
{
    let ghost input = views(entries@);
    let mut rest = entries;
    let mut sorted: Vec<AppEntry> = Vec::new();
    let mut keys: Vec<Vec<char>> = Vec::new();
    let ghost mut origin: Seq<int> = Seq::empty();
    while rest.len() > 0
        invariant
            views(rest@) == input.take(rest.len() as int),
            rest.len() <= input.len(),
            sorted.len() == input.len() - rest.len(),
            origin.len() == sorted.len(),
            keys.len() == sorted.len(),
            forall|k: int|
                0 <= k < sorted.len() ==> #[trigger] keys@[k]@ == lowercase(sorted@[k].name@),
            forall|k: int|
                0 <= k < sorted.len() ==> rest.len() <= #[trigger] origin[k] < input.len()
                    && sorted@[k]@ == input[origin[k]],
            forall|k: int, l: int|
                #![trigger origin[k], origin[l]]
                0 <= k < l < sorted.len() ==> {
                    &&& origin[k] != origin[l]
                    &&& lex_le(keys@[k]@, keys@[l]@)
                    &&& lex_le(keys@[l]@, keys@[k]@) ==> origin[k] < origin[l]
                },
        decreases rest.len(),
    {
        let ghost before = rest@;
        let entry = rest.pop().unwrap();
        let ghost at = rest.len() as int;
        assert(entry@ == input[at]) by {
            assert(views(before)[at] == before[at]@);
        }
        assert(views(rest@) == input.take(at)) by {
            assert(input.take(at + 1).take(at) == input.take(at));
        }
        let folded = to_lowercase(entry.name.as_str());
        let key = chars_of(folded.as_str());
        let mut place: usize = 0;
        while place < sorted.len() && !lex_le_chars(&key, &keys[place])
            invariant
                place <= sorted.len(),
                keys.len() == sorted.len(),
                forall|k: int| 0 <= k < place ==> !lex_le(key@, #[trigger] keys@[k]@),
            decreases sorted.len() - place,
        {
            place = place + 1;
        }
        let ghost old_sorted = sorted@;
        let ghost old_keys = keys@;
        let ghost old_origin = origin;
        sorted.insert(place, entry);
        keys.insert(place, key);
        proof {
            origin = old_origin.insert(place as int, at);
            assert forall|k: int| 0 <= k < sorted.len() implies #[trigger] keys@[k]@ == lowercase(
                sorted@[k].name@,
            ) by {
                if k < place {
                    assert(keys@[k] == old_keys[k] && sorted@[k] == old_sorted[k]);
                } else if k > place {
                    assert(keys@[k] == old_keys[k - 1] && sorted@[k] == old_sorted[k - 1]);
                }
            }
            assert forall|k: int| 0 <= k < sorted.len() implies rest.len() <= #[trigger] origin[k]
                < input.len() && sorted@[k]@ == input[origin[k]] by {
                if k < place {
                    assert(origin[k] == old_origin[k]);
                } else if k > place {
                    assert(origin[k] == old_origin[k - 1]);
                }
            }
            assert forall|k: int, l: int|
                #![trigger origin[k], origin[l]]
                0 <= k < l < sorted.len() implies {
                &&& origin[k] != origin[l]
                &&& lex_le(keys@[k]@, keys@[l]@)
                &&& lex_le(keys@[l]@, keys@[k]@) ==> origin[k] < origin[l]
            } by {
                let ok = if k < place { k } else { k - 1 };
                let ol = if l < place { l } else { l - 1 };
                if k != place {
                    assert(origin[k] == old_origin[ok] && keys@[k] == old_keys[ok]);
                }
                if l != place {
                    assert(origin[l] == old_origin[ol] && keys@[l] == old_keys[ol]);
                }
                if k != place && l != place {
                    assert(old_origin[ok] != old_origin[ol]);
                } else if l == place {
                    lemma_lex_le_total(key@, old_keys[k]@);
                } else {
                    if ol != place {
                        assert(old_origin[place as int] != old_origin[ol]);
                        lemma_lex_le_transitive(key@, old_keys[place as int]@, old_keys[ol]@);
                    }
                }
            }
        }
    }
    proof {
        let output = views(sorted@);
        assert forall|k: int| 0 <= k < output.len() implies 0 <= #[trigger] origin[k] < input.len()
            && output[k] == input[origin[k]] by {
            assert(output[k] == sorted@[k]@);
        }
        assert forall|k: int, l: int|
            #![trigger origin[k], origin[l]]
            0 <= k < l < output.len() implies {
            &&& origin[k] != origin[l]
            &&& by_name()(output[k], output[l])
            &&& by_name()(output[l], output[k]) ==> origin[k] < origin[l]
        } by {
            assert(keys@[l]@ == lowercase(sorted@[l].name@));
        }
        assert(is_stable_sort(input, output, origin, by_name()));
    }
    sorted
}

/// The entries of `catalog` that match the folded query `query`, best
/// first, each with its score.
pub fn ranked_matches(catalog: &Vec<AppEntry>, query: &Vec<char>) -> (ranked: Vec<AppEntry>)
    ensures
        stably_sorted(matches(views(catalog@), query@), views(ranked@), by_score()),
{
    let mut found: Vec<AppEntry> = Vec::new();
    let mut i: usize = 0;
    while i < catalog.len()
        invariant
            i <= catalog.len(),
            views(found@) == matches(views(catalog@).take(i as int), query@),
        decreases catalog.len() - i,
    {
        let entry = &catalog[i];
        let folded = to_lowercase(entry.name.as_str());
        let name = chars_of(folded.as_str());
        let points = fuzzy_score(query, &name, entry.name.as_str().len());
        proof {
            let taken = views(catalog@).take(i as int + 1);
            assert(taken.drop_last() == views(catalog@).take(i as int));
        }
        if points > 0 {
            let ghost before = views(found@);
            let hit = entry.with_score(points);
            found.push(hit);
        }
        i = i + 1;
    }
    assert(views(catalog@).take(i as int) == views(catalog@));
    sort_by_score(found)
}

/// A descriptor file as it was read.
#[derive(Debug, Clone)]
pub struct DescriptorFile {
    /// Path of the file
    pub path: String,
    /// All of its text
    pub content: String,
}

/// The applications that `files` describe, in the order of the files.
pub open spec fn parsed_all(files: Seq<DescriptorFile>) -> Seq<AppEntryView>
    decreases files.len(),
{
    if files.len() == 0 {
        Seq::empty()
    } else {
        let before = parsed_all(files.drop_last());
        match parsed_entry(files.last().content@, files.last().path@) {
            Some(entry) => before.push(entry),
            None => before,
        }
    }
}

/// Builds the catalog of the applications that `files` describe, ordered by
/// name. A file that describes none is passed over.
pub fn load_catalog(files: &Vec<DescriptorFile>) -> (catalog: Vec<AppEntry>)
    ensures
        stably_sorted(parsed_all(files@), views(catalog@), by_name()),
{
    let mut found: Vec<AppEntry> = Vec::new();
    let mut i: usize = 0;
    while i < files.len()
        invariant
            i <= files.len(),
            views(found@) == parsed_all(files@.take(i as int)),
        decreases files.len() - i,
    {
        let file = &files[i];
        proof {
            assert(files@.take(i as int + 1).drop_last() == files@.take(i as int));
        }
        match parse_desktop_file(file.content.as_str(), file.path.as_str()) {
            Some(entry) => {
                found.push(entry);
            },
            None => {},
        }
        i = i + 1;
    }
    assert(files@.take(i as int) == files@);
    sort_by_name(found)
}

/// A copy of `entries`.
pub fn clone_entries(entries: &Vec<AppEntry>) -> (copy: Vec<AppEntry>)
    ensures
        views(copy@) == views(entries@),
{
    let mut copy: Vec<AppEntry> = Vec::new();
    let mut i: usize = 0;
    while i < entries.len()
        invariant
            i <= entries.len(),
            copy.len() == i,
            forall|k: int| 0 <= k < i ==> copy@[k]@ == entries@[k]@,
        decreases entries.len() - i,
    {
        copy.push(entries[i].with_score(entries[i].score));
        i = i + 1;
    }
    copy
}

} // verus!
