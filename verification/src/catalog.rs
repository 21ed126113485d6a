//! The public speech-to-text model catalog: which entries are transcription
//! models, and the order in which their ids are offered.

use vstd::prelude::*;

use crate::json::{json_as_array, json_as_str, json_get, JsonValue};
use crate::text::{
    chars_of, compare_chars, lemma_chars_lt_asymmetric, to_lowercase, Precedence,
    chars_lt, lemma_chars_lt_irreflexive, lemma_chars_lt_transitive, same_text, trim, trimmed,
    unicode_lowercase,
};

verus! {

/// The entries of a catalog response: the `data` array, when there is one.
pub open spec fn catalog_entries(parsed: JsonValue) -> Option<Seq<JsonValue>> {
    match json_get(parsed, "data"@) {
        Some(data) => json_as_array(data),
        None => None,
    }
}

/// `entry.architecture[key]` is an array that holds the string `modality`.
pub open spec fn lists_modality_spec(entry: JsonValue, key: Seq<char>, modality: Seq<char>) -> bool {
    match json_get(entry, "architecture"@) {
        Some(architecture) => match json_get(architecture, key) {
            Some(list) => match json_as_array(list) {
                Some(items) => exists|i: int|
                    0 <= i < items.len() && json_as_str(#[trigger] items[i]) == Some(modality),
                None => false,
            },
            None => false,
        },
        None => false,
    }
}

/// The id under which a catalog entry is offered: present only for entries
/// that take audio in and give a transcription out, and whose `id` is a
/// string that is not blank once trimmed.
pub open spec fn entry_model_id(entry: JsonValue) -> Option<Seq<char>> {
    if lists_modality_spec(entry, "input_modalities"@, "audio"@) && lists_modality_spec(
        entry,
        "output_modalities"@,
        "transcription"@,
    ) {
        match json_get(entry, "id"@) {
            Some(JsonValue::Str(id)) => if trimmed(id@).len() > 0 {
                Some(trimmed(id@))
            } else {
                None
            },
            _ => None,
        }
    } else {
        None
    }
}

/// Some entry of `entries` is offered under the id `t`.
pub open spec fn offers(entries: Seq<JsonValue>, t: Seq<char>) -> bool {
    exists|j: int| 0 <= j < entries.len() && entry_model_id(#[trigger] entries[j]) == Some(t)
}

/// Some string of `v` has the text `t`.
pub open spec fn holds_text(v: Seq<String>, t: Seq<char>) -> bool {
    exists|i: int| 0 <= i < v.len() && (#[trigger] v[i])@ == t
}

/// An id with the key it is listed under.
pub open spec fn entry_view(e: (String, String)) -> (Seq<char>, Seq<char>) {
    (e.0@, e.1@)
}

/// The ids and keys of `v`, in order.
pub open spec fn entry_views(v: Seq<(String, String)>) -> Seq<(Seq<char>, Seq<char>)> {
    v.map_values(|e: (String, String)| entry_view(e))
}

/// The order of ids listed under sort keys: by key first, and by the ids
/// themselves where the keys agree, each compared code point by code point.
pub open spec fn keyed_before(a: (Seq<char>, Seq<char>), b: (Seq<char>, Seq<char>)) -> bool {
    ||| chars_lt(a.1, b.1)
    ||| a.1 == b.1 && chars_lt(a.0, b.0)
}

/// Every entry of `v` comes strictly before every later one.
pub open spec fn keyed_ordered(v: Seq<(Seq<char>, Seq<char>)>) -> bool {
    forall|i: int, j: int| 0 <= i < j < v.len() ==> keyed_before(#[trigger] v[i], #[trigger] v[j])
}

/// The keyed order is transitive.
pub proof fn lemma_keyed_before_transitive(
    a: (Seq<char>, Seq<char>),
    b: (Seq<char>, Seq<char>),
    c: (Seq<char>, Seq<char>),
)
    requires
        keyed_before(a, b),
        keyed_before(b, c),
    ensures
        keyed_before(a, c),
{
    if chars_lt(a.1, b.1) && chars_lt(b.1, c.1) {
        lemma_chars_lt_transitive(a.1, b.1, c.1);
    } else if chars_lt(a.1, b.1) {
    } else if chars_lt(b.1, c.1) {
    } else {
        lemma_chars_lt_transitive(a.0, b.0, c.0);
    }
}

/// The keyed order is irreflexive.
pub proof fn lemma_keyed_before_irreflexive(a: (Seq<char>, Seq<char>))
    ensures
        !keyed_before(a, a),
{
    lemma_chars_lt_irreflexive(a.1);
    lemma_chars_lt_irreflexive(a.0);
}

/// The order in which model ids are listed: case-insensitively first, and by
/// the ids themselves where their lower-case forms agree.
pub open spec fn model_precedes(a: Seq<char>, b: Seq<char>) -> bool {
    keyed_before((a, unicode_lowercase(a)), (b, unicode_lowercase(b)))
}

/// Every id of `v` comes strictly before every later one.
pub open spec fn strictly_ordered(v: Seq<String>) -> bool {
    forall|i: int, j: int| 0 <= i < j < v.len() ==> model_precedes(#[trigger] v[i]@, #[trigger] v[j]@)
}

/// The listing order is transitive.
pub proof fn lemma_model_precedes_transitive(a: Seq<char>, b: Seq<char>, c: Seq<char>)
    requires
        model_precedes(a, b),
        model_precedes(b, c),
    ensures
        model_precedes(a, c),
{
    lemma_keyed_before_transitive(
        (a, unicode_lowercase(a)),
        (b, unicode_lowercase(b)),
        (c, unicode_lowercase(c)),
    );
}

/// The listing order is irreflexive.
pub proof fn lemma_model_precedes_irreflexive(a: Seq<char>)
    ensures
        !model_precedes(a, a),
{
    lemma_keyed_before_irreflexive((a, unicode_lowercase(a)));
}

/// The texts of `v`, in order.
pub open spec fn texts(v: Seq<String>) -> Seq<Seq<char>> {
    v.map_values(|s: String| s@)
}

/// A listing is fixed by what it lists: two lists in listing order that hold
/// the same ids are the same list. So the model list is determined by the set
/// of ids the catalog offers, whatever order the catalog gave them in.
pub proof fn law_listing_is_canonical(a: Seq<String>, b: Seq<String>)
    requires
        strictly_ordered(a),
        strictly_ordered(b),
        forall|t: Seq<char>| holds_text(a, t) <==> holds_text(b, t),
    ensures
        texts(a) == texts(b),
    decreases a.len() + b.len(),
{
    if a.len() == 0 {
        if b.len() > 0 {
            assert(holds_text(b, b[0]@));
        }
    } else if b.len() == 0 {
        assert(holds_text(a, a[0]@));
    } else {
        assert(holds_text(a, a[0]@));
        assert(holds_text(b, b[0]@));
        let i = choose|i: int| 0 <= i < b.len() && (#[trigger] b[i])@ == a[0]@;
        let j = choose|j: int| 0 <= j < a.len() && (#[trigger] a[j])@ == b[0]@;
        if i > 0 {
            assert(model_precedes(b[0]@, b[i]@));
            if j > 0 {
                assert(model_precedes(a[0]@, a[j]@));
                lemma_model_precedes_transitive(a[0]@, b[0]@, a[0]@);
                lemma_model_precedes_irreflexive(a[0]@);
            } else {
                lemma_model_precedes_irreflexive(a[0]@);
            }
        }
        assert(b[0]@ == a[0]@);
        let a1 = a.drop_first();
        let b1 = b.drop_first();
        assert forall|t: Seq<char>| holds_text(a1, t) <==> holds_text(b1, t) by {
            if holds_text(a1, t) {
                let k = choose|k: int| 0 <= k < a1.len() && (#[trigger] a1[k])@ == t;
                assert(a[k + 1] == a1[k]);
                assert(model_precedes(a[0]@, a[k + 1]@));
                lemma_model_precedes_irreflexive(a[0]@);
                assert(holds_text(b, t));
                let m = choose|m: int| 0 <= m < b.len() && (#[trigger] b[m])@ == t;
                assert(m != 0);
                assert(b1[m - 1] == b[m]);
            }
            if holds_text(b1, t) {
                let k = choose|k: int| 0 <= k < b1.len() && (#[trigger] b1[k])@ == t;
                assert(b[k + 1] == b1[k]);
                assert(model_precedes(b[0]@, b[k + 1]@));
                lemma_model_precedes_irreflexive(b[0]@);
                assert(holds_text(a, t));
                let m = choose|m: int| 0 <= m < a.len() && (#[trigger] a[m])@ == t;
                assert(m != 0);
                assert(a1[m - 1] == a[m]);
            }
        }
        assert forall|x: int, y: int| 0 <= x < y < a1.len() implies model_precedes(
            #[trigger] a1[x]@,
            #[trigger] a1[y]@,
        ) by {
            assert(a1[x] == a[x + 1] && a1[y] == a[y + 1]);
        }
        assert forall|x: int, y: int| 0 <= x < y < b1.len() implies model_precedes(
            #[trigger] b1[x]@,
            #[trigger] b1[y]@,
        ) by {
            assert(b1[x] == b[x + 1] && b1[y] == b[y + 1]);
        }
        law_listing_is_canonical(a1, b1);
        assert(texts(a) =~= seq![a[0]@] + texts(a1));
        assert(texts(b) =~= seq![b[0]@] + texts(b1));
    }
}

/// `list` is the array at `entry.architecture[key]` and has these items.
pub open spec fn modality_items(entry: JsonValue, key: Seq<char>, items: Seq<JsonValue>) -> bool {
    match json_get(entry, "architecture"@) {
        Some(architecture) => match json_get(architecture, key) {
            Some(list) => json_as_array(list) == Some(items),
            None => false,
        },
        None => false,
    }
}

/// A modality list is searched whole: when the array at
/// `entry.architecture[key]` holds the string `modality` at any position, the
/// entry lists it; and an entry lists a modality only when that array holds
/// it at some position.
pub proof fn law_modality_found_at_any_position(
    entry: JsonValue,
    key: Seq<char>,
    modality: Seq<char>,
    items: Seq<JsonValue>,
    i: int,
)
    ensures
        modality_items(entry, key, items) && 0 <= i < items.len() && json_as_str(items[i]) == Some(
            modality,
        ) ==> lists_modality_spec(entry, key, modality),
        lists_modality_spec(entry, key, modality) ==> exists|all: Seq<JsonValue>, k: int|
            modality_items(entry, key, all) && 0 <= k < all.len() && json_as_str(#[trigger] all[k])
                == Some(modality),
{
    if modality_items(entry, key, items) && 0 <= i < items.len() && json_as_str(items[i]) == Some(
        modality,
    ) {
        assert(json_as_str(items[i]) == Some(modality));
    }
    if lists_modality_spec(entry, key, modality) {
        let architecture = json_get(entry, "architecture"@).unwrap();
        let list = json_get(architecture, key).unwrap();
        let all = json_as_array(list).unwrap();
        let k = choose|k: int| 0 <= k < all.len() && json_as_str(#[trigger] all[k]) == Some(modality);
        assert(modality_items(entry, key, all) && json_as_str(all[k]) == Some(modality));
    }
}

/// Every catalog entry whose input modalities hold "audio" and whose output
/// modalities hold "transcription", each at any position, and whose `id` is
/// a string that is not blank, is offered under its trimmed id (so
/// `parse_models` lists it).
pub proof fn law_speech_entries_are_offered(
    entries: Seq<JsonValue>,
    j: int,
    inputs: Seq<JsonValue>,
    a: int,
    outputs: Seq<JsonValue>,
    b: int,
    id: String,
)
    requires
        0 <= j < entries.len(),
        modality_items(entries[j], "input_modalities"@, inputs),
        0 <= a < inputs.len(),
        json_as_str(inputs[a]) == Some("audio"@),
        modality_items(entries[j], "output_modalities"@, outputs),
        0 <= b < outputs.len(),
        json_as_str(outputs[b]) == Some("transcription"@),
        json_get(entries[j], "id"@) == Some(JsonValue::Str(id)),
        trimmed(id@).len() > 0,
    ensures
        offers(entries, trimmed(id@)),
{
    law_modality_found_at_any_position(entries[j], "input_modalities"@, "audio"@, inputs, a);
    law_modality_found_at_any_position(
        entries[j],
        "output_modalities"@,
        "transcription"@,
        outputs,
        b,
    );
    assert(entry_model_id(entries[j]) == Some(trimmed(id@)));
}

/// Only speech-to-text entries are offered: an entry offered under `t` has
/// "audio" among its input modalities and "transcription" among its output
/// modalities, each at some position, and a string `id` that trims to `t`,
/// which is not blank.
pub proof fn law_offered_entries_are_speech_models(entry: JsonValue, t: Seq<char>)
    requires
        entry_model_id(entry) == Some(t),
    ensures
        t.len() > 0,
        exists|id: String| json_get(entry, "id"@) == Some(JsonValue::Str(id)) && trimmed(id@) == t,
        exists|inputs: Seq<JsonValue>, a: int|
            modality_items(entry, "input_modalities"@, inputs) && 0 <= a < inputs.len()
                && json_as_str(#[trigger] inputs[a]) == Some("audio"@),
        exists|outputs: Seq<JsonValue>, b: int|
            modality_items(entry, "output_modalities"@, outputs) && 0 <= b < outputs.len()
                && json_as_str(#[trigger] outputs[b]) == Some("transcription"@),
{
    law_modality_found_at_any_position(entry, "input_modalities"@, "audio"@, Seq::empty(), 0);
    law_modality_found_at_any_position(
        entry,
        "output_modalities"@,
        "transcription"@,
        Seq::empty(),
        0,
    );
    match json_get(entry, "id"@) {
        Some(JsonValue::Str(id)) => {
            assert(json_get(entry, "id"@) == Some(JsonValue::Str(id)) && trimmed(id@) == t);
        },
        _ => {},
    }
}

/// Whether `entry.architecture[key]` lists `modality`.
pub fn lists_modality(entry: &JsonValue, key: &str, modality: &str) -> (r: bool)
    ensures
        r == lists_modality_spec(*entry, key@, modality@),
{
    let architecture = match entry.get("architecture") {
        Some(a) => a,
        None => return false,
    };
    let list = match architecture.get(key) {
        Some(l) => l,
        None => return false,
    };
    let items = match list.as_array() {
        Some(items) => items,
        None => return false,
    };
    let mut i: usize = 0;
    while i < items.len()
        invariant
            i <= items.len(),
            json_get(*entry, "architecture"@) == Some(*architecture),
            json_get(*architecture, key@) == Some(*list),
            json_as_array(*list) == Some(items@),
            forall|j: int| 0 <= j < i ==> json_as_str(#[trigger] items@[j]) != Some(modality@),
        decreases items.len() - i,
    {
        match items[i].as_str() {
            Some(s) => {
                if same_text(s.as_str(), modality) {
                    proof {
                        assert(json_as_str(items@[i as int]) == Some(modality@));
                    }
                    return true;
                }
            },
            None => {},
        }
        i = i + 1;
    }
    false
}

/// The id under which `entry` is offered, if any.
pub fn entry_id(entry: &JsonValue) -> (r: Option<String>)
    ensures
        match r {
            Some(id) => entry_model_id(*entry) == Some(id@),
            None => entry_model_id(*entry) is None,
        },
{
    if !lists_modality(entry, "input_modalities", "audio") || !lists_modality(
        entry,
        "output_modalities",
        "transcription",
    ) {
        return None;
    }
    match entry.get("id") {
        Some(value) => match value {
            JsonValue::Str(id) => {
                let t = trim(id.as_str());
                if t.as_str().is_empty() {
                    None
                } else {
                    Some(t)
                }
            },
            _ => None,
        },
        None => None,
    }
}


/// An id and its sort key, with their characters at hand.
struct RankedId {
    id: String,
    key: String,
    raw: Vec<char>,
    lower: Vec<char>,
}

impl RankedId {
    spec fn wf(&self) -> bool {
        &&& self.raw@ == self.id@
        &&& self.lower@ == self.key@
    }

    spec fn view_pair(&self) -> (Seq<char>, Seq<char>) {
        (self.id@, self.key@)
    }

    fn new(id: String, key: String) -> (r: RankedId)
        ensures
            r.wf(),
            r.id@ == id@,
            r.key@ == key@,
    {
        let raw = chars_of(id.as_str());
        let lower = chars_of(key.as_str());
        RankedId { id, key, raw, lower }
    }
}

/// Where `a` stands relative to `b` in the keyed order.
fn rank(a: &RankedId, b: &RankedId) -> (r: Precedence)
    requires
        a.wf(),
        b.wf(),
    ensures
        r is Before <==> keyed_before(a.view_pair(), b.view_pair()),
        r is Same <==> a.view_pair() == b.view_pair(),
        r is After <==> keyed_before(b.view_pair(), a.view_pair()),
{
    proof {
        lemma_keyed_before_irreflexive(a.view_pair());
    }
    match compare_chars(&a.lower, &b.lower) {
        Precedence::Before => {
            proof {
                lemma_chars_lt_asymmetric(a.lower@, b.lower@);
            }
            Precedence::Before
        },
        Precedence::After => {
            proof {
                lemma_chars_lt_asymmetric(b.lower@, a.lower@);
            }
            Precedence::After
        },
        Precedence::Same => {
            proof {
                lemma_chars_lt_irreflexive(a.lower@);
            }
            compare_chars(&a.raw, &b.raw)
        },
    }
}

spec fn ranked_views(v: Seq<RankedId>) -> Seq<(Seq<char>, Seq<char>)> {
    v.map_values(|r: RankedId| r.view_pair())
}

spec fn ranked_wf(v: Seq<RankedId>) -> bool {
    forall|i: int| 0 <= i < v.len() ==> (#[trigger] v[i]).wf()
}

/// Puts `x` into the ordered list `sorted`, unless it is listed already.
fn insert_ranked(sorted: &mut Vec<RankedId>, x: RankedId)
    requires
        ranked_wf(old(sorted)@),
        keyed_ordered(ranked_views(old(sorted)@)),
        x.wf(),
    ensures
        ranked_wf(final(sorted)@),
        keyed_ordered(ranked_views(final(sorted)@)),
        forall|e: (Seq<char>, Seq<char>)|
            ranked_views(final(sorted)@).contains(e) <==> (ranked_views(old(sorted)@).contains(e)
                || e == x.view_pair()),
{
    let ghost before = ranked_views(sorted@);
    let ghost xv = x.view_pair();
    let mut p: usize = 0;
    while p < sorted.len() && matches!(rank(&sorted[p], &x), Precedence::Before)
        invariant
            p <= sorted.len(),
            ranked_wf(sorted@),
            x.wf(),
            xv == x.view_pair(),
            before == ranked_views(sorted@),
            forall|i: int| 0 <= i < p ==> keyed_before(#[trigger] before[i], xv),
        decreases sorted.len() - p,
    {
        p = p + 1;
    }
    if p < sorted.len() {
        if matches!(rank(&sorted[p], &x), Precedence::Same) {
            proof {
                assert(before[p as int] == xv);
                assert forall|e: (Seq<char>, Seq<char>)| #[trigger]
                    before.contains(e) <==> (before.contains(e) || e == xv) by {
                    if e == xv {
                        assert(before[p as int] == e);
                    }
                }
            }
            return;
        }
    }
    let ghost old_v = sorted@;
    sorted.insert(p, x);
    proof {
        let v = sorted@;
        let views = ranked_views(v);
        assert(v =~= old_v.insert(p as int, v[p as int]));
        assert(views =~= before.insert(p as int, xv));
        assert forall|i: int| 0 <= i < v.len() implies (#[trigger] v[i]).wf() by {
            if i > p {
                assert(v[i] == old_v[i - 1]);
            }
        }
        assert forall|i: int, j: int| 0 <= i < j < views.len() implies keyed_before(
            #[trigger] views[i],
            #[trigger] views[j],
        ) by {
            if j < p {
                assert(views[i] == before[i] && views[j] == before[j]);
            } else if j == p {
                assert(views[i] == before[i]);
            } else if i == p {
                assert(views[j] == before[j - 1]);
                if j - 1 > p {
                    lemma_keyed_before_transitive(xv, before[p as int], before[j - 1]);
                }
            } else if i < p {
                assert(views[i] == before[i] && views[j] == before[j - 1]);
            } else {
                assert(views[i] == before[i - 1] && views[j] == before[j - 1]);
            }
        }
        assert forall|e: (Seq<char>, Seq<char>)| #[trigger]
            views.contains(e) <==> (before.contains(e) || e == xv) by {
            if views.contains(e) {
                let i = choose|i: int| 0 <= i < views.len() && views[i] == e;
                if i < p {
                    assert(before[i] == views[i]);
                } else if i > p {
                    assert(before[i - 1] == views[i]);
                }
            }
            if before.contains(e) {
                let i = choose|i: int| 0 <= i < before.len() && before[i] == e;
                if i < p {
                    assert(views[i] == before[i]);
                } else {
                    assert(views[i + 1] == before[i]);
                }
            }
            if e == xv {
                assert(views[p as int] == e);
            }
        }
    }
}

/// Lists ids under given sort keys: every distinct (id, key) entry once, in
/// the keyed order (by key, then by id).
pub fn order_by_keys(entries: Vec<(String, String)>) -> (r: Vec<(String, String)>)
    ensures
        keyed_ordered(entry_views(r@)),
        forall|e: (Seq<char>, Seq<char>)|
            entry_views(r@).contains(e) <==> entry_views(entries@).contains(e),
{
    let ghost all = entry_views(entries@);
    let mut sorted: Vec<RankedId> = Vec::new();
    let mut k: usize = 0;
    while k < entries.len()
        invariant
            k <= entries.len(),
            all == entry_views(entries@),
            ranked_wf(sorted@),
            keyed_ordered(ranked_views(sorted@)),
            forall|e: (Seq<char>, Seq<char>)|
                ranked_views(sorted@).contains(e) <==> all.take(k as int).contains(e),
        decreases entries.len() - k,
    {
        let x = RankedId::new(entries[k].0.clone(), entries[k].1.clone());
        proof {
            assert(x.view_pair() == all[k as int]);
        }
        insert_ranked(&mut sorted, x);
        proof {
            let next = all.take(k + 1);
            assert(next =~= all.take(k as int).push(all[k as int]));
            assert forall|e: (Seq<char>, Seq<char>)| next.contains(e) <==> (all.take(
                k as int,
            ).contains(e) || e == all[k as int]) by {
                if next.contains(e) {
                    let i = choose|i: int| 0 <= i < next.len() && next[i] == e;
                    if i < k {
                        assert(all.take(k as int)[i] == next[i]);
                    }
                }
                if all.take(k as int).contains(e) {
                    let i = choose|i: int| 0 <= i < k && all.take(k as int)[i] == e;
                    assert(next[i] == all.take(k as int)[i]);
                }
                if e == all[k as int] {
                    assert(next[k as int] == e);
                }
            }
        }
        k = k + 1;
    }
    proof {
        assert(all.take(all.len() as int) =~= all);
    }
    let mut r: Vec<(String, String)> = Vec::new();
    let mut i: usize = 0;
    while i < sorted.len()
        invariant
            i <= sorted.len(),
            r@.len() == i,
            forall|j: int| 0 <= j < i ==> entry_view(#[trigger] r@[j]) == ranked_views(sorted@)[j],
        decreases sorted.len() - i,
    {
        r.push((sorted[i].id.clone(), sorted[i].key.clone()));
        i = i + 1;
    }
    proof {
        assert(entry_views(r@) =~= ranked_views(sorted@));
    }
    r
}

/// `ids` in listing order, each distinct id once.
pub fn order_model_ids(ids: Vec<String>) -> (r: Vec<String>)
    ensures
        strictly_ordered(r@),
        forall|t: Seq<char>| holds_text(r@, t) <==> holds_text(ids@, t),
{
    let mut entries: Vec<(String, String)> = Vec::new();
    let mut k: usize = 0;
    while k < ids.len()
        invariant
            k <= ids.len(),
            entries@.len() == k,
            forall|i: int|
                0 <= i < k ==> entry_view(#[trigger] entries@[i]) == (
                    ids@[i]@,
                    unicode_lowercase(ids@[i]@),
                ),
        decreases ids.len() - k,
    {
        let key = to_lowercase(ids[k].as_str());
        entries.push((ids[k].clone(), key));
        k = k + 1;
    }
    let ghost ev = entry_views(entries@);
    let sorted = order_by_keys(entries);
    let ghost sv = entry_views(sorted@);
    proof {
        assert forall|i: int| 0 <= i < sv.len() implies (#[trigger] sv[i]).1 == unicode_lowercase(
            sv[i].0,
        ) by {
            assert(sv.contains(sv[i]));
            assert(ev.contains(sv[i]));
            let j = choose|j: int| 0 <= j < ev.len() && ev[j] == sv[i];
            assert(entry_view(entries@[j]) == ev[j]);
        }
    }
    let mut r: Vec<String> = Vec::new();
    let mut i: usize = 0;
    while i < sorted.len()
        invariant
            i <= sorted.len(),
            sv == entry_views(sorted@),
            r@.len() == i,
            forall|j: int| 0 <= j < i ==> (#[trigger] r@[j])@ == sv[j].0,
        decreases sorted.len() - i,
    {
        r.push(sorted[i].0.clone());
        i = i + 1;
    }
    proof {
        assert forall|a: int, b: int| 0 <= a < b < r@.len() implies model_precedes(
            #[trigger] r@[a]@,
            #[trigger] r@[b]@,
        ) by {
            assert(keyed_before(sv[a], sv[b]));
            assert(sv[a].1 == unicode_lowercase(sv[a].0));
            assert(sv[b].1 == unicode_lowercase(sv[b].0));
        }
        assert forall|t: Seq<char>| holds_text(r@, t) <==> holds_text(ids@, t) by {
            if holds_text(r@, t) {
                let a = choose|a: int| 0 <= a < r@.len() && (#[trigger] r@[a])@ == t;
                assert(sv.contains(sv[a]));
                assert(ev.contains(sv[a]));
                let j = choose|j: int| 0 <= j < ev.len() && ev[j] == sv[a];
                assert(entry_view(entries@[j]) == ev[j]);
                assert(ids@[j]@ == t);
            }
            if holds_text(ids@, t) {
                let j = choose|j: int| 0 <= j < ids@.len() && (#[trigger] ids@[j])@ == t;
                assert(entry_view(entries@[j]) == ev[j]);
                assert(ev.contains(ev[j]));
                assert(sv.contains(ev[j]));
                let a = choose|a: int| 0 <= a < sv.len() && sv[a] == ev[j];
                assert(r@[a]@ == t);
            }
        }
    }
    r
}

/// The ids of every speech-to-text model in a parsed catalog response: the
/// entries that take audio in and give a transcription out, trimmed, without
/// blanks and duplicates, in listing order. A response without a `data`
/// array is an error; an empty one is a valid answer.
pub fn parse_models(parsed: &JsonValue) -> (r: Result<Vec<String>, String>)
    ensures
        match r {
            Ok(ids) => {
                &&& catalog_entries(*parsed) is Some
                &&& strictly_ordered(ids@)
                &&& forall|t: Seq<char>|
                    holds_text(ids@, t) <==> offers(catalog_entries(*parsed).unwrap(), t)
            },
            Err(e) => {
                &&& catalog_entries(*parsed) is None
                &&& e@ == "OpenRouter model list response has no data array"@
            },
        },
{
    let entries = match parsed.get("data") {
        Some(data) => match data.as_array() {
            Some(entries) => entries,
            None => {
                return Err(String::from_str("OpenRouter model list response has no data array"));
            },
        },
        None => {
            return Err(String::from_str("OpenRouter model list response has no data array"));
        },
    };
    let ghost all = entries@;
    let mut ids: Vec<String> = Vec::new();
    let mut k: usize = 0;
    while k < entries.len()
        invariant
            k <= entries.len(),
            all == entries@,
            forall|t: Seq<char>| holds_text(ids@, t) <==> offers(all.take(k as int), t),
        decreases entries.len() - k,
    {
        let ghost prev = ids@;
        let found = entry_id(&entries[k]);
        let ghost g: Option<Seq<char>> = match &found {
            Some(id) => Some(id@),
            None => None,
        };
        match found {
            Some(id) => {
                ids.push(id);
            },
            None => {},
        }
        proof {
            assert(g == entry_model_id(all[k as int]));
            assert(forall|i: int| 0 <= i < prev.len() ==> ids@[i] == prev[i]);
            assert(g is None ==> ids@ == prev);
            assert(g is Some ==> ids@.len() == prev.len() + 1 && ids@[prev.len() as int]@
                == g.unwrap());
            let next = all.take(k + 1);
            assert forall|t: Seq<char>| holds_text(ids@, t) <==> offers(next, t) by {
                if holds_text(ids@, t) {
                    let i = choose|i: int| 0 <= i < ids@.len() && (#[trigger] ids@[i])@ == t;
                    if i < prev.len() {
                        assert(prev[i] == ids@[i]);
                        assert(holds_text(prev, t));
                        let j = choose|j: int|
                            0 <= j < k && entry_model_id(#[trigger] all.take(k as int)[j]) == Some(
                                t,
                            );
                        assert(next[j] == all.take(k as int)[j]);
                    } else {
                        assert(next[k as int] == all[k as int]);
                        assert(entry_model_id(next[k as int]) == Some(t));
                    }
                }
                if offers(next, t) {
                    let j = choose|j: int|
                        0 <= j < next.len() && entry_model_id(#[trigger] next[j]) == Some(t);
                    if j < k {
                        assert(all.take(k as int)[j] == next[j]);
                        assert(offers(all.take(k as int), t));
                        assert(holds_text(prev, t));
                        let i = choose|i: int| 0 <= i < prev.len() && (#[trigger] prev[i])@ == t;
                        assert(ids@[i] == prev[i]);
                    } else {
                        assert(next[j] == all[k as int]);
                        assert(ids@[prev.len() as int]@ == t);
                    }
                }
            }
        }
        k = k + 1;
    }
    proof {
        assert(all.take(all.len() as int) =~= all);
    }
    Ok(order_model_ids(ids))
}

/// The model list carried by a catalog response body, given its parsed JSON
/// (`None` when the body was not JSON).
pub fn models_from_response(parsed: Option<&JsonValue>) -> (r: Result<Vec<String>, String>)
    ensures
        match parsed {
            None => (r matches Err(e) && e@ == "OpenRouter returned a malformed model list"@),
            Some(v) => match r {
                Ok(ids) => {
                    &&& catalog_entries(*v) is Some
                    &&& strictly_ordered(ids@)
                    &&& forall|t: Seq<char>|
                        holds_text(ids@, t) <==> offers(catalog_entries(*v).unwrap(), t)
                },
                Err(e) => {
                    &&& catalog_entries(*v) is None
                    &&& e@ == "OpenRouter model list response has no data array"@
                },
            },
        },
{
    match parsed {
        Some(v) => parse_models(v),
        None => Err(String::from_str("OpenRouter returned a malformed model list")),
    }
}

} // verus!
