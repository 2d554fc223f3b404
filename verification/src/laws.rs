//! The provider's laws, stated over the specification functions that the
//! executable contracts are written in and proved once for all inputs.

use vstd::prelude::*;

use crate::error::Error;
use crate::flightradar::spec_ac_map;
use crate::flightradar::spec_clean_field;
use crate::flightradar::spec_is_ground;
use crate::flightradar::spec_normalize;
use crate::flightradar::spec_response;
use crate::json::json_field;
use crate::json::json_string;
use crate::text::keeps_char;
use crate::text::lemma_strip_chars_clean;
use crate::util::AircraftView;

verus! {

/// A key is in the snapshot of a list exactly when some element
/// normalizes to a record with that hex.
pub proof fn lemma_snapshot_dom(elems: Seq<serde_json::Value>, k: Seq<char>)
    ensures
        spec_ac_map(elems).contains_key(k) <==> (exists|i: int|
            0 <= i < elems.len() && spec_normalize(#[trigger] elems[i]).hex == k),
    decreases elems.len(),
{
    if elems.len() > 0 {
        lemma_snapshot_dom(elems.drop_last(), k);
        if spec_normalize(elems.last()).hex == k {
            assert(spec_normalize(elems[elems.len() - 1]).hex == k);
        } else {
            if spec_ac_map(elems).contains_key(k) {
                let i = choose|i: int|
                    0 <= i < elems.drop_last().len() && spec_normalize(
                        #[trigger] elems.drop_last()[i],
                    ).hex == k;
                assert(spec_normalize(elems[i]).hex == k);
            }
            if exists|i: int| 0 <= i < elems.len() && spec_normalize(#[trigger] elems[i]).hex
                == k {
                let i = choose|i: int|
                    0 <= i < elems.len() && spec_normalize(#[trigger] elems[i]).hex == k;
                assert(spec_normalize(elems.drop_last()[i]).hex == k);
            }
        }
    }
}

/// The snapshot of a list is a finite map.
pub proof fn lemma_snapshot_finite(elems: Seq<serde_json::Value>)
    ensures
        spec_ac_map(elems).dom().finite(),
    decreases elems.len(),
{
    if elems.len() > 0 {
        lemma_snapshot_finite(elems.drop_last());
    }
}

/// Law: every element yields exactly one entry, keyed by its own hex; with
/// pairwise-distinct hex values the snapshot has one entry per element.
pub proof fn lemma_snapshot_size(elems: Seq<serde_json::Value>)
    requires
        forall|i: int, j: int|
            0 <= i < j < elems.len() ==> spec_normalize(#[trigger] elems[i]).hex != spec_normalize(
                #[trigger] elems[j],
            ).hex,
    ensures
        spec_ac_map(elems).len() == elems.len(),
        forall|i: int|
            0 <= i < elems.len() ==> spec_ac_map(elems).contains_key(
                spec_normalize(#[trigger] elems[i]).hex,
            ),
    decreases elems.len(),
{
    assert forall|i: int| 0 <= i < elems.len() implies spec_ac_map(elems).contains_key(
        spec_normalize(#[trigger] elems[i]).hex,
    ) by {
        lemma_snapshot_dom(elems, spec_normalize(elems[i]).hex);
    }
    if elems.len() > 0 {
        let prefix = elems.drop_last();
        assert(forall|i: int, j: int|
            0 <= i < j < prefix.len() ==> spec_normalize(#[trigger] prefix[i]).hex
                != spec_normalize(#[trigger] prefix[j]).hex) by {
            assert(forall|i: int| 0 <= i < prefix.len() ==> #[trigger] prefix[i] == elems[i]);
        }
        lemma_snapshot_size(prefix);
        lemma_snapshot_dom(prefix, spec_normalize(elems.last()).hex);
        assert(forall|i: int|
            0 <= i < prefix.len() ==> spec_normalize(#[trigger] prefix[i]).hex != spec_normalize(
                elems.last(),
            ).hex) by {
            assert(forall|i: int| 0 <= i < prefix.len() ==> #[trigger] prefix[i] == elems[i]);
            assert(elems.last() == elems[elems.len() - 1]);
        }
        assert(!spec_ac_map(prefix).contains_key(spec_normalize(elems.last()).hex));
        lemma_snapshot_finite(prefix);
        assert(spec_ac_map(elems).dom() =~= spec_ac_map(prefix).dom().insert(
            spec_normalize(elems.last()).hex,
        ));
        vstd::set::axiom_set_insert_len(
            spec_ac_map(prefix).dom(),
            spec_normalize(elems.last()).hex,
        );
    }
}

/// Law: every snapshot entry sits under its own record's hex field; the
/// key and the field come from one extraction.
pub proof fn lemma_key_matches_hex(elems: Seq<serde_json::Value>, k: Seq<char>)
    requires
        spec_ac_map(elems).contains_key(k),
    ensures
        spec_ac_map(elems)[k].hex == k,
    decreases elems.len(),
{
    if elems.len() > 0 && spec_normalize(elems.last()).hex != k {
        lemma_key_matches_hex(elems.drop_last(), k);
    }
}

/// Law: the ground sentinel in the raw altitude field forces the record
/// onto the ground at altitude zero, whatever else the element holds.
pub proof fn lemma_ground_record(v: serde_json::Value)
    requires
        json_field(v, "alt_baro"@) matches Some(f) && json_string(f) == Some("ground"@),
    ensures
        spec_normalize(v).is_on_ground,
        spec_normalize(v).altitude == 0,
{
    assert(spec_is_ground(v));
}

/// Law: an element without a model field normalizes to the empty string,
/// not to a null or placeholder token.
pub proof fn lemma_missing_model(v: serde_json::Value)
    requires
        json_field(v, "t"@) is None,
    ensures
        spec_normalize(v).model == Seq::<char>::empty(),
{
}

/// Law: no normalized string field holds a space or a quote; whatever the
/// raw value carried of them was removed.
pub proof fn lemma_record_fields_clean(v: serde_json::Value, key: Seq<char>)
    ensures
        forall|i: int|
            0 <= i < spec_clean_field(v, key).len() ==> #[trigger] keeps_char(
                spec_clean_field(v, key)[i],
            ),
{
    match json_field(v, key) {
        Option::Some(f) => match json_string(f) {
            Option::Some(s) => lemma_strip_chars_clean(s),
            Option::None => {},
        },
        Option::None => {},
    }
}

/// Law: a snapshot is a function of the response alone; two successful
/// normalizations of one unchanged status and body are element-wise equal.
pub proof fn lemma_snapshot_deterministic(
    status: u16,
    body: Seq<char>,
    m1: Map<Seq<char>, AircraftView>,
    m2: Map<Seq<char>, AircraftView>,
)
    requires
        spec_response(status, body) == Result::<Map<Seq<char>, AircraftView>, Error>::Ok(m1),
        spec_response(status, body) == Result::<Map<Seq<char>, AircraftView>, Error>::Ok(m2),
    ensures
        m1 == m2,
        forall|k: Seq<char>| m1.contains_key(k) <==> m2.contains_key(k),
        forall|k: Seq<char>| #[trigger] m1.contains_key(k) ==> m1[k] == m2[k],
{
}

} // verus!
