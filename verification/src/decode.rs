//! Decoding a raw crypto response body into the wire-shaped
//! [`CryptoHelper`]. The JSON tree comes from the trusted parser boundary
//! as plain values; everything read out of it — which keys are sentinels,
//! which form the meta-data block, which hold the timestamped records —
//! is decided here, in verified code, and specified exactly by the spec
//! functions below over the tree the body parses to.

use vstd::prelude::*;

use crate::crypto::{
    entry_list_view, opt_text_view, CryptoHelper, CryptoHelperView, EntryHelper, EntryHelperView,
    MetaData, MetaDataView,
};
use crate::error::Error;
use crate::json::{json_tree_of, json_view, lemma_object_view, obj_view, parse_json_tree, Json,
    JsonView};
use crate::text::str_eq;

verus! {

/// The value under the first member of `es` whose key is `key`.
pub open spec fn spec_lookup(es: Seq<(Seq<char>, JsonView)>, key: Seq<char>) -> Option<JsonView>
    decreases es.len(),
{
    if es.len() == 0 {
        None
    } else if es[0].0 == key {
        Some(es[0].1)
    } else {
        spec_lookup(es.drop_first(), key)
    }
}

/// The string under `key`, or `None` when the key is absent or its value
/// is not a string.
pub open spec fn text_at(es: Seq<(Seq<char>, JsonView)>, key: Seq<char>) -> Option<Seq<char>> {
    match spec_lookup(es, key) {
        Some(JsonView::Text(s)) => Some(s),
        _ => None,
    }
}

/// Whether `key` is absent or holds a string.
pub open spec fn absent_or_text(es: Seq<(Seq<char>, JsonView)>, key: Seq<char>) -> bool {
    match spec_lookup(es, key) {
        None => true,
        Some(v) => v is Text,
    }
}

/// Whether a node is a well-formed meta-data block: an object whose seven
/// labeled fields are all strings.
pub open spec fn meta_node_ok(v: JsonView) -> bool {
    match v {
        JsonView::Object(mes) => {
            &&& text_at(mes, "1. Information"@) is Some
            &&& text_at(mes, "2. Digital Currency Code"@) is Some
            &&& text_at(mes, "3. Digital Currency Name"@) is Some
            &&& text_at(mes, "4. Market Code"@) is Some
            &&& text_at(mes, "5. Market Name"@) is Some
            &&& text_at(mes, "6. Last Refreshed"@) is Some
            &&& text_at(mes, "7. Time Zone"@) is Some
        },
        _ => false,
    }
}

/// The meta-data block read from a well-formed meta-data object.
pub open spec fn spec_meta(mes: Seq<(Seq<char>, JsonView)>) -> MetaDataView {
    MetaDataView {
        information: text_at(mes, "1. Information"@)->0,
        digital_code: text_at(mes, "2. Digital Currency Code"@)->0,
        digital_name: text_at(mes, "3. Digital Currency Name"@)->0,
        market_code: text_at(mes, "4. Market Code"@)->0,
        market_name: text_at(mes, "5. Market Name"@)->0,
        last_refreshed: text_at(mes, "6. Last Refreshed"@)->0,
        time_zone: text_at(mes, "7. Time Zone"@)->0,
    }
}

/// Whether `k` is one of the six labeled per-record fields.
pub open spec fn spec_is_labeled(k: Seq<char>) -> bool {
    ||| k == "1b. open (USD)"@
    ||| k == "2b. high (USD)"@
    ||| k == "3b. low (USD)"@
    ||| k == "4b. close (USD)"@
    ||| k == "5. volume"@
    ||| k == "6. market cap (USD)"@
}

/// Whether a node is a well-formed record: an object whose six labeled
/// fields are strings and whose every other member is a string too.
pub open spec fn record_ok(v: JsonView) -> bool {
    match v {
        JsonView::Object(res) => {
            &&& text_at(res, "1b. open (USD)"@) is Some
            &&& text_at(res, "2b. high (USD)"@) is Some
            &&& text_at(res, "3b. low (USD)"@) is Some
            &&& text_at(res, "4b. close (USD)"@) is Some
            &&& text_at(res, "5. volume"@) is Some
            &&& text_at(res, "6. market cap (USD)"@) is Some
            &&& forall|m: int|
                0 <= m < res.len() ==> spec_is_labeled((#[trigger] res[m]).0) || res[m].1 is Text
        },
        _ => false,
    }
}

/// The raw market-currency pairs of a record: every string member that is
/// not one of the six labeled fields, in order.
pub open spec fn spec_market_data(res: Seq<(Seq<char>, JsonView)>) -> Seq<(Seq<char>, Seq<char>)>
    decreases res.len(),
{
    if res.len() == 0 {
        Seq::empty()
    } else {
        let prev = spec_market_data(res.drop_last());
        if spec_is_labeled(res.last().0) {
            prev
        } else {
            match res.last().1 {
                JsonView::Text(s) => prev.push((res.last().0, s)),
                _ => prev,
            }
        }
    }
}

/// The wire record read from a well-formed record object.
pub open spec fn spec_record(v: JsonView) -> EntryHelperView {
    let res = v->Object_0;
    EntryHelperView {
        open_usd: text_at(res, "1b. open (USD)"@)->0,
        high_usd: text_at(res, "2b. high (USD)"@)->0,
        low_usd: text_at(res, "3b. low (USD)"@)->0,
        close_usd: text_at(res, "4b. close (USD)"@)->0,
        volume: text_at(res, "5. volume"@)->0,
        market_cap: text_at(res, "6. market cap (USD)"@)->0,
        market_data: spec_market_data(res),
    }
}

/// Whether `k` is one of the four keys of the shared envelope.
pub open spec fn spec_reserved(k: Seq<char>) -> bool {
    ||| k == "Information"@
    ||| k == "Error Message"@
    ||| k == "Note"@
    ||| k == "Meta Data"@
}

/// Whether a node is a well-formed time-series section: an object whose
/// every member is a well-formed record.
pub open spec fn section_ok(v: JsonView) -> bool {
    match v {
        JsonView::Object(res) => forall|m: int|
            0 <= m < res.len() ==> record_ok((#[trigger] res[m]).1),
        _ => false,
    }
}

/// The timestamped records of one well-formed section, in order.
pub open spec fn spec_records(v: JsonView) -> Seq<(Seq<char>, EntryHelperView)> {
    let res = v->Object_0;
    Seq::new(res.len(), |i: int| (res[i].0, spec_record(res[i].1)))
}

/// The flattened records of every non-reserved key of the body, in order,
/// or `None` when the body has no time-series section at all.
pub open spec fn spec_series(es: Seq<(Seq<char>, JsonView)>) -> Option<
    Seq<(Seq<char>, EntryHelperView)>,
>
    decreases es.len(),
{
    if es.len() == 0 {
        None
    } else {
        let prev = spec_series(es.drop_last());
        if spec_reserved(es.last().0) {
            prev
        } else {
            let recs = spec_records(es.last().1);
            match prev {
                None => Some(recs),
                Some(l) => Some(l + recs),
            }
        }
    }
}

/// Whether a parsed body is a well-formed crypto response: an object whose
/// sentinel keys, if present, hold strings, whose meta-data key, if
/// present, holds a well-formed block, and whose every other key holds a
/// well-formed time-series section.
pub open spec fn doc_ok(t: JsonView) -> bool {
    match t {
        JsonView::Object(es) => {
            &&& absent_or_text(es, "Information"@)
            &&& absent_or_text(es, "Error Message"@)
            &&& absent_or_text(es, "Note"@)
            &&& match spec_lookup(es, "Meta Data"@) {
                None => true,
                Some(mv) => meta_node_ok(mv),
            }
            &&& forall|j: int|
                0 <= j < es.len() ==> spec_reserved((#[trigger] es[j]).0) || section_ok(es[j].1)
        },
        _ => false,
    }
}

/// The helper a well-formed body decodes to.
pub open spec fn spec_doc(t: JsonView) -> CryptoHelperView {
    let es = t->Object_0;
    CryptoHelperView {
        information: text_at(es, "Information"@),
        error_message: text_at(es, "Error Message"@),
        note: text_at(es, "Note"@),
        meta_data: match spec_lookup(es, "Meta Data"@) {
            Some(mv) => Some(spec_meta(mv->Object_0)),
            None => None,
        },
        entry: spec_series(es),
    }
}

/// The value under the first member whose key equals `key`.
fn field_of<'a>(entries: &'a Vec<(String, Json)>, key: &str) -> (r: Option<&'a Json>)
    ensures
        match r {
            Some(v) => spec_lookup(obj_view(entries@), key@) == Some(json_view(*v)),
            None => spec_lookup(obj_view(entries@), key@) is None,
        },
{
    let ghost es = obj_view(entries@);
    let mut i: usize = 0;
    proof {
        assert(es.skip(0) =~= es);
    }
    while i < entries.len()
        invariant
            i <= entries@.len(),
            es == obj_view(entries@),
            es.len() == entries@.len(),
            spec_lookup(es, key@) == spec_lookup(es.skip(i as int), key@),
        decreases entries@.len() - i,
    {
        let pair = &entries[i];
        proof {
            assert(es[i as int] == (entries@[i as int].0@, json_view(entries@[i as int].1)));
            assert(es.skip(i as int)[0] == es[i as int]);
        }
        if str_eq(pair.0.as_str(), key) {
            return Some(&pair.1);
        }
        proof {
            assert(es.skip(i as int).drop_first() =~= es.skip(i + 1));
        }
        i += 1;
    }
    proof {
        assert(es.skip(entries@.len() as int).len() == 0);
    }
    None
}

/// The string under the given key, or the decode error when the key is
/// absent or its value is not a string.
fn required_string(entries: &Vec<(String, Json)>, key: &str) -> (r: Result<String, Error>)
    ensures
        r is Ok <==> text_at(obj_view(entries@), key@) is Some,
        r matches Ok(s) ==> text_at(obj_view(entries@), key@) == Some(s@),
        r matches Err(e) ==> e == Error::DecodeJsonToStruct,
{
    match field_of(entries, key) {
        Some(v) => match v {
            Json::Text(s) => Ok(s.clone()),
            Json::Object(_) => Err(Error::DecodeJsonToStruct),
            Json::Other => Err(Error::DecodeJsonToStruct),
        },
        None => Err(Error::DecodeJsonToStruct),
    }
}

/// The string under the given key when the key is present, `None` when it
/// is absent, or the decode error when it is present but not a string.
fn optional_string(entries: &Vec<(String, Json)>, key: &str) -> (r: Result<Option<String>, Error>)
    ensures
        r is Ok <==> absent_or_text(obj_view(entries@), key@),
        r matches Ok(o) ==> opt_text_view(o) == text_at(obj_view(entries@), key@),
        r matches Err(e) ==> e == Error::DecodeJsonToStruct,
{
    match field_of(entries, key) {
        Some(v) => match v {
            Json::Text(s) => Ok(Some(s.clone())),
            Json::Object(_) => Err(Error::DecodeJsonToStruct),
            Json::Other => Err(Error::DecodeJsonToStruct),
        },
        None => Ok(None),
    }
}

/// Decode the meta-data block from its JSON node: the node must be an
/// object whose seven labeled fields are required strings.
fn parse_meta(v: &Json) -> (r: Result<MetaData, Error>)
    ensures
        r is Ok <==> meta_node_ok(json_view(*v)),
        r matches Ok(m) ==> m@ == spec_meta(json_view(*v)->Object_0),
        r matches Err(e) ==> e == Error::DecodeJsonToStruct,
{
    let entries = match v {
        Json::Object(entries) => entries,
        Json::Text(_) => {
            return Err(Error::DecodeJsonToStruct);
        },
        Json::Other => {
            return Err(Error::DecodeJsonToStruct);
        },
    };
    proof {
        lemma_object_view(*entries);
        assert(json_view(*v) == JsonView::Object(obj_view(entries@)));
    }
    let information = match required_string(entries, "1. Information") {
        Ok(s) => s,
        Err(e) => {
            return Err(e);
        },
    };
    let digital_code = match required_string(entries, "2. Digital Currency Code") {
        Ok(s) => s,
        Err(e) => {
            return Err(e);
        },
    };
    let digital_name = match required_string(entries, "3. Digital Currency Name") {
        Ok(s) => s,
        Err(e) => {
            return Err(e);
        },
    };
    let market_code = match required_string(entries, "4. Market Code") {
        Ok(s) => s,
        Err(e) => {
            return Err(e);
        },
    };
    let market_name = match required_string(entries, "5. Market Name") {
        Ok(s) => s,
        Err(e) => {
            return Err(e);
        },
    };
    let last_refreshed = match required_string(entries, "6. Last Refreshed") {
        Ok(s) => s,
        Err(e) => {
            return Err(e);
        },
    };
    let time_zone = match required_string(entries, "7. Time Zone") {
        Ok(s) => s,
        Err(e) => {
            return Err(e);
        },
    };
    Ok(
        MetaData {
            information,
            digital_code,
            digital_name,
            market_code,
            market_name,
            last_refreshed,
            time_zone,
        },
    )
}

/// Whether the key is one of the six labeled per-record fields.
fn is_labeled_record_key(key: &str) -> (r: bool)
    ensures
        r == spec_is_labeled(key@),
{
    str_eq(key, "1b. open (USD)") || str_eq(key, "2b. high (USD)") || str_eq(
        key,
        "3b. low (USD)",
    ) || str_eq(key, "4b. close (USD)") || str_eq(key, "5. volume") || str_eq(
        key,
        "6. market cap (USD)",
    )
}

/// Whether the key is one of the four keys of the shared envelope.
fn is_reserved_key(key: &str) -> (r: bool)
    ensures
        r == spec_reserved(key@),
{
    str_eq(key, "Information") || str_eq(key, "Error Message") || str_eq(key, "Note") || str_eq(
        key,
        "Meta Data",
    )
}

/// Decode one timestamped record from its JSON node: the node must be an
/// object whose six labeled fields are required strings; every remaining
/// member must also hold a string and is collected as raw market-currency
/// data.
fn parse_record(v: &Json) -> (r: Result<EntryHelper, Error>)
    ensures
        r is Ok <==> record_ok(json_view(*v)),
        r matches Ok(eh) ==> eh@ == spec_record(json_view(*v)),
        r matches Err(e) ==> e == Error::DecodeJsonToStruct,
{
    let entries = match v {
        Json::Object(entries) => entries,
        Json::Text(_) => {
            return Err(Error::DecodeJsonToStruct);
        },
        Json::Other => {
            return Err(Error::DecodeJsonToStruct);
        },
    };
    let ghost res = obj_view(entries@);
    proof {
        lemma_object_view(*entries);
        assert(json_view(*v) == JsonView::Object(res));
    }
    let open_usd = match required_string(entries, "1b. open (USD)") {
        Ok(s) => s,
        Err(e) => {
            return Err(e);
        },
    };
    let high_usd = match required_string(entries, "2b. high (USD)") {
        Ok(s) => s,
        Err(e) => {
            return Err(e);
        },
    };
    let low_usd = match required_string(entries, "3b. low (USD)") {
        Ok(s) => s,
        Err(e) => {
            return Err(e);
        },
    };
    let close_usd = match required_string(entries, "4b. close (USD)") {
        Ok(s) => s,
        Err(e) => {
            return Err(e);
        },
    };
    let volume = match required_string(entries, "5. volume") {
        Ok(s) => s,
        Err(e) => {
            return Err(e);
        },
    };
    let market_cap = match required_string(entries, "6. market cap (USD)") {
        Ok(s) => s,
        Err(e) => {
            return Err(e);
        },
    };
    let mut market_data: Vec<(String, String)> = Vec::new();
    let mut i: usize = 0;
    proof {
        assert(res.take(0) =~= Seq::<(Seq<char>, JsonView)>::empty());
        assert(crate::api::spec_param_views(market_data@) =~= spec_market_data(res.take(0)));
    }
    while i < entries.len()
        invariant
            i <= entries@.len(),
            res == obj_view(entries@),
            res.len() == entries@.len(),
            json_view(*v) == JsonView::Object(res),
            forall|m: int|
                0 <= m < i ==> spec_is_labeled((#[trigger] res[m]).0) || res[m].1 is Text,
            crate::api::spec_param_views(market_data@) == spec_market_data(res.take(i as int)),
        decreases entries@.len() - i,
    {
        let pair = &entries[i];
        proof {
            assert(res[i as int] == (entries@[i as int].0@, json_view(entries@[i as int].1)));
            assert(res.take(i + 1).drop_last() =~= res.take(i as int));
            assert(res.take(i + 1).last() == res[i as int]);
        }
        if !is_labeled_record_key(pair.0.as_str()) {
            match &pair.1 {
                Json::Text(s) => {
                    let ghost old_md = market_data@;
                    market_data.push((pair.0.clone(), s.clone()));
                    proof {
                        assert(crate::api::spec_param_views(market_data@) =~= crate::api::spec_param_views(
                            old_md,
                        ).push((pair.0@, s@)));
                    }
                },
                Json::Object(_) => {
                    proof {
                        assert(!(res[i as int].1 is Text));
                        assert(!record_ok(json_view(*v)));
                    }
                    return Err(Error::DecodeJsonToStruct);
                },
                Json::Other => {
                    proof {
                        assert(!(res[i as int].1 is Text));
                        assert(!record_ok(json_view(*v)));
                    }
                    return Err(Error::DecodeJsonToStruct);
                },
            }
        }
        i += 1;
    }
    proof {
        assert(res.take(entries@.len() as int) =~= res);
    }
    let eh = EntryHelper { open_usd, high_usd, low_usd, close_usd, volume, market_cap, market_data };
    proof {
        assert(eh@ == spec_record(json_view(*v)));
    }
    Ok(eh)
}

/// Decode a raw crypto response body into the wire-shaped helper.
///
/// The body must parse as a JSON object. The three sentinel keys and the
/// meta-data key are read into their fields; every other key is taken as
/// a time-series section whose members are timestamped records, all
/// flattened into one list. The result is pinned over the tree the body
/// parses to: exactly the well-formed bodies decode, to exactly the
/// helper [`spec_doc`] describes, and the only error decoding itself can
/// yield is the decode error — no sentinel is judged here; that is
/// [`CryptoHelper::convert`]'s part.
pub fn parse_crypto(body: &str) -> (r: Result<CryptoHelper, Error>)
    ensures
        r matches Err(e) ==> e == Error::DecodeJsonToStruct,
        json_tree_of(body@) is None ==> r is Err,
        json_tree_of(body@) matches Some(t) ==> {
            &&& (r is Ok <==> doc_ok(t))
            &&& (r matches Ok(h) ==> h@ == spec_doc(t))
        },
{
    let tree = match parse_json_tree(body) {
        Some(j) => j,
        None => {
            return Err(Error::DecodeJsonToStruct);
        },
    };
    let ghost t = json_view(tree);
    let entries = match tree {
        Json::Object(es) => es,
        Json::Text(_) => {
            return Err(Error::DecodeJsonToStruct);
        },
        Json::Other => {
            return Err(Error::DecodeJsonToStruct);
        },
    };
    let ghost es_v = obj_view(entries@);
    proof {
        lemma_object_view(entries);
        assert(t == JsonView::Object(es_v));
    }
    let information = match optional_string(&entries, "Information") {
        Ok(o) => o,
        Err(e) => {
            return Err(e);
        },
    };
    let error_message = match optional_string(&entries, "Error Message") {
        Ok(o) => o,
        Err(e) => {
            return Err(e);
        },
    };
    let note = match optional_string(&entries, "Note") {
        Ok(o) => o,
        Err(e) => {
            return Err(e);
        },
    };
    let meta_data = match field_of(&entries, "Meta Data") {
        Some(mv) => match parse_meta(mv) {
            Ok(m) => Some(m),
            Err(e) => {
                return Err(e);
            },
        },
        None => None,
    };
    let mut series: Option<Vec<(String, EntryHelper)>> = None;
    let mut i: usize = 0;
    proof {
        assert(es_v.take(0) =~= Seq::<(Seq<char>, JsonView)>::empty());
    }
    while i < entries.len()
        invariant
            i <= entries@.len(),
            es_v == obj_view(entries@),
            es_v.len() == entries@.len(),
            t == JsonView::Object(es_v),
            json_tree_of(body@) == Some(t),
            forall|j: int|
                0 <= j < i ==> spec_reserved((#[trigger] es_v[j]).0) || section_ok(es_v[j].1),
            (match series {
                Some(l) => Some(entry_list_view(l@)),
                None => None,
            }) == spec_series(es_v.take(i as int)),
        decreases entries@.len() - i,
    {
        let pair = &entries[i];
        proof {
            assert(es_v[i as int] == (entries@[i as int].0@, json_view(entries@[i as int].1)));
            assert(es_v.take(i + 1).drop_last() =~= es_v.take(i as int));
            assert(es_v.take(i + 1).last() == es_v[i as int]);
        }
        if !is_reserved_key(pair.0.as_str()) {
            let records = match &pair.1 {
                Json::Object(rs) => rs,
                Json::Text(_) => {
                    proof {
                        assert(!section_ok(es_v[i as int].1));
                        assert(!doc_ok(t));
                    }
                    return Err(Error::DecodeJsonToStruct);
                },
                Json::Other => {
                    proof {
                        assert(!section_ok(es_v[i as int].1));
                        assert(!doc_ok(t));
                    }
                    return Err(Error::DecodeJsonToStruct);
                },
            };
            let ghost rs_v = obj_view(records@);
            proof {
                lemma_object_view(*records);
                assert(json_view(entries@[i as int].1) == JsonView::Object(rs_v));
                assert(es_v[i as int].1 == JsonView::Object(rs_v));
            }
            let mut list = match series {
                Some(l) => l,
                None => Vec::new(),
            };
            let ghost base = entry_list_view(list@);
            proof {
                if spec_series(es_v.take(i as int)) is None {
                    assert(base =~= Seq::<(Seq<char>, EntryHelperView)>::empty());
                }
            }
            let mut j: usize = 0;
            proof {
                assert(entry_list_view(list@) =~= base + spec_records(es_v[i as int].1).take(0));
            }
            while j < records.len()
                invariant
                    j <= records@.len(),
                    rs_v == obj_view(records@),
                    rs_v.len() == records@.len(),
                    i < entries@.len(),
                    es_v == obj_view(entries@),
                    es_v.len() == entries@.len(),
                    t == JsonView::Object(es_v),
                    json_tree_of(body@) == Some(t),
                    es_v[i as int].1 == JsonView::Object(rs_v),
                    !spec_reserved(es_v[i as int].0),
                    forall|m: int| 0 <= m < j ==> record_ok((#[trigger] rs_v[m]).1),
                    entry_list_view(list@) == base + spec_records(es_v[i as int].1).take(j as int),
                decreases records@.len() - j,
            {
                let rec = &records[j];
                proof {
                    assert(rs_v[j as int] == (records@[j as int].0@, json_view(
                        records@[j as int].1,
                    )));
                }
                let eh = match parse_record(&rec.1) {
                    Ok(eh) => eh,
                    Err(e) => {
                        proof {
                            assert(!record_ok(rs_v[j as int].1));
                            assert(!section_ok(es_v[i as int].1));
                            assert(!doc_ok(t));
                        }
                        return Err(e);
                    },
                };
                let ghost old_list = list@;
                list.push((rec.0.clone(), eh));
                proof {
                    let recs = spec_records(es_v[i as int].1);
                    assert(recs.take(j + 1).drop_last() =~= recs.take(j as int));
                    assert(recs.take(j + 1).last() == recs[j as int]);
                    assert(recs[j as int] == (rs_v[j as int].0, spec_record(rs_v[j as int].1)));
                    assert(entry_list_view(list@) =~= entry_list_view(old_list).push(
                        (rec.0@, eh@),
                    ));
                    assert(entry_list_view(list@) =~= base + recs.take(j + 1));
                }
                j += 1;
            }
            proof {
                let recs = spec_records(es_v[i as int].1);
                assert(recs.take(records@.len() as int) =~= recs);
                assert(section_ok(es_v[i as int].1));
                match spec_series(es_v.take(i as int)) {
                    None => {
                        assert(entry_list_view(list@) =~= recs);
                    },
                    Some(l) => {
                        assert(entry_list_view(list@) == l + recs);
                    },
                }
                assert(Some(entry_list_view(list@)) == spec_series(es_v.take(i + 1)));
            }
            series = Some(list);
        } else {
            proof {
                assert(spec_series(es_v.take(i + 1)) == spec_series(es_v.take(i as int)));
            }
        }
        i += 1;
    }
    proof {
        assert(es_v.take(entries@.len() as int) =~= es_v);
    }
    let h = CryptoHelper { information, error_message, note, meta_data, entry: series };
    proof {
        assert(doc_ok(t));
        assert(h@ == spec_doc(t));
    }
    Ok(h)
}

} // verus!
