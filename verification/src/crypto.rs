//! Crypto-currency time series: the wire-shaped helper structs decoded
//! from a response body, their validated conversion into the public
//! [`Crypto`] struct, and operations over the entry collection.

use vstd::multiset::Multiset;
use vstd::prelude::*;
use vstd::string::StringExecFns;

use crate::api::{spec_param_views, ApiClient};
use crate::client::HttpClient;
use crate::decimal::{mantissa_of, parse_decimal, spec_decimal, valid_decimal, Decimal};
use crate::decode::parse_crypto;
use crate::error::{
    detect_common_helper_error, is_no_data_with, is_rejected_with, is_throttled_with, Error,
};
use crate::text::{contains_seq, contains_substr, lemma_lex_lt_connected, lemma_lex_lt_irreflexive, lemma_lex_lt_transitive, lex_lt, str_eq, str_lt};

verus! {

/// The meta-data block of a crypto response, one field per labeled key.
#[derive(Clone, Debug)]
pub struct MetaData {
    /// The provider's description of the series.
    pub information: String,
    /// Digital (crypto) currency code, e.g. `BTC`.
    pub digital_code: String,
    /// Digital (crypto) currency name.
    pub digital_name: String,
    /// Market currency code, e.g. `EUR`.
    pub market_code: String,
    /// Market currency name.
    pub market_name: String,
    /// When the series was last refreshed.
    pub last_refreshed: String,
    /// Time zone of all timestamps in the series.
    pub time_zone: String,
}

/// Mathematical model of a [`MetaData`] value.
pub ghost struct MetaDataView {
    pub information: Seq<char>,
    pub digital_code: Seq<char>,
    pub digital_name: Seq<char>,
    pub market_code: Seq<char>,
    pub market_name: Seq<char>,
    pub last_refreshed: Seq<char>,
    pub time_zone: Seq<char>,
}

impl View for MetaData {
    type V = MetaDataView;

    open spec fn view(&self) -> MetaDataView {
        MetaDataView {
            information: self.information@,
            digital_code: self.digital_code@,
            digital_name: self.digital_name@,
            market_code: self.market_code@,
            market_name: self.market_name@,
            last_refreshed: self.last_refreshed@,
            time_zone: self.time_zone@,
        }
    }
}

/// One record of a crypto time series, quoted both in the market currency
/// and in US dollars.
#[derive(Debug)]
pub struct Entry {
    time: String,
    market_open: Decimal,
    usd_open: Decimal,
    market_high: Decimal,
    usd_high: Decimal,
    market_low: Decimal,
    usd_low: Decimal,
    market_close: Decimal,
    usd_close: Decimal,
    volume: Decimal,
    market_cap: Decimal,
}

/// Mathematical model of an [`Entry`].
pub ghost struct EntryView {
    pub time: Seq<char>,
    pub market_open: Decimal,
    pub usd_open: Decimal,
    pub market_high: Decimal,
    pub usd_high: Decimal,
    pub market_low: Decimal,
    pub usd_low: Decimal,
    pub market_close: Decimal,
    pub usd_close: Decimal,
    pub volume: Decimal,
    pub market_cap: Decimal,
}

impl EntryView {
    /// The zero-valued record: empty timestamp, all numbers zero.
    pub open spec fn zero() -> EntryView {
        EntryView {
            time: Seq::empty(),
            market_open: Decimal::spec_zero(),
            usd_open: Decimal::spec_zero(),
            market_high: Decimal::spec_zero(),
            usd_high: Decimal::spec_zero(),
            market_low: Decimal::spec_zero(),
            usd_low: Decimal::spec_zero(),
            market_close: Decimal::spec_zero(),
            usd_close: Decimal::spec_zero(),
            volume: Decimal::spec_zero(),
            market_cap: Decimal::spec_zero(),
        }
    }
}

impl View for Entry {
    type V = EntryView;

    closed spec fn view(&self) -> EntryView {
        EntryView {
            time: self.time@,
            market_open: self.market_open,
            usd_open: self.usd_open,
            market_high: self.market_high,
            usd_high: self.usd_high,
            market_low: self.market_low,
            usd_low: self.usd_low,
            market_close: self.market_close,
            usd_close: self.usd_close,
            volume: self.volume,
            market_cap: self.market_cap,
        }
    }
}

impl Clone for Entry {
    fn clone(&self) -> (r: Entry)
        ensures
            r == *self,
    {
        Entry {
            time: self.time.clone(),
            market_open: self.market_open,
            usd_open: self.usd_open,
            market_high: self.market_high,
            usd_high: self.usd_high,
            market_low: self.market_low,
            usd_low: self.usd_low,
            market_close: self.market_close,
            usd_close: self.usd_close,
            volume: self.volume,
            market_cap: self.market_cap,
        }
    }
}

impl Default for Entry {
    fn default() -> (r: Entry)
        ensures
            r@ == EntryView::zero(),
    {
        let e = Entry {
            time: String::new(),
            market_open: Decimal::zero(),
            usd_open: Decimal::zero(),
            market_high: Decimal::zero(),
            usd_high: Decimal::zero(),
            market_low: Decimal::zero(),
            usd_low: Decimal::zero(),
            market_close: Decimal::zero(),
            usd_close: Decimal::zero(),
            volume: Decimal::zero(),
            market_cap: Decimal::zero(),
        };
        proof {
            assert(e@ =~= EntryView::zero());
        }
        e
    }
}

impl Entry {
    /// Return the record's timestamp.
    pub fn time(&self) -> (r: &str)
        ensures
            r@ == self@.time,
    {
        self.time.as_str()
    }

    /// Return the opening value in the market currency.
    pub fn market_open(&self) -> (r: Decimal)
        ensures
            r == self@.market_open,
    {
        self.market_open
    }

    /// Return the opening value in US dollars.
    pub fn usd_open(&self) -> (r: Decimal)
        ensures
            r == self@.usd_open,
    {
        self.usd_open
    }

    /// Return the high value in the market currency.
    pub fn market_high(&self) -> (r: Decimal)
        ensures
            r == self@.market_high,
    {
        self.market_high
    }

    /// Return the high value in US dollars.
    pub fn usd_high(&self) -> (r: Decimal)
        ensures
            r == self@.usd_high,
    {
        self.usd_high
    }

    /// Return the low value in the market currency.
    pub fn market_low(&self) -> (r: Decimal)
        ensures
            r == self@.market_low,
    {
        self.market_low
    }

    /// Return the low value in US dollars.
    pub fn usd_low(&self) -> (r: Decimal)
        ensures
            r == self@.usd_low,
    {
        self.usd_low
    }

    /// Return the closing value in the market currency.
    pub fn market_close(&self) -> (r: Decimal)
        ensures
            r == self@.market_close,
    {
        self.market_close
    }

    /// Return the closing value in US dollars.
    pub fn usd_close(&self) -> (r: Decimal)
        ensures
            r == self@.usd_close,
    {
        self.usd_close
    }

    /// Return the traded volume.
    pub fn volume(&self) -> (r: Decimal)
        ensures
            r == self@.volume,
    {
        self.volume
    }

    /// Return the market capitalization in US dollars.
    pub fn market_cap(&self) -> (r: Decimal)
        ensures
            r == self@.market_cap,
    {
        self.market_cap
    }
}

/// The models of a sequence of entries.
pub open spec fn entries_view(v: Seq<Entry>) -> Seq<EntryView> {
    v.map_values(|e: Entry| e@)
}

/// A decoded and validated crypto time series.
#[derive(Debug)]
pub struct Crypto {
    meta_data: MetaData,
    entry: Vec<Entry>,
}

/// Mathematical model of a [`Crypto`] value.
pub ghost struct CryptoView {
    pub meta_data: MetaDataView,
    pub entries: Seq<EntryView>,
}

impl View for Crypto {
    type V = CryptoView;

    closed spec fn view(&self) -> CryptoView {
        CryptoView { meta_data: self.meta_data@, entries: entries_view(self.entry@) }
    }
}

/// The meta-data field that the selector word `which` picks, or the empty
/// string for an unknown selector.
pub open spec fn spec_meta_string(m: MetaDataView, which: Seq<char>) -> Seq<char> {
    if which == "information"@ {
        m.information
    } else if which == "digital code"@ {
        m.digital_code
    } else if which == "digital name"@ {
        m.digital_name
    } else if which == "market code"@ {
        m.market_code
    } else if which == "market name"@ {
        m.market_name
    } else if which == "time zone"@ {
        m.time_zone
    } else if which == "last refreshed"@ {
        m.last_refreshed
    } else {
        Seq::empty()
    }
}

/// The seven selector words are pairwise distinct strings.
proof fn lemma_selectors_distinct()
    ensures
        "information"@ != "digital code"@,
        "information"@ != "digital name"@,
        "information"@ != "market code"@,
        "information"@ != "market name"@,
        "information"@ != "time zone"@,
        "information"@ != "last refreshed"@,
        "digital code"@ != "digital name"@,
        "digital code"@ != "market code"@,
        "digital code"@ != "market name"@,
        "digital code"@ != "time zone"@,
        "digital code"@ != "last refreshed"@,
        "digital name"@ != "market code"@,
        "digital name"@ != "market name"@,
        "digital name"@ != "time zone"@,
        "digital name"@ != "last refreshed"@,
        "market code"@ != "market name"@,
        "market code"@ != "time zone"@,
        "market code"@ != "last refreshed"@,
        "market name"@ != "time zone"@,
        "market name"@ != "last refreshed"@,
        "time zone"@ != "last refreshed"@,
{
    reveal_strlit("information");
    reveal_strlit("digital code");
    reveal_strlit("digital name");
    reveal_strlit("market code");
    reveal_strlit("market name");
    reveal_strlit("time zone");
    reveal_strlit("last refreshed");
    assert("information"@[0] == 'i');
    assert("digital code"@[0] == 'd');
    assert("digital name"@[0] == 'd');
    assert("market code"@[0] == 'm');
    assert("market name"@[0] == 'm');
    assert("time zone"@[0] == 't');
    assert("last refreshed"@[0] == 'l');
    assert("digital code"@[8] == 'c');
    assert("digital name"@[8] == 'n');
    assert("market code"@[7] == 'c');
    assert("market name"@[7] == 'n');
}

impl Crypto {
    /// Return the provider's description of the series.
    pub fn information(&self) -> (r: &str)
        ensures
            r@ == self@.meta_data.information,
    {
        proof {
            lemma_selectors_distinct();
        }
        self.return_meta_string("information")
    }

    /// Return the digital (crypto) currency code.
    pub fn digital_code(&self) -> (r: &str)
        ensures
            r@ == self@.meta_data.digital_code,
    {
        proof {
            lemma_selectors_distinct();
        }
        self.return_meta_string("digital code")
    }

    /// Return the digital (crypto) currency name.
    pub fn digital_name(&self) -> (r: &str)
        ensures
            r@ == self@.meta_data.digital_name,
    {
        proof {
            lemma_selectors_distinct();
        }
        self.return_meta_string("digital name")
    }

    /// Return the market currency code.
    pub fn market_code(&self) -> (r: &str)
        ensures
            r@ == self@.meta_data.market_code,
    {
        proof {
            lemma_selectors_distinct();
        }
        self.return_meta_string("market code")
    }

    /// Return the market currency name.
    pub fn market_name(&self) -> (r: &str)
        ensures
            r@ == self@.meta_data.market_name,
    {
        proof {
            lemma_selectors_distinct();
        }
        self.return_meta_string("market name")
    }

    /// Return when the series was last refreshed.
    pub fn last_refreshed(&self) -> (r: &str)
        ensures
            r@ == self@.meta_data.last_refreshed,
    {
        proof {
            lemma_selectors_distinct();
        }
        self.return_meta_string("last refreshed")
    }

    /// Return the time zone of all timestamps of the series.
    pub fn time_zone(&self) -> (r: &str)
        ensures
            r@ == self@.meta_data.time_zone,
    {
        proof {
            lemma_selectors_distinct();
        }
        self.return_meta_string("time zone")
    }

    /// Return the entries of the series.
    pub fn entry(&self) -> (r: &Vec<Entry>)
        ensures
            entries_view(r@) == self@.entries,
    {
        &self.entry
    }

    /// Dispatch from a selector word to the matching meta-data field; any
    /// other selector yields the empty string.
    fn return_meta_string(&self, which_val: &str) -> (r: &str)
        ensures
            r@ == spec_meta_string(self@.meta_data, which_val@),
    {
        if str_eq(which_val, "information") {
            self.meta_data.information.as_str()
        } else if str_eq(which_val, "digital code") {
            self.meta_data.digital_code.as_str()
        } else if str_eq(which_val, "digital name") {
            self.meta_data.digital_name.as_str()
        } else if str_eq(which_val, "market code") {
            self.meta_data.market_code.as_str()
        } else if str_eq(which_val, "market name") {
            self.meta_data.market_name.as_str()
        } else if str_eq(which_val, "time zone") {
            self.meta_data.time_zone.as_str()
        } else if str_eq(which_val, "last refreshed") {
            self.meta_data.last_refreshed.as_str()
        } else {
            proof {
                reveal_strlit("");
                assert(""@ =~= Seq::<char>::empty());
            }
            ""
        }
    }
}

/// The wire shape of one record: the US-dollar and volume figures under
/// their fixed labels, plus the remaining market-currency figures as raw
/// key-value pairs (their labels carry ordinal prefixes such as `1a.`).
#[derive(Clone, Debug)]
pub struct EntryHelper {
    /// Opening value in US dollars, as a numeric string.
    pub open_usd: String,
    /// High value in US dollars, as a numeric string.
    pub high_usd: String,
    /// Low value in US dollars, as a numeric string.
    pub low_usd: String,
    /// Closing value in US dollars, as a numeric string.
    pub close_usd: String,
    /// Traded volume, as a numeric string.
    pub volume: String,
    /// Market capitalization in US dollars, as a numeric string.
    pub market_cap: String,
    /// The record's remaining keys and their numeric-string values.
    pub market_data: Vec<(String, String)>,
}

/// Mathematical model of an [`EntryHelper`].
pub ghost struct EntryHelperView {
    pub open_usd: Seq<char>,
    pub high_usd: Seq<char>,
    pub low_usd: Seq<char>,
    pub close_usd: Seq<char>,
    pub volume: Seq<char>,
    pub market_cap: Seq<char>,
    pub market_data: Seq<(Seq<char>, Seq<char>)>,
}

impl View for EntryHelper {
    type V = EntryHelperView;

    open spec fn view(&self) -> EntryHelperView {
        EntryHelperView {
            open_usd: self.open_usd@,
            high_usd: self.high_usd@,
            low_usd: self.low_usd@,
            close_usd: self.close_usd@,
            volume: self.volume@,
            market_cap: self.market_cap@,
            market_data: spec_param_views(self.market_data@),
        }
    }
}

/// Whether every numeric string of the record parses as a decimal whose
/// digits fit a mantissa.
pub open spec fn entry_numbers_ok(eh: EntryHelper) -> bool {
    &&& valid_decimal(eh.open_usd@) && mantissa_of(eh.open_usd@) <= u128::MAX
    &&& valid_decimal(eh.high_usd@) && mantissa_of(eh.high_usd@) <= u128::MAX
    &&& valid_decimal(eh.low_usd@) && mantissa_of(eh.low_usd@) <= u128::MAX
    &&& valid_decimal(eh.close_usd@) && mantissa_of(eh.close_usd@) <= u128::MAX
    &&& valid_decimal(eh.volume@) && mantissa_of(eh.volume@) <= u128::MAX
    &&& valid_decimal(eh.market_cap@) && mantissa_of(eh.market_cap@) <= u128::MAX
    &&& forall|j: int|
        0 <= j < eh.market_data@.len() ==> valid_decimal(#[trigger] eh.market_data@[j].1@)
            && mantissa_of(eh.market_data@[j].1@) <= u128::MAX
}

/// The market-currency open, high, low and close figures drawn from the
/// record's raw key-value pairs: a key containing `1a` feeds the open,
/// `2a` the high, `3a` the low and `4a` the close; with repeated keys the
/// last occurrence wins, and absent figures stay zero.
pub open spec fn market_fields(md: Seq<(String, String)>) -> (Decimal, Decimal, Decimal, Decimal)
    decreases md.len(),
{
    if md.len() == 0 {
        (Decimal::spec_zero(), Decimal::spec_zero(), Decimal::spec_zero(), Decimal::spec_zero())
    } else {
        let prev = market_fields(md.drop_last());
        let k = md.last().0@;
        let v = spec_decimal(md.last().1@);
        if contains_seq(k, "1a"@) {
            (v, prev.1, prev.2, prev.3)
        } else if contains_seq(k, "2a"@) {
            (prev.0, v, prev.2, prev.3)
        } else if contains_seq(k, "3a"@) {
            (prev.0, prev.1, v, prev.3)
        } else if contains_seq(k, "4a"@) {
            (prev.0, prev.1, prev.2, v)
        } else {
            prev
        }
    }
}

/// The model of the [`Entry`] that conversion builds from the timestamp
/// `time` and the wire record `eh`.
pub open spec fn spec_entry(time: Seq<char>, eh: EntryHelper) -> EntryView {
    let m = market_fields(eh.market_data@);
    EntryView {
        time: time,
        market_open: m.0,
        usd_open: spec_decimal(eh.open_usd@),
        market_high: m.1,
        usd_high: spec_decimal(eh.high_usd@),
        market_low: m.2,
        usd_low: spec_decimal(eh.low_usd@),
        market_close: m.3,
        usd_close: spec_decimal(eh.close_usd@),
        volume: spec_decimal(eh.volume@),
        market_cap: spec_decimal(eh.market_cap@),
    }
}

/// The wire shape of a whole crypto response body: the three optional
/// error sentinels of the provider's shared envelope, the optional
/// meta-data block, and the optional timestamped records.
#[derive(Debug)]
pub struct CryptoHelper {
    /// The `Information` sentinel: a no-data notice.
    pub information: Option<String>,
    /// The `Error Message` sentinel: the request was rejected.
    pub error_message: Option<String>,
    /// The `Note` sentinel: the call was throttled.
    pub note: Option<String>,
    /// The meta-data block, when present.
    pub meta_data: Option<MetaData>,
    /// The timestamped records, when a series section is present.
    pub entry: Option<Vec<(String, EntryHelper)>>,
}

/// The models of a list of timestamped wire records.
pub open spec fn entry_list_view(v: Seq<(String, EntryHelper)>) -> Seq<(Seq<char>, EntryHelperView)> {
    Seq::new(v.len(), |i: int| (v[i].0@, v[i].1@))
}

/// The model of an optional string.
pub open spec fn opt_text_view(o: Option<String>) -> Option<Seq<char>> {
    match o {
        Some(s) => Some(s@),
        None => None,
    }
}

/// Mathematical model of a [`CryptoHelper`].
pub ghost struct CryptoHelperView {
    pub information: Option<Seq<char>>,
    pub error_message: Option<Seq<char>>,
    pub note: Option<Seq<char>>,
    pub meta_data: Option<MetaDataView>,
    pub entry: Option<Seq<(Seq<char>, EntryHelperView)>>,
}

impl View for CryptoHelper {
    type V = CryptoHelperView;

    open spec fn view(&self) -> CryptoHelperView {
        CryptoHelperView {
            information: opt_text_view(self.information),
            error_message: opt_text_view(self.error_message),
            note: opt_text_view(self.note),
            meta_data: match self.meta_data {
                Some(m) => Some(m@),
                None => None,
            },
            entry: match self.entry {
                Some(v) => Some(entry_list_view(v@)),
                None => None,
            },
        }
    }
}

/// Whether none of the three error sentinels is set.
pub open spec fn no_sentinel(h: CryptoHelper) -> bool {
    h.information is None && h.error_message is None && h.note is None
}

/// Whether every record's numeric strings parse.
pub open spec fn all_entries_ok(es: Seq<(String, EntryHelper)>) -> bool {
    forall|i: int| 0 <= i < es.len() ==> entry_numbers_ok(#[trigger] es[i].1)
}

/// The models of the entries that conversion builds from the wire records.
pub open spec fn converted_entries(es: Seq<(String, EntryHelper)>) -> Seq<EntryView> {
    es.map_values(|p: (String, EntryHelper)| spec_entry(p.0@, p.1))
}

/// Convert one wire record into an [`Entry`]: parse the labeled
/// US-dollar and volume figures, then route each remaining key by its
/// ordinal marker into the market-currency figures. Fails with the decode
/// error exactly when some numeric string of the record does not parse.
fn entry_of_record(time: &String, eh: &EntryHelper) -> (r: Result<Entry, Error>)
    ensures
        r is Ok <==> entry_numbers_ok(*eh),
        !entry_numbers_ok(*eh) ==> r == Err::<Entry, Error>(Error::DecodeJsonToStruct),
        r matches Ok(e) ==> e@ == spec_entry(time@, *eh),
{
    let usd_open = match parse_decimal(eh.open_usd.as_str()) {
        Some(d) => d,
        None => {
            return Err(Error::DecodeJsonToStruct);
        },
    };
    let usd_high = match parse_decimal(eh.high_usd.as_str()) {
        Some(d) => d,
        None => {
            return Err(Error::DecodeJsonToStruct);
        },
    };
    let usd_low = match parse_decimal(eh.low_usd.as_str()) {
        Some(d) => d,
        None => {
            return Err(Error::DecodeJsonToStruct);
        },
    };
    let usd_close = match parse_decimal(eh.close_usd.as_str()) {
        Some(d) => d,
        None => {
            return Err(Error::DecodeJsonToStruct);
        },
    };
    let volume = match parse_decimal(eh.volume.as_str()) {
        Some(d) => d,
        None => {
            return Err(Error::DecodeJsonToStruct);
        },
    };
    let market_cap = match parse_decimal(eh.market_cap.as_str()) {
        Some(d) => d,
        None => {
            return Err(Error::DecodeJsonToStruct);
        },
    };
    let mut market_open = Decimal::zero();
    let mut market_high = Decimal::zero();
    let mut market_low = Decimal::zero();
    let mut market_close = Decimal::zero();
    let md = &eh.market_data;
    let mut j: usize = 0;
    proof {
        assert(md@.take(0) =~= Seq::<(String, String)>::empty());
    }
    while j < md.len()
        invariant
            j <= md@.len(),
            md == &eh.market_data,
            forall|t: int|
                0 <= t < j ==> valid_decimal(#[trigger] md@[t].1@) && mantissa_of(md@[t].1@)
                    <= u128::MAX,
            (market_open, market_high, market_low, market_close) == market_fields(
                md@.take(j as int),
            ),
        decreases md@.len() - j,
    {
        let kv = &md[j];
        let value = match parse_decimal(kv.1.as_str()) {
            Some(d) => d,
            None => {
                proof {
                    assert(!entry_numbers_ok(*eh));
                }
                return Err(Error::DecodeJsonToStruct);
            },
        };
        proof {
            assert(md@.take(j + 1).drop_last() =~= md@.take(j as int));
            assert(md@.take(j + 1).last() == md@[j as int]);
        }
        if contains_substr(kv.0.as_str(), "1a") {
            market_open = value;
        } else if contains_substr(kv.0.as_str(), "2a") {
            market_high = value;
        } else if contains_substr(kv.0.as_str(), "3a") {
            market_low = value;
        } else if contains_substr(kv.0.as_str(), "4a") {
            market_close = value;
        }
        j += 1;
    }
    proof {
        assert(md@.take(md@.len() as int) =~= md@);
    }
    let e = Entry {
        time: time.clone(),
        market_open,
        usd_open,
        market_high,
        usd_high,
        market_low,
        usd_low,
        market_close,
        usd_close,
        volume,
        market_cap,
    };
    proof {
        assert(e@ =~= spec_entry(time@, *eh));
    }
    Ok(e)
}

impl CryptoHelper {
    /// Convert the wire struct into the public [`Crypto`] struct.
    ///
    /// The provider's shared error envelope is checked first, in its fixed
    /// priority order: a present `Error Message` always yields the
    /// rejection error (structural conversion is never attempted), else a
    /// present `Note` yields the throttling error, else a present
    /// `Information` yields the no-data error. With no sentinel set, both
    /// payload sections must be present, else the empty-response error is
    /// returned. Only then are the records converted, and a numeric string
    /// that does not parse fails the whole conversion: no partial result
    /// is ever returned.
    pub fn convert(self) -> (r: Result<Crypto, Error>)
        ensures
            self.error_message matches Some(m) ==> is_rejected_with(r, m@),
            self.note matches Some(m) ==> (self.error_message is None ==> is_throttled_with(
                r,
                m@,
            )),
            self.information matches Some(m) ==> (self.error_message is None && self.note is None
                ==> is_no_data_with(r, m@)),
            no_sentinel(self) && (self.meta_data is None || self.entry is None) ==> r == Err::<
                Crypto,
                Error,
            >(Error::EmptyResponse),
            self.entry matches Some(es) ==> (no_sentinel(self) && self.meta_data is Some) ==> {
                &&& r is Ok <==> all_entries_ok(es@)
                &&& !all_entries_ok(es@) ==> r == Err::<Crypto, Error>(Error::DecodeJsonToStruct)
            },
            r matches Ok(c) ==> {
                &&& no_sentinel(self)
                &&& self.meta_data matches Some(md) && c@.meta_data == md@
                &&& self.entry matches Some(es) && c@.entries == converted_entries(es@)
            },
    {
        let CryptoHelper { information, error_message, note, meta_data, entry } = self;
        match detect_common_helper_error(information, error_message, note) {
            Ok(()) => {},
            Err(e) => {
                return Err(e);
            },
        }
        let meta = match meta_data {
            Some(m) => m,
            None => {
                return Err(Error::EmptyResponse);
            },
        };
        let entries = match entry {
            Some(e) => e,
            None => {
                return Err(Error::EmptyResponse);
            },
        };
        let mut vec_entry: Vec<Entry> = Vec::new();
        let mut idx: usize = 0;
        while idx < entries.len()
            invariant
                idx <= entries@.len(),
                vec_entry@.len() == idx,
                self.error_message is None,
                self.note is None,
                self.information is None,
                self.meta_data is Some,
                self.entry == Some(entries),
                forall|j: int| 0 <= j < idx ==> entry_numbers_ok(#[trigger] entries@[j].1),
                forall|j: int|
                    0 <= j < idx ==> #[trigger] vec_entry@[j]@ == spec_entry(
                        entries@[j].0@,
                        entries@[j].1,
                    ),
            decreases entries@.len() - idx,
        {
            let pair = &entries[idx];
            let e = match entry_of_record(&pair.0, &pair.1) {
                Ok(e) => e,
                Err(err) => {
                    proof {
                        assert(!entry_numbers_ok(entries@[idx as int].1));
                        assert(!all_entries_ok(entries@));
                    }
                    return Err(err);
                },
            };
            vec_entry.push(e);
            idx += 1;
        }
        let c = Crypto { meta_data: meta, entry: vec_entry };
        proof {
            assert(c@.entries =~= converted_entries(entries@));
        }
        Ok(c)
    }
}

/// Whether `e` is the first entry of `s` that carries its timestamp.
pub open spec fn is_first_with_time(s: Seq<Entry>, e: Entry) -> bool {
    exists|i: int|
        0 <= i < s.len() && #[trigger] s[i] == e && (forall|j: int|
            0 <= j < i ==> (#[trigger] s[j])@.time != e@.time)
}

/// The timestamps of a sequence of entries.
pub open spec fn times_of(s: Seq<Entry>) -> Seq<Seq<char>> {
    s.map_values(|e: Entry| e@.time)
}

/// Whether the timestamps `ts` are in non-increasing lexicographic order.
pub open spec fn sorted_desc(ts: Seq<Seq<char>>) -> bool {
    forall|a: int, b: int| #![trigger ts[a], ts[b]] 0 <= a < b < ts.len() ==> !lex_lt(ts[a], ts[b])
}

/// The timestamps of the entries of `s` at the positions `idx`, in that
/// order.
pub open spec fn times_at(s: Seq<Entry>, idx: Seq<usize>) -> Seq<Seq<char>> {
    idx.map_values(|i: usize| s[i as int]@.time)
}

/// Reading timestamps at positions commutes with appending a position.
proof fn lemma_times_at_push(s: Seq<Entry>, idx: Seq<usize>, x: usize)
    ensures
        times_at(s, idx.push(x)) =~= times_at(s, idx).push(s[x as int]@.time),
{
}

/// Reading timestamps at positions commutes with removing a position.
proof fn lemma_times_at_remove(s: Seq<Entry>, idx: Seq<usize>, k: int)
    requires
        0 <= k < idx.len(),
    ensures
        times_at(s, idx.remove(k)) =~= times_at(s, idx).remove(k),
{
}

/// A timestamp that beats the current maximum beats everything the
/// current maximum beats.
proof fn lemma_still_beaten(t_old: Seq<char>, t_j: Seq<char>, t_new: Seq<char>)
    requires
        !lex_lt(t_old, t_j),
        lex_lt(t_old, t_new),
    ensures
        !lex_lt(t_new, t_j),
        t_j == t_old || lex_lt(t_j, t_new),
{
    lemma_lex_lt_connected(t_j, t_old);
    lemma_lex_lt_irreflexive(t_old);
    lemma_lex_lt_irreflexive(t_new);
    if lex_lt(t_new, t_j) {
        if t_j == t_old {
            lemma_lex_lt_transitive(t_old, t_new, t_j);
        } else {
            lemma_lex_lt_transitive(t_new, t_j, t_old);
            lemma_lex_lt_transitive(t_old, t_new, t_old);
        }
    }
    if t_j != t_old {
        lemma_lex_lt_transitive(t_j, t_old, t_new);
    }
}

/// Operations over a collection of time-series entries.
pub trait VecEntry: View<V = Seq<Entry>> {
    /// Find the first entry with the given timestamp; `None` when no entry
    /// carries it.
    fn find(&self, time: &str) -> (r: Option<&Entry>)
        ensures
            r matches Some(e) ==> is_first_with_time(self@, *e) && e@.time == time@,
            r is None ==> forall|i: int|
                0 <= i < self@.len() ==> (#[trigger] self@[i])@.time != time@,
    ;

    /// Return a copy of the first entry whose timestamp is
    /// lexicographically maximal (the latest, since the provider's
    /// zero-padded timestamps sort chronologically), or the zero-valued
    /// record when the collection is empty.
    fn latest(&self) -> (r: Entry)
        ensures
            forall|j: int| 0 <= j < self@.len() ==> !lex_lt(r@.time, (#[trigger] self@[j])@.time),
            self@.len() == 0 ==> r@ == EntryView::zero(),
            self@.len() > 0 ==> exists|i: int|
                0 <= i < self@.len() && r == self@[i] && (forall|k: int|
                    0 <= k < i ==> lex_lt((#[trigger] self@[k])@.time, r@.time)),
    ;

    /// Return the `n` latest entries — `n` distinct positions of the
    /// collection whose timestamps are the `n` largest — in non-increasing
    /// timestamp order. Fails, reporting the collection's size, when fewer
    /// than `n` entries are present.
    fn latest_n(&self, n: usize) -> (r: Result<Vec<&Entry>, Error>)
        ensures
            n > self@.len() ==> (r matches Err(e) && e == Error::DesiredNumberOfEntryNotPresent(
                self@.len() as usize,
            )),
            n <= self@.len() ==> r is Ok,
            r matches Ok(v) ==> {
                &&& v@.len() == n
                &&& n <= self@.len()
                &&& forall|a: int, b: int| #![trigger v@[a], v@[b]] 0 <= a < b < n ==> !lex_lt(
                    v@[a]@.time,
                    v@[b]@.time,
                )
                &&& exists|idx: Seq<usize>|
                    {
                        &&& idx.len() == n
                        &&& forall|a: int| 0 <= a < n ==> (#[trigger] idx[a]) < self@.len()
                        &&& forall|a: int| 0 <= a < n ==> *(#[trigger] v@[a]) == self@[idx[a] as int]
                        &&& forall|a: int, b: int| #![trigger idx[a], idx[b]]
                            0 <= a < b < n ==> idx[a] != idx[b]
                    }
                &&& exists|ts: Seq<Seq<char>>|
                    {
                        &&& ts.to_multiset() == times_of(self@).to_multiset()
                        &&& sorted_desc(ts)
                        &&& forall|a: int| 0 <= a < n ==> (#[trigger] v@[a])@.time == ts[a]
                    }
            },
    ;
}

impl VecEntry for Vec<Entry> {
    fn find(&self, time: &str) -> (r: Option<&Entry>) {
        let mut i: usize = 0;
        while i < self.len()
            invariant
                i <= self@.len(),
                forall|j: int| 0 <= j < i ==> (#[trigger] self@[j])@.time != time@,
            decreases self@.len() - i,
        {
            let e = &self[i];
            if str_eq(e.time.as_str(), time) {
                return Some(e);
            }
            i += 1;
        }
        None
    }

    fn latest(&self) -> (r: Entry) {
        if self.len() == 0 {
            return Entry::default();
        }
        let mut best: usize = 0;
        let mut i: usize = 1;
        proof {
            lemma_lex_lt_irreflexive(self@[0]@.time);
        }
        while i < self.len()
            invariant
                0 < self@.len(),
                best < i <= self@.len(),
                forall|j: int| 0 <= j < i ==> !lex_lt(
                    self@[best as int]@.time,
                    (#[trigger] self@[j])@.time,
                ),
                forall|k: int| 0 <= k < best ==> lex_lt(
                    (#[trigger] self@[k])@.time,
                    self@[best as int]@.time,
                ),
            decreases self@.len() - i,
        {
            let b = &self[best];
            let e = &self[i];
            if str_lt(b.time.as_str(), e.time.as_str()) {
                proof {
                    let t_old = self@[best as int]@.time;
                    let t_new = self@[i as int]@.time;
                    assert forall|j: int| 0 <= j < i implies !lex_lt(
                        t_new,
                        (#[trigger] self@[j])@.time,
                    ) && lex_lt(self@[j]@.time, t_new) by {
                        lemma_still_beaten(t_old, self@[j]@.time, t_new);
                    }
                    lemma_lex_lt_irreflexive(t_new);
                }
                best = i;
            }
            i += 1;
        }
        let e = &self[best];
        let r = e.clone();
        proof {
            assert(r == self@[best as int]);
        }
        r
    }

    fn latest_n(&self, n: usize) -> (r: Result<Vec<&Entry>, Error>) {
        broadcast use vstd::seq_lib::group_to_multiset_ensures;

        if n > self.len() {
            return Err(Error::DesiredNumberOfEntryNotPresent(self.len()));
        }
        // The positions of all entries.
        let mut remaining: Vec<usize> = Vec::new();
        let mut i: usize = 0;
        while i < self.len()
            invariant
                remaining@.len() == i <= self@.len(),
                forall|j: int| 0 <= j < i ==> (#[trigger] remaining@[j]) == j,
            decreases self@.len() - i,
        {
            remaining.push(i);
            i += 1;
        }
        proof {
            assert(times_at(self@, remaining@) =~= times_of(self@));
        }
        // Order the positions by non-increasing timestamp, repeatedly
        // extracting the first position with a maximal timestamp.
        let mut order: Vec<usize> = Vec::new();
        while remaining.len() > 0
            invariant
                order@.len() + remaining@.len() == self@.len(),
                forall|a: int| 0 <= a < order@.len() ==> (#[trigger] order@[a]) < self@.len(),
                forall|b: int| 0 <= b < remaining@.len() ==> (#[trigger] remaining@[b])
                    < self@.len(),
                forall|a: int, b: int| #![trigger order@[a], order@[b]]
                    0 <= a < b < order@.len() ==> order@[a] != order@[b],
                forall|a: int, b: int| #![trigger order@[a], remaining@[b]]
                    0 <= a < order@.len() && 0 <= b < remaining@.len() ==> order@[a]
                        != remaining@[b],
                forall|b: int, b2: int| #![trigger remaining@[b], remaining@[b2]]
                    0 <= b < b2 < remaining@.len() ==> remaining@[b] != remaining@[b2],
                times_at(self@, order@).to_multiset().add(
                    times_at(self@, remaining@).to_multiset(),
                ) == times_of(self@).to_multiset(),
                sorted_desc(times_at(self@, order@)),
                forall|a: int, b: int| #![trigger order@[a], remaining@[b]]
                    0 <= a < order@.len() && 0 <= b < remaining@.len() ==> !lex_lt(
                        self@[order@[a] as int]@.time,
                        self@[remaining@[b] as int]@.time,
                    ),
            decreases remaining@.len(),
        {
            let mut mi: usize = 0;
            let mut k: usize = 1;
            proof {
                lemma_lex_lt_irreflexive(self@[remaining@[0] as int]@.time);
            }
            while k < remaining.len()
                invariant
                    mi < k <= remaining@.len(),
                    remaining@.len() > 0,
                    forall|b: int| 0 <= b < remaining@.len() ==> (#[trigger] remaining@[b])
                        < self@.len(),
                    forall|j: int| 0 <= j < k ==> !lex_lt(
                        self@[remaining@[mi as int] as int]@.time,
                        self@[(#[trigger] remaining@[j]) as int]@.time,
                    ),
                decreases remaining@.len() - k,
            {
                let a = &self[remaining[mi]];
                let b = &self[remaining[k]];
                if str_lt(a.time.as_str(), b.time.as_str()) {
                    proof {
                        let t_old = self@[remaining@[mi as int] as int]@.time;
                        let t_new = self@[remaining@[k as int] as int]@.time;
                        assert forall|j: int| 0 <= j < k implies !lex_lt(
                            t_new,
                            self@[(#[trigger] remaining@[j]) as int]@.time,
                        ) by {
                            lemma_still_beaten(
                                t_old,
                                self@[remaining@[j] as int]@.time,
                                t_new,
                            );
                        }
                        lemma_lex_lt_irreflexive(t_new);
                    }
                    mi = k;
                }
                k += 1;
            }
            let ghost old_rem = remaining@;
            let ghost old_order = order@;
            let picked = remaining.remove(mi);
            order.push(picked);
            proof {
                lemma_times_at_remove(self@, old_rem, mi as int);
                lemma_times_at_push(self@, old_order, picked);
                let ot = times_at(self@, old_order);
                let rt = times_at(self@, old_rem);
                let pt = self@[picked as int]@.time;
                assert(rt[mi as int] == pt);
                assert(rt.to_multiset().count(pt) > 0) by {
                    broadcast use vstd::seq_lib::group_to_multiset_ensures;

                    assert(0 <= mi < rt.len() && rt[mi as int] == pt);
                    assert(rt.contains(pt));
                }
                assert(times_at(self@, order@).to_multiset().add(
                    times_at(self@, remaining@).to_multiset(),
                ) =~= times_of(self@).to_multiset()) by {
                    broadcast use vstd::seq_lib::group_to_multiset_ensures;

                    assert(times_at(self@, order@) == ot.push(pt));
                    assert(times_at(self@, remaining@) == rt.remove(mi as int));
                    assert(ot.push(pt).to_multiset() =~= ot.to_multiset().insert(pt));
                    assert(rt.remove(mi as int).to_multiset() =~= rt.to_multiset().remove(
                        rt[mi as int],
                    ));
                    assert(times_at(self@, order@).to_multiset() =~= ot.to_multiset().insert(pt));
                    assert(times_at(self@, remaining@).to_multiset() =~= rt.to_multiset().remove(
                        pt,
                    ));
                    assert(ot.to_multiset().insert(pt).add(rt.to_multiset().remove(pt))
                        =~= ot.to_multiset().add(rt.to_multiset()));
                }
                assert forall|a: int, b: int| #![trigger order@[a], remaining@[b]]
                    0 <= a < order@.len() && 0 <= b < remaining@.len() implies order@[a]
                    != remaining@[b] && !lex_lt(
                    self@[order@[a] as int]@.time,
                    self@[remaining@[b] as int]@.time,
                ) by {
                    if b < mi {
                        assert(remaining@[b] == old_rem[b]);
                    } else {
                        assert(remaining@[b] == old_rem[b + 1]);
                    }
                    if a == old_order.len() {
                        assert(order@[a] == picked);
                    }
                }
                assert forall|a: int, b: int|
                    #![trigger times_at(self@, order@)[a], times_at(self@, order@)[b]]
                    0 <= a < b < order@.len() implies !lex_lt(
                    times_at(self@, order@)[a],
                    times_at(self@, order@)[b],
                ) by {
                    if b < old_order.len() {
                        assert(!lex_lt(ot[a], ot[b]));
                    } else {
                        assert(order@[b] == picked);
                        assert(!lex_lt(ot[a], rt[mi as int]));
                    }
                }
            }
        }
        proof {
            assert(times_at(self@, remaining@) =~= Seq::<Seq<char>>::empty());
            assert(times_at(self@, remaining@).to_multiset() =~= Multiset::<Seq<char>>::empty());
            assert(times_at(self@, order@).to_multiset().add(Multiset::<Seq<char>>::empty())
                =~= times_at(self@, order@).to_multiset());
        }
        // Hand out the entries at the first `n` ordered positions.
        let mut out: Vec<&Entry> = Vec::new();
        let mut a: usize = 0;
        while a < n
            invariant
                out@.len() == a <= n,
                n <= self@.len(),
                order@.len() == self@.len(),
                forall|x: int| 0 <= x < order@.len() ==> (#[trigger] order@[x]) < self@.len(),
                forall|x: int, y: int| #![trigger order@[x], order@[y]]
                    0 <= x < y < order@.len() ==> order@[x] != order@[y],
                times_at(self@, order@).to_multiset() == times_of(self@).to_multiset(),
                sorted_desc(times_at(self@, order@)),
                forall|x: int| 0 <= x < a ==> *(#[trigger] out@[x]) == self@[order@[x] as int],
            decreases n - a,
        {
            let oi = order[a];
            let e = &self[oi];
            out.push(e);
            a += 1;
        }
        proof {
            let ts = times_at(self@, order@);
            let idx = order@.take(n as int);
            assert(idx.len() == n);
            assert forall|x: int| 0 <= x < n implies (#[trigger] idx[x]) < self@.len()
                && *out@[x] == self@[idx[x] as int] by {
                assert(idx[x] == order@[x]);
            }
            assert forall|x: int, y: int| #![trigger idx[x], idx[y]]
                0 <= x < y < n implies idx[x] != idx[y] by {
                assert(idx[x] == order@[x] && idx[y] == order@[y]);
            }
            assert forall|x: int| 0 <= x < n implies (#[trigger] out@[x])@.time == ts[x] by {
                assert(*out@[x] == self@[order@[x] as int]);
            }
            assert forall|x: int, y: int| #![trigger out@[x], out@[y]]
                0 <= x < y < n implies !lex_lt(out@[x]@.time, out@[y]@.time) by {
                assert(out@[x]@.time == ts[x]);
                assert(out@[y]@.time == ts[y]);
            }
        }
        Ok(out)
    }
}

/// The crypto time series to ask for.
#[derive(Clone, Copy, PartialEq, Eq, Structural)]
pub enum CryptoFunction {
    /// Daily historical series for a digital currency traded on a given
    /// market, quoted in that market's currency and in US dollars.
    Daily,
    /// Weekly historical series for a digital currency traded on a given
    /// market, quoted in that market's currency and in US dollars.
    Weekly,
    /// Monthly historical series for a digital currency traded on a given
    /// market, quoted in that market's currency and in US dollars.
    Monthly,
}

/// The function-selector token of a crypto series.
pub open spec fn spec_crypto_token(f: CryptoFunction) -> Seq<char> {
    match f {
        CryptoFunction::Daily => "DIGITAL_CURRENCY_DAILY"@,
        CryptoFunction::Weekly => "DIGITAL_CURRENCY_WEEKLY"@,
        CryptoFunction::Monthly => "DIGITAL_CURRENCY_MONTHLY"@,
    }
}

/// Format a crypto series as its function-selector token.
pub fn crypto_token(f: &CryptoFunction) -> (r: &'static str)
    ensures
        r@ == spec_crypto_token(*f),
{
    match f {
        CryptoFunction::Daily => "DIGITAL_CURRENCY_DAILY",
        CryptoFunction::Weekly => "DIGITAL_CURRENCY_WEEKLY",
        CryptoFunction::Monthly => "DIGITAL_CURRENCY_MONTHLY",
    }
}

/// Collects the parameters of a crypto time series call.
pub struct CryptoBuilder<'a, C: HttpClient> {
    api_client: &'a ApiClient<C>,
    function: CryptoFunction,
    symbol: &'a str,
    market: &'a str,
}

impl<'a, C: HttpClient> CryptoBuilder<'a, C> {
    /// The series asked for.
    pub closed spec fn spec_function(&self) -> CryptoFunction {
        self.function
    }

    /// The digital currency's symbol.
    pub closed spec fn spec_symbol(&self) -> Seq<char> {
        self.symbol@
    }

    /// The market whose currency the series is quoted in.
    pub closed spec fn spec_market(&self) -> Seq<char> {
        self.market@
    }

    /// Create a builder over the given client for the given series,
    /// symbol and market.
    pub fn new(
        api_client: &'a ApiClient<C>,
        function: CryptoFunction,
        symbol: &'a str,
        market: &'a str,
    ) -> (r: Self)
        ensures
            r.spec_function() == function,
            r.spec_symbol() == symbol@,
            r.spec_market() == market@,
    {
        Self { api_client, function, symbol, market }
    }

    /// Format the endpoint path and query string.
    pub fn create_url(&self) -> (r: String)
        ensures
            r@ == "query?function="@ + spec_crypto_token(self.spec_function()) + "&symbol="@
                + self.spec_symbol() + "&market="@ + self.spec_market(),
    {
        let mut url = String::from_str("query?function=");
        url.append(crypto_token(&self.function));
        url.append("&symbol=");
        url.append(self.symbol);
        url.append("&market=");
        url.append(self.market);
        url
    }

    /// Fetch the series and decode it: one GET request through the
    /// client's transport, then the shared sentinel check and structural
    /// conversion. Which URL is fetched is pinned by [`Self::create_url`]
    /// and `ApiClient::request_url`; what the fetched body decodes to is
    /// pinned by [`crate::decode::parse_crypto`] over the tree the body
    /// parses to, and by [`CryptoHelper::convert`]. Only the body itself
    /// comes from outside, so no `ensures` can stand here: the result is
    /// whatever that chain gives for the body the transport produced.
    pub fn json(&self) -> (r: Result<Crypto, Error>) {
        let url = self.create_url();
        let body = match self.api_client.get_output(url.as_str()) {
            Ok(b) => b,
            Err(e) => {
                return Err(e);
            },
        };
        let helper = match parse_crypto(body.as_str()) {
            Ok(h) => h,
            Err(e) => {
                return Err(e);
            },
        };
        helper.convert()
    }
}

} // verus!
