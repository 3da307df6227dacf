//! Finding the voucher to save in a voucher-collection response.

use vstd::prelude::*;
use crate::decimal::{format_i64, format_int_spec};
use crate::json::{entries, entries_spec, entry, entry_spec, items, items_spec, member, member_spec, JsonValue};

verus! {

/// The identifier object of a voucher entry: `entry["voucher"]["voucher_identifier"]`, both
/// objects.
pub open spec fn voucher_identifier_spec(v: JsonValue) -> Option<Seq<(String, JsonValue)>> {
    match member_spec(v, "voucher"@) {
        Some(voucher) => match entries_spec(voucher) {
            Some(fields) => match entry_spec(fields, "voucher_identifier"@) {
                Some(ident) => entries_spec(ident),
                None => None,
            },
            None => None,
        },
        None => None,
    }
}

/// The identifier of the first voucher entry that has one.
pub open spec fn first_identifier(vouchers: Seq<JsonValue>) -> Option<Seq<(String, JsonValue)>>
    decreases vouchers.len(),
{
    if vouchers.len() == 0 {
        None
    } else {
        match voucher_identifier_spec(vouchers[0]) {
            Some(ident) => Some(ident),
            None => first_identifier(vouchers.drop_first()),
        }
    }
}

/// The voucher list of a data entry: `data_entry["vouchers"]`, an array.
pub open spec fn vouchers_spec(data_entry: JsonValue) -> Option<Seq<JsonValue>> {
    match member_spec(data_entry, "vouchers"@) {
        Some(v) => items_spec(v),
        None => None,
    }
}

/// What the search of a response finds.
pub enum VoucherSearch {
    /// The identifier of the voucher to save.
    Identifier(Seq<(String, JsonValue)>),
    /// A data entry has no voucher list, and the caller asked to be told.
    Fallback,
    /// The data holds no voucher with an identifier.
    NoVoucher,
    /// The response has no `data` array.
    NoData,
}

/// The search through the data entries in order: the first entry whose voucher list holds an
/// identified voucher decides; an entry without a voucher list stops the search when
/// `ask_fallback` is set and is passed over otherwise.
pub open spec fn scan_spec(data: Seq<JsonValue>, ask_fallback: bool) -> VoucherSearch
    decreases data.len(),
{
    if data.len() == 0 {
        VoucherSearch::NoVoucher
    } else {
        match vouchers_spec(data[0]) {
            Some(vouchers) => match first_identifier(vouchers) {
                Some(ident) => VoucherSearch::Identifier(ident),
                None => scan_spec(data.drop_first(), ask_fallback),
            },
            None => if ask_fallback {
                VoucherSearch::Fallback
            } else {
                scan_spec(data.drop_first(), ask_fallback)
            },
        }
    }
}

/// The search of a whole response, which keeps its entries under `data`.
pub open spec fn search_spec(response: JsonValue, ask_fallback: bool) -> VoucherSearch {
    match member_spec(response, "data"@) {
        Some(d) => match items_spec(d) {
            Some(data) => scan_spec(data, ask_fallback),
            None => VoucherSearch::NoData,
        },
        None => VoucherSearch::NoData,
    }
}

/// The promotion id of an identifier: its `promotion_id` as an `i64`, or 0.
pub open spec fn promotion_id_of(ident: Seq<(String, JsonValue)>) -> i64 {
    match entry_spec(ident, "promotion_id"@) {
        Some(JsonValue::Number(Some(n))) => n,
        _ => 0,
    }
}

/// The signature of an identifier: its `signature` text, or the empty text.
pub open spec fn signature_of(ident: Seq<(String, JsonValue)>) -> Seq<char> {
    match entry_spec(ident, "signature"@) {
        Some(JsonValue::Text(s)) => s@,
        _ => Seq::empty(),
    }
}

/// The outcome of looking for a voucher in a response.
#[derive(Debug)]
pub enum VoucherLookup {
    /// The voucher to save: its promotion id written in decimal, and its signature.
    Found { promotion_id: String, signature: String },
    /// A data entry carries no voucher list; the other listing should be asked.
    Fallback,
    /// No data entry holds an identified voucher.
    NoVoucher,
    /// The response carries no data.
    NoData,
}

/// The outcome reports what the search finds.
pub open spec fn lookup_reports(res: VoucherLookup, search: VoucherSearch) -> bool {
    match search {
        VoucherSearch::Identifier(ident) => match res {
            VoucherLookup::Found { promotion_id, signature } => promotion_id@ == format_int_spec(
                promotion_id_of(ident) as int,
            ) && signature@ == signature_of(ident),
            _ => false,
        },
        VoucherSearch::Fallback => res is Fallback,
        VoucherSearch::NoVoucher => res is NoVoucher,
        VoucherSearch::NoData => res is NoData,
    }
}

/// The data entry at `i` of the response lists, at `j`, a voucher with identifier `ident`.
pub open spec fn listed_at(
    response: JsonValue,
    i: int,
    j: int,
    ident: Seq<(String, JsonValue)>,
) -> bool {
    match member_spec(response, "data"@) {
        Some(d) => match items_spec(d) {
            Some(data) => 0 <= i < data.len() && match vouchers_spec(data[i]) {
                Some(vouchers) => 0 <= j < vouchers.len() && voucher_identifier_spec(vouchers[j])
                    == Some(ident),
                None => false,
            },
            None => false,
        },
        None => false,
    }
}

/// A voucher list reports the identifier of its first identified voucher: when the voucher at
/// `j` has an identifier and none before it has, the list reports the identifier at `j`.
pub proof fn law_first_identified_voucher_wins(vouchers: Seq<JsonValue>, j: int)
    requires
        0 <= j < vouchers.len(),
        voucher_identifier_spec(vouchers[j]) is Some,
        forall|k: int| 0 <= k < j ==> voucher_identifier_spec(#[trigger] vouchers[k]) is None,
    ensures
        first_identifier(vouchers) == voucher_identifier_spec(vouchers[j]),
    decreases j,
{
    if j > 0 {
        let rest = vouchers.drop_first();
        assert(voucher_identifier_spec(vouchers[0]) is None);
        assert forall|k: int| 0 <= k < j - 1 implies voucher_identifier_spec(
            #[trigger] rest[k],
        ) is None by {
            assert(rest[k] == vouchers[k + 1]);
        }
        assert(rest[j - 1] == vouchers[j]);
        law_first_identified_voucher_wins(rest, j - 1);
    }
}

/// A voucher list in which no voucher has an identifier reports none.
pub proof fn law_unidentified_list_reports_none(vouchers: Seq<JsonValue>)
    requires
        forall|k: int| 0 <= k < vouchers.len() ==> voucher_identifier_spec(#[trigger] vouchers[k])
            is None,
    ensures
        first_identifier(vouchers) is None,
    decreases vouchers.len(),
{
    if vouchers.len() > 0 {
        let rest = vouchers.drop_first();
        assert(voucher_identifier_spec(vouchers[0]) is None);
        assert forall|k: int| 0 <= k < rest.len() implies voucher_identifier_spec(
            #[trigger] rest[k],
        ) is None by {
            assert(rest[k] == vouchers[k + 1]);
        }
        law_unidentified_list_reports_none(rest);
    }
}

/// The data entry `k` is passed over by the search: it lists vouchers none of which has an
/// identifier, or, when the other listing is not asked for, it lists no vouchers at all.
pub open spec fn passed_over(data_entry: JsonValue, ask_fallback: bool) -> bool {
    match vouchers_spec(data_entry) {
        Some(vouchers) => forall|k: int|
            0 <= k < vouchers.len() ==> voucher_identifier_spec(#[trigger] vouchers[k]) is None,
        None => !ask_fallback,
    }
}

/// The search of a response reports the first identified voucher of the first data entry that
/// has one: when every entry before `i` is passed over and the voucher at `j` of entry `i` is
/// the first of its list with an identifier, that identifier is reported.
pub proof fn law_search_reports_first_identified_voucher(
    response: JsonValue,
    ask_fallback: bool,
    data: Seq<JsonValue>,
    i: int,
    vouchers: Seq<JsonValue>,
    j: int,
)
    requires
        member_spec(response, "data"@) matches Some(d) && items_spec(d) == Some(data),
        0 <= i < data.len(),
        forall|k: int| 0 <= k < i ==> passed_over(#[trigger] data[k], ask_fallback),
        vouchers_spec(data[i]) == Some(vouchers),
        0 <= j < vouchers.len(),
        voucher_identifier_spec(vouchers[j]) is Some,
        forall|k: int| 0 <= k < j ==> voucher_identifier_spec(#[trigger] vouchers[k]) is None,
    ensures
        search_spec(response, ask_fallback) == VoucherSearch::Identifier(
            voucher_identifier_spec(vouchers[j])->0,
        ),
{
    lemma_scan_first(data, ask_fallback, i, vouchers, j);
}

/// The data-entry part of [`law_search_reports_first_identified_voucher`].
proof fn lemma_scan_first(
    data: Seq<JsonValue>,
    ask_fallback: bool,
    i: int,
    vouchers: Seq<JsonValue>,
    j: int,
)
    requires
        0 <= i < data.len(),
        forall|k: int| 0 <= k < i ==> passed_over(#[trigger] data[k], ask_fallback),
        vouchers_spec(data[i]) == Some(vouchers),
        0 <= j < vouchers.len(),
        voucher_identifier_spec(vouchers[j]) is Some,
        forall|k: int| 0 <= k < j ==> voucher_identifier_spec(#[trigger] vouchers[k]) is None,
    ensures
        scan_spec(data, ask_fallback) == VoucherSearch::Identifier(
            voucher_identifier_spec(vouchers[j])->0,
        ),
    decreases i,
{
    if i == 0 {
        law_first_identified_voucher_wins(vouchers, j);
    } else {
        assert(passed_over(data[0], ask_fallback));
        if let Some(vs) = vouchers_spec(data[0]) {
            law_unidentified_list_reports_none(vs);
        }
        let rest = data.drop_first();
        assert forall|k: int| 0 <= k < i - 1 implies passed_over(#[trigger] rest[k], ask_fallback) by {
            assert(rest[k] == data[k + 1]);
        }
        assert(rest[i - 1] == data[i]);
        lemma_scan_first(rest, ask_fallback, i - 1, vouchers, j);
    }
}

/// Where the first identified voucher of a list stands.
proof fn lemma_first_identifier_index(vouchers: Seq<JsonValue>) -> (j: int)
    requires
        first_identifier(vouchers) is Some,
    ensures
        0 <= j < vouchers.len(),
        voucher_identifier_spec(vouchers[j]) == first_identifier(vouchers),
    decreases vouchers.len(),
{
    if voucher_identifier_spec(vouchers[0]) is Some {
        0
    } else {
        let k = lemma_first_identifier_index(vouchers.drop_first());
        k + 1
    }
}

/// Where the voucher that the search of data entries finds stands.
proof fn lemma_scan_index(data: Seq<JsonValue>, ask_fallback: bool) -> (ij: (int, int))
    requires
        scan_spec(data, ask_fallback) is Identifier,
    ensures
        0 <= ij.0 < data.len(),
        vouchers_spec(data[ij.0]) matches Some(vouchers) && 0 <= ij.1 < vouchers.len()
            && scan_spec(data, ask_fallback) == VoucherSearch::Identifier(
            voucher_identifier_spec(vouchers[ij.1])->0,
        ) && voucher_identifier_spec(vouchers[ij.1]) is Some,
    decreases data.len(),
{
    match vouchers_spec(data[0]) {
        Some(vouchers) => {
            if first_identifier(vouchers) is Some {
                let j = lemma_first_identifier_index(vouchers);
                (0, j)
            } else {
                let (i, j) = lemma_scan_index(data.drop_first(), ask_fallback);
                (i + 1, j)
            }
        },
        None => {
            let (i, j) = lemma_scan_index(data.drop_first(), ask_fallback);
            (i + 1, j)
        },
    }
}

/// The voucher a search finds is one the response lists.
pub proof fn law_found_voucher_is_listed(response: JsonValue, ask_fallback: bool)
    ensures
        search_spec(response, ask_fallback) matches VoucherSearch::Identifier(ident) ==> exists|
            i: int,
            j: int,
        | #[trigger] listed_at(response, i, j, ident),
{
    if let VoucherSearch::Identifier(ident) = search_spec(response, ask_fallback) {
        let data = items_spec(member_spec(response, "data"@)->0)->0;
        let (i, j) = lemma_scan_index(data, ask_fallback);
        assert(listed_at(response, i, j, ident));
    }
}

/// Without being asked to, the search never reports the need for the other listing.
pub proof fn law_no_fallback_unless_asked(response: JsonValue)
    ensures
        !(search_spec(response, false) is Fallback),
{
    if let Some(d) = member_spec(response, "data"@) {
        if let Some(data) = items_spec(d) {
            lemma_scan_never_falls_back(data);
        }
    }
}

/// The search of data entries without fallback never reports one.
proof fn lemma_scan_never_falls_back(data: Seq<JsonValue>)
    ensures
        !(scan_spec(data, false) is Fallback),
    decreases data.len(),
{
    if data.len() > 0 {
        lemma_scan_never_falls_back(data.drop_first());
    }
}

/// The identifier object of a voucher entry.
fn voucher_identifier<'a>(v: &'a JsonValue, voucher_key: &String, ident_key: &String) -> (res: Option<
    &'a Vec<(String, JsonValue)>,
>)
    requires
        voucher_key@ == "voucher"@,
        ident_key@ == "voucher_identifier"@,
    ensures
        match res {
            Some(r) => voucher_identifier_spec(*v) == Some(r@),
            None => voucher_identifier_spec(*v) is None,
        },
{
    match member(v, voucher_key) {
        Some(voucher) => match entries(voucher) {
            Some(fields) => match entry(fields, ident_key) {
                Some(ident) => entries(ident),
                None => None,
            },
            None => None,
        },
        None => None,
    }
}

/// The promotion id and signature that an identifier carries.
fn identified_voucher(ident: &Vec<(String, JsonValue)>) -> (res: VoucherLookup)
    ensures
        lookup_reports(res, VoucherSearch::Identifier(ident@)),
{
    let id_key = String::from_str("promotion_id");
    let sig_key = String::from_str("signature");
    let promotion_id: i64 = match entry(ident, &id_key) {
        Some(JsonValue::Number(Some(n))) => *n,
        _ => 0,
    };
    let signature = match entry(ident, &sig_key) {
        Some(JsonValue::Text(s)) => s.clone(),
        _ => String::new(),
    };
    VoucherLookup::Found { promotion_id: format_i64(promotion_id), signature }
}

/// The identifier of the first voucher of a list that has one.
fn first_identified<'a>(
    vouchers: &'a Vec<JsonValue>,
    voucher_key: &String,
    ident_key: &String,
) -> (res: Option<&'a Vec<(String, JsonValue)>>)
    requires
        voucher_key@ == "voucher"@,
        ident_key@ == "voucher_identifier"@,
    ensures
        match res {
            Some(r) => first_identifier(vouchers@) == Some(r@),
            None => first_identifier(vouchers@) is None,
        },
{
    let m = vouchers.len();
    let mut j: usize = 0;
    assert(vouchers@.subrange(0, m as int) =~= vouchers@);
    while j < m
        invariant
            j <= m,
            m == vouchers@.len(),
            voucher_key@ == "voucher"@,
            ident_key@ == "voucher_identifier"@,
            first_identifier(vouchers@) == first_identifier(vouchers@.subrange(j as int, m as int)),
        decreases m - j,
    {
        assert(vouchers@.subrange(j as int, m as int).drop_first() =~= vouchers@.subrange(
            j + 1,
            m as int,
        ));
        if let Some(ident) = voucher_identifier(&vouchers[j], voucher_key, ident_key) {
            return Some(ident);
        }
        j = j + 1;
    }
    None
}

/// The data entries of a response (`response["data"]`, an array).
fn data_entries<'a>(response: &'a JsonValue) -> (res: Option<&'a Vec<JsonValue>>)
    ensures
        match res {
            Some(r) => member_spec(*response, "data"@) matches Some(d) && items_spec(d) == Some(
                r@,
            ),
            None => !(member_spec(*response, "data"@) matches Some(d) && items_spec(d) is Some),
        },
{
    let data_key = String::from_str("data");
    match member(response, &data_key) {
        Some(d) => items(d),
        None => None,
    }
}

/// The voucher list of a data entry.
fn entry_vouchers<'a>(data_entry: &'a JsonValue, vouchers_key: &String) -> (res: Option<
    &'a Vec<JsonValue>,
>)
    requires
        vouchers_key@ == "vouchers"@,
    ensures
        match res {
            Some(r) => vouchers_spec(*data_entry) == Some(r@),
            None => vouchers_spec(*data_entry) is None,
        },
{
    match member(data_entry, vouchers_key) {
        Some(v) => items(v),
        None => None,
    }
}

/// Looks through a voucher-collection response for the first voucher that carries an
/// identifier. With `ask_fallback`, a data entry without a voucher list ends the search with
/// [`VoucherLookup::Fallback`]; without it such entries are passed over.
pub fn find_voucher(response: &JsonValue, ask_fallback: bool) -> (res: VoucherLookup)
    ensures
        lookup_reports(res, search_spec(*response, ask_fallback)),
{
    let vouchers_key = String::from_str("vouchers");
    let voucher_key = String::from_str("voucher");
    let ident_key = String::from_str("voucher_identifier");
    let data = match data_entries(response) {
        Some(data) => data,
        None => {
            return VoucherLookup::NoData;
        },
    };
    let n = data.len();
    let mut i: usize = 0;
    assert(data@.subrange(0, n as int) =~= data@);
    while i < n
        invariant
            i <= n,
            n == data@.len(),
            vouchers_key@ == "vouchers"@,
            voucher_key@ == "voucher"@,
            ident_key@ == "voucher_identifier"@,
            search_spec(*response, ask_fallback) == scan_spec(
                data@.subrange(i as int, n as int),
                ask_fallback,
            ),
        decreases n - i,
    {
        assert(data@.subrange(i as int, n as int).drop_first() =~= data@.subrange(i + 1, n as int));
        assert(data@.subrange(i as int, n as int)[0] == data@[i as int]);
        match entry_vouchers(&data[i], &vouchers_key) {
            Some(vouchers) => {
                if let Some(ident) = first_identified(vouchers, &voucher_key, &ident_key) {
                    return identified_voucher(ident);
                }
            },
            None => {
                if ask_fallback {
                    return VoucherLookup::Fallback;
                }
            },
        }
        i = i + 1;
    }
    VoucherLookup::NoVoucher
}

/// How many data entries without a voucher list the search passes over before it stops.
pub open spec fn unlisted_spec(data: Seq<JsonValue>) -> nat
    decreases data.len(),
{
    if data.len() == 0 {
        0
    } else {
        match vouchers_spec(data[0]) {
            Some(vouchers) => if first_identifier(vouchers) is Some {
                0
            } else {
                unlisted_spec(data.drop_first())
            },
            None => 1 + unlisted_spec(data.drop_first()),
        }
    }
}

/// How many data entries without a voucher list a search that does not ask for the other
/// listing passes over: those before the entry whose voucher it finds, or all of them.
pub open spec fn unlisted_entries_spec(response: JsonValue) -> nat {
    match member_spec(response, "data"@) {
        Some(d) => match items_spec(d) {
            Some(data) => unlisted_spec(data),
            None => 0,
        },
        None => 0,
    }
}

/// Counts the data entries without a voucher list that [`find_voucher`] passes over when it
/// does not ask for the other listing; each of them is reported to the user.
pub fn unlisted_entries(response: &JsonValue) -> (res: usize)
    ensures
        res == unlisted_entries_spec(*response),
{
    let vouchers_key = String::from_str("vouchers");
    let voucher_key = String::from_str("voucher");
    let ident_key = String::from_str("voucher_identifier");
    let data = match data_entries(response) {
        Some(data) => data,
        None => {
            return 0;
        },
    };
    let n = data.len();
    let mut i: usize = 0;
    let mut count: usize = 0;
    assert(data@.subrange(0, n as int) =~= data@);
    while i < n
        invariant
            i <= n,
            count <= i,
            n == data@.len(),
            vouchers_key@ == "vouchers"@,
            voucher_key@ == "voucher"@,
            ident_key@ == "voucher_identifier"@,
            unlisted_entries_spec(*response) == count + unlisted_spec(
                data@.subrange(i as int, n as int),
            ),
        decreases n - i,
    {
        assert(data@.subrange(i as int, n as int).drop_first() =~= data@.subrange(i + 1, n as int));
        assert(data@.subrange(i as int, n as int)[0] == data@[i as int]);
        match entry_vouchers(&data[i], &vouchers_key) {
            Some(vouchers) => {
                if first_identified(vouchers, &voucher_key, &ident_key).is_some() {
                    return count;
                }
            },
            None => {
                count = count + 1;
            },
        }
        i = i + 1;
    }
    count
}

} // verus!
