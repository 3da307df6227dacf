//! The requests sent to the voucher service: their bodies and their headers.

use vstd::prelude::*;
use crate::cookie::{csrftoken_spec, extract_csrftoken};

verus! {

/// Body of the request that saves a voucher.
#[derive(Clone, Debug)]
pub struct SaveVoucherRequest {
    pub voucher_promotionid: i64,
    pub signature: String,
    pub security_device_fingerprint: String,
    pub signature_source: String,
}

/// The save request for a voucher: no device fingerprint and signature source `0`.
pub fn save_voucher_request(promotion_id: i64, signature: &str) -> (res: SaveVoucherRequest)
    ensures
        res.voucher_promotionid == promotion_id,
        res.signature@ == signature@,
        res.security_device_fingerprint@ == Seq::<char>::empty(),
        res.signature_source@ == "0"@,
{
    SaveVoucherRequest {
        voucher_promotionid: promotion_id,
        signature: String::from_str(signature),
        security_device_fingerprint: String::new(),
        signature_source: String::from_str("0"),
    }
}

/// One listing query of a voucher collection.
#[derive(Clone, Debug)]
pub struct VoucherCollectionRequest {
    pub collection_id: String,
    pub component_type: i64,
    pub component_id: i64,
    pub limit: i64,
    pub microsite_id: i64,
    pub offset: i64,
    pub number_of_vouchers_per_row: i64,
}

/// Body of a voucher-collection request.
#[derive(Clone, Debug)]
pub struct JsonRequest {
    pub voucher_collection_request_list: Vec<VoucherCollectionRequest>,
}

/// The listing parameters of a collection query other than its id.
pub open spec fn query_parameters(q: VoucherCollectionRequest) -> (i64, i64, i64, i64, i64, i64) {
    (q.component_type, q.component_id, q.limit, q.microsite_id, q.offset, q.number_of_vouchers_per_row)
}

/// The request body asking for one collection with the given listing parameters.
pub open spec fn single_query(
    body: JsonRequest,
    collection_id: Seq<char>,
    parameters: (i64, i64, i64, i64, i64, i64),
) -> bool {
    &&& body.voucher_collection_request_list@.len() == 1
    &&& body.voucher_collection_request_list@[0].collection_id@ == collection_id
    &&& query_parameters(body.voucher_collection_request_list@[0]) == parameters
}

/// A request body asking for one collection.
fn single_query_request(
    collection_id: &str,
    component_type: i64,
    component_id: i64,
    microsite_id: i64,
    number_of_vouchers_per_row: i64,
) -> (res: JsonRequest)
    ensures
        single_query(
            res,
            collection_id@,
            (component_type, component_id, 100, microsite_id, 0, number_of_vouchers_per_row),
        ),
{
    let query = VoucherCollectionRequest {
        collection_id: String::from_str(collection_id),
        component_type,
        component_id,
        limit: 100,
        microsite_id,
        offset: 0,
        number_of_vouchers_per_row,
    };
    let mut list: Vec<VoucherCollectionRequest> = Vec::new();
    list.push(query);
    JsonRequest { voucher_collection_request_list: list }
}

/// The first listing of a collection: component type 2, two vouchers per row.
pub fn collection_request(collection_id: &str) -> (res: JsonRequest)
    ensures
        single_query(res, collection_id@, (2, 1712077200, 100, 63749, 0, 2)),
{
    single_query_request(collection_id, 2, 1712077200, 63749, 2)
}

/// The other listing of a collection, asked when the first one lacks a voucher list:
/// component type 1, one voucher per row.
pub fn fallback_collection_request(collection_id: &str) -> (res: JsonRequest)
    ensures
        single_query(res, collection_id@, (1, 1708068524282, 100, 62902, 0, 1)),
{
    single_query_request(collection_id, 1, 1708068524282, 62902, 1)
}

/// A character that an HTTP header value may hold: a visible one, a space or a tab. Characters
/// beyond ASCII are allowed, as all the bytes of their UTF-8 form are.
pub open spec fn header_char_ok(c: char) -> bool {
    (c >= ' ' && c != '\x7f') || c == '\t'
}

/// A text that an HTTP header value may hold.
pub open spec fn header_value_ok(s: Seq<char>) -> bool {
    forall|i: int| 0 <= i < s.len() ==> header_char_ok(#[trigger] s[i])
}

/// Calls `reqwest::header::HeaderValue::from_str` and tells whether it accepted the text. Its
/// source accepts a text when every byte is a tab or lies at or above a space and is not DEL;
/// the contract says that in terms of characters.
#[verifier::external_body]
fn header_value_from_str(value: &str) -> (res: bool)
    ensures
        res == header_value_ok(value@),
{
    match reqwest::header::HeaderValue::from_str(value) {
        Ok(_) => true,
        Err(_) => false,
    }
}

/// A header value that HTTP refuses.
#[derive(Clone, Copy, Debug, PartialEq, Eq, Structural)]
pub struct InvalidHeaderValue;

/// Headers as name and value texts.
pub open spec fn header_texts(headers: Seq<(String, String)>) -> Seq<(Seq<char>, Seq<char>)> {
    headers.map_values(|h: (String, String)| (h.0@, h.1@))
}

/// The headers of the save request, in order.
pub open spec fn save_headers_spec(csrftoken: Seq<char>, cookie: Seq<char>) -> Seq<
    (Seq<char>, Seq<char>),
> {
    seq![
        ("User-Agent"@, "Android app Shopee appver=29313 app_type=1"@),
        ("accept"@, "application/json"@),
        ("Content-Type"@, "application/json"@),
        ("x-api-source"@, "rn"@),
        ("if-none-match-"@, "55b03-97d86fe6888b54a9c5bfa268cf3d922f"@),
        ("shopee_http_dns_mode"@, "1"@),
        ("x-shopee-client-timezone"@, "Asia/Jakarta"@),
        ("af-ac-enc-dat"@, ""@),
        ("af-ac-enc-id"@, ""@),
        ("x-sap-access-t"@, ""@),
        ("x-sap-access-f"@, ""@),
        ("referer"@, "https://mall.shopee.co.id/"@),
        ("x-csrftoken"@, csrftoken),
        ("af-ac-enc-sz-token"@, ""@),
        ("cookie"@, cookie),
    ]
}

/// The headers of a voucher-collection request, in order.
pub open spec fn collection_headers_spec(csrftoken: Seq<char>, cookie: Seq<char>) -> Seq<
    (Seq<char>, Seq<char>),
> {
    seq![
        ("User-Agent"@, "Android app Shopee appver=29330 app_type=13"@),
        ("accept"@, "application/json"@),
        ("Content-Type"@, "application/json"@),
        ("x-api-source"@, "rn"@),
        ("x-shopee-language"@, "id"@),
        ("if-none-match-"@, "55b03-8f1a78d495601e3a183dd4c1efb8ac00"@),
        ("shopee_http_dns_mode"@, "1"@),
        ("referer"@, "https://mall.shopee.co.id/"@),
        ("x-csrftoken"@, csrftoken),
        ("cookie"@, cookie),
    ]
}

/// The save request carries exactly these headers: the account's whole cookie under `cookie`,
/// the token under `x-csrftoken`, the body announced as JSON, and each fixed header with the
/// value the service expects.
pub proof fn law_save_headers(csrftoken: Seq<char>, cookie: Seq<char>)
    ensures
        ({
            let h = save_headers_spec(csrftoken, cookie);
            &&& h.len() == 15
            &&& h.contains(("User-Agent"@, "Android app Shopee appver=29313 app_type=1"@))
            &&& h.contains(("accept"@, "application/json"@))
            &&& h.contains(("Content-Type"@, "application/json"@))
            &&& h.contains(("x-api-source"@, "rn"@))
            &&& h.contains(("if-none-match-"@, "55b03-97d86fe6888b54a9c5bfa268cf3d922f"@))
            &&& h.contains(("shopee_http_dns_mode"@, "1"@))
            &&& h.contains(("x-shopee-client-timezone"@, "Asia/Jakarta"@))
            &&& h.contains(("af-ac-enc-dat"@, ""@))
            &&& h.contains(("af-ac-enc-id"@, ""@))
            &&& h.contains(("x-sap-access-t"@, ""@))
            &&& h.contains(("x-sap-access-f"@, ""@))
            &&& h.contains(("referer"@, "https://mall.shopee.co.id/"@))
            &&& h.contains(("x-csrftoken"@, csrftoken))
            &&& h.contains(("af-ac-enc-sz-token"@, ""@))
            &&& h.contains(("cookie"@, cookie))
        }),
{
    let h = save_headers_spec(csrftoken, cookie);
    assert(h[0] == ("User-Agent"@, "Android app Shopee appver=29313 app_type=1"@));
    assert(h[1] == ("accept"@, "application/json"@));
    assert(h[2] == ("Content-Type"@, "application/json"@));
    assert(h[3] == ("x-api-source"@, "rn"@));
    assert(h[4] == ("if-none-match-"@, "55b03-97d86fe6888b54a9c5bfa268cf3d922f"@));
    assert(h[5] == ("shopee_http_dns_mode"@, "1"@));
    assert(h[6] == ("x-shopee-client-timezone"@, "Asia/Jakarta"@));
    assert(h[7] == ("af-ac-enc-dat"@, ""@));
    assert(h[8] == ("af-ac-enc-id"@, ""@));
    assert(h[9] == ("x-sap-access-t"@, ""@));
    assert(h[10] == ("x-sap-access-f"@, ""@));
    assert(h[11] == ("referer"@, "https://mall.shopee.co.id/"@));
    assert(h[12] == ("x-csrftoken"@, csrftoken));
    assert(h[13] == ("af-ac-enc-sz-token"@, ""@));
    assert(h[14] == ("cookie"@, cookie));
}

/// A voucher-collection request carries exactly these headers: the account's whole cookie under
/// `cookie`, the token under `x-csrftoken`, the body announced as JSON, and each fixed header
/// with the value the service expects.
pub proof fn law_collection_headers(csrftoken: Seq<char>, cookie: Seq<char>)
    ensures
        ({
            let h = collection_headers_spec(csrftoken, cookie);
            &&& h.len() == 10
            &&& h.contains(("User-Agent"@, "Android app Shopee appver=29330 app_type=13"@))
            &&& h.contains(("accept"@, "application/json"@))
            &&& h.contains(("Content-Type"@, "application/json"@))
            &&& h.contains(("x-api-source"@, "rn"@))
            &&& h.contains(("x-shopee-language"@, "id"@))
            &&& h.contains(("if-none-match-"@, "55b03-8f1a78d495601e3a183dd4c1efb8ac00"@))
            &&& h.contains(("shopee_http_dns_mode"@, "1"@))
            &&& h.contains(("referer"@, "https://mall.shopee.co.id/"@))
            &&& h.contains(("x-csrftoken"@, csrftoken))
            &&& h.contains(("cookie"@, cookie))
        }),
{
    let h = collection_headers_spec(csrftoken, cookie);
    assert(h[0] == ("User-Agent"@, "Android app Shopee appver=29330 app_type=13"@));
    assert(h[1] == ("accept"@, "application/json"@));
    assert(h[2] == ("Content-Type"@, "application/json"@));
    assert(h[3] == ("x-api-source"@, "rn"@));
    assert(h[4] == ("x-shopee-language"@, "id"@));
    assert(h[5] == ("if-none-match-"@, "55b03-8f1a78d495601e3a183dd4c1efb8ac00"@));
    assert(h[6] == ("shopee_http_dns_mode"@, "1"@));
    assert(h[7] == ("referer"@, "https://mall.shopee.co.id/"@));
    assert(h[8] == ("x-csrftoken"@, csrftoken));
    assert(h[9] == ("cookie"@, cookie));
}

/// Appends one header.
fn add_header(headers: &mut Vec<(String, String)>, name: &str, value: &str)
    ensures
        header_texts(final(headers)@) == header_texts(old(headers)@).push((name@, value@)),
{
    headers.push((String::from_str(name), String::from_str(value)));
    assert(header_texts(final(headers)@) =~= header_texts(old(headers)@).push((name@, value@)));
}

/// The headers of the save request; refused when the token or the cookie cannot stand in a
/// header.
pub fn save_voucher_headers(csrftoken: &str, cookie: &str) -> (res: Result<
    Vec<(String, String)>,
    InvalidHeaderValue,
>)
    ensures
        res is Ok <==> header_value_ok(csrftoken@) && header_value_ok(cookie@),
        res matches Ok(h) ==> header_texts(h@) == save_headers_spec(csrftoken@, cookie@),
{
    if !header_value_from_str(csrftoken) || !header_value_from_str(cookie) {
        return Err(InvalidHeaderValue);
    }
    let mut h: Vec<(String, String)> = Vec::new();
    add_header(&mut h, "User-Agent", "Android app Shopee appver=29313 app_type=1");
    add_header(&mut h, "accept", "application/json");
    add_header(&mut h, "Content-Type", "application/json");
    add_header(&mut h, "x-api-source", "rn");
    add_header(&mut h, "if-none-match-", "55b03-97d86fe6888b54a9c5bfa268cf3d922f");
    add_header(&mut h, "shopee_http_dns_mode", "1");
    add_header(&mut h, "x-shopee-client-timezone", "Asia/Jakarta");
    add_header(&mut h, "af-ac-enc-dat", "");
    add_header(&mut h, "af-ac-enc-id", "");
    add_header(&mut h, "x-sap-access-t", "");
    add_header(&mut h, "x-sap-access-f", "");
    add_header(&mut h, "referer", "https://mall.shopee.co.id/");
    add_header(&mut h, "x-csrftoken", csrftoken);
    add_header(&mut h, "af-ac-enc-sz-token", "");
    add_header(&mut h, "cookie", cookie);
    assert(header_texts(h@) =~= save_headers_spec(csrftoken@, cookie@));
    Ok(h)
}

/// The headers of a voucher-collection request; refused when the token or the cookie cannot
/// stand in a header.
pub fn collection_headers(csrftoken: &str, cookie: &str) -> (res: Result<
    Vec<(String, String)>,
    InvalidHeaderValue,
>)
    ensures
        res is Ok <==> header_value_ok(csrftoken@) && header_value_ok(cookie@),
        res matches Ok(h) ==> header_texts(h@) == collection_headers_spec(csrftoken@, cookie@),
{
    if !header_value_from_str(csrftoken) || !header_value_from_str(cookie) {
        return Err(InvalidHeaderValue);
    }
    let mut h: Vec<(String, String)> = Vec::new();
    add_header(&mut h, "User-Agent", "Android app Shopee appver=29330 app_type=13");
    add_header(&mut h, "accept", "application/json");
    add_header(&mut h, "Content-Type", "application/json");
    add_header(&mut h, "x-api-source", "rn");
    add_header(&mut h, "x-shopee-language", "id");
    add_header(&mut h, "if-none-match-", "55b03-8f1a78d495601e3a183dd4c1efb8ac00");
    add_header(&mut h, "shopee_http_dns_mode", "1");
    add_header(&mut h, "referer", "https://mall.shopee.co.id/");
    add_header(&mut h, "x-csrftoken", csrftoken);
    add_header(&mut h, "cookie", cookie);
    assert(header_texts(h@) =~= collection_headers_spec(csrftoken@, cookie@));
    Ok(h)
}

/// Everything the save request needs: the token read from the cookie, the body and the headers.
#[derive(Debug)]
pub struct SavePlan {
    pub csrftoken: String,
    pub body: SaveVoucherRequest,
    pub headers: Vec<(String, String)>,
}

/// Prepares the save request for a voucher on behalf of the account behind `cookie`.
pub fn plan_save_voucher(promotion_id: i64, signature: &str, cookie: &str) -> (res: Result<
    SavePlan,
    InvalidHeaderValue,
>)
    ensures
        res is Ok <==> header_value_ok(csrftoken_spec(cookie@)) && header_value_ok(cookie@),
        res matches Ok(plan) ==> {
            &&& plan.csrftoken@ == csrftoken_spec(cookie@)
            &&& plan.body.voucher_promotionid == promotion_id
            &&& plan.body.signature@ == signature@
            &&& plan.body.security_device_fingerprint@ == Seq::<char>::empty()
            &&& plan.body.signature_source@ == "0"@
            &&& header_texts(plan.headers@) == save_headers_spec(csrftoken_spec(cookie@), cookie@)
        },
{
    let csrftoken = extract_csrftoken(cookie);
    let body = save_voucher_request(promotion_id, signature);
    let headers = save_voucher_headers(csrftoken.as_str(), cookie)?;
    Ok(SavePlan { csrftoken, body, headers })
}

/// Everything a voucher-collection request needs: the token read from the cookie, the body
/// and the headers.
#[derive(Debug)]
pub struct CollectionPlan {
    pub csrftoken: String,
    pub body: JsonRequest,
    pub headers: Vec<(String, String)>,
}

/// Prepares the first listing request of a collection on behalf of the account behind `cookie`.
pub fn plan_collection_lookup(collection_id: &str, cookie: &str) -> (res: Result<
    CollectionPlan,
    InvalidHeaderValue,
>)
    ensures
        res is Ok <==> header_value_ok(csrftoken_spec(cookie@)) && header_value_ok(cookie@),
        res matches Ok(plan) ==> {
            &&& plan.csrftoken@ == csrftoken_spec(cookie@)
            &&& single_query(plan.body, collection_id@, (2, 1712077200, 100, 63749, 0, 2))
            &&& header_texts(plan.headers@) == collection_headers_spec(
                csrftoken_spec(cookie@),
                cookie@,
            )
        },
{
    let csrftoken = extract_csrftoken(cookie);
    let body = collection_request(collection_id);
    let headers = collection_headers(csrftoken.as_str(), cookie)?;
    Ok(CollectionPlan { csrftoken, body, headers })
}

} // verus!
