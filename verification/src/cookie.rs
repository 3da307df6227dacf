//! Reading the CSRF token out of a cookie header.

use vstd::prelude::*;
use crate::text::{
    chars_of, find_from, find_spec, find_spec_occurs, lemma_find_spec_first,
    lemma_find_spec_skips, occurs_at,
};

verus! {

/// The cookie attribute name that introduces the token, `csrftoken=`.
pub open spec fn token_key() -> Seq<char> {
    seq!['c', 's', 'r', 'f', 't', 'o', 'k', 'e', 'n', '=']
}

/// The token carried by a cookie: the text after the first `csrftoken=` up to the first
/// `;` that follows it. Empty when the key is absent or no `;` closes the value.
pub open spec fn csrftoken_spec(cookie: Seq<char>) -> Seq<char> {
    match find_spec(cookie, token_key(), 0) {
        Some(i) => {
            let start = i + token_key().len();
            match find_spec(cookie, seq![';'], start) {
                Some(end) => cookie.subrange(start, end),
                None => Seq::empty(),
            }
        },
        None => Seq::empty(),
    }
}

/// Extracts the value of the `csrftoken` cookie from a cookie string.
pub fn extract_csrftoken(cookie_string: &str) -> (csrftoken: String)
    ensures
        csrftoken@ == csrftoken_spec(cookie_string@),
{
    let cs = chars_of(cookie_string);
    let key = chars_of("csrftoken=");
    proof {
        reveal_strlit("csrftoken=");
        assert(key@ =~= token_key());
    }
    let semicolon: Vec<char> = vec![';'];
    assert(semicolon@ =~= seq![';']);
    let mut csrftoken = String::new();
    if let Some(token_index) = find_from(&cs, &key, 0) {
        proof {
            find_spec_occurs(cs@, key@, 0);
            assert(occurs_at(cs@, key@, token_index as int));
            assert(cs@.len() == cs.len());
        }
        let token_start = token_index + key.len();
        if let Some(token_end) = find_from(&cs, &semicolon, token_start) {
            proof {
                find_spec_occurs(cs@, semicolon@, token_start as int);
            }
            csrftoken = String::from_str(cookie_string.substring_char(token_start, token_end));
        }
    }
    csrftoken
}

/// A cookie whose first `csrftoken=` entry holds `value`, closed by `;`, yields exactly `value`.
pub proof fn law_token_read_back(prefix: Seq<char>, value: Seq<char>, rest: Seq<char>)
    requires
        forall|k: int| 0 <= k < prefix.len() ==> !occurs_at(
            prefix + token_key() + value + seq![';'] + rest,
            token_key(),
            k,
        ),
        forall|k: int| 0 <= k < value.len() ==> value[k] != ';',
    ensures
        csrftoken_spec(prefix + token_key() + value + seq![';'] + rest) == value,
{
    let cookie = prefix + token_key() + value + seq![';'] + rest;
    let start: int = prefix.len() as int + token_key().len() as int;
    let end: int = start + value.len();
    assert(cookie.subrange(prefix.len() as int, start) =~= token_key());
    lemma_find_spec_first(cookie, token_key(), 0, prefix.len() as int);
    assert(cookie.subrange(end, end + 1) =~= seq![';']);
    assert forall|k: int| start <= k < end implies !occurs_at(cookie, seq![';'], k) by {
        assert(cookie.subrange(k, k + 1)[0] == value[k - start]);
    }
    lemma_find_spec_first(cookie, seq![';'], start, end);
    assert(cookie.subrange(start, end) =~= value);
}

/// The token never holds a `;`.
pub proof fn law_token_has_no_separator(cookie: Seq<char>)
    ensures
        forall|k: int| 0 <= k < csrftoken_spec(cookie).len() ==> csrftoken_spec(cookie)[k] != ';',
{
    if let Some(i) = find_spec(cookie, token_key(), 0) {
        let start = i + token_key().len();
        find_spec_occurs(cookie, token_key(), 0);
        if let Some(end) = find_spec(cookie, seq![';'], start) {
            lemma_find_spec_skips(cookie, seq![';'], start);
            find_spec_occurs(cookie, seq![';'], start);
            assert forall|k: int| 0 <= k < end - start implies csrftoken_spec(cookie)[k] != ';' by {
                assert(!occurs_at(cookie, seq![';'], start + k));
                assert(cookie.subrange(start + k, start + k + 1) =~= seq![cookie[start + k]]);
            }
        }
    }
}

} // verus!
