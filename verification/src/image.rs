//! Image resolution for a category: which of the two provider endpoints to
//! ask, which field of its small JSON body carries the image URL, and the
//! extraction of that field from a response body. The HTTP call itself runs
//! outside the library; a failed or unparsable fetch degrades to an absent
//! image, never to an error.

use vstd::prelude::*;
use crate::pet::KIND_DOG;
use crate::msg::ResultMsg;

verus! {

/// The field of the dog or cat endpoint's JSON body that yields the URL.
pub open spec fn url_field_spec(kind_id: u64) -> Seq<char> {
    if kind_id == KIND_DOG {
        "message"@
    } else {
        "url"@
    }
}

/// The provider endpoint for a category family: the dog endpoint for the dog
/// category, the cat endpoint for every other category.
pub fn image_endpoint(kind_id: u64) -> (r: &'static str)
    ensures
        kind_id == KIND_DOG ==> r@ == "https://dog.ceo/api/breeds/image/random"@,
        kind_id != KIND_DOG ==> r@ == "https://api.thecatapi.com/v1/images/search"@,
{
    if kind_id == KIND_DOG {
        "https://dog.ceo/api/breeds/image/random"
    } else {
        "https://api.thecatapi.com/v1/images/search"
    }
}

/// The field of the endpoint's JSON body that yields the image URL.
pub fn image_url_field(kind_id: u64) -> (r: &'static str)
    ensures
        r@ == url_field_spec(kind_id),
{
    if kind_id == KIND_DOG {
        "message"
    } else {
        "url"
    }
}

/// The pattern that introduces a string field's value in the small bodies
/// the two providers return: a quoted key, a colon, an opening quote.
pub open spec fn key_pat(field: Seq<char>) -> Seq<char> {
    seq!['"'] + field + seq!['"', ':', '"']
}

/// The pattern stands character for character at position i.
pub open spec fn match_at(s: Seq<char>, p: Seq<char>, i: int) -> bool {
    &&& 0 <= i
    &&& i + p.len() <= s.len()
    &&& forall|k: int| 0 <= k < p.len() ==> s[i + k] == p[k]
}

/// The pattern's first occurrence is at position i.
pub open spec fn first_match_at(s: Seq<char>, p: Seq<char>, i: int) -> bool {
    &&& match_at(s, p, i)
    &&& forall|k: int| 0 <= k < i ==> !match_at(s, p, k)
}

/// The first quote at or after start stands at position j.
pub open spec fn first_quote_at(s: Seq<char>, start: int, j: int) -> bool {
    &&& start <= j < s.len()
    &&& s[j] == '"'
    &&& forall|k: int| start <= k < j ==> s[k] != '"'
}

/// The field's value is the range between the first occurrence of the key
/// pattern and the next quote: it begins at i + the pattern's length and
/// ends before j.
pub open spec fn field_value_at(s: Seq<char>, f: Seq<char>, i: int, j: int) -> bool {
    &&& first_match_at(s, key_pat(f), i)
    &&& first_quote_at(s, i + key_pat(f).len(), j)
}

/// The key pattern for a field, built for the scan.
fn build_pattern(field: &str) -> (p: String)
    ensures
        p@ == key_pat(field@),
{
    let mut p = String::from_str("\"");
    p.append(field);
    p.append("\":\"");
    proof {
        reveal_strlit("\"");
        reveal_strlit("\":\"");
        assert(p@ =~= key_pat(field@));
    }
    p
}

/// Character-for-character comparison of the pattern against one position.
fn pattern_matches_at(s: &str, p: &str, i: usize) -> (r: bool)
    requires
        i + p@.len() <= s@.len(),
    ensures
        r == match_at(s@, p@, i as int),
{
    let sn = s.unicode_len();
    let m = p.unicode_len();
    let mut k: usize = 0;
    while k < m
        invariant
            sn == s@.len(),
            m == p@.len(),
            i + m <= sn,
            k <= m,
            forall|t: int| 0 <= t < k ==> s@[i + t] == p@[t],
        decreases m - k,
    {
        if s.get_char(i + k) != p.get_char(k) {
            return false;
        }
        k = k + 1;
    }
    true
}

/// Extract a string field's value from a response body: the characters
/// between the first occurrence of `"field":"` and the next quote. Absent
/// when the body holds no such occurrence or no closing quote — malformed
/// data yields an absent URL, not an error.
///
/// The value is taken verbatim: backslash escape sequences are not decoded,
/// so an escaped slash stays as written, and an escaped quote inside a
/// value ends the extraction there. A body using such escapes degrades to
/// a wrong-looking or absent image, never to an error.
pub fn extract_string_field(body: &str, field: &str) -> (r: Option<String>)
    ensures
        r matches Some(v) ==> exists|i: int, j: int|
            #[trigger] field_value_at(body@, field@, i, j) && v@ == body@.subrange(
                i + key_pat(field@).len(),
                j,
            ),
        r is None ==> forall|i: int, j: int| !field_value_at(body@, field@, i, j),
{
    let p = build_pattern(field);
    let n = body.unicode_len();
    let m = p.as_str().unicode_len();
    if m > n {
        return None;
    }
    let mut i: usize = 0;
    while i <= n - m
        invariant
            n == body@.len(),
            m == p@.len(),
            m <= n,
            i <= n - m + 1,
            p@ == key_pat(field@),
            forall|k: int| 0 <= k < i ==> !match_at(body@, p@, k),
        decreases n - m - i + 1,
    {
        if pattern_matches_at(body, p.as_str(), i) {
            let start = i + m;
            let mut j: usize = start;
            while j < n
                invariant
                    n == body@.len(),
                    m == p@.len(),
                    p@ == key_pat(field@),
                    start == i + m,
                    start <= j <= n,
                    match_at(body@, p@, i as int),
                    forall|k: int| 0 <= k < i ==> !match_at(body@, p@, k),
                    forall|k: int| start <= k < j ==> body@[k] != '"',
                decreases n - j,
            {
                if body.get_char(j) == '"' {
                    let v = body.substring_char(start, j);
                    proof {
                        assert(field_value_at(body@, field@, i as int, j as int));
                    }
                    return Some(String::from_str(v));
                }
                j = j + 1;
            }
            proof {
                assert forall|a: int, b: int| !field_value_at(body@, field@, a, b) by {
                    if field_value_at(body@, field@, a, b) {
                        assert(a == i as int);
                    }
                }
            }
            return None;
        }
        i = i + 1;
    }
    proof {
        assert forall|a: int, b: int| !field_value_at(body@, field@, a, b) by {
            if field_value_at(body@, field@, a, b) {
                assert(!match_at(body@, p@, a));
            }
        }
    }
    None
}

/// The compute half of a finished image fetch: from the optional response
/// body — absent for a failed or non-2xx fetch — to the one image update the
/// presentation loop applies. The category decides which field is read; a
/// body without the field degrades to an absent image.
pub fn image_response_to_result(kind_id: u64, body: Option<&str>) -> (r: ResultMsg)
    ensures
        body is None ==> r == (ResultMsg::ImageUpdate { url: None }),
        body matches Some(b) ==> {
            &&& r is ImageUpdate
            &&& match r->ImageUpdate_url {
                Some(v) => exists|i: int, j: int|
                    #[trigger] field_value_at(b@, url_field_spec(kind_id), i, j) && v@
                        == b@.subrange(i + key_pat(url_field_spec(kind_id)).len(), j),
                None => forall|i: int, j: int| !field_value_at(b@, url_field_spec(kind_id), i, j),
            }
        },
{
    match body {
        None => ResultMsg::ImageUpdate { url: None },
        Some(b) => {
            let field = image_url_field(kind_id);
            ResultMsg::ImageUpdate { url: extract_string_field(b, field) }
        },
    }
}

} // verus!
