//! The requests that the server sends to the Spotify Web API.

use vstd::prelude::*;
use crate::models::spotify_api::{Authenticate, RefreshAccountData};
use crate::text::{decimal, decimal_denotes_its_number, digits_value, push_decimal};

verus! {

/// Where authorization codes and refresh tokens are exchanged for tokens.
pub const ENDPOINT_AUTH_TOKEN: &'static str = "https://accounts.spotify.com/api/token";

/// Where the signed-in user's profile is read.
pub const ENDPOINT_ME: &'static str = "https://api.spotify.com/v1/me";

/// Where tracks are searched.
pub const ENDPOINT_SEARCH: &'static str = "https://api.spotify.com/v1/search";

/// The content type of the forms sent to the token endpoint.
pub const FORM_CONTENT_TYPE: &'static str = "application/x-www-form-urlencoded";

/// The page of the front end that Spotify sends the user back to.
pub const CALLBACK_PAGE: &'static str = "/callback.html";

/// The form that exchanges the authorization code `code`, with the
/// redirect address on the server at `backend_url`.
pub fn authenticate_form(code: String, backend_url: &str, client_id: String, client_secret: String) -> (r:
    Authenticate)
    ensures
        r.grant_type@ == "authorization_code"@,
        r.code == code,
        r.redirect_uri@ == backend_url@ + CALLBACK_PAGE@,
        r.client_id == client_id,
        r.client_secret == client_secret,
{
    let mut redirect_uri = String::from_str(backend_url);
    redirect_uri.append(CALLBACK_PAGE);
    Authenticate {
        grant_type: String::from_str("authorization_code"),
        code,
        redirect_uri,
        client_id,
        client_secret,
    }
}

/// The form that refreshes an account's access token with its refresh token.
pub fn refresh_form(refresh_token: String, client_id: String, client_secret: String) -> (r:
    RefreshAccountData)
    ensures
        r.refresh_token == refresh_token,
        r.grant_type@ == "refresh_token"@,
        r.client_id == client_id,
        r.client_secret == client_secret,
{
    RefreshAccountData {
        refresh_token,
        grant_type: String::from_str("refresh_token"),
        client_id,
        client_secret,
    }
}

#[verifier::external_type_specification]
#[verifier::external_body]
pub struct ExFormError(serde_urlencoded::ser::Error);

/// Bytes that stand in a form as they are: ASCII letters and digits and
/// `*`, `-`, `.`, `_`.
pub open spec fn form_byte_unchanged(b: u8) -> bool {
    ||| b == 42
    ||| b == 45
    ||| b == 46
    ||| b == 95
    ||| 48 <= b <= 57
    ||| 65 <= b <= 90
    ||| 97 <= b <= 122
}

/// The upper-case hexadecimal digit of `d`, for `d` in `0..16`.
pub open spec fn upper_hex_digit(d: nat) -> char {
    if d < 10 {
        ((d + 48) as u8) as char
    } else {
        ((d + 55) as u8) as char
    }
}

/// How a byte stands in a form: as it is, `+` for a space, otherwise `%`
/// and two upper-case hexadecimal digits.
pub open spec fn form_encoded_byte(b: u8) -> Seq<char> {
    if form_byte_unchanged(b) {
        seq![b as char]
    } else if b == 32 {
        seq!['+']
    } else {
        seq!['%', upper_hex_digit((b / 16) as nat), upper_hex_digit((b % 16) as nat)]
    }
}

/// The bytes of a text, each as it stands in a form.
pub open spec fn form_encoded_bytes(bytes: Seq<u8>) -> Seq<char>
    decreases bytes.len(),
{
    if bytes.len() == 0 {
        Seq::empty()
    } else {
        form_encoded_bytes(bytes.drop_last()) + form_encoded_byte(bytes.last())
    }
}

/// A text as it stands in a form: its UTF-8 bytes, encoded one by one.
pub open spec fn form_encoded_text(s: Seq<char>) -> Seq<char> {
    form_encoded_bytes(vstd::utf8::encode_utf8(s))
}

/// One name and value of a form: `name=value`, both encoded.
pub open spec fn form_pair(pair: (Seq<char>, Seq<char>)) -> Seq<char> {
    form_encoded_text(pair.0) + seq!['='] + form_encoded_text(pair.1)
}

/// The `application/x-www-form-urlencoded` text of a list of name and value
/// pairs: the pairs in order, separated by `&`.
pub open spec fn form_urlencoded(pairs: Seq<(Seq<char>, Seq<char>)>) -> Seq<char>
    decreases pairs.len(),
{
    if pairs.len() == 0 {
        Seq::empty()
    } else if pairs.len() == 1 {
        form_pair(pairs[0])
    } else {
        form_urlencoded(pairs.drop_last()) + seq!['&'] + form_pair(pairs.last())
    }
}

/// The text of each name and value of a list of pairs.
pub open spec fn pair_views(pairs: Seq<(String, String)>) -> Seq<(Seq<char>, Seq<char>)> {
    pairs.map_values(|p: (String, String)| (p.0@, p.1@))
}

/// Calls `serde_urlencoded::to_string` on a list of pairs of strings. Its
/// source serialises each pair (a tuple of two strings, which its pair
/// serialiser takes) with `form_urlencoded`'s `append_pair`, which cannot
/// fail, so the result is always `Ok`: the pairs in order, `&` between them,
/// each `name=value` with the UTF-8 bytes of both encoded by
/// `form_urlencoded`'s byte serialiser.
#[verifier::external_body]
fn encode_form(pairs: &Vec<(String, String)>) -> (r: Result<String, serde_urlencoded::ser::Error>)
    ensures
        r is Ok,
        r->Ok_0@ == form_urlencoded(pair_views(pairs@)),
{
    serde_urlencoded::to_string(pairs)
}

/// The fields of the code-exchange form, in order.
pub open spec fn authenticate_pairs(form: Authenticate) -> Seq<(Seq<char>, Seq<char>)> {
    seq![
        ("grant_type"@, form.grant_type@),
        ("code"@, form.code@),
        ("redirect_uri"@, form.redirect_uri@),
        ("client_id"@, form.client_id@),
        ("client_secret"@, form.client_secret@),
    ]
}

/// The fields of the refresh form, in order.
pub open spec fn refresh_pairs(form: RefreshAccountData) -> Seq<(Seq<char>, Seq<char>)> {
    seq![
        ("refresh_token"@, form.refresh_token@),
        ("grant_type"@, form.grant_type@),
        ("client_id"@, form.client_id@),
        ("client_secret"@, form.client_secret@),
    ]
}

/// The body sent to exchange an authorization code: the form's fields,
/// url-encoded in order.
pub fn authenticate_body(form: &Authenticate) -> (r: String)
    ensures
        r@ == form_urlencoded(authenticate_pairs(*form)),
{
    let mut pairs: Vec<(String, String)> = Vec::new();
    pairs.push((String::from_str("grant_type"), form.grant_type.clone()));
    pairs.push((String::from_str("code"), form.code.clone()));
    pairs.push((String::from_str("redirect_uri"), form.redirect_uri.clone()));
    pairs.push((String::from_str("client_id"), form.client_id.clone()));
    pairs.push((String::from_str("client_secret"), form.client_secret.clone()));
    assert(pair_views(pairs@) =~= authenticate_pairs(*form));
    match encode_form(&pairs) {
        Ok(body) => body,
        Err(_) => {
            proof {
                assert(false);
            }
            String::new()
        },
    }
}

/// The body sent to refresh an access token: the form's fields,
/// url-encoded in order.
pub fn refresh_body(form: &RefreshAccountData) -> (r: String)
    ensures
        r@ == form_urlencoded(refresh_pairs(*form)),
{
    let mut pairs: Vec<(String, String)> = Vec::new();
    pairs.push((String::from_str("refresh_token"), form.refresh_token.clone()));
    pairs.push((String::from_str("grant_type"), form.grant_type.clone()));
    pairs.push((String::from_str("client_id"), form.client_id.clone()));
    pairs.push((String::from_str("client_secret"), form.client_secret.clone()));
    assert(pair_views(pairs@) =~= refresh_pairs(*form));
    match encode_form(&pairs) {
        Ok(body) => body,
        Err(_) => {
            proof {
                assert(false);
            }
            String::new()
        },
    }
}

/// The `Authorization` header value for an access token.
pub fn bearer_authorization(access_token: &str) -> (r: String)
    ensures
        r@ == "Bearer "@ + access_token@,
{
    let mut r = String::from_str("Bearer ");
    r.append(access_token);
    r
}

/// The address of a search: ten tracks of the French market matching
/// `query`, from position `offset` on. The query is put in as it stands.
pub open spec fn search_url_text(query: Seq<char>, offset: u16) -> Seq<char> {
    ENDPOINT_SEARCH@ + "?q="@ + query + "&type="@ + "track"@ + "&market="@ + "FR"@ + "&limit="@
        + "10"@ + "&offset="@ + decimal(offset as nat)
}

/// A search address asks Spotify for the requested offset itself: the
/// address for `offset` is the address for offset 0, which ends in
/// `&offset=0`, with that `0` replaced by the decimal notation of `offset`,
/// which denotes `offset`.
pub proof fn search_url_asks_for_the_requested_offset(query: Seq<char>, offset: u16)
    ensures
        search_url_text(query, offset) == search_url_text(query, 0).drop_last() + decimal(
            offset as nat,
        ),
        search_url_text(query, 0).len() >= 9,
        search_url_text(query, 0).skip(search_url_text(query, 0).len() - 9) == "&offset=0"@,
        digits_value(decimal(offset as nat)) == offset,
{
    decimal_denotes_its_number(offset as nat);
    decimal_denotes_its_number(0);
    reveal_strlit("&offset=");
    reveal_strlit("&offset=0");
    let head = ENDPOINT_SEARCH@ + "?q="@ + query + "&type="@ + "track"@ + "&market="@ + "FR"@
        + "&limit="@ + "10"@;
    assert(search_url_text(query, 0) == head + "&offset="@ + seq!['0']);
    assert(search_url_text(query, 0).drop_last() =~= head + "&offset="@);
    assert(search_url_text(query, 0).skip(search_url_text(query, 0).len() - 9) =~= "&offset=0"@);
}

/// The address of a search for `query` from position `offset` on.
pub fn search_url(query: &str, offset: u16) -> (r: String)
    ensures
        r@ == search_url_text(query@, offset),
{
    let mut r = String::from_str(ENDPOINT_SEARCH);
    r.append("?q=");
    r.append(query);
    r.append("&type=");
    r.append("track");
    r.append("&market=");
    r.append("FR");
    r.append("&limit=");
    r.append("10");
    r.append("&offset=");
    push_decimal(&mut r, offset as u64);
    r
}

} // verus!
