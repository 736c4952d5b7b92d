//! Identity resolution: the playable characters behind a game session, the
//! claims of the id token, and the resolved account.
//!
//! The id token's signature is not verified here: the token was obtained
//! over the provider's own authenticated channel, which the design treats
//! as sufficient. The nonce claim is still checked against the flow's
//! nonce.

use vstd::prelude::*;
use vstd::string::StringSliceAdditionalSpecFns;
use crate::bytes::{split_on, split_bytes, bytes_eq};
use crate::b64::{b64url_decoded, b64url_decode};
use crate::jsonio::{
    json_str_field_of, json_rows_of, rows_view, json_str_field, json_str_rows,
};
use crate::token::{is_success_status, provider_error_result, provider_error};
use crate::error::Error;

verus! {

/// One playable character as the characters endpoint lists it. The
/// membership flag is not derived from the response: the endpoint carries
/// no such field here, so it is uniformly false.
#[derive(Debug, Clone)]
pub struct GameCharacter {
    pub account_id: Vec<u8>,
    pub display_name: Vec<u8>,
    pub user_hash: Vec<u8>,
    pub is_members: bool,
}

/// The characters endpoint.
pub open spec fn characters_url() -> Seq<u8> {
    "https://auth.jagex.com/game-session/v1/accounts".spec_bytes()
}

pub fn characters_url_bytes() -> (r: Vec<u8>)
    ensures
        r@ == characters_url(),
{
    crate::bytes::str_bytes("https://auth.jagex.com/game-session/v1/accounts")
}

/// The rows the characters endpoint's body yields: account id, display
/// name and user hash of each entry, in response order.
pub open spec fn character_rows_of(body: Seq<u8>) -> Option<Seq<(Seq<u8>, Seq<u8>, Seq<u8>)>> {
    json_rows_of(body, "accountId"@, "displayName"@, "userHash"@)
}

/// Reads the characters endpoint's response: one character per entry, in
/// response order, each with the membership flag false; a non-2xx status
/// surfaces the provider's error.
pub fn characters(status: u16, body: &[u8]) -> (r: Result<Vec<GameCharacter>, Error>)
    ensures
        match r {
            Ok(cs) => {
                &&& is_success_status(status)
                &&& character_rows_of(body@) matches Some(rows) && cs@.len() == rows.len()
                    && (forall|i: int|
                    0 <= i < rows.len() ==> {
                        &&& (#[trigger] cs@[i]).account_id@ == rows[i].0
                        &&& cs@[i].display_name@ == rows[i].1
                        &&& cs@[i].user_hash@ == rows[i].2
                        &&& cs@[i].is_members == false
                    })
            },
            Err(e) => {
                ||| (!is_success_status(status) && provider_error_result(body@, e))
                ||| (is_success_status(status) && character_rows_of(body@) is None
                    && e is MalformedResponse)
            },
        },
{
    if !(200 <= status && status < 300) {
        return Err(provider_error(body));
    }
    let rows = match json_str_rows(body, "accountId", "displayName", "userHash") {
        Some(v) => v,
        None => {
            return Err(Error::MalformedResponse);
        },
    };
    let mut cs: Vec<GameCharacter> = Vec::new();
    let n = rows.len();
    for i in 0..n
        invariant
            n == rows@.len(),
            character_rows_of(body@) == Some(rows_view(rows@)),
            cs@.len() == i,
            forall|j: int|
                0 <= j < i ==> {
                    &&& (#[trigger] cs@[j]).account_id@ == rows_view(rows@)[j].0
                    &&& cs@[j].display_name@ == rows_view(rows@)[j].1
                    &&& cs@[j].user_hash@ == rows_view(rows@)[j].2
                    &&& cs@[j].is_members == false
                },
    {
        let row = &rows[i];
        cs.push(
            GameCharacter {
                account_id: vstd::slice::slice_to_vec(row.0.as_slice()),
                display_name: vstd::slice::slice_to_vec(row.1.as_slice()),
                user_hash: vstd::slice::slice_to_vec(row.2.as_slice()),
                is_members: false,
            },
        );
    }
    Ok(cs)
}

/// The payload a JWT carries: the base64url-decoded middle part of its
/// three dot-separated parts; nothing when the structure is not that of a
/// JWT.
pub open spec fn claims_payload_of(token: Seq<u8>) -> Option<Seq<u8>> {
    if split_on(token, 46u8).len() == 3 {
        b64url_decoded(split_on(token, 46u8)[1])
    } else {
        None
    }
}

/// Decodes a JWT's payload without verifying its signature.
pub fn decode_jwt_payload(token: &[u8]) -> (r: Result<Vec<u8>, Error>)
    ensures
        match r {
            Ok(p) => claims_payload_of(token@) == Some(p@),
            Err(e) => e is InvalidJwt && claims_payload_of(token@) is None,
        },
{
    let parts = split_bytes(token, 46u8);
    if parts.len() != 3 {
        return Err(Error::InvalidJwt);
    }
    proof {
        assert(parts.deep_view()[1] =~= parts@[1]@);
    }
    match b64url_decode(parts[1].as_slice()) {
        Some(p) => Ok(p),
        None => Err(Error::InvalidJwt),
    }
}

/// The subject and nickname claims of an id token, provided its payload
/// decodes, both claims are present, and its nonce claim matches the
/// flow's nonce.
pub fn id_token_claims(id_token: &[u8], expected_nonce: &[u8]) -> (r: Result<
    (Vec<u8>, Vec<u8>),
    Error,
>)
    ensures
        match r {
            Ok(p) => claims_payload_of(id_token@) matches Some(pl) && json_str_field_of(pl, "sub"@)
                == Some(p.0@) && json_str_field_of(pl, "nickname"@) == Some(p.1@)
                && json_str_field_of(pl, "nonce"@) == Some(expected_nonce@),
            Err(e) => {
                ||| (claims_payload_of(id_token@) is None && e is InvalidJwt)
                ||| (claims_payload_of(id_token@) matches Some(pl) && (json_str_field_of(pl, "sub"@)
                    is None || json_str_field_of(pl, "nickname"@) is None || json_str_field_of(
                    pl,
                    "nonce"@,
                ) is None) && e is MalformedResponse)
                ||| (claims_payload_of(id_token@) matches Some(pl) && json_str_field_of(pl, "nonce"@)
                    matches Some(nc) && nc != expected_nonce@ && e is InvalidJwt)
            },
        },
{
    let payload = decode_jwt_payload(id_token)?;
    let sub = match json_str_field(payload.as_slice(), "sub") {
        Some(v) => v,
        None => {
            return Err(Error::MalformedResponse);
        },
    };
    let nickname = match json_str_field(payload.as_slice(), "nickname") {
        Some(v) => v,
        None => {
            return Err(Error::MalformedResponse);
        },
    };
    let nonce = match json_str_field(payload.as_slice(), "nonce") {
        Some(v) => v,
        None => {
            return Err(Error::MalformedResponse);
        },
    };
    if !bytes_eq(nonce.as_slice(), expected_nonce) {
        return Err(Error::InvalidJwt);
    }
    Ok((sub, nickname))
}

/// The resolved account metadata: claims from the id token together with
/// the canonical display name from the display-name endpoint.
#[derive(Debug, Clone)]
pub struct AccountInfo {
    pub nickname: Vec<u8>,
    pub display_name: Vec<u8>,
    pub id: Vec<u8>,
    pub user_id: Vec<u8>,
    pub email: Option<Vec<u8>>,
}

/// Reads the display-name endpoint's response and assembles the account
/// info around the nickname claim. The email is never populated here.
pub fn account_info(nickname: Vec<u8>, status: u16, body: &[u8]) -> (r: Result<AccountInfo, Error>)
    ensures
        match r {
            Ok(info) => {
                &&& is_success_status(status)
                &&& info.nickname@ == nickname@
                &&& json_str_field_of(body@, "displayName"@) == Some(info.display_name@)
                &&& json_str_field_of(body@, "id"@) == Some(info.id@)
                &&& json_str_field_of(body@, "userId"@) == Some(info.user_id@)
                &&& info.email is None
            },
            Err(e) => {
                ||| (!is_success_status(status) && provider_error_result(body@, e))
                ||| (is_success_status(status) && (json_str_field_of(body@, "displayName"@) is None
                    || json_str_field_of(body@, "id"@) is None || json_str_field_of(
                    body@,
                    "userId"@,
                ) is None) && e is MalformedResponse)
            },
        },
{
    if !(200 <= status && status < 300) {
        return Err(provider_error(body));
    }
    let display_name = match json_str_field(body, "displayName") {
        Some(v) => v,
        None => {
            return Err(Error::MalformedResponse);
        },
    };
    let id = match json_str_field(body, "id") {
        Some(v) => v,
        None => {
            return Err(Error::MalformedResponse);
        },
    };
    let user_id = match json_str_field(body, "userId") {
        Some(v) => v,
        None => {
            return Err(Error::MalformedResponse);
        },
    };
    Ok(AccountInfo { nickname, display_name, id, user_id, email: None })
}

/// The display-name endpoint for a subject id.
pub fn display_name_url(sub: &[u8]) -> (r: Vec<u8>)
    ensures
        r@ == "https://api.jagex.com/v1/users/".spec_bytes() + sub@ + "/displayName".spec_bytes(),
{
    let mut r = crate::bytes::str_bytes("https://api.jagex.com/v1/users/");
    let mut mid = vstd::slice::slice_to_vec(sub);
    r.append(&mut mid);
    let mut end = crate::bytes::str_bytes("/displayName");
    r.append(&mut end);
    r
}

/// The terminal artifact of a login: account identity and the playable
/// characters.
#[derive(Debug, Clone)]
pub struct Account {
    pub email: Vec<u8>,
    pub account_name: Vec<u8>,
    pub characters: Vec<GameCharacter>,
}

/// Assembles the final account exactly as the pipeline publishes it: the
/// nickname claim stands as the email, the canonical display name as the
/// account name.
pub fn assemble_account(info: AccountInfo, characters: Vec<GameCharacter>) -> (r: Account)
    ensures
        r.email@ == info.nickname@,
        r.account_name@ == info.display_name@,
        r.characters == characters,
{
    Account { email: info.nickname, account_name: info.display_name, characters }
}

} // verus!
