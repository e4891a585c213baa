//! The text forms that records carry: asset identifiers in hexadecimal, and a
//! list of them as a JSON array.

use vstd::prelude::*;
use crate::model::Bytes32;

verus! {

/// The lower-case hexadecimal digit for a value below sixteen.
pub open spec fn hex_digit(nibble: int) -> char {
    if nibble == 0 {
        '0'
    } else if nibble == 1 {
        '1'
    } else if nibble == 2 {
        '2'
    } else if nibble == 3 {
        '3'
    } else if nibble == 4 {
        '4'
    } else if nibble == 5 {
        '5'
    } else if nibble == 6 {
        '6'
    } else if nibble == 7 {
        '7'
    } else if nibble == 8 {
        '8'
    } else if nibble == 9 {
        '9'
    } else if nibble == 10 {
        'a'
    } else if nibble == 11 {
        'b'
    } else if nibble == 12 {
        'c'
    } else if nibble == 13 {
        'd'
    } else if nibble == 14 {
        'e'
    } else {
        'f'
    }
}

/// Two lower-case hexadecimal digits for each byte, the high half first, with
/// nothing before, between or after them.
pub open spec fn hex_text(bytes: Seq<u8>) -> Seq<char> {
    Seq::new(
        2 * bytes.len(),
        |i: int|
            if i % 2 == 0 {
                hex_digit(bytes[i / 2] as int / 16)
            } else {
                hex_digit(bytes[i / 2] as int % 16)
            },
    )
}

/// A character that a JSON string holds as it is: no control character, no
/// double quote, no backslash.
pub open spec fn is_plain(c: char) -> bool {
    c as u32 >= 0x20 && c != '"' && c != '\\'
}

/// Every character of every token is plain.
pub open spec fn all_plain(tokens: Seq<Seq<char>>) -> bool {
    forall|i: int, j: int|
        0 <= i < tokens.len() && 0 <= j < tokens[i].len() ==> is_plain(#[trigger] tokens[i][j])
}

/// `token` between double quotes.
pub open spec fn quoted(token: Seq<char>) -> Seq<char> {
    seq!['"'] + token + seq!['"']
}

/// The quoted tokens with a comma between neighbours.
pub open spec fn joined(tokens: Seq<Seq<char>>) -> Seq<char>
    decreases tokens.len(),
{
    if tokens.len() == 0 {
        Seq::empty()
    } else if tokens.len() == 1 {
        quoted(tokens[0])
    } else {
        joined(tokens.drop_last()) + seq![','] + quoted(tokens.last())
    }
}

/// The compact JSON array of plain tokens: `["a","b"]`, and `[]` for none.
pub open spec fn json_array_text(tokens: Seq<Seq<char>>) -> Seq<char> {
    seq!['['] + joined(tokens) + seq![']']
}

/// The JSON text that the serializer gives for a list of strings, or `None`
/// where it gives an error.
pub uninterp spec fn serialized(tokens: Seq<Seq<char>>) -> Option<Seq<char>>;

/// `serde_json::Error`: what the serializer says when it refuses a value. It
/// is carried unopened.
#[verifier::external_type_specification]
#[verifier::external_body]
pub struct ExJsonError(serde_json::Error);

/// `<fuel_types::AssetId as ToString>::to_string`, reached through
/// `fuel_indexer_plugin::types`: the identifier's 32 bytes as 64 lower-case
/// hexadecimal digits, without a prefix.
#[verifier::external_body]
pub(crate) fn asset_text(asset: &Bytes32) -> (text: String)
    ensures
        text@ == hex_text(asset@),
{
    fuel_indexer_plugin::types::AssetId::from(*asset).to_string()
}

/// `serde_json::to_value` on the list, then `to_string` of the
/// `serde_json::Value` it gave. Claimed here: whether a text or an error comes
/// back, and which text, depends on the strings alone; and for plain tokens
/// the text is the compact array, since the serializer writes `[`, the strings
/// between double quotes with `,` between neighbours, and `]`, and escapes
/// only control characters, `"` and `\`.
#[verifier::external_body]
pub(crate) fn to_json_text(tokens: &Vec<String>) -> (res: Result<String, serde_json::Error>)
    ensures
        (match res {
            Ok(text) => serialized(tokens.deep_view()) == Some(text@),
            Err(_) => serialized(tokens.deep_view()) is None,
        }),
        all_plain(tokens.deep_view()) ==> (res matches Ok(text) ==> text@ == json_array_text(
            tokens.deep_view(),
        )),
{
    match serde_json::to_value(tokens) {
        Ok(value) => Ok(value.to_string()),
        Err(error) => Err(error),
    }
}

/// Hexadecimal text needs no escaping.
pub proof fn lemma_hex_text_is_plain(bytes: Seq<u8>)
    ensures
        forall|j: int| 0 <= j < hex_text(bytes).len() ==> is_plain(#[trigger] hex_text(bytes)[j]),
        hex_text(bytes).len() == 2 * bytes.len(),
{
    assert forall|j: int| 0 <= j < hex_text(bytes).len() implies is_plain(
        #[trigger] hex_text(bytes)[j],
    ) by {
        let b = bytes[j / 2] as int;
        assert(0 <= b / 16 < 16 && 0 <= b % 16 < 16);
    }
}

} // verus!
