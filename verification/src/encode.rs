use vstd::prelude::*;
use vstd::string::StringExecFns;

verus! {

/// The standard, padded base64 rendering of a byte sequence. The full
/// definition is the encoder's; it depends on the bytes alone.
pub uninterp spec fn base64_of(bytes: Seq<u8>) -> Seq<char>;

/// The lossy UTF-8 reading of a byte sequence: invalid sequences come back as
/// replacement characters. It depends on the bytes alone.
pub uninterp spec fn utf8_lossy_of(bytes: Seq<u8>) -> Seq<char>;

/// Relies on base64's standard engine: a padded encoding that is a function of
/// the input bytes alone, four output characters for every started group of
/// three input bytes (`encoded_len` with padding).
#[verifier::external_body]
pub fn base64_encode(data: &Vec<u8>) -> (r: String)
    ensures
        r@ == base64_of(data@),
        r@.len() == 4 * ((data@.len() + 2) / 3),
{
    base64::engine::Engine::encode(&base64::engine::general_purpose::STANDARD, data.as_slice())
}

/// Relies on String::from_utf8_lossy: the result is a function of the bytes
/// alone, and bytes that are all ASCII decode to exactly those characters.
#[verifier::external_body]
pub fn utf8_lossy_decode(data: &Vec<u8>) -> (r: String)
    ensures
        r@ == utf8_lossy_of(data@),
        (forall|i: int| 0 <= i < data@.len() ==> data@[i] < 128) ==> r@ == data@.map_values(
            |b: u8| b as char,
        ),
{
    String::from_utf8_lossy(data.as_slice()).into_owned()
}

/// Where the blob store keeps the archive for a given package id.
pub open spec fn blob_path_view(id: Seq<char>) -> Seq<char> {
    "mods/"@ + id + ".gz"@
}

/// Builds the blob store location for `id`, the fixed root followed by the id
/// and the archive suffix.
pub fn blob_path(id: &String) -> (r: String)
    ensures
        r@ == blob_path_view(id@),
{
    let mut r = String::from_str("mods/");
    r.append(id.as_str());
    r.append(".gz");
    r
}

} // verus!
