use crate::error::{kind_prefix, outcome, ErrorKind, Failure, PqcError};
use crate::hexcode::{hex_encode, hex_lower};
use crate::kem;
use crate::provider::EncapsulationReply;
use crate::text::{decimal, decimal_string, trim, trimmed};
use vstd::prelude::*;
use vstd::slice::slice_subrange;
use vstd::string::StringSliceAdditionalSpecFns;
use vstd::utf8::{
    decode_utf8, encode_utf8, encode_utf8_decode_utf8, encode_utf8_valid_utf8, is_char_boundary,
    is_char_boundary_iff_not_is_continuation_byte, is_char_boundary_start_end_of_seq,
    valid_utf8_split,
};

verus! {

/// The value of a hexadecimal digit in ASCII, of either case.
pub open spec fn hex_value(digit: u8) -> Option<u8> {
    if 48 <= digit <= 57 {
        Some((digit - 48) as u8)
    } else if 97 <= digit <= 102 {
        Some((digit - 87) as u8)
    } else if 65 <= digit <= 70 {
        Some((digit - 55) as u8)
    } else {
        None
    }
}

/// The byte that a pair of characters stands for: sixteen times the value
/// of the first plus the value of the second, where both are hexadecimal
/// digits, and no byte where either is anything else.
pub open spec fn pair_value(high: u8, low: u8) -> Option<u8> {
    match (hex_value(high), hex_value(low)) {
        (Some(h), Some(l)) => Some((16 * h + l) as u8),
        _ => None,
    }
}

/// Whether the pair of bytes number `k` stands for a byte.
pub open spec fn pair_ok(bytes: Seq<u8>, k: int) -> bool {
    pair_value(bytes[2 * k], bytes[2 * k + 1]) is Some
}

/// The two bytes at `at` as text, where they are characters of their own in
/// `bytes`; no text where they cut a character in two.
pub open spec fn pair_text(bytes: Seq<u8>, at: int) -> Seq<char> {
    if is_char_boundary(bytes, at) && is_char_boundary(bytes, at + 2) {
        decode_utf8(bytes.subrange(at, at + 2))
    } else {
        Seq::empty()
    }
}

/// What decoding hexadecimal text gives, on the text in UTF-8 and with the
/// space around it taken off. An odd number of bytes is refused; then the
/// first pair that stands for no byte is refused, and named where it is text;
/// otherwise each pair gives one byte.
pub open spec fn hex_decoded_bytes(bytes: Seq<u8>) -> Result<Seq<u8>, Failure> {
    if bytes.len() % 2 != 0 {
        Err((ErrorKind::InvalidInput, "Hex string must have even length"@))
    } else if forall|k: int| 0 <= k < bytes.len() / 2 ==> pair_ok(bytes, k) {
        Ok(Seq::new(bytes.len() / 2, |k: int| pair_value(bytes[2 * k], bytes[2 * k + 1])->0))
    } else {
        let bad = choose|k: int|
            0 <= k < bytes.len() / 2 && !pair_ok(bytes, k) && forall|j: int|
                0 <= j < k ==> pair_ok(bytes, j);
        Err((ErrorKind::InvalidInput, "Invalid hex pair: "@ + pair_text(bytes, 2 * bad)))
    }
}

/// What decoding hexadecimal text gives: white space around the text does not
/// count, and what is left is decoded pair by pair.
pub open spec fn hex_decoded(text: Seq<char>) -> Result<Seq<u8>, Failure> {
    hex_decoded_bytes(encode_utf8(trimmed(text)))
}

/// The value of one hexadecimal digit.
fn hex_value_of(digit: u8) -> (value: Option<u8>)
    ensures
        value == hex_value(digit),
{
    if 48 <= digit && digit <= 57 {
        Some(digit - 48)
    } else if 97 <= digit && digit <= 102 {
        Some(digit - 87)
    } else if 65 <= digit && digit <= 70 {
        Some(digit - 55)
    } else {
        None
    }
}

/// The byte that a pair of characters stands for.
fn pair_value_of(high: u8, low: u8) -> (value: Option<u8>)
    ensures
        value == pair_value(high, low),
{
    match (hex_value_of(high), hex_value_of(low)) {
        (Some(h), Some(l)) => Some(16 * h + l),
        _ => None,
    }
}

/// The two bytes at `at` as text.
fn pair_text_of<'a>(cleaned: &'a str, at: usize) -> (text: &'a str)
    requires
        at + 2 <= cleaned.spec_bytes().len(),
        at + 2 <= usize::MAX,
    ensures
        text@ == pair_text(cleaned.spec_bytes(), at as int),
{
    let ghost bytes = cleaned.spec_bytes();
    proof {
        encode_utf8_valid_utf8(cleaned@);
    }
    if cleaned.is_char_boundary(at) && cleaned.is_char_boundary(at + 2) {
        let (_, tail) = cleaned.split_at(at);
        proof {
            let rest = bytes.subrange(at as int, bytes.len() as int);
            valid_utf8_split(bytes, at as int);
            assert(tail.spec_bytes() =~= rest);
            if at + 2 < bytes.len() {
                is_char_boundary_iff_not_is_continuation_byte(bytes, at + 2);
                is_char_boundary_iff_not_is_continuation_byte(rest, 2);
            } else {
                is_char_boundary_start_end_of_seq(rest);
            }
        }
        let (pair, _) = tail.split_at(2);
        proof {
            assert(pair.spec_bytes() =~= bytes.subrange(at as int, at + 2));
            encode_utf8_decode_utf8(pair@);
        }
        pair
    } else {
        let text = "";
        proof {
            reveal_strlit("");
            assert(text@ =~= Seq::<char>::empty());
        }
        text
    }
}

/// Decodes hexadecimal text into bytes. The result is `hex_decoded` of the
/// text: white space around it does not count, an odd length and a pair that
/// is no byte are invalid input, and otherwise every pair gives its byte.
pub fn hex_to_bytes(hex_str: &str) -> (r: Result<Vec<u8>, PqcError>)
    ensures
        outcome(r) == hex_decoded(hex_str@),
{
    let cleaned = trim(hex_str);
    let bytes = cleaned.as_bytes();
    if bytes.len() % 2 != 0 {
        return Err(PqcError::InvalidInput("Hex string must have even length".to_owned()));
    }
    let mut decoded: Vec<u8> = Vec::new();
    let mut i: usize = 0;
    while i < bytes.len()
        invariant
            bytes@ == encode_utf8(trimmed(hex_str@)),
            bytes@ == cleaned.spec_bytes(),
            bytes@.len() % 2 == 0,
            i % 2 == 0,
            i <= bytes@.len(),
            decoded@.len() == i / 2,
            forall|k: int|
                0 <= k < i / 2 ==> pair_value(bytes@[2 * k], bytes@[2 * k + 1]) == Some(
                    #[trigger] decoded@[k],
                ),
        decreases bytes@.len() - i,
    {
        match pair_value_of(bytes[i], bytes[i + 1]) {
            Some(value) => {
                decoded.push(value);
            },
            None => {
                let mut detail = String::from_str("Invalid hex pair: ");
                detail.append(pair_text_of(cleaned, i));
                proof {
                    let at = i as int / 2;
                    assert(!pair_ok(bytes@, at));
                    assert forall|j: int| 0 <= j < at implies pair_ok(bytes@, j) by {
                        assert(pair_value(bytes@[2 * j], bytes@[2 * j + 1]) == Some(decoded@[j]));
                    }
                    let bad = choose|k: int|
                        0 <= k < bytes@.len() / 2 && !pair_ok(bytes@, k) && forall|j: int|
                            0 <= j < k ==> pair_ok(bytes@, j);
                    assert(bad == at);
                }
                return Err(PqcError::InvalidInput(detail));
            },
        }
        i = i + 2;
    }
    proof {
        assert forall|k: int| 0 <= k < bytes@.len() / 2 implies pair_ok(bytes@, k) by {
            assert(pair_value(bytes@[2 * k], bytes@[2 * k + 1]) == Some(decoded@[k]));
        }
        assert(decoded@ =~= Seq::new(
            bytes@.len() / 2,
            |k: int| pair_value(bytes@[2 * k], bytes@[2 * k + 1])->0,
        ));
    }
    Ok(decoded)
}

/// What reading a seed file gave.
#[derive(Debug)]
pub enum FileRead {
    /// There is no file of that name.
    Missing,
    /// The file is there and could not be read as text; the text is the
    /// system's account of why.
    Unreadable(String),
    /// The text of the file.
    Text(String),
}

/// What loading a seed file gives, from the file's name and from what reading
/// it gave: an I/O error that names the file where there is none, an I/O error
/// with the system's account where it could not be read, and otherwise what
/// decoding its text as hexadecimal gives.
pub open spec fn loaded(file_path: Seq<char>, read: FileRead) -> Result<Seq<u8>, Failure> {
    match read {
        FileRead::Missing => Err((ErrorKind::Io, "File not found: "@ + file_path)),
        FileRead::Unreadable(why) => Err((ErrorKind::Io, "Failed to read file: "@ + why@)),
        FileRead::Text(text) => hex_decoded(text@),
    }
}

/// Loads the bytes of a seed file from what reading the file gave. The result
/// is `loaded` of the file's name and the reading.
pub fn load_kyber_binary(file_path: &str, read: FileRead) -> (r: Result<Vec<u8>, PqcError>)
    ensures
        outcome(r) == loaded(file_path@, read),
{
    match read {
        FileRead::Missing => {
            let mut detail = String::from_str("File not found: ");
            detail.append(file_path);
            Err(PqcError::Io(detail))
        },
        FileRead::Unreadable(why) => {
            let mut detail = String::from_str("Failed to read file: ");
            detail.append(why.as_str());
            Err(PqcError::Io(detail))
        },
        FileRead::Text(text) => hex_to_bytes(text.as_str()),
    }
}

/// What a length says of the kind of key that data of this length may be.
pub open spec fn size_note(len: nat) -> Seq<char> {
    if len == 1568 {
        "- Matches Kyber1024 public key size\n"@
    } else if len == 3168 {
        "- Matches Kyber1024 secret key size\n"@
    } else if len == 800 {
        "- Matches Kyber512 public key size\n"@
    } else if len == 1632 {
        "- Matches Kyber512 secret key size\n"@
    } else if len == 1184 {
        "- Matches Kyber768 public key size\n"@
    } else if len == 2400 {
        "- Matches Kyber768 secret key size\n"@
    } else if len == 256 {
        "- Matches 256-byte data (custom format?)\n"@
    } else {
        "- Non-standard size for Kyber keys\n"@
    }
}

/// How many bytes of data of the given length an analysis shows at each end:
/// all of them, and at most 32.
pub open spec fn shown_len(len: nat) -> nat {
    if len < 32 {
        len
    } else {
        32
    }
}

/// The analysis of loaded data: its length, its first and its last bytes in
/// hexadecimal, and what its length says of it.
pub open spec fn analysis_text(data: Seq<u8>) -> Seq<char> {
    "Kyber Binary Analysis:\n- Data size: "@ + decimal(data.len()) + " bytes\n- First 32 bytes (hex): "@
        + hex_lower(data.take(shown_len(data.len()) as int)) + "\n- Last 32 bytes (hex): "@
        + hex_lower(data.skip(data.len() - shown_len(data.len()))) + "\n"@ + size_note(data.len())
}

/// The line that says what the length of the data matches.
fn size_note_of(len: usize) -> (note: &'static str)
    ensures
        note@ == size_note(len as nat),
{
    if len == 1568 {
        "- Matches Kyber1024 public key size\n"
    } else if len == 3168 {
        "- Matches Kyber1024 secret key size\n"
    } else if len == 800 {
        "- Matches Kyber512 public key size\n"
    } else if len == 1632 {
        "- Matches Kyber512 secret key size\n"
    } else if len == 1184 {
        "- Matches Kyber768 public key size\n"
    } else if len == 2400 {
        "- Matches Kyber768 secret key size\n"
    } else if len == 256 {
        "- Matches 256-byte data (custom format?)\n"
    } else {
        "- Non-standard size for Kyber keys\n"
    }
}

/// Describes loaded data: the result is `analysis_text` of it.
pub fn analyze_kyber_data(data: &[u8]) -> (analysis: String)
    ensures
        analysis@ == analysis_text(data@),
{
    let shown: usize = if data.len() < 32 {
        data.len()
    } else {
        32
    };
    let size = decimal_string(data.len() as u128);
    let first = hex_encode(slice_subrange(data, 0, shown));
    let last = hex_encode(slice_subrange(data, data.len() - shown, data.len()));
    let mut analysis = String::from_str("Kyber Binary Analysis:\n- Data size: ");
    analysis.append(size.as_str());
    analysis.append(" bytes\n- First 32 bytes (hex): ");
    analysis.append(first.as_str());
    analysis.append("\n- Last 32 bytes (hex): ");
    analysis.append(last.as_str());
    analysis.append("\n");
    analysis.append(size_note_of(data.len()));
    proof {
        assert(data@.subrange(0, shown as int) =~= data@.take(shown as int));
        assert(data@.subrange(data@.len() - shown, data@.len() as int) =~= data@.skip(
            data@.len() - shown,
        ));
        assert(analysis@ =~= analysis_text(data@));
    }
    analysis
}

/// What the trial of data as a KEM public key says, from what the provider's
/// encapsulation against the data answered: the lengths of what came back, or
/// the encryption error that the fault makes.
pub open spec fn trial_text(encapsulation: EncapsulationReply) -> Seq<char> {
    match encapsulation {
        Ok((ciphertext, shared_secret)) =>
            "Successfully used as Kyber public key!\n- Ciphertext size: "@ + decimal(
                ciphertext@.len(),
            ) + " bytes\n- Shared secret size: "@ + decimal(shared_secret@.len()) + " bytes\n"@,
        Err(fault) => "Failed to use as Kyber public key: "@ + kind_prefix(ErrorKind::Encryption)
            + fault.detail() + "\n"@,
    }
}

/// The report on loaded data: its analysis, then the trial as a KEM public
/// key.
pub open spec fn compatibility_text(data: Seq<u8>, encapsulation: EncapsulationReply) -> Seq<char> {
    analysis_text(data) + "\nCompatibility Test:\n"@ + trial_text(encapsulation)
}

/// Reports whether loaded data can serve as a KEM public key. `encapsulation`
/// is what the provider answered when asked to encapsulate against the data.
/// The call always succeeds, with `compatibility_text` of the two.
pub fn test_kyber_binary_compatibility(
    data: &[u8],
    encapsulation: EncapsulationReply,
) -> (r: Result<String, PqcError>)
    ensures
        r matches Ok(report) && report@ == compatibility_text(data@, encapsulation),
{
    let mut report = analyze_kyber_data(data);
    report.append("\nCompatibility Test:\n");
    match kem::encapsulate(encapsulation) {
        Ok((ciphertext, shared_secret)) => {
            let ciphertext_size = decimal_string(ciphertext.len() as u128);
            let secret_size = decimal_string(shared_secret.len() as u128);
            report.append("Successfully used as Kyber public key!\n- Ciphertext size: ");
            report.append(ciphertext_size.as_str());
            report.append(" bytes\n- Shared secret size: ");
            report.append(secret_size.as_str());
            report.append(" bytes\n");
        },
        Err(e) => {
            let message = e.message();
            report.append("Failed to use as Kyber public key: ");
            report.append(message.as_str());
            report.append("\n");
        },
    }
    proof {
        assert(report@ =~= compatibility_text(data@, encapsulation));
    }
    Ok(report)
}

} // verus!
