use crate::hexcode::{hex_encode, hex_lower};
use crate::text::{decimal, decimal_string};
use vstd::prelude::*;
use vstd::slice::slice_subrange;

verus! {

/// What the first bytes of data say of its format.
#[derive(Debug, Clone, Copy, PartialEq, Eq, Structural)]
pub enum BinaryKind {
    /// An ELF executable.
    Elf,
    /// A Mach-O executable.
    MachO,
    /// A PE executable.
    Pe,
    /// Nothing but hexadecimal digits.
    HexText,
    /// None of these.
    Unknown,
}

/// Whether a byte is a hexadecimal digit in ASCII, of either case.
pub open spec fn is_hex_digit(byte: u8) -> bool {
    48 <= byte <= 57 || 97 <= byte <= 102 || 65 <= byte <= 70
}

/// The format of data of more than four bytes: an executable where the first
/// bytes are the mark of one, else hexadecimal text where every byte is a
/// digit. Shorter data has no format.
pub open spec fn binary_kind(data: Seq<u8>) -> Option<BinaryKind> {
    if data.len() <= 4 {
        None
    } else if data[0] == 0x7f && data[1] == 0x45 && data[2] == 0x4c && data[3] == 0x46 {
        Some(BinaryKind::Elf)
    } else if data[0] == 0xfe && data[1] == 0xed && data[2] == 0xfa && (data[3] == 0xce || data[3]
        == 0xcf) {
        Some(BinaryKind::MachO)
    } else if data[0] == 0x4d && data[1] == 0x5a {
        Some(BinaryKind::Pe)
    } else if forall|i: int| 0 <= i < data.len() ==> is_hex_digit(#[trigger] data[i]) {
        Some(BinaryKind::HexText)
    } else {
        Some(BinaryKind::Unknown)
    }
}

/// Whether every byte of the data is a hexadecimal digit.
fn all_hex_digits(data: &[u8]) -> (all: bool)
    ensures
        all == forall|i: int| 0 <= i < data@.len() ==> is_hex_digit(#[trigger] data@[i]),
{
    let mut i: usize = 0;
    while i < data.len()
        invariant
            i <= data@.len(),
            forall|k: int| 0 <= k < i ==> is_hex_digit(#[trigger] data@[k]),
        decreases data@.len() - i,
    {
        let byte = data[i];
        let digit = (48 <= byte && byte <= 57) || (97 <= byte && byte <= 102) || (65 <= byte
            && byte <= 70);
        if !digit {
            return false;
        }
        i = i + 1;
    }
    true
}

/// Tells the format of data from its first bytes: `binary_kind` of it.
pub fn classify(data: &[u8]) -> (kind: Option<BinaryKind>)
    ensures
        kind == binary_kind(data@),
{
    if data.len() <= 4 {
        None
    } else if data[0] == 0x7f && data[1] == 0x45 && data[2] == 0x4c && data[3] == 0x46 {
        Some(BinaryKind::Elf)
    } else if data[0] == 0xfe && data[1] == 0xed && data[2] == 0xfa && (data[3] == 0xce || data[3]
        == 0xcf) {
        Some(BinaryKind::MachO)
    } else if data[0] == 0x4d && data[1] == 0x5a {
        Some(BinaryKind::Pe)
    } else if all_hex_digits(data) {
        Some(BinaryKind::HexText)
    } else {
        Some(BinaryKind::Unknown)
    }
}

/// How often `byte` occurs in `data`.
pub open spec fn occurrences(data: Seq<u8>, byte: u8) -> nat
    decreases data.len(),
{
    if data.len() == 0 {
        0
    } else {
        occurrences(data.drop_last(), byte) + if data.last() == byte {
            1nat
        } else {
            0nat
        }
    }
}

/// No byte occurs more often than the data is long.
pub proof fn lemma_occurrences_bounded(data: Seq<u8>, byte: u8)
    ensures
        occurrences(data, byte) <= data.len(),
    decreases data.len(),
{
    if data.len() > 0 {
        lemma_occurrences_bounded(data.drop_last(), byte);
    }
}

/// Counts how often each byte value occurs in the data: entry `b` of the
/// result is the number of places that hold `b`.
pub fn byte_counts(data: &[u8]) -> (counts: Vec<usize>)
    ensures
        counts@.len() == 256,
        forall|b: u8| #[trigger] counts@[b as int] == occurrences(data@, b),
{
    let mut counts: Vec<usize> = vec![0usize; 256];
    let mut i: usize = 0;
    assert(data@.take(0) =~= Seq::<u8>::empty());
    while i < data.len()
        invariant
            i <= data@.len(),
            counts@.len() == 256,
            forall|b: u8| #[trigger] counts@[b as int] == occurrences(data@.take(i as int), b),
        decreases data@.len() - i,
    {
        let byte = data[i];
        let ghost before = counts@;
        proof {
            lemma_occurrences_bounded(data@.take(i as int), byte);
            assert(data@.take(i + 1).drop_last() =~= data@.take(i as int));
        }
        let seen = counts[byte as usize];
        counts.set(byte as usize, seen + 1);
        i = i + 1;
        assert forall|b: u8| #[trigger] counts@[b as int] == occurrences(
            data@.take(i as int),
            b,
        ) by {
            assert(before[b as int] == occurrences(data@.take(i - 1), b));
        }
    }
    assert(data@.take(data@.len() as int) =~= data@);
    counts
}

/// The line that says what the format of the data is, and nothing for data
/// that has none.
pub open spec fn kind_note(kind: Option<BinaryKind>) -> Seq<char> {
    match kind {
        None => Seq::empty(),
        Some(BinaryKind::Elf) => "- Type: ELF executable (Linux)\n"@,
        Some(BinaryKind::MachO) => "- Type: Mach-O executable (macOS)\n"@,
        Some(BinaryKind::Pe) => "- Type: PE executable (Windows)\n"@,
        Some(BinaryKind::HexText) => "- Type: Hex-encoded data (likely cryptographic key)\n"@,
        Some(BinaryKind::Unknown) => "- Type: Binary data (unknown format)\n"@,
    }
}

/// The line that says which key has the length of the data, and nothing for
/// a length that no key has.
pub open spec fn size_suggestion(len: nat) -> Seq<char> {
    if len == 256 {
        "- Size suggests: Possible 256-byte key or hash\n"@
    } else if len == 1568 {
        "- Size suggests: Kyber1024 public key\n"@
    } else if len == 3168 {
        "- Size suggests: Kyber1024 secret key\n"@
    } else if len == 1312 {
        "- Size suggests: Dilithium2 public key\n"@
    } else if len == 2544 {
        "- Size suggests: Dilithium2 secret key\n"@
    } else if len == 1952 {
        "- Size suggests: Dilithium3 public key\n"@
    } else if len == 4000 {
        "- Size suggests: Dilithium3 secret key\n"@
    } else {
        Seq::empty()
    }
}

/// What data of the given length is taken for.
pub open spec fn key_format(len: nat) -> Seq<char> {
    if len == 256 {
        "custom key format or truncated key"@
    } else if len == 1568 {
        "Kyber1024 public key"@
    } else if len == 3168 {
        "Kyber1024 secret key"@
    } else if len == 1312 {
        "Dilithium2 public key"@
    } else if len == 2544 {
        "Dilithium2 secret key"@
    } else if len == 1952 {
        "Dilithium3 public key"@
    } else if len == 4000 {
        "Dilithium3 secret key"@
    } else {
        "unknown key format"@
    }
}

/// How many bytes of data of the given length a report shows at each end:
/// all of them, and at most 16.
pub open spec fn sample_len(len: nat) -> nat {
    if len < 16 {
        len
    } else {
        16
    }
}

/// The report on a file's data: its name, its size in bytes and in
/// hexadecimal characters, its format, the measure of its randomness as the
/// caller has written it, what its size suggests, and its first and last
/// bytes in hexadecimal.
pub open spec fn report_text(data: Seq<u8>, filename: Seq<char>, entropy: Seq<char>) -> Seq<char> {
    "Analysis of "@ + filename + "\n- File size: "@ + decimal(data.len()) + " bytes\n- Hex size: "@
        + decimal(2 * data.len()) + " characters\n"@ + kind_note(binary_kind(data)) + "- Entropy: "@
        + entropy + " (0=structured, 8=random)\n"@ + size_suggestion(data.len())
        + "- First 16 bytes: "@ + hex_lower(data.take(sample_len(data.len()) as int))
        + "\n- Last 16 bytes: "@ + hex_lower(data.skip(data.len() - sample_len(data.len()))) + "\n"@
}

/// The line that says what the format of the data is.
fn kind_note_of(kind: Option<BinaryKind>) -> (note: &'static str)
    ensures
        note@ == kind_note(kind),
{
    match kind {
        None => {
            proof {
                reveal_strlit("");
                assert(""@ =~= Seq::<char>::empty());
            }
            ""
        },
        Some(BinaryKind::Elf) => "- Type: ELF executable (Linux)\n",
        Some(BinaryKind::MachO) => "- Type: Mach-O executable (macOS)\n",
        Some(BinaryKind::Pe) => "- Type: PE executable (Windows)\n",
        Some(BinaryKind::HexText) => "- Type: Hex-encoded data (likely cryptographic key)\n",
        Some(BinaryKind::Unknown) => "- Type: Binary data (unknown format)\n",
    }
}

/// The line that says which key has the length of the data.
fn size_suggestion_of(len: usize) -> (note: &'static str)
    ensures
        note@ == size_suggestion(len as nat),
{
    if len == 256 {
        "- Size suggests: Possible 256-byte key or hash\n"
    } else if len == 1568 {
        "- Size suggests: Kyber1024 public key\n"
    } else if len == 3168 {
        "- Size suggests: Kyber1024 secret key\n"
    } else if len == 1312 {
        "- Size suggests: Dilithium2 public key\n"
    } else if len == 2544 {
        "- Size suggests: Dilithium2 secret key\n"
    } else if len == 1952 {
        "- Size suggests: Dilithium3 public key\n"
    } else if len == 4000 {
        "- Size suggests: Dilithium3 secret key\n"
    } else {
        proof {
            reveal_strlit("");
            assert(""@ =~= Seq::<char>::empty());
        }
        ""
    }
}

/// What data of the given length is taken for: `key_format` of the length.
pub fn recommend_format(len: usize) -> (format: &'static str)
    ensures
        format@ == key_format(len as nat),
{
    if len == 256 {
        "custom key format or truncated key"
    } else if len == 1568 {
        "Kyber1024 public key"
    } else if len == 3168 {
        "Kyber1024 secret key"
    } else if len == 1312 {
        "Dilithium2 public key"
    } else if len == 2544 {
        "Dilithium2 secret key"
    } else if len == 1952 {
        "Dilithium3 public key"
    } else if len == 4000 {
        "Dilithium3 secret key"
    } else {
        "unknown key format"
    }
}

/// Reports on a file's data. `entropy` is the measure of the data's
/// randomness as the caller has computed and written it. The result is
/// `report_text` of the three.
pub fn analyze_binary_type(data: &[u8], filename: &str, entropy: &str) -> (report: String)
    ensures
        report@ == report_text(data@, filename@, entropy@),
{
    let shown: usize = if data.len() < 16 {
        data.len()
    } else {
        16
    };
    let size = decimal_string(data.len() as u128);
    let hex_size = decimal_string(2 * (data.len() as u128));
    let first = hex_encode(slice_subrange(data, 0, shown));
    let last = hex_encode(slice_subrange(data, data.len() - shown, data.len()));
    let mut report = String::from_str("Analysis of ");
    report.append(filename);
    report.append("\n- File size: ");
    report.append(size.as_str());
    report.append(" bytes\n- Hex size: ");
    report.append(hex_size.as_str());
    report.append(" characters\n");
    report.append(kind_note_of(classify(data)));
    report.append("- Entropy: ");
    report.append(entropy);
    report.append(" (0=structured, 8=random)\n");
    report.append(size_suggestion_of(data.len()));
    report.append("- First 16 bytes: ");
    report.append(first.as_str());
    report.append("\n- Last 16 bytes: ");
    report.append(last.as_str());
    report.append("\n");
    proof {
        assert(data@.subrange(0, shown as int) =~= data@.take(shown as int));
        assert(data@.subrange(data@.len() - shown, data@.len() as int) =~= data@.skip(
            data@.len() - shown,
        ));
        assert(report@ =~= report_text(data@, filename@, entropy@));
    }
    report
}

} // verus!
