use crate::api::Keygen;
use crate::bytes::append_bytes;
use crate::digest::{sha256, sha256_digest};
use crate::error::{Failure, PqcError};
use crate::stream::{chacha20_fill, chacha20_stream, stream_advance, STREAM_PERIOD_WORDS};
use crate::text::{decimal, decimal_string};
use vstd::prelude::*;
use vstd::slice::{slice_subrange, slice_to_vec};
use vstd::utf8::encode_utf8;
use vstd::string::StringSliceAdditionalSpecFns;

verus! {

/// The bytes that are hashed to combine two seeds: the seeds between three
/// fixed labels.
pub open spec fn combine_input(seed_a: Seq<u8>, seed_b: Seq<u8>) -> Seq<u8> {
    "QRNG_QUANTUM_ENTROPY_".spec_bytes() + seed_a + "_SEPARATOR_".spec_bytes() + seed_b
        + "_END".spec_bytes()
}

/// The digest that two seeds combine to.
pub open spec fn combined_digest(seed_a: Seq<u8>, seed_b: Seq<u8>) -> Seq<u8> {
    sha256(combine_input(seed_a, seed_b))
}

/// Combining is a function of the seeds alone: equal seeds have equal
/// digests, whenever and wherever they are combined.
pub proof fn lemma_combine_deterministic(
    seed_a: Seq<u8>,
    seed_b: Seq<u8>,
    other_a: Seq<u8>,
    other_b: Seq<u8>,
)
    requires
        seed_a == other_a,
        seed_b == other_b,
    ensures
        combined_digest(seed_a, seed_b) == combined_digest(other_a, other_b),
{
}

/// The labels keep the two seeds apart where the first seed has a known
/// length: two pairs of seeds whose first seeds are equally long are hashed
/// from the same bytes only where they are the same pair. (Seeds of other
/// lengths can hold a label themselves, and then the bytes do not tell where
/// the first seed ends.)
pub proof fn lemma_framing_separates_seeds(
    seed_a: Seq<u8>,
    seed_b: Seq<u8>,
    other_a: Seq<u8>,
    other_b: Seq<u8>,
)
    requires
        combine_input(seed_a, seed_b) == combine_input(other_a, other_b),
        seed_a.len() == other_a.len(),
    ensures
        seed_a == other_a,
        seed_b == other_b,
{
    let head = "QRNG_QUANTUM_ENTROPY_".spec_bytes();
    let middle = "_SEPARATOR_".spec_bytes();
    let tail = "_END".spec_bytes();
    let input = combine_input(seed_a, seed_b);
    let other = combine_input(other_a, other_b);
    assert(input.len() == head.len() + seed_a.len() + middle.len() + seed_b.len() + tail.len());
    assert(other.len() == head.len() + other_a.len() + middle.len() + other_b.len() + tail.len());
    assert forall|i: int| 0 <= i < seed_a.len() implies seed_a[i] == other_a[i] by {
        assert(input[head.len() + i] == seed_a[i]);
        assert(other[head.len() + i] == other_a[i]);
    }
    assert(seed_a =~= other_a);
    let offset = head.len() + seed_a.len() + middle.len();
    assert forall|i: int| 0 <= i < seed_b.len() implies seed_b[i] == other_b[i] by {
        assert(input[offset + i] == seed_b[i]);
        assert(other[offset + i] == other_b[i]);
    }
    assert(seed_b =~= other_b);
}

/// What an engine is to its callers: the two seeds it was made from and the
/// place in its stream, in 32-bit words, where the next draw starts.
pub struct QrngView {
    pub kyber_seed: Seq<u8>,
    pub dilithium_seed: Seq<u8>,
    pub word_pos: nat,
}

/// What one draw of `size` bytes does to an engine: the engine afterwards and
/// the bytes drawn.
pub open spec fn draw(engine: QrngView, size: nat) -> (QrngView, Seq<u8>) {
    (
        QrngView { word_pos: stream_advance(engine.word_pos, size), ..engine },
        chacha20_stream(
            combined_digest(engine.kyber_seed, engine.dilithium_seed),
            engine.word_pos,
            size,
        ),
    )
}

/// What a refreshed draw does: the stream is set back to its start, then
/// `size` bytes are drawn.
pub open spec fn refreshed_draw(engine: QrngView, size: nat) -> (QrngView, Seq<u8>) {
    draw(QrngView { word_pos: 0, ..engine }, size)
}

/// A deterministic entropy engine: two seeds, combined into the key of a
/// ChaCha20 stream, and the position in that stream.
pub struct QRNG {
    kyber_seed: Vec<u8>,
    dilithium_seed: Vec<u8>,
    stream_seed: [u8; 32],
    word_pos: u128,
}

impl View for QRNG {
    type V = QrngView;

    closed spec fn view(&self) -> QrngView {
        QrngView {
            kyber_seed: self.kyber_seed@,
            dilithium_seed: self.dilithium_seed@,
            word_pos: self.word_pos as nat,
        }
    }
}

/// How the making of an engine ended: the engine, or the class and the
/// detail of the error.
pub open spec fn engine_outcome(r: Result<QRNG, PqcError>) -> Result<QrngView, Failure> {
    match r {
        Ok(engine) => Ok(engine@),
        Err(e) => Err(e@),
    }
}

/// What making an engine gives, from what the loading of the two seeds gave.
/// A failure to load the first seed decides alone, then a failure to load the
/// second; two seeds make an engine that stands at the start of its stream.
pub open spec fn new_engine(
    kyber_seed: Result<Vec<u8>, PqcError>,
    dilithium_seed: Result<Vec<u8>, PqcError>,
) -> Result<QrngView, Failure> {
    match kyber_seed {
        Err(e) => Err(e@),
        Ok(seed_a) => match dilithium_seed {
            Err(e) => Err(e@),
            Ok(seed_b) => Ok(QrngView { kyber_seed: seed_a@, dilithium_seed: seed_b@, word_pos: 0 }),
        },
    }
}

/// The text that describes an engine with seeds of the given lengths.
pub open spec fn seed_info_text(kyber_len: nat, dilithium_len: nat) -> Seq<char> {
    "QRNG Quantum Seed Info:\n- Kyber seed: "@ + decimal(kyber_len) + " bytes\n- Dilithium seed: "@
        + decimal(dilithium_len)
        + " bytes\n- Combined entropy: SHA256 hash\n- RNG: ChaCha20 (cryptographically secure)"@
}

impl QRNG {
    /// The stream is keyed by the combined digest of the seeds, and the
    /// position stays below the stream's period.
    #[verifier::type_invariant]
    spec fn well_formed(self) -> bool {
        &&& self.stream_seed@ == combined_digest(self.kyber_seed@, self.dilithium_seed@)
        &&& self.word_pos < STREAM_PERIOD_WORDS
    }

    /// Combines two seeds into one 32-byte digest: the SHA-256 hash of the seeds
    /// framed by the labels of `combine_input`. Equal seeds give equal digests.
    pub fn combine_quantum_seeds(
        kyber_seed: &[u8],
        dilithium_seed: &[u8],
    ) -> (digest: [u8; 32])
        ensures
            digest@ == combined_digest(kyber_seed@, dilithium_seed@),
    {
        let mut input: Vec<u8> = Vec::new();
        append_bytes(&mut input, "QRNG_QUANTUM_ENTROPY_".as_bytes());
        append_bytes(&mut input, kyber_seed);
        append_bytes(&mut input, "_SEPARATOR_".as_bytes());
        append_bytes(&mut input, dilithium_seed);
        append_bytes(&mut input, "_END".as_bytes());
        assert(input@ =~= combine_input(kyber_seed@, dilithium_seed@));
        sha256_digest(input.as_slice())
    }

    /// Makes an engine from what the loading of the two seeds gave. The
    /// result is `new_engine` of the two: the first failure is handed on, and
    /// two seeds give an engine whose stream is keyed by their combined digest
    /// and stands at its start.
    pub fn new(
        kyber_seed: Result<Vec<u8>, PqcError>,
        dilithium_seed: Result<Vec<u8>, PqcError>,
    ) -> (r: Result<QRNG, PqcError>)
        ensures
            engine_outcome(r) == new_engine(kyber_seed, dilithium_seed),
    {
        let kyber_seed = kyber_seed?;
        let dilithium_seed = dilithium_seed?;
        let stream_seed =
        QRNG::combine_quantum_seeds(kyber_seed.as_slice(), dilithium_seed.as_slice());
        Ok(QRNG { kyber_seed, dilithium_seed, stream_seed, word_pos: 0 })
    }

    /// Draws `size` bytes from the stream and moves the position on.
    pub fn generate_entropy(&mut self, size: usize) -> (entropy: Vec<u8>)
        ensures
            (final(self)@, entropy@) == draw(old(self)@, size as nat),
            entropy@.len() == size,
    {
        proof {
            use_type_invariant(&*self);
        }
        let mut entropy: Vec<u8> = vec![0u8; size];
        let next = chacha20_fill(&self.stream_seed, self.word_pos, &mut entropy);
        self.word_pos = next;
        entropy
    }

    /// Combines the seeds anew, sets the stream back to its start and draws
    /// `size` bytes. The seeds do not change, so neither does the key: every
    /// refreshed draw of one size gives the same bytes.
    pub fn generate_entropy_refreshed(&mut self, size: usize) -> (entropy: Vec<u8>)
        ensures
            (final(self)@, entropy@) == refreshed_draw(old(self)@, size as nat),
            entropy@.len() == size,
    {
        proof {
            use_type_invariant(&*self);
        }
        self.stream_seed =
        QRNG::combine_quantum_seeds(self.kyber_seed.as_slice(), self.dilithium_seed.as_slice());
        self.word_pos = 0;
        self.generate_entropy(size)
    }

    /// Begins the generation of a device's keys. The engine makes a refreshed
    /// draw of 64 bytes first, which moves its position and is not handed to
    /// the provider: the generation that comes back stands at its start, as
    /// one without an engine does, and is carried on with `Keygen::supply`.
    pub fn generate_device_keys(&mut self) -> (state: Keygen)
        ensures
            final(self)@ == refreshed_draw(old(self)@, 64).0,
            state is AwaitingKem,
    {
        let _ = self.generate_entropy_refreshed(64);
        Keygen::start()
    }

    /// A description of the engine: the lengths of its two seeds and how it
    /// uses them.
    pub fn seed_info(&self) -> (info: String)
        ensures
            info@ == seed_info_text(self@.kyber_seed.len(), self@.dilithium_seed.len()),
    {
        let mut info = String::from_str("QRNG Quantum Seed Info:\n- Kyber seed: ");
        let kyber_len = decimal_string(self.kyber_seed.len() as u128);
        info.append(kyber_len.as_str());
        info.append(" bytes\n- Dilithium seed: ");
        let dilithium_len = decimal_string(self.dilithium_seed.len() as u128);
        info.append(dilithium_len.as_str());
        info.append(
            " bytes\n- Combined entropy: SHA256 hash\n- RNG: ChaCha20 (cryptographically secure)",
        );
        info
    }
}

/// Two refreshed draws of one size, one after the other, give the same bytes:
/// a refresh sets the stream back, it adds no randomness.
pub proof fn lemma_refreshed_draw_repeats(engine: QrngView, size: nat)
    ensures
        refreshed_draw(refreshed_draw(engine, size).0, size).1 == refreshed_draw(engine, size).1,
{
}

/// A refreshed draw gives the same bytes whatever was drawn before it, and
/// leaves the engine where a refreshed draw from any other position leaves
/// it.
pub proof fn lemma_refreshed_draw_forgets(engine: QrngView, drawn: nat, size: nat)
    ensures
        refreshed_draw(draw(engine, drawn).0, size) == refreshed_draw(engine, size),
{
}

/// The bytes that are hashed to derive the entropy of one device: the base
/// entropy after a fixed label, the device's identifier in UTF-8 and an
/// underscore.
pub open spec fn device_input(device_id: Seq<char>, base: Seq<u8>) -> Seq<u8> {
    "DEVICE_ENTROPY_".spec_bytes() + encode_utf8(device_id) + "_".spec_bytes() + base
}

/// The entropy of one device: the first bytes, `size` of them and at most 32,
/// of the SHA-256 hash of `device_input` over a refreshed draw of `size + 32`
/// bytes.
pub open spec fn device_entropy(engine: QrngView, device_id: Seq<char>, size: nat) -> Seq<u8> {
    sha256(device_input(device_id, refreshed_draw(engine, size + 32).1)).take(
        if size < 32 {
            size as int
        } else {
            32
        },
    )
}

/// An entropy service for devices on top of one engine.
pub struct QRNGEntropyService {
    qrng: QRNG,
}

impl View for QRNGEntropyService {
    type V = QrngView;

    closed spec fn view(&self) -> QrngView {
        self.qrng@
    }
}

/// How the making of a service ended: the service's engine, or the class and
/// the detail of the error.
pub open spec fn service_outcome(
    r: Result<QRNGEntropyService, PqcError>,
) -> Result<QrngView, Failure> {
    match r {
        Ok(service) => Ok(service@),
        Err(e) => Err(e@),
    }
}

impl QRNGEntropyService {
    /// Makes a service from what the loading of the two seeds gave, as
    /// `QRNG::new` makes an engine.
    pub fn new(
        kyber_seed: Result<Vec<u8>, PqcError>,
        dilithium_seed: Result<Vec<u8>, PqcError>,
    ) -> (r: Result<QRNGEntropyService, PqcError>)
        ensures
            service_outcome(r) == new_engine(kyber_seed, dilithium_seed),
    {
        let qrng = QRNG::new(kyber_seed, dilithium_seed)?;
        Ok(QRNGEntropyService { qrng })
    }

    /// Derives the entropy of one device: `device_entropy` of the engine, the
    /// device and the size, which is `size` bytes but never more than 32. The
    /// engine is left where the refreshed draw of `size + 32` bytes leaves it.
    pub fn derive_entropy(&mut self, device_id: &str, size: usize) -> (entropy: Vec<u8>)
        requires
            size <= usize::MAX - 32,
        ensures
            entropy@ == device_entropy(old(self)@, device_id@, size as nat),
            entropy@.len() == (if size < 32 {
                size as int
            } else {
                32
            }),
            final(self)@ == refreshed_draw(old(self)@, (size + 32) as nat).0,
    {
        let mut input: Vec<u8> = Vec::new();
        append_bytes(&mut input, "DEVICE_ENTROPY_".as_bytes());
        append_bytes(&mut input, device_id.as_bytes());
        append_bytes(&mut input, "_".as_bytes());
        let base_entropy = self.qrng.generate_entropy_refreshed(size + 32);
        append_bytes(&mut input, base_entropy.as_slice());
        assert(input@ =~= device_input(device_id@, base_entropy@));
        let digest = sha256_digest(input.as_slice());
        let keep: usize = if size < 32 {
            size
        } else {
            32
        };
        slice_to_vec(slice_subrange(digest.as_slice(), 0, keep))
    }

    /// Derives the entropy of one device, as `derive_entropy` does. The call
    /// always succeeds.
    pub fn generate_entropy_for_device(
        &mut self,
        device_id: &str,
        size: usize,
    ) -> (r: Result<Vec<u8>, PqcError>)
        requires
            size <= usize::MAX - 32,
        ensures
            r matches Ok(entropy) && entropy@ == device_entropy(
                old(self)@,
                device_id@,
                size as nat,
            ) && entropy@.len() == (if size < 32 {
                size as int
            } else {
                32
            }),
            final(self)@ == refreshed_draw(old(self)@, (size + 32) as nat).0,
    {
        Ok(self.derive_entropy(device_id, size))
    }

    /// Begins the provisioning of a device: derives the entropy of the
    /// device for a size of 64, which is 32 bytes, then begins the generation
    /// of its keys as `QRNG::generate_device_keys` does. The entropy comes
    /// back for the caller to report; it is not handed to the provider.
    pub fn provision_device(&mut self, device_id: &str) -> (r: (Vec<u8>, Keygen))
        ensures
            r.0@ == device_entropy(old(self)@, device_id@, 64),
            r.0@.len() == 32,
            r.1 is AwaitingKem,
            final(self)@ == refreshed_draw(old(self)@, 64).0,
    {
        let device_entropy = self.derive_entropy(device_id, 64);
        let state = self.qrng.generate_device_keys();
        (device_entropy, state)
    }
}

} // verus!
