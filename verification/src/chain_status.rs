//! What the node knows of the chain: whether a block is present, justified,
//! or unknown; the best and the top finalized block; the children of a block.
//!
//! The blockchain database is read by the caller; each function here takes
//! the outcome of the reads it needs (a value, an absent value, or the
//! database's error) and decides what the query answers.

use vstd::prelude::*;

use crate::types::{BlockNumber, H256};

verus! {

/// Identifies a consensus engine among the justifications of a block.
pub type EngineId = [u8; 4];

/// The engine id under which AlephBFT stores its justifications: `b"FRNK"`.
pub const ALEPH_ENGINE_ID: EngineId = [70u8, 82u8, 78u8, 75u8];

/// A block identifier: its hash and its number.
#[derive(Clone, Copy, Debug, PartialEq, Eq)]
pub struct BlockId {
    pub hash: H256,
    pub number: BlockNumber,
}

/// The part of a block header that the chain queries read.
#[derive(Clone, Copy, Debug, PartialEq, Eq)]
pub struct Header {
    pub hash: H256,
    pub parent_hash: H256,
    pub number: BlockNumber,
}

/// The justifications stored with a block, one per consensus engine, as
/// encoded bytes.
#[derive(Clone, Debug, PartialEq, Eq)]
pub struct Justifications {
    pub entries: Vec<(EngineId, Vec<u8>)>,
}

/// An error of the blockchain database, carried as its description.
#[derive(Clone, Debug, PartialEq, Eq)]
pub struct BackendError {
    pub message: String,
}

/// A header together with the justification that finalized it.
#[derive(Clone, Debug, PartialEq, Eq)]
pub struct Justification<J> {
    pub header: Header,
    pub raw_justification: J,
}

/// What the node knows of a block.
#[derive(Clone, Debug, PartialEq, Eq)]
pub enum BlockStatus<J> {
    /// The block is present and finalized by the given justification.
    Justified(Justification<J>),
    /// The block is present and not justified.
    Present(Header),
    /// The node does not have the block.
    Unknown,
}

/// What can go wrong when checking chain status.
#[derive(Clone, Debug, PartialEq, Eq)]
pub enum ChainStatusError {
    /// No block is stored for a hash that the database itself named.
    MissingHash(H256),
    /// No justification is stored for a finalized block.
    MissingJustification(H256),
    /// The database failed.
    Backend(BackendError),
    /// The block with the given hash has another number.
    MismatchedId,
}

impl From<BackendError> for ChainStatusError {
    fn from(value: BackendError) -> (r: ChainStatusError) {
        ChainStatusError::Backend(value)
    }
}

impl vstd::std_specs::convert::FromSpecImpl<BackendError> for ChainStatusError {
    open spec fn obeys_from_spec() -> bool {
        true
    }

    open spec fn from_spec(value: BackendError) -> ChainStatusError {
        ChainStatusError::Backend(value)
    }
}

/// The lower-case hexadecimal digit of `n` (below 16).
pub open spec fn hex_digit(n: int) -> Seq<char> {
    if n == 0 {
        "0"@
    } else if n == 1 {
        "1"@
    } else if n == 2 {
        "2"@
    } else if n == 3 {
        "3"@
    } else if n == 4 {
        "4"@
    } else if n == 5 {
        "5"@
    } else if n == 6 {
        "6"@
    } else if n == 7 {
        "7"@
    } else if n == 8 {
        "8"@
    } else if n == 9 {
        "9"@
    } else if n == 10 {
        "a"@
    } else if n == 11 {
        "b"@
    } else if n == 12 {
        "c"@
    } else if n == 13 {
        "d"@
    } else if n == 14 {
        "e"@
    } else {
        "f"@
    }
}

/// Bytes in lower-case hexadecimal, two digits per byte.
pub open spec fn hex_text(bytes: Seq<u8>) -> Seq<char>
    decreases bytes.len(),
{
    if bytes.len() == 0 {
        Seq::empty()
    } else {
        hex_text(bytes.drop_last()) + hex_digit(bytes.last() as int / 16) + hex_digit(
            bytes.last() as int % 16,
        )
    }
}

/// A hash as substrate prints it: `0x` and its bytes in hexadecimal.
pub open spec fn hash_text(h: H256) -> Seq<char> {
    "0x"@ + hex_text(h.0@)
}

/// The description of a chain-status error.
pub open spec fn chain_status_error_text(e: ChainStatusError) -> Seq<char> {
    match e {
        ChainStatusError::MissingHash(h) => "data availability problem: no block for existing hash "@
            + hash_text(h),
        ChainStatusError::MissingJustification(h) =>
            "data availability problem: no justification for finalized block with hash "@
            + hash_text(h),
        ChainStatusError::Backend(b) => "substrate backend error "@ + b.message@,
        ChainStatusError::MismatchedId => "the block number did not match the block hash"@,
    }
}

/// The hexadecimal digit of `n`.
fn hex_digit_str(n: u8) -> (r: &'static str)
    requires
        n < 16,
    ensures
        r@ == hex_digit(n as int),
{
    if n == 0 {
        "0"
    } else if n == 1 {
        "1"
    } else if n == 2 {
        "2"
    } else if n == 3 {
        "3"
    } else if n == 4 {
        "4"
    } else if n == 5 {
        "5"
    } else if n == 6 {
        "6"
    } else if n == 7 {
        "7"
    } else if n == 8 {
        "8"
    } else if n == 9 {
        "9"
    } else if n == 10 {
        "a"
    } else if n == 11 {
        "b"
    } else if n == 12 {
        "c"
    } else if n == 13 {
        "d"
    } else if n == 14 {
        "e"
    } else {
        "f"
    }
}

/// A hash as substrate prints it (see `hash_text`).
pub fn hash_to_text(h: &H256) -> (r: String)
    ensures
        r@ == hash_text(*h),
{
    let mut text = String::from_str("0x");
    let mut i: usize = 0;
    while i < 32
        invariant
            i <= 32,
            text@ == "0x"@ + hex_text(h.0@.take(i as int)),
        decreases 32 - i,
    {
        let b = h.0[i];
        let ghost before = text@;
        assert(h.0@.take(i as int + 1).drop_last() =~= h.0@.take(i as int));
        assert(h.0@.take(i as int + 1).last() == b);
        text = text.concat(hex_digit_str(b / 16)).concat(hex_digit_str(b % 16));
        assert(text@ =~= "0x"@ + hex_text(h.0@.take(i as int + 1)));
        i = i + 1;
    }
    assert(h.0@.take(32) =~= h.0@);
    text
}

impl ChainStatusError {
    /// The description of this error (see `chain_status_error_text`).
    pub fn message(&self) -> (r: String)
        ensures
            r@ == chain_status_error_text(*self),
    {
        match self {
            ChainStatusError::MissingHash(h) => String::from_str(
                "data availability problem: no block for existing hash ",
            ).concat(hash_to_text(h).as_str()),
            ChainStatusError::MissingJustification(h) => String::from_str(
                "data availability problem: no justification for finalized block with hash ",
            ).concat(hash_to_text(h).as_str()),
            ChainStatusError::Backend(b) => String::from_str("substrate backend error ").concat(
                b.message.as_str(),
            ),
            ChainStatusError::MismatchedId => String::from_str(
                "the block number did not match the block hash",
            ),
        }
    }
}

/// `entries[i]` is the first entry whose engine id is `engine`.
pub open spec fn is_first_match(entries: Seq<(EngineId, Vec<u8>)>, engine: EngineId, i: int) -> bool {
    &&& 0 <= i < entries.len()
    &&& entries[i].0@ == engine@
    &&& forall|j: int| 0 <= j < i ==> entries[j].0@ != engine@
}

/// Whether two engine ids are the same.
pub fn engine_id_eq(a: &EngineId, b: &EngineId) -> (r: bool)
    ensures
        r == (a@ == b@),
{
    if a[0] == b[0] && a[1] == b[1] && a[2] == b[2] && a[3] == b[3] {
        assert(a@ =~= b@);
        true
    } else {
        false
    }
}

impl Justifications {
    /// The encoded justification of the given engine: that of the first
    /// entry with this engine id, if there is one.
    pub fn into_justification(self, engine: EngineId) -> (r: Option<Vec<u8>>)
        ensures
            match r {
                Some(v) => exists|i: int| is_first_match(self.entries@, engine, i) && v == self.entries@[i].1,
                None => forall|i: int| 0 <= i < self.entries@.len() ==> self.entries@[i].0@ != engine@,
            },
    {
        let n = self.entries.len();
        let mut i: usize = 0;
        while i < n
            invariant
                n == self.entries@.len(),
                i <= n,
                forall|j: int| 0 <= j < i ==> self.entries@[j].0@ != engine@,
            decreases n - i,
        {
            if engine_id_eq(&self.entries[i].0, &engine) {
                assert(is_first_match(self.entries@, engine, i as int));
                let ghost entries = self.entries@;
                let mut rest = self.entries;
                let entry = rest.swap_remove(i);
                assert(entry == entries[i as int]);
                return Some(entry.1);
            }
            i = i + 1;
        }
        None
    }
}

/// The AlephBFT justification among the stored ones, where `stored` is the
/// outcome of reading a block's justifications.
pub fn aleph_justification(stored: Result<Option<Justifications>, BackendError>) -> (r: Result<
    Option<Vec<u8>>,
    BackendError,
>)
    ensures
        match stored {
            Err(e) => r == Err::<Option<Vec<u8>>, BackendError>(e),
            Ok(None) => r == Ok::<Option<Vec<u8>>, BackendError>(None),
            Ok(Some(js)) => match r {
                Ok(Some(v)) => exists|i: int|
                    is_first_match(js.entries@, ALEPH_ENGINE_ID, i) && v == js.entries@[i].1,
                Ok(None) => forall|i: int|
                    0 <= i < js.entries@.len() ==> js.entries@[i].0@ != ALEPH_ENGINE_ID@,
                Err(_) => false,
            },
        },
{
    match stored {
        Err(e) => Err(e),
        Ok(None) => Ok(None),
        Ok(Some(js)) => Ok(js.into_justification(ALEPH_ENGINE_ID)),
    }
}

/// The answer to a header query for `id`, given the outcome of reading the
/// header stored under `id.hash`.
pub open spec fn header_answer(id: BlockId, lookup: Result<Option<Header>, BackendError>) -> Result<
    Option<Header>,
    ChainStatusError,
> {
    match lookup {
        Err(e) => Err(ChainStatusError::Backend(e)),
        Ok(None) => Ok(None),
        Ok(Some(h)) => if h.number != id.number {
            Err(ChainStatusError::MismatchedId)
        } else {
            Ok(Some(h))
        },
    }
}

/// The header of the block `id`, where `lookup` is the outcome of reading
/// the header stored under `id.hash`; a header with another number than
/// `id.number` is an error.
pub fn header(id: &BlockId, lookup: Result<Option<Header>, BackendError>) -> (r: Result<
    Option<Header>,
    ChainStatusError,
>)
    ensures
        r == header_answer(*id, lookup),
{
    match lookup {
        Err(e) => Err(ChainStatusError::Backend(e)),
        Ok(None) => Ok(None),
        Ok(Some(h)) => {
            if h.number != id.number {
                Err(ChainStatusError::MismatchedId)
            } else {
                Ok(Some(h))
            }
        },
    }
}

/// The status of block `id`, given the outcome of reading the header stored
/// under `id.hash` and that of reading (and decoding) its AlephBFT
/// justification. The justification is only consulted when the header is
/// found.
pub open spec fn status_answer<J>(
    id: BlockId,
    header_lookup: Result<Option<Header>, BackendError>,
    justification_lookup: Result<Option<J>, BackendError>,
) -> Result<BlockStatus<J>, ChainStatusError> {
    match header_answer(id, header_lookup) {
        Err(e) => Err(e),
        Ok(None) => Ok(BlockStatus::Unknown),
        Ok(Some(header)) => match justification_lookup {
            Err(e) => Err(ChainStatusError::Backend(e)),
            Ok(Some(raw_justification)) => Ok(
                BlockStatus::Justified(Justification { header, raw_justification }),
            ),
            Ok(None) => Ok(BlockStatus::Present(header)),
        },
    }
}

/// What answering a status query needs after reading a header.
#[derive(Debug, PartialEq, Eq)]
pub enum StatusStep<J> {
    /// The header was found and matches the block id: read the justification
    /// stored under its hash, then finish with `status_after_justification`.
    ReadJustification(Header),
    /// The answer, with no justification needed.
    Answer(Result<BlockStatus<J>, ChainStatusError>),
}

/// The first step of a status query for `id`, given the outcome of reading
/// the header stored under `id.hash`: the justification is read only when a
/// header with the right number was found.
pub fn status_after_header<J>(id: &BlockId, header_lookup: Result<Option<Header>, BackendError>) -> (r:
    StatusStep<J>)
    ensures
        match header_answer(*id, header_lookup) {
            Err(e) => r == StatusStep::<J>::Answer(Err(e)),
            Ok(None) => r == StatusStep::<J>::Answer(Ok(BlockStatus::Unknown)),
            Ok(Some(h)) => r == StatusStep::<J>::ReadJustification(h),
        },
{
    match header(id, header_lookup) {
        Err(e) => StatusStep::Answer(Err(e)),
        Ok(None) => StatusStep::Answer(Ok(BlockStatus::Unknown)),
        Ok(Some(h)) => StatusStep::ReadJustification(h),
    }
}

/// The last step of a status query: the status of the block with `header`,
/// given the outcome of reading (and decoding) its AlephBFT justification.
pub fn status_after_justification<J>(
    header: Header,
    justification_lookup: Result<Option<J>, BackendError>,
) -> (r: Result<BlockStatus<J>, ChainStatusError>)
    ensures
        match justification_lookup {
            Err(e) => r == Err::<BlockStatus<J>, ChainStatusError>(ChainStatusError::Backend(e)),
            Ok(Some(raw_justification)) => r == Ok::<BlockStatus<J>, ChainStatusError>(
                BlockStatus::Justified(Justification { header, raw_justification }),
            ),
            Ok(None) => r == Ok::<BlockStatus<J>, ChainStatusError>(BlockStatus::Present(header)),
        },
{
    match justification_lookup {
        Err(e) => Err(ChainStatusError::Backend(e)),
        Ok(Some(raw_justification)) => Ok(
            BlockStatus::Justified(Justification { header, raw_justification }),
        ),
        Ok(None) => Ok(BlockStatus::Present(header)),
    }
}

/// A stored justification that could not be decoded counts as absent.
pub fn usable_justification<J, E>(decoded: Result<J, E>) -> (r: Option<J>)
    ensures
        match decoded {
            Ok(j) => r == Some(j),
            Err(_) => r is None,
        },
{
    match decoded {
        Ok(j) => Some(j),
        Err(_) => None,
    }
}

/// The status of block `id` (see `status_answer`).
pub fn status_of<J>(
    id: BlockId,
    header_lookup: Result<Option<Header>, BackendError>,
    justification_lookup: Result<Option<J>, BackendError>,
) -> (r: Result<BlockStatus<J>, ChainStatusError>)
    ensures
        r == status_answer(id, header_lookup, justification_lookup),
        r matches Ok(BlockStatus::Justified(j)) ==> j.header.number == id.number,
        r matches Ok(BlockStatus::Present(h)) ==> h.number == id.number,
        !(header_answer(id, header_lookup) matches Ok(Some(_))) ==> r == status_answer(
            id,
            header_lookup,
            Ok::<Option<J>, BackendError>(None),
        ),
{
    let header = match header(&id, header_lookup) {
        Err(e) => {
            return Err(e);
        },
        Ok(None) => {
            return Ok(BlockStatus::Unknown);
        },
        Ok(Some(h)) => h,
    };
    match justification_lookup {
        Err(e) => Err(ChainStatusError::Backend(e)),
        Ok(Some(raw_justification)) => Ok(
            BlockStatus::Justified(Justification { header, raw_justification }),
        ),
        Ok(None) => Ok(BlockStatus::Present(header)),
    }
}

/// The justification of the finalized block with the given number.
///
/// `hash_lookup` is the outcome of reading the hash of the block with that
/// number on the canonical chain; `header_lookup` and
/// `justification_lookup` are the outcomes of reading the header and the
/// AlephBFT justification stored under that hash (they are not consulted
/// when no hash is found).
pub fn finalized_at<J>(
    number: BlockNumber,
    hash_lookup: Result<Option<H256>, BackendError>,
    header_lookup: Result<Option<Header>, BackendError>,
    justification_lookup: Result<Option<J>, BackendError>,
) -> (r: Result<Option<Justification<J>>, ChainStatusError>)
    ensures
        match hash_lookup {
            Err(e) => r == Err::<Option<Justification<J>>, ChainStatusError>(ChainStatusError::Backend(e)),
            Ok(None) => r == Ok::<Option<Justification<J>>, ChainStatusError>(None),
            Ok(Some(hash)) => match status_answer(
                BlockId { hash, number },
                header_lookup,
                justification_lookup,
            ) {
                Err(e) => r == Err::<Option<Justification<J>>, ChainStatusError>(e),
                Ok(BlockStatus::Justified(j)) => r == Ok::<Option<Justification<J>>, ChainStatusError>(
                    Some(j),
                ),
                Ok(_) => r == Ok::<Option<Justification<J>>, ChainStatusError>(None),
            },
        },
        r matches Ok(Some(j)) ==> j.header.number == number,
{
    let hash = match hash_lookup {
        Err(e) => {
            return Err(ChainStatusError::Backend(e));
        },
        Ok(None) => {
            return Ok(None);
        },
        Ok(Some(hash)) => hash,
    };
    match status_of(BlockId { hash, number }, header_lookup, justification_lookup) {
        Err(e) => Err(e),
        Ok(BlockStatus::Justified(j)) => Ok(Some(j)),
        Ok(_) => Ok(None),
    }
}

/// The header of the best block, where `header_lookup` is the outcome of
/// reading the header stored under `best_hash`.
pub fn best_block(best_hash: H256, header_lookup: Result<Option<Header>, BackendError>) -> (r:
    Result<Header, ChainStatusError>)
    ensures
        match header_lookup {
            Err(e) => r == Err::<Header, ChainStatusError>(ChainStatusError::Backend(e)),
            Ok(None) => r == Err::<Header, ChainStatusError>(ChainStatusError::MissingHash(best_hash)),
            Ok(Some(h)) => r == Ok::<Header, ChainStatusError>(h),
        },
{
    match header_lookup {
        Err(e) => Err(ChainStatusError::Backend(e)),
        Ok(None) => Err(ChainStatusError::MissingHash(best_hash)),
        Ok(Some(h)) => Ok(h),
    }
}

/// The top finalized block with its justification, where `header_lookup`
/// and `justification_lookup` are the outcomes of reading the header and the
/// AlephBFT justification stored under `finalized_hash`.
pub fn top_finalized<J>(
    finalized_hash: H256,
    header_lookup: Result<Option<Header>, BackendError>,
    justification_lookup: Result<Option<J>, BackendError>,
) -> (r: Result<Justification<J>, ChainStatusError>)
    ensures
        match header_lookup {
            Err(e) => r == Err::<Justification<J>, ChainStatusError>(ChainStatusError::Backend(e)),
            Ok(None) => r == Err::<Justification<J>, ChainStatusError>(ChainStatusError::MissingHash(finalized_hash)),
            Ok(Some(header)) => match justification_lookup {
                Err(e) => r == Err::<Justification<J>, ChainStatusError>(ChainStatusError::Backend(e)),
                Ok(None) => r == Err::<Justification<J>, ChainStatusError>(
                    ChainStatusError::MissingJustification(finalized_hash),
                ),
                Ok(Some(raw_justification)) => r == Ok::<Justification<J>, ChainStatusError>(
                    Justification { header, raw_justification },
                ),
            },
        },
{
    let header = match header_lookup {
        Err(e) => {
            return Err(ChainStatusError::Backend(e));
        },
        Ok(None) => {
            return Err(ChainStatusError::MissingHash(finalized_hash));
        },
        Ok(Some(h)) => h,
    };
    match justification_lookup {
        Err(e) => Err(ChainStatusError::Backend(e)),
        Ok(None) => Err(ChainStatusError::MissingJustification(finalized_hash)),
        Ok(Some(raw_justification)) => Ok(Justification { header, raw_justification }),
    }
}

/// The headers found among the outcomes of reading the headers of a
/// block's children, in order; absent headers are skipped.
pub open spec fn found_headers(lookups: Seq<Result<Option<Header>, BackendError>>) -> Seq<Header>
    decreases lookups.len(),
{
    if lookups.len() == 0 {
        Seq::empty()
    } else {
        let rest = found_headers(lookups.drop_last());
        match lookups.last() {
            Ok(Some(h)) => rest.push(h),
            _ => rest,
        }
    }
}

/// `lookups[i]` is the first failed read.
pub open spec fn is_first_failure(lookups: Seq<Result<Option<Header>, BackendError>>, i: int) -> bool {
    &&& 0 <= i < lookups.len()
    &&& lookups[i] is Err
    &&& forall|j: int| 0 <= j < i ==> lookups[j] is Ok
}

/// The headers of the children of block `id`.
///
/// `header_lookup` is the outcome of reading the header stored under
/// `id.hash` (the query fails as `header` does on it); `child_lookups` is
/// the outcome of reading the hashes of the children, and for each child, in
/// order, of reading its header. The first failed read fails the query;
/// children whose header is absent are skipped.
pub fn children(
    id: &BlockId,
    header_lookup: Result<Option<Header>, BackendError>,
    child_lookups: Result<Vec<Result<Option<Header>, BackendError>>, BackendError>,
) -> (r: Result<Vec<Header>, ChainStatusError>)
    ensures
        match header_answer(*id, header_lookup) {
            Err(e) => r == Err::<Vec<Header>, ChainStatusError>(e),
            Ok(_) => match child_lookups {
                Err(e) => r == Err::<Vec<Header>, ChainStatusError>(ChainStatusError::Backend(e)),
                Ok(lookups) => match r {
                    Ok(found) => (forall|j: int| 0 <= j < lookups@.len() ==> lookups@[j] is Ok)
                        && found@ == found_headers(lookups@),
                    Err(e) => exists|i: int|
                        is_first_failure(lookups@, i) && e == ChainStatusError::Backend(lookups@[i]->Err_0),
                },
            },
        },
{
    if let Err(e) = header(id, header_lookup) {
        return Err(e);
    }
    let mut lookups = match child_lookups {
        Err(e) => {
            return Err(ChainStatusError::Backend(e));
        },
        Ok(lookups) => lookups,
    };
    let n = lookups.len();
    let mut found: Vec<Header> = Vec::new();
    let mut i: usize = 0;
    while i < n
        invariant
            n == lookups@.len(),
            i <= n,
            header_answer(*id, header_lookup) is Ok,
            child_lookups matches Ok(l) && l@ == lookups@,
            forall|j: int| 0 <= j < i ==> lookups@[j] is Ok,
            found@ == found_headers(lookups@.take(i as int)),
        decreases n - i,
    {
        assert(lookups@.take(i as int + 1).drop_last() =~= lookups@.take(i as int));
        match &lookups[i] {
            Ok(Some(h)) => {
                found.push(*h);
            },
            Ok(None) => {},
            Err(_) => {
                assert(is_first_failure(lookups@, i as int));
                let ghost all = lookups@;
                let failed = lookups.swap_remove(i);
                assert(failed == all[i as int]);
                return match failed {
                    Err(e) => Err(ChainStatusError::Backend(e)),
                    Ok(_) => {
                        assert(false);
                        Err(ChainStatusError::MismatchedId)
                    },
                };
            },
        }
        i = i + 1;
    }
    assert(lookups@.take(n as int) =~= lookups@);
    Ok(found)
}

/// A block's status is `Unknown` exactly when reading its header succeeded
/// and found nothing; a block reported present or justified has the number
/// it was asked for.
pub proof fn lemma_status_unknown_iff_absent<J>(
    id: BlockId,
    header_lookup: Result<Option<Header>, BackendError>,
    justification_lookup: Result<Option<J>, BackendError>,
)
    ensures
        (status_answer(id, header_lookup, justification_lookup) == Ok::<BlockStatus<J>, ChainStatusError>(
            BlockStatus::Unknown,
        )) <==> header_lookup == Ok::<Option<Header>, BackendError>(None),
        status_answer(id, header_lookup, justification_lookup) matches Ok(BlockStatus::Present(h))
            ==> h.number == id.number && header_lookup == Ok::<Option<Header>, BackendError>(Some(h)),
        status_answer(id, header_lookup, justification_lookup) matches Ok(BlockStatus::Justified(j))
            ==> j.header.number == id.number && header_lookup == Ok::<Option<Header>, BackendError>(
            Some(j.header),
        ),
{
}

/// A stored header is accepted exactly when its number is the one asked
/// for: a matching header is the answer, a header with another number is
/// `MismatchedId`, an absent header is no answer, and a failed read is the
/// database's error.
pub proof fn lemma_header_accepts_matching_number(id: BlockId, h: Header, e: BackendError)
    ensures
        h.number == id.number ==> header_answer(id, Ok(Some(h))) == Ok::<
            Option<Header>,
            ChainStatusError,
        >(Some(h)),
        h.number != id.number ==> header_answer(id, Ok(Some(h))) == Err::<
            Option<Header>,
            ChainStatusError,
        >(ChainStatusError::MismatchedId),
        header_answer(id, Ok(None)) == Ok::<Option<Header>, ChainStatusError>(None),
        header_answer(id, Err(e)) == Err::<Option<Header>, ChainStatusError>(
            ChainStatusError::Backend(e),
        ),
{
}

/// The status of a block whose stored header has the number asked for is
/// `Justified` with that header and the justification read, when one was
/// read, and `Present` with that header otherwise; a failed justification
/// read is the database's error.
pub proof fn lemma_status_of_stored_block<J>(id: BlockId, h: Header, j: J, e: BackendError)
    requires
        h.number == id.number,
    ensures
        status_answer(id, Ok(Some(h)), Ok(Some(j))) == Ok::<BlockStatus<J>, ChainStatusError>(
            BlockStatus::Justified(Justification { header: h, raw_justification: j }),
        ),
        status_answer(id, Ok(Some(h)), Ok::<Option<J>, BackendError>(None)) == Ok::<
            BlockStatus<J>,
            ChainStatusError,
        >(BlockStatus::Present(h)),
        status_answer(id, Ok(Some(h)), Err::<Option<J>, BackendError>(e)) == Err::<
            BlockStatus<J>,
            ChainStatusError,
        >(ChainStatusError::Backend(e)),
{
    lemma_header_accepts_matching_number(id, h, e);
}

/// Every header read for a child is reported, in order: a further found
/// header is appended, and a further absent header or failed read adds
/// nothing.
pub proof fn lemma_found_headers_keeps_every_header(
    lookups: Seq<Result<Option<Header>, BackendError>>,
    h: Header,
    e: BackendError,
)
    ensures
        found_headers(lookups.push(Ok(Some(h)))) == found_headers(lookups).push(h),
        found_headers(lookups.push(Ok(None))) == found_headers(lookups),
        found_headers(lookups.push(Err(e))) == found_headers(lookups),
        found_headers(Seq::empty()) == Seq::<Header>::empty(),
{
    assert(lookups.push(Ok(Some(h))).drop_last() =~= lookups);
    assert(lookups.push(Ok(None)).drop_last() =~= lookups);
    assert(lookups.push(Err(e)).drop_last() =~= lookups);
}

} // verus!
