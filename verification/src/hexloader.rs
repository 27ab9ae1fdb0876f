//! Intel HEX loader: parses `:LLAAAATT<DD...>CC` records, tracks the
//! extended base address from type 02/04 records, and partitions data
//! records into the program byte buffer (addresses below 0x2000), the
//! EEPROM buffer (0x2100-0x217F) and the configuration word (0x2007).
//! The program byte buffer is then folded into little-endian 14-bit
//! words. Every step is specified over byte sequences.

use vstd::prelude::*;
use vstd::string::StringSliceAdditionalSpecFns;
use vstd::pervasive::VecAdditionalExecFns;
use crate::executor::spec_add_u8;

verus! {

/// Record types in the Intel HEX format.
#[derive(Debug, Clone, Copy, PartialEq, Eq, Structural)]
pub enum RecordType {
    Data,
    EndOfFile,
    ExtendedSegmentAddress,
    StartSegmentAddress,
    ExtendedLinearAddress,
    StartLinearAddress,
}

/// The record type encoded by a type byte: 0x00 through 0x05; other
/// values are unknown.
pub open spec fn spec_record_type(value: u8) -> Option<RecordType> {
    if value == 0x00 {
        Some(RecordType::Data)
    } else if value == 0x01 {
        Some(RecordType::EndOfFile)
    } else if value == 0x02 {
        Some(RecordType::ExtendedSegmentAddress)
    } else if value == 0x03 {
        Some(RecordType::StartSegmentAddress)
    } else if value == 0x04 {
        Some(RecordType::ExtendedLinearAddress)
    } else if value == 0x05 {
        Some(RecordType::StartLinearAddress)
    } else {
        None
    }
}

impl RecordType {
    fn from_u8(value: u8) -> (r: Option<RecordType>)
        ensures
            r == spec_record_type(value),
    {
        if value == 0x00 {
            Some(RecordType::Data)
        } else if value == 0x01 {
            Some(RecordType::EndOfFile)
        } else if value == 0x02 {
            Some(RecordType::ExtendedSegmentAddress)
        } else if value == 0x03 {
            Some(RecordType::StartSegmentAddress)
        } else if value == 0x04 {
            Some(RecordType::ExtendedLinearAddress)
        } else if value == 0x05 {
            Some(RecordType::StartLinearAddress)
        } else {
            None
        }
    }
}

/// What went wrong in one HEX line.
#[derive(Debug, Clone, Copy, PartialEq, Eq, Structural)]
pub enum HexParseErrorKind {
    /// The line does not start with ':'.
    MissingColon,
    /// The line has an odd number of characters after the colon.
    OddLength,
    /// A character is not a hexadecimal digit.
    InvalidHexDigit,
    /// Fewer than the five mandatory bytes.
    TooShort,
    /// The byte count field disagrees with the line length.
    ByteCountMismatch,
    /// The record type byte is not one of the six known types.
    InvalidRecordType,
    /// The checksum byte does not match the record contents.
    ChecksumMismatch,
}

/// A parse failure, with the 1-based number of the offending line.
#[derive(Debug, Clone, Copy, PartialEq, Eq, Structural)]
pub struct HexParseError {
    /// 1-based source line number.
    pub line: usize,
    /// What was wrong with the line.
    pub kind: HexParseErrorKind,
}

/// Whether a byte is ASCII whitespace (space, tab, carriage return,
/// line feed).
pub open spec fn spec_is_space(b: u8) -> bool {
    b == 32 || b == 9 || b == 13 || b == 10
}

/// A byte sequence with leading whitespace removed.
pub open spec fn spec_trim_front(s: Seq<u8>) -> Seq<u8>
    decreases s.len(),
{
    if s.len() > 0 && spec_is_space(s[0]) {
        spec_trim_front(s.subrange(1, s.len() as int))
    } else {
        s
    }
}

/// A byte sequence with trailing whitespace removed.
pub open spec fn spec_trim_back(s: Seq<u8>) -> Seq<u8>
    decreases s.len(),
{
    if s.len() > 0 && spec_is_space(s[s.len() - 1]) {
        spec_trim_back(s.subrange(0, s.len() - 1))
    } else {
        s
    }
}

/// A byte sequence with surrounding whitespace removed.
pub open spec fn spec_trim(s: Seq<u8>) -> Seq<u8> {
    spec_trim_back(spec_trim_front(s))
}

/// Whether a byte is an ASCII hexadecimal digit.
pub open spec fn spec_is_hex_digit(b: u8) -> bool {
    (48 <= b <= 57) || (97 <= b <= 102) || (65 <= b <= 70)
}

/// The value of an ASCII hexadecimal digit (0 on other bytes).
pub open spec fn spec_hex_val(b: u8) -> u8 {
    if 48 <= b <= 57 {
        (b - 48) as u8
    } else if 97 <= b <= 102 {
        (b - 87) as u8
    } else if 65 <= b <= 70 {
        (b - 55) as u8
    } else {
        0
    }
}

/// Whether every byte of the sequence is a hexadecimal digit.
pub open spec fn spec_all_hex(s: Seq<u8>) -> bool {
    forall|i: int| 0 <= i < s.len() ==> spec_is_hex_digit(#[trigger] s[i])
}

/// The bytes encoded by a sequence of hexadecimal digit pairs.
pub open spec fn spec_pairs(s: Seq<u8>) -> Seq<u8> {
    Seq::new((s.len() / 2) as nat, |i: int| (16 * spec_hex_val(s[2 * i]) + spec_hex_val(
        s[2 * i + 1],
    )) as u8)
}

/// The wrapping byte sum of a sequence.
pub open spec fn spec_wrap_sum(s: Seq<u8>) -> u8
    decreases s.len(),
{
    if s.len() == 0 {
        0
    } else {
        spec_add_u8(spec_wrap_sum(s.drop_last()), s.last())
    }
}

/// The Intel HEX checksum of a sequence: the two's complement of its
/// wrapping byte sum.
pub open spec fn spec_checksum(s: Seq<u8>) -> u8 {
    if spec_wrap_sum(s) == 0 {
        0
    } else {
        (256 - spec_wrap_sum(s)) as u8
    }
}

/// Mathematical model of a parsed record.
#[verifier::ext_equal]
pub ghost struct HexRecordView {
    pub byte_count: u8,
    pub address: u16,
    pub record_type: RecordType,
    pub data: Seq<u8>,
    pub checksum: u8,
}

/// A single record from an Intel HEX file.
#[derive(Debug, Clone)]
pub struct HexRecord {
    /// Number of data bytes.
    pub byte_count: u8,
    /// 16-bit load offset.
    pub address: u16,
    /// Record type.
    pub record_type: RecordType,
    /// The data bytes.
    pub data: Vec<u8>,
    /// The checksum byte as read.
    pub checksum: u8,
}

impl View for HexRecord {
    type V = HexRecordView;

    open spec fn view(&self) -> HexRecordView {
        HexRecordView {
            byte_count: self.byte_count,
            address: self.address,
            record_type: self.record_type,
            data: self.data@,
            checksum: self.checksum,
        }
    }
}

/// The parse of one HEX line (after trimming): it must start with ':',
/// hold an even number of hexadecimal digits forming at least five
/// bytes, its count field must match the line length, its type must be
/// known, and its checksum must balance the record's bytes.
pub open spec fn spec_parse_record(line: Seq<u8>) -> Result<HexRecordView, HexParseErrorKind> {
    let t = spec_trim(line);
    if t.len() == 0 || t[0] != 58 {
        Err(HexParseErrorKind::MissingColon)
    } else {
        let body = t.subrange(1, t.len() as int);
        if body.len() % 2 != 0 {
            Err(HexParseErrorKind::OddLength)
        } else if !spec_all_hex(body) {
            Err(HexParseErrorKind::InvalidHexDigit)
        } else {
            let bytes = spec_pairs(body);
            if bytes.len() < 5 {
                Err(HexParseErrorKind::TooShort)
            } else {
                let byte_count = bytes[0];
                let address = ((bytes[1] as u16) << 8) | (bytes[2] as u16);
                match spec_record_type(bytes[3]) {
                    None => Err(HexParseErrorKind::InvalidRecordType),
                    Some(record_type) => {
                        let data_end = 4 + byte_count as int;
                        if bytes.len() != data_end + 1 {
                            Err(HexParseErrorKind::ByteCountMismatch)
                        } else if spec_checksum(bytes.subrange(0, data_end)) != bytes[data_end] {
                            Err(HexParseErrorKind::ChecksumMismatch)
                        } else {
                            Ok(HexRecordView {
                                byte_count,
                                address,
                                record_type,
                                data: bytes.subrange(4, data_end),
                                checksum: bytes[data_end],
                            })
                        }
                    },
                }
            }
        }
    }
}

impl HexRecord {
    /// Parse a single line of Intel HEX; surrounding whitespace is
    /// ignored.
    pub fn parse(line: &str) -> (r: Result<HexRecord, HexParseErrorKind>)
        ensures
            match spec_parse_record(line.spec_bytes()) {
                Ok(v) => r matches Ok(rec) && rec@ == v,
                Err(k) => r == Err::<HexRecord, HexParseErrorKind>(k),
            },
    {
        parse_record_bytes(line.as_bytes())
    }
}

/// Copy a range of a byte slice.
fn copy_range(s: &[u8], from: usize, to: usize) -> (r: Vec<u8>)
    requires
        from <= to <= s@.len(),
    ensures
        r@ == s@.subrange(from as int, to as int),
{
    let mut r: Vec<u8> = Vec::new();
    let mut i: usize = from;
    while i < to
        invariant
            from <= i <= to <= s@.len(),
            r@ == s@.subrange(from as int, i as int),
        decreases to - i,
    {
        let b = s[i];
        r.push(b);
        i = i + 1;
        proof {
            assert(r@ =~= s@.subrange(from as int, i as int));
        }
    }
    r
}

/// Trim ASCII whitespace from both ends of a byte slice.
fn trim_bytes(s: &[u8]) -> (r: Vec<u8>)
    ensures
        r@ == spec_trim(s@),
{
    proof {
        assert(s@.subrange(0, s@.len() as int) =~= s@);
    }
    let mut start: usize = 0;
    while start < s.len() && (s[start] == 32 || s[start] == 9 || s[start] == 13 || s[start] == 10)
        invariant
            start <= s@.len(),
            spec_trim_front(s@) == spec_trim_front(s@.subrange(start as int, s@.len() as int)),
        decreases s@.len() - start,
    {
        proof {
            let cur = s@.subrange(start as int, s@.len() as int);
            assert(cur.subrange(1, cur.len() as int) =~= s@.subrange(
                start + 1,
                s@.len() as int,
            ));
        }
        start = start + 1;
    }
    let ghost front = s@.subrange(start as int, s@.len() as int);
    proof {
        assert(spec_trim_front(s@) == front);
    }

    let mut end: usize = s.len();
    while end > start && (s[end - 1] == 32 || s[end - 1] == 9 || s[end - 1] == 13 || s[end - 1]
        == 10)
        invariant
            start <= end <= s@.len(),
            spec_trim_front(s@) == s@.subrange(start as int, s@.len() as int),
            spec_trim_back(s@.subrange(start as int, s@.len() as int)) == spec_trim_back(
                s@.subrange(start as int, end as int),
            ),
        decreases end,
    {
        proof {
            let cur = s@.subrange(start as int, end as int);
            assert(cur.subrange(0, cur.len() - 1) =~= s@.subrange(start as int, end - 1));
        }
        end = end - 1;
    }
    proof {
        let cur = s@.subrange(start as int, end as int);
        if end > start {
            assert(!spec_is_space(cur[cur.len() - 1]));
        }
        assert(spec_trim_back(cur) == cur);
    }
    copy_range(s, start, end)
}

/// The value of one hexadecimal digit, or None.
fn hex_digit_val(b: u8) -> (r: Option<u8>)
    ensures
        spec_is_hex_digit(b) ==> r == Some(spec_hex_val(b)),
        !spec_is_hex_digit(b) ==> r is None,
{
    if 48 <= b && b <= 57 {
        Some(b - 48)
    } else if 97 <= b && b <= 102 {
        Some(b - 87)
    } else if 65 <= b && b <= 70 {
        Some(b - 55)
    } else {
        None
    }
}

/// Parse one HEX line given as bytes.
fn parse_record_bytes(line: &[u8]) -> (r: Result<HexRecord, HexParseErrorKind>)
    ensures
        match spec_parse_record(line@) {
            Ok(v) => r matches Ok(rec) && rec@ == v,
            Err(k) => r == Err::<HexRecord, HexParseErrorKind>(k),
        },
{
    let t = trim_bytes(line);

    if t.len() == 0 || t[0] != 58 {
        return Err(HexParseErrorKind::MissingColon);
    }

    let body_len = t.len() - 1;
    if body_len % 2 != 0 {
        proof {
            assert(spec_trim(line@).subrange(1, spec_trim(line@).len() as int).len() % 2 != 0);
        }
        return Err(HexParseErrorKind::OddLength);
    }
    let ghost body = t@.subrange(1, t@.len() as int);

    // Parse the digit pairs into bytes.
    let mut bytes: Vec<u8> = Vec::new();
    let mut i: usize = 1;
    while i < t.len()
        invariant
            1 <= i <= t@.len(),
            (i - 1) % 2 == 0,
            t@ == spec_trim(line@),
            t@.len() > 0,
            t@[0] == 58,
            body == t@.subrange(1, t@.len() as int),
            body.len() % 2 == 0,
            forall|j: int| 0 <= j < i - 1 ==> spec_is_hex_digit(#[trigger] body[j]),
            bytes@.len() == (i - 1) / 2,
            forall|j: int| 0 <= j < bytes@.len() ==> bytes@[j] == spec_pairs(body)[j],
        decreases t@.len() - i,
    {
        let hi = match hex_digit_val(t[i]) {
            Some(v) => v,
            None => {
                proof {
                    assert(body[i - 1] == t@[i as int]);
                    assert(!spec_all_hex(body));
                }
                return Err(HexParseErrorKind::InvalidHexDigit);
            },
        };
        let lo = match hex_digit_val(t[i + 1]) {
            Some(v) => v,
            None => {
                proof {
                    assert(body[i as int] == t@[i + 1]);
                    assert(!spec_all_hex(body));
                }
                return Err(HexParseErrorKind::InvalidHexDigit);
            },
        };
        bytes.push(16 * hi + lo);
        i = i + 2;
    }
    proof {
        assert(spec_all_hex(body));
        assert(bytes@ =~= spec_pairs(body));
    }

    if bytes.len() < 5 {
        return Err(HexParseErrorKind::TooShort);
    }

    let byte_count = bytes[0];
    let address = ((bytes[1] as u16) << 8) | (bytes[2] as u16);
    let record_type = match RecordType::from_u8(bytes[3]) {
        Some(rt) => rt,
        None => {
            return Err(HexParseErrorKind::InvalidRecordType);
        },
    };

    let data_end = 4 + byte_count as usize;
    if bytes.len() != data_end + 1 {
        return Err(HexParseErrorKind::ByteCountMismatch);
    }

    let data = copy_range(bytes.as_slice(), 4, data_end);
    let checksum = bytes[data_end];

    let calculated = calculate_checksum(bytes.as_slice(), data_end);
    if calculated != checksum {
        return Err(HexParseErrorKind::ChecksumMismatch);
    }

    Ok(HexRecord { byte_count, address, record_type, data, checksum })
}

/// The Intel HEX checksum of the first `n` bytes of a slice.
fn calculate_checksum(bytes: &[u8], n: usize) -> (r: u8)
    requires
        n <= bytes@.len(),
    ensures
        r == spec_checksum(bytes@.subrange(0, n as int)),
{
    let mut sum: u8 = 0;
    let mut i: usize = 0;
    while i < n
        invariant
            i <= n <= bytes@.len(),
            sum == spec_wrap_sum(bytes@.subrange(0, i as int)),
        decreases n - i,
    {
        let b = bytes[i];
        sum = if (sum as u16) + (b as u16) < 256 {
            sum + b
        } else {
            ((sum as u16 + b as u16) - 256) as u8
        };
        i = i + 1;
        proof {
            let pre = bytes@.subrange(0, i - 1);
            let cur = bytes@.subrange(0, i as int);
            assert(cur.drop_last() =~= pre);
            assert(cur.last() == b);
        }
    }
    if sum == 0 {
        0
    } else {
        255 - sum + 1
    }
}

/// Index of the first line feed in a byte sequence, or its length.
pub open spec fn spec_first_nl(s: Seq<u8>) -> nat
    decreases s.len(),
{
    if s.len() == 0 {
        0
    } else if s[0] == 10 {
        0
    } else {
        1 + spec_first_nl(s.subrange(1, s.len() as int))
    }
}

proof fn lemma_first_nl(s: Seq<u8>)
    ensures
        spec_first_nl(s) <= s.len(),
        forall|k: int| 0 <= k < spec_first_nl(s) ==> s[k] != 10,
        spec_first_nl(s) < s.len() ==> s[spec_first_nl(s) as int] == 10,
    decreases s.len(),
{
    if s.len() > 0 && s[0] != 10 {
        let sub = s.subrange(1, s.len() as int);
        lemma_first_nl(sub);
        assert forall|k: int| 0 <= k < spec_first_nl(s) implies s[k] != 10 by {
            if k >= 1 {
                assert(sub[k - 1] != 10);
            }
        }
        if spec_first_nl(s) < s.len() {
            assert(s[spec_first_nl(s) as int] == sub[spec_first_nl(sub) as int]);
        }
    }
}

proof fn lemma_first_nl_is(s: Seq<u8>, i: int)
    requires
        0 <= i <= s.len(),
        forall|k: int| 0 <= k < i ==> s[k] != 10,
        i < s.len() ==> s[i] == 10,
    ensures
        spec_first_nl(s) == i,
    decreases i,
{
    if i > 0 {
        let sub = s.subrange(1, s.len() as int);
        assert forall|k: int| 0 <= k < i - 1 implies sub[k] != 10 by {
            assert(sub[k] == s[k + 1]);
        }
        lemma_first_nl_is(sub, i - 1);
    }
}

/// The lines of a byte sequence, split at line feeds: one line more
/// than there are line feeds.
pub open spec fn spec_split_lines(s: Seq<u8>) -> Seq<Seq<u8>>
    decreases s.len(),
{
    let i = spec_first_nl(s);
    if i >= s.len() {
        seq![s]
    } else {
        seq![s.subrange(0, i as int)] + spec_split_lines(s.subrange(i as int + 1, s.len() as int))
    }
}

/// Split a byte slice into its lines.
fn split_lines(bytes: &[u8]) -> (lines: Vec<Vec<u8>>)
    ensures
        lines@.len() == spec_split_lines(bytes@).len(),
        forall|j: int| 0 <= j < lines@.len() ==> #[trigger] lines@[j]@ == spec_split_lines(
            bytes@,
        )[j],
{
    let ghost full = spec_split_lines(bytes@);
    proof {
        assert(bytes@.subrange(0, bytes@.len() as int) =~= bytes@);
        assert(full.subrange(0, full.len() as int) =~= full);
    }
    let mut lines: Vec<Vec<u8>> = Vec::new();
    let mut start: usize = 0;
    let mut i: usize = 0;

    while i < bytes.len()
        invariant
            start <= i <= bytes@.len(),
            lines@.len() <= full.len(),
            forall|j: int| 0 <= j < lines@.len() ==> #[trigger] lines@[j]@ == full[j],
            spec_split_lines(bytes@.subrange(start as int, bytes@.len() as int)) == full.subrange(
                lines@.len() as int,
                full.len() as int,
            ),
            forall|k: int| start <= k < i ==> bytes@[k] != 10,
            full == spec_split_lines(bytes@),
        decreases bytes@.len() - i,
    {
        if bytes[i] == 10 {
            let line = copy_range(bytes, start, i);
            proof {
                let rem = bytes@.subrange(start as int, bytes@.len() as int);
                assert forall|k: int| 0 <= k < i - start implies rem[k] != 10 by {
                    assert(rem[k] == bytes@[start + k]);
                }
                lemma_first_nl_is(rem, i - start);
                assert(rem.subrange(0, i - start) =~= bytes@.subrange(start as int, i as int));
                assert(rem.subrange(i - start + 1, rem.len() as int) =~= bytes@.subrange(
                    i + 1,
                    bytes@.len() as int,
                ));
                assert(spec_split_lines(rem) == seq![bytes@.subrange(start as int, i as int)]
                    + spec_split_lines(bytes@.subrange(i + 1, bytes@.len() as int)));
                assert(full.subrange(lines@.len() as int, full.len() as int)[0] == bytes@.subrange(
                    start as int,
                    i as int,
                ));
                assert(full.subrange(lines@.len() as int, full.len() as int).subrange(
                    1,
                    full.len() - lines@.len(),
                ) =~= full.subrange(lines@.len() as int + 1, full.len() as int));
            }
            lines.push(line);
            start = i + 1;
        }
        i = i + 1;
    }

    let line = copy_range(bytes, start, bytes.len());
    proof {
        let rem = bytes@.subrange(start as int, bytes@.len() as int);
        assert forall|k: int| 0 <= k < rem.len() implies rem[k] != 10 by {
            assert(rem[k] == bytes@[start + k]);
        }
        lemma_first_nl_is(rem, rem.len() as int);
        assert(spec_split_lines(rem) == seq![rem]);
        assert(full.subrange(lines@.len() as int, full.len() as int) == seq![rem]);
        assert(full.len() - lines@.len() == 1);
        assert(full.subrange(lines@.len() as int, full.len() as int)[0] == full[lines@.len(
        ) as int]);
        assert(full[lines@.len() as int] == rem);
    }
    lines.push(line);
    lines
}

/// The extended base written by a type 02 or 04 record stays a shifted
/// 16-bit value.
proof fn lemma_extended_bound(d0: u8, d1: u8)
    by (bit_vector)
    ensures
        ((((d0 as u32) << 8) | (d1 as u32)) << 16) <= 0xFFFF0000,
        ((((d0 as u32) << 8) | (d1 as u32)) << 4) <= 0xFFFF0,
{
}

/// Mathematical model of the loader's running state.
#[verifier::ext_equal]
pub ghost struct LoadStateView {
    pub program_bytes: Seq<u8>,
    pub extended: u32,
    pub eeprom: Seq<u8>,
    pub config: Option<u16>,
}

impl LoadStateView {
    /// The buffers stay inside their regions and the base stays a
    /// shifted 16-bit value.
    pub open spec fn wf(self) -> bool {
        &&& self.program_bytes.len() <= 0x2000 + 255
        &&& self.eeprom.len() <= 0x80 + 255
        &&& self.extended <= 0xFFFF0000
    }
}

/// The initial loader state: empty buffers, base 0, no config word.
pub open spec fn spec_load_init() -> LoadStateView {
    LoadStateView {
        program_bytes: Seq::empty(),
        extended: 0,
        eeprom: Seq::empty(),
        config: None,
    }
}

/// A buffer after storing `data` at offset `at`: the buffer grows as
/// needed, gaps fill with 0xFF.
pub open spec fn spec_store(buf: Seq<u8>, at: int, data: Seq<u8>) -> Seq<u8> {
    let newlen = if buf.len() >= at + data.len() {
        buf.len() as int
    } else {
        at + data.len()
    };
    Seq::new(
        newlen as nat,
        |i: int|
            if at <= i < at + data.len() {
                data[i - at]
            } else if i < buf.len() {
                buf[i]
            } else {
                0xFFu8
            },
    )
}

/// The loader state after one record: a data record lands in the EEPROM
/// buffer (absolute 0x2100-0x217F), the configuration word (0x2007) or
/// the program byte buffer (below 0x2000) by its absolute start
/// address, and is ignored elsewhere; type 02/04 records move the base;
/// type 03/05 records are accepted and ignored.
pub open spec fn spec_apply_record(st: LoadStateView, rec: HexRecordView) -> LoadStateView {
    match rec.record_type {
        RecordType::Data => {
            let abs = st.extended as int + rec.address as int;
            if 0x2100 <= abs && abs < 0x2180 {
                LoadStateView { eeprom: spec_store(st.eeprom, abs - 0x2100, rec.data), ..st }
            } else if abs == 0x2007 {
                if rec.data.len() >= 2 {
                    LoadStateView {
                        config: Some((rec.data[0] as u16) | ((rec.data[1] as u16) << 8)),
                        ..st
                    }
                } else {
                    st
                }
            } else if abs < 0x2000 {
                LoadStateView {
                    program_bytes: spec_store(st.program_bytes, abs, rec.data),
                    ..st
                }
            } else {
                st
            }
        },
        RecordType::ExtendedLinearAddress => {
            if rec.data.len() >= 2 {
                LoadStateView {
                    extended: (((rec.data[0] as u32) << 8) | (rec.data[1] as u32)) << 16,
                    ..st
                }
            } else {
                st
            }
        },
        RecordType::ExtendedSegmentAddress => {
            if rec.data.len() >= 2 {
                LoadStateView {
                    extended: (((rec.data[0] as u32) << 8) | (rec.data[1] as u32)) << 4,
                    ..st
                }
            } else {
                st
            }
        },
        _ => st,
    }
}

/// The loader state after the lines from index `i` on: blank lines and
/// ';' comment lines are skipped, an end-of-file record stops, a parse
/// failure reports the 1-based line number.
pub open spec fn spec_load_lines(lines: Seq<Seq<u8>>, i: int, st: LoadStateView) -> Result<
    LoadStateView,
    HexParseError,
>
    decreases lines.len() - i,
{
    if i < 0 || i >= lines.len() {
        Ok(st)
    } else {
        let t = spec_trim(lines[i]);
        if t.len() == 0 || t[0] == 59 {
            spec_load_lines(lines, i + 1, st)
        } else {
            match spec_parse_record(lines[i]) {
                Err(kind) => Err(HexParseError { line: (i + 1) as usize, kind }),
                Ok(rec) => {
                    if rec.record_type == RecordType::EndOfFile {
                        Ok(st)
                    } else {
                        spec_load_lines(lines, i + 1, spec_apply_record(st, rec))
                    }
                },
            }
        }
    }
}

/// The little-endian 14-bit words of a program byte buffer; an odd
/// trailing byte becomes a word with a zero high byte.
pub open spec fn spec_bytes_to_words(bytes: Seq<u8>) -> Seq<u16> {
    Seq::new(
        ((bytes.len() + 1) / 2) as nat,
        |i: int|
            if 2 * i + 1 < bytes.len() {
                ((bytes[2 * i] as u16) | ((bytes[2 * i + 1] as u16) << 8)) & 0x3FFF
            } else {
                bytes[2 * i] as u16
            },
    )
}

/// The parse of a whole Intel HEX text: the loader state folded over
/// its lines, then the program byte buffer folded into words.
pub open spec fn spec_load_hex(s: Seq<u8>) -> Result<HexProgramView, HexParseError> {
    match spec_load_lines(spec_split_lines(s), 0, spec_load_init()) {
        Err(e) => Err(e),
        Ok(st) => Ok(
            HexProgramView {
                program: spec_bytes_to_words(st.program_bytes),
                eeprom: st.eeprom,
                config: st.config,
                start_address: 0,
            },
        ),
    }
}

/// Mathematical model of a loaded program image.
#[verifier::ext_equal]
pub ghost struct HexProgramView {
    pub program: Seq<u16>,
    pub eeprom: Seq<u8>,
    pub config: Option<u16>,
    pub start_address: u16,
}

/// A loaded program image.
#[derive(Debug, Clone)]
pub struct HexProgram {
    /// Program memory words (14-bit, in 16-bit cells).
    pub program: Vec<u16>,
    /// EEPROM bytes, if any data record targeted the EEPROM region.
    pub eeprom: Vec<u8>,
    /// Configuration word, if a data record targeted 0x2007.
    pub config: Option<u16>,
    /// Start address for the program counter.
    pub start_address: u16,
}

impl View for HexProgram {
    type V = HexProgramView;

    open spec fn view(&self) -> HexProgramView {
        HexProgramView {
            program: self.program@,
            eeprom: self.eeprom@,
            config: self.config,
            start_address: self.start_address,
        }
    }
}

/// Store `data` into `buf` at offset `at`, growing the buffer with
/// 0xFF as needed.
fn store_bytes(buf: &mut Vec<u8>, at: usize, data: &[u8])
    requires
        at + data@.len() <= 0x10000,
        old(buf)@.len() <= 0x10000,
    ensures
        final(buf)@ == spec_store(old(buf)@, at as int, data@),
{
    let end = at + data.len();
    proof {
        assert(buf@.subrange(0, old(buf)@.len() as int) =~= old(buf)@);
    }
    while buf.len() < end
        invariant
            end == at + data@.len(),
            end <= 0x10000,
            buf@.len() <= if old(buf)@.len() >= end {
                old(buf)@.len() as int
            } else {
                end as int
            },
            buf@.len() >= old(buf)@.len(),
            buf@.subrange(0, old(buf)@.len() as int) == old(buf)@,
            forall|j: int| old(buf)@.len() <= j < buf@.len() ==> buf@[j] == 0xFFu8,
        decreases end - buf@.len(),
    {
        buf.push(0xFF);
        proof {
            assert(buf@.subrange(0, old(buf)@.len() as int) =~= old(buf)@);
        }
    }
    proof {
        assert(at + data@.len() <= buf@.len());
        assert(buf@.len() == spec_store(old(buf)@, at as int, data@).len());
    }
    let mut i: usize = 0;
    while i < data.len()
        invariant
            i <= data@.len(),
            at + data@.len() <= buf@.len(),
            buf@.len() <= 0x10000,
            buf@.len() == spec_store(old(buf)@, at as int, data@).len(),
            forall|j: int| 0 <= j < i ==> buf@[at + j] == data@[j],
            forall|j: int|
                0 <= j < buf@.len() && !(at <= j < at + data@.len()) ==> buf@[j] == spec_store(
                    old(buf)@,
                    at as int,
                    data@,
                )[j],
        decreases data@.len() - i,
    {
        let b = data[i];
        buf.set(at + i, b);
        i = i + 1;
    }
    proof {
        assert(buf@ =~= spec_store(old(buf)@, at as int, data@));
    }
}

/// The Intel HEX loader.
pub struct HexLoader;

impl HexLoader {
    /// Parse a whole Intel HEX text into a program image. Blank lines
    /// and lines starting with ';' are skipped; the first malformed
    /// line is reported with its 1-based number; an end-of-file record
    /// stops the parse.
    pub fn load_from_string(content: &str) -> (r: Result<HexProgram, HexParseError>)
        ensures
            match spec_load_hex(content.spec_bytes()) {
                Ok(v) => r matches Ok(p) && p@ == v,
                Err(e) => r == Err::<HexProgram, HexParseError>(e),
            },
    {
        let bytes = content.as_bytes();
        let lines = split_lines(bytes);
        let ghost line_seq = spec_split_lines(bytes@);

        let mut program_bytes: Vec<u8> = Vec::new();
        let mut extended: u32 = 0;
        let mut eeprom_data: Vec<u8> = Vec::new();
        let mut config_word: Option<u16> = None;
        let mut ended = false;

        let mut i: usize = 0;
        while i < lines.len() && !ended
            invariant
                i <= lines@.len(),
                line_seq == spec_split_lines(content.spec_bytes()),
                lines@.len() == line_seq.len(),
                forall|j: int| 0 <= j < lines@.len() ==> #[trigger] lines@[j]@ == line_seq[j],
                (LoadStateView {
                    program_bytes: program_bytes@,
                    extended,
                    eeprom: eeprom_data@,
                    config: config_word,
                }).wf(),
                !ended ==> spec_load_lines(line_seq, 0, spec_load_init()) == spec_load_lines(
                    line_seq,
                    i as int,
                    (LoadStateView {
                        program_bytes: program_bytes@,
                        extended,
                        eeprom: eeprom_data@,
                        config: config_word,
                    }),
                ),
                ended ==> spec_load_lines(line_seq, 0, spec_load_init()) == Ok::<
                    LoadStateView,
                    HexParseError,
                >(
                    LoadStateView {
                        program_bytes: program_bytes@,
                        extended,
                        eeprom: eeprom_data@,
                        config: config_word,
                    },
                ),
            decreases lines@.len() - i,
        {
            let ghost st_before = LoadStateView {
                program_bytes: program_bytes@,
                extended,
                eeprom: eeprom_data@,
                config: config_word,
            };
            let line = &lines[i];
            let t = trim_bytes(line.as_slice());

            if t.len() == 0 || t[0] == 59 {
                proof {
                    assert(spec_load_lines(line_seq, i as int, st_before) == spec_load_lines(
                        line_seq,
                        i as int + 1,
                        st_before,
                    ));
                }
                i = i + 1;
                continue;
            }

            let record = match parse_record_bytes(line.as_slice()) {
                Ok(record) => record,
                Err(kind) => {
                    proof {
                        assert(spec_load_lines(line_seq, i as int, st_before) == Err::<
                            LoadStateView,
                            HexParseError,
                        >(HexParseError { line: (i + 1) as usize, kind }));
                        assert(spec_load_hex(content.spec_bytes()) == Err::<
                            HexProgramView,
                            HexParseError,
                        >(HexParseError { line: (i + 1) as usize, kind }));
                    }
                    return Err(HexParseError { line: i + 1, kind });
                },
            };
            proof {
                lemma_extended_bound(record@.data[0], record@.data[1]);
                assert(record@.data.len() <= 255);
            }

            match record.record_type {
                RecordType::Data => {
                    let abs: u32 = extended + (record.address as u32);

                    if 0x2100 <= abs && abs < 0x2180 {
                        let eeprom_addr = (abs - 0x2100) as usize;
                        store_bytes(&mut eeprom_data, eeprom_addr, record.data.as_slice());
                    } else if abs == 0x2007 {
                        if record.data.len() >= 2 {
                            config_word = Some(
                                (record.data[0] as u16) | ((record.data[1] as u16) << 8),
                            );
                        }
                    } else if abs < 0x2000 {
                        let prog_addr = abs as usize;
                        store_bytes(&mut program_bytes, prog_addr, record.data.as_slice());
                    }
                },
                RecordType::EndOfFile => {
                    ended = true;
                },
                RecordType::ExtendedLinearAddress => {
                    if record.data.len() >= 2 {
                        extended = (((record.data[0] as u32) << 8) | (record.data[1] as u32))
                            << 16;
                    }
                },
                RecordType::ExtendedSegmentAddress => {
                    if record.data.len() >= 2 {
                        extended = (((record.data[0] as u32) << 8) | (record.data[1] as u32))
                            << 4;
                    }
                },
                _ => {},
            }

            proof {
                let st_after = LoadStateView {
                    program_bytes: program_bytes@,
                    extended,
                    eeprom: eeprom_data@,
                    config: config_word,
                };
                if record@.record_type == RecordType::EndOfFile {
                    assert(st_after == st_before);
                    assert(spec_load_lines(line_seq, i as int, st_before) == Ok::<
                        LoadStateView,
                        HexParseError,
                    >(st_before));
                } else {
                    assert(st_after =~= spec_apply_record(st_before, record@));
                    assert(spec_load_lines(line_seq, i as int, st_before) == spec_load_lines(
                        line_seq,
                        i as int + 1,
                        st_after,
                    ));
                }
            }

            i = i + 1;
        }
        proof {
            let st_final = LoadStateView {
                program_bytes: program_bytes@,
                extended,
                eeprom: eeprom_data@,
                config: config_word,
            };
            if !ended {
                assert(spec_load_lines(line_seq, i as int, st_final) == Ok::<
                    LoadStateView,
                    HexParseError,
                >(st_final));
            }
            assert(spec_load_lines(line_seq, 0, spec_load_init()) == Ok::<
                LoadStateView,
                HexParseError,
            >(st_final));
        }

        // Fold the program byte buffer into little-endian 14-bit words.
        let mut program: Vec<u16> = Vec::new();
        let mut j: usize = 0;
        while j + 1 < program_bytes.len()
            invariant
                j % 2 == 0,
                j <= program_bytes@.len() + 1,
                program@.len() == j / 2,
                forall|k: int| 0 <= k < program@.len() ==> program@[k] == spec_bytes_to_words(
                    program_bytes@,
                )[k],
            decreases program_bytes@.len() - j,
        {
            let low = program_bytes[j] as u16;
            let high = program_bytes[j + 1] as u16;
            let word = (low | (high << 8)) & 0x3FFF;
            program.push(word);
            j = j + 2;
        }
        if j < program_bytes.len() {
            let word = program_bytes[j] as u16;
            program.push(word);
            j = j + 2;
        }
        proof {
            assert(program@ =~= spec_bytes_to_words(program_bytes@));
        }

        Ok(HexProgram { program, eeprom: eeprom_data, config: config_word, start_address: 0 })
    }
}

} // verus!
