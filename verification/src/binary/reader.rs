//! A bounded byte reader over a module's bytes, and the errors of reading.
use vstd::prelude::*;
use vstd::string::*;
use vstd::utf8::{decode_utf8, valid_utf8};

use crate::binary::leb128::{self, spec_u8, spec_leb_i32, spec_leb_i64, spec_leb_u32, spec_leb_u64, DecodeError};
use crate::text::{decimal, hex, signed_decimal, spec_decimal, spec_hex, spec_signed_decimal};

verus! {

/// What a reader denotes: the whole byte buffer, the current position and
/// the end of the window that may be read.
pub struct RView {
    pub bytes: Seq<u8>,
    pub pos: int,
    pub end: int,
}

impl RView {
    pub open spec fn wf(self) -> bool {
        0 <= self.pos <= self.end <= self.bytes.len()
    }

    /// The same window, at another position.
    pub open spec fn at(self, p: int) -> RView {
        RView { bytes: self.bytes, pos: p, end: self.end }
    }

    /// The bytes left in the window.
    pub open spec fn rest(self) -> Seq<u8> {
        self.bytes.subrange(self.pos, self.end)
    }

    pub open spec fn exhausted(self) -> bool {
        self.pos >= self.end
    }

    /// `other` reads the same buffer and window as `self`.
    pub open spec fn same_window(self, other: RView) -> bool {
        self.bytes == other.bytes && self.end == other.end
    }
}

/// Result of a decoder as its model sees it: the decoded value's
/// model and the position after it, or an error.
pub open spec fn parsed<T: View, E>(spec: Result<(T::V, int), E>, res: Result<T, E>, after: RView) -> bool {
    match spec {
        Ok((m, p)) => res is Ok && res->Ok_0@ == m && after.pos == p,
        Err(e) => res == Err::<T, E>(e),
    }
}

/// Result of a reader of a plain value (its own model).
pub open spec fn read_as<T, E>(spec: Result<(T, int), E>, res: Result<T, E>, after: RView) -> bool {
    match spec {
        Ok((m, p)) => res == Ok::<T, E>(m) && after.pos == p,
        Err(e) => res == Err::<T, E>(e),
    }
}

/// A reader of a window `[range_start, end)` of a byte buffer.
pub struct Reader<'a> {
    bytes: &'a [u8],
    pos: usize,
    end: usize,
}

impl<'a> View for Reader<'a> {
    type V = RView;

    closed spec fn view(&self) -> RView {
        RView { bytes: self.bytes@, pos: self.pos as int, end: self.end as int }
    }
}

/// A value read from a single byte, with its position.
pub open spec fn spec_read_u8(v: RView) -> Result<(u8, int), ReadError> {
    lift_decode(v, spec_u8(v))
}

/// Lifts a decoding of the window's rest into a reading of the window.
pub open spec fn lift_decode<T>(v: RView, d: Result<(T, int), DecodeError>) -> Result<(T, int), ReadError> {
    match d {
        Ok((x, p)) => Ok((x, p)),
        Err(e) => Err(ReadError { offset: v.pos as usize, kind: ReadErrorKind::Decode(e) }),
    }
}

pub open spec fn spec_read_u32(v: RView) -> Result<(u32, int), ReadError> {
    lift_decode(v, spec_leb_u32(v))
}

pub open spec fn spec_read_u64(v: RView) -> Result<(u64, int), ReadError> {
    lift_decode(v, spec_leb_u64(v))
}

pub open spec fn spec_read_i32(v: RView) -> Result<(i32, int), ReadError> {
    lift_decode(v, spec_leb_i32(v))
}

pub open spec fn spec_read_i64(v: RView) -> Result<(i64, int), ReadError> {
    lift_decode(v, spec_leb_i64(v))
}

/// `len` raw bytes.
pub open spec fn spec_read_exact(v: RView, len: int) -> Result<(Seq<u8>, int), ReadError> {
    if v.pos + len <= v.end {
        Ok((v.bytes.subrange(v.pos, v.pos + len), v.pos + len))
    } else {
        Err(ReadError { offset: v.pos as usize, kind: ReadErrorKind::ReadExact { len: len as usize } })
    }
}

/// A name: a byte length, then that many bytes of UTF-8.
pub open spec fn spec_read_name(v: RView) -> Result<(Seq<char>, int), ReadError> {
    match spec_read_u32(v) {
        Err(e) => Err(e),
        Ok((len, p)) => match spec_read_exact(v.at(p), len as int) {
            Err(e) => Err(e),
            Ok((b, q)) => if valid_utf8(b) {
                Ok((decode_utf8(b), q))
            } else {
                Err(ReadError { offset: v.pos as usize, kind: ReadErrorKind::FromUtf8 })
            },
        },
    }
}

/// A sub-window of `size` bytes at the current position.
pub open spec fn spec_scoped(v: RView, size: u32) -> Result<RView, ReadError> {
    if v.pos + size > v.end {
        Err(ReadError {
            offset: v.pos as usize,
            kind: ReadErrorKind::OutOfRange { size, remaining: (v.end - v.pos) as u64 },
        })
    } else {
        Ok(RView { bytes: v.bytes, pos: v.pos, end: v.pos + size })
    }
}

/// The first `n` items of a vector of `T`, read one after the other.
pub open spec fn spec_read_items<T: FromReader>(v: RView, n: nat) -> Result<(Seq<T::V>, int), VecReadError<T::Error>>
    decreases n,
{
    if n == 0 {
        Ok((seq![], v.pos))
    } else {
        match spec_read_items::<T>(v, (n - 1) as nat) {
            Err(e) => Err(e),
            Ok((xs, p)) => match T::spec_from_reader(v.at(p)) {
                Err(e) => Err(VecReadError::Element { index: (n - 1) as usize, source: e }),
                Ok((x, q)) => Ok((xs.push(x), q)),
            },
        }
    }
}

/// A vector of `T`: a `u32` count, then that many items.
pub open spec fn spec_read_vec_of<T: FromReader>(v: RView) -> Result<(Seq<T::V>, int), VecReadError<T::Error>> {
    match spec_read_u32(v) {
        Err(e) => Err(VecReadError::Count(e)),
        Ok((n, p)) => spec_read_items::<T>(v.at(p), n as nat),
    }
}

/// Once the first `i` items fail, so do the first `n` for any `n >= i`, with the same error.
pub proof fn lemma_read_items_err<T: FromReader>(v: RView, i: nat, n: nat)
    requires
        i <= n,
        spec_read_items::<T>(v, i) is Err,
    ensures
        spec_read_items::<T>(v, n) == spec_read_items::<T>(v, i),
    decreases n,
{
    if n > i {
        lemma_read_items_err::<T>(v, i, (n - 1) as nat);
    }
}

/// Decoding of a value of this type from a reader.
pub trait FromReader: Sized + View {
    type Error;

    spec fn spec_from_reader(v: RView) -> Result<(Self::V, int), Self::Error>;

    fn from_reader(reader: &mut Reader) -> (res: Result<Self, Self::Error>)
        ensures
            parsed(Self::spec_from_reader(old(reader)@), res, final(reader)@),
            final(reader)@.same_window(old(reader)@),
            res is Ok ==> old(reader)@.pos <= final(reader)@.pos <= final(reader)@.end,
    ;
}

pub open spec fn vec_view<T: View>(v: Seq<T>) -> Seq<T::V> {
    v.map_values(|x: T| x@)
}

impl<'a> Reader<'a> {
    #[verifier::type_invariant]
    spec fn inv(self) -> bool {
        self.pos <= self.end <= self.bytes@.len()
    }

    /// A reader of `bytes[pos..]`.
    pub fn from_bytes(bytes: &'a [u8], pos: usize) -> (r: Self)
        requires
            pos <= bytes@.len(),
        ensures
            r@ == (RView { bytes: bytes@, pos: pos as int, end: bytes@.len() as int }),
    {
        Reader { bytes, pos, end: bytes.len() }
    }

    /// A reader of `bytes[start..end]`, if that range lies in `bytes`.
    pub fn from_bytes_range(bytes: &'a [u8], start: usize, end: usize) -> (r: Result<Self, ReadError>)
        requires
            start <= end,
            start <= bytes@.len(),
        ensures
            end <= bytes@.len() ==> r is Ok && r->Ok_0@ == (RView {
                bytes: bytes@,
                pos: start as int,
                end: end as int,
            }),
            end > bytes@.len() ==> r == Err::<Self, ReadError>(
                ReadError {
                    offset: start,
                    kind: ReadErrorKind::OutOfRange {
                        size: (end - start) as u32,
                        remaining: (bytes@.len() - start) as u64,
                    },
                },
            ),
    {
        if end > bytes.len() {
            return Err(
                ReadError {
                    offset: start,
                    kind: ReadErrorKind::OutOfRange {
                        size: (end - start) as u32,
                        remaining: (bytes.len() - start) as u64,
                    },
                },
            );
        }
        Ok(Reader { bytes, pos: start, end })
    }

    /// Splits off the next `size` bytes as a reader of their own, and moves past them.
    pub fn scoped(&mut self, size: u32) -> (r: Result<Reader<'a>, ReadError>)
        ensures
            match spec_scoped(old(self)@, size) {
                Ok(w) => r is Ok && r->Ok_0@ == w && final(self)@ == old(self)@.at(w.end),
                Err(e) => r == Err::<Reader<'a>, ReadError>(e) && final(self)@ == old(self)@,
            },
            final(self)@.same_window(old(self)@),
    {
        proof {
            use_type_invariant(&*self);
        }
        let start = self.pos;
        if size as usize > self.end - start {
            return Err(
                ReadError {
                    offset: start,
                    kind: ReadErrorKind::OutOfRange { size, remaining: (self.end - start) as u64 },
                },
            );
        }
        let end = start + size as usize;
        self.pos = end;
        Ok(Reader { bytes: self.bytes, pos: start, end })
    }

    /// The next `len` bytes.
    pub fn read_exact(&mut self, len: usize) -> (r: Result<Vec<u8>, ReadError>)
        ensures
            parsed(spec_read_exact(old(self)@, len as int), r, final(self)@),
            final(self)@.same_window(old(self)@),
            old(self)@.wf(),
            r is Ok ==> old(self)@.pos <= final(self)@.pos <= final(self)@.end,
    {
        proof {
            use_type_invariant(&*self);
        }
        if len > self.end - self.pos {
            return Err(ReadError { offset: self.pos, kind: ReadErrorKind::ReadExact { len } });
        }
        let mut out: Vec<u8> = Vec::with_capacity(len);
        let start = self.pos;
        let mut i: usize = 0;
        while i < len
            invariant
                start + len <= self.end <= self.bytes@.len(),
                self.pos == start,
                i <= len,
                out@ == self.bytes@.subrange(start as int, start + i),
            decreases len - i,
        {
            out.push(self.bytes[start + i]);
            i = i + 1;
            assert(out@ =~= self.bytes@.subrange(start as int, start + i));
        }
        self.pos = start + len;
        Ok(out)
    }

    pub fn position(&self) -> (r: u64)
        ensures
            r == self@.pos,
            r <= usize::MAX,
            self@.wf(),
    {
        proof {
            use_type_invariant(self);
        }
        self.pos as u64
    }

    pub fn is_exhausted(&self) -> (r: bool)
        ensures
            r == self@.exhausted(),
    {
        self.pos >= self.end
    }

    /// Whether the underlying buffer holds bytes at or past the position.
    pub fn has_data_left(&self) -> (r: Result<bool, ReadError>)
        ensures
            r == Ok::<bool, ReadError>(self@.pos < self@.bytes.len()),
    {
        Ok(self.pos < self.bytes.len())
    }

    /// The byte at the position of the underlying buffer, without moving.
    pub fn peek(&self) -> (r: Result<u8, ReadError>)
        ensures
            r == spec_peek(self@),
    {
        proof {
            use_type_invariant(self);
        }
        if self.pos < self.bytes.len() {
            Ok(self.bytes[self.pos])
        } else {
            Err(ReadError { offset: self.pos, kind: ReadErrorKind::Read })
        }
    }

    /// States that the reader's window is well formed; does nothing.
    pub(crate) fn check_window(&self)
        ensures
            self@.wf(),
    {
        proof {
            use_type_invariant(self);
        }
    }

    /// Bytes left in the window.
    pub(crate) fn remaining(&self) -> (r: usize)
        ensures
            r == self@.end - self@.pos,
            self@.wf(),
    {
        proof {
            use_type_invariant(self);
        }
        self.end - self.pos
    }

    /// The byte `off` places past the position.
    pub(crate) fn byte_at(&self, off: usize) -> (r: u8)
        requires
            off < self@.end - self@.pos,
        ensures
            r == self@.rest()[off as int],
    {
        proof {
            use_type_invariant(self);
        }
        self.bytes[self.pos + off]
    }

    /// Moves `n` bytes forward.
    pub(crate) fn advance(&mut self, n: usize)
        requires
            n <= old(self)@.end - old(self)@.pos,
        ensures
            final(self)@ == old(self)@.at(old(self)@.pos + n),
    {
        proof {
            use_type_invariant(&*self);
        }
        self.pos = self.pos + n;
    }

    pub fn read_u8(&mut self) -> (r: Result<u8, ReadError>)
        ensures
            read_as(spec_read_u8(old(self)@), r, final(self)@),
            final(self)@.same_window(old(self)@),
            r is Ok ==> old(self)@.pos < final(self)@.pos <= final(self)@.end,
            r is Err ==> final(self)@ == old(self)@,
    {
        let offset = self.position() as usize;
        match leb128::read_u8(self) {
            Ok(v) => Ok(v),
            Err(e) => Err(ReadError { offset, kind: ReadErrorKind::Decode(e) }),
        }
    }

    pub fn read_u32(&mut self) -> (r: Result<u32, ReadError>)
        ensures
            read_as(spec_read_u32(old(self)@), r, final(self)@),
            final(self)@.same_window(old(self)@),
            r is Ok ==> old(self)@.pos < final(self)@.pos <= final(self)@.end,
    {
        let offset = self.position() as usize;
        let ghost v0 = self@;
        match leb128::read_leb128_u32(self) {
            Ok(v) => {
                proof {
                    leb128::lemma_scan_ok(v0.rest(), 0, leb128::LebKind::U32);
                }
                Ok(v)
            },
            Err(e) => Err(ReadError { offset, kind: ReadErrorKind::Decode(e) }),
        }
    }

    pub fn read_u64(&mut self) -> (r: Result<u64, ReadError>)
        ensures
            read_as(spec_read_u64(old(self)@), r, final(self)@),
            final(self)@.same_window(old(self)@),
            r is Ok ==> old(self)@.pos < final(self)@.pos <= final(self)@.end,
    {
        let offset = self.position() as usize;
        let ghost v0 = self@;
        match leb128::read_leb128_u64(self) {
            Ok(v) => {
                proof {
                    leb128::lemma_scan_ok(v0.rest(), 0, leb128::LebKind::U64);
                }
                Ok(v)
            },
            Err(e) => Err(ReadError { offset, kind: ReadErrorKind::Decode(e) }),
        }
    }

    pub fn read_i32(&mut self) -> (r: Result<i32, ReadError>)
        ensures
            read_as(spec_read_i32(old(self)@), r, final(self)@),
            final(self)@.same_window(old(self)@),
            r is Ok ==> old(self)@.pos < final(self)@.pos <= final(self)@.end,
    {
        let offset = self.position() as usize;
        let ghost v0 = self@;
        match leb128::read_leb128_i32(self) {
            Ok(v) => {
                proof {
                    leb128::lemma_scan_ok(v0.rest(), 0, leb128::LebKind::I32);
                }
                Ok(v)
            },
            Err(e) => Err(ReadError { offset, kind: ReadErrorKind::Decode(e) }),
        }
    }

    pub fn read_i64(&mut self) -> (r: Result<i64, ReadError>)
        ensures
            read_as(spec_read_i64(old(self)@), r, final(self)@),
            final(self)@.same_window(old(self)@),
            r is Ok ==> old(self)@.pos < final(self)@.pos <= final(self)@.end,
    {
        let offset = self.position() as usize;
        let ghost v0 = self@;
        match leb128::read_leb128_i64(self) {
            Ok(v) => {
                proof {
                    leb128::lemma_scan_ok(v0.rest(), 0, leb128::LebKind::I64);
                }
                Ok(v)
            },
            Err(e) => Err(ReadError { offset, kind: ReadErrorKind::Decode(e) }),
        }
    }

    /// Decodes a value of type `T`.
    pub fn read<T: FromReader>(&mut self) -> (r: Result<T, T::Error>)
        ensures
            parsed(T::spec_from_reader(old(self)@), r, final(self)@),
            final(self)@.same_window(old(self)@),
            r is Ok ==> old(self)@.pos <= final(self)@.pos <= final(self)@.end,
    {
        T::from_reader(self)
    }

    /// Decodes a vector of values of type `T`: a count, then the items.
    pub fn read_vec<T: FromReader>(&mut self) -> (r: Result<Vec<T>, VecReadError<T::Error>>)
        ensures
            match spec_read_vec_of::<T>(old(self)@) {
                Ok((s, p)) => r is Ok && vec_view(r->Ok_0@) == s && final(self)@.pos == p,
                Err(e) => r == Err::<Vec<T>, VecReadError<T::Error>>(e),
            },
            final(self)@.same_window(old(self)@),
            r is Ok ==> old(self)@.pos < final(self)@.pos <= final(self)@.end,
    {
        let ghost v0 = self@;
        let len = match self.read_u32() {
            Ok(n) => n,
            Err(e) => return Err(VecReadError::Count(e)),
        };
        let ghost v1 = self@;
        let mut out: Vec<T> = Vec::new();
        let mut i: u32 = 0;
        proof {
            assert(vec_view(out@) =~= seq![]);
            assert(v1 == v0.at(v1.pos));
        }
        while i < len
            invariant
                i <= len,
                self@.same_window(v1),
                v1.same_window(v0),
                v0 == old(self)@,
                v0.pos < v1.pos <= self@.pos <= self@.end,
                spec_read_items::<T>(v1, i as nat) == Ok::<(Seq<T::V>, int), VecReadError<T::Error>>(
                    (vec_view(out@), self@.pos),
                ),
                spec_read_vec_of::<T>(v0) == spec_read_items::<T>(v1, len as nat),
            decreases len - i,
        {
            let ghost before = self@;
            proof {
                assert(before == v1.at(before.pos));
            }
            let res = T::from_reader(self);
            match res {
                Ok(x) => {
                    proof {
                        assert(vec_view(out@.push(x)) =~= vec_view(out@).push(x@));
                    }
                    out.push(x);
                },
                Err(e) => {
                    proof {
                        lemma_read_items_err::<T>(v1, (i + 1) as nat, len as nat);
                    }
                    return Err(VecReadError::Element { index: i as usize, source: e });
                },
            }
            i = i + 1;
        }
        Ok(out)
    }

    /// A name: a byte length, then that many bytes of UTF-8.
    pub fn read_name(&mut self) -> (r: Result<String, ReadError>)
        ensures
            parsed(spec_read_name(old(self)@), r, final(self)@),
            final(self)@.same_window(old(self)@),
            r is Ok ==> old(self)@.pos < final(self)@.pos <= final(self)@.end,
    {
        let offset = self.position() as usize;
        let len = self.read_u32()?;
        let bytes = self.read_exact(len as usize)?;
        match string_from_utf8(bytes) {
            Some(s) => Ok(s),
            None => Err(ReadError { offset, kind: ReadErrorKind::FromUtf8 }),
        }
    }
}

pub open spec fn spec_peek(v: RView) -> Result<u8, ReadError> {
    if v.pos < v.bytes.len() {
        Ok(v.bytes[v.pos])
    } else {
        Err(ReadError { offset: v.pos as usize, kind: ReadErrorKind::Read })
    }
}

/// `String::from_utf8`: per the standard library's documentation it succeeds
/// exactly on valid UTF-8, and the string holds the decoded characters.
#[verifier::external_body]
fn string_from_utf8(bytes: Vec<u8>) -> (r: Option<String>)
    ensures
        match r {
            Some(s) => valid_utf8(bytes@) && s@ == decode_utf8(bytes@),
            None => !valid_utf8(bytes@),
        },
{
    String::from_utf8(bytes).ok()
}

/// An error of reading, with the offset where it occurred.
#[derive(Debug)]
#[non_exhaustive]
pub struct ReadError {
    pub offset: usize,
    pub kind: ReadErrorKind,
}

#[derive(Debug)]
#[non_exhaustive]
pub enum ReadErrorKind {
    Decode(DecodeError),
    Read,
    ReadExact { len: usize },
    FromUtf8,
    InvalidEnumValue(InvalidEnumValueError),
    OutOfRange { size: u32, remaining: u64 },
    UnexpectedValue { value: i64, expected: &'static str },
    BadMagic,
    BadVersion,
}

#[derive(Debug)]
#[non_exhaustive]
pub struct InvalidEnumValueError {
    pub value: u8,
    pub enum_name: &'static str,
}

impl ReadError {
    pub fn at_offset(kind: ReadErrorKind, offset: usize) -> (r: Self)
        ensures
            r == (ReadError { offset, kind }),
    {
        ReadError { offset, kind }
    }

    /// The message of this error.
    pub open spec fn message(&self) -> Seq<char> {
        let o = self.offset as nat;
        match self.kind {
            ReadErrorKind::Decode(_) => "decoding byte at offset "@ + spec_decimal(o),
            ReadErrorKind::Read => "reading byte at offset "@ + spec_decimal(o),
            ReadErrorKind::ReadExact { len } => "reading "@ + spec_decimal(len as nat)
                + " bytes starting at offset "@ + spec_decimal(o),
            ReadErrorKind::InvalidEnumValue(_) => "converting value at offset "@ + spec_hex(o)
                + " ("@ + spec_decimal(o) + "), into an enum"@,
            ReadErrorKind::OutOfRange { size, remaining } => "requested "@ + spec_decimal(
                size as nat,
            ) + " bytes, only "@ + spec_decimal(remaining as nat) + " available"@,
            ReadErrorKind::UnexpectedValue { value, expected } => "value at offset "@
                + spec_decimal(o) + ", expected "@ + expected@ + ", got "@ + spec_signed_decimal(
                value as int,
            ) + " instead"@,
            ReadErrorKind::FromUtf8 => "converting byte sequence starting at offset "@
                + spec_decimal(o) + " to utf8 string"@,
            ReadErrorKind::BadMagic => "bad magic"@,
            ReadErrorKind::BadVersion => "bad version"@,
        }
    }

    /// Renders the error as text.
    pub fn to_string(&self) -> (s: String)
        ensures
            s@ == self.message(),
    {
        let o = self.offset as u64;
        match &self.kind {
            ReadErrorKind::Decode(_) => String::from_str("decoding byte at offset ").concat(
                decimal(o).as_str(),
            ),
            ReadErrorKind::Read => String::from_str("reading byte at offset ").concat(
                decimal(o).as_str(),
            ),
            ReadErrorKind::ReadExact { len } => String::from_str("reading ").concat(
                decimal(*len as u64).as_str(),
            ).concat(" bytes starting at offset ").concat(decimal(o).as_str()),
            ReadErrorKind::InvalidEnumValue(_) => String::from_str(
                "converting value at offset ",
            ).concat(hex(o).as_str()).concat(" (").concat(decimal(o).as_str()).concat(
                "), into an enum",
            ),
            ReadErrorKind::OutOfRange { size, remaining } => String::from_str("requested ").concat(
                decimal(*size as u64).as_str(),
            ).concat(" bytes, only ").concat(decimal(*remaining).as_str()).concat(" available"),
            ReadErrorKind::UnexpectedValue { value, expected } => String::from_str(
                "value at offset ",
            ).concat(decimal(o).as_str()).concat(", expected ").concat(expected).concat(
                ", got ",
            ).concat(signed_decimal(*value).as_str()).concat(" instead"),
            ReadErrorKind::FromUtf8 => String::from_str(
                "converting byte sequence starting at offset ",
            ).concat(decimal(o).as_str()).concat(" to utf8 string"),
            ReadErrorKind::BadMagic => String::from_str("bad magic"),
            ReadErrorKind::BadVersion => String::from_str("bad version"),
        }
    }
}

impl InvalidEnumValueError {
    /// The message of this error.
    pub open spec fn message(&self) -> Seq<char> {
        spec_hex(self.value as nat) + " is not a valid value for "@ + self.enum_name@
    }

    /// Renders the error as text.
    pub fn to_string(&self) -> (s: String)
        ensures
            s@ == self.message(),
    {
        hex(self.value as u64).concat(" is not a valid value for ").concat(self.enum_name)
    }
}

#[derive(Debug)]
#[non_exhaustive]
pub enum VecReadError<E> {
    Count(ReadError),
    Element { index: usize, source: E },
}

impl<E> VecReadError<E> {
    /// The message of this error.
    pub open spec fn message(&self) -> Seq<char> {
        match self {
            VecReadError::Count(_) => "reading the vector element count"@,
            VecReadError::Element { index, .. } => "reading element at "@ + spec_decimal(
                *index as nat,
            ),
        }
    }

    /// Renders the error as text.
    pub fn to_string(&self) -> (s: String)
        ensures
            s@ == self.message(),
    {
        match self {
            VecReadError::Count(_) => String::from_str("reading the vector element count"),
            VecReadError::Element { index, .. } => String::from_str("reading element at ").concat(
                decimal(*index as u64).as_str(),
            ),
        }
    }
}

} // verus!
