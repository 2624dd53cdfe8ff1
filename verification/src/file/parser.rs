use super::data::{
    function_views, in_file_order, Function, FunctionView, List, Module, ModuleView, Range, Value,
};
use vstd::prelude::*;

verus! {

/// Why a buffer is not a module.
#[derive(Clone, Copy, PartialEq, Eq, Structural, Debug)]
pub enum FormatError {
    /// The buffer ends inside the module.
    ShortRead,
    /// The first byte is not the supported version.
    BadVersion,
    /// A constant starts with a tag that names no kind of constant.
    UnknownTag,
}

/// The one container version that is read.
pub const LUAU_VERSION: u8 = 3;

/// What a parser of the grammar gives on `bytes` from a position on: a value
/// and the position after it, or the reason why there is none.
pub type Parsed<T> = Result<(T, int), FormatError>;

/// One byte.
pub open spec fn byte_at(bytes: Seq<u8>, pos: int) -> Parsed<u8> {
    if 0 <= pos < bytes.len() {
        Ok((bytes[pos], pos + 1))
    } else {
        Err(FormatError::ShortRead)
    }
}

/// `count` bytes that are passed over.
pub open spec fn skipped(bytes: Seq<u8>, pos: int, count: int) -> Result<int, FormatError> {
    if 0 <= pos && 0 <= count && pos + count <= bytes.len() {
        Ok(pos + count)
    } else {
        Err(FormatError::ShortRead)
    }
}

/// The seven payload bits of the byte with the given index in a varint,
/// moved to their place in the value. Bits that would lie above bit 63 are
/// lost.
pub open spec fn payload(byte: u8, index: nat) -> u64 {
    if index < 10 {
        ((byte & 0x7f) as u64) << ((7 * index) as u64)
    } else {
        0
    }
}

/// The value that the first `count` bytes of a varint at `start` hold: the
/// payloads of the bytes, least significant first, or-ed together.
pub open spec fn varint_value(bytes: Seq<u8>, start: int, count: nat) -> u64
    decreases count,
{
    if count == 0 {
        0
    } else {
        varint_value(bytes, start, (count - 1) as nat) | payload(
            bytes[start + count - 1],
            (count - 1) as nat,
        )
    }
}

/// Whether the byte says that the varint goes on.
pub open spec fn continues(byte: u8) -> bool {
    byte & 0x80 != 0
}

/// The number of bytes of the varint at `pos`: it ends with the first byte
/// whose high bit is clear. `None` where the buffer ends before that.
pub open spec fn varint_len(bytes: Seq<u8>, pos: int) -> Option<nat>
    decreases bytes.len() - pos,
{
    if pos < 0 || pos >= bytes.len() {
        None
    } else if !continues(bytes[pos]) {
        Some(1)
    } else {
        match varint_len(bytes, pos + 1) {
            Some(rest) => Some(rest + 1),
            None => None,
        }
    }
}

/// A variable-length integer: little-endian base 128, of any length.
pub open spec fn any_size(bytes: Seq<u8>, pos: int) -> Parsed<usize> {
    match varint_len(bytes, pos) {
        Some(count) => Ok((varint_value(bytes, pos, count) as usize, pos + count)),
        None => Err(FormatError::ShortRead),
    }
}

pub struct StreamView {
    pub bytes: Seq<u8>,
    pub pos: int,
}

/// A buffer and a position in it.
pub struct Stream<'a> {
    data: &'a [u8],
    pos: usize,
}

impl<'a> View for Stream<'a> {
    type V = StreamView;

    closed spec fn view(&self) -> StreamView {
        StreamView { bytes: self.data@, pos: self.pos as int }
    }
}

impl<'a> Stream<'a> {
    #[verifier::type_invariant]
    pub open spec fn inv(self) -> bool {
        0 <= self@.pos <= self@.bytes.len()
    }

    pub fn new(data: &'a [u8]) -> (stream: Stream<'a>)
        ensures
            stream@.bytes == data@,
            stream@.pos == 0,
    {
        Stream { data, pos: 0 }
    }
}

/// How the outcome of a parser on a stream relates to the grammar: the
/// buffer is untouched, a value comes with the position after it, and an
/// error is the grammar's.
pub open spec fn agrees<T>(
    before: StreamView,
    after: StreamView,
    outcome: Result<T, FormatError>,
    expected: Parsed<T>,
) -> bool {
    &&& after.bytes == before.bytes
    &&& 0 <= before.pos <= after.pos <= before.bytes.len()
    &&& match outcome {
        Ok(value) => expected == Ok::<(T, int), FormatError>((value, after.pos)),
        Err(error) => expected == Err::<(T, int), FormatError>(error),
    }
}

/// What becomes of a parse when the buffer is cut off at `len`: it stands
/// where it ended at or before `len`, and is a short read where it went
/// beyond.
pub open spec fn cut<T>(parsed: Parsed<T>, len: int) -> Parsed<T> {
    match parsed {
        Ok((_, next)) => if next <= len {
            parsed
        } else {
            Err(FormatError::ShortRead)
        },
        Err(_) => parsed,
    }
}

pub fn position_of(stream: &Stream) -> (pos: usize)
    ensures
        pos == stream@.pos,
        pos <= stream@.bytes.len(),
{
    proof {
        use_type_invariant(stream);
    }
    stream.pos
}

/// A buffer in memory has a length that fits in `usize`.
pub fn buffer_len(stream: &Stream) -> (len: usize)
    ensures
        len == stream@.bytes.len(),
{
    stream.data.len()
}

pub fn parse_u8(s: &mut Stream) -> (r: Result<u8, FormatError>)
    ensures
        agrees(old(s)@, final(s)@, r, byte_at(old(s)@.bytes, old(s)@.pos)),
{
    proof {
        use_type_invariant(&*s);
    }
    if s.pos < s.data.len() {
        let value = s.data[s.pos];
        s.pos = s.pos + 1;
        Ok(value)
    } else {
        Err(FormatError::ShortRead)
    }
}

/// The value whose little-endian bytes are the four from `pos` on.
pub open spec fn word_at(bytes: Seq<u8>, pos: int) -> Parsed<u32> {
    if 0 <= pos && pos + 4 <= bytes.len() {
        Ok(
            (
                (bytes[pos] + 0x100 * bytes[pos + 1] + 0x1_0000 * bytes[pos + 2] + 0x100_0000
                    * bytes[pos + 3]) as u32,
                pos + 4,
            ),
        )
    } else {
        Err(FormatError::ShortRead)
    }
}

/// The value whose little-endian bytes are the eight from `pos` on.
pub open spec fn long_at(bytes: Seq<u8>, pos: int) -> Parsed<u64> {
    match word_at(bytes, pos) {
        Ok((low, middle)) => match word_at(bytes, middle) {
            Ok((high, next)) => Ok(((low + 0x1_0000_0000 * high) as u64, next)),
            Err(error) => Err(error),
        },
        Err(error) => Err(error),
    }
}

impl<'a> Stream<'a> {
    /// The number of bytes from the position to the end of the buffer.
    pub fn remaining(&self) -> (count: usize)
        ensures
            count == self@.bytes.len() - self@.pos,
    {
        proof {
            use_type_invariant(self);
        }
        self.data.len() - self.pos
    }

    /// Passes over `count` bytes.
    pub fn skip(&mut self, count: usize) -> (r: Result<(), FormatError>)
        ensures
            agrees(
                old(self)@,
                final(self)@,
                r,
                match skipped(old(self)@.bytes, old(self)@.pos, count as int) {
                    Ok(next) => Ok(((), next)),
                    Err(error) => Err(error),
                },
            ),
    {
        proof {
            use_type_invariant(&*self);
        }
        if count <= self.data.len() - self.pos {
            self.pos = self.pos + count;
            Ok(())
        } else {
            Err(FormatError::ShortRead)
        }
    }
}

pub fn parse_u32(s: &mut Stream) -> (r: Result<u32, FormatError>)
    ensures
        agrees(old(s)@, final(s)@, r, word_at(old(s)@.bytes, old(s)@.pos)),
{
    proof {
        use_type_invariant(&*s);
    }
    if 4 <= s.data.len() - s.pos {
        let b0 = s.data[s.pos] as u32;
        let b1 = s.data[s.pos + 1] as u32;
        let b2 = s.data[s.pos + 2] as u32;
        let b3 = s.data[s.pos + 3] as u32;
        s.pos = s.pos + 4;
        Ok(b0 + 0x100 * b1 + 0x1_0000 * b2 + 0x100_0000 * b3)
    } else {
        Err(FormatError::ShortRead)
    }
}

pub fn parse_u64(s: &mut Stream) -> (r: Result<u64, FormatError>)
    ensures
        agrees(old(s)@, final(s)@, r, long_at(old(s)@.bytes, old(s)@.pos)),
{
    proof {
        use_type_invariant(&*s);
    }
    if 8 <= s.data.len() - s.pos {
        let low = parse_u32(s)?;
        let high = parse_u32(s)?;
        Ok(low as u64 + 0x1_0000_0000 * (high as u64))
    } else {
        Err(FormatError::ShortRead)
    }
}

/// Where every byte of a run goes on, the varint that starts with the run
/// ends where the one that starts behind it ends.
proof fn lemma_varint_run(bytes: Seq<u8>, start: int, count: nat)
    requires
        0 <= start,
        start + count <= bytes.len(),
        forall|k: int| start <= k < start + count ==> continues(#[trigger] bytes[k]),
    ensures
        varint_len(bytes, start) == match varint_len(bytes, start + count) {
            Some(rest) => Some(rest + count),
            None => None,
        },
    decreases count,
{
    if count > 0 {
        assert(continues(bytes[start]));
        lemma_varint_run(bytes, start + 1, (count - 1) as nat);
    }
}

pub fn parse_any_size(s: &mut Stream) -> (r: Result<usize, FormatError>)
    ensures
        agrees(old(s)@, final(s)@, r, any_size(old(s)@.bytes, old(s)@.pos)),
{
    let ghost bytes = s@.bytes;
    let ghost start = s@.pos;
    let mut result: u64 = 0;
    let mut index: usize = 0;
    proof {
        use_type_invariant(&*s);
    }
    loop
        invariant
            bytes == old(s)@.bytes,
            start == old(s)@.pos,
            s@.bytes == bytes,
            0 <= start,
            s@.pos == start + index,
            start + index <= bytes.len(),
            result == varint_value(bytes, start, index as nat),
            forall|k: int| start <= k < start + index ==> continues(#[trigger] bytes[k]),
        decreases bytes.len() - s@.pos,
    {
        proof {
            lemma_varint_run(bytes, start, index as nat);
        }
        let byte = match parse_u8(s) {
            Ok(byte) => byte,
            Err(error) => {
                return Err(error);
            },
        };
        if index < 10 {
            result = result | (((byte & 0x7f) as u64) << ((7 * index) as u64));
        } else {
            assert(result | 0u64 == result) by (bit_vector);
        }
        assert(result == varint_value(bytes, start, (index + 1) as nat));
        if byte & 0x80 == 0 {
            return Ok(#[verifier::truncate] (result as usize));
        }
        index = index + 1;
    }
}

/// The outcome of a parser with the value replaced by its view.
pub open spec fn viewed<T: View>(outcome: Result<T, FormatError>) -> Result<T::V, FormatError> {
    match outcome {
        Ok(value) => Ok(value@),
        Err(error) => Err(error),
    }
}

/// The views of the items of a vector.
pub open spec fn views<T: View>(items: Seq<T>) -> Seq<T::V> {
    items.map_values(|item: T| item@)
}

/// A kind of item that the container holds counted lists of.
pub trait Item: Sized + View {
    /// The grammar of one item.
    spec fn grammar(bytes: Seq<u8>, pos: int) -> Parsed<Self::V>;

    /// An item takes at least one byte and ends inside the buffer.
    proof fn lemma_advances(bytes: Seq<u8>, pos: int)
        requires
            0 <= pos,
        ensures
            Self::grammar(bytes, pos) matches Ok((_, next)) ==> pos < next <= bytes.len(),
    ;

    /// An item reads the same in a buffer that was cut off behind it, and
    /// is a short read in one that was cut off inside it.
    proof fn lemma_cut(whole: Seq<u8>, len: int, pos: int)
        requires
            0 <= pos <= len <= whole.len(),
            Self::grammar(whole, pos) is Ok,
        ensures
            Self::grammar(whole.take(len), pos) == cut(Self::grammar(whole, pos), len),
    ;

    /// Reads one item.
    fn parse(s: &mut Stream) -> (r: Result<Self, FormatError>)
        ensures
            agrees(old(s)@, final(s)@, viewed(r), Self::grammar(old(s)@.bytes, old(s)@.pos)),
    ;
}

/// `count` items, one after the other. The first item that fails fails the
/// whole.
pub open spec fn items<T: Item>(bytes: Seq<u8>, pos: int, count: nat) -> Parsed<Seq<T::V>>
    decreases count,
{
    if count == 0 {
        Ok((Seq::empty(), pos))
    } else {
        match items::<T>(bytes, pos, (count - 1) as nat) {
            Ok((front, middle)) => match T::grammar(bytes, middle) {
                Ok((last, next)) => Ok((front.push(last), next)),
                Err(error) => Err(error),
            },
            Err(error) => Err(error),
        }
    }
}

/// The span of the buffer between two positions.
pub open spec fn span(start: int, end: int) -> Range {
    Range { start: start as usize, end: end as usize }
}

/// A counted list: the count as a varint, then that many items. With the
/// items comes the span of the whole list, count included.
pub open spec fn list_of<T: Item>(bytes: Seq<u8>, pos: int) -> Parsed<(Seq<T::V>, Range)> {
    match any_size(bytes, pos) {
        Ok((count, first)) => match items::<T>(bytes, first, count as nat) {
            Ok((data, next)) => Ok(((data, span(pos, next)), next)),
            Err(error) => Err(error),
        },
        Err(error) => Err(error),
    }
}

/// A counted list whose items are read and dropped.
pub open spec fn list_ignored<T: Item>(bytes: Seq<u8>, pos: int) -> Parsed<()> {
    match list_of::<T>(bytes, pos) {
        Ok((_, next)) => Ok(((), next)),
        Err(error) => Err(error),
    }
}

/// Once an item has failed, the list fails the same way however many items
/// it was to hold.
proof fn lemma_items_fail<T: Item>(bytes: Seq<u8>, pos: int, failed: nat, count: nat)
    requires
        failed <= count,
        items::<T>(bytes, pos, failed) is Err,
    ensures
        items::<T>(bytes, pos, count) == items::<T>(bytes, pos, failed),
    decreases count,
{
    if failed < count {
        lemma_items_fail::<T>(bytes, pos, failed, (count - 1) as nat);
    }
}

fn parse_items<T: Item>(s: &mut Stream, count: usize) -> (r: Result<Vec<T>, FormatError>)
    ensures
        agrees(
            old(s)@,
            final(s)@,
            match r {
                Ok(data) => Ok(views(data@)),
                Err(error) => Err(error),
            },
            items::<T>(old(s)@.bytes, old(s)@.pos, count as nat),
        ),
{
    let ghost bytes = s@.bytes;
    let ghost first = s@.pos;
    let mut data: Vec<T> = Vec::new();
    let mut done: usize = 0;
    proof {
        use_type_invariant(&*s);
        assert(views(data@) =~= Seq::<T::V>::empty());
    }
    while done < count
        invariant
            bytes == old(s)@.bytes,
            first == old(s)@.pos,
            s@.bytes == bytes,
            0 <= first <= s@.pos <= bytes.len(),
            done <= count,
            items::<T>(bytes, first, done as nat) == Ok::<(Seq<T::V>, int), FormatError>(
                (views(data@), s@.pos),
            ),
        decreases count - done,
    {
        let ghost front = data@;
        match T::parse(s) {
            Ok(item) => {
                data.push(item);
                proof {
                    assert(views(data@) =~= views(front).push(item@));
                }
            },
            Err(error) => {
                proof {
                    assert(items::<T>(bytes, first, (done + 1) as nat) == Err::<
                        (Seq<T::V>, int),
                        FormatError,
                    >(error));
                    lemma_items_fail::<T>(bytes, first, (done + 1) as nat, count as nat);
                }
                return Err(error);
            },
        }
        done = done + 1;
    }
    Ok(data)
}

pub fn parse_list_of<T: Item>(s: &mut Stream) -> (r: Result<List<T>, FormatError>)
    ensures
        agrees(
            old(s)@,
            final(s)@,
            match r {
                Ok(list) => Ok((views(list.data@), list.range)),
                Err(error) => Err(error),
            },
            list_of::<T>(old(s)@.bytes, old(s)@.pos),
        ),
{
    let start = position_of(s);
    let count = parse_any_size(s)?;
    let data = parse_items::<T>(s, count)?;
    let end = position_of(s);
    Ok(List { data, range: Range { start, end } })
}

pub fn parse_list_ignored<T: Item>(s: &mut Stream) -> (r: Result<(), FormatError>)
    ensures
        agrees(old(s)@, final(s)@, r, list_ignored::<T>(old(s)@.bytes, old(s)@.pos)),
{
    let ghost bytes = s@.bytes;
    let count = parse_any_size(s)?;
    let ghost first = s@.pos;
    let mut done: usize = 0;
    proof {
        use_type_invariant(&*s);
    }
    while done < count
        invariant
            bytes == old(s)@.bytes,
            s@.bytes == bytes,
            0 <= old(s)@.pos <= first <= s@.pos <= bytes.len(),
            done <= count,
            any_size(bytes, old(s)@.pos) == Ok::<(usize, int), FormatError>((count, first)),
            items::<T>(bytes, first, done as nat) matches Ok((_, next)) && next == s@.pos,
        decreases count - done,
    {
        match T::parse(s) {
            Ok(_) => {},
            Err(error) => {
                proof {
                    assert(items::<T>(bytes, first, (done + 1) as nat) == Err::<
                        (Seq<T::V>, int),
                        FormatError,
                    >(error));
                    lemma_items_fail::<T>(bytes, first, (done + 1) as nat, count as nat);
                }
                return Err(error);
            },
        }
        done = done + 1;
    }
    Ok(())
}

/// A varint takes at least one byte and ends inside the buffer.
pub proof fn lemma_any_size_advances(bytes: Seq<u8>, pos: int)
    ensures
        any_size(bytes, pos) matches Ok((_, next)) ==> 0 <= pos < next <= bytes.len(),
        any_size(bytes, pos) matches Err(error) ==> error == FormatError::ShortRead,
    decreases bytes.len() - pos,
{
    if 0 <= pos < bytes.len() && continues(bytes[pos]) {
        lemma_any_size_advances(bytes, pos + 1);
    }
}

/// A list ends inside the buffer, and each of its items takes at least one
/// byte.
pub proof fn lemma_items_advance<T: Item>(bytes: Seq<u8>, pos: int, count: nat)
    requires
        0 <= pos,
    ensures
        items::<T>(bytes, pos, count) matches Ok((data, next)) ==> data.len() == count && pos
            + count <= next && (count > 0 ==> next <= bytes.len()),
    decreases count,
{
    if count > 0 {
        lemma_items_advance::<T>(bytes, pos, (count - 1) as nat);
        match items::<T>(bytes, pos, (count - 1) as nat) {
            Ok((_, middle)) => {
                T::lemma_advances(bytes, middle);
            },
            Err(_) => {},
        }
    }
}

/// A counted list takes at least one byte and ends inside the buffer.
pub proof fn lemma_list_advances<T: Item>(bytes: Seq<u8>, pos: int)
    ensures
        list_of::<T>(bytes, pos) matches Ok((_, next)) ==> 0 <= pos < next <= bytes.len(),
{
    lemma_any_size_advances(bytes, pos);
    match any_size(bytes, pos) {
        Ok((count, first)) => {
            lemma_items_advance::<T>(bytes, first, count as nat);
        },
        Err(_) => {},
    }
}

proof fn lemma_byte_cut(whole: Seq<u8>, len: int, pos: int)
    requires
        0 <= pos <= len <= whole.len(),
    ensures
        byte_at(whole.take(len), pos) == cut(byte_at(whole, pos), len),
{
    if pos < len {
        assert(whole.take(len)[pos] == whole[pos]);
    }
}

proof fn lemma_skipped_cut(whole: Seq<u8>, len: int, pos: int, count: int)
    requires
        0 <= pos <= len <= whole.len(),
        skipped(whole, pos, count) is Ok,
    ensures
        skipped(whole.take(len), pos, count) == if pos + count <= len {
            skipped(whole, pos, count)
        } else {
            Err(FormatError::ShortRead)
        },
{
}

proof fn lemma_word_cut(whole: Seq<u8>, len: int, pos: int)
    requires
        0 <= pos <= len <= whole.len(),
    ensures
        word_at(whole.take(len), pos) == cut(word_at(whole, pos), len),
{
    let short = whole.take(len);
    if pos + 4 <= len {
        assert(short[pos] == whole[pos]);
        assert(short[pos + 1] == whole[pos + 1]);
        assert(short[pos + 2] == whole[pos + 2]);
        assert(short[pos + 3] == whole[pos + 3]);
    }
}

proof fn lemma_long_cut(whole: Seq<u8>, len: int, pos: int)
    requires
        0 <= pos <= len <= whole.len(),
    ensures
        long_at(whole.take(len), pos) == cut(long_at(whole, pos), len),
{
    lemma_word_cut(whole, len, pos);
    if pos + 4 <= len {
        lemma_word_cut(whole, len, pos + 4);
    }
}

/// A varint reads the same in a buffer that was cut off behind it, and is
/// a short read in one that was cut off inside it.
pub proof fn lemma_any_size_cut(whole: Seq<u8>, len: int, pos: int)
    requires
        0 <= pos <= len <= whole.len(),
        any_size(whole, pos) is Ok,
    ensures
        any_size(whole.take(len), pos) == cut(any_size(whole, pos), len),
{
    let short = whole.take(len);
    let count = varint_len(whole, pos).unwrap();
    lemma_varint_cut(whole, len, pos);
    if pos + count <= len {
        lemma_varint_value_cut(whole, len, pos, count);
    }
}

proof fn lemma_varint_cut(whole: Seq<u8>, len: int, pos: int)
    requires
        0 <= pos <= len <= whole.len(),
        varint_len(whole, pos) is Some,
    ensures
        varint_len(whole.take(len), pos) == if pos + varint_len(whole, pos).unwrap() <= len {
            varint_len(whole, pos)
        } else {
            None
        },
    decreases whole.len() - pos,
{
    let short = whole.take(len);
    if pos < len {
        assert(short[pos] == whole[pos]);
        if continues(whole[pos]) {
            lemma_varint_cut(whole, len, pos + 1);
        }
    }
}

proof fn lemma_varint_value_cut(whole: Seq<u8>, len: int, pos: int, count: nat)
    requires
        0 <= pos,
        pos + count <= len <= whole.len(),
    ensures
        varint_value(whole.take(len), pos, count) == varint_value(whole, pos, count),
    decreases count,
{
    if count > 0 {
        assert(whole.take(len)[pos + count - 1] == whole[pos + count - 1]);
        lemma_varint_value_cut(whole, len, pos, (count - 1) as nat);
    }
}

/// Items read the same in a buffer that was cut off behind them, and are
/// a short read in one that was cut off inside them.
pub proof fn lemma_items_cut<T: Item>(whole: Seq<u8>, len: int, pos: int, count: nat)
    requires
        0 <= pos <= len <= whole.len(),
        items::<T>(whole, pos, count) is Ok,
    ensures
        items::<T>(whole.take(len), pos, count) == cut(items::<T>(whole, pos, count), len),
    decreases count,
{
    if count > 0 {
        lemma_items_advance::<T>(whole, pos, (count - 1) as nat);
        lemma_items_cut::<T>(whole, len, pos, (count - 1) as nat);
        match items::<T>(whole, pos, (count - 1) as nat) {
            Ok((_, middle)) => {
                T::lemma_advances(whole, middle);
                if middle <= len {
                    T::lemma_cut(whole, len, middle);
                }
            },
            Err(_) => {},
        }
    }
}

/// A counted list reads the same in a buffer that was cut off behind it,
/// and is a short read in one that was cut off inside it.
pub proof fn lemma_list_cut<T: Item>(whole: Seq<u8>, len: int, pos: int)
    requires
        0 <= pos <= len <= whole.len(),
        list_of::<T>(whole, pos) is Ok,
    ensures
        list_of::<T>(whole.take(len), pos) == cut(list_of::<T>(whole, pos), len),
        list_ignored::<T>(whole.take(len), pos) == cut(list_ignored::<T>(whole, pos), len),
{
    lemma_any_size_cut(whole, len, pos);
    lemma_any_size_advances(whole, pos);
    match any_size(whole, pos) {
        Ok((count, first)) => {
            lemma_items_advance::<T>(whole, first, count as nat);
            if first <= len {
                lemma_items_cut::<T>(whole, len, first, count as nat);
            }
        },
        Err(_) => {},
    }
}

impl Item for usize {
    open spec fn grammar(bytes: Seq<u8>, pos: int) -> Parsed<usize> {
        any_size(bytes, pos)
    }

    proof fn lemma_advances(bytes: Seq<u8>, pos: int) {
        lemma_any_size_advances(bytes, pos);
    }

    proof fn lemma_cut(whole: Seq<u8>, len: int, pos: int) {
        lemma_any_size_cut(whole, len, pos);
    }

    fn parse(s: &mut Stream) -> (r: Result<usize, FormatError>) {
        parse_any_size(s)
    }
}

/// The bytes of a string: its length as a varint, then the bytes, of which
/// only the span is kept.
pub open spec fn string_data(bytes: Seq<u8>, pos: int) -> Parsed<Range> {
    match any_size(bytes, pos) {
        Ok((len, start)) => match skipped(bytes, start, len as int) {
            Ok(end) => Ok((span(start, end), end)),
            Err(error) => Err(error),
        },
        Err(error) => Err(error),
    }
}

pub fn parse_string_data(s: &mut Stream) -> (r: Result<Range, FormatError>)
    ensures
        agrees(old(s)@, final(s)@, r, string_data(old(s)@.bytes, old(s)@.pos)),
{
    let len = parse_any_size(s)?;
    let start = position_of(s);
    s.skip(len)?;
    Ok(Range { start, end: position_of(s) })
}

impl Item for Range {
    open spec fn grammar(bytes: Seq<u8>, pos: int) -> Parsed<Range> {
        string_data(bytes, pos)
    }

    proof fn lemma_advances(bytes: Seq<u8>, pos: int) {
        lemma_any_size_advances(bytes, pos);
    }

    proof fn lemma_cut(whole: Seq<u8>, len: int, pos: int) {
        lemma_any_size_cut(whole, len, pos);
        lemma_any_size_advances(whole, pos);
    }

    fn parse(s: &mut Stream) -> (r: Result<Range, FormatError>) {
        parse_string_data(s)
    }
}

/// The four bytes at the head of a function, which are passed over: the
/// size of its stack, the numbers of its parameters and of its upvalues,
/// and whether it takes a variable number of arguments.
pub open spec fn func_meta_data(bytes: Seq<u8>, pos: int) -> Parsed<()> {
    match skipped(bytes, pos, 4) {
        Ok(next) => Ok(((), next)),
        Err(error) => Err(error),
    }
}

pub fn parse_func_meta_data(s: &mut Stream) -> (r: Result<(), FormatError>)
    ensures
        agrees(old(s)@, final(s)@, r, func_meta_data(old(s)@.bytes, old(s)@.pos)),
{
    let _max_stack_size = parse_u8(s)?;
    let _num_param = parse_u8(s)?;
    let _num_upval = parse_u8(s)?;
    let _is_vararg = parse_u8(s)?;
    Ok(())
}

/// The instruction stream: the number of words as a varint, then the
/// words, of which only the span is kept.
pub open spec fn code_block(bytes: Seq<u8>, pos: int) -> Parsed<Range> {
    match any_size(bytes, pos) {
        Ok((len, start)) => match skipped(bytes, start, 4 * len) {
            Ok(end) => Ok((span(start, end), end)),
            Err(error) => Err(error),
        },
        Err(error) => Err(error),
    }
}

pub fn parse_code(s: &mut Stream) -> (r: Result<Range, FormatError>)
    ensures
        agrees(old(s)@, final(s)@, r, code_block(old(s)@.bytes, old(s)@.pos)),
{
    let len = parse_any_size(s)?;
    let start = position_of(s);
    if len > s.remaining() / 4 {
        return Err(FormatError::ShortRead);
    }
    s.skip(4 * len)?;
    Ok(Range { start, end: position_of(s) })
}

/// The kinds of constant, in the order of their tags.
#[derive(Clone, Copy, PartialEq, Eq, Structural, Debug)]
pub enum TypeConstant {
    Nil,
    Boolean,
    Number,
    String,
    Import,
    Table,
    Closure,
}

impl TypeConstant {
    /// The kind that a tag byte names, if any.
    pub open spec fn from_tag(tag: u8) -> Option<TypeConstant> {
        match tag {
            0 => Some(TypeConstant::Nil),
            1 => Some(TypeConstant::Boolean),
            2 => Some(TypeConstant::Number),
            3 => Some(TypeConstant::String),
            4 => Some(TypeConstant::Import),
            5 => Some(TypeConstant::Table),
            6 => Some(TypeConstant::Closure),
            _ => None,
        }
    }
}

impl TryFrom<u8> for TypeConstant {
    type Error = FormatError;

    fn try_from(tag: u8) -> (r: Result<TypeConstant, FormatError>) {
        match tag {
            0 => Ok(TypeConstant::Nil),
            1 => Ok(TypeConstant::Boolean),
            2 => Ok(TypeConstant::Number),
            3 => Ok(TypeConstant::String),
            4 => Ok(TypeConstant::Import),
            5 => Ok(TypeConstant::Table),
            6 => Ok(TypeConstant::Closure),
            _ => Err(FormatError::UnknownTag),
        }
    }
}

impl vstd::std_specs::convert::TryFromSpecImpl<u8> for TypeConstant {
    open spec fn obeys_try_from_spec() -> bool {
        true
    }

    open spec fn try_from_spec(tag: u8) -> Result<TypeConstant, FormatError> {
        match TypeConstant::from_tag(tag) {
            Some(kind) => Ok(kind),
            None => Err(FormatError::UnknownTag),
        }
    }
}

/// What was parsed, with a function applied to the value.
pub open spec fn mapped<A, B>(parsed: Parsed<A>, f: spec_fn(A) -> B) -> Parsed<B> {
    match parsed {
        Ok((value, next)) => Ok((f(value), next)),
        Err(error) => Err(error),
    }
}

/// The payload of a constant of the given kind.
pub open spec fn constant_body(kind: TypeConstant, bytes: Seq<u8>, pos: int) -> Parsed<Value> {
    match kind {
        TypeConstant::Nil => Ok((Value::Nil, pos)),
        TypeConstant::Boolean => mapped(
            byte_at(bytes, pos),
            |flag: u8|
                if flag == 0 {
                    Value::False
                } else {
                    Value::True
                },
        ),
        TypeConstant::Number => mapped(long_at(bytes, pos), |bits: u64| Value::Number(bits)),
        TypeConstant::String => mapped(any_size(bytes, pos), |index: usize| Value::String(index)),
        TypeConstant::Import => mapped(word_at(bytes, pos), |data: u32| Value::Import(data)),
        TypeConstant::Table => mapped(list_ignored::<usize>(bytes, pos), |unit: ()| Value::Table),
        TypeConstant::Closure => mapped(
            any_size(bytes, pos),
            |index: usize| Value::Closure(index),
        ),
    }
}

/// A constant: a tag byte, then the payload of its kind.
pub open spec fn constant(bytes: Seq<u8>, pos: int) -> Parsed<Value> {
    match byte_at(bytes, pos) {
        Ok((tag, body)) => match TypeConstant::from_tag(tag) {
            Some(kind) => constant_body(kind, bytes, body),
            None => Err(FormatError::UnknownTag),
        },
        Err(error) => Err(error),
    }
}

pub fn parse_constant(s: &mut Stream) -> (r: Result<Value, FormatError>)
    ensures
        agrees(old(s)@, final(s)@, r, constant(old(s)@.bytes, old(s)@.pos)),
{
    let tag = parse_u8(s)?;
    let kind = match TypeConstant::try_from(tag) {
        Ok(kind) => kind,
        Err(error) => {
            return Err(error);
        },
    };
    let value = match kind {
        TypeConstant::Nil => Value::Nil,
        TypeConstant::Boolean => {
            if parse_u8(s)? == 0 {
                Value::False
            } else {
                Value::True
            }
        },
        TypeConstant::Number => {
            let bits = parse_u64(s)?;
            Value::Number(bits)
        },
        TypeConstant::String => {
            let index = parse_any_size(s)?;
            Value::String(index)
        },
        TypeConstant::Import => {
            let data = parse_u32(s)?;
            Value::Import(data)
        },
        TypeConstant::Table => {
            parse_list_ignored::<usize>(s)?;
            Value::Table
        },
        TypeConstant::Closure => {
            let index = parse_any_size(s)?;
            Value::Closure(index)
        },
    };
    Ok(value)
}

proof fn lemma_constant_body_cut(kind: TypeConstant, whole: Seq<u8>, len: int, pos: int)
    requires
        0 <= pos,
        0 <= len <= whole.len(),
        constant_body(kind, whole, pos) is Ok,
    ensures
        constant_body(kind, whole, pos) matches Ok((_, next)) && pos <= next,
        pos <= len ==> constant_body(kind, whole.take(len), pos) == cut(
            constant_body(kind, whole, pos),
            len,
        ),
{
    lemma_any_size_advances(whole, pos);
    lemma_list_advances::<usize>(whole, pos);
    if pos <= len {
        match kind {
            TypeConstant::Nil => {},
            TypeConstant::Boolean => {
                lemma_byte_cut(whole, len, pos);
            },
            TypeConstant::Number => {
                lemma_long_cut(whole, len, pos);
            },
            TypeConstant::String => {
                lemma_any_size_cut(whole, len, pos);
            },
            TypeConstant::Import => {
                lemma_word_cut(whole, len, pos);
            },
            TypeConstant::Table => {
                lemma_list_cut::<usize>(whole, len, pos);
            },
            TypeConstant::Closure => {
                lemma_any_size_cut(whole, len, pos);
            },
        }
    }
}

impl Item for Value {
    open spec fn grammar(bytes: Seq<u8>, pos: int) -> Parsed<Value> {
        constant(bytes, pos)
    }

    proof fn lemma_advances(bytes: Seq<u8>, pos: int) {
        match byte_at(bytes, pos) {
            Ok((tag, body)) => {
                lemma_any_size_advances(bytes, body);
                lemma_list_advances::<usize>(bytes, body);
            },
            Err(_) => {},
        }
    }

    proof fn lemma_cut(whole: Seq<u8>, len: int, pos: int) {
        Self::lemma_advances(whole, pos);
        lemma_byte_cut(whole, len, pos);
        match byte_at(whole, pos) {
            Ok((tag, body)) => {
                match TypeConstant::from_tag(tag) {
                    Some(kind) => {
                        lemma_constant_body_cut(kind, whole, len, body);
                    },
                    None => {},
                }
            },
            Err(_) => {},
        }
    }

    fn parse(s: &mut Stream) -> (r: Result<Value, FormatError>) {
        parse_constant(s)
    }
}

/// The number of entries of the table of absolute lines: one for every
/// `2^gap` instructions or part thereof.
pub open spec fn intervals(len: usize, gap: u8) -> usize {
    if len == 0 {
        0
    } else {
        ((((len - 1) as u64) >> (gap as u64)) + 1) as usize
    }
}

/// The line information of a function of `len` instructions, all of it
/// passed over: the gap, a byte for each instruction, and a word for each
/// interval.
pub open spec fn line_info(len: usize, bytes: Seq<u8>, pos: int) -> Parsed<()> {
    match byte_at(bytes, pos) {
        Ok((gap, offsets)) => match skipped(bytes, offsets, len as int) {
            Ok(lines) => match skipped(bytes, lines, 4 * intervals(len, gap)) {
                Ok(next) => Ok(((), next)),
                Err(error) => Err(error),
            },
            Err(error) => Err(error),
        },
        Err(error) => Err(error),
    }
}

fn interval_count(len: usize, gap: u8) -> (count: usize)
    ensures
        count == intervals(len, gap),
        count <= len,
{
    if len == 0 {
        0
    } else {
        let last = (len - 1) as u64;
        let whole: u64 = if gap < 64 {
            last >> (gap as u64)
        } else {
            0
        };
        assert(whole == last >> (gap as u64) && whole <= last) by (bit_vector)
            requires
                whole == if gap < 64 {
                    last >> (gap as u64)
                } else {
                    0
                },
        ;
        (whole + 1) as usize
    }
}

pub fn parse_line_info(len: usize, s: &mut Stream) -> (r: Result<(), FormatError>)
    ensures
        agrees(old(s)@, final(s)@, r, line_info(len, old(s)@.bytes, old(s)@.pos)),
{
    let line_gap = parse_u8(s)?;
    let interval = interval_count(len, line_gap);
    s.skip(len)?;
    if interval > s.remaining() / 4 {
        return Err(FormatError::ShortRead);
    }
    s.skip(4 * interval)?;
    Ok(())
}

/// The record of a local variable, passed over: its name, the first and
/// the last instruction of its scope, and its register.
pub struct LocalInfo;

impl View for LocalInfo {
    type V = ();

    open spec fn view(&self) -> () {
        ()
    }
}

pub open spec fn local_info(bytes: Seq<u8>, pos: int) -> Parsed<()> {
    match any_size(bytes, pos) {
        Ok((_, start_pc)) => match any_size(bytes, start_pc) {
            Ok((_, end_pc)) => match any_size(bytes, end_pc) {
                Ok((_, reg)) => match byte_at(bytes, reg) {
                    Ok((_, next)) => Ok(((), next)),
                    Err(error) => Err(error),
                },
                Err(error) => Err(error),
            },
            Err(error) => Err(error),
        },
        Err(error) => Err(error),
    }
}

pub fn parse_local_info(s: &mut Stream) -> (r: Result<(), FormatError>)
    ensures
        agrees(old(s)@, final(s)@, r, local_info(old(s)@.bytes, old(s)@.pos)),
{
    let _name = parse_any_size(s)?;
    let _start_pc = parse_any_size(s)?;
    let _end_pc = parse_any_size(s)?;
    let _reg = parse_u8(s)?;
    Ok(())
}

impl Item for LocalInfo {
    open spec fn grammar(bytes: Seq<u8>, pos: int) -> Parsed<()> {
        local_info(bytes, pos)
    }

    proof fn lemma_advances(bytes: Seq<u8>, pos: int) {
        lemma_local_info_advances(bytes, pos);
    }

    proof fn lemma_cut(whole: Seq<u8>, len: int, pos: int) {
        lemma_any_size_cut(whole, len, pos);
        lemma_any_size_advances(whole, pos);
        match any_size(whole, pos) {
            Ok((_, start_pc)) => {
                if start_pc <= len {
                    lemma_any_size_cut(whole, len, start_pc);
                    lemma_any_size_advances(whole, start_pc);
                    match any_size(whole, start_pc) {
                        Ok((_, end_pc)) => {
                            if end_pc <= len {
                                lemma_any_size_cut(whole, len, end_pc);
                                lemma_any_size_advances(whole, end_pc);
                            }
                        },
                        Err(_) => {},
                    }
                }
            },
            Err(_) => {},
        }
    }

    fn parse(s: &mut Stream) -> (r: Result<LocalInfo, FormatError>) {
        parse_local_info(s)?;
        Ok(LocalInfo)
    }
}

proof fn lemma_local_info_advances(bytes: Seq<u8>, pos: int)
    ensures
        local_info(bytes, pos) matches Ok((_, next)) ==> 0 <= pos < next <= bytes.len(),
{
    lemma_any_size_advances(bytes, pos);
    match any_size(bytes, pos) {
        Ok((_, start_pc)) => {
            lemma_any_size_advances(bytes, start_pc);
            match any_size(bytes, start_pc) {
                Ok((_, end_pc)) => {
                    lemma_any_size_advances(bytes, end_pc);
                },
                Err(_) => {},
            }
        },
        Err(_) => {},
    }
}

/// The names of the local variables and of the upvalues, all passed over.
pub open spec fn var_info(bytes: Seq<u8>, pos: int) -> Parsed<()> {
    match list_ignored::<LocalInfo>(bytes, pos) {
        Ok((_, upvalues)) => list_ignored::<usize>(bytes, upvalues),
        Err(error) => Err(error),
    }
}

/// What comes behind the first flag of the debug information: the line
/// information where the flag is set.
pub open spec fn optional_line_info(flag: u8, len: usize, bytes: Seq<u8>, pos: int) -> Parsed<()> {
    if flag != 0 {
        line_info(len, bytes, pos)
    } else {
        Ok(((), pos))
    }
}

/// What comes behind the second flag of the debug information: the names
/// of variables where the flag is set.
pub open spec fn optional_var_info(flag: u8, bytes: Seq<u8>, pos: int) -> Parsed<()> {
    if flag != 0 {
        var_info(bytes, pos)
    } else {
        Ok(((), pos))
    }
}

/// The debug information of a function of `len` instructions, read only to
/// find where it ends: a flag and, where it is set, the line information;
/// a second flag and, where it is set, the names of variables.
pub open spec fn debug_info(len: usize, bytes: Seq<u8>, pos: int) -> Parsed<()> {
    match byte_at(bytes, pos) {
        Ok((has_line_info, lines)) => match optional_line_info(has_line_info, len, bytes, lines) {
            Ok((_, flag)) => match byte_at(bytes, flag) {
                Ok((has_var_info, vars)) => optional_var_info(has_var_info, bytes, vars),
                Err(error) => Err(error),
            },
            Err(error) => Err(error),
        },
        Err(error) => Err(error),
    }
}

pub fn parse_debug_info(len: usize, s: &mut Stream) -> (r: Result<(), FormatError>)
    ensures
        agrees(old(s)@, final(s)@, r, debug_info(len, old(s)@.bytes, old(s)@.pos)),
{
    let has_line_info = parse_u8(s)? != 0;
    if has_line_info {
        parse_line_info(len, s)?;
    }
    let has_var_info = parse_u8(s)? != 0;
    if has_var_info {
        parse_list_ignored::<LocalInfo>(s)?;
        parse_list_ignored::<usize>(s)?;
    }
    Ok(())
}

/// What follows the lists of a function: the line it was defined at, its
/// name and its debug information. The name is kept.
pub open spec fn function_tail(code_len: usize, bytes: Seq<u8>, pos: int) -> Parsed<usize> {
    match any_size(bytes, pos) {
        Err(error) => Err(error),
        Ok((_, at_name)) => match any_size(bytes, at_name) {
            Err(error) => Err(error),
            Ok((name, at_debug)) => match debug_info(code_len, bytes, at_debug) {
                Err(error) => Err(error),
                Ok((_, next)) => Ok((name, next)),
            },
        },
    }
}

/// A function prototype. Its span runs from its first byte to the end of
/// its debug information.
pub open spec fn function(bytes: Seq<u8>, pos: int) -> Parsed<FunctionView> {
    match func_meta_data(bytes, pos) {
        Err(error) => Err(error),
        Ok((_, at_code)) => match code_block(bytes, at_code) {
            Err(error) => Err(error),
            Ok((code, at_constants)) => match list_of::<Value>(bytes, at_constants) {
                Err(error) => Err(error),
                Ok(((constants, constants_range), at_references)) => match list_of::<usize>(
                    bytes,
                    at_references,
                ) {
                    Err(error) => Err(error),
                    Ok(((references, references_range), at_line)) => match function_tail(
                        (code.spec_len() / 4) as usize,
                        bytes,
                        at_line,
                    ) {
                        Err(error) => Err(error),
                        Ok((name, next)) => Ok(
                            (
                                FunctionView {
                                    position: span(pos, next),
                                    name,
                                    code,
                                    constants,
                                    constants_range,
                                    references,
                                    references_range,
                                },
                                next,
                            ),
                        ),
                    },
                },
            },
        },
    }
}

/// The debug information ends inside the buffer, behind its start.
proof fn lemma_debug_info_advances(len: usize, bytes: Seq<u8>, pos: int)
    ensures
        debug_info(len, bytes, pos) matches Ok((_, next)) ==> 0 <= pos < next <= bytes.len(),
{
    match byte_at(bytes, pos) {
        Ok((has_line_info, lines)) => {
            match optional_line_info(has_line_info, len, bytes, lines) {
                Ok((_, flag)) => {
                    match byte_at(bytes, flag) {
                        Ok((has_var_info, vars)) => {
                            if has_var_info != 0 {
                                lemma_list_advances::<LocalInfo>(bytes, vars);
                                match list_ignored::<LocalInfo>(bytes, vars) {
                                    Ok((_, upvalues)) => {
                                        lemma_list_advances::<usize>(bytes, upvalues);
                                    },
                                    Err(_) => {},
                                }
                            }
                        },
                        Err(_) => {},
                    }
                },
                Err(_) => {},
            }
        },
        Err(_) => {},
    }
}

/// A function that parses lies between the position it was read from and
/// the position after it, and its instruction stream lies inside it.
pub proof fn lemma_function_span(bytes: Seq<u8>, pos: int)
    requires
        0 <= pos,
    ensures
        function(bytes, pos) matches Ok((parsed, next)) ==> {
            &&& pos < next <= bytes.len()
            &&& parsed.position == span(pos, next)
            &&& bytes.len() <= usize::MAX ==> parsed.code_in_position()
        },
{
    match func_meta_data(bytes, pos) {
        Err(_) => {},
        Ok((_, at_code)) => {
            lemma_any_size_advances(bytes, at_code);
            match code_block(bytes, at_code) {
                Err(_) => {},
                Ok((code, at_constants)) => {
                    lemma_list_advances::<Value>(bytes, at_constants);
                    match list_of::<Value>(bytes, at_constants) {
                        Err(_) => {},
                        Ok((_, at_references)) => {
                            lemma_list_advances::<usize>(bytes, at_references);
                            match list_of::<usize>(bytes, at_references) {
                                Err(_) => {},
                                Ok((_, at_line)) => {
                                    lemma_function_tail_advances(
                                        (code.spec_len() / 4) as usize,
                                        bytes,
                                        at_line,
                                    );
                                },
                            }
                        },
                    }
                },
            }
        },
    }
}

proof fn lemma_function_tail_advances(code_len: usize, bytes: Seq<u8>, pos: int)
    ensures
        function_tail(code_len, bytes, pos) matches Ok((_, next)) ==> 0 <= pos < next
            <= bytes.len(),
{
    lemma_any_size_advances(bytes, pos);
    match any_size(bytes, pos) {
        Err(_) => {},
        Ok((_, at_name)) => {
            lemma_any_size_advances(bytes, at_name);
            match any_size(bytes, at_name) {
                Err(_) => {},
                Ok((_, at_debug)) => {
                    lemma_debug_info_advances(code_len, bytes, at_debug);
                },
            }
        },
    }
}

/// The view of a vector of items that are their own view is the vector.
proof fn lemma_views_of_values(items: Seq<Value>)
    ensures
        views(items) == items,
{
    assert(views(items) =~= items);
}

proof fn lemma_views_of_sizes(items: Seq<usize>)
    ensures
        views(items) == items,
{
    assert(views(items) =~= items);
}

proof fn lemma_views_of_ranges(items: Seq<Range>)
    ensures
        views(items) == items,
{
    assert(views(items) =~= items);
}

/// A part of the grammar that was read at `pos` in the whole buffer ends
/// at or behind `pos`, and reads in the buffer cut off at `len` as `cut`
/// says, where `pos` is not behind the cut.
pub open spec fn cuts<T>(on_whole: Parsed<T>, on_short: Parsed<T>, pos: int, len: int) -> bool {
    &&& on_whole matches Ok((_, next)) && pos <= next
    &&& pos <= len ==> on_short == cut(on_whole, len)
}

proof fn lemma_line_info_cut(code_len: usize, whole: Seq<u8>, len: int, pos: int)
    requires
        0 <= pos,
        0 <= len <= whole.len(),
        line_info(code_len, whole, pos) is Ok,
    ensures
        cuts(
            line_info(code_len, whole, pos),
            line_info(code_len, whole.take(len), pos),
            pos,
            len,
        ),
{
    if pos <= len {
        lemma_byte_cut(whole, len, pos);
        let (gap, offsets) = byte_at(whole, pos).unwrap();
        if offsets <= len {
            lemma_skipped_cut(whole, len, offsets, code_len as int);
            let lines = skipped(whole, offsets, code_len as int).unwrap();
            if lines <= len {
                lemma_skipped_cut(whole, len, lines, 4 * intervals(code_len, gap));
            }
        }
    }
}

proof fn lemma_var_info_cut(whole: Seq<u8>, len: int, pos: int)
    requires
        0 <= pos,
        0 <= len <= whole.len(),
        var_info(whole, pos) is Ok,
    ensures
        cuts(var_info(whole, pos), var_info(whole.take(len), pos), pos, len),
{
    lemma_list_advances::<LocalInfo>(whole, pos);
    let (_, upvalues) = list_ignored::<LocalInfo>(whole, pos).unwrap();
    lemma_list_advances::<usize>(whole, upvalues);
    if pos <= len {
        lemma_list_cut::<LocalInfo>(whole, len, pos);
        if upvalues <= len {
            lemma_list_cut::<usize>(whole, len, upvalues);
        }
    }
}

proof fn lemma_optional_line_info_cut(
    flag: u8,
    code_len: usize,
    whole: Seq<u8>,
    len: int,
    pos: int,
)
    requires
        0 <= pos,
        0 <= len <= whole.len(),
        optional_line_info(flag, code_len, whole, pos) is Ok,
    ensures
        cuts(
            optional_line_info(flag, code_len, whole, pos),
            optional_line_info(flag, code_len, whole.take(len), pos),
            pos,
            len,
        ),
{
    if flag != 0 {
        lemma_line_info_cut(code_len, whole, len, pos);
    }
}

proof fn lemma_optional_var_info_cut(flag: u8, whole: Seq<u8>, len: int, pos: int)
    requires
        0 <= pos,
        0 <= len <= whole.len(),
        optional_var_info(flag, whole, pos) is Ok,
    ensures
        cuts(
            optional_var_info(flag, whole, pos),
            optional_var_info(flag, whole.take(len), pos),
            pos,
            len,
        ),
{
    if flag != 0 {
        lemma_var_info_cut(whole, len, pos);
    }
}

proof fn lemma_debug_info_cut(code_len: usize, whole: Seq<u8>, len: int, pos: int)
    requires
        0 <= pos,
        0 <= len <= whole.len(),
        debug_info(code_len, whole, pos) is Ok,
    ensures
        cuts(
            debug_info(code_len, whole, pos),
            debug_info(code_len, whole.take(len), pos),
            pos,
            len,
        ),
{
    let (has_line_info, lines) = byte_at(whole, pos).unwrap();
    lemma_optional_line_info_cut(has_line_info, code_len, whole, len, lines);
    let (_, flag) = optional_line_info(has_line_info, code_len, whole, lines).unwrap();
    let (has_var_info, vars) = byte_at(whole, flag).unwrap();
    lemma_optional_var_info_cut(has_var_info, whole, len, vars);
    if pos <= len {
        lemma_byte_cut(whole, len, pos);
        if flag <= len {
            lemma_byte_cut(whole, len, flag);
        }
    }
}

proof fn lemma_code_block_cut(whole: Seq<u8>, len: int, pos: int)
    requires
        0 <= pos,
        0 <= len <= whole.len(),
        code_block(whole, pos) is Ok,
    ensures
        cuts(code_block(whole, pos), code_block(whole.take(len), pos), pos, len),
{
    lemma_any_size_advances(whole, pos);
    if pos <= len {
        lemma_any_size_cut(whole, len, pos);
    }
}

proof fn lemma_any_size_cuts(whole: Seq<u8>, len: int, pos: int)
    requires
        0 <= pos,
        0 <= len <= whole.len(),
        any_size(whole, pos) is Ok,
    ensures
        cuts(any_size(whole, pos), any_size(whole.take(len), pos), pos, len),
{
    lemma_any_size_advances(whole, pos);
    if pos <= len {
        lemma_any_size_cut(whole, len, pos);
    }
}

proof fn lemma_list_cuts<T: Item>(whole: Seq<u8>, len: int, pos: int)
    requires
        0 <= pos,
        0 <= len <= whole.len(),
        list_of::<T>(whole, pos) is Ok,
    ensures
        cuts(list_of::<T>(whole, pos), list_of::<T>(whole.take(len), pos), pos, len),
{
    lemma_list_advances::<T>(whole, pos);
    if pos <= len {
        lemma_list_cut::<T>(whole, len, pos);
    }
}

proof fn lemma_function_tail_cut(code_len: usize, whole: Seq<u8>, len: int, pos: int)
    requires
        0 <= pos,
        0 <= len <= whole.len(),
        function_tail(code_len, whole, pos) is Ok,
    ensures
        cuts(
            function_tail(code_len, whole, pos),
            function_tail(code_len, whole.take(len), pos),
            pos,
            len,
        ),
{
    lemma_any_size_cuts(whole, len, pos);
    let (_, at_name) = any_size(whole, pos).unwrap();
    lemma_any_size_cuts(whole, len, at_name);
    let (_, at_debug) = any_size(whole, at_name).unwrap();
    lemma_debug_info_cut(code_len, whole, len, at_debug);
}

/// A function reads the same in a buffer that was cut off behind it, and
/// is a short read in one that was cut off inside it.
pub proof fn lemma_function_cut(whole: Seq<u8>, len: int, pos: int)
    requires
        0 <= pos <= len <= whole.len(),
        function(whole, pos) is Ok,
    ensures
        function(whole.take(len), pos) == cut(function(whole, pos), len),
{
    let at_code = pos + 4;
    lemma_code_block_cut(whole, len, at_code);
    let (code, at_constants) = code_block(whole, at_code).unwrap();
    lemma_list_cuts::<Value>(whole, len, at_constants);
    let (_, at_references) = list_of::<Value>(whole, at_constants).unwrap();
    lemma_list_cuts::<usize>(whole, len, at_references);
    let (_, at_line) = list_of::<usize>(whole, at_references).unwrap();
    lemma_function_tail_cut((code.spec_len() / 4) as usize, whole, len, at_line);
}

pub fn parse_function(s: &mut Stream) -> (r: Result<Function, FormatError>)
    ensures
        agrees(old(s)@, final(s)@, viewed(r), function(old(s)@.bytes, old(s)@.pos)),
        r matches Ok(parsed) ==> parsed@.code_in_position(),
{
    let start = position_of(s);
    parse_func_meta_data(s)?;
    let code = parse_code(s)?;
    let constant_list = parse_list_of::<Value>(s)?;
    let reference_list = parse_list_of::<usize>(s)?;
    let _line_defined = parse_any_size(s)?;
    let debug_name = parse_any_size(s)?;
    parse_debug_info(code.len() / 4, s)?;
    let end = position_of(s);
    let _ = buffer_len(s);
    proof {
        lemma_views_of_values(constant_list.data@);
        lemma_views_of_sizes(reference_list.data@);
        lemma_function_span(old(s)@.bytes, old(s)@.pos);
    }
    Ok(Function::new(Range { start, end }, debug_name, code, constant_list, reference_list))
}

impl Item for Function {
    open spec fn grammar(bytes: Seq<u8>, pos: int) -> Parsed<FunctionView> {
        function(bytes, pos)
    }

    proof fn lemma_advances(bytes: Seq<u8>, pos: int) {
        lemma_function_span(bytes, pos);
    }

    proof fn lemma_cut(whole: Seq<u8>, len: int, pos: int) {
        lemma_function_cut(whole, len, pos);
    }

    fn parse(s: &mut Stream) -> (r: Result<Function, FormatError>) {
        parse_function(s)
    }
}

/// A module: the version byte, the table of strings, the functions, and
/// the index of the entry function. What follows it in the buffer is not
/// looked at.
pub open spec fn module_at(bytes: Seq<u8>, pos: int) -> Parsed<ModuleView> {
    match byte_at(bytes, pos) {
        Err(error) => Err(error),
        Ok((version, at_strings)) => if version != LUAU_VERSION {
            Err(FormatError::BadVersion)
        } else {
            match list_of::<Range>(bytes, at_strings) {
                Err(error) => Err(error),
                Ok(((strings, strings_range), at_functions)) => match list_of::<Function>(
                    bytes,
                    at_functions,
                ) {
                    Err(error) => Err(error),
                    Ok(((functions, functions_range), at_entry)) => match any_size(
                        bytes,
                        at_entry,
                    ) {
                        Err(error) => Err(error),
                        Ok((start_id, next)) => Ok(
                            (
                                ModuleView {
                                    functions,
                                    functions_range,
                                    strings,
                                    strings_range,
                                    start_id,
                                },
                                next,
                            ),
                        ),
                    },
                },
            }
        },
    }
}

/// The module that a whole buffer holds.
pub open spec fn module(bytes: Seq<u8>) -> Result<ModuleView, FormatError> {
    match module_at(bytes, 0) {
        Ok((parsed, _)) => Ok(parsed),
        Err(error) => Err(error),
    }
}

/// Functions that were read one after the other lie in the buffer in that
/// order, none reaching into the next, each with its instruction stream
/// inside it.
pub proof fn lemma_functions_in_file_order(bytes: Seq<u8>, pos: int, count: nat)
    requires
        0 <= pos,
        bytes.len() <= usize::MAX,
    ensures
        items::<Function>(bytes, pos, count) matches Ok((functions, next)) ==> {
            &&& pos <= next
            &&& count > 0 ==> next <= bytes.len()
            &&& functions.len() == count
            &&& in_file_order(functions)
            &&& forall|i: int|
                0 <= i < count ==> {
                    &&& pos <= (#[trigger] functions[i]).position.start
                    &&& functions[i].position.end <= next
                    &&& functions[i].code_in_position()
                }
        },
    decreases count,
{
    if count > 0 {
        lemma_functions_in_file_order(bytes, pos, (count - 1) as nat);
        match items::<Function>(bytes, pos, (count - 1) as nat) {
            Ok((front, middle)) => {
                lemma_function_span(bytes, middle);
            },
            Err(_) => {},
        }
    }
}

/// In a module that parses, the instruction stream of every function lies
/// inside the span of the function, and the functions are in file order.
pub proof fn lemma_module_spans(bytes: Seq<u8>)
    requires
        bytes.len() <= usize::MAX,
    ensures
        module(bytes) matches Ok(parsed) ==> {
            &&& in_file_order(parsed.functions)
            &&& forall|i: int|
                0 <= i < parsed.functions.len() ==> (#[trigger] parsed.functions[i]).code_in_position()
        },
{
    match list_of::<Range>(bytes, 1) {
        Ok((_, at_functions)) => {
            lemma_list_advances::<Range>(bytes, 1);
            lemma_module_functions(bytes, at_functions);
        },
        Err(_) => {},
    }
}

proof fn lemma_module_functions(bytes: Seq<u8>, pos: int)
    requires
        bytes.len() <= usize::MAX,
    ensures
        list_of::<Function>(bytes, pos) matches Ok(((functions, _), _)) ==> {
            &&& in_file_order(functions)
            &&& forall|i: int|
                0 <= i < functions.len() ==> (#[trigger] functions[i]).code_in_position()
        },
{
    lemma_any_size_advances(bytes, pos);
    match any_size(bytes, pos) {
        Ok((count, first)) => {
            lemma_functions_in_file_order(bytes, first, count as nat);
        },
        Err(_) => {},
    }
}

/// The smallest module has four bytes: the version, two empty lists and
/// the entry index. No shorter buffer parses.
pub proof fn lemma_short_buffer_fails(bytes: Seq<u8>)
    requires
        bytes.len() < 4,
    ensures
        module(bytes) is Err,
{
    lemma_list_advances::<Range>(bytes, 1);
    match list_of::<Range>(bytes, 1) {
        Ok((_, at_functions)) => {
            lemma_list_advances::<Function>(bytes, at_functions);
            match list_of::<Function>(bytes, at_functions) {
                Ok((_, at_entry)) => {
                    lemma_any_size_advances(bytes, at_entry);
                },
                Err(_) => {},
            }
        },
        Err(_) => {},
    }
}

/// A module reads the same in a buffer that was cut off behind it, and is
/// a short read in one that was cut off inside it: a truncated module never
/// parses, in part or in whole.
pub proof fn lemma_module_cut(whole: Seq<u8>, len: int)
    requires
        0 <= len <= whole.len(),
        module_at(whole, 0) is Ok,
    ensures
        module_at(whole.take(len), 0) == cut(module_at(whole, 0), len),
        module_at(whole, 0) matches Ok((_, end)) && len < end ==> module(whole.take(len)) == Err::<
            ModuleView,
            FormatError,
        >(FormatError::ShortRead),
{
    lemma_byte_cut(whole, len, 0);
    lemma_list_cuts::<Range>(whole, len, 1);
    let (_, at_functions) = list_of::<Range>(whole, 1).unwrap();
    lemma_list_cuts::<Function>(whole, len, at_functions);
    let (_, at_entry) = list_of::<Function>(whole, at_functions).unwrap();
    lemma_any_size_cuts(whole, len, at_entry);
}

pub fn parse_module(s: &mut Stream) -> (r: Result<Module, FormatError>)
    ensures
        agrees(old(s)@, final(s)@, viewed(r), module_at(old(s)@.bytes, old(s)@.pos)),
        r matches Ok(parsed) ==> forall|i: int|
            0 <= i < parsed@.functions.len() ==> (#[trigger] parsed@.functions[i]).code_in_position(),
{
    let version = parse_u8(s)?;
    if version != LUAU_VERSION {
        return Err(FormatError::BadVersion);
    }
    let string_list = parse_list_of::<Range>(s)?;
    let ghost at_functions = s@.pos;
    let function_list = parse_list_of::<Function>(s)?;
    let entry_point = parse_any_size(s)?;
    let _ = buffer_len(s);
    proof {
        lemma_views_of_ranges(string_list.data@);
        lemma_module_functions(s@.bytes, at_functions);
        assert(function_views(function_list.data@) =~= views(function_list.data@));
    }
    Ok(Module::new(function_list, string_list, entry_point))
}

/// Reads the module that `buffer` holds. Any short read, a wrong version
/// or an unknown constant tag fails the whole; there is no partial result.
pub fn parse(buffer: &[u8]) -> (r: Result<Module, FormatError>)
    ensures
        viewed(r) == module(buffer@),
        r matches Ok(parsed) ==> forall|i: int|
            0 <= i < parsed@.functions.len() ==> (#[trigger] parsed@.functions[i]).code_in_position(),
        buffer@.len() < 4 ==> r is Err,
{
    let mut cursor = Stream::new(buffer);
    proof {
        if buffer@.len() < 4 {
            lemma_short_buffer_fails(buffer@);
        }
    }
    parse_module(&mut cursor)
}

/// The varint that holds `value`: its digits in base 128, least
/// significant first, each but the last with the high bit set.
pub open spec fn varint_bytes(value: u64) -> Seq<u8>
    decreases value,
{
    if value < 0x80 {
        seq![value as u8]
    } else {
        seq![(value % 0x80 + 0x80) as u8] + varint_bytes(value / 0x80)
    }
}

/// The value of a varint is the payload of its first byte below the value
/// of the rest, moved up by seven bits.
proof fn lemma_varint_value_split(bytes: Seq<u8>, start: int, count: nat)
    ensures
        varint_value(bytes, start, count + 1) == payload(bytes[start], 0) | (varint_value(
            bytes,
            start + 1,
            count,
        ) << 7u64),
    decreases count,
{
    if count == 0 {
        let first = payload(bytes[start], 0);
        assert(varint_value(bytes, start, 1) == 0u64 | first) by {
            reveal_with_fuel(varint_value, 2);
        }
        assert(0u64 | first == first | (0u64 << 7u64)) by (bit_vector);
    } else {
        lemma_varint_value_split(bytes, start, (count - 1) as nat);
        let byte = bytes[start + count];
        let first = payload(bytes[start], 0);
        let front = varint_value(bytes, start + 1, (count - 1) as nat);
        let low = payload(byte, (count - 1) as nat);
        let high = payload(byte, count);
        assert(high == low << 7u64) by {
            lemma_payload_step(byte, (count - 1) as nat);
        }
        assert((first | (front << 7u64)) | (low << 7u64) == first | ((front | low) << 7u64))
            by (bit_vector);
    }
}

/// The payload of a byte one place up is its payload moved up by seven
/// bits.
proof fn lemma_payload_step(byte: u8, index: nat)
    ensures
        payload(byte, index + 1) == payload(byte, index) << 7u64,
{
    let bits = (byte & 0x7f) as u64;
    assert(bits < 0x80) by (bit_vector)
        requires
            bits == (byte & 0x7f) as u64,
    ;
    if index < 9 {
        let shift = (7 * index) as u64;
        assert((bits << shift) << 7u64 == bits << ((shift + 7) as u64)) by (bit_vector)
            requires
                shift <= 56,
        ;
    } else if index == 9 {
        assert((bits << 63u64) << 7u64 == 0u64) by (bit_vector);
    } else {
        assert(0u64 << 7u64 == 0u64) by (bit_vector);
    }
}

/// A varint read in one buffer reads the same in another that holds the
/// same bytes from the position on.
proof fn lemma_varint_moved(from: Seq<u8>, pos: int, to: Seq<u8>, shift: int, count: nat)
    requires
        0 <= pos,
        0 <= pos + shift,
        to.len() == from.len() + shift,
        forall|k: int| pos <= k < from.len() ==> from[k] == #[trigger] to[k + shift],
    ensures
        varint_len(to, pos + shift) == varint_len(from, pos),
        pos + count <= from.len() ==> varint_value(to, pos + shift, count) == varint_value(
            from,
            pos,
            count,
        ),
    decreases from.len() - pos, count,
{
    if pos < from.len() {
        assert(from[pos] == to[pos + shift]);
        lemma_varint_moved(from, pos + 1, to, shift, 0);
    }
    if count > 0 && pos + count <= from.len() {
        assert(from[pos + count - 1] == to[pos + count - 1 + shift]);
        lemma_varint_moved(from, pos, to, shift, (count - 1) as nat);
    }
}

/// Reading back the varint that holds a value gives the value, and ends
/// right behind the varint, whatever follows it.
pub proof fn lemma_varint_roundtrip(value: u64, rest: Seq<u8>)
    ensures
        any_size(varint_bytes(value) + rest, 0) == Ok::<(usize, int), FormatError>(
            (value as usize, varint_bytes(value).len() as int),
        ),
        varint_len(varint_bytes(value) + rest, 0) == Some(varint_bytes(value).len()),
        varint_value(varint_bytes(value) + rest, 0, varint_bytes(value).len()) == value,
    decreases value,
{
    let whole = varint_bytes(value) + rest;
    if value < 0x80 {
        let byte = value as u8;
        assert(whole[0] == byte);
        assert(!continues(byte) && ((byte & 0x7f) as u64) << 0u64 == value) by (bit_vector)
            requires
                value < 0x80,
                byte == value as u8,
        ;
        assert(varint_value(whole, 0, 1) == 0u64 | payload(byte, 0)) by {
            reveal_with_fuel(varint_value, 2);
        }
        assert(0u64 | value == value) by (bit_vector);
    } else {
        let byte = (value % 0x80 + 0x80) as u8;
        let tail = varint_bytes(value / 0x80) + rest;
        let count = varint_bytes(value / 0x80).len();
        lemma_varint_roundtrip(value / 0x80, rest);
        assert(whole =~= seq![byte] + tail);
        assert(whole[0] == byte);
        assert forall|k: int| 0 <= k < tail.len() implies tail[k] == #[trigger] whole[k + 1] by {}
        lemma_varint_moved(tail, 0, whole, 1, count);
        assert(continues(byte) && ((byte & 0x7f) as u64) << 0u64 == value % 0x80) by (bit_vector)
            requires
                byte == (value % 0x80 + 0x80) as u8,
        ;
        lemma_varint_value_split(whole, 0, count);
        assert((value % 0x80) | ((value / 0x80) << 7u64) == value) by (bit_vector);
    }
}

/// Writes `value` as a varint.
pub fn encode_any_size(value: usize) -> (bytes: Vec<u8>)
    ensures
        bytes@ == varint_bytes(value as u64),
{
    let mut bytes: Vec<u8> = Vec::new();
    let mut left: u64 = value as u64;
    while left >= 0x80
        invariant
            bytes@ + varint_bytes(left) == varint_bytes(value as u64),
        decreases left,
    {
        let ghost before = bytes@;
        bytes.push((left % 0x80 + 0x80) as u8);
        proof {
            assert(bytes@ + varint_bytes(left / 0x80) =~= before + varint_bytes(left));
        }
        left = left / 0x80;
    }
    bytes.push(left as u8);
    bytes
}

} // verus!
