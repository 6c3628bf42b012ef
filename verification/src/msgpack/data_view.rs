//! The data view: a cursor over an owned byte buffer.
//!
//! A view is made once from a buffer, a start position and a declared length.
//! Every access first checks that it ends within the declared length; one that
//! does not is refused with a message and changes nothing. One that does is
//! carried out and moves the position forward by the number of bytes it
//! touched. Numbers are stored most significant byte first.
use super::byte_order::{
    be_bytes, be_value, lemma_be_bytes_len, lemma_radix_table, overwrite, pattern_from_signed,
    pattern_of, radix, read_be, signed_from_pattern, signed_of, write_be,
};
use super::context::{with_context, Context};
use super::utils::{
    index_out_of_range_text, invalid_length_text, throw_index_out_of_range, throw_invalid_length,
};
use super::BLOCK_MAX_SIZE;
use vstd::prelude::*;
use vstd::slice::{slice_subrange, slice_to_vec};

verus! {

/// What a data view is, as mathematics.
pub struct DataViewModel {
    /// The stored bytes: a copy of the buffer that the view was made from, with
    /// what has been written since.
    pub bytes: Seq<u8>,
    /// The position of the next access, counted from the start of `bytes`.
    pub byte_offset: nat,
    /// The declared length: the position that no access may go beyond.
    pub byte_length: nat,
    /// The labels of the diagnostic context, the outermost first.
    pub context: Seq<Seq<char>>,
}

impl DataViewModel {
    /// The declared length is no more than a view may declare, and neither it
    /// nor the position is beyond the stored bytes.
    pub open spec fn wf(self) -> bool {
        &&& self.byte_length <= BLOCK_MAX_SIZE
        &&& self.byte_length <= self.bytes.len()
        &&& self.byte_offset <= self.bytes.len()
    }

    /// Whether an access of `count` bytes at the position ends within the
    /// declared length. A negative count never fits.
    pub open spec fn fits(self, count: int) -> bool {
        0 <= count && self.byte_offset + count <= self.byte_length
    }

    /// The `count` bytes at the position.
    pub open spec fn peek(self, count: int) -> Seq<u8> {
        self.bytes.subrange(self.byte_offset as int, self.byte_offset + count)
    }

    /// The view after `count` bytes were passed over: the position has moved,
    /// nothing else has changed.
    pub open spec fn skipped(self, count: int) -> DataViewModel {
        DataViewModel { byte_offset: (self.byte_offset + count) as nat, ..self }
    }

    /// The view after `data` was written at the position and the position moved
    /// behind it.
    pub open spec fn written(self, data: Seq<u8>) -> DataViewModel {
        DataViewModel {
            bytes: overwrite(self.bytes, self.byte_offset as int, data),
            byte_offset: self.byte_offset + data.len(),
            ..self
        }
    }

    /// The message with which the view refuses an access of `count` bytes by
    /// `method`.
    pub open spec fn refusal(self, method: Seq<char>, count: int) -> Seq<char> {
        with_context(
            self.context,
            index_out_of_range_text(
                method,
                count,
                self.byte_offset as int,
                self.byte_length as int,
            ),
        )
    }
}

/// An access of `count` bytes was carried out without writing: it fitted, and
/// only the position has changed.
pub open spec fn passes(before: DataViewModel, after: DataViewModel, count: int) -> bool {
    before.fits(count) && after == before.skipped(count)
}

/// An access that stores `data` was carried out: it fitted, the bytes stand at
/// the old position and the position has moved behind them.
pub open spec fn stores(before: DataViewModel, after: DataViewModel, data: Seq<u8>) -> bool {
    before.fits(data.len() as int) && after == before.written(data)
}

/// An access of `count` bytes by `method` was refused: it did not fit, nothing
/// has changed, and `message` says so.
pub open spec fn refuses(
    before: DataViewModel,
    after: DataViewModel,
    method: Seq<char>,
    count: int,
    message: Seq<char>,
) -> bool {
    !before.fits(count) && after == before && message == before.refusal(method, count)
}

/// The start position that `new` takes from its argument: 0 where none is given.
pub open spec fn start_of(offset: Option<usize>) -> nat {
    match offset {
        Some(start) => start as nat,
        None => 0,
    }
}

/// The declared length that `new` takes from its argument: the length of the
/// buffer where none is given.
pub open spec fn length_of(length: Option<usize>, buffer_length: nat) -> nat {
    match length {
        Some(declared) => declared as nat,
        None => buffer_length,
    }
}

/// The labels that `new` takes from its argument: none where no context is given.
pub open spec fn labels_of(cxt: Option<Context>) -> Seq<Seq<char>> {
    match cxt {
        Some(context) => context@,
        None => Seq::empty(),
    }
}

/// Whether a view that starts at `start` with declared length `length` can be
/// made on a buffer of `buffer_length` bytes.
pub open spec fn accepts(buffer_length: nat, start: nat, length: nat) -> bool {
    length <= BLOCK_MAX_SIZE && start + length <= buffer_length
}

/// A cursor over an owned byte buffer.
#[derive(Debug)]
pub struct DataView {
    buffer: Vec<u8>,
    byte_length: usize,
    byte_offset: usize,
    context: Context,
}

impl View for DataView {
    type V = DataViewModel;

    closed spec fn view(&self) -> DataViewModel {
        DataViewModel {
            bytes: self.buffer@,
            byte_offset: self.byte_offset as nat,
            byte_length: self.byte_length as nat,
            context: self.context@,
        }
    }
}

impl DataView {
    /// What every view satisfies from its making on.
    pub open spec fn wf(&self) -> bool {
        self@.wf()
    }

    /// Makes a view on a copy of `buf`. The position starts at `offset`, or at 0;
    /// the declared length is `length`, or the length of `buf`. The view is
    /// refused where the declared length is above `BLOCK_MAX_SIZE`, or where the
    /// start position and the declared length together are more than `buf`
    /// holds: so a start position other than 0 needs a declared length.
    ///
    /// The position and the declared length both count from the start of
    /// `buf`. A view that starts behind its declared length is made, and then
    /// refuses every access.
    pub fn new(
        buf: &[u8],
        cxt: Option<Context>,
        offset: Option<usize>,
        length: Option<usize>,
    ) -> (result: Result<DataView, String>)
        ensures
            match result {
                Ok(view) => {
                    &&& accepts(buf@.len(), start_of(offset), length_of(length, buf@.len()))
                    &&& view.wf()
                    &&& view@.bytes == buf@
                    &&& view@.byte_offset == start_of(offset)
                    &&& view@.byte_length == length_of(length, buf@.len())
                    &&& view@.context == labels_of(cxt)
                },
                Err(message) => {
                    &&& !accepts(buf@.len(), start_of(offset), length_of(length, buf@.len()))
                    &&& message@ == with_context(
                        labels_of(cxt),
                        invalid_length_text(
                            length_of(length, buf@.len()) as int,
                            start_of(offset) as int,
                            buf@.len() as int,
                        ),
                    )
                },
            },
    {
        let context: Context = match cxt {
            Some(given) => given,
            None => Context::new(),
        };
        let byte_offset: usize = match offset {
            Some(start) => start,
            None => 0,
        };
        let byte_length: usize = match length {
            Some(declared) => declared,
            None => buf.len(),
        };
        if byte_length > BLOCK_MAX_SIZE || byte_offset > buf.len() || byte_length > buf.len()
            - byte_offset {
            return Err(throw_invalid_length(&context, byte_length, byte_offset, buf.len()));
        }
        Ok(DataView { buffer: slice_to_vec(buf), byte_length, byte_offset, context })
    }

    /// The position of the next access.
    pub fn byte_offset(&self) -> (offset: usize)
        ensures
            offset == self@.byte_offset,
    {
        self.byte_offset
    }

    /// The declared length.
    pub fn byte_length(&self) -> (length: usize)
        ensures
            length == self@.byte_length,
    {
        self.byte_length
    }

    /// The stored bytes, all of them, whatever the position and the declared
    /// length.
    pub fn buffer(&self) -> (bytes: &[u8])
        ensures
            bytes@ == self@.bytes,
    {
        self.buffer.as_slice()
    }

    /// Ends the session and hands out the stored bytes: what an encoder has
    /// written is collected here.
    pub fn into_bytes(self) -> (bytes: Vec<u8>)
        ensures
            bytes@ == self@.bytes,
    {
        self.buffer
    }

    /// The diagnostic context that the view's messages carry.
    pub fn context(&self) -> (context: &Context)
        ensures
            context@ == self@.context,
    {
        &self.context
    }

    /// Checks that an access of `length` bytes by `method` ends within the
    /// declared length, and makes the refusal where it does not.
    fn check_index_in_range(&self, method: &str, length: i128) -> (result: Result<(), String>)
        ensures
            match result {
                Ok(_) => self@.fits(length as int),
                Err(message) => {
                    &&& !self@.fits(length as int)
                    &&& message@ == self@.refusal(method@, length as int)
                },
            },
    {
        if length < 0 || length > self.byte_length as i128 - self.byte_offset as i128 {
            return Err(
                throw_index_out_of_range(
                    &self.context,
                    method,
                    length,
                    self.byte_offset,
                    self.byte_length,
                ),
            );
        }
        Ok(())
    }

    /// Reads a number of `width` bytes at the position and moves behind it.
    fn take_number(&mut self, method: &str, width: usize) -> (result: Result<u64, String>)
        requires
            old(self).wf(),
            1 <= width <= 8,
        ensures
            final(self).wf(),
            match result {
                Ok(pattern) => {
                    &&& passes(old(self)@, final(self)@, width as int)
                    &&& pattern == be_value(old(self)@.peek(width as int))
                    &&& pattern < radix(width as nat)
                },
                Err(message) => refuses(
                    old(self)@,
                    final(self)@,
                    method@,
                    width as int,
                    message@,
                ),
            },
    {
        match self.check_index_in_range(method, width as i128) {
            Ok(_) => {
                let pattern: u64 = read_be(&self.buffer, self.byte_offset, width);
                self.byte_offset = self.byte_offset + width;
                Ok(pattern)
            },
            Err(message) => Err(message),
        }
    }

    /// Writes `pattern` in `width` bytes at the position and moves behind it.
    fn put_number(&mut self, method: &str, width: usize, pattern: u64) -> (result: Result<(), String>)
        requires
            old(self).wf(),
            1 <= width <= 8,
        ensures
            final(self).wf(),
            match result {
                Ok(_) => stores(old(self)@, final(self)@, be_bytes(pattern as nat, width as nat)),
                Err(message) => refuses(
                    old(self)@,
                    final(self)@,
                    method@,
                    width as int,
                    message@,
                ),
            },
    {
        match self.check_index_in_range(method, width as i128) {
            Ok(_) => {
                proof {
                    lemma_be_bytes_len(pattern as nat, width as nat);
                }
                write_be(&mut self.buffer, self.byte_offset, width, pattern);
                self.byte_offset = self.byte_offset + width;
                Ok(())
            },
            Err(message) => Err(message),
        }
    }

    /// Returns a copy of the `length` bytes at the position and moves behind
    /// them. A negative `length`, or one that goes beyond the declared length, is
    /// refused.
    pub fn get_bytes(&mut self, length: i32) -> (result: Result<Vec<u8>, String>)
        requires
            old(self).wf(),
        ensures
            final(self).wf(),
            match result {
                Ok(bytes) => {
                    &&& passes(old(self)@, final(self)@, length as int)
                    &&& bytes@ == old(self)@.peek(length as int)
                },
                Err(message) => refuses(
                    old(self)@,
                    final(self)@,
                    "get_bytes"@,
                    length as int,
                    message@,
                ),
            },
    {
        match self.check_index_in_range("get_bytes", length as i128) {
            Ok(_) => {
                let end: usize = self.byte_offset + length as usize;
                let bytes: Vec<u8> = slice_to_vec(
                    slice_subrange(self.buffer.as_slice(), self.byte_offset, end),
                );
                self.byte_offset = end;
                Ok(bytes)
            },
            Err(message) => Err(message),
        }
    }

    /// Returns the byte at the position and stays there.
    pub fn peek_u8(&mut self) -> (result: Result<u8, String>)
        requires
            old(self).wf(),
        ensures
            final(self).wf(),
            final(self)@ == old(self)@,
            match result {
                Ok(value) => {
                    &&& old(self)@.fits(1)
                    &&& value == old(self)@.bytes[old(self)@.byte_offset as int]
                },
                Err(message) => {
                    &&& !old(self)@.fits(1)
                    &&& message@ == old(self)@.refusal("peek_u8"@, 1)
                },
            },
    {
        match self.check_index_in_range("peek_u8", 1) {
            Ok(_) => Ok(self.buffer[self.byte_offset]),
            Err(message) => Err(message),
        }
    }

    /// Moves the position forward by `length` bytes without reading them. A
    /// negative `length`, or one that goes beyond the declared length, is
    /// refused.
    pub fn discard(&mut self, length: i32) -> (result: Result<(), String>)
        requires
            old(self).wf(),
        ensures
            final(self).wf(),
            match result {
                Ok(_) => passes(old(self)@, final(self)@, length as int),
                Err(message) => refuses(
                    old(self)@,
                    final(self)@,
                    "discard"@,
                    length as int,
                    message@,
                ),
            },
    {
        match self.check_index_in_range("discard", length as i128) {
            Ok(_) => {
                self.byte_offset = self.byte_offset + length as usize;
                Ok(())
            },
            Err(message) => Err(message),
        }
    }

    /// Reads the bit pattern of a 32-bit IEEE-754 number, most significant byte
    /// first, and moves 4 bytes forward. The pattern is handed out as it is stored:
    /// no numeric conversion takes place.
    pub fn get_f32(&mut self) -> (result: Result<u32, String>)
        requires
            old(self).wf(),
        ensures
            final(self).wf(),
            match result {
                Ok(value) => {
                    &&& passes(old(self)@, final(self)@, 4)
                    &&& value == be_value(old(self)@.peek(4))
                },
                Err(message) => refuses(old(self)@, final(self)@, "get_f32"@, 4, message@),
            },
    {
        match self.take_number("get_f32", 4) {
            Ok(pattern) => {
                proof {
                    lemma_radix_table();
                }
                Ok(pattern as u32)
            },
            Err(message) => Err(message),
        }
    }

    /// Reads the bit pattern of a 64-bit IEEE-754 number, most significant byte
    /// first, and moves 8 bytes forward. The pattern is handed out as it is stored:
    /// no numeric conversion takes place.
    pub fn get_f64(&mut self) -> (result: Result<u64, String>)
        requires
            old(self).wf(),
        ensures
            final(self).wf(),
            match result {
                Ok(value) => {
                    &&& passes(old(self)@, final(self)@, 8)
                    &&& value == be_value(old(self)@.peek(8))
                },
                Err(message) => refuses(old(self)@, final(self)@, "get_f64"@, 8, message@),
            },
    {
        match self.take_number("get_f64", 8) {
            Ok(pattern) => {
                proof {
                    lemma_radix_table();
                }
                Ok(pattern)
            },
            Err(message) => Err(message),
        }
    }

    /// Reads a signed number of 1 byte in two's complement, most significant
    /// byte first, and moves behind it.
    pub fn get_i8(&mut self) -> (result: Result<i8, String>)
        requires
            old(self).wf(),
        ensures
            final(self).wf(),
            match result {
                Ok(value) => {
                    &&& passes(old(self)@, final(self)@, 1)
                    &&& value == signed_of(be_value(old(self)@.peek(1)), 1)
                },
                Err(message) => refuses(old(self)@, final(self)@, "get_i8"@, 1, message@),
            },
    {
        match self.take_number("get_i8", 1) {
            Ok(pattern) => {
                proof {
                    lemma_radix_table();
                }
                Ok(signed_from_pattern(pattern, 1) as i8)
            },
            Err(message) => Err(message),
        }
    }

    /// Reads a signed number of 2 bytes in two's complement, most significant
    /// byte first, and moves behind it.
    pub fn get_i16(&mut self) -> (result: Result<i16, String>)
        requires
            old(self).wf(),
        ensures
            final(self).wf(),
            match result {
                Ok(value) => {
                    &&& passes(old(self)@, final(self)@, 2)
                    &&& value == signed_of(be_value(old(self)@.peek(2)), 2)
                },
                Err(message) => refuses(old(self)@, final(self)@, "get_i16"@, 2, message@),
            },
    {
        match self.take_number("get_i16", 2) {
            Ok(pattern) => {
                proof {
                    lemma_radix_table();
                }
                Ok(signed_from_pattern(pattern, 2) as i16)
            },
            Err(message) => Err(message),
        }
    }

    /// Reads a signed number of 4 bytes in two's complement, most significant
    /// byte first, and moves behind it.
    pub fn get_i32(&mut self) -> (result: Result<i32, String>)
        requires
            old(self).wf(),
        ensures
            final(self).wf(),
            match result {
                Ok(value) => {
                    &&& passes(old(self)@, final(self)@, 4)
                    &&& value == signed_of(be_value(old(self)@.peek(4)), 4)
                },
                Err(message) => refuses(old(self)@, final(self)@, "get_i32"@, 4, message@),
            },
    {
        match self.take_number("get_i32", 4) {
            Ok(pattern) => {
                proof {
                    lemma_radix_table();
                }
                Ok(signed_from_pattern(pattern, 4) as i32)
            },
            Err(message) => Err(message),
        }
    }

    /// Reads a signed number of 8 bytes in two's complement, most significant
    /// byte first, and moves behind it.
    pub fn get_i64(&mut self) -> (result: Result<i64, String>)
        requires
            old(self).wf(),
        ensures
            final(self).wf(),
            match result {
                Ok(value) => {
                    &&& passes(old(self)@, final(self)@, 8)
                    &&& value == signed_of(be_value(old(self)@.peek(8)), 8)
                },
                Err(message) => refuses(old(self)@, final(self)@, "get_i64"@, 8, message@),
            },
    {
        match self.take_number("get_i64", 8) {
            Ok(pattern) => {
                proof {
                    lemma_radix_table();
                }
                Ok(signed_from_pattern(pattern, 8))
            },
            Err(message) => Err(message),
        }
    }

    /// Reads an unsigned number of 1 byte, most significant byte first, and
    /// moves behind it.
    pub fn get_u8(&mut self) -> (result: Result<u8, String>)
        requires
            old(self).wf(),
        ensures
            final(self).wf(),
            match result {
                Ok(value) => {
                    &&& passes(old(self)@, final(self)@, 1)
                    &&& value == be_value(old(self)@.peek(1))
                },
                Err(message) => refuses(old(self)@, final(self)@, "get_u8"@, 1, message@),
            },
    {
        match self.take_number("get_u8", 1) {
            Ok(pattern) => {
                proof {
                    lemma_radix_table();
                }
                Ok(pattern as u8)
            },
            Err(message) => Err(message),
        }
    }

    /// Reads an unsigned number of 2 bytes, most significant byte first, and
    /// moves behind it.
    pub fn get_u16(&mut self) -> (result: Result<u16, String>)
        requires
            old(self).wf(),
        ensures
            final(self).wf(),
            match result {
                Ok(value) => {
                    &&& passes(old(self)@, final(self)@, 2)
                    &&& value == be_value(old(self)@.peek(2))
                },
                Err(message) => refuses(old(self)@, final(self)@, "get_u16"@, 2, message@),
            },
    {
        match self.take_number("get_u16", 2) {
            Ok(pattern) => {
                proof {
                    lemma_radix_table();
                }
                Ok(pattern as u16)
            },
            Err(message) => Err(message),
        }
    }

    /// Reads an unsigned number of 4 bytes, most significant byte first, and
    /// moves behind it.
    pub fn get_u32(&mut self) -> (result: Result<u32, String>)
        requires
            old(self).wf(),
        ensures
            final(self).wf(),
            match result {
                Ok(value) => {
                    &&& passes(old(self)@, final(self)@, 4)
                    &&& value == be_value(old(self)@.peek(4))
                },
                Err(message) => refuses(old(self)@, final(self)@, "get_u32"@, 4, message@),
            },
    {
        match self.take_number("get_u32", 4) {
            Ok(pattern) => {
                proof {
                    lemma_radix_table();
                }
                Ok(pattern as u32)
            },
            Err(message) => Err(message),
        }
    }

    /// Reads an unsigned number of 8 bytes, most significant byte first, and
    /// moves behind it.
    pub fn get_u64(&mut self) -> (result: Result<u64, String>)
        requires
            old(self).wf(),
        ensures
            final(self).wf(),
            match result {
                Ok(value) => {
                    &&& passes(old(self)@, final(self)@, 8)
                    &&& value == be_value(old(self)@.peek(8))
                },
                Err(message) => refuses(old(self)@, final(self)@, "get_u64"@, 8, message@),
            },
    {
        match self.take_number("get_u64", 8) {
            Ok(pattern) => {
                proof {
                    lemma_radix_table();
                }
                Ok(pattern)
            },
            Err(message) => Err(message),
        }
    }

    /// Writes `buf` at the position, byte for byte, and moves behind it. The
    /// stored bytes keep their number: a `buf` that goes beyond the declared
    /// length is refused and nothing is written.
    pub fn set_bytes(&mut self, buf: &[u8]) -> (result: Result<(), String>)
        requires
            old(self).wf(),
        ensures
            final(self).wf(),
            final(self)@.bytes.len() == old(self)@.bytes.len(),
            match result {
                Ok(_) => stores(old(self)@, final(self)@, buf@),
                Err(message) => refuses(
                    old(self)@,
                    final(self)@,
                    "set_bytes"@,
                    buf@.len() as int,
                    message@,
                ),
            },
    {
        match self.check_index_in_range("set_bytes", buf.len() as i128) {
            Ok(_) => {
                let start: usize = self.byte_offset;
                let mut i: usize = 0;
                while i < buf.len()
                    invariant
                        i <= buf.len(),
                        start + buf.len() <= self.buffer.len(),
                        self.buffer.len() == old(self).buffer.len(),
                        self.byte_offset == start,
                        self.byte_length == old(self).byte_length,
                        self.context == old(self).context,
                        self.buffer@ == overwrite(
                            old(self).buffer@,
                            start as int,
                            buf@.take(i as int),
                        ),
                    decreases buf.len() - i,
                {
                    self.buffer[start + i] = buf[i];
                    i = i + 1;
                    assert(self.buffer@ =~= overwrite(
                        old(self).buffer@,
                        start as int,
                        buf@.take(i as int),
                    ));
                }
                assert(buf@.take(buf.len() as int) =~= buf@);
                self.byte_offset = start + buf.len();
                Ok(())
            },
            Err(message) => Err(message),
        }
    }

    /// Writes the bit pattern of a 32-bit IEEE-754 number, most significant byte
    /// first, and moves 4 bytes forward. The pattern is stored as it is given.
    pub fn set_f32(&mut self, value: u32) -> (result: Result<(), String>)
        requires
            old(self).wf(),
        ensures
            final(self).wf(),
            final(self)@.bytes.len() == old(self)@.bytes.len(),
            match result {
                Ok(_) => stores(old(self)@, final(self)@, be_bytes(value as nat, 4)),
                Err(message) => refuses(old(self)@, final(self)@, "set_f32"@, 4, message@),
            },
    {
        self.put_number("set_f32", 4, value as u64)
    }

    /// Writes the bit pattern of a 64-bit IEEE-754 number, most significant byte
    /// first, and moves 8 bytes forward. The pattern is stored as it is given.
    pub fn set_f64(&mut self, value: u64) -> (result: Result<(), String>)
        requires
            old(self).wf(),
        ensures
            final(self).wf(),
            final(self)@.bytes.len() == old(self)@.bytes.len(),
            match result {
                Ok(_) => stores(old(self)@, final(self)@, be_bytes(value as nat, 8)),
                Err(message) => refuses(old(self)@, final(self)@, "set_f64"@, 8, message@),
            },
    {
        self.put_number("set_f64", 8, value)
    }

    /// Writes a signed number in 1 byte of two's complement, most significant
    /// byte first, and moves behind it.
    pub fn set_i8(&mut self, value: i8) -> (result: Result<(), String>)
        requires
            old(self).wf(),
        ensures
            final(self).wf(),
            final(self)@.bytes.len() == old(self)@.bytes.len(),
            match result {
                Ok(_) => stores(old(self)@, final(self)@, be_bytes(pattern_of(value as int, 1), 1)),
                Err(message) => refuses(old(self)@, final(self)@, "set_i8"@, 1, message@),
            },
    {
        proof {
            lemma_radix_table();
        }
        self.put_number("set_i8", 1, pattern_from_signed(value as i64, 1))
    }

    /// Writes a signed number in 2 bytes of two's complement, most significant
    /// byte first, and moves behind it.
    pub fn set_i16(&mut self, value: i16) -> (result: Result<(), String>)
        requires
            old(self).wf(),
        ensures
            final(self).wf(),
            final(self)@.bytes.len() == old(self)@.bytes.len(),
            match result {
                Ok(_) => stores(old(self)@, final(self)@, be_bytes(pattern_of(value as int, 2), 2)),
                Err(message) => refuses(old(self)@, final(self)@, "set_i16"@, 2, message@),
            },
    {
        proof {
            lemma_radix_table();
        }
        self.put_number("set_i16", 2, pattern_from_signed(value as i64, 2))
    }

    /// Writes a signed number in 4 bytes of two's complement, most significant
    /// byte first, and moves behind it.
    pub fn set_i32(&mut self, value: i32) -> (result: Result<(), String>)
        requires
            old(self).wf(),
        ensures
            final(self).wf(),
            final(self)@.bytes.len() == old(self)@.bytes.len(),
            match result {
                Ok(_) => stores(old(self)@, final(self)@, be_bytes(pattern_of(value as int, 4), 4)),
                Err(message) => refuses(old(self)@, final(self)@, "set_i32"@, 4, message@),
            },
    {
        proof {
            lemma_radix_table();
        }
        self.put_number("set_i32", 4, pattern_from_signed(value as i64, 4))
    }

    /// Writes a signed number in 8 bytes of two's complement, most significant
    /// byte first, and moves behind it.
    pub fn set_i64(&mut self, value: i64) -> (result: Result<(), String>)
        requires
            old(self).wf(),
        ensures
            final(self).wf(),
            final(self)@.bytes.len() == old(self)@.bytes.len(),
            match result {
                Ok(_) => stores(old(self)@, final(self)@, be_bytes(pattern_of(value as int, 8), 8)),
                Err(message) => refuses(old(self)@, final(self)@, "set_i64"@, 8, message@),
            },
    {
        proof {
            lemma_radix_table();
        }
        self.put_number("set_i64", 8, pattern_from_signed(value, 8))
    }

    /// Writes an unsigned number in 1 byte, most significant byte first, and
    /// moves behind it.
    pub fn set_u8(&mut self, value: u8) -> (result: Result<(), String>)
        requires
            old(self).wf(),
        ensures
            final(self).wf(),
            final(self)@.bytes.len() == old(self)@.bytes.len(),
            match result {
                Ok(_) => stores(old(self)@, final(self)@, be_bytes(value as nat, 1)),
                Err(message) => refuses(old(self)@, final(self)@, "set_u8"@, 1, message@),
            },
    {
        self.put_number("set_u8", 1, value as u64)
    }

    /// Writes an unsigned number in 2 bytes, most significant byte first, and
    /// moves behind it.
    pub fn set_u16(&mut self, value: u16) -> (result: Result<(), String>)
        requires
            old(self).wf(),
        ensures
            final(self).wf(),
            final(self)@.bytes.len() == old(self)@.bytes.len(),
            match result {
                Ok(_) => stores(old(self)@, final(self)@, be_bytes(value as nat, 2)),
                Err(message) => refuses(old(self)@, final(self)@, "set_u16"@, 2, message@),
            },
    {
        self.put_number("set_u16", 2, value as u64)
    }

    /// Writes an unsigned number in 4 bytes, most significant byte first, and
    /// moves behind it.
    pub fn set_u32(&mut self, value: u32) -> (result: Result<(), String>)
        requires
            old(self).wf(),
        ensures
            final(self).wf(),
            final(self)@.bytes.len() == old(self)@.bytes.len(),
            match result {
                Ok(_) => stores(old(self)@, final(self)@, be_bytes(value as nat, 4)),
                Err(message) => refuses(old(self)@, final(self)@, "set_u32"@, 4, message@),
            },
    {
        self.put_number("set_u32", 4, value as u64)
    }

    /// Writes an unsigned number in 8 bytes, most significant byte first, and
    /// moves behind it.
    pub fn set_u64(&mut self, value: u64) -> (result: Result<(), String>)
        requires
            old(self).wf(),
        ensures
            final(self).wf(),
            final(self)@.bytes.len() == old(self)@.bytes.len(),
            match result {
                Ok(_) => stores(old(self)@, final(self)@, be_bytes(value as nat, 8)),
                Err(message) => refuses(old(self)@, final(self)@, "set_u64"@, 8, message@),
            },
    {
        self.put_number("set_u64", 8, value)
    }
}

impl Clone for DataView {
    /// A view with its own copy of the stored bytes, at the same position.
    fn clone(&self) -> (view: DataView)
        ensures
            view@ == self@,
    {
        DataView {
            buffer: slice_to_vec(self.buffer.as_slice()),
            byte_length: self.byte_length,
            byte_offset: self.byte_offset,
            context: self.context.clone(),
        }
    }
}

impl Default for DataView {
    /// A view on no bytes, at position 0, with no context.
    fn default() -> (view: DataView)
        ensures
            view.wf(),
            view@.bytes == Seq::<u8>::empty(),
            view@.byte_offset == 0,
            view@.byte_length == 0,
            view@.context == Seq::<Seq<char>>::empty(),
    {
        DataView { buffer: Vec::new(), byte_length: 0, byte_offset: 0, context: Context::new() }
    }
}

} // verus!
