//! What holds of every data view, whatever it was made from and whatever was
//! done with it. Each statement here is proved from the definitions that the
//! methods' contracts use.
use super::byte_order::{
    be_bytes, be_value, lemma_be_bytes_len, lemma_be_value_bound, lemma_decode_encode,
    lemma_encode_decode, lemma_pattern_of_signed, lemma_signed_of_pattern, overwrite, pattern_of,
    radix, signed_of,
};
use super::data_view::{passes, refuses, stores, DataViewModel};
use vstd::prelude::*;

verus! {

/// An unsigned number, or the bit pattern of a floating-point number, that was
/// written in `width` bytes is what a read of `width` bytes finds at the same
/// position. `before` and `after` are the writing view around its write;
/// `reader` is any view on the bytes that the write left, standing where the
/// writer stood. With the writer's declared length the reader's access fits.
pub proof fn law_round_trip_unsigned(
    before: DataViewModel,
    after: DataViewModel,
    value: nat,
    width: nat,
    reader: DataViewModel,
)
    requires
        before.wf(),
        value < radix(width),
        stores(before, after, be_bytes(value, width)),
        reader.bytes == after.bytes,
        reader.byte_offset == before.byte_offset,
    ensures
        be_value(reader.peek(width as int)) == value,
        reader.byte_length == before.byte_length ==> reader.fits(width as int),
{
    lemma_be_bytes_len(value, width);
    lemma_decode_encode(value, width);
    assert(reader.peek(width as int) =~= be_bytes(value, width));
}

/// A signed number within the range of `width` bytes that was written in
/// `width` bytes is what a read of `width` bytes finds at the same position.
pub proof fn law_round_trip_signed(
    before: DataViewModel,
    after: DataViewModel,
    value: int,
    width: nat,
    reader: DataViewModel,
)
    requires
        before.wf(),
        -(radix(width) as int) <= 2 * value < radix(width),
        stores(before, after, be_bytes(pattern_of(value, width), width)),
        reader.bytes == after.bytes,
        reader.byte_offset == before.byte_offset,
    ensures
        signed_of(be_value(reader.peek(width as int)), width) == value,
        reader.byte_length == before.byte_length ==> reader.fits(width as int),
{
    lemma_signed_of_pattern(value, width);
    law_round_trip_unsigned(before, after, pattern_of(value, width), width, reader);
}

/// Bytes that were written are the bytes that a read of as many bytes finds at
/// the same position.
pub proof fn law_round_trip_bytes(
    before: DataViewModel,
    after: DataViewModel,
    data: Seq<u8>,
    reader: DataViewModel,
)
    requires
        before.wf(),
        stores(before, after, data),
        reader.bytes == after.bytes,
        reader.byte_offset == before.byte_offset,
    ensures
        reader.peek(data.len() as int) == data,
        reader.byte_length == before.byte_length ==> reader.fits(data.len() as int),
{
    assert(reader.peek(data.len() as int) =~= data);
}

/// Reading a number and writing it back in as many bytes leaves the stored
/// bytes as they were: the two directions of the byte order agree.
pub proof fn law_write_back(view: DataViewModel, width: nat)
    requires
        view.wf(),
        view.fits(width as int),
    ensures
        view.written(be_bytes(be_value(view.peek(width as int)), width)).bytes == view.bytes,
{
    lemma_encode_decode(view.peek(width as int));
    assert(view.written(view.peek(width as int)).bytes =~= view.bytes);
}

/// Reading a signed number and writing it back in as many bytes leaves the
/// stored bytes as they were.
pub proof fn law_write_back_signed(view: DataViewModel, width: nat)
    requires
        view.wf(),
        view.fits(width as int),
    ensures
        view.written(
            be_bytes(pattern_of(signed_of(be_value(view.peek(width as int)), width), width), width),
        ).bytes == view.bytes,
{
    lemma_be_value_bound(view.peek(width as int));
    lemma_pattern_of_signed(be_value(view.peek(width as int)), width);
    law_write_back(view, width);
}

/// An access that was carried out has moved the position forward by exactly
/// the number of bytes it touched, and the position is within the declared
/// length.
pub proof fn law_access_advances(
    before: DataViewModel,
    after: DataViewModel,
    count: int,
    data: Seq<u8>,
)
    requires
        passes(before, after, count) || (stores(before, after, data) && data.len() == count),
    ensures
        after.byte_offset == before.byte_offset + count,
        before.byte_offset <= after.byte_offset <= after.byte_length,
        after.byte_length == before.byte_length,
{
}

/// An access that was refused has changed nothing: not the position, not the
/// stored bytes, not the declared length.
pub proof fn law_refusal_changes_nothing(
    before: DataViewModel,
    after: DataViewModel,
    method: Seq<char>,
    count: int,
    message: Seq<char>,
)
    requires
        refuses(before, after, method, count, message),
    ensures
        after.byte_offset == before.byte_offset,
        after.bytes == before.bytes,
        after.byte_length == before.byte_length,
{
}

/// A view that stands `short` bytes before its declared length, with `short`
/// below `width`, carries out no access of `width` bytes: it neither reads nor
/// writes them.
pub proof fn law_short_window_refuses(
    before: DataViewModel,
    after: DataViewModel,
    width: int,
    short: int,
    data: Seq<u8>,
)
    requires
        0 <= short < width,
        before.byte_offset == before.byte_length - short,
    ensures
        !before.fits(width),
        !passes(before, after, width),
        data.len() == width ==> !stores(before, after, data),
{
}

/// A write keeps the number of stored bytes, wherever it starts and however
/// long its data is, and leaves every byte outside the range it covers as it
/// was: nothing is ever put beyond the end of the storage.
pub proof fn law_storage_kept(storage: Seq<u8>, at: int, data: Seq<u8>)
    ensures
        overwrite(storage, at, data).len() == storage.len(),
        forall|i: int|
            0 <= i < storage.len() && !(at <= i < at + data.len()) ==> overwrite(storage, at, data)[i]
                == storage[i],
{
}

/// Whatever an access does, the view stays well formed and its stored bytes
/// keep their number.
pub proof fn law_access_keeps_view(
    before: DataViewModel,
    after: DataViewModel,
    method: Seq<char>,
    count: int,
    data: Seq<u8>,
    message: Seq<char>,
)
    requires
        before.wf(),
        passes(before, after, count) || stores(before, after, data) || refuses(
            before,
            after,
            method,
            count,
            message,
        ),
    ensures
        after.wf(),
        after.bytes.len() == before.bytes.len(),
        after.byte_length == before.byte_length,
        after.context == before.context,
{
}

} // verus!
