//! Fixed-capacity buffers of the `heapless` crate: path, device address,
//! device name and PIN strings, and the byte queues of the Bluetooth link.
//!
//! A `heapless` string or vector holds at most its capacity in bytes or
//! items; what each one holds is named below, one name per capacity used.

use vstd::prelude::*;
use vstd::string::*;

verus! {

#[verifier::external_type_specification]
#[verifier::external_body]
pub struct ExHeaplessString<const N: usize>(heapless::String<N>);

#[verifier::external_type_specification]
#[verifier::external_body]
#[verifier::reject_recursive_types(T)]
pub struct ExHeaplessVec<T, const N: usize>(heapless::Vec<T, N>);

/// The characters held by a 128-byte path buffer.
pub uninterp spec fn path_chars(s: heapless::String<128>) -> Seq<char>;

/// The number of bytes used in a 128-byte path buffer.
pub uninterp spec fn path_byte_len(s: heapless::String<128>) -> nat;

/// `heapless::String::new`: an empty buffer.
#[verifier::external_body]
pub(crate) fn path_new() -> (s: heapless::String<128>)
    ensures
        path_chars(s) == Seq::<char>::empty(),
        path_byte_len(s) == 0,
{
    heapless::String::new()
}

/// `heapless::String::push_str`: appends the whole of `text` when its bytes
/// fit in the remaining capacity, and otherwise changes nothing and fails.
#[verifier::external_body]
pub(crate) fn path_push_str(s: &mut heapless::String<128>, text: &str) -> (r: Result<(), ()>)
    ensures
        path_byte_len(*old(s)) + text.spec_bytes().len() <= 128 ==> r is Ok
            && path_chars(*final(s)) == path_chars(*old(s)) + text@
            && path_byte_len(*final(s)) == path_byte_len(*old(s)) + text.spec_bytes().len(),
        path_byte_len(*old(s)) + text.spec_bytes().len() > 128 ==> r is Err && *final(s) == *old(s),
{
    s.push_str(text)
}

/// The characters held by an 18-byte device address buffer.
pub uninterp spec fn address_chars(s: heapless::String<18>) -> Seq<char>;

/// `heapless::String::<18>::try_from`: a buffer holding `text` when its
/// bytes fit in 18, and an error otherwise.
#[verifier::external_body]
pub(crate) fn address_try_from(text: &str) -> (r: Result<heapless::String<18>, ()>)
    ensures
        text.spec_bytes().len() <= 18 ==> r is Ok && address_chars(r->Ok_0) == text@,
        text.spec_bytes().len() > 18 ==> r is Err,
{
    heapless::String::<18>::try_from(text)
}

/// `heapless::String::as_str` on an 18-byte buffer: the text held.
#[verifier::external_body]
pub(crate) fn address_as_str(s: &heapless::String<18>) -> (r: &str)
    ensures
        r@ == address_chars(*s),
{
    s.as_str()
}

/// The characters held by a 64-byte device name buffer.
pub uninterp spec fn device_name_chars(s: heapless::String<64>) -> Seq<char>;

/// `heapless::String::as_str` on a 64-byte buffer: the text held.
#[verifier::external_body]
pub(crate) fn device_name_as_str(s: &heapless::String<64>) -> (r: &str)
    ensures
        r@ == device_name_chars(*s),
{
    s.as_str()
}

/// The characters held by a 6-byte PIN buffer.
pub uninterp spec fn pin_chars(s: heapless::String<6>) -> Seq<char>;

/// `heapless::String::<6>::try_from`: a buffer holding `text` when its bytes
/// fit in 6, and an error otherwise.
#[verifier::external_body]
pub(crate) fn pin_try_from(text: &str) -> (r: Result<heapless::String<6>, ()>)
    ensures
        text.spec_bytes().len() <= 6 ==> r is Ok && pin_chars(r->Ok_0) == text@,
        text.spec_bytes().len() > 6 ==> r is Err,
{
    heapless::String::<6>::try_from(text)
}

/// The bytes queued in the 1024-byte transmit buffer.
pub uninterp spec fn tx_bytes(v: heapless::Vec<u8, 1024>) -> Seq<u8>;

/// `heapless::Vec::<u8, 1024>::new`: an empty buffer.
#[verifier::external_body]
pub(crate) fn tx_new() -> (v: heapless::Vec<u8, 1024>)
    ensures
        tx_bytes(v) == Seq::<u8>::empty(),
{
    heapless::Vec::new()
}

/// `heapless::Vec::clear` on the transmit buffer: it holds nothing after.
#[verifier::external_body]
pub(crate) fn tx_clear(v: &mut heapless::Vec<u8, 1024>)
    ensures
        tx_bytes(*final(v)) == Seq::<u8>::empty(),
{
    v.clear()
}

/// `heapless::Vec::extend_from_slice` on the transmit buffer: appends all of
/// `data` when it fits in the remaining capacity; otherwise changes nothing
/// and fails.
#[verifier::external_body]
pub(crate) fn tx_extend(v: &mut heapless::Vec<u8, 1024>, data: &[u8]) -> (r: Result<(), ()>)
    ensures
        tx_bytes(*old(v)).len() + data@.len() <= 1024 ==> r is Ok && tx_bytes(*final(v)) == tx_bytes(*old(v)) + data@,
        tx_bytes(*old(v)).len() + data@.len() > 1024 ==> r is Err && tx_bytes(*final(v)) == tx_bytes(*old(v)),
{
    v.extend_from_slice(data)
}

/// The bytes waiting in the 512-byte receive buffer.
pub uninterp spec fn rx_bytes(v: heapless::Vec<u8, 512>) -> Seq<u8>;

/// `heapless::Vec::<u8, 512>::new`: an empty buffer.
#[verifier::external_body]
pub(crate) fn rx_new() -> (v: heapless::Vec<u8, 512>)
    ensures
        rx_bytes(v) == Seq::<u8>::empty(),
{
    heapless::Vec::new()
}

/// `heapless::Vec::clear` on the receive buffer: it holds nothing after.
#[verifier::external_body]
pub(crate) fn rx_clear(v: &mut heapless::Vec<u8, 512>)
    ensures
        rx_bytes(*final(v)) == Seq::<u8>::empty(),
{
    v.clear()
}

} // verus!
