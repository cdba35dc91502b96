use vstd::prelude::*;
use crate::error::{Error, ErrorView, result_view};

verus! {

/// A native read buffer, as plain values: the unread length that it reports,
/// and the bytes that can actually be read from it, in order.
#[derive(Debug, Clone)]
pub struct NativeBuffer {
    pub unconsumed_len: u32,
    pub available: Vec<u8>,
}

/// The message carried when a buffer holds fewer bytes than it reports.
pub open spec fn short_read_message() -> Seq<char> {
    "Buffer holds fewer bytes than it reports"@
}

/// What extracting a buffer gives: its next `len` bytes when that many can be
/// read, and a failure otherwise.
pub open spec fn extraction(len: nat, available: Seq<u8>) -> Result<Seq<u8>, ErrorView> {
    if len <= available.len() {
        Ok(available.subrange(0, len as int))
    } else {
        Err(ErrorView::Other(short_read_message()))
    }
}

/// Reads the unread contents of a buffer into an owned byte sequence, whose
/// length is the unread length that the buffer reports.
pub fn to_vec(buffer: &NativeBuffer) -> (r: Result<Vec<u8>, Error>)
    ensures
        result_view(r) == extraction(buffer.unconsumed_len as nat, buffer.available@),
{
    let len = buffer.unconsumed_len as usize;
    if buffer.available.len() < len {
        return Err(Error::Other("Buffer holds fewer bytes than it reports".to_owned()));
    }
    let mut data: Vec<u8> = Vec::with_capacity(len);
    let mut i: usize = 0;
    while i < len
        invariant
            len == buffer.unconsumed_len as nat,
            len <= buffer.available@.len(),
            i <= len,
            data@ == buffer.available@.subrange(0, i as int),
        decreases len - i,
    {
        data.push(buffer.available[i]);
        i += 1;
    }
    Ok(data)
}

} // verus!
