use vstd::prelude::*;

verus! {

/// Number of bytes that a single read from a connection can hand over. A
/// message is whatever one such read returned, so a longer message arrives cut.
pub const READ_CAPACITY: usize = 1024;

/// What a caller sends: the name of a service and the encoded argument.
#[derive(Debug, Clone, PartialEq, Eq)]
pub struct Request {
    pub name: String,
    pub payload: Vec<u8>,
}

/// What a service sends back: the encoded result.
#[derive(Debug, Clone, PartialEq, Eq)]
pub struct Response {
    pub payload: Vec<u8>,
}

/// A request as plain data.
pub struct RequestView {
    pub name: Seq<char>,
    pub payload: Seq<u8>,
}

/// A response as plain data.
pub struct ResponseView {
    pub payload: Seq<u8>,
}

impl View for Request {
    type V = RequestView;

    open spec fn view(&self) -> RequestView {
        RequestView { name: self.name@, payload: self.payload@ }
    }
}

impl View for Response {
    type V = ResponseView;

    open spec fn view(&self) -> ResponseView {
        ResponseView { payload: self.payload@ }
    }
}

/// The message that a peer receives when `sent` goes out and one read of the
/// receiver returns `bytes_read` bytes.
pub open spec fn delivered(sent: Seq<u8>, bytes_read: int) -> Seq<u8> {
    sent.take(bytes_read)
}

/// The message held by a read buffer of which one read filled the first
/// `bytes_read` bytes: those bytes, in order, and nothing else.
pub fn received(buf: &[u8], bytes_read: usize) -> (message: Vec<u8>)
    requires
        bytes_read <= buf@.len(),
    ensures
        message@ == delivered(buf@, bytes_read as int),
{
    let mut message: Vec<u8> = Vec::new();
    let mut i: usize = 0;
    while i < bytes_read
        invariant
            i <= bytes_read <= buf@.len(),
            message@ == buf@.take(i as int),
        decreases bytes_read - i,
    {
        message.push(buf[i]);
        i = i + 1;
    }
    message
}

/// A message longer than the read capacity never arrives whole: whatever the
/// single read returned, the receiver holds a strictly shorter prefix.
pub proof fn lemma_oversized_message_is_cut(sent: Seq<u8>, bytes_read: int)
    requires
        sent.len() > READ_CAPACITY,
        0 <= bytes_read <= READ_CAPACITY,
    ensures
        delivered(sent, bytes_read).len() == bytes_read,
        delivered(sent, bytes_read).len() < sent.len(),
        delivered(sent, bytes_read) != sent,
        delivered(sent, bytes_read).is_prefix_of(sent),
{
}

/// A message within the read capacity arrives whole when the read returns all
/// of it.
pub proof fn lemma_fitting_message_arrives(sent: Seq<u8>)
    requires
        sent.len() <= READ_CAPACITY,
    ensures
        delivered(sent, sent.len() as int) == sent,
{
}

} // verus!
