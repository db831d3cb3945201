//! The endpoint contract and the parts of a request that the pipeline reads.

use vstd::prelude::*;
use vstd::string::*;
use crate::error::{ApiError, ApiErrorKind, IntoApiError};
use crate::method::Method;
use crate::schema::Schema;
use crate::text::{decimal, same_text, spec_decimal};

verus! {

/// The largest payload that an endpoint reads unless it says otherwise: 2 MiB.
pub const DEFAULT_MAX_PAYLOAD_SIZE: usize = 2097152;

/// The values that a handler receives: the context derived from the request
/// head, and the three input slots.
#[derive(Debug)]
pub struct ParsedRequest<Context, Params, Query, Payload> {
    pub context: Context,
    pub params: Params,
    pub query: Query,
    pub payload: Payload,
}

/// A failure of the business logic: it can be turned into an [`ApiError`].
pub trait EndpointError: IntoApiError {

}

/// What the author of a route declares: the path pattern, the method, the
/// types of the four slots and of the context, and the largest payload that
/// the endpoint reads. The pipeline and the registry know an endpoint
/// through this contract alone. (Deriving the context and running the
/// business logic wait on the outside world: the transport does both and
/// tells the pipeline how they ended.)
pub trait Endpoint {
    type Ctx;

    type Params: Schema;

    type Query: Schema;

    type Payload: Schema;

    type Output: Schema;

    /// The path pattern, with `:name` for a placeholder.
    spec fn spec_path(&self) -> Seq<char>;

    /// The method.
    spec fn spec_method(&self) -> Method;

    /// The largest payload, in bytes, that the endpoint reads.
    spec fn spec_max_payload_size(&self) -> usize;

    /// The path pattern, with `:name` for a placeholder.
    fn path(&self) -> (r: String)
        ensures
            r@ == self.spec_path(),
    ;

    /// The method.
    fn method(&self) -> (r: Method)
        ensures
            r == self.spec_method(),
    ;

    /// The largest payload, in bytes, that the endpoint reads; 2 MiB unless
    /// the endpoint says otherwise.
    fn max_payload_size(&self) -> (r: usize)
        ensures
            r == self.spec_max_payload_size(),
    ;
}

/// What the pipeline reads of a request before it touches the body.
#[derive(Debug)]
pub struct RequestHead {
    /// The query string, without the question mark, if the request has one.
    pub query: Option<String>,
    /// The value of the `Content-Type` header, if the request has one and
    /// it is text.
    pub content_type: Option<String>,
}

impl RequestHead {
    /// The text that the query is parsed from: the query string, or the
    /// empty text where the request has none.
    pub fn query_text(&self) -> (r: &str)
        ensures
            r@ == (match self.query {
                Some(q) => q@,
                None => Seq::empty(),
            }),
    {
        match &self.query {
            Some(q) => q.as_str(),
            None => {
                proof {
                    reveal_strlit("");
                }
                assert(""@ =~= Seq::<char>::empty());
                ""
            },
        }
    }
}

/// The essence of a media type: what `Mime::essence_str` gives for the text
/// once parsed; `None` where the text does not parse as a media type.
pub uninterp spec fn media_type_essence(text: Seq<char>) -> Option<Seq<char>>;

/// Parses the text as a `mime::Mime` and takes `essence_str` of it: the
/// type and subtype, without parameters. The contract names the outcome as a
/// function of the text and says nothing more of it.
#[verifier::external_body]
fn essence_of(text: &str) -> (r: Option<String>)
    ensures
        (match r {
            Some(e) => Some(e@),
            None => None,
        }) == media_type_essence(text@),
{
    match text.parse::<typed_headers::mime::Mime>() {
        Ok(mime) => Some(mime.essence_str().to_string()),
        Err(_) => None,
    }
}

/// Whether an essence is that of the JSON media type.
pub open spec fn essence_is_json(essence: Option<Seq<char>>) -> bool {
    essence == Some("application/json"@)
}

/// Whether a content type is the JSON media type: the header is present, it
/// parses as a media type, and its essence is `application/json`.
pub open spec fn spec_is_content_type_json(content_type: Option<String>) -> bool {
    match content_type {
        Some(text) => essence_is_json(media_type_essence(text@)),
        None => false,
    }
}

/// Whether the essence of a media type, as parsed, is `application/json`.
pub fn is_json_essence(essence: &Option<String>) -> (r: bool)
    ensures
        r == essence_is_json(
            match *essence {
                Some(e) => Some(e@),
                None => None,
            },
        ),
{
    match essence {
        Some(e) => same_text(e.as_str(), "application/json"),
        None => false,
    }
}

/// Whether the request declares a JSON payload.
pub fn is_content_type_json(head: &RequestHead) -> (r: bool)
    ensures
        r == spec_is_content_type_json(head.content_type),
{
    match &head.content_type {
        Some(text) => {
            let essence = essence_of(text.as_str());
            is_json_essence(&essence)
        },
        None => false,
    }
}

/// Why a body could not be read.
#[derive(Debug)]
pub enum ReadBodyError {
    /// The body is larger than the limit, which is given.
    MaxSizeExceeded(usize),
    /// The transport failed; its message is given.
    Read(String),
}

/// The mathematical value of a [`ReadBodyError`].
pub enum ReadBodyErrorView {
    MaxSizeExceeded(usize),
    Read(Seq<char>),
}

impl View for ReadBodyError {
    type V = ReadBodyErrorView;

    open spec fn view(&self) -> ReadBodyErrorView {
        match self {
            ReadBodyError::MaxSizeExceeded(n) => ReadBodyErrorView::MaxSizeExceeded(*n),
            ReadBodyError::Read(m) => ReadBodyErrorView::Read(m@),
        }
    }
}

impl ReadBodyErrorView {
    /// The error in words.
    pub open spec fn message(self) -> Seq<char> {
        match self {
            ReadBodyErrorView::MaxSizeExceeded(n) => "body max size of "@ + spec_decimal(n as nat)
                + " bytes exceeded"@,
            ReadBodyErrorView::Read(m) => m,
        }
    }
}

impl ReadBodyError {
    /// The error in words.
    pub fn message(&self) -> (r: String)
        ensures
            r@ == self@.message(),
    {
        match self {
            ReadBodyError::MaxSizeExceeded(n) => {
                let mut r = String::from_str("body max size of ");
                r.append(decimal(*n as u64).as_str());
                r.append(" bytes exceeded");
                r
            },
            ReadBodyError::Read(m) => m.clone(),
        }
    }

    /// The failure that the client sees: status 400, kind `PayloadRead`.
    pub fn into_api_error(self) -> (r: ApiError)
        ensures
            r.status == 400,
            r.kind == ApiErrorKind::PayloadRead,
            r.message@ == "error reading payload: "@ + self@.message(),
            r.consistent(),
    {
        let mut message = String::from_str("error reading payload: ");
        message.append(self.message().as_str());
        ApiError { status: 400, kind: ApiErrorKind::PayloadRead, message }
    }
}

/// Reads a body chunk by chunk and never holds more than the limit.
pub struct BodyReader {
    max_size: usize,
    bytes: Vec<u8>,
}

impl View for BodyReader {
    type V = Seq<u8>;

    /// The bytes read so far.
    closed spec fn view(&self) -> Seq<u8> {
        self.bytes@
    }
}

impl BodyReader {
    /// The limit that the reader was made with.
    pub closed spec fn limit(&self) -> usize {
        self.max_size
    }

    /// A reader that has read nothing.
    pub fn new(max_size: usize) -> (r: BodyReader)
        ensures
            r@ == Seq::<u8>::empty(),
            r.limit() == max_size,
    {
        BodyReader { max_size, bytes: Vec::new() }
    }

    /// Takes the next chunk. Where the bytes read so far and the chunk are
    /// together more than the limit, the chunk is refused and nothing is
    /// added; else the chunk is added at the end.
    pub fn push(&mut self, chunk: &[u8]) -> (r: Result<(), ReadBodyError>)
        requires
            old(self)@.len() <= old(self).limit(),
        ensures
            final(self).limit() == old(self).limit(),
            final(self)@.len() <= final(self).limit(),
            old(self)@.len() + chunk@.len() > old(self).limit() ==> (r matches Err(e) && e@
                == ReadBodyErrorView::MaxSizeExceeded(old(self).limit())) && final(self)@ == old(
                self,
            )@,
            old(self)@.len() + chunk@.len() <= old(self).limit() ==> r is Ok && final(self)@
                == old(self)@ + chunk@,
    {
        if chunk.len() > self.max_size - self.bytes.len() {
            Err(ReadBodyError::MaxSizeExceeded(self.max_size))
        } else {
            self.bytes.extend_from_slice(chunk);
            Ok(())
        }
    }

    /// The bytes read.
    pub fn finish(self) -> (r: Vec<u8>)
        ensures
            r@ == self@,
    {
        self.bytes
    }
}

/// The value of what a stream hands over: a chunk of bytes, or the message
/// of the transport's failure.
pub open spec fn chunk_view(chunk: Result<Vec<u8>, String>) -> Result<Seq<u8>, Seq<char>> {
    match chunk {
        Ok(bytes) => Ok(bytes@),
        Err(message) => Err(message@),
    }
}

/// The values of a list of chunks.
pub open spec fn chunks_view(chunks: Seq<Result<Vec<u8>, String>>) -> Seq<
    Result<Seq<u8>, Seq<char>>,
> {
    Seq::new(chunks.len(), |i: int| chunk_view(chunks[i]))
}

/// The outcome of reading the chunks from index `i` on, with `read` in hand:
/// the first failure of the transport, or the first chunk that would take
/// the bytes in hand over the limit, ends the reading; else all bytes are
/// returned.
pub open spec fn read_from(
    max_size: int,
    read: Seq<u8>,
    chunks: Seq<Result<Seq<u8>, Seq<char>>>,
    i: int,
) -> Result<Seq<u8>, ReadBodyErrorView>
    decreases chunks.len() - i,
{
    if i < 0 || i >= chunks.len() {
        Ok(read)
    } else {
        match chunks[i] {
            Err(message) => Err(ReadBodyErrorView::Read(message)),
            Ok(bytes) => if read.len() + bytes.len() > max_size {
                Err(ReadBodyErrorView::MaxSizeExceeded(max_size as usize))
            } else {
                read_from(max_size, read + bytes, chunks, i + 1)
            },
        }
    }
}

/// The outcome of reading a whole body.
pub open spec fn spec_read_body(max_size: usize, chunks: Seq<Result<Seq<u8>, Seq<char>>>) -> Result<
    Seq<u8>,
    ReadBodyErrorView,
> {
    read_from(max_size as int, Seq::empty(), chunks, 0)
}

/// Whether the transport delivers every chunk from index `i` on.
pub open spec fn all_delivered(chunks: Seq<Result<Seq<u8>, Seq<char>>>, i: int) -> bool {
    forall|j: int| i <= j < chunks.len() ==> (#[trigger] chunks[j]) is Ok
}

/// The number of bytes in the chunks from index `i` on that are delivered.
pub open spec fn size_from(chunks: Seq<Result<Seq<u8>, Seq<char>>>, i: int) -> int
    decreases chunks.len() - i,
{
    if i < 0 || i >= chunks.len() {
        0
    } else {
        (match chunks[i] {
            Ok(bytes) => bytes.len() as int,
            Err(_) => 0,
        }) + size_from(chunks, i + 1)
    }
}

/// The bytes of the chunks from index `i` on that are delivered, in order.
pub open spec fn bytes_from(chunks: Seq<Result<Seq<u8>, Seq<char>>>, i: int) -> Seq<u8>
    decreases chunks.len() - i,
{
    if i < 0 || i >= chunks.len() {
        Seq::empty()
    } else {
        (match chunks[i] {
            Ok(bytes) => bytes,
            Err(_) => Seq::empty(),
        }) + bytes_from(chunks, i + 1)
    }
}

/// A size is never negative.
pub proof fn lemma_size_from_is_natural(chunks: Seq<Result<Seq<u8>, Seq<char>>>, i: int)
    ensures
        size_from(chunks, i) >= 0,
    decreases chunks.len() - i,
{
    if 0 <= i < chunks.len() {
        lemma_size_from_is_natural(chunks, i + 1);
    }
}

/// A body that the transport delivers whole is read exactly when it is not
/// larger than the limit: then all its bytes are returned, in order; a
/// larger one is refused with `MaxSizeExceeded`.
pub proof fn lemma_read_whole(
    max_size: int,
    read: Seq<u8>,
    chunks: Seq<Result<Seq<u8>, Seq<char>>>,
    i: int,
)
    requires
        0 <= i <= chunks.len(),
        read.len() <= max_size <= usize::MAX,
        all_delivered(chunks, i),
    ensures
        read.len() + size_from(chunks, i) <= max_size ==> read_from(max_size, read, chunks, i)
            == Ok::<Seq<u8>, ReadBodyErrorView>(read + bytes_from(chunks, i)),
        read.len() + size_from(chunks, i) > max_size ==> read_from(max_size, read, chunks, i)
            == Err::<Seq<u8>, ReadBodyErrorView>(
            ReadBodyErrorView::MaxSizeExceeded(max_size as usize),
        ),
        size_from(chunks, i) >= 0,
    decreases chunks.len() - i,
{
    if i < chunks.len() {
        assert(chunks[i] is Ok);
        let bytes = chunks[i]->Ok_0;
        lemma_size_from_is_natural(chunks, i + 1);
        if read.len() + bytes.len() <= max_size {
            lemma_read_whole(max_size, read + bytes, chunks, i + 1);
            assert(read + bytes + bytes_from(chunks, i + 1) =~= read + bytes_from(chunks, i));
        }
    } else {
        assert(read + bytes_from(chunks, i) =~= read);
    }
}

/// A body larger than the limit is never read: whatever the chunks, where
/// the transport delivers them all and they hold more bytes than the limit,
/// the reading ends with `MaxSizeExceeded`.
pub proof fn lemma_oversized_body_is_refused(
    max_size: usize,
    chunks: Seq<Result<Seq<u8>, Seq<char>>>,
)
    requires
        all_delivered(chunks, 0),
        size_from(chunks, 0) > max_size,
    ensures
        spec_read_body(max_size, chunks) == Err::<Seq<u8>, ReadBodyErrorView>(
            ReadBodyErrorView::MaxSizeExceeded(max_size),
        ),
{
    lemma_read_whole(max_size as int, Seq::empty(), chunks, 0);
}

/// What is read is never larger than the limit.
pub proof fn lemma_read_within_limit(
    max_size: int,
    read: Seq<u8>,
    chunks: Seq<Result<Seq<u8>, Seq<char>>>,
    i: int,
)
    requires
        0 <= i <= chunks.len(),
        read.len() <= max_size,
    ensures
        read_from(max_size, read, chunks, i) matches Ok(bytes) ==> bytes.len() <= max_size,
    decreases chunks.len() - i,
{
    if i < chunks.len() {
        match chunks[i] {
            Ok(bytes) => {
                if read.len() + bytes.len() <= max_size {
                    lemma_read_within_limit(max_size, read + bytes, chunks, i + 1);
                }
            },
            Err(_) => {},
        }
    }
}

/// The value of a result of reading.
pub open spec fn read_view(r: Result<Vec<u8>, ReadBodyError>) -> Result<Seq<u8>, ReadBodyErrorView> {
    match r {
        Ok(bytes) => Ok(bytes@),
        Err(e) => Err(e@),
    }
}

/// Reads a body from the chunks of a stream, in order, and stops at the first
/// chunk that the transport fails to deliver or that would take the body over
/// `max_size`.
pub fn read_body(max_size: usize, chunks: &Vec<Result<Vec<u8>, String>>) -> (r: Result<
    Vec<u8>,
    ReadBodyError,
>)
    ensures
        read_view(r) == spec_read_body(max_size, chunks_view(chunks@)),
        r matches Ok(bytes) ==> bytes@.len() <= max_size,
{
    let mut reader = BodyReader::new(max_size);
    let mut i: usize = 0;
    while i < chunks.len()
        invariant
            i <= chunks.len(),
            reader.limit() == max_size,
            reader@.len() <= max_size,
            read_from(max_size as int, reader@, chunks_view(chunks@), i as int) == spec_read_body(
                max_size,
                chunks_view(chunks@),
            ),
        decreases chunks.len() - i,
    {
        assert(chunks_view(chunks@)[i as int] == chunk_view(chunks@[i as int]));
        match &chunks[i] {
            Err(message) => {
                return Err(ReadBodyError::Read(message.clone()));
            },
            Ok(bytes) => {
                match reader.push(bytes.as_slice()) {
                    Err(e) => {
                        return Err(e);
                    },
                    Ok(()) => {},
                }
            },
        }
        i = i + 1;
    }
    Ok(reader.finish())
}

} // verus!
