//! The envelopes that wrap every answer, and the answer itself: a status
//! code with a body.

use vstd::prelude::*;
use vstd::string::StringExecFns;
use crate::model::{Media, MediaView};

verus! {

/// The envelope of an answer without a payload.
#[derive(Debug)]
pub struct GenericResponse {
    pub status: String,
    pub message: String,
}

/// The envelope of an answer without a payload, as a mathematical value.
pub struct GenericResponseView {
    pub status: Seq<char>,
    pub message: Seq<char>,
}

impl View for GenericResponse {
    type V = GenericResponseView;

    open spec fn view(&self) -> GenericResponseView {
        GenericResponseView { status: self.status@, message: self.message@ }
    }
}

impl GenericResponseView {
    /// The envelope of an operation that went well.
    pub open spec fn success(message: Seq<char>) -> GenericResponseView {
        GenericResponseView { status: "success"@, message }
    }

    /// The envelope of an operation that did not go through.
    pub open spec fn fail(message: Seq<char>) -> GenericResponseView {
        GenericResponseView { status: "fail"@, message }
    }
}

impl GenericResponse {
    /// Wraps the message of an operation that went well.
    pub fn success(message: String) -> (response: GenericResponse)
        ensures
            response@ == GenericResponseView::success(message@),
    {
        GenericResponse { status: String::from_str("success"), message }
    }

    /// Wraps the message of an operation that did not go through.
    pub fn fail(message: String) -> (response: GenericResponse)
        ensures
            response@ == GenericResponseView::fail(message@),
    {
        GenericResponse { status: String::from_str("fail"), message }
    }
}

/// The payload of an answer that carries one entry.
#[derive(Debug)]
pub struct MediaData {
    pub media: Media,
}

/// The payload of an answer that carries one entry, as a mathematical value.
pub struct MediaDataView {
    pub media: MediaView,
}

impl View for MediaData {
    type V = MediaDataView;

    open spec fn view(&self) -> MediaDataView {
        MediaDataView { media: self.media@ }
    }
}

/// The envelope of an answer that carries one entry.
#[derive(Debug)]
pub struct SingleMediaResponse {
    pub status: String,
    pub data: MediaData,
}

/// The envelope of an answer that carries one entry, as a mathematical value.
pub struct SingleMediaResponseView {
    pub status: Seq<char>,
    pub data: MediaDataView,
}

impl View for SingleMediaResponse {
    type V = SingleMediaResponseView;

    open spec fn view(&self) -> SingleMediaResponseView {
        SingleMediaResponseView { status: self.status@, data: self.data@ }
    }
}

impl SingleMediaResponseView {
    /// The envelope that carries `media` as the result of an operation that
    /// went well.
    pub open spec fn success(media: MediaView) -> SingleMediaResponseView {
        SingleMediaResponseView { status: "success"@, data: MediaDataView { media } }
    }
}

impl SingleMediaResponse {
    /// Wraps the entry that an operation produced.
    pub fn success(media: Media) -> (response: SingleMediaResponse)
        ensures
            response@ == SingleMediaResponseView::success(media@),
    {
        SingleMediaResponse { status: String::from_str("success"), data: MediaData { media } }
    }
}

/// The envelope of an answer that carries a list of entries.
#[derive(Debug)]
pub struct MediaListResponse {
    pub status: String,
    /// The number of entries in `media`.
    pub results: usize,
    pub media: Vec<Media>,
}

/// The envelope of an answer that carries a list, as a mathematical value.
pub struct MediaListResponseView {
    pub status: Seq<char>,
    pub results: nat,
    pub media: Seq<MediaView>,
}

impl View for MediaListResponse {
    type V = MediaListResponseView;

    open spec fn view(&self) -> MediaListResponseView {
        MediaListResponseView {
            status: self.status@,
            results: self.results as nat,
            media: self.media.deep_view(),
        }
    }
}

impl MediaListResponseView {
    /// The envelope that carries `media`, with the count taken from the
    /// list itself.
    pub open spec fn success(media: Seq<MediaView>) -> MediaListResponseView {
        MediaListResponseView { status: "success"@, results: media.len(), media }
    }
}

impl MediaListResponse {
    /// Wraps a list of entries and counts them.
    pub fn success(media: Vec<Media>) -> (response: MediaListResponse)
        ensures
            response@ == MediaListResponseView::success(media.deep_view()),
            response@.results == response@.media.len(),
    {
        MediaListResponse { status: String::from_str("success"), results: media.len(), media }
    }
}

/// The status codes that the service answers with.
#[derive(Clone, Copy, Debug, PartialEq, Eq, Structural)]
pub enum StatusCode {
    Success,
    BadRequest,
    NotFound,
    Conflict,
    InternalServerError,
}

impl StatusCode {
    /// The number of the status code.
    pub open spec fn code(self) -> u16 {
        match self {
            StatusCode::Success => 200,
            StatusCode::BadRequest => 400,
            StatusCode::NotFound => 404,
            StatusCode::Conflict => 409,
            StatusCode::InternalServerError => 500,
        }
    }

    /// The number of the status code.
    pub fn as_u16(&self) -> (code: u16)
        ensures
            code == self.code(),
    {
        match self {
            StatusCode::Success => 200,
            StatusCode::BadRequest => 400,
            StatusCode::NotFound => 404,
            StatusCode::Conflict => 409,
            StatusCode::InternalServerError => 500,
        }
    }
}

/// What an answer carries: a plain text, one of the envelopes, or a bare
/// entry.
#[derive(Debug)]
pub enum Body {
    Text(String),
    Generic(GenericResponse),
    Media(Media),
    Single(SingleMediaResponse),
    List(MediaListResponse),
}

/// What an answer carries, as a mathematical value.
pub enum BodyView {
    Text(Seq<char>),
    Generic(GenericResponseView),
    Media(MediaView),
    Single(SingleMediaResponseView),
    List(MediaListResponseView),
}

impl View for Body {
    type V = BodyView;

    open spec fn view(&self) -> BodyView {
        match self {
            Body::Text(text) => BodyView::Text(text@),
            Body::Generic(response) => BodyView::Generic(response@),
            Body::Media(media) => BodyView::Media(media@),
            Body::Single(response) => BodyView::Single(response@),
            Body::List(response) => BodyView::List(response@),
        }
    }
}

/// The answer to a request.
#[derive(Debug)]
pub struct HttpReply {
    pub status: StatusCode,
    pub body: Body,
}

/// The answer to a request, as a mathematical value.
pub struct HttpReplyView {
    pub status: StatusCode,
    pub body: BodyView,
}

impl View for HttpReply {
    type V = HttpReplyView;

    open spec fn view(&self) -> HttpReplyView {
        HttpReplyView { status: self.status, body: self.body@ }
    }
}

impl HttpReplyView {
    /// Where the answer carries a list, the count beside the list is the
    /// number of its entries.
    pub open spec fn counted(self) -> bool {
        self.body matches BodyView::List(envelope) ==> envelope.results == envelope.media.len()
    }

    /// An answer with a plain text as its body.
    pub open spec fn text(status: StatusCode, text: Seq<char>) -> HttpReplyView {
        HttpReplyView { status, body: BodyView::Text(text) }
    }

    /// An answer that reports success with a message.
    pub open spec fn success(message: Seq<char>) -> HttpReplyView {
        HttpReplyView {
            status: StatusCode::Success,
            body: BodyView::Generic(GenericResponseView::success(message)),
        }
    }

    /// An answer that reports a failure with a message.
    pub open spec fn fail(status: StatusCode, message: Seq<char>) -> HttpReplyView {
        HttpReplyView { status, body: BodyView::Generic(GenericResponseView::fail(message)) }
    }

    /// An answer that carries a bare entry.
    pub open spec fn media(media: MediaView) -> HttpReplyView {
        HttpReplyView { status: StatusCode::Success, body: BodyView::Media(media) }
    }

    /// An answer that carries one entry in its envelope.
    pub open spec fn single(media: MediaView) -> HttpReplyView {
        HttpReplyView {
            status: StatusCode::Success,
            body: BodyView::Single(SingleMediaResponseView::success(media)),
        }
    }

    /// An answer that carries a list of entries in its envelope.
    pub open spec fn list(media: Seq<MediaView>) -> HttpReplyView {
        HttpReplyView {
            status: StatusCode::Success,
            body: BodyView::List(MediaListResponseView::success(media)),
        }
    }
}

impl HttpReply {
    /// An answer with a plain text as its body.
    pub fn text(status: StatusCode, text: &str) -> (reply: HttpReply)
        ensures
            reply@ == HttpReplyView::text(status, text@),
    {
        HttpReply { status, body: Body::Text(String::from_str(text)) }
    }

    /// An answer that reports success with a message.
    pub fn success(message: String) -> (reply: HttpReply)
        ensures
            reply@ == HttpReplyView::success(message@),
    {
        HttpReply { status: StatusCode::Success, body: Body::Generic(GenericResponse::success(message)) }
    }

    /// An answer that reports a failure with a message.
    pub fn fail(status: StatusCode, message: String) -> (reply: HttpReply)
        ensures
            reply@ == HttpReplyView::fail(status, message@),
    {
        HttpReply { status, body: Body::Generic(GenericResponse::fail(message)) }
    }

    /// An answer that carries a bare entry.
    pub fn media(media: Media) -> (reply: HttpReply)
        ensures
            reply@ == HttpReplyView::media(media@),
    {
        HttpReply { status: StatusCode::Success, body: Body::Media(media) }
    }

    /// An answer that carries one entry in its envelope.
    pub fn single(media: Media) -> (reply: HttpReply)
        ensures
            reply@ == HttpReplyView::single(media@),
    {
        HttpReply { status: StatusCode::Success, body: Body::Single(SingleMediaResponse::success(media)) }
    }

    /// An answer that carries a list of entries in its envelope.
    pub fn list(media: Vec<Media>) -> (reply: HttpReply)
        ensures
            reply@ == HttpReplyView::list(media.deep_view()),
    {
        HttpReply { status: StatusCode::Success, body: Body::List(MediaListResponse::success(media)) }
    }
}

} // verus!
