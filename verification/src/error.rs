use vstd::prelude::*;
use vstd::string::*;

verus! {

/// Why a step of a pipeline failed.
#[derive(Debug, Clone, PartialEq, Eq)]
pub enum PlinkError {
    /// The input path, which does not exist.
    NotFound(String),
    /// The output path, which is already occupied.
    AlreadyExists(String),
    /// The reason for which the input could not be decoded.
    Parse(String),
    /// The text of the response body that the remote side sent.
    Remote(String),
    /// The payment link does not have the shape of a hosted payment link.
    MalformedLink,
    /// The reason for which the output could not be created or written.
    Io(String),
}

/// The mathematical value of a [`PlinkError`].
pub enum PlinkErrorView {
    NotFound(Seq<char>),
    AlreadyExists(Seq<char>),
    Parse(Seq<char>),
    Remote(Seq<char>),
    MalformedLink,
    Io(Seq<char>),
}

impl View for PlinkError {
    type V = PlinkErrorView;

    open spec fn view(&self) -> PlinkErrorView {
        match *self {
            PlinkError::NotFound(p) => PlinkErrorView::NotFound(p@),
            PlinkError::AlreadyExists(p) => PlinkErrorView::AlreadyExists(p@),
            PlinkError::Parse(m) => PlinkErrorView::Parse(m@),
            PlinkError::Remote(b) => PlinkErrorView::Remote(b@),
            PlinkError::MalformedLink => PlinkErrorView::MalformedLink,
            PlinkError::Io(m) => PlinkErrorView::Io(m@),
        }
    }
}

/// The view of a result that holds nothing but a possible error.
pub open spec fn unit_view(r: Result<(), PlinkError>) -> Result<(), PlinkErrorView> {
    match r {
        Ok(_) => Ok(()),
        Err(e) => Err(e@),
    }
}

/// The text that describes an error to a person.
pub open spec fn message_text(e: PlinkErrorView) -> Seq<char> {
    match e {
        PlinkErrorView::NotFound(p) => "Input file does not exist: "@ + p,
        PlinkErrorView::AlreadyExists(p) => "Output file already exists: "@ + p,
        PlinkErrorView::Parse(m) => "Input could not be decoded: "@ + m,
        PlinkErrorView::Remote(b) => "Request failed: "@ + b,
        PlinkErrorView::MalformedLink =>
            "Failed to extract payment request token from the payment link"@,
        PlinkErrorView::Io(m) => "Output could not be written: "@ + m,
    }
}

/// `head` followed by `tail`.
pub fn join(head: &str, tail: &str) -> (r: String)
    ensures
        r@ == head@ + tail@,
{
    let mut s = String::from_str(head);
    s.append(tail);
    s
}

impl PlinkError {
    /// The text that describes this error to a person.
    pub fn message(&self) -> (r: String)
        ensures
            r@ == message_text(self@),
    {
        match self {
            PlinkError::NotFound(p) => join("Input file does not exist: ", p.as_str()),
            PlinkError::AlreadyExists(p) => join("Output file already exists: ", p.as_str()),
            PlinkError::Parse(m) => join("Input could not be decoded: ", m.as_str()),
            PlinkError::Remote(b) => join("Request failed: ", b.as_str()),
            PlinkError::MalformedLink => String::from_str(
                "Failed to extract payment request token from the payment link",
            ),
            PlinkError::Io(m) => join("Output could not be written: ", m.as_str()),
        }
    }
}

} // verus!
