//! Error handling: the errors that can occur while responding to a request,
//! and the HTTP status each is reported with.

use vstd::prelude::*;

verus! {

/// Custom MIME type for telescope errors. Only used internally, as a signal
/// value.
pub const TELESCOPE_ERROR_MIME: &'static str = "application/prs.telescope.error+json";

/// The first digit of an SMTP reply code.
#[derive(Debug, Clone, Copy, PartialEq, Eq, Structural)]
pub enum Severity {
    /// 2yz
    PositiveCompletion,
    /// 3yz
    PositiveIntermediate,
    /// 4yz
    TransientNegativeCompletion,
    /// 5yz
    PermanentNegativeCompletion,
}

/// The second digit of an SMTP reply code.
#[derive(Debug, Clone, Copy, PartialEq, Eq, Structural)]
pub enum Category {
    /// x0z
    Syntax,
    /// x1z
    Information,
    /// x2z
    Connections,
    /// x3z
    Unspecified3,
    /// x4z
    Unspecified4,
    /// x5z
    MailSystem,
}

/// The third digit of an SMTP reply code.
#[derive(Debug, Clone, Copy, PartialEq, Eq, Structural)]
pub enum Detail {
    Zero,
    One,
    Two,
    Three,
    Four,
    Five,
    Six,
    Seven,
    Eight,
    Nine,
}

/// A three-digit SMTP reply code.
#[derive(Debug, Clone, Copy, PartialEq, Eq, Structural)]
pub struct Code {
    /// First digit of the reply code.
    pub severity: Severity,
    /// Second digit of the reply code.
    pub category: Category,
    /// Third digit of the reply code.
    pub detail: Detail,
}

/// An SMTP reply, with separated code and message.
#[derive(Debug)]
pub struct SmtpResponse {
    /// The reply code.
    pub code: Code,
    /// The server's message, line by line.
    pub message: Vec<String>,
}

/// All major errors that can occur while responding to a request.
#[derive(Debug)]
pub enum TelescopeError {
    /// 404 - Page not found. Use [`TelescopeError::ResourceNotFound`]
    /// instead when possible, as it will have more info.
    PageNotFound,
    /// 404 - Resource Not Found.
    ResourceNotFound {
        /// The header of the jumbotron to be displayed.
        header: String,
        /// The message to display under the jumbotron.
        message: String,
    },
    /// An error in rendering a handlebars template. This will report as an
    /// internal server error.
    RenderingError {
        /// Description of the error.
        desc: String,
        /// The name of the template that the error was in.
        template_name: Option<String>,
        /// The line that the error was on.
        line_no: Option<usize>,
        /// The column that the error was on.
        column_no: Option<usize>,
    },
    /// An internal future was canceled unexpectedly. This will always report
    /// as an internal server error.
    FutureCanceled,
    /// There was an internal server error.
    InternalServerError(String),
    /// The request was malformed.
    BadRequest {
        /// The header of the jumbotron to be displayed.
        header: String,
        /// The error message to be displayed under the jumbotron.
        message: String,
    },
    /// Error sending an email to a file. This should report as an internal
    /// server error most of the time.
    LettreFileError {
        /// A description of the cause.
        description: String,
    },
    /// Error sending mail over SMTP. This should report as an internal
    /// server error when unexpected.
    LettreSmtpError {
        /// The description of the error.
        description: String,
    },
    /// A negative response from the SMTP server, indicating a failure to
    /// authenticate or send an email.
    NegativeSmtpResponse(SmtpResponse),
    /// Error to send when user accesses something that is not yet
    /// implemented.
    NotImplemented,
}

/// 400 Bad Request.
pub const BAD_REQUEST: u16 = 400;

/// 404 Not Found.
pub const NOT_FOUND: u16 = 404;

/// 500 Internal Server Error.
pub const INTERNAL_SERVER_ERROR: u16 = 500;

/// 501 Not Implemented.
pub const NOT_IMPLEMENTED: u16 = 501;

impl SmtpResponse {
    /// Tells if the response is positive: a completion, or an intermediate
    /// reply that asks to go on.
    pub open spec fn positive(self) -> bool {
        self.code.severity is PositiveCompletion || self.code.severity is PositiveIntermediate
    }

    /// Tells if the response is positive.
    pub fn is_positive(&self) -> (answer: bool)
        ensures
            answer == self.positive(),
    {
        match self.code.severity {
            Severity::PositiveCompletion | Severity::PositiveIntermediate => true,
            _ => false,
        }
    }
}

impl TelescopeError {
    /// The HTTP status that this error is reported with: 400 for a bad
    /// request, 404 for a page or a resource that is not there, 501 for what
    /// is not implemented, and 500 for everything else.
    pub open spec fn status(self) -> u16 {
        match self {
            TelescopeError::BadRequest { .. } => BAD_REQUEST,
            TelescopeError::ResourceNotFound { .. } => NOT_FOUND,
            TelescopeError::PageNotFound => NOT_FOUND,
            TelescopeError::NotImplemented => NOT_IMPLEMENTED,
            _ => INTERNAL_SERVER_ERROR,
        }
    }

    /// Create a resource not found error.
    pub fn resource_not_found(header: String, message: String) -> (error: Self)
        ensures
            error == (TelescopeError::ResourceNotFound { header, message }),
    {
        TelescopeError::ResourceNotFound { header, message }
    }

    /// Construct an internal server error.
    pub fn ise(message: String) -> (error: Self)
        ensures
            error == TelescopeError::InternalServerError(message),
    {
        TelescopeError::InternalServerError(message)
    }

    /// Construct a bad request error.
    pub fn bad_request(header: String, message: String) -> (error: Self)
        ensures
            error == (TelescopeError::BadRequest { header, message }),
    {
        TelescopeError::BadRequest { header, message }
    }

    /// The error that a negative SMTP response stands for. A positive
    /// response is no error and has none.
    pub fn from_smtp_response(response: SmtpResponse) -> (error: Self)
        requires
            !response.positive(),
        ensures
            error == TelescopeError::NegativeSmtpResponse(response),
    {
        TelescopeError::NegativeSmtpResponse(response)
    }

    /// The HTTP status that this error is reported with.
    pub fn status_code(&self) -> (code: u16)
        ensures
            code == self.status(),
    {
        match self {
            TelescopeError::BadRequest { .. } => BAD_REQUEST,
            TelescopeError::ResourceNotFound { .. } => NOT_FOUND,
            TelescopeError::PageNotFound => NOT_FOUND,
            TelescopeError::NotImplemented => NOT_IMPLEMENTED,
            _ => INTERNAL_SERVER_ERROR,
        }
    }

    /// Every error is reported with a client or server error status.
    pub proof fn law_status_is_an_error_status(self)
        ensures
            400 <= self.status() < 600,
            self.status() < 500 <==> (self is BadRequest || self is ResourceNotFound || self
                is PageNotFound),
    {
    }
}

} // verus!
