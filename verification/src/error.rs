//! What can go wrong while a program is constructed or drawn.
use vstd::prelude::*;
use vstd::string::*;

verus! {

/// The failures of constructing and drawing a program. Where a failure
/// comes with a description from the graphics or window system, the
/// variant carries that description.
#[derive(Debug, Clone)]
pub enum ErrorKind {
    DisplayError,
    NoConfigFound,
    EventLoopError(String),
    WindowError,
    OpenGlError(String),
    PoshContextError(String),
    PoshProgramError(String),
    PoshDrawError(String),
    PoshBufferError(String),
}

/// The steps of constructing a program, in the order they are taken.
#[derive(Debug, Clone, Copy, PartialEq, Eq, Structural)]
pub enum ConstructionStage {
    /// Connecting to the window system's event source.
    EventLoop,
    /// Finding a display and a rendering configuration.
    Display,
    /// Creating the window.
    Window,
    /// Creating the rendering context.
    Context,
    /// Creating the window's drawable surface.
    Surface,
    /// Making the context current on the surface.
    Activation,
    /// Loading the graphics functions into a context.
    Loader,
    /// Compiling and linking the shader pair.
    Shaders,
}

impl ErrorKind {
    /// The text this error is reported with.
    pub open spec fn spec_message(self) -> Seq<char> {
        match self {
            ErrorKind::DisplayError => "Display could not be created"@,
            ErrorKind::NoConfigFound => "No OpenGL Config found for the current platform."@,
            ErrorKind::EventLoopError(detail) => "EventLoopError: "@ + detail@,
            ErrorKind::WindowError => "Error creating window"@,
            ErrorKind::OpenGlError(_) => "OpenGl Error"@,
            ErrorKind::PoshContextError(detail) => "PoshContextError: "@ + detail@,
            ErrorKind::PoshProgramError(detail) => "PoshProgramError: "@ + detail@,
            ErrorKind::PoshDrawError(detail) => "PoshDrawError: "@ + detail@,
            ErrorKind::PoshBufferError(detail) => "PoshBufferError: "@ + detail@,
        }
    }

    /// Renders the error as text.
    pub fn message(&self) -> (text: String)
        ensures
            text@ == self.spec_message(),
    {
        match self {
            ErrorKind::DisplayError => "Display could not be created".to_owned(),
            ErrorKind::NoConfigFound => "No OpenGL Config found for the current platform.".to_owned(),
            ErrorKind::EventLoopError(detail) => "EventLoopError: ".to_owned().concat(detail.as_str()),
            ErrorKind::WindowError => "Error creating window".to_owned(),
            ErrorKind::OpenGlError(_) => "OpenGl Error".to_owned(),
            ErrorKind::PoshContextError(detail) => "PoshContextError: ".to_owned().concat(detail.as_str()),
            ErrorKind::PoshProgramError(detail) => "PoshProgramError: ".to_owned().concat(detail.as_str()),
            ErrorKind::PoshDrawError(detail) => "PoshDrawError: ".to_owned().concat(detail.as_str()),
            ErrorKind::PoshBufferError(detail) => "PoshBufferError: ".to_owned().concat(detail.as_str()),
        }
    }
}

/// A step of construction that failed, with the description that the
/// failing system gave.
#[derive(Debug, Clone)]
pub struct ConstructionFailure {
    pub stage: ConstructionStage,
    pub detail: String,
}

/// `error` is what a failure at `stage` is reported as, where `detail` is
/// the description the failing system gave: a failure of the event source,
/// of the loader or of the shaders carries that description, a failure of
/// the context, the surface or the activation a fixed text of its own.
pub open spec fn is_construction_error(
    stage: ConstructionStage,
    detail: Seq<char>,
    error: ErrorKind,
) -> bool {
    match stage {
        ConstructionStage::EventLoop => error matches ErrorKind::EventLoopError(d) && d@ == detail,
        ConstructionStage::Display => error is DisplayError,
        ConstructionStage::Window => error is WindowError,
        ConstructionStage::Context => error matches ErrorKind::OpenGlError(d) && d@
            == "Context creation failed"@,
        ConstructionStage::Surface => error matches ErrorKind::OpenGlError(d) && d@
            == "Failed to create gl surface"@,
        ConstructionStage::Activation => error matches ErrorKind::OpenGlError(d) && d@
            == "Failed to make context current"@,
        ConstructionStage::Loader => error matches ErrorKind::PoshContextError(d) && d@ == detail,
        ConstructionStage::Shaders => error matches ErrorKind::PoshProgramError(d) && d@ == detail,
    }
}

/// The error that a failure at `stage` is reported as.
pub fn construction_error(stage: ConstructionStage, detail: String) -> (error: ErrorKind)
    ensures
        is_construction_error(stage, detail@, error),
{
    match stage {
        ConstructionStage::EventLoop => ErrorKind::EventLoopError(detail),
        ConstructionStage::Display => ErrorKind::DisplayError,
        ConstructionStage::Window => ErrorKind::WindowError,
        ConstructionStage::Context => ErrorKind::OpenGlError("Context creation failed".to_owned()),
        ConstructionStage::Surface => ErrorKind::OpenGlError(
            "Failed to create gl surface".to_owned(),
        ),
        ConstructionStage::Activation => ErrorKind::OpenGlError(
            "Failed to make context current".to_owned(),
        ),
        ConstructionStage::Loader => ErrorKind::PoshContextError(detail),
        ConstructionStage::Shaders => ErrorKind::PoshProgramError(detail),
    }
}

/// Each construction step fails with an error of its own: the error tells
/// which step failed.
pub proof fn lemma_construction_errors_differ(
    first: ConstructionStage,
    second: ConstructionStage,
    first_detail: Seq<char>,
    second_detail: Seq<char>,
    error: ErrorKind,
)
    requires
        is_construction_error(first, first_detail, error),
        is_construction_error(second, second_detail, error),
    ensures
        first == second,
{
    reveal_strlit("Context creation failed");
    reveal_strlit("Failed to create gl surface");
    reveal_strlit("Failed to make context current");
    assert("Context creation failed"@.len() == 23);
    assert("Failed to create gl surface"@.len() == 27);
    assert("Failed to make context current"@.len() == 30);
}

/// Hands back the error of a result whose failure is to be reported and then
/// ignored; a success carries nothing to report.
pub fn log_error<T, E>(res: Result<T, E>) -> (reported: Option<E>)
    ensures
        reported == match res {
            Ok(_) => None::<E>,
            Err(e) => Some(e),
        },
{
    match res {
        Ok(_) => None,
        Err(e) => Some(e),
    }
}

} // verus!
