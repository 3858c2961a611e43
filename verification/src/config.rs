//! The configuration a program is constructed with: whether a window is
//! shown at all, how large it is, and how often it is redrawn.
use vstd::prelude::*;
use crate::error::ErrorKind;

verus! {

/// The cadence at which a window's contents are drawn.
#[derive(Debug, Clone, Copy, PartialEq, Eq, Structural)]
pub enum DrawMode {
    /// One frame is drawn; afterwards only window events are handled.
    Once,
    /// Frames are drawn without end, `framerate` of them per second at most.
    Loop { framerate: u64 },
}

impl DrawMode {
    /// A cadence can be paced unless it asks for zero frames per second,
    /// for which no frame interval exists.
    pub open spec fn paceable(self) -> bool {
        match self {
            DrawMode::Once => true,
            DrawMode::Loop { framerate } => framerate > 0,
        }
    }

    /// Tells whether a frame interval exists for this cadence.
    pub fn is_paceable(&self) -> (b: bool)
        ensures
            b == self.paceable(),
    {
        match self {
            DrawMode::Once => true,
            DrawMode::Loop { framerate } => *framerate > 0,
        }
    }
}

impl Default for DrawMode {
    fn default() -> (mode: DrawMode)
        ensures
            mode == DrawMode::Once,
    {
        DrawMode::Once
    }
}

/// The size of a window's drawable area, in physical pixels.
#[derive(Debug, Clone, Copy, PartialEq, Eq, Structural)]
pub struct PhysicalSize {
    pub width: u32,
    pub height: u32,
}

impl PhysicalSize {
    pub fn new(width: u32, height: u32) -> (size: PhysicalSize)
        ensures
            size == (PhysicalSize { width, height }),
    {
        PhysicalSize { width, height }
    }
}

/// What a window looks like and how it is redrawn.
#[derive(Debug, Clone)]
pub struct WindowConfig {
    pub title: String,
    pub size: PhysicalSize,
    pub draw_mode: DrawMode,
}

impl Default for WindowConfig {
    fn default() -> (config: WindowConfig)
        ensures
            config.title@ == "Shimmer"@,
            config.size == (PhysicalSize { width: 800, height: 600 }),
            config.draw_mode == DrawMode::Once,
    {
        WindowConfig { title: "Shimmer".to_owned(), size: PhysicalSize::new(800, 600), draw_mode: DrawMode::Once }
    }
}

/// Whether a program runs with a window, and with which configuration.
#[derive(Debug, Clone)]
pub enum RunMode {
    /// No window is shown. Serving a headless program is not offered.
    Headless,
    /// A window is shown; without a configuration it is drawn once.
    Windowed(Option<WindowConfig>),
}

impl RunMode {
    /// A windowed program can be served, a headless one cannot.
    pub open spec fn windowed(self) -> bool {
        self is Windowed
    }

    /// The cadence a windowed program is drawn at: the configured one, and
    /// a single frame where there is no configuration or no window.
    pub open spec fn cadence(self) -> DrawMode {
        match self {
            RunMode::Windowed(Some(config)) => config.draw_mode,
            _ => DrawMode::Once,
        }
    }

    /// The drawable size asked of the window system: the configured size,
    /// and none (the window system's own choice) without a configuration.
    pub open spec fn requested_size(self) -> Option<PhysicalSize> {
        match self {
            RunMode::Windowed(Some(config)) => Some(config.size),
            _ => None,
        }
    }

    /// The title that the window is given while the program is served: the
    /// configured one, and none without a configuration.
    pub open spec fn configured_title(self) -> Option<String> {
        match self {
            RunMode::Windowed(Some(config)) => Some(config.title),
            _ => None,
        }
    }

    /// The title to give the window with each frame, if one is configured.
    pub fn title(&self) -> (title: Option<&String>)
        ensures
            match title {
                Some(t) => self.configured_title() == Some(*t),
                None => self.configured_title() is None,
            },
    {
        match self {
            RunMode::Windowed(Some(config)) => Some(&config.title),
            _ => None,
        }
    }

    pub fn is_windowed(&self) -> (b: bool)
        ensures
            b == self.windowed(),
    {
        match self {
            RunMode::Headless => false,
            RunMode::Windowed(_) => true,
        }
    }

    pub fn draw_mode(&self) -> (mode: DrawMode)
        ensures
            mode == self.cadence(),
    {
        match self {
            RunMode::Windowed(Some(config)) => config.draw_mode,
            _ => DrawMode::Once,
        }
    }
}

/// What is asked of the window system when a program's window is created.
#[derive(Debug, Clone)]
pub struct WindowAttributes {
    pub title: String,
    pub visible: bool,
    pub transparent: bool,
    pub inner_size: Option<PhysicalSize>,
}

/// The attributes of the window that is created for `run_mode`. Every
/// program gets a window under the harness's own title, transparent, and
/// hidden exactly when the program is headless; its size is the configured
/// one where there is a configuration. The configured title is not given
/// to the window here but with each frame.
pub fn window_attributes(run_mode: &RunMode) -> (attributes: WindowAttributes)
    ensures
        attributes.title@ == "Posh"@,
        attributes.visible == run_mode.windowed(),
        attributes.transparent,
        attributes.inner_size == run_mode.requested_size(),
{
    let inner_size = match run_mode {
        RunMode::Windowed(Some(config)) => Some(config.size),
        _ => None,
    };
    WindowAttributes {
        title: "Posh".to_owned(),
        visible: run_mode.is_windowed(),
        transparent: true,
        inner_size,
    }
}

/// What is asked of the graphics system when a program's rendering context
/// is created.
#[derive(Debug, Clone, Copy, PartialEq, Eq, Structural)]
pub struct ContextRequest {
    /// The version of OpenGL, major and minor.
    pub major: u8,
    pub minor: u8,
    /// Whether the core profile is asked for, rather than the compatibility
    /// profile.
    pub core_profile: bool,
}

/// The rendering context that every program is created with: OpenGL 4.1,
/// core profile.
pub fn context_request() -> (request: ContextRequest)
    ensures
        request == (ContextRequest { major: 4, minor: 1, core_profile: true }),
{
    ContextRequest { major: 4, minor: 1, core_profile: true }
}

/// `choice` is the rendering configuration to use among those a display
/// offers, given for each, in the order offered, whether it is an OpenGL
/// configuration: the first OpenGL one, or else the first of all. Nothing
/// can be picked from an empty offer.
pub open spec fn is_chosen_config(offered: Seq<bool>, choice: Option<usize>) -> bool {
    match choice {
        Some(i) => {
            &&& i < offered.len()
            &&& forall|j: int| 0 <= j < i ==> !offered[j]
            &&& offered[i as int] || (i == 0 && forall|j: int| 0 <= j < offered.len() ==> !offered[j])
        },
        None => offered.len() == 0,
    }
}

/// Picks the rendering configuration to use among those offered. From an
/// empty offer nothing is picked, and no configuration is found.
pub fn choose_config(offered: &Vec<bool>) -> (choice: Result<usize, ErrorKind>)
    ensures
        choice is Ok <==> offered@.len() > 0,
        match choice {
            Ok(i) => is_chosen_config(offered@, Some(i)),
            Err(error) => error is NoConfigFound,
        },
{
    let mut i: usize = 0;
    while i < offered.len()
        invariant
            i <= offered.len(),
            forall|j: int| 0 <= j < i ==> !offered@[j],
        decreases offered.len() - i,
    {
        if offered[i] {
            return Ok(i);
        }
        i += 1;
    }
    if offered.len() > 0 {
        Ok(0)
    } else {
        Err(ErrorKind::NoConfigFound)
    }
}

/// At most one configuration is the chosen one.
pub proof fn lemma_chosen_config_unique(offered: Seq<bool>, a: Option<usize>, b: Option<usize>)
    requires
        is_chosen_config(offered, a),
        is_chosen_config(offered, b),
    ensures
        a == b,
{
}

} // verus!
