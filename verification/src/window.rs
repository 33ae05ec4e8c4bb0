//! Window creation decisions: which fullscreen mode a window asks for, and
//! which of a monitor's video modes fits a requested size best.
use vstd::prelude::*;

verus! {

/// Defines the way a window is displayed.
#[derive(Debug, Clone, Copy, PartialEq, Eq, Structural)]
pub enum WindowMode {
    /// Creates a window that uses the given size.
    Windowed,
    /// Creates a borderless window that uses the full size of the screen.
    BorderlessFullscreen,
    /// Creates a fullscreen window that will render at desktop resolution.
    ///
    /// The app will use the closest supported size from the given size and scale it to fit the screen.
    SizedFullscreen,
    /// Creates a fullscreen window that uses the maximum supported size.
    Fullscreen,
}

/// Defines which monitor to use.
#[derive(Debug, Clone, Copy, PartialEq, Eq, Structural)]
pub enum MonitorSelection {
    /// Uses current monitor of the window.
    Current,
    /// Uses primary monitor of the system.
    Primary,
    /// Uses monitor with the specified index.
    Number(usize),
}

/// What a new window asks of the windowing system about fullscreen.
#[derive(Debug, Clone, Copy, PartialEq, Eq, Structural)]
pub enum FullscreenRequest {
    /// A plain window of the requested size.
    Windowed,
    /// Borderless fullscreen on the first available monitor.
    BorderlessOnFirstMonitor,
    /// Exclusive fullscreen on the first available monitor, in the video
    /// mode of that monitor that fits the requested size best
    /// (see `get_fitting_videomode`).
    ExclusiveOnFirstMonitor,
}

/// The fullscreen request that a window of the given mode is created with.
pub open spec fn fullscreen_request_of(mode: WindowMode) -> FullscreenRequest {
    match mode {
        WindowMode::Windowed => FullscreenRequest::Windowed,
        WindowMode::BorderlessFullscreen => FullscreenRequest::BorderlessOnFirstMonitor,
        WindowMode::SizedFullscreen => FullscreenRequest::Windowed,
        WindowMode::Fullscreen => FullscreenRequest::ExclusiveOnFirstMonitor,
    }
}

impl WindowMode {
    /// Decides how a window of this mode is created. Sized fullscreen is not
    /// supported yet, so that mode is left out.
    pub fn fullscreen_request(self) -> (request: FullscreenRequest)
        requires
            !(self is SizedFullscreen),
        ensures
            request == fullscreen_request_of(self),
    {
        match self {
            WindowMode::Windowed => FullscreenRequest::Windowed,
            WindowMode::BorderlessFullscreen => FullscreenRequest::BorderlessOnFirstMonitor,
            WindowMode::Fullscreen => FullscreenRequest::ExclusiveOnFirstMonitor,
            WindowMode::SizedFullscreen => FullscreenRequest::Windowed,
        }
    }
}

/// The parts of a monitor's video mode that the choice of a mode looks at.
#[derive(Debug, Clone, Copy, PartialEq, Eq, Structural)]
pub struct VideoMode {
    /// Width of the mode in physical pixels.
    pub width: u32,
    /// Height of the mode in physical pixels.
    pub height: u32,
    /// Refresh rate of the mode in millihertz.
    pub refresh_rate_millihertz: u32,
}

/// The distance between two sizes along one axis.
pub open spec fn spec_abs_diff(a: u32, b: u32) -> u32 {
    if a > b {
        (a - b) as u32
    } else {
        (b - a) as u32
    }
}

/// `a` fits the requested `width` x `height` strictly better than `b`: it is
/// closer in width; or as close in width and closer in height; or as close in
/// both and of a higher refresh rate.
pub open spec fn fits_better(a: VideoMode, b: VideoMode, width: u32, height: u32) -> bool {
    let aw = spec_abs_diff(a.width, width);
    let bw = spec_abs_diff(b.width, width);
    let ah = spec_abs_diff(a.height, height);
    let bh = spec_abs_diff(b.height, height);
    ||| aw < bw
    ||| aw == bw && ah < bh
    ||| aw == bw && ah == bh && a.refresh_rate_millihertz > b.refresh_rate_millihertz
}

/// `best` is the first of the modes that no other mode fits strictly better:
/// the mode that a stable sort by fit puts first.
pub open spec fn is_fitting_videomode(
    modes: Seq<VideoMode>,
    width: u32,
    height: u32,
    best: int,
) -> bool {
    &&& 0 <= best < modes.len()
    &&& forall|j: int|
        0 <= j < modes.len() ==> !fits_better(#[trigger] modes[j], modes[best], width, height)
    &&& forall|j: int| 0 <= j < best ==> fits_better(modes[best], #[trigger] modes[j], width, height)
}

fn abs_diff(a: u32, b: u32) -> (d: u32)
    ensures
        d == spec_abs_diff(a, b),
{
    if a > b {
        return a - b;
    }
    b - a
}

fn fits_better_exec(a: &VideoMode, b: &VideoMode, width: u32, height: u32) -> (r: bool)
    ensures
        r == fits_better(*a, *b, width, height),
{
    let aw = abs_diff(a.width, width);
    let bw = abs_diff(b.width, width);
    if aw != bw {
        return aw < bw;
    }
    let ah = abs_diff(a.height, height);
    let bh = abs_diff(b.height, height);
    if ah != bh {
        return ah < bh;
    }
    a.refresh_rate_millihertz > b.refresh_rate_millihertz
}

/// Picks, among a monitor's video modes, the one that fits `width` x
/// `height` best: closest in width, then closest in height, then the highest
/// refresh rate; of equally fitting modes the first. Returns its index.
/// The monitor must offer at least one mode.
pub fn get_fitting_videomode(modes: &Vec<VideoMode>, width: u32, height: u32) -> (best: usize)
    requires
        modes.len() > 0,
    ensures
        is_fitting_videomode(modes@, width, height, best as int),
{
    let mut best: usize = 0;
    let mut i: usize = 1;
    while i < modes.len()
        invariant
            0 <= best < i <= modes.len(),
            forall|j: int|
                0 <= j < i ==> !fits_better(#[trigger] modes@[j], modes@[best as int], width, height),
            forall|j: int|
                0 <= j < best ==> fits_better(modes@[best as int], #[trigger] modes@[j], width, height),
        decreases modes.len() - i,
    {
        if fits_better_exec(&modes[i], &modes[best], width, height) {
            best = i;
        }
        i += 1;
    }
    best
}

/// Exactly one mode satisfies `is_fitting_videomode`: the choice does not
/// depend on anything but the modes, their order and the requested size.
pub proof fn lemma_fitting_videomode_unique(
    modes: Seq<VideoMode>,
    width: u32,
    height: u32,
    a: int,
    b: int,
)
    requires
        is_fitting_videomode(modes, width, height, a),
        is_fitting_videomode(modes, width, height, b),
    ensures
        a == b,
{
    if a < b {
        assert(fits_better(modes[b], modes[a], width, height));
    } else if b < a {
        assert(fits_better(modes[a], modes[b], width, height));
    }
}

/// The distance between two sizes along one axis, as an integer.
pub open spec fn axis_distance(a: u32, b: u32) -> int {
    if a >= b {
        a - b
    } else {
        b - a
    }
}

/// What the chosen mode is, measured against the request: no mode is closer
/// in width; among the modes as close in width, none is closer in height
/// (the height is measured against the requested height); among those as
/// close in both, none has a higher refresh rate. In particular a mode that
/// matches the requested width and height exactly is chosen over any mode
/// that does not, and every earlier mode is strictly worse.
pub proof fn lemma_fitting_videomode_is_closest(
    modes: Seq<VideoMode>,
    width: u32,
    height: u32,
    best: int,
)
    requires
        is_fitting_videomode(modes, width, height, best),
    ensures
        forall|j: int|
            0 <= j < modes.len() ==> axis_distance(modes[best].width, width) <= axis_distance(
                #[trigger] modes[j].width,
                width,
            ),
        forall|j: int|
            0 <= j < modes.len() && axis_distance(#[trigger] modes[j].width, width)
                == axis_distance(modes[best].width, width) ==> axis_distance(
                modes[best].height,
                height,
            ) <= axis_distance(modes[j].height, height),
        forall|j: int|
            0 <= j < modes.len() && axis_distance(#[trigger] modes[j].width, width)
                == axis_distance(modes[best].width, width) && axis_distance(
                modes[j].height,
                height,
            ) == axis_distance(modes[best].height, height)
                ==> modes[j].refresh_rate_millihertz <= modes[best].refresh_rate_millihertz,
        (exists|j: int|
            0 <= j < modes.len() && (#[trigger] modes[j]).width == width && modes[j].height
                == height) ==> modes[best].width == width && modes[best].height == height,
{
    assert forall|j: int| 0 <= j < modes.len() implies axis_distance(modes[best].width, width)
        <= axis_distance(#[trigger] modes[j].width, width) by {
        assert(!fits_better(modes[j], modes[best], width, height));
    }
    assert forall|j: int|
        0 <= j < modes.len() && axis_distance(#[trigger] modes[j].width, width) == axis_distance(
            modes[best].width,
            width,
        ) implies axis_distance(modes[best].height, height) <= axis_distance(
        modes[j].height,
        height,
    ) by {
        assert(!fits_better(modes[j], modes[best], width, height));
    }
    assert forall|j: int|
        0 <= j < modes.len() && axis_distance(#[trigger] modes[j].width, width) == axis_distance(
            modes[best].width,
            width,
        ) && axis_distance(modes[j].height, height) == axis_distance(modes[best].height, height)
        implies modes[j].refresh_rate_millihertz <= modes[best].refresh_rate_millihertz by {
        assert(!fits_better(modes[j], modes[best], width, height));
    }
    if exists|j: int|
        0 <= j < modes.len() && (#[trigger] modes[j]).width == width && modes[j].height == height {
        let j = choose|j: int|
            0 <= j < modes.len() && (#[trigger] modes[j]).width == width && modes[j].height
                == height;
        assert(!fits_better(modes[j], modes[best], width, height));
    }
}

} // verus!
