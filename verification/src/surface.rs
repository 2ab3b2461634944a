//! The output surface: its size, format, presentation mode and whether it
//! fills the screen.

use vstd::prelude::*;
use crate::camera::Aspect;

verus! {

/// A size in pixels.
#[derive(Clone, Copy, Debug, PartialEq, Eq, Structural)]
pub struct Extent {
    pub width: u32,
    pub height: u32,
}

impl Extent {
    /// Neither side is zero.
    pub open spec fn usable(self) -> bool {
        self.width > 0 && self.height > 0
    }

    /// Whether neither side is zero.
    pub fn is_usable(&self) -> (usable: bool)
        ensures
            usable == self.usable(),
    {
        self.width > 0 && self.height > 0
    }
}

/// How finished images reach the display.
#[derive(Clone, Copy, Debug, PartialEq, Eq, Structural)]
pub enum PresentMode {
    Fifo,
    Mailbox,
    Immediate,
}

/// What a fullscreen toggle asks of the window: to take the video mode at
/// the given index of the list that was offered, to cover the monitor
/// without a border, or to become a window again.
#[derive(Clone, Copy, Debug, PartialEq, Eq, Structural)]
pub enum FullscreenChange {
    Exclusive(usize),
    Borderless,
    Windowed,
}

/// The mathematical content of a [`SurfaceConfig`]. `windowed` is the size to
/// go back to when fullscreen ends.
pub ghost struct SurfaceView<F> {
    pub size: Extent,
    pub format: F,
    pub present_mode: PresentMode,
    pub fullscreen: bool,
    pub windowed: Extent,
}

impl<F> SurfaceView<F> {
    /// Both sizes are usable, and a windowed surface has its windowed size.
    pub open spec fn wf(self) -> bool {
        &&& self.size.usable()
        &&& self.windowed.usable()
        &&& !self.fullscreen ==> self.windowed == self.size
    }

    /// The ratio of the surface's width to its height.
    pub open spec fn aspect(self) -> Aspect {
        Aspect { width: self.size.width, height: self.size.height }
    }
}

/// `i` is the first index of `modes` at which a usable mode stands.
pub open spec fn is_first_usable(modes: Seq<Extent>, i: int) -> bool {
    &&& 0 <= i < modes.len()
    &&& modes[i].usable()
    &&& forall|j: int| 0 <= j < i ==> !(#[trigger] modes[j]).usable()
}

/// The first index of `modes` at which a usable mode stands, if there is one.
pub open spec fn first_usable(modes: Seq<Extent>) -> Option<int> {
    if exists|i: int| is_first_usable(modes, i) {
        Some(choose|i: int| is_first_usable(modes, i))
    } else {
        None
    }
}

/// The surface after a resize notification. A size with a zero side is not
/// taken.
pub open spec fn resized<F>(v: SurfaceView<F>, size: Extent) -> SurfaceView<F> {
    if !size.usable() {
        v
    } else if v.fullscreen {
        SurfaceView { size, ..v }
    } else {
        SurfaceView { size, windowed: size, ..v }
    }
}

/// The size that a surface of size `current` takes when it goes fullscreen:
/// that of the first usable video mode, else the monitor's, else its own.
pub open spec fn fullscreen_size(current: Extent, modes: Seq<Extent>, monitor: Option<Extent>) -> Extent {
    match first_usable(modes) {
        Some(i) => modes[i],
        None => match monitor {
            Some(m) if m.usable() => m,
            _ => current,
        },
    }
}

/// The surface after a fullscreen toggle.
pub open spec fn toggled<F>(v: SurfaceView<F>, modes: Seq<Extent>, monitor: Option<Extent>) -> SurfaceView<F> {
    if v.fullscreen {
        SurfaceView { size: v.windowed, fullscreen: false, ..v }
    } else {
        SurfaceView { size: fullscreen_size(v.size, modes, monitor), fullscreen: true, windowed: v.size, ..v }
    }
}

/// What a fullscreen toggle asks of the window.
pub open spec fn toggle_change(fullscreen: bool, modes: Seq<Extent>) -> FullscreenChange {
    if fullscreen {
        FullscreenChange::Windowed
    } else {
        match first_usable(modes) {
            Some(i) => FullscreenChange::Exclusive(i as usize),
            None => FullscreenChange::Borderless,
        }
    }
}

/// An index that passes `is_first_usable` is the one that `first_usable` gives.
pub proof fn lemma_first_usable_unique(modes: Seq<Extent>, i: int)
    requires
        is_first_usable(modes, i),
    ensures
        first_usable(modes) == Some(i),
{
    let c = choose|c: int| is_first_usable(modes, c);
    if c < i {
        assert(!modes[c].usable());
    } else if i < c {
        assert(!modes[i].usable());
    }
}

/// Finds the first usable mode of a list.
pub fn find_first_usable(modes: &Vec<Extent>) -> (found: Option<usize>)
    ensures
        match found {
            Some(i) => first_usable(modes@) == Some(i as int),
            None => first_usable(modes@).is_none(),
        },
{
    let mut i: usize = 0;
    while i < modes.len()
        invariant
            i <= modes.len(),
            forall|j: int| 0 <= j < i ==> !(#[trigger] modes@[j]).usable(),
        decreases modes.len() - i,
    {
        if modes[i].is_usable() {
            proof {
                lemma_first_usable_unique(modes@, i as int);
            }
            return Some(i);
        }
        i += 1;
    }
    None
}

/// The configuration of the output surface.
pub struct SurfaceConfig<F> {
    size: Extent,
    format: F,
    present_mode: PresentMode,
    fullscreen: bool,
    windowed: Extent,
}

impl<F> View for SurfaceConfig<F> {
    type V = SurfaceView<F>;

    closed spec fn view(&self) -> SurfaceView<F> {
        SurfaceView {
            size: self.size,
            format: self.format,
            present_mode: self.present_mode,
            fullscreen: self.fullscreen,
            windowed: self.windowed,
        }
    }
}

impl<F> SurfaceConfig<F> {
    /// A windowed surface of the given size. `None` if a side is zero.
    pub fn new(size: Extent, format: F, present_mode: PresentMode) -> (surface: Option<Self>)
        ensures
            surface.is_some() == size.usable(),
            surface.is_some() ==> surface.unwrap()@ == (SurfaceView {
                size,
                format,
                present_mode,
                fullscreen: false,
                windowed: size,
            }),
            surface.is_some() ==> surface.unwrap()@.wf(),
    {
        if size.is_usable() {
            Some(SurfaceConfig { size, format, present_mode, fullscreen: false, windowed: size })
        } else {
            None
        }
    }

    /// The size in pixels.
    pub fn size(&self) -> (size: Extent)
        ensures
            size == self@.size,
    {
        self.size
    }

    /// The pixel format.
    pub fn format(&self) -> (format: &F)
        ensures
            *format == self@.format,
    {
        &self.format
    }

    /// The presentation mode.
    pub fn present_mode(&self) -> (mode: PresentMode)
        ensures
            mode == self@.present_mode,
    {
        self.present_mode
    }

    /// Whether the surface fills the screen.
    pub fn is_fullscreen(&self) -> (fullscreen: bool)
        ensures
            fullscreen == self@.fullscreen,
    {
        self.fullscreen
    }

    /// The ratio of width to height.
    pub fn aspect(&self) -> (aspect: Aspect)
        ensures
            aspect == self@.aspect(),
            aspect.width == self@.size.width,
            aspect.height == self@.size.height,
    {
        Aspect { width: self.size.width, height: self.size.height }
    }

    /// Takes a new size from a resize notification, and says whether it was
    /// taken: a size with a zero side is not.
    pub fn resize(&mut self, size: Extent) -> (taken: bool)
        requires
            old(self)@.wf(),
        ensures
            final(self)@.wf(),
            final(self)@ == resized(old(self)@, size),
            taken == size.usable(),
    {
        if size.is_usable() {
            self.size = size;
            if !self.fullscreen {
                self.windowed = size;
            }
            true
        } else {
            false
        }
    }

    /// Flips between windowed and fullscreen. Going fullscreen, the surface
    /// takes the size of the first usable video mode of `modes`, or else the
    /// monitor's size, or else keeps its own; going back, it takes the size
    /// it had as a window.
    pub fn toggle_fullscreen(&mut self, modes: &Vec<Extent>, monitor: Option<Extent>) -> (change: FullscreenChange)
        requires
            old(self)@.wf(),
        ensures
            final(self)@.wf(),
            final(self)@ == toggled(old(self)@, modes@, monitor),
            final(self)@.fullscreen == !old(self)@.fullscreen,
            change == toggle_change(old(self)@.fullscreen, modes@),
    {
        if self.fullscreen {
            self.size = self.windowed;
            self.fullscreen = false;
            FullscreenChange::Windowed
        } else {
            self.windowed = self.size;
            self.fullscreen = true;
            match find_first_usable(modes) {
                Some(i) => {
                    self.size = modes[i];
                    FullscreenChange::Exclusive(i)
                },
                None => {
                    match monitor {
                        Some(m) => {
                            if m.is_usable() {
                                self.size = m;
                            }
                        },
                        None => {},
                    }
                    FullscreenChange::Borderless
                },
            }
        }
    }
}

/// Resizing and toggling keep a surface well formed, and its aspect is the
/// ratio of the width to the height it then has.
pub proof fn lemma_aspect_follows_size<F>(v: SurfaceView<F>, size: Extent, modes: Seq<Extent>, monitor: Option<Extent>)
    requires
        v.wf(),
    ensures
        resized(v, size).wf(),
        toggled(v, modes, monitor).wf(),
        size.usable() ==> resized(v, size).aspect() == (Aspect { width: size.width, height: size.height }),
        toggled(v, modes, monitor).aspect().width == toggled(v, modes, monitor).size.width,
        toggled(v, modes, monitor).aspect().height == toggled(v, modes, monitor).size.height,
        toggled(v, modes, monitor).aspect().height > 0,
{
    if first_usable(modes).is_some() {
        let i = choose|i: int| is_first_usable(modes, i);
        assert(modes[i].usable());
    }
}

/// Going fullscreen and back returns a windowed surface to exactly what it
/// was, whatever the monitor offered and whatever sizes were taken between.
pub proof fn lemma_toggle_twice_restores<F>(
    v: SurfaceView<F>,
    modes: Seq<Extent>,
    monitor: Option<Extent>,
    between: Seq<Extent>,
    modes_back: Seq<Extent>,
    monitor_back: Option<Extent>,
)
    requires
        v.wf(),
        !v.fullscreen,
    ensures
        toggled(resized_by(toggled(v, modes, monitor), between), modes_back, monitor_back) == v,
{
    lemma_resizes_keep_windowed(toggled(v, modes, monitor), between);
}

/// The surface after a run of resize notifications, first to last.
pub open spec fn resized_by<F>(v: SurfaceView<F>, sizes: Seq<Extent>) -> SurfaceView<F>
    decreases sizes.len(),
{
    if sizes.len() == 0 {
        v
    } else {
        resized(resized_by(v, sizes.drop_last()), sizes.last())
    }
}

/// Resizes of a fullscreen surface change its size and nothing else.
pub proof fn lemma_resizes_keep_windowed<F>(v: SurfaceView<F>, sizes: Seq<Extent>)
    requires
        v.fullscreen,
    ensures
        resized_by(v, sizes) == (SurfaceView { size: resized_by(v, sizes).size, ..v }),
    decreases sizes.len(),
{
    if sizes.len() > 0 {
        lemma_resizes_keep_windowed(v, sizes.drop_last());
    }
}

/// A toggle flips the fullscreen flag, whatever the monitor offers, and
/// leaves the format and the presentation mode alone.
pub proof fn lemma_toggle_flips<F>(v: SurfaceView<F>, modes: Seq<Extent>, monitor: Option<Extent>)
    ensures
        toggled(v, modes, monitor).fullscreen == !v.fullscreen,
        toggled(v, modes, monitor).format == v.format,
        toggled(v, modes, monitor).present_mode == v.present_mode,
{
}

} // verus!
