//! Screen capture: frames, the choice of what to capture, and the layout of
//! a frame converted to YUV 4:2:0 for encoding.
use vstd::prelude::*;

verus! {

/// A captured or decoded picture: `width` x `height` pixels of 4 bytes each.
#[derive(Debug, Clone)]
pub struct Frame {
    pub width: u32,
    pub height: u32,
    pub data: Vec<u8>,
}

/// Why capturing failed.
#[derive(Debug, Clone, Copy, PartialEq, Eq, Structural)]
pub enum VideoErrors {
    NoMonitorFound,
    CannotCapture,
}

impl VideoErrors {
    /// The text shown for this error.
    pub fn message(&self) -> (s: &'static str)
        ensures
            *self == VideoErrors::NoMonitorFound ==> s@ == "No monitor found to record."@,
            *self == VideoErrors::CannotCapture ==> s@ == "An error occurred during screen capturing."@,
    {
        match self {
            VideoErrors::NoMonitorFound => "No monitor found to record.",
            VideoErrors::CannotCapture => "An error occurred during screen capturing.",
        }
    }
}

/// Something that can be captured: a whole display or a single window.
#[derive(Debug, Clone)]
pub enum CaptureTarget<D, W> {
    Display(D),
    Window(W),
}

/// The position of the first display among `targets`, or their number when
/// there is none.
pub open spec fn first_display<D, W>(targets: Seq<CaptureTarget<D, W>>, from: nat) -> nat
    decreases targets.len() - from,
{
    if from >= targets.len() {
        targets.len()
    } else if targets[from as int] is Display {
        from
    } else {
        first_display(targets, from + 1)
    }
}

/// Captures one display.
pub struct ScapCapturer<D, W> {
    target: CaptureTarget<D, W>,
}

impl<D, W> ScapCapturer<D, W> {
    /// What is captured.
    pub closed spec fn spec_target(&self) -> CaptureTarget<D, W> {
        self.target
    }

    /// The first display among the targets the system offers, in order.
    pub fn get_primary_display(targets: Vec<CaptureTarget<D, W>>) -> (r: Result<
        CaptureTarget<D, W>,
        VideoErrors,
    >)
        ensures
            ({
                let k = first_display(targets@, 0);
                if k < targets@.len() {
                    r == Ok::<CaptureTarget<D, W>, VideoErrors>(targets@[k as int])
                } else {
                    r == Err::<CaptureTarget<D, W>, VideoErrors>(VideoErrors::NoMonitorFound)
                }
            }),
    {
        let ghost all = targets@;
        let mut list = targets;
        let mut i: usize = 0;
        while i < list.len()
            invariant
                list@ == all,
                targets@ == all,
                0 <= i <= all.len(),
                first_display(all, 0) == first_display(all, i as nat),
            decreases all.len() - i,
        {
            let is_display = match &list[i] {
                CaptureTarget::Display(_) => true,
                CaptureTarget::Window(_) => false,
            };
            if is_display {
                assert(all[i as int] is Display);
                assert(first_display(all, i as nat) == i);
                let t = list.swap_remove(i);
                return Ok(t);
            }
            i = i + 1;
        }
        Err(VideoErrors::NoMonitorFound)
    }

    /// A capturer of the first display among the targets the system offers.
    pub fn new(targets: Vec<CaptureTarget<D, W>>) -> (r: Result<Self, VideoErrors>)
        ensures
            ({
                let i = first_display(targets@, 0);
                &&& r is Ok <==> i < targets@.len()
                &&& r matches Ok(c) ==> c.spec_target() == targets@[i as int]
                &&& r matches Err(e) ==> e == VideoErrors::NoMonitorFound
            }),
    {
        match Self::get_primary_display(targets) {
            Ok(target) => Ok(ScapCapturer { target }),
            Err(e) => Err(e),
        }
    }

    /// What is captured.
    pub fn target(&self) -> (t: &CaptureTarget<D, W>)
        ensures
            *t == self.spec_target(),
    {
        &self.target
    }
}

/// A monitor as the system lists it, with whether it reported itself as the
/// primary one (`None` when asking failed).
pub struct MonitorEntry<M> {
    pub monitor: M,
    pub is_primary: Option<bool>,
}

/// The position of the first monitor among `monitors` that reported itself
/// as primary, or their number when there is none.
pub open spec fn first_primary<M>(monitors: Seq<MonitorEntry<M>>, from: nat) -> nat
    decreases monitors.len() - from,
{
    if from >= monitors.len() {
        monitors.len()
    } else if monitors[from as int].is_primary == Some(true) {
        from
    } else {
        first_primary(monitors, from + 1)
    }
}

/// The first display at or after `i` is at `k` when `k` is a display and
/// every target in between is a window.
proof fn lemma_first_display_at<D, W>(targets: Seq<CaptureTarget<D, W>>, i: nat, k: nat)
    requires
        i <= k < targets.len(),
        targets[k as int] is Display,
        forall|j: int| i <= j < k ==> #[trigger] targets[j] is Window,
    ensures
        first_display(targets, i) == k,
    decreases k - i,
{
    if i < k {
        lemma_first_display_at(targets, i + 1, k);
    }
}

/// With no display at or after `i`, there is none to pick.
proof fn lemma_no_display_from<D, W>(targets: Seq<CaptureTarget<D, W>>, i: nat)
    requires
        forall|j: int| i <= j < targets.len() ==> #[trigger] targets[j] is Window,
    ensures
        first_display(targets, i) == targets.len(),
    decreases targets.len() - i,
{
    if i < targets.len() {
        lemma_no_display_from(targets, i + 1);
    }
}

/// Law: the target picked is the first display of the list: when
/// `targets[k]` is a display and every target before it is a window, it is
/// `targets[k]` that is picked (a list that begins with a display gives that
/// display); a list of windows only gives no display.
pub proof fn law_first_display_is_picked<D, W>(targets: Seq<CaptureTarget<D, W>>, k: nat)
    ensures
        (k < targets.len() && targets[k as int] is Display && forall|j: int|
            0 <= j < k ==> #[trigger] targets[j] is Window) ==> first_display(targets, 0) == k,
        (forall|j: int| 0 <= j < targets.len() ==> #[trigger] targets[j] is Window)
            ==> first_display(targets, 0) == targets.len(),
{
    if k < targets.len() && targets[k as int] is Display && forall|j: int|
        0 <= j < k ==> #[trigger] targets[j] is Window {
        lemma_first_display_at(targets, 0, k);
    }
    if forall|j: int| 0 <= j < targets.len() ==> #[trigger] targets[j] is Window {
        lemma_no_display_from(targets, 0);
    }
}

/// The first primary monitor at or after `i` is at `k` when `k` reports
/// itself primary and none in between does.
proof fn lemma_first_primary_at<M>(monitors: Seq<MonitorEntry<M>>, i: nat, k: nat)
    requires
        i <= k < monitors.len(),
        monitors[k as int].is_primary == Some(true),
        forall|j: int| i <= j < k ==> #[trigger] monitors[j].is_primary != Some(true),
    ensures
        first_primary(monitors, i) == k,
    decreases k - i,
{
    if i < k {
        lemma_first_primary_at(monitors, i + 1, k);
    }
}

/// With no monitor reporting itself primary at or after `i`, there is none
/// to pick.
proof fn lemma_no_primary_from<M>(monitors: Seq<MonitorEntry<M>>, i: nat)
    requires
        forall|j: int| i <= j < monitors.len() ==> #[trigger] monitors[j].is_primary != Some(true),
    ensures
        first_primary(monitors, i) == monitors.len(),
    decreases monitors.len() - i,
{
    if i < monitors.len() {
        lemma_no_primary_from(monitors, i + 1);
    }
}

/// Law: the monitor picked is the first that reports itself primary: when
/// `monitors[k]` does and none before it does, `monitors[k]` is picked
/// (the first of several, too); when none does, none is picked.
pub proof fn law_first_primary_is_picked<M>(monitors: Seq<MonitorEntry<M>>, k: nat)
    ensures
        (k < monitors.len() && monitors[k as int].is_primary == Some(true) && forall|j: int|
            0 <= j < k ==> #[trigger] monitors[j].is_primary != Some(true)) ==> first_primary(
            monitors,
            0,
        ) == k,
        (forall|j: int| 0 <= j < monitors.len() ==> #[trigger] monitors[j].is_primary != Some(true))
            ==> first_primary(monitors, 0) == monitors.len(),
{
    if k < monitors.len() && monitors[k as int].is_primary == Some(true) && forall|j: int|
        0 <= j < k ==> #[trigger] monitors[j].is_primary != Some(true) {
        lemma_first_primary_at(monitors, 0, k);
    }
    if forall|j: int| 0 <= j < monitors.len() ==> #[trigger] monitors[j].is_primary != Some(true) {
        lemma_no_primary_from(monitors, 0);
    }
}

/// Records the primary monitor.
pub struct XCapCapturer<M> {
    monitor: M,
}

impl<M> XCapCapturer<M> {
    /// The monitor recorded.
    pub closed spec fn spec_monitor(&self) -> M {
        self.monitor
    }

    /// The first monitor that reported itself as primary, if listing the
    /// monitors succeeded and there is one; a monitor for which asking failed
    /// counts as not primary.
    pub fn get_primary_monitor<E>(monitors: Result<Vec<MonitorEntry<M>>, E>) -> (r: Option<M>)
        ensures
            match monitors {
                Ok(ms) => {
                    let k = first_primary(ms@, 0);
                    if k < ms@.len() {
                        r == Some(ms@[k as int].monitor)
                    } else {
                        r is None
                    }
                },
                Err(_) => r is None,
            },
    {
        let mut list = match monitors {
            Ok(ms) => ms,
            Err(_) => {
                return None;
            },
        };
        let ghost all = list@;
        let mut i: usize = 0;
        while i < list.len()
            invariant
                list@ == all,
                monitors matches Ok(ms) && ms@ == all,
                0 <= i <= all.len(),
                first_primary(all, 0) == first_primary(all, i as nat),
            decreases all.len() - i,
        {
            let primary = match list[i].is_primary {
                Some(p) => p,
                None => false,
            };
            if primary {
                assert(all[i as int].is_primary == Some(true));
                assert(first_primary(all, i as nat) == i);
                let entry = list.swap_remove(i);
                return Some(entry.monitor);
            }
            i = i + 1;
        }
        None
    }

    /// A recorder of the primary monitor.
    pub fn new<E>(monitors: Result<Vec<MonitorEntry<M>>, E>) -> (r: Result<Self, VideoErrors>)
        ensures
            match monitors {
                Ok(ms) => {
                    let i = first_primary(ms@, 0);
                    if i < ms@.len() {
                        r matches Ok(c) && c.spec_monitor() == ms@[i as int].monitor
                    } else {
                        r == Err::<Self, VideoErrors>(VideoErrors::NoMonitorFound)
                    }
                },
                Err(_) => r == Err::<Self, VideoErrors>(VideoErrors::NoMonitorFound),
            },
    {
        match Self::get_primary_monitor(monitors) {
            Some(monitor) => Ok(XCapCapturer { monitor }),
            None => Err(VideoErrors::NoMonitorFound),
        }
    }

    /// The monitor recorded.
    pub fn monitor(&self) -> (m: &M)
        ensures
            *m == self.spec_monitor(),
    {
        &self.monitor
    }
}

/// The plane sizes of a frame converted to YUV 4:2:0: a luma byte per
/// pixel, and one byte of each chroma plane per 2x2 block.
#[derive(Debug, Clone, Copy, PartialEq, Eq, Structural)]
pub struct Yuv420Layout {
    pub width: usize,
    pub height: usize,
    pub y_size: usize,
    pub uv_size: usize,
}

/// Whether a `width` x `height` frame holding `len` bytes can be converted:
/// even dimensions, and 4 bytes for every pixel.
pub open spec fn convertible(width: int, height: int, len: int) -> bool {
    width % 2 == 0 && height % 2 == 0 && len >= width * height * 4
}

/// Law: a converted frame takes one and a half bytes per pixel: a luma
/// plane of one byte per pixel and two chroma planes of a quarter of that.
pub proof fn law_yuv420_takes_three_halves_per_pixel(width: nat, height: nat)
    requires
        width % 2 == 0,
        height % 2 == 0,
    ensures
        width * height + 2 * ((width / 2) * (height / 2)) == 3 * (width * height) / 2,
        (width / 2) * (height / 2) * 4 == width * height,
{
    let w2 = width / 2;
    let h2 = height / 2;
    assert(width == 2 * w2);
    assert(height == 2 * h2);
    assert(width * height == 4 * (w2 * h2)) by (nonlinear_arith)
        requires
            width == 2 * w2,
            height == 2 * h2,
    ;
}

/// Law: a frame with an odd width or height, or with fewer than four bytes
/// per pixel, is refused; any other frame is converted.
pub proof fn law_which_frames_convert(width: int, height: int, len: int)
    ensures
        width % 2 == 1 ==> !convertible(width, height, len),
        height % 2 == 1 ==> !convertible(width, height, len),
        len < width * height * 4 ==> !convertible(width, height, len),
        (width % 2 == 0 && height % 2 == 0 && len >= width * height * 4) ==> convertible(
            width,
            height,
            len,
        ),
{
}

impl Yuv420Layout {
    /// The whole converted buffer: the luma plane, then the two chroma planes.
    pub open spec fn spec_total(&self) -> int {
        self.y_size + 2 * self.uv_size
    }

    /// The layout of `frame` converted, or `CannotCapture` when its
    /// dimensions are odd or it holds too few bytes.
    pub fn for_frame(frame: &Frame) -> (r: Result<Yuv420Layout, VideoErrors>)
        requires
            frame.width * frame.height * 4 <= usize::MAX,
        ensures
            r is Ok <==> convertible(frame.width as int, frame.height as int, frame.data@.len() as int),
            r matches Ok(l) ==> {
                &&& l.width == frame.width
                &&& l.height == frame.height
                &&& l.y_size == frame.width * frame.height
                &&& l.uv_size == (frame.width / 2) * (frame.height / 2)
            },
            r matches Err(e) ==> e == VideoErrors::CannotCapture,
    {
        let width = frame.width as usize;
        let height = frame.height as usize;
        if width % 2 != 0 || height % 2 != 0 {
            return Err(VideoErrors::CannotCapture);
        }
        assert(width * height <= width * height * 4) by (nonlinear_arith);
        if frame.data.len() < width * height * 4 {
            return Err(VideoErrors::CannotCapture);
        }
        assert((width / 2) * (height / 2) <= width * height) by (nonlinear_arith);
        Ok(Yuv420Layout { width, height, y_size: width * height, uv_size: (width / 2) * (height / 2) })
    }

    /// The size of the converted buffer.
    pub fn total(&self) -> (n: usize)
        requires
            self.spec_total() <= usize::MAX,
        ensures
            n == self.spec_total(),
    {
        self.y_size + 2 * self.uv_size
    }
}

} // verus!
