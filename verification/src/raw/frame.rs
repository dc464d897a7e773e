//! Frames: units of decoded data.

use vstd::prelude::*;
use core::marker::PhantomData;
use crate::tags::Video;
use crate::util::time::TimeBaseTicks;
use crate::util::traits::MediaMarker;

verus! {

/// How many data planes every frame has.
pub const NUM_DATA_PLANES: usize = 8;

/// The presentation time of a frame that has none.
pub const NO_PTS: u64 = 0x8000_0000_0000_0000;

/// The format number of a frame that holds no data.
pub const NO_FORMAT: i32 = -1;

/// One plane of data of a frame.
///
/// A video plane holds one line after the other, each `linesize` bytes long;
/// an audio plane holds the samples of one channel, or of all of them.
#[derive(Debug, Clone, PartialEq, Eq)]
pub struct Plane {
    /// The bytes of the plane.
    pub data: Vec<u8>,
    /// How many bytes make up one line.
    pub linesize: usize,
}

/// What a plane holds.
pub struct PlaneView {
    pub data: Seq<u8>,
    pub linesize: usize,
}

impl View for Plane {
    type V = PlaneView;

    open spec fn view(&self) -> PlaneView {
        PlaneView { data: self.data@, linesize: self.linesize }
    }
}

impl PlaneView {
    /// A plane without data.
    pub open spec fn empty() -> PlaneView {
        PlaneView { data: Seq::empty(), linesize: 0 }
    }
}

impl Plane {
    /// A plane without data.
    pub fn empty() -> (plane: Plane)
        ensures
            plane@ == PlaneView::empty(),
    {
        Plane { data: Vec::new(), linesize: 0 }
    }

    /// The bytes of the plane.
    pub fn bytes(&self) -> (data: &[u8])
        ensures
            data@ == self@.data,
    {
        self.data.as_slice()
    }
}

/// The decoded data that a native call put into a frame.
#[derive(Debug, Clone, PartialEq, Eq)]
pub struct FrameData {
    /// The planes, in their order. A frame keeps the first
    /// [`NUM_DATA_PLANES`] of them.
    pub planes: Vec<Plane>,
    /// The width of the picture; zero for audio.
    pub width: u32,
    /// The height of the picture; zero for audio.
    pub height: u32,
    /// The presentation time as the native layer writes it.
    pub pts: i64,
    /// The native number of the sample format or of the pixel format.
    pub format: i32,
}

/// What a frame holds.
pub struct FrameView {
    /// The planes, always [`NUM_DATA_PLANES`] of them.
    pub planes: Seq<PlaneView>,
    /// The width of the picture.
    pub width: u32,
    /// The height of the picture.
    pub height: u32,
    /// The presentation time in ticks.
    pub pts: u64,
    /// The native number of the format.
    pub format: i32,
}

impl FrameView {
    /// A frame as it is right after it was made: every plane is empty.
    pub open spec fn empty() -> FrameView {
        FrameView {
            planes: Seq::new(NUM_DATA_PLANES as nat, |i: int| PlaneView::empty()),
            width: 0,
            height: 0,
            pts: NO_PTS,
            format: NO_FORMAT,
        }
    }

    /// The frame after its data was dropped.
    pub open spec fn unref(self) -> FrameView {
        FrameView::empty()
    }

    /// The frame that holds the given data: its first planes, up to
    /// [`NUM_DATA_PLANES`], and empty planes after them.
    pub open spec fn holding(data: FrameData) -> FrameView {
        FrameView {
            planes: Seq::new(
                NUM_DATA_PLANES as nat,
                |i: int|
                    if i < data.planes@.len() {
                        data.planes@[i]@
                    } else {
                        PlaneView::empty()
                    },
            ),
            width: data.width,
            height: data.height,
            pts: TimeBaseTicks::spec_from_av_timestamp(data.pts),
            format: data.format,
        }
    }
}

/// Dropping the data of a frame a second time changes nothing.
pub proof fn lemma_unref_idempotent(frame: FrameView)
    ensures
        frame.unref().unref() == frame.unref(),
        frame.unref() == FrameView::empty(),
{
}

/// A frame of decoded data of the media type that `AV` stands for.
#[derive(Debug)]
pub struct Frame<AV: MediaMarker> {
    planes: Vec<Plane>,
    width: u32,
    height: u32,
    pts: u64,
    format: i32,
    _type: PhantomData<AV>,
}

impl<AV: MediaMarker> View for Frame<AV> {
    type V = FrameView;

    closed spec fn view(&self) -> FrameView {
        FrameView {
            planes: Seq::new(self.planes@.len(), |i: int| self.planes@[i]@),
            width: self.width,
            height: self.height,
            pts: self.pts,
            format: self.format,
        }
    }
}

/// As many empty planes as a frame has.
fn empty_planes() -> (planes: Vec<Plane>)
    ensures
        planes@.len() == NUM_DATA_PLANES,
        forall|i: int| 0 <= i < planes@.len() ==> (#[trigger] planes@[i])@ == PlaneView::empty(),
{
    let mut planes: Vec<Plane> = Vec::new();
    let mut i: usize = 0;
    while i < NUM_DATA_PLANES
        invariant
            i <= NUM_DATA_PLANES,
            planes@.len() == i,
            forall|j: int| 0 <= j < planes@.len() ==> (#[trigger] planes@[j])@ == PlaneView::empty(),
        decreases NUM_DATA_PLANES - i,
    {
        planes.push(Plane::empty());
        i += 1;
    }
    planes
}

impl<AV: MediaMarker> Frame<AV> {
    /// A frame always has all its planes.
    #[verifier::type_invariant]
    closed spec fn wf(self) -> bool {
        self.planes@.len() == NUM_DATA_PLANES
    }

    /// A frame that holds no data.
    pub fn new() -> (frame: Frame<AV>)
        ensures
            frame@ == FrameView::empty(),
    {
        let frame = Frame {
            planes: empty_planes(),
            width: 0,
            height: 0,
            pts: NO_PTS,
            format: NO_FORMAT,
            _type: PhantomData,
        };
        assert(frame@.planes =~= FrameView::empty().planes);
        frame
    }

    /// Drops the data that the frame holds. The frame is afterwards as if it
    /// had just been made, whatever it held, and can be used again.
    pub fn unref(&mut self)
        ensures
            final(self)@ == old(self)@.unref(),
            final(self)@ == FrameView::empty(),
    {
        let fresh: Frame<AV> = Frame::new();
        *self = fresh;
    }

    /// The data of the frame as the native layer takes it: a copy of the
    /// planes, the size, the presentation time and the format. A frame that
    /// stores this data holds what this frame holds.
    pub fn to_data(&self) -> (data: FrameData)
        ensures
            FrameView::holding(data) == self@,
            data.planes@.len() == NUM_DATA_PLANES,
            data.width == self@.width,
            data.height == self@.height,
            data.format == self@.format,
    {
        proof {
            use_type_invariant(self);
        }
        let mut planes: Vec<Plane> = Vec::new();
        let mut i: usize = 0;
        while i < NUM_DATA_PLANES
            invariant
                i <= NUM_DATA_PLANES,
                self.planes@.len() == NUM_DATA_PLANES,
                planes@.len() == i,
                forall|j: int| 0 <= j < i ==> (#[trigger] planes@[j])@ == self.planes@[j]@,
            decreases NUM_DATA_PLANES - i,
        {
            let plane = &self.planes[i];
            planes.push(Plane { data: plane.data.clone(), linesize: plane.linesize });
            i += 1;
        }
        let data = FrameData {
            planes,
            width: self.width,
            height: self.height,
            pts: TimeBaseTicks(self.pts).as_av_timestamp(),
            format: self.format,
        };
        assert(FrameView::holding(data).planes =~= self@.planes);
        data
    }

    /// Puts decoded data into the frame, in place of what it held.
    pub fn store(&mut self, data: FrameData)
        ensures
            final(self)@ == FrameView::holding(data),
    {
        let mut planes: Vec<Plane> = empty_planes();
        let mut given = data.planes;
        let ghost all = given@;
        if given.len() > NUM_DATA_PLANES {
            given.truncate(NUM_DATA_PLANES);
        }
        let ghost kept = given@;
        let count = given.len();
        let mut i: usize = count;
        while i > 0
            invariant
                i <= count <= NUM_DATA_PLANES,
                count == kept.len(),
                given@ == kept.take(i as int),
                planes@.len() == NUM_DATA_PLANES,
                forall|j: int| 0 <= j < i ==> (#[trigger] planes@[j])@ == PlaneView::empty(),
                forall|j: int| i <= j < count ==> (#[trigger] planes@[j]) == kept[j],
                forall|j: int|
                    count <= j < NUM_DATA_PLANES ==> (#[trigger] planes@[j])@ == PlaneView::empty(),
            decreases i,
        {
            i -= 1;
            let plane = given.pop().unwrap();
            assert(plane == kept[i as int]);
            planes.set(i, plane);
            assert(given@ =~= kept.take(i as int));
        }
        let frame: Frame<AV> = Frame {
            planes,
            width: data.width,
            height: data.height,
            pts: TimeBaseTicks::from_av_timestamp(data.pts).0,
            format: data.format,
            _type: PhantomData,
        };
        assert(frame@.planes =~= FrameView::holding(data).planes) by {
            assert(kept =~= all.take(if all.len() > NUM_DATA_PLANES {
                NUM_DATA_PLANES as int
            } else {
                all.len() as int
            }));
        }
        *self = frame;
    }

    /// The time at which the frame is to be presented, in ticks of the time
    /// base of its stream.
    pub fn get_pts(&self) -> (pts: TimeBaseTicks)
        ensures
            pts.0 == self@.pts,
    {
        TimeBaseTicks::new(self.pts)
    }

    /// The native number of the format of the data.
    pub fn format(&self) -> (format: i32)
        ensures
            format == self@.format,
    {
        self.format
    }

    /// Turns the frame into one of another media type. The data that it held
    /// would be misread under the new type, so it is dropped.
    pub fn as_other<T: MediaMarker>(self) -> (frame: Frame<T>)
        ensures
            frame@ == FrameView::empty(),
    {
        Frame::new()
    }

    /// One plane of the frame, for reading.
    pub fn plane(&self, plane: usize) -> (view: &Plane)
        requires
            plane < NUM_DATA_PLANES,
        ensures
            view@ == self@.planes[plane as int],
    {
        proof {
            use_type_invariant(self);
        }
        &self.planes[plane]
    }
}

impl Frame<Video> {
    /// The width of the picture.
    pub fn width(&self) -> (width: u32)
        ensures
            width == self@.width,
    {
        self.width
    }

    /// The height of the picture.
    pub fn height(&self) -> (height: u32)
        ensures
            height == self@.height,
    {
        self.height
    }
}

impl<AV: MediaMarker> Default for Frame<AV> {
    fn default() -> (frame: Frame<AV>)
        ensures
            frame@ == FrameView::empty(),
    {
        Frame::new()
    }
}

} // verus!
