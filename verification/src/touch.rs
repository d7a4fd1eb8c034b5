//! Multi-touch digitizer decoding: palm rejection, contact tracking, and
//! the tap and swipe gestures; two-finger frames are handed on with both
//! contacts' positions for the pinch measure.
use vstd::prelude::*;
use std::collections::BTreeMap;

verus! {

broadcast use {vstd::std_specs::btree::group_btree_axioms, vstd::laws_cmp::group_laws_cmp};

/// A digitizer contact.
#[derive(Debug, Clone, Copy, PartialEq, Eq, Structural)]
pub struct TouchPoint {
    pub id: u32,
    pub x: u32,
    pub y: u32,
    pub pressure: u16,
    pub major_axis: u16,
    pub is_palm: bool,
}

/// What a frame shows.
#[derive(Debug, Clone, Copy, PartialEq, Eq, Structural)]
pub enum FrameGesture {
    /// Nothing.
    NoGesture,
    /// A new single contact.
    Tap { x: u32, y: u32 },
    /// A single contact that moved more than 15 units on an axis.
    Swipe { dx: i32, dy: i32 },
    /// Two contacts both seen in the previous frame, in frame order, with
    /// their previous positions.
    TwoFinger { first: TouchPoint, second: TouchPoint, first_before: TouchPoint, second_before: TouchPoint },
}

/// Whether a contact is a palm: already marked, too large an area, or
/// pressed too hard.
pub open spec fn is_palm_contact(p: TouchPoint, threshold: u32) -> bool {
    p.is_palm || p.major_axis * p.major_axis > threshold || p.pressure > 950
}

/// The contacts of a frame that are not palms, in frame order.
pub open spec fn valid_contacts(points: Seq<TouchPoint>, threshold: u32) -> Seq<TouchPoint> {
    points.filter(|p: TouchPoint| !is_palm_contact(p, threshold))
}

/// The contact table after a frame: each valid contact by id, the last one
/// of an id winning.
pub open spec fn contact_table(valid: Seq<TouchPoint>) -> Map<u32, TouchPoint>
    decreases valid.len(),
{
    if valid.len() == 0 {
        Map::empty()
    } else {
        contact_table(valid.drop_last()).insert(valid.last().id, valid.last())
    }
}

/// The signed difference of two coordinates taken as `i32`.
pub open spec fn coord_diff(a: u32, b: u32) -> int {
    (a as i32) - (b as i32)
}

/// A coordinate difference that `i32` holds.
pub open spec fn diff_fits(a: u32, b: u32) -> bool {
    i32::MIN <= coord_diff(a, b) <= i32::MAX
}

/// The gesture of a frame with valid contacts `valid` against the previous
/// frame's table `prev`.
pub open spec fn frame_gesture(valid: Seq<TouchPoint>, prev: Map<u32, TouchPoint>) -> FrameGesture {
    if valid.len() == 1 {
        let pt = valid[0];
        if prev.contains_key(pt.id) {
            let dx = coord_diff(pt.x, prev[pt.id].x);
            let dy = coord_diff(pt.y, prev[pt.id].y);
            if dx > 15 || dx < -15 || dy > 15 || dy < -15 {
                FrameGesture::Swipe { dx: dx as i32, dy: dy as i32 }
            } else {
                FrameGesture::NoGesture
            }
        } else {
            FrameGesture::Tap { x: pt.x, y: pt.y }
        }
    } else if valid.len() == 2 && prev.contains_key(valid[0].id) && prev.contains_key(valid[1].id) {
        FrameGesture::TwoFinger {
            first: valid[0],
            second: valid[1],
            first_before: prev[valid[0].id],
            second_before: prev[valid[1].id],
        }
    } else {
        FrameGesture::NoGesture
    }
}

/// What `process_frame` needs: a single known contact's offsets fit `i32`,
/// the horizontal one has a magnitude, and so has the vertical one where
/// the horizontal one alone does not already make a swipe.
pub open spec fn frame_ok(valid: Seq<TouchPoint>, prev: Map<u32, TouchPoint>) -> bool {
    valid.len() == 1 && prev.contains_key(valid[0].id) ==> {
        let dx = coord_diff(valid[0].x, prev[valid[0].id].x);
        let dy = coord_diff(valid[0].y, prev[valid[0].id].y);
        &&& diff_fits(valid[0].x, prev[valid[0].id].x)
        &&& diff_fits(valid[0].y, prev[valid[0].id].y)
        &&& dx != i32::MIN
        &&& -15 <= dx <= 15 ==> dy != i32::MIN
    }
}

/// The contacts of a frame that are not palms, in frame order.
fn filter_valid(points: &Vec<TouchPoint>, threshold: u32) -> (valid: Vec<TouchPoint>)
    ensures
        valid@ == valid_contacts(points@, threshold),
{
    let ghost pred = |p: TouchPoint| !is_palm_contact(p, threshold);
    let mut valid: Vec<TouchPoint> = Vec::new();
    let mut i: usize = 0;
    while i < points.len()
        invariant
            0 <= i <= points@.len(),
            pred == (|p: TouchPoint| !is_palm_contact(p, threshold)),
            valid@ == points@.subrange(0, i as int).filter(pred),
        decreases points@.len() - i,
    {
        let mut pt = points[i];
        proof {
            points@.subrange(0, i as int).lemma_filter_push(points@[i as int], pred);
            assert(points@.subrange(0, i as int + 1) =~= points@.subrange(0, i as int).push(points@[i as int]));
        }
        let m = pt.major_axis as u32;
        assert(m * m <= 0xffff * 0xffff) by (nonlinear_arith)
            requires
                m <= 0xffff,
        ;
        let contact_area = m * m;
        if contact_area > threshold || pt.pressure > 950 {
            pt.is_palm = true;
        }
        if !pt.is_palm {
            valid.push(pt);
        }
        i = i + 1;
    }
    assert(points@.subrange(0, points@.len() as int) =~= points@);
    valid
}

/// Gesture engine.
pub struct GestureEngine {
    active_contacts: BTreeMap<u32, TouchPoint>,
    pub screen_width: u32,
    pub screen_height: u32,
    palm_threshold_area: u32,
}

impl GestureEngine {
    /// The contacts of the previous frame by id.
    pub closed spec fn contacts(&self) -> Map<u32, TouchPoint> {
        self.active_contacts@
    }

    /// The contact area above which a contact is a palm.
    pub closed spec fn palm_threshold(&self) -> u32 {
        self.palm_threshold_area
    }

    /// The screen size.
    pub closed spec fn screen(&self) -> (u32, u32) {
        (self.screen_width, self.screen_height)
    }

    /// An engine for a `width` by `height` screen with no contacts and a
    /// palm threshold of 1200.
    pub fn new(width: u32, height: u32) -> (e: Self)
        ensures
            e.contacts() == Map::<u32, TouchPoint>::empty(),
            e.palm_threshold() == 1200,
            e.screen() == (width, height),
    {
        GestureEngine { active_contacts: BTreeMap::new(), screen_width: width, screen_height: height, palm_threshold_area: 1200 }
    }

    /// Whether `process_frame` may take `points` (see `frame_ok`).
    pub fn frame_fits(&self, points: &Vec<TouchPoint>) -> (b: bool)
        ensures
            b == frame_ok(valid_contacts(points@, self.palm_threshold()), self.contacts()),
    {
        let valid = filter_valid(points, self.palm_threshold_area);
        if valid.len() != 1 {
            return true;
        }
        let pt = valid[0];
        match self.active_contacts.get(&pt.id) {
            Some(prev) => {
                let dx: i64 = (pt.x as i32) as i64 - (prev.x as i32) as i64;
                let dy: i64 = (pt.y as i32) as i64 - (prev.y as i32) as i64;
                dx > i32::MIN as i64 && dx <= i32::MAX as i64 && dy >= i32::MIN as i64 && dy <= i32::MAX as i64
                    && (dx < -15 || dx > 15 || dy != i32::MIN as i64)
            },
            None => true,
        }
    }

    /// Processes a frame: palms are dropped, the gesture is read against the
    /// previous frame, and the frame's contacts replace the table.
    pub fn process_frame(&mut self, points: Vec<TouchPoint>) -> (g: FrameGesture)
        requires
            frame_ok(valid_contacts(points@, old(self).palm_threshold()), old(self).contacts()),
        ensures
            g == frame_gesture(valid_contacts(points@, old(self).palm_threshold()), old(self).contacts()),
            final(self).contacts() == contact_table(valid_contacts(points@, old(self).palm_threshold())),
            final(self).palm_threshold() == old(self).palm_threshold(),
            final(self).screen() == old(self).screen(),
    {
        let threshold = self.palm_threshold_area;
        let valid = filter_valid(&points, threshold);
        let mut gesture = FrameGesture::NoGesture;
        if valid.len() == 1 {
            let pt = valid[0];
            match self.active_contacts.get(&pt.id) {
                Some(prev) => {
                    let dx = pt.x as i32 - prev.x as i32;
                    let dy = pt.y as i32 - prev.y as i32;
                    if dx > 15 || dx < -15 || dy > 15 || dy < -15 {
                        gesture = FrameGesture::Swipe { dx, dy };
                    }
                },
                None => {
                    gesture = FrameGesture::Tap { x: pt.x, y: pt.y };
                },
            }
        } else if valid.len() == 2 {
            let p1 = valid[0];
            let p2 = valid[1];
            match (self.active_contacts.get(&p1.id), self.active_contacts.get(&p2.id)) {
                (Some(prev1), Some(prev2)) => {
                    gesture = FrameGesture::TwoFinger {
                        first: p1,
                        second: p2,
                        first_before: *prev1,
                        second_before: *prev2,
                    };
                },
                _ => {},
            }
        }
        self.active_contacts.clear();
        let mut k: usize = 0;
        while k < valid.len()
            invariant
                0 <= k <= valid@.len(),
                self.active_contacts@ == contact_table(valid@.take(k as int)),
                self.palm_threshold_area == threshold,
                self.screen_width == old(self).screen_width,
                self.screen_height == old(self).screen_height,
            decreases valid@.len() - k,
        {
            let pt = valid[k];
            assert(valid@.take(k as int + 1).drop_last() =~= valid@.take(k as int));
            self.active_contacts.insert(pt.id, pt);
            k = k + 1;
        }
        assert(valid@.take(valid@.len() as int) =~= valid@);
        gesture
    }
}

/// A contact seen in the previous frame that did not move more than 15 units
/// on either axis makes no gesture: taps come only from new contacts.
pub proof fn lemma_still_contact_no_gesture(pt: TouchPoint, prev: Map<u32, TouchPoint>)
    requires
        prev.contains_key(pt.id),
        -15 <= coord_diff(pt.x, prev[pt.id].x) <= 15,
        -15 <= coord_diff(pt.y, prev[pt.id].y) <= 15,
    ensures
        frame_gesture(seq![pt], prev) == FrameGesture::NoGesture,
{
}

/// A single valid contact already seen in the previous frame is a swipe
/// exactly when it moved more than 15 units on either axis (the vertical
/// axis alone is enough), and the swipe carries both offsets; otherwise the
/// frame shows nothing. A single new contact is a tap where it lands.
pub proof fn lemma_single_contact_gesture(valid: Seq<TouchPoint>, prev: Map<u32, TouchPoint>)
    requires
        valid.len() == 1,
        frame_ok(valid, prev),
    ensures
        ({
            let p = valid[0];
            let dx: int = (p.x as i32) - (prev[p.id].x as i32);
            let dy: int = (p.y as i32) - (prev[p.id].y as i32);
            &&& prev.contains_key(p.id) && (dy > 15 || dy < -15) ==> frame_gesture(valid, prev)
                == FrameGesture::Swipe { dx: dx as i32, dy: dy as i32 }
            &&& prev.contains_key(p.id) && (dx > 15 || dx < -15) ==> frame_gesture(valid, prev)
                == FrameGesture::Swipe { dx: dx as i32, dy: dy as i32 }
            &&& prev.contains_key(p.id) && -15 <= dx <= 15 && -15 <= dy <= 15 ==> frame_gesture(valid, prev)
                == FrameGesture::NoGesture
            &&& !prev.contains_key(p.id) ==> frame_gesture(valid, prev) == FrameGesture::Tap { x: p.x, y: p.y }
        }),
{
}

/// Two valid contacts both seen in the previous frame are a two-finger
/// gesture carrying both contacts, in frame order, with their previous
/// positions; any other frame of more than one contact, or of none, shows
/// nothing.
pub proof fn lemma_multi_contact_gesture(valid: Seq<TouchPoint>, prev: Map<u32, TouchPoint>)
    requires
        valid.len() != 1,
    ensures
        valid.len() == 2 && prev.contains_key(valid[0].id) && prev.contains_key(valid[1].id) ==> frame_gesture(
            valid,
            prev,
        ) == (FrameGesture::TwoFinger {
            first: valid[0],
            second: valid[1],
            first_before: prev[valid[0].id],
            second_before: prev[valid[1].id],
        }),
        !(valid.len() == 2 && prev.contains_key(valid[0].id) && prev.contains_key(valid[1].id)) ==> frame_gesture(
            valid,
            prev,
        ) == FrameGesture::NoGesture,
{
}

} // verus!
