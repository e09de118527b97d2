//! The displays of the session and their bounding extent.

use vstd::prelude::*;

verus! {

/// One display, as the display-enumeration protocol reports it.
#[derive(Clone, Debug)]
pub struct Output {
    /// The protocol's handle of the display.
    pub id: u32,
    pub name: Option<String>,
    pub x: i32,
    pub y: i32,
    pub width: i32,
    pub height: i32,
}

/// A freshly announced display: no name, no geometry yet.
pub open spec fn fresh_output(id: u32) -> Output {
    Output { id, name: None, x: 0, y: 0, width: 0, height: 0 }
}

impl Output {
    pub fn new(id: u32) -> (r: Output)
        ensures
            r == fresh_output(id),
    {
        Output { id, name: None, x: 0, y: 0, width: 0, height: 0 }
    }
}

/// What the display-enumeration protocol says about one display.
#[derive(Debug)]
pub enum OutputEvent {
    Name(String),
    Geometry { x: i32, y: i32 },
    Mode { width: i32, height: i32 },
}

/// Right edge of one display.
pub open spec fn right_edge(o: Output) -> int {
    o.x + o.width
}

/// Bottom edge of one display.
pub open spec fn bottom_edge(o: Output) -> int {
    o.y + o.height
}

/// Horizontal extent of a list of displays: the largest right edge, and never below 0.
pub open spec fn extent_x(s: Seq<Output>) -> int
    decreases s.len(),
{
    if s.len() == 0 {
        0
    } else {
        let rest = extent_x(s.drop_last());
        if rest >= right_edge(s.last()) { rest } else { right_edge(s.last()) }
    }
}

/// Vertical extent of a list of displays: the largest bottom edge, and never below 0.
pub open spec fn extent_y(s: Seq<Output>) -> int
    decreases s.len(),
{
    if s.len() == 0 {
        0
    } else {
        let rest = extent_y(s.drop_last());
        if rest >= bottom_edge(s.last()) { rest } else { bottom_edge(s.last()) }
    }
}

/// The display `o` after `event`.
pub open spec fn output_after(o: Output, event: OutputEvent) -> Output {
    match event {
        OutputEvent::Name(n) => Output { name: Some(n), ..o },
        OutputEvent::Geometry { x, y } => Output { x, y, ..o },
        OutputEvent::Mode { width, height } => Output { width, height, ..o },
    }
}

/// The first position in `s` of the display with handle `id`, if there is one.
pub open spec fn position_of(s: Seq<Output>, id: u32) -> Option<int>
    decreases s.len(),
{
    if s.len() == 0 {
        None
    } else {
        match position_of(s.drop_last(), id) {
            Some(i) => Some(i),
            None => if s.last().id == id { Some(s.len() - 1) } else { None },
        }
    }
}

/// The displays of the session, in the order in which they were announced.
#[derive(Clone, Debug)]
pub struct Outputs {
    list: Vec<Output>,
}

impl View for Outputs {
    type V = Seq<Output>;

    closed spec fn view(&self) -> Seq<Output> {
        self.list@
    }
}

proof fn lemma_extent_bounds(s: Seq<Output>)
    ensures
        0 <= extent_x(s) <= 2 * (i32::MAX as int),
        0 <= extent_y(s) <= 2 * (i32::MAX as int),
    decreases s.len(),
{
    if s.len() > 0 {
        lemma_extent_bounds(s.drop_last());
    }
}

proof fn lemma_position_of(s: Seq<Output>, id: u32)
    ensures
        match position_of(s, id) {
            Some(i) => 0 <= i < s.len() && s[i].id == id && forall|j: int|
                0 <= j < i ==> #[trigger] s[j].id != id,
            None => forall|j: int| 0 <= j < s.len() ==> #[trigger] s[j].id != id,
        },
    decreases s.len(),
{
    if s.len() > 0 {
        lemma_position_of(s.drop_last(), id);
        assert forall|j: int| 0 <= j < s.len() - 1 implies s.drop_last()[j] == s[j] by {}
    }
}

impl Outputs {
    pub fn new() -> (r: Outputs)
        ensures
            r@ == Seq::<Output>::empty(),
    {
        Outputs { list: Vec::new() }
    }

    /// Registers a newly announced display, after those already known.
    pub fn add(&mut self, id: u32)
        ensures
            final(self)@ == old(self)@.push(fresh_output(id)),
    {
        self.list.push(Output::new(id));
    }

    pub fn len(&self) -> (r: usize)
        ensures
            r == self@.len(),
    {
        self.list.len()
    }

    /// Applies one protocol event to the first display with handle `id`; an event
    /// for an unknown display changes nothing.
    pub fn handle_event(&mut self, id: u32, event: OutputEvent)
        ensures
            match position_of(old(self)@, id) {
                Some(i) => final(self)@ == old(self)@.update(i, output_after(old(self)@[i], event)),
                None => final(self)@ == old(self)@,
            },
    {
        proof {
            lemma_position_of(self@, id);
        }
        let mut i: usize = 0;
        while i < self.list.len()
            invariant
                i <= self.list@.len(),
                self.list@ == old(self)@,
                forall|j: int| 0 <= j < i ==> #[trigger] self.list@[j].id != id,
                match position_of(old(self)@, id) {
                    Some(p) => 0 <= p < old(self)@.len() && old(self)@[p].id == id && forall|j: int|
                        0 <= j < p ==> #[trigger] old(self)@[j].id != id,
                    None => forall|j: int|
                        0 <= j < old(self)@.len() ==> #[trigger] old(self)@[j].id != id,
                },
            decreases self.list@.len() - i,
        {
            if self.list[i].id == id {
                let ghost before = self.list@;
                let mut o = self.list.remove(i);
                match event {
                    OutputEvent::Name(n) => {
                        o.name = Some(n);
                    },
                    OutputEvent::Geometry { x, y } => {
                        o.x = x;
                        o.y = y;
                    },
                    OutputEvent::Mode { width, height } => {
                        o.width = width;
                        o.height = height;
                    },
                }
                self.list.insert(i, o);
                assert(self.list@ =~= before.update(i as int, output_after(before[i as int], event)));
                return;
            }
            i = i + 1;
        }
    }

    /// The bounding extent of all displays: the largest right edge and the largest
    /// bottom edge, each at least 0. Absolute pointer positions are scaled against it.
    pub fn dimensions(&self) -> (r: (u32, u32))
        ensures
            r.0 == extent_x(self@),
            r.1 == extent_y(self@),
    {
        let mut w: i64 = 0;
        let mut h: i64 = 0;
        let mut i: usize = 0;
        while i < self.list.len()
            invariant
                i <= self.list@.len(),
                w == extent_x(self.list@.subrange(0, i as int)),
                h == extent_y(self.list@.subrange(0, i as int)),
            decreases self.list@.len() - i,
        {
            let ghost pre = self.list@.subrange(0, i as int);
            let ghost next = self.list@.subrange(0, i + 1);
            assert(next.drop_last() =~= pre);
            proof {
                lemma_extent_bounds(pre);
            }
            let o = &self.list[i];
            let right = o.x as i64 + o.width as i64;
            let bottom = o.y as i64 + o.height as i64;
            if right > w {
                w = right;
            }
            if bottom > h {
                h = bottom;
            }
            i = i + 1;
        }
        assert(self.list@.subrange(0, i as int) =~= self.list@);
        proof {
            lemma_extent_bounds(self.list@);
        }
        (w as u32, h as u32)
    }
}

/// Announcing one more display never shrinks the bounding extent.
pub proof fn lemma_add_never_shrinks(s: Seq<Output>, o: Output)
    ensures
        extent_x(s.push(o)) >= extent_x(s),
        extent_y(s.push(o)) >= extent_y(s),
{
    assert(s.push(o).drop_last() =~= s);
}

/// An event that leaves a display's position and size as they were leaves the
/// bounding extent as it was.
pub proof fn lemma_same_geometry_same_extent(s: Seq<Output>, i: int, o: Output)
    requires
        0 <= i < s.len(),
        o.x == s[i].x,
        o.y == s[i].y,
        o.width == s[i].width,
        o.height == s[i].height,
    ensures
        extent_x(s.update(i, o)) == extent_x(s),
        extent_y(s.update(i, o)) == extent_y(s),
    decreases s.len(),
{
    let t = s.update(i, o);
    if i == s.len() - 1 {
        assert(t.drop_last() =~= s.drop_last());
    } else {
        assert(t.drop_last() =~= s.drop_last().update(i, o));
        lemma_same_geometry_same_extent(s.drop_last(), i, o);
    }
}

} // verus!
