use vstd::prelude::*;

verus! {

/// The number of slots of the object attribute table.
pub const OAM_SLOTS: usize = 128;

/// The sprite component: `handle` names the sprite's tiles in video memory.
#[derive(Clone, Copy, Debug, PartialEq, Eq, Structural)]
pub struct Sprite {
    pub handle: usize,
    pub horizontal_flipped: bool,
    pub vertical_flipped: bool,
}

/// An entity to draw: its sprite and its world position, truncated toward zero.
#[derive(Clone, Copy, Debug, PartialEq, Eq, Structural)]
pub struct Renderable {
    pub sprite: Sprite,
    pub x: i32,
    pub y: i32,
}

/// An object descriptor as it stands in one slot of the table.
#[derive(Clone, Copy, Debug, PartialEq, Eq, Structural)]
pub struct ObjectAttributes {
    pub handle: usize,
    pub visible: bool,
    pub x: i32,
    pub y: i32,
    pub hflip: bool,
    pub vflip: bool,
}

/// The descriptor written for a renderable: shown, at its position, with its flips.
pub open spec fn object_of(r: Renderable) -> ObjectAttributes {
    ObjectAttributes {
        handle: r.sprite.handle,
        visible: true,
        x: r.x,
        y: r.y,
        hflip: r.sprite.horizontal_flipped,
        vflip: r.sprite.vertical_flipped,
    }
}

/// Builds the descriptor of a renderable.
pub fn make_object(r: &Renderable) -> (o: ObjectAttributes)
    ensures
        o == object_of(*r),
{
    ObjectAttributes {
        handle: r.sprite.handle,
        visible: true,
        x: r.x,
        y: r.y,
        hflip: r.sprite.horizontal_flipped,
        vflip: r.sprite.vertical_flipped,
    }
}

/// A single-pass cursor over the slots of one frame: it hands out each slot once, in
/// order, and then nothing.
pub struct OamCursor {
    pub index: usize,
}

impl OamCursor {
    /// A cursor at the first slot.
    pub fn new() -> (r: Self)
        ensures
            r.index == 0,
    {
        OamCursor { index: 0 }
    }

    /// The next free slot, or `None` once every slot has been handed out.
    pub fn next_slot(&mut self) -> (r: Option<usize>)
        requires
            old(self).index <= OAM_SLOTS,
        ensures
            old(self).index < OAM_SLOTS ==> r == Some(old(self).index) && final(self).index
                == old(self).index + 1,
            old(self).index == OAM_SLOTS ==> r is None && final(self).index == old(self).index,
    {
        if self.index == OAM_SLOTS {
            None
        } else {
            let i = self.index;
            self.index = i + 1;
            Some(i)
        }
    }
}

/// The object attribute table: a slot holds a shown object or is hidden (`None`).
/// `previous_written` is how many slots the last frame wrote; all later ones are hidden.
pub struct Oam {
    pub slots: Vec<Option<ObjectAttributes>>,
    pub previous_written: usize,
}

/// The table's content after a frame that drew `objects`, in order, from slot 0.
pub open spec fn frame_table(objects: Seq<ObjectAttributes>) -> Seq<Option<ObjectAttributes>> {
    Seq::new(
        OAM_SLOTS as nat,
        |i: int|
            if i < objects.len() {
                Some(objects[i])
            } else {
                None
            },
    )
}

/// How many of `n` renderables get a slot.
pub open spec fn slots_used(n: int) -> int {
    if n < OAM_SLOTS {
        n
    } else {
        OAM_SLOTS as int
    }
}

/// The table after a frame that drew `rs`: the first renderables, in order, as far as
/// the slots go; the rest of the table hidden.
pub open spec fn rendered_table(rs: Seq<Renderable>) -> Seq<Option<ObjectAttributes>> {
    frame_table(rs.take(slots_used(rs.len() as int)).map_values(|r: Renderable| object_of(r)))
}

/// With more renderables than slots, exactly the first `OAM_SLOTS` of them are written,
/// each to its own slot in order, and the others leave no trace in the table.
pub proof fn lemma_oam_truncation(rs: Seq<Renderable>)
    requires
        rs.len() > OAM_SLOTS,
    ensures
        rendered_table(rs).len() == OAM_SLOTS,
        forall|i: int| 0 <= i < OAM_SLOTS ==> #[trigger] rendered_table(rs)[i] == Some(object_of(rs[i])),
        rendered_table(rs) == rendered_table(rs.take(OAM_SLOTS as int)),
{
    assert(rs.take(OAM_SLOTS as int).take(OAM_SLOTS as int) =~= rs.take(OAM_SLOTS as int));
    assert(rendered_table(rs) =~= rendered_table(rs.take(OAM_SLOTS as int)));
}

impl Oam {
    pub open spec fn wf(&self) -> bool {
        &&& self.slots@.len() == OAM_SLOTS
        &&& self.previous_written <= OAM_SLOTS
        &&& forall|i: int|
            self.previous_written <= i < OAM_SLOTS ==> #[trigger] self.slots@[i] is None
    }

    /// A table with every slot hidden.
    pub fn new() -> (r: Self)
        ensures
            r.wf(),
            r.slots@ == frame_table(seq![]),
    {
        let mut slots: Vec<Option<ObjectAttributes>> = Vec::new();
        let mut i: usize = 0;
        while i < OAM_SLOTS
            invariant
                i <= OAM_SLOTS,
                slots@.len() == i,
                forall|k: int| 0 <= k < i ==> #[trigger] slots@[k] is None,
            decreases OAM_SLOTS - i,
        {
            slots.push(None);
            i += 1;
        }
        assert(slots@ =~= frame_table(seq![]));
        Oam { slots, previous_written: 0 }
    }

    /// Writes `obj` into slot `slot`.
    pub fn set(&mut self, slot: usize, obj: ObjectAttributes)
        requires
            slot < old(self).slots@.len(),
        ensures
            final(self).slots@ == old(self).slots@.update(slot as int, Some(obj)),
            final(self).previous_written == old(self).previous_written,
    {
        self.slots.set(slot, Some(obj));
    }

    /// Ends a frame that wrote `written` slots: hides the slots that the last frame wrote
    /// and this one did not.
    pub fn finish_frame(&mut self, written: usize)
        requires
            old(self).slots@.len() == OAM_SLOTS,
            old(self).previous_written <= OAM_SLOTS,
            written <= OAM_SLOTS,
            forall|k: int|
                written <= k < OAM_SLOTS && old(self).previous_written <= k
                    ==> #[trigger] old(self).slots@[k] is None,
        ensures
            final(self).wf(),
            final(self).previous_written == written,
            forall|i: int|
                0 <= i < OAM_SLOTS ==> #[trigger] final(self).slots@[i] == if i < written {
                    old(self).slots@[i]
                } else {
                    None
                },
    {
        let mut i: usize = written;
        while i < self.previous_written
            invariant
                self.slots@.len() == OAM_SLOTS,
                self.previous_written <= OAM_SLOTS,
                written <= i,
                i <= self.previous_written || i == written,
                forall|k: int|
                    0 <= k < OAM_SLOTS ==> #[trigger] self.slots@[k] == if written <= k < i {
                        None
                    } else {
                        old(self).slots@[k]
                    },
                self.previous_written == old(self).previous_written,
                forall|k: int|
                    written <= k < OAM_SLOTS && old(self).previous_written <= k
                        ==> #[trigger] old(self).slots@[k] is None,
            decreases self.previous_written - i,
        {
            self.slots.set(i, None);
            i += 1;
        }
        self.previous_written = written;
    }
}

/// Draws one frame: each renderable, in order, takes the next slot; once the slots run
/// out the rest are dropped for this frame. Slots not written this frame end up hidden.
/// Returns how many objects were written.
pub fn render_objects(oam: &mut Oam, renderables: &Vec<Renderable>) -> (written: usize)
    requires
        old(oam).wf(),
    ensures
        final(oam).wf(),
        written == slots_used(renderables@.len() as int),
        final(oam).slots@ == rendered_table(renderables@),
{
    let mut cursor = OamCursor::new();
    let mut i: usize = 0;
    while i < renderables.len()
        invariant
            old(oam).wf(),
            oam.slots@.len() == OAM_SLOTS,
            oam.previous_written == old(oam).previous_written,
            cursor.index == i,
            i <= OAM_SLOTS,
            i <= renderables@.len(),
            forall|k: int|
                0 <= k < OAM_SLOTS ==> #[trigger] oam.slots@[k] == if k < i {
                    Some(object_of(renderables@[k]))
                } else {
                    old(oam).slots@[k]
                },
        ensures
            i == renderables@.len() || i == OAM_SLOTS,
        decreases renderables@.len() - i,
    {
        let obj = make_object(&renderables[i]);
        match cursor.next_slot() {
            Some(slot) => {
                oam.set(slot, obj);
            },
            None => {
                break;
            },
        }
        i += 1;
    }
    let written = cursor.index;
    oam.finish_frame(written);
    let ghost objects = renderables@.take(written as int).map_values(|r: Renderable| object_of(r));
    assert(oam.slots@ =~= frame_table(objects));
    written
}

/// Draws renderables into the table each frame, after transforms are propagated.
#[derive(Clone, Copy, Debug, Default)]
pub struct AgbRenderPlugin;

} // verus!
