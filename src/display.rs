use vstd::prelude::*;

verus! {

/// Active width of the panel, in pixels.
pub const SCREEN_WIDTH: usize = 1024;
/// Active height of the panel, in pixels.
pub const SCREEN_HEIGHT: usize = 768;
/// Bytes per pixel of the RGB565 frame buffers.
pub const BYTES_PER_PIXEL: usize = 2;
/// Pixel clock, in kHz.
pub const PIXEL_CLOCK_KHZ: u32 = 57800;
/// Horizontal back porch, in pixel clocks.
pub const H_BACK_PORCH: u16 = 80;
/// Horizontal front porch, in pixel clocks.
pub const H_FRONT_PORCH: u16 = 24;
/// Horizontal sync length, in pixel clocks.
pub const H_SYNC_LEN: u16 = 68;
/// Horizontal sync polarity: `false` is active low.
pub const H_SYNC_POL: bool = false;
/// Vertical back porch, in lines.
pub const V_BACK_PORCH: u16 = 29;
/// Vertical front porch, in lines.
pub const V_FRONT_PORCH: u16 = 3;
/// Vertical sync length, in lines.
pub const V_SYNC_LEN: u16 = 6;
/// Vertical sync polarity: `false` is active low.
pub const V_SYNC_POL: bool = false;
/// Size of one frame buffer, in bytes.
pub const FRAME_BUFFER_SIZE: usize = SCREEN_WIDTH * SCREEN_HEIGHT * BYTES_PER_PIXEL;
/// Size of the region that holds both frame buffers, in bytes.
pub const FRAME_BUFFER_ALLOC_SIZE: usize = FRAME_BUFFER_SIZE * 2;
/// Frame rate of the display, in frames per second.
pub const FRAME_RATE: u32 = 30;

/// Where the two frame buffers and the memory after them lie in the
/// region set aside for the display.
#[derive(Clone, Copy, Debug, PartialEq, Eq, Structural)]
pub struct FrameRegion {
    /// Start of the first frame buffer.
    pub first: usize,
    /// Start of the second frame buffer.
    pub second: usize,
    /// First byte after both frame buffers.
    pub rest: usize,
}

/// Lay out the two frame buffers at the start of a region of `len` bytes
/// at `base`. `None` when the region cannot hold both, or would end past
/// the address space.
pub fn split_frame_region(base: usize, len: usize) -> (r: Option<FrameRegion>)
    ensures
        r is Some <==> len >= FRAME_BUFFER_ALLOC_SIZE && base + len <= usize::MAX,
        r is Some ==> r == Some(
            FrameRegion {
                first: base,
                second: (base + FRAME_BUFFER_SIZE) as usize,
                rest: (base + FRAME_BUFFER_ALLOC_SIZE) as usize,
            },
        ),
{
    if len < FRAME_BUFFER_ALLOC_SIZE || len > usize::MAX - base {
        return None;
    }
    Some(
        FrameRegion {
            first: base,
            second: base + FRAME_BUFFER_SIZE,
            rest: base + FRAME_BUFFER_ALLOC_SIZE,
        },
    )
}

/// One swap request from the frame timer: while the hardware still has a
/// swap pending nothing changes, else front and back change places.
pub open spec fn swap_step(roles: (usize, usize), swap_pending: bool) -> (usize, usize) {
    if swap_pending {
        roles
    } else {
        (roles.1, roles.0)
    }
}

/// The front and back buffers after one swap request per flag of
/// `pending`, in order.
pub open spec fn swap_run(roles: (usize, usize), pending: Seq<bool>) -> (usize, usize)
    decreases pending.len(),
{
    if pending.len() == 0 {
        roles
    } else {
        swap_step(swap_run(roles, pending.drop_last()), pending.last())
    }
}

/// How many of the requests in `pending` exchange the buffers: those that
/// find no swap pending.
pub open spec fn flip_count(pending: Seq<bool>) -> nat
    decreases pending.len(),
{
    if pending.len() == 0 {
        0
    } else {
        flip_count(pending.drop_last()) + if pending.last() {
            0nat
        } else {
            1nat
        }
    }
}

/// Front and back after `k` exchanges from `roles`.
pub open spec fn alternate(roles: (usize, usize), k: nat) -> (usize, usize) {
    if k % 2 == 0 {
        roles
    } else {
        (roles.1, roles.0)
    }
}

/// The frame-swap controller: which of the two frame buffers the display
/// scans out (the front) and which is free for drawing (the back).
pub struct Gpu {
    front: usize,
    back: usize,
}

impl Gpu {
    #[verifier::type_invariant]
    spec fn roles_distinct(self) -> bool {
        self.front != self.back
    }

    /// The front and the back buffer, in that order.
    pub closed spec fn view(&self) -> (usize, usize) {
        (self.front, self.back)
    }

    /// A controller that shows `front` and leaves `back` for drawing.
    pub fn new(front: usize, back: usize) -> (r: Gpu)
        requires
            front != back,
        ensures
            r.view() == (front, back),
    {
        Gpu { front, back }
    }

    /// The buffer the display scans out.
    pub fn front_buffer(&self) -> (r: usize)
        ensures
            r == self.view().0,
    {
        self.front
    }

    /// The buffer free for drawing.
    pub fn back_buffer(&self) -> (r: usize)
        ensures
            r == self.view().1,
            r != self.view().0,
    {
        proof {
            use_type_invariant(self);
        }
        self.back
    }

    /// Handle one tick of the frame timer. `swap_pending` is the display
    /// layer's report that the previous swap has not been taken yet: then
    /// nothing changes and `None` comes back. Otherwise front and back change
    /// places and the new front buffer is returned, to be handed to the
    /// display layer.
    pub fn swap(&mut self, swap_pending: bool) -> (r: Option<usize>)
        ensures
            final(self).view() == swap_step(old(self).view(), swap_pending),
            final(self).view().0 != final(self).view().1,
            swap_pending ==> r is None,
            !swap_pending ==> r == Some(final(self).view().0),
    {
        proof {
            use_type_invariant(&*self);
        }
        if swap_pending {
            return None;
        }
        let front = self.back;
        *self = Gpu { front, back: self.front };
        Some(front)
    }
}

/// Repeated swap requests: when the hardware has taken every earlier swap
/// before each request, every request exchanges the buffers, so after the
/// `k`-th one front and back have alternated `k` times; when a swap stays
/// pending throughout, no request changes anything.
pub proof fn lemma_swap_alternation(roles: (usize, usize), pending: Seq<bool>)
    ensures
        (forall|i: int| 0 <= i < pending.len() ==> !pending[i]) ==> {
            &&& flip_count(pending) == pending.len()
            &&& forall|k: nat|
                k <= pending.len() ==> #[trigger] swap_run(roles, pending.take(k as int))
                    == alternate(roles, k)
        },
        (forall|i: int| 0 <= i < pending.len() ==> pending[i]) ==> {
            &&& flip_count(pending) == 0
            &&& swap_run(roles, pending) == roles
        },
    decreases pending.len(),
{
    if pending.len() > 0 {
        let rest = pending.drop_last();
        lemma_swap_alternation(roles, rest);
        if forall|i: int| 0 <= i < pending.len() ==> !pending[i] {
            assert(forall|i: int| 0 <= i < rest.len() ==> !rest[i]) by {
                assert forall|i: int| 0 <= i < rest.len() implies !rest[i] by {
                    assert(rest[i] == pending[i]);
                }
            }
            assert forall|k: nat| k <= pending.len() implies #[trigger] swap_run(
                roles,
                pending.take(k as int),
            ) == alternate(roles, k) by {
                if k < pending.len() {
                    assert(pending.take(k as int) =~= rest.take(k as int));
                } else {
                    let n = rest.len() as nat;
                    assert(pending.take(k as int) =~= pending);
                    assert(rest.take(n as int) =~= rest);
                    assert(swap_run(roles, rest.take(n as int)) == alternate(roles, n));
                    assert(!pending.last());
                    assert(swap_run(roles, pending) == swap_step(swap_run(roles, rest), false));
                    assert(k == n + 1);
                }
            }
        }
        if forall|i: int| 0 <= i < pending.len() ==> pending[i] {
            assert(forall|i: int| 0 <= i < rest.len() ==> rest[i]) by {
                assert forall|i: int| 0 <= i < rest.len() implies rest[i] by {
                    assert(rest[i] == pending[i]);
                }
            }
            assert(pending.last());
        }
    }
}

} // verus!
