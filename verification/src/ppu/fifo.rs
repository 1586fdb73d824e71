//! The pixel queues and the state of the tile fetcher.
use vstd::prelude::*;
use fixed_vec_deque::FixedVecDeque;

verus! {

/// Number of pixels that a queue holds at most.
pub const FIFO_CAPACITY: usize = 16;

/// The steps of the tile fetcher.
#[derive(Copy, Clone, PartialEq, Eq, Structural, Debug)]
pub enum FetchState {
    TileNum,
    DataLow,
    DataHigh,
    Sleep,
    Push,
}

/// A ring buffer of sixteen pixel entries; an entry is a colour and two flags.
#[verifier::external_body]
pub struct PixelQueue {
    inner: FixedVecDeque<[(u8, bool, bool); 16]>,
}

/// The entries that a queue holds, oldest first.
pub uninterp spec fn queue_items(q: PixelQueue) -> Seq<(u8, bool, bool)>;

/// `FixedVecDeque::new`: the new queue holds nothing.
#[verifier::external_body]
fn queue_new() -> (q: PixelQueue)
    ensures
        queue_items(q) == Seq::<(u8, bool, bool)>::empty(),
{
    PixelQueue { inner: FixedVecDeque::new() }
}

/// `FixedVecDeque::len`: the number of entries held.
#[verifier::external_body]
fn queue_len(q: &PixelQueue) -> (n: usize)
    ensures
        n == queue_items(*q).len(),
{
    q.inner.len()
}

/// `FixedVecDeque::push_back`, with `item` written to the slot it hands out:
/// `item` becomes the newest entry; a queue that already holds sixteen
/// entries loses its oldest one.
#[verifier::external_body]
fn queue_push_back(q: &mut PixelQueue, item: (u8, bool, bool))
    ensures
        queue_items(*final(q)) == if queue_items(*old(q)).len() < 16 {
            queue_items(*old(q)).push(item)
        } else {
            queue_items(*old(q)).drop_first().push(item)
        },
{
    *q.inner.push_back() = item;
}

/// `FixedVecDeque::pop_front`: the oldest entry leaves the queue and is
/// returned; an empty queue gives nothing and stays empty.
#[verifier::external_body]
fn queue_pop_front(q: &mut PixelQueue) -> (r: Option<(u8, bool, bool)>)
    ensures
        match r {
            Some(item) => queue_items(*old(q)).len() > 0 && item == queue_items(*old(q))[0]
                && queue_items(*final(q)) == queue_items(*old(q)).drop_first(),
            None => queue_items(*old(q)).len() == 0 && queue_items(*final(q)) == queue_items(
                *old(q),
            ),
        },
{
    match q.inner.pop_front() {
        Some(item) => Some(*item),
        None => None,
    }
}

/// The entries of a queue after one more has been pushed.
pub open spec fn pushed(items: Seq<(u8, bool, bool)>, item: (u8, bool, bool)) -> Seq<
    (u8, bool, bool),
> {
    if items.len() < FIFO_CAPACITY {
        items.push(item)
    } else {
        items.drop_first().push(item)
    }
}

/// A pixel of the background queue.
#[derive(Default, Copy, Clone)]
pub struct BgFifoPixel {
    color: u8,
    bg_priority: bool,
}

impl View for BgFifoPixel {
    type V = (u8, bool);

    closed spec fn view(&self) -> (u8, bool) {
        (self.color, self.bg_priority)
    }
}

impl BgFifoPixel {
    pub fn get_color(&self) -> (r: u8)
        ensures
            r == self@.0,
    {
        self.color
    }

    pub fn bg_priority(&self) -> (r: bool)
        ensures
            r == self@.1,
    {
        self.bg_priority
    }
}

/// The queue of background pixels. Its model is the sequence of its entries,
/// oldest first; the third component of an entry is not used.
pub struct BgFifo {
    pixels: PixelQueue,
}

impl View for BgFifo {
    type V = Seq<(u8, bool, bool)>;

    closed spec fn view(&self) -> Seq<(u8, bool, bool)> {
        queue_items(self.pixels)
    }
}

impl Default for BgFifo {
    fn default() -> (r: Self)
        ensures
            r@ == Seq::<(u8, bool, bool)>::empty(),
    {
        BgFifo { pixels: queue_new() }
    }
}

impl BgFifo {
    /// Appends a pixel; a queue that is full loses its oldest pixel.
    pub fn push(&mut self, color: u8, bg_priority: bool)
        ensures
            final(self)@ == pushed(old(self)@, (color, bg_priority, false)),
    {
        queue_push_back(&mut self.pixels, (color, bg_priority, false));
    }

    /// Removes the oldest pixel and returns it.
    pub fn pop(&mut self) -> (r: BgFifoPixel)
        requires
            old(self)@.len() > 0,
        ensures
            r@ == (old(self)@[0].0, old(self)@[0].1),
            final(self)@ == old(self)@.drop_first(),
    {
        match queue_pop_front(&mut self.pixels) {
            Some(item) => BgFifoPixel { color: item.0, bg_priority: item.1 },
            None => vstd::pervasive::unreached(),
        }
    }

    pub fn length(&self) -> (r: usize)
        ensures
            r == self@.len(),
    {
        queue_len(&self.pixels)
    }
}

/// A pixel of the sprite queue.
#[derive(Default, Copy, Clone)]
pub struct SpFifoPixel {
    color: u8,
    bg_priority: bool,
    palette: bool,
}

impl View for SpFifoPixel {
    type V = (u8, bool, bool);

    closed spec fn view(&self) -> (u8, bool, bool) {
        (self.color, self.bg_priority, self.palette)
    }
}

impl SpFifoPixel {
    pub fn get_color(&self) -> (r: u8)
        ensures
            r == self@.0,
    {
        self.color
    }

    pub fn get_palette(&self) -> (r: bool)
        ensures
            r == self@.2,
    {
        self.palette
    }
}

/// The queue of sprite pixels. Its model is the sequence of its entries,
/// oldest first.
pub struct SpFifo {
    pixels: PixelQueue,
}

impl View for SpFifo {
    type V = Seq<(u8, bool, bool)>;

    closed spec fn view(&self) -> Seq<(u8, bool, bool)> {
        queue_items(self.pixels)
    }
}

impl Default for SpFifo {
    fn default() -> (r: Self)
        ensures
            r@ == Seq::<(u8, bool, bool)>::empty(),
    {
        SpFifo { pixels: queue_new() }
    }
}

impl SpFifo {
    /// Appends a pixel; a queue that is full loses its oldest pixel.
    pub fn push(&mut self, color: u8, bg_priority: bool, palette: bool)
        ensures
            final(self)@ == pushed(old(self)@, (color, bg_priority, palette)),
    {
        queue_push_back(&mut self.pixels, (color, bg_priority, palette));
    }

    /// Removes the oldest pixel and returns it.
    pub fn pop(&mut self) -> (r: SpFifoPixel)
        requires
            old(self)@.len() > 0,
        ensures
            r@ == old(self)@[0],
            final(self)@ == old(self)@.drop_first(),
    {
        match queue_pop_front(&mut self.pixels) {
            Some(item) => SpFifoPixel { color: item.0, bg_priority: item.1, palette: item.2 },
            None => vstd::pervasive::unreached(),
        }
    }

    pub fn length(&self) -> (r: usize)
        ensures
            r == self@.len(),
    {
        queue_len(&self.pixels)
    }
}

/// The queues and the registers of the tile fetcher.
pub struct PixelFifo {
    pub(super) bgfifo: BgFifo,
    pub(super) spfifo: SpFifo,
    pub(super) current_state: FetchState,
    /// Pixels taken from the queue on this line.
    pub(super) line_x: u8,
    /// Pixels written to the picture on this line.
    pub(super) push_x: u8,
    /// Column of the tile that is fetched next.
    pub(super) fetch_x: u8,
    /// The fetched tile number and its two rows of bits.
    pub(super) bgw_fetch_data: [u8; 3],
    /// Two rows of bits for each of up to three sprites.
    pub(super) fetch_sprite_data: [u8; 6],
    pub(super) sprite_count: u8,
    pub(super) map_x: u8,
    pub(super) map_y: u8,
    pub(super) tile_x: u8,
    pub(super) tile_y: u8,
    /// Pixels pushed into the queue on this line.
    pub(super) fifo_x: u8,
}

/// The mathematical model of the queues and the registers of the fetcher.
pub ghost struct PixelFifoState {
    pub bgfifo: Seq<(u8, bool, bool)>,
    pub spfifo: Seq<(u8, bool, bool)>,
    pub current_state: FetchState,
    pub line_x: u8,
    pub push_x: u8,
    pub fetch_x: u8,
    pub bgw_fetch_data: Seq<u8>,
    pub fetch_sprite_data: Seq<u8>,
    pub sprite_count: u8,
    pub map_x: u8,
    pub map_y: u8,
    pub tile_x: u8,
    pub tile_y: u8,
    pub fifo_x: u8,
}

impl PixelFifoState {
    /// Empty queues, the fetcher at its first step, every register zero.
    pub open spec fn empty() -> PixelFifoState {
        PixelFifoState {
            bgfifo: Seq::empty(),
            spfifo: Seq::empty(),
            current_state: FetchState::TileNum,
            line_x: 0,
            push_x: 0,
            fetch_x: 0,
            bgw_fetch_data: seq![0u8, 0u8, 0u8],
            fetch_sprite_data: seq![0u8, 0u8, 0u8, 0u8, 0u8, 0u8],
            sprite_count: 0,
            map_x: 0,
            map_y: 0,
            tile_x: 0,
            tile_y: 0,
            fifo_x: 0,
        }
    }
}

impl View for PixelFifo {
    type V = PixelFifoState;

    closed spec fn view(&self) -> PixelFifoState {
        PixelFifoState {
            bgfifo: self.bgfifo@,
            spfifo: self.spfifo@,
            current_state: self.current_state,
            line_x: self.line_x,
            push_x: self.push_x,
            fetch_x: self.fetch_x,
            bgw_fetch_data: self.bgw_fetch_data@,
            fetch_sprite_data: self.fetch_sprite_data@,
            sprite_count: self.sprite_count,
            map_x: self.map_x,
            map_y: self.map_y,
            tile_x: self.tile_x,
            tile_y: self.tile_y,
            fifo_x: self.fifo_x,
        }
    }
}

impl Default for PixelFifo {
    fn default() -> (r: Self)
        ensures
            r@ == PixelFifoState::empty(),
    {
        let fresh = PixelFifo::fresh();
        proof {
            assert(fresh@.bgfifo =~= Seq::<(u8, bool, bool)>::empty());
            assert(fresh@.spfifo =~= Seq::<(u8, bool, bool)>::empty());
        }
        fresh
    }
}

impl PixelFifo {
    /// Empty queues, the fetcher at its first step, every register zero.
    pub(super) fn fresh() -> (r: Self)
        ensures
            r.bgfifo@.len() == 0,
            r.spfifo@.len() == 0,
            r.current_state == FetchState::TileNum,
            r.line_x == 0,
            r.push_x == 0,
            r.fetch_x == 0,
            r.bgw_fetch_data@ == seq![0u8, 0u8, 0u8],
            r.fetch_sprite_data@ == seq![0u8, 0u8, 0u8, 0u8, 0u8, 0u8],
            r.sprite_count == 0,
            r.map_x == 0,
            r.map_y == 0,
            r.tile_x == 0,
            r.tile_y == 0,
            r.fifo_x == 0,
    {
        let r = PixelFifo {
            bgfifo: BgFifo::default(),
            spfifo: SpFifo::default(),
            current_state: FetchState::TileNum,
            line_x: 0,
            push_x: 0,
            fetch_x: 0,
            bgw_fetch_data: [0;3],
            fetch_sprite_data: [0;6],
            sprite_count: 0,
            map_x: 0,
            map_y: 0,
            tile_x: 0,
            tile_y: 0,
            fifo_x: 0,
        };
        proof {
            assert(r.bgw_fetch_data@ =~= seq![0u8, 0u8, 0u8]);
            assert(r.fetch_sprite_data@ =~= seq![0u8, 0u8, 0u8, 0u8, 0u8, 0u8]);
        }
        r
    }
}

} // verus!
