use vstd::prelude::*;

use crate::layout::frame_len_spec;

verus! {

/// A frame of `len` bytes that are all zero: what a texture holds when it is created.
pub open spec fn zero_frame(len: nat) -> Seq<u8> {
    Seq::new(len, |i: int| 0u8)
}

/// The store after one update with frame `f`: `f` becomes current and the old
/// current becomes previous, whatever the bytes are.
pub open spec fn shifted(pair: (Seq<u8>, Seq<u8>), f: Seq<u8>) -> (Seq<u8>, Seq<u8>) {
    (f, pair.0)
}

/// The store after the updates `frames`, applied in order, starting from `pair`.
pub open spec fn after_updates(pair: (Seq<u8>, Seq<u8>), frames: Seq<Seq<u8>>) -> (Seq<u8>, Seq<u8>)
    decreases frames.len(),
{
    if frames.len() == 0 {
        pair
    } else {
        shifted(after_updates(pair, frames.drop_last()), frames.last())
    }
}

/// Why an update was refused.
#[derive(Debug, Clone, Copy, PartialEq, Eq, Structural)]
pub enum StoreError {
    /// The frame does not hold exactly width × height × 4 bytes.
    WrongLength { expected: usize, actual: usize },
}

/// The current and previous frame, as the two textures hold them.
pub struct DualTextureStore {
    width: u32,
    height: u32,
    frame_len: usize,
    current: Vec<u8>,
    previous: Vec<u8>,
}

impl DualTextureStore {
    /// Width of both textures, in pixels.
    pub closed spec fn width_spec(&self) -> nat {
        self.width as nat
    }

    /// Height of both textures, in pixels.
    pub closed spec fn height_spec(&self) -> nat {
        self.height as nat
    }

    /// Bytes of the current frame.
    pub closed spec fn current_spec(&self) -> Seq<u8> {
        self.current@
    }

    /// Bytes of the previous frame.
    pub closed spec fn previous_spec(&self) -> Seq<u8> {
        self.previous@
    }

    /// The pair (current, previous).
    pub open spec fn frames(&self) -> (Seq<u8>, Seq<u8>) {
        (self.current_spec(), self.previous_spec())
    }

    /// Length in bytes that every frame of this store has.
    pub open spec fn len_spec(&self) -> nat {
        frame_len_spec(self.width_spec(), self.height_spec())
    }

    /// Both textures have the size that the resolution gives.
    pub closed spec fn wf(&self) -> bool {
        &&& self.frame_len as nat == self.len_spec()
        &&& self.current@.len() == self.len_spec()
        &&& self.previous@.len() == self.len_spec()
    }

    /// A store for `width` × `height` frames, with both textures zero.
    pub fn new(width: u32, height: u32) -> (r: Self)
        requires
            frame_len_spec(width as nat, height as nat) <= usize::MAX,
        ensures
            r.wf(),
            r.width_spec() == width,
            r.height_spec() == height,
            r.current_spec() == zero_frame(r.len_spec()),
            r.previous_spec() == zero_frame(r.len_spec()),
    {
        assert(width as nat * height as nat * 4 == (width as nat * height as nat) * 4);
        let frame_len: usize = (width as usize) * (height as usize) * 4;
        let current: Vec<u8> = vec![0u8; frame_len];
        let previous: Vec<u8> = vec![0u8; frame_len];
        let r = DualTextureStore { width, height, frame_len, current, previous };
        assert(r.current@ =~= zero_frame(r.len_spec()));
        assert(r.previous@ =~= zero_frame(r.len_spec()));
        r
    }

    /// Width of both textures, in pixels.
    pub fn width(&self) -> (r: u32)
        ensures
            r == self.width_spec(),
    {
        self.width
    }

    /// Height of both textures, in pixels.
    pub fn height(&self) -> (r: u32)
        ensures
            r == self.height_spec(),
    {
        self.height
    }

    /// Length in bytes of every frame of this store.
    pub fn frame_len(&self) -> (r: usize)
        requires
            self.wf(),
        ensures
            r == self.len_spec(),
    {
        self.frame_len
    }

    /// Bytes of the current frame, to upload to the current texture.
    pub fn current(&self) -> (r: &[u8])
        ensures
            r@ == self.current_spec(),
            self.wf() ==> r@.len() == self.len_spec(),
    {
        self.current.as_slice()
    }

    /// Bytes of the previous frame, to upload to the previous texture.
    pub fn previous(&self) -> (r: &[u8])
        ensures
            r@ == self.previous_spec(),
            self.wf() ==> r@.len() == self.len_spec(),
    {
        self.previous.as_slice()
    }

    /// Pushes `frame` into current and the old current into previous.
    /// A frame of the wrong length is refused and nothing changes.
    pub fn update(&mut self, frame: &[u8]) -> (r: Result<(), StoreError>)
        requires
            old(self).wf(),
        ensures
            final(self).wf(),
            final(self).width_spec() == old(self).width_spec(),
            final(self).height_spec() == old(self).height_spec(),
            frame@.len() == old(self).len_spec() ==> {
                &&& r is Ok
                &&& final(self).frames() == shifted(old(self).frames(), frame@)
            },
            frame@.len() != old(self).len_spec() ==> {
                &&& r == Err::<(), StoreError>(
                    StoreError::WrongLength {
                        expected: old(self).len_spec() as usize,
                        actual: frame@.len() as usize,
                    },
                )
                &&& *final(self) == *old(self)
            },
    {
        if frame.len() != self.frame_len {
            return Err(StoreError::WrongLength { expected: self.frame_len, actual: frame.len() });
        }
        std::mem::swap(&mut self.current, &mut self.previous);
        self.current.clear();
        let mut i: usize = 0;
        while i < frame.len()
            invariant
                0 <= i <= frame@.len(),
                self.current@ == frame@.subrange(0, i as int),
                self.width == old(self).width,
                self.height == old(self).height,
                self.frame_len == old(self).frame_len,
                self.previous@ == old(self).current@,
            decreases frame@.len() - i,
        {
            self.current.push(frame[i]);
            i = i + 1;
        }
        assert(self.current@ =~= frame@);
        Ok(())
    }
}

/// After updates with F1..Fk, current is Fk; previous is F(k-1), or the zero
/// frame the store was created with when k is 1.
pub proof fn lemma_one_generation_lag(len: nat, frames: Seq<Seq<u8>>)
    requires
        frames.len() >= 1,
    ensures
        after_updates((zero_frame(len), zero_frame(len)), frames).0 == frames.last(),
        frames.len() == 1 ==> after_updates((zero_frame(len), zero_frame(len)), frames).1
            == zero_frame(len),
        frames.len() >= 2 ==> after_updates((zero_frame(len), zero_frame(len)), frames).1
            == frames[frames.len() - 2],
{
    let start = (zero_frame(len), zero_frame(len));
    let init = frames.drop_last();
    if frames.len() == 1 {
        assert(init.len() == 0);
        assert(after_updates(start, init) == start);
    } else {
        assert(after_updates(start, init).0 == init.last());
        assert(init.last() == frames[frames.len() - 2]);
    }
}

/// The shift does not look at the bytes: in a well-formed store the current
/// frame has the length an update accepts, and updating with a frame equal
/// to it still moves the old current into previous.
pub proof fn lemma_identical_frame_still_shifts(s: DualTextureStore)
    requires
        s.wf(),
    ensures
        s.current_spec().len() == s.len_spec(),
        s.previous_spec().len() == s.len_spec(),
        shifted(s.frames(), s.current_spec()) == (s.current_spec(), s.current_spec()),
{
}

} // verus!
