//! Multipart message frames for the request/reply transport: a list of
//! byte frames with the envelope-splitting rule of the reply socket. The
//! sockets themselves live outside the library; this is the data they
//! carry.
use vstd::prelude::*;

verus! {

/// Refused construction of a message with no frames.
#[derive(Debug)]
pub struct ZmqEmptyMessageError;

impl ZmqEmptyMessageError {
    /// Returns the human-readable description of this error.
    pub fn describe(&self) -> (s: String)
        ensures
            s@ == "Unable to construct an empty ZmqMessage"@,
    {
        "Unable to construct an empty ZmqMessage".to_owned()
    }
}

/// Copies one byte frame.
fn clone_frame(f: &Vec<u8>) -> (r: Vec<u8>)
    ensures
        r@ == f@,
{
    let mut r: Vec<u8> = Vec::new();
    let mut i: usize = 0;
    while i < f.len()
        invariant
            i <= f.len(),
            r@ == f@.subrange(0, i as int),
        decreases f.len() - i,
    {
        r.push(f[i]);
        proof {
            assert(r@ =~= f@.subrange(0, i + 1));
        }
        i = i + 1;
    }
    proof {
        assert(r@ =~= f@);
    }
    r
}

/// The first index of an empty frame in `fs`, or `-1` if every frame holds
/// at least one byte.
pub open spec fn first_empty_frame(fs: Seq<Seq<u8>>) -> int
    decreases fs.len(),
{
    if fs.len() == 0 {
        -1
    } else if fs[0].len() == 0 {
        0
    } else {
        let r = first_empty_frame(fs.drop_first());
        if r == -1 {
            -1
        } else {
            r + 1
        }
    }
}

/// A multipart message: a list of byte frames.
#[derive(Debug)]
pub struct ZmqMessage {
    pub frames: Vec<Vec<u8>>,
}

impl ZmqMessage {
    /// The frames as a sequence of byte sequences.
    pub open spec fn frames_seq(self) -> Seq<Seq<u8>> {
        Seq::new(self.frames@.len() as nat, |i: int| self.frames@[i]@)
    }

    /// Builds a message from a list of frames; a message must hold at
    /// least one frame.
    pub fn try_from_frames(v: Vec<Vec<u8>>) -> (r: Result<ZmqMessage, ZmqEmptyMessageError>)
        ensures
            v@.len() == 0 <==> r is Err,
            r matches Ok(m) ==> m.frames_seq() == (ZmqMessage { frames: v }).frames_seq(),
    {
        if v.len() == 0 {
            Err(ZmqEmptyMessageError)
        } else {
            Ok(ZmqMessage { frames: v })
        }
    }

    /// Builds a single-frame message.
    pub fn from_frame(f: Vec<u8>) -> (m: ZmqMessage)
        ensures
            m.frames_seq().len() == 1,
            m.frames_seq()[0] == f@,
    {
        let mut frames: Vec<Vec<u8>> = Vec::new();
        frames.push(f);
        let m = ZmqMessage { frames };
        proof {
            assert(m.frames_seq().len() == 1);
        }
        m
    }

    /// Appends a frame at the back.
    pub fn push_back(&mut self, frame: Vec<u8>)
        ensures
            final(self).frames_seq() =~= old(self).frames_seq().push(frame@),
    {
        self.frames.push(frame);
    }

    /// Inserts a frame at the front.
    pub fn push_front(&mut self, frame: Vec<u8>)
        ensures
            final(self).frames_seq() =~= seq![frame@] + old(self).frames_seq(),
    {
        self.frames.insert(0, frame);
    }

    /// Removes and returns the first frame, if any.
    pub fn pop_front(&mut self) -> (r: Option<Vec<u8>>)
        ensures
            old(self).frames_seq().len() == 0 ==> r is None && *final(self) == *old(self),
            old(self).frames_seq().len() > 0 ==> {
                &&& r matches Some(f) && f@ == old(self).frames_seq()[0]
                &&& final(self).frames_seq() =~= old(self).frames_seq().drop_first()
            },
    {
        if self.frames.len() == 0 {
            None
        } else {
            Some(self.frames.remove(0))
        }
    }

    /// Returns the number of frames.
    pub fn len(&self) -> (n: usize)
        ensures
            n == self.frames_seq().len(),
    {
        self.frames.len()
    }

    /// Returns whether the message holds no frame.
    pub fn is_empty(&self) -> (b: bool)
        ensures
            b == (self.frames_seq().len() == 0),
    {
        self.frames.len() == 0
    }

    /// Returns the frame at `index`, if any.
    pub fn get(&self, index: usize) -> (r: Option<&Vec<u8>>)
        ensures
            index < self.frames_seq().len() ==> (r matches Some(f) && f@ == self.frames_seq()[
                index as int
            ]),
            index >= self.frames_seq().len() ==> r is None,
    {
        if index < self.frames.len() {
            Some(&self.frames[index])
        } else {
            None
        }
    }

    /// Hands the frames back out.
    pub fn into_frames(self) -> (v: Vec<Vec<u8>>)
        ensures
            (ZmqMessage { frames: v }).frames_seq() == self.frames_seq(),
    {
        self.frames
    }

    /// Turns a single-frame message into its frame; a message with more
    /// than one frame is refused.
    pub fn into_single_frame(self) -> (r: Result<Vec<u8>, &'static str>)
        ensures
            (r is Ok) <==> self.frames_seq().len() == 1,
            r matches Ok(f) ==> f@ == self.frames_seq()[0],
    {
        if self.frames.len() == 1 {
            let mut frames = self.frames;
            match frames.pop() {
                Some(f) => Ok(f),
                None => Err("Message must have only 1 frame"),
            }
        } else {
            Err("Message must have only 1 frame")
        }
    }

    /// Inserts all frames of `message` at the front, keeping their order.
    pub fn prepend(&mut self, message: &ZmqMessage)
        ensures
            final(self).frames_seq() =~= message.frames_seq() + old(self).frames_seq(),
    {
        let mut nf: Vec<Vec<u8>> = Vec::new();
        let mut i: usize = 0;
        while i < message.frames.len()
            invariant
                i <= message.frames.len(),
                nf@.len() == i,
                forall|k: int| 0 <= k < i ==> #[trigger] nf@[k]@ == message.frames_seq()[k],
            decreases message.frames.len() - i,
        {
            nf.push(clone_frame(&message.frames[i]));
            i = i + 1;
        }
        let mut j: usize = 0;
        while j < self.frames.len()
            invariant
                j <= self.frames.len(),
                self.frames == old(self).frames,
                nf@.len() == message.frames_seq().len() + j,
                forall|k: int|
                    0 <= k < message.frames_seq().len() ==> #[trigger] nf@[k]@
                        == message.frames_seq()[k],
                forall|k: int|
                    message.frames_seq().len() <= k < nf@.len() ==> #[trigger] nf@[k]@ == old(
                        self,
                    ).frames_seq()[k - message.frames_seq().len()],
            decreases self.frames.len() - j,
        {
            nf.push(clone_frame(&self.frames[j]));
            j = j + 1;
        }
        self.frames = nf;
        proof {
            assert forall|k: int|
                0 <= k < self.frames_seq().len() implies self.frames_seq()[k] == (
            message.frames_seq() + old(self).frames_seq())[k] by {
                let ml = message.frames_seq().len() as int;
                if k >= ml {
                    assert(self.frames@[k]@ == old(self).frames_seq()[k - ml]);
                }
            }
            assert(self.frames_seq() =~= message.frames_seq() + old(self).frames_seq());
        }
    }

    /// Splits the message at `at`: the tail is returned, the head stays.
    pub fn split_off(&mut self, at: usize) -> (tail: ZmqMessage)
        requires
            at <= old(self).frames_seq().len(),
        ensures
            final(self).frames_seq() =~= old(self).frames_seq().take(at as int),
            tail.frames_seq() =~= old(self).frames_seq().skip(at as int),
    {
        let frames = self.frames.split_off(at);
        ZmqMessage { frames }
    }

    /// The reply socket's envelope rule: everything up to and including
    /// the first empty frame is the envelope; with no empty frame the
    /// envelope is the first frame alone. Splits the message there,
    /// keeping the envelope and returning the payload.
    pub fn split_envelope(&mut self) -> (data: ZmqMessage)
        requires
            old(self).frames_seq().len() > 1,
        ensures
            ({
                let fe = first_empty_frame(old(self).frames_seq());
                let at: int = if fe >= 0 && fe + 1 <= old(self).frames_seq().len() {
                    fe + 1
                } else {
                    1
                };
                &&& final(self).frames_seq() =~= old(self).frames_seq().take(at)
                &&& data.frames_seq() =~= old(self).frames_seq().skip(at)
            }),
    {
        let mut at: usize = 1;
        let mut idx: usize = 0;
        let mut found: bool = false;
        while idx < self.frames.len() && !found
            invariant
                idx <= self.frames.len(),
                !found ==> forall|k: int| 0 <= k < idx ==> self.frames_seq()[k].len() > 0,
                !found ==> at == 1,
                found ==> {
                    &&& idx < self.frames_seq().len()
                    &&& self.frames_seq()[idx as int].len() == 0
                    &&& forall|k: int| 0 <= k < idx ==> self.frames_seq()[k].len() > 0
                    &&& at == idx + 1
                },
            decreases self.frames.len() - idx + (if found { 0int } else { 1int }),
        {
            if self.frames[idx].len() == 0 {
                at = idx + 1;
                found = true;
            } else {
                idx = idx + 1;
            }
        }
        proof {
            lemma_first_empty_frame(self.frames_seq(), idx as int, found);
            if found {
                assert(first_empty_frame(self.frames_seq()) == idx as int);
            } else {
                assert(first_empty_frame(self.frames_seq()) == -1);
            }
            assert(at <= self.frames_seq().len());
        }
        self.split_off(at)
    }
}

/// Pins down `first_empty_frame` from a scan: if the first `idx` frames
/// are non-empty and frame `idx` is empty, the first empty frame is at
/// `idx`; if the whole message is non-empty, there is none.
proof fn lemma_first_empty_frame(fs: Seq<Seq<u8>>, idx: int, found: bool)
    requires
        found ==> 0 <= idx < fs.len() && fs[idx].len() == 0,
        forall|k: int| 0 <= k < idx ==> fs[k].len() > 0,
        !found ==> idx == fs.len(),
    ensures
        found ==> first_empty_frame(fs) == idx,
        !found ==> first_empty_frame(fs) == -1,
    decreases fs.len(),
{
    if fs.len() == 0 {
    } else if fs[0].len() == 0 {
    } else {
        assert(fs.drop_first() =~= fs.skip(1));
        lemma_first_empty_frame(fs.drop_first(), idx - 1, found);
    }
}

} // verus!
