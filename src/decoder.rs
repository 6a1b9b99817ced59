use vstd::prelude::*;

verus! {

/// minimp3's frame decoder, carried as an opaque value: it owns the reader
/// and the bytes it has buffered from it.
#[verifier::external_type_specification]
#[verifier::external_body]
#[verifier::reject_recursive_types(R)]
pub struct ExMp3Decoder<R>(minimp3::Decoder<R>);

/// std's channel sender, carried as an opaque value.
#[verifier::external_type_specification]
#[verifier::external_body]
#[verifier::reject_recursive_types(T)]
pub struct ExSender<T>(std::sync::mpsc::Sender<T>);

/// Relies on minimp3's `Decoder::new`: it takes the reader and sets up an
/// empty buffer, reading nothing yet.
pub assume_specification<R>[ minimp3::Decoder::<R>::new ](reader: R) -> minimp3::Decoder<R>;

/// Relies on minimp3's `Decoder::into_inner`: it gives the reader back.
pub assume_specification<R>[ minimp3::Decoder::<R>::into_inner ](
    decoder: minimp3::Decoder<R>,
) -> R;

/// One decoded MP3 frame: interleaved PCM samples with their format.
#[derive(Debug, Clone)]
pub struct AudioFrame {
    pub data: Vec<i16>,
    pub sample_rate: i32,
    pub channels: usize,
}

/// Relies on minimp3's `Decoder::next_frame`: it reads from the stream until
/// a frame decodes (`Ok`) or the stream ends or fails (`Err`). A decoded
/// frame holds `samples * channels` samples with `samples > 0`, and its
/// channel count is 1 or 2 (the C decoder sets it from the frame header).
#[verifier::external_body]
fn decode_next_frame<R: std::io::Read>(decoder: &mut minimp3::Decoder<R>) -> (r: Option<AudioFrame>)
    ensures
        r matches Some(f) ==> f.data@.len() > 0 && (f.channels == 1 || f.channels == 2),
{
    match decoder.next_frame() {
        Ok(f) => Some(AudioFrame { data: f.data, sample_rate: f.sample_rate, channels: f.channels }),
        Err(_) => None,
    }
}

/// Relies on std's `Sender::send`: it fails only when the receiving side is
/// gone; whether it is cannot be known here.
#[verifier::external_body]
fn send_frame(tx: &std::sync::mpsc::Sender<AudioFrame>, frame: AudioFrame) -> (sent: bool) {
    tx.send(frame).is_ok()
}

/// Decodes an MP3 byte stream of unknown length into samples, one pull at a
/// time, optionally handing a copy of each newly decoded frame to an
/// observer.
#[verifier::reject_recursive_types(R)]
pub struct Mp3Decoder<R> {
    decoder: minimp3::Decoder<R>,
    current_frame: AudioFrame,
    current_frame_offset: usize,
    tx: Option<std::sync::mpsc::Sender<AudioFrame>>,
    exhausted: bool,
    frames: Ghost<Seq<Seq<i16>>>,
}

/// What an [`Mp3Decoder`] holds, for contracts.
pub struct DecoderView {
    /// The samples of every frame decoded so far, in order; the last one is
    /// the current frame.
    pub frames: Seq<Seq<i16>>,
    /// How many samples of the current frame were handed out.
    pub offset: nat,
    /// The sequence has ended, for good.
    pub exhausted: bool,
    /// Frames are still forwarded to an observer.
    pub tapped: bool,
    /// The current frame's channel count.
    pub channels: usize,
    /// The current frame's sample rate in hertz.
    pub sample_rate: i32,
}

impl DecoderView {
    pub open spec fn current(self) -> Seq<i16> {
        self.frames.last()
    }

    /// Every sample handed out so far, in order.
    pub open spec fn emitted(self) -> Seq<i16> {
        self.frames.drop_last().flatten() + self.current().take(self.offset as int)
    }
}

impl<R> View for Mp3Decoder<R> {
    type V = DecoderView;

    closed spec fn view(&self) -> DecoderView {
        DecoderView {
            frames: self.frames@,
            offset: self.current_frame_offset as nat,
            exhausted: self.exhausted,
            tapped: self.tx is Some,
            channels: self.current_frame.channels,
            sample_rate: self.current_frame.sample_rate,
        }
    }
}

impl<R> Mp3Decoder<R> {
    /// The cursor stays within the current frame, which is the last one
    /// decoded and is never empty.
    pub closed spec fn wf(&self) -> bool {
        &&& self.frames@.len() > 0
        &&& self.frames@.last() == self.current_frame.data@
        &&& self.current_frame.data@.len() > 0
        &&& (self.current_frame.channels == 1 || self.current_frame.channels == 2)
        &&& self.current_frame_offset <= self.current_frame.data@.len()
    }

    pub proof fn lemma_wf_view(&self)
        requires
            self.wf(),
        ensures
            self@.frames.len() > 0,
            self@.current().len() > 0,
            self@.offset <= self@.current().len(),
            self@.channels == 1 || self@.channels == 2,
    {
    }

    /// The number of samples in the current frame.
    pub fn current_frame_len(&self) -> (r: usize)
        requires
            self.wf(),
        ensures
            r == self@.current().len(),
    {
        self.current_frame.data.len()
    }

    /// The current frame's channel count, 1 or 2.
    pub fn channels(&self) -> (r: u16)
        requires
            self.wf(),
        ensures
            r == self@.channels,
    {
        if self.current_frame.channels == 1 {
            1
        } else {
            2
        }
    }

    /// The current frame's sample rate in hertz (zero for a negative one).
    pub fn sample_rate(&self) -> (r: u32)
        ensures
            r == (if self@.sample_rate < 0 {
                0
            } else {
                self@.sample_rate as u32
            }),
    {
        if self.current_frame.sample_rate < 0 {
            0
        } else {
            self.current_frame.sample_rate as u32
        }
    }
}

impl<R: std::io::Read> Mp3Decoder<R> {
    /// Start decoding `data`: the first frame is decoded at once and kept as
    /// the current frame. When none decodes, the stream is handed back; the
    /// bytes the probe read from it are gone.
    pub fn new(data: R, tx: Option<std::sync::mpsc::Sender<AudioFrame>>) -> (r: Result<Self, R>)
        ensures
            r matches Ok(d) ==> {
                &&& d.wf()
                &&& d@.frames.len() == 1
                &&& d@.offset == 0
                &&& !d@.exhausted
                &&& d@.tapped == tx is Some
                &&& d@.emitted() == Seq::<i16>::empty()
            },
    {
        let mut decoder = minimp3::Decoder::new(data);
        match decode_next_frame(&mut decoder) {
            Some(frame) => {
                let ghost first = seq![frame.data@];
                let d = Mp3Decoder {
                    decoder,
                    current_frame: frame,
                    current_frame_offset: 0,
                    tx,
                    exhausted: false,
                    frames: Ghost(first),
                };
                proof {
                    assert(d@.frames.drop_last() =~= Seq::<Seq<i16>>::empty());
                    assert(d@.emitted() =~= Seq::<i16>::empty());
                }
                Ok(d)
            },
            None => Err(decoder.into_inner()),
        }
    }

    /// The next sample. When the current frame is used up, the next frame
    /// is decoded (and, while an observer listens, a copy is sent to it; an
    /// observer that is gone is dropped for good). When no frame decodes,
    /// the sequence ends and stays ended.
    pub fn next_sample(&mut self) -> (r: Option<i16>)
        requires
            old(self).wf(),
        ensures
            final(self).wf(),
            old(self)@.exhausted ==> r is None && final(self)@ == old(self)@,
            !old(self)@.exhausted && old(self)@.offset < old(self)@.current().len() ==> {
                &&& r == Some(old(self)@.current()[old(self)@.offset as int])
                &&& final(self)@ == (DecoderView { offset: old(self)@.offset + 1, ..old(self)@ })
            },
            !old(self)@.exhausted && old(self)@.offset == old(self)@.current().len() ==> {
                ||| r is None && final(self)@ == (DecoderView { exhausted: true, ..old(self)@ })
                ||| {
                    &&& final(self)@.frames.len() == old(self)@.frames.len() + 1
                    &&& final(self)@.frames.drop_last() == old(self)@.frames
                    &&& r == Some(final(self)@.current()[0])
                    &&& final(self)@.offset == 1
                    &&& !final(self)@.exhausted
                    &&& final(self)@.tapped ==> old(self)@.tapped
                }
            },
            r matches Some(v) ==> final(self)@.emitted() == old(self)@.emitted().push(v),
            r is None ==> final(self)@.emitted() == old(self)@.emitted() && final(self)@.exhausted,
    {
        if self.exhausted {
            return None;
        }
        let ghost before = self@;
        if self.current_frame_offset == self.current_frame.data.len() {
            match decode_next_frame(&mut self.decoder) {
                Some(frame) => {
                    let forward = match &self.tx {
                        Some(tx) => send_frame(tx, frame.clone()),
                        None => true,
                    };
                    if !forward {
                        self.tx = None;
                    }
                    proof {
                        let fs = self.frames@;
                        assert(before.current().take(before.offset as int) =~= before.current());
                        assert(fs =~= fs.drop_last().push(fs.last()));
                        fs.drop_last().lemma_flatten_push(fs.last());
                        assert(before.emitted() =~= fs.flatten());
                        assert(fs.push(frame.data@).drop_last() =~= fs);
                    }
                    let ghost pushed = self.frames@.push(frame.data@);
                    self.frames = Ghost(pushed);
                    self.current_frame = frame;
                    self.current_frame_offset = 0;
                    proof {
                        assert(self@.current().take(0) =~= Seq::<i16>::empty());
                        assert(self@.emitted() =~= before.emitted());
                    }
                },
                None => {
                    self.exhausted = true;
                    return None;
                },
            }
        }
        let ghost mid = self@;
        let v = self.current_frame.data[self.current_frame_offset];
        proof {
            let cur = self.current_frame.data@;
            let k = self.current_frame_offset as int;
            assert(cur.take(k + 1) =~= cur.take(k).push(v));
        }
        self.current_frame_offset = self.current_frame_offset + 1;
        proof {
            assert(self@.emitted() =~= mid.emitted().push(v));
        }
        Some(v)
    }
}

/// The samples handed out are exactly the decoded frames' samples, in
/// order, with none skipped or repeated: they are a prefix of the frames'
/// concatenation, and all of it once the current frame is used up.
pub proof fn lemma_output_is_decoded_frames<R>(d: &Mp3Decoder<R>)
    requires
        d.wf(),
    ensures
        d@.emitted() == d@.frames.flatten().take(d@.emitted().len() as int),
        d@.offset == d@.current().len() ==> d@.emitted() == d@.frames.flatten(),
{
    let fs = d@.frames;
    assert(fs =~= fs.drop_last().push(fs.last()));
    fs.drop_last().lemma_flatten_push(fs.last());
    let head = fs.drop_last().flatten();
    assert(fs.flatten() =~= head + d@.current());
    assert(d@.emitted() =~= fs.flatten().take(d@.emitted().len() as int));
    if d@.offset == d@.current().len() {
        assert(d@.current().take(d@.offset as int) =~= d@.current());
    }
}

} // verus!
