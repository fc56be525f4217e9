//! JPEG framing: start-of-image (`FF D8`) and end-of-image (`FF D9`)
//! markers found incrementally in a byte stream.

use vstd::prelude::*;

verus! {

/// Errors of the JPEG assembler.
#[derive(Debug, Clone, Copy, PartialEq, Eq, Structural)]
pub enum JpegError {
    BufferTooSmall { capacity: usize },
}

/// Byte range `[start, end)` of a JPEG frame within a stream.
#[derive(Debug, Clone, Copy, PartialEq, Eq, Structural)]
pub struct JpegFrameBounds {
    pub start: usize,
    pub end: usize,
}

impl JpegFrameBounds {
    pub fn len(self) -> (n: usize)
        requires
            self.start <= self.end,
        ensures
            n == self.end - self.start,
    {
        self.end - self.start
    }

    pub fn is_empty(self) -> (b: bool)
        ensures
            b == (self.start == self.end),
    {
        self.start == self.end
    }
}

/// `data` starts with the start-of-image marker and ends with the
/// end-of-image marker, the two not overlapping.
pub open spec fn complete_jpeg(data: Seq<u8>) -> bool {
    &&& data.len() >= 4
    &&& data[0] == 0xff
    &&& data[1] == 0xd8
    &&& data[data.len() - 2] == 0xff
    &&& data[data.len() - 1] == 0xd9
}

/// The start-of-image marker.
pub open spec fn soi_marker() -> Seq<u8> {
    seq![0xffu8, 0xd8u8]
}

/// The end-of-image marker.
pub open spec fn eoi_marker() -> Seq<u8> {
    seq![0xffu8, 0xd9u8]
}

/// A complete JPEG image is exactly a byte string of at least four bytes
/// whose first two bytes are the start-of-image marker and whose last two
/// are the end-of-image marker.
pub proof fn lemma_complete_jpeg_markers(data: Seq<u8>)
    ensures
        complete_jpeg(data) <==> (data.len() >= 4 && data.take(2) == soi_marker() && data.skip(
            data.len() - 2,
        ) == eoi_marker()),
{
    if data.len() >= 4 {
        let head = data.take(2);
        let tail = data.skip(data.len() - 2);
        assert(head == soi_marker() <==> (data[0] == 0xff && data[1] == 0xd8)) by {
            if data[0] == 0xff && data[1] == 0xd8 {
                assert(head =~= soi_marker());
            }
            if head == soi_marker() {
                assert(head[0] == data[0] && head[1] == data[1]);
            }
        }
        assert(tail == eoi_marker() <==> (data[data.len() - 2] == 0xff && data[data.len() - 1]
            == 0xd9)) by {
            if data[data.len() - 2] == 0xff && data[data.len() - 1] == 0xd9 {
                assert(tail =~= eoi_marker());
            }
            if tail == eoi_marker() {
                assert(tail[0] == data[data.len() - 2] && tail[1] == data[data.len() - 1]);
            }
        }
    }
}

/// Whether `data` holds one complete JPEG image, from its start-of-image to
/// its end-of-image marker.
pub fn is_complete_jpeg(data: &[u8]) -> (b: bool)
    ensures
        b == complete_jpeg(data@),
        b <==> (data@.len() >= 4 && data@.take(2) == soi_marker() && data@.skip(data@.len() - 2)
            == eoi_marker()),
{
    proof {
        lemma_complete_jpeg_markers(data@);
    }
    if data.len() < 4 {
        return false;
    }
    data[0] == 0xff && data[1] == 0xd8 && data[data.len() - 2] == 0xff && data[data.len() - 1]
        == 0xd9
}

/// Abstract state of a [`JpegScanner`].
#[derive(Debug, Clone, Copy, PartialEq, Eq, Structural)]
pub struct ScannerState {
    /// Number of bytes pushed so far (saturating).
    pub position: usize,
    /// Stream offset of the start-of-image marker of the open frame.
    pub frame_start: Option<usize>,
    /// The byte pushed last.
    pub last: Option<u8>,
}

/// State of a scanner that has seen no byte.
pub open spec fn scanner_initial() -> ScannerState {
    ScannerState { position: 0, frame_start: None, last: None }
}

/// Pushing `byte` into a scanner in state `s` overflows the end offset of
/// the frame it would report.
pub open spec fn scanner_push_overflows(s: ScannerState, byte: u8) -> bool {
    &&& s.last == Some(0xffu8)
    &&& byte == 0xd9
    &&& s.frame_start is Some
    &&& s.position == usize::MAX
}

/// State after pushing `byte` into a scanner in state `s`.
pub open spec fn scanner_next(s: ScannerState, byte: u8) -> ScannerState {
    let frame_start = if s.last == Some(0xffu8) && byte == 0xd8 {
        Some(s.position.saturating_sub(1))
    } else if s.last == Some(0xffu8) && byte == 0xd9 {
        None
    } else {
        s.frame_start
    };
    ScannerState { position: s.position.saturating_add(1), frame_start, last: Some(byte) }
}

/// Frame reported when `byte` is pushed into a scanner in state `s`: an
/// end-of-image marker closes the frame that a start-of-image marker opened.
pub open spec fn scanner_found(s: ScannerState, byte: u8) -> Option<JpegFrameBounds> {
    if s.last == Some(0xffu8) && byte == 0xd9 && s.frame_start is Some {
        Some(JpegFrameBounds { start: s.frame_start.unwrap(), end: (s.position + 1) as usize })
    } else {
        None
    }
}

/// Scanning `bytes` from state `s` overflows before a frame is reported.
pub open spec fn scan_overflows(s: ScannerState, bytes: Seq<u8>) -> bool
    decreases bytes.len(),
{
    if bytes.len() == 0 {
        false
    } else if scanner_push_overflows(s, bytes[0]) {
        true
    } else if scanner_found(s, bytes[0]) is Some {
        false
    } else {
        scan_overflows(scanner_next(s, bytes[0]), bytes.drop_first())
    }
}

/// Scanning `bytes` from state `s`: the bytes are pushed one by one until a
/// frame is reported; the state after the last byte pushed, and the frame.
pub open spec fn scan(s: ScannerState, bytes: Seq<u8>) -> (ScannerState, Option<JpegFrameBounds>)
    decreases bytes.len(),
{
    if bytes.len() == 0 {
        (s, None)
    } else if scanner_found(s, bytes[0]) is Some {
        (scanner_next(s, bytes[0]), scanner_found(s, bytes[0]))
    } else {
        scan(scanner_next(s, bytes[0]), bytes.drop_first())
    }
}

/// Incremental finder of JPEG frames in a byte stream that arrives in chunks.
#[derive(Debug, Clone, Copy, PartialEq, Eq)]
pub struct JpegScanner {
    position: usize,
    frame_start: Option<usize>,
    last: Option<u8>,
}

impl View for JpegScanner {
    type V = ScannerState;

    closed spec fn view(&self) -> ScannerState {
        ScannerState { position: self.position, frame_start: self.frame_start, last: self.last }
    }
}

impl JpegScanner {
    pub fn new() -> (s: Self)
        ensures
            s@ == scanner_initial(),
    {
        JpegScanner { position: 0, frame_start: None, last: None }
    }

    /// Number of bytes pushed so far.
    pub fn position(&self) -> (p: usize)
        ensures
            p == self@.position,
    {
        self.position
    }

    /// Whether a start-of-image marker has been seen and its frame is open.
    pub fn in_frame(&self) -> (b: bool)
        ensures
            b == self@.frame_start is Some,
    {
        self.frame_start.is_some()
    }

    pub fn reset(&mut self)
        ensures
            final(self)@ == scanner_initial(),
    {
        *self = Self::new();
    }

    /// Pushes one byte; reports the frame that this byte completes.
    pub fn push(&mut self, byte: u8) -> (found: Option<JpegFrameBounds>)
        requires
            !scanner_push_overflows(old(self)@, byte),
        ensures
            final(self)@ == scanner_next(old(self)@, byte),
            found == scanner_found(old(self)@, byte),
    {
        let current = self.position;
        let previous = self.last;
        self.position = self.position.saturating_add(1);
        self.last = Some(byte);

        if previous == Some(0xffu8) && byte == 0xd8 {
            self.frame_start = Some(current.saturating_sub(1));
            return None;
        }
        if previous == Some(0xffu8) && byte == 0xd9 {
            match self.frame_start {
                Some(start) => {
                    self.frame_start = None;
                    return Some(JpegFrameBounds { start, end: current + 1 });
                },
                None => {},
            }
        }
        None
    }

    /// Pushes the bytes of `chunk` until one completes a frame; reports that
    /// frame. Bytes after it stay unread.
    pub fn scan_chunk(&mut self, chunk: &[u8]) -> (found: Option<JpegFrameBounds>)
        requires
            !scan_overflows(old(self)@, chunk@),
        ensures
            (final(self)@, found) == scan(old(self)@, chunk@),
    {
        let mut i: usize = 0;
        assert(chunk@.skip(0) =~= chunk@);
        while i < chunk.len()
            invariant
                i <= chunk@.len(),
                !scan_overflows(self@, chunk@.skip(i as int)),
                scan(old(self)@, chunk@) == scan(self@, chunk@.skip(i as int)),
            decreases chunk@.len() - i,
        {
            let ghost rest = chunk@.skip(i as int);
            assert(rest[0] == chunk@[i as int]);
            assert(rest.drop_first() =~= chunk@.skip(i + 1));
            let byte = chunk[i];
            let found = self.push(byte);
            if found.is_some() {
                return found;
            }
            i = i + 1;
        }
        assert(chunk@.skip(i as int) =~= Seq::<u8>::empty());
        None
    }
}

impl Default for JpegScanner {
    fn default() -> (s: Self)
        ensures
            s@ == scanner_initial(),
    {
        Self::new()
    }
}


/// State of a scanner after `bytes` have been pushed one by one from the
/// initial state.
pub open spec fn scanner_over(bytes: Seq<u8>) -> ScannerState
    decreases bytes.len(),
{
    if bytes.len() == 0 {
        scanner_initial()
    } else {
        scanner_next(scanner_over(bytes.drop_last()), bytes.last())
    }
}

/// What a scanner fed with `bytes` knows of them: its position is their
/// number, its last byte is theirs, and an open frame starts at a
/// start-of-image marker within them.
pub open spec fn scanner_tracks(s: ScannerState, bytes: Seq<u8>) -> bool {
    &&& s.position == bytes.len()
    &&& s.last == (if bytes.len() == 0 { None } else { Some(bytes.last()) })
    &&& (s.frame_start matches Some(st) ==> {
        &&& st + 2 <= bytes.len()
        &&& bytes[st as int] == 0xff
        &&& bytes[st + 1] == 0xd8
    })
}

proof fn lemma_scanner_over_tracks(bytes: Seq<u8>)
    requires
        bytes.len() < usize::MAX,
    ensures
        scanner_tracks(scanner_over(bytes), bytes),
    decreases bytes.len(),
{
    if bytes.len() > 0 {
        let prev = bytes.drop_last();
        lemma_scanner_over_tracks(prev);
        assert(forall|k: int| 0 <= k < prev.len() ==> bytes[k] == prev[k]);
    }
}

/// Chunk boundaries do not matter to the scanner: scanning `a` and then `b`,
/// when `a` completes no frame, is scanning `a + b`.
pub proof fn lemma_scan_split(s: ScannerState, a: Seq<u8>, b: Seq<u8>)
    requires
        scan(s, a).1 is None,
    ensures
        scan(s, a + b) == scan(scan(s, a).0, b),
        scan_overflows(s, a + b) == (scan_overflows(s, a) || scan_overflows(scan(s, a).0, b)),
    decreases a.len(),
{
    if a.len() == 0 {
        assert(a + b =~= b);
    } else {
        assert((a + b)[0] == a[0]);
        assert((a + b).drop_first() =~= a.drop_first() + b);
        lemma_scan_split(scanner_next(s, a[0]), a.drop_first(), b);
    }
}

/// A scan cannot overflow while the position stays below `usize::MAX`: it
/// suffices that the position plus the chunk's length does.
pub proof fn lemma_scan_no_overflow(s: ScannerState, bytes: Seq<u8>)
    requires
        s.position + bytes.len() < usize::MAX,
    ensures
        !scan_overflows(s, bytes),
    decreases bytes.len(),
{
    if bytes.len() > 0 && scanner_found(s, bytes[0]) is None {
        lemma_scan_no_overflow(scanner_next(s, bytes[0]), bytes.drop_first());
    }
}

/// Every frame that a scanner reports spans a complete JPEG image of the
/// stream: pushing `byte` after `bytes` into a fresh scanner reports bounds
/// whose bytes start with `FF D8` and end with `FF D9`, the end being the
/// stream's length.
pub proof fn lemma_scanner_frames_are_complete(bytes: Seq<u8>, byte: u8)
    requires
        bytes.len() < usize::MAX,
        scanner_found(scanner_over(bytes), byte) is Some,
    ensures
        ({
            let f = scanner_found(scanner_over(bytes), byte).unwrap();
            let stream = bytes.push(byte);
            &&& f.start + 4 <= f.end
            &&& f.end == stream.len()
            &&& complete_jpeg(stream.subrange(f.start as int, f.end as int))
        }),
{
    lemma_scanner_over_tracks(bytes);
    let s = scanner_over(bytes);
    let f = scanner_found(s, byte).unwrap();
    let stream = bytes.push(byte);
    let st = s.frame_start.unwrap();
    assert(bytes[bytes.len() - 1] == 0xff);
    assert(bytes.len() - 1 != st + 1);
    let sub = stream.subrange(f.start as int, f.end as int);
    assert(sub[0] == stream[st as int]);
    assert(sub[1] == stream[st + 1]);
    assert(sub[sub.len() - 2] == stream[bytes.len() - 1]);
    assert(sub[sub.len() - 1] == byte);
}

/// A marker pair `FF m` of a stream ends at index `k`.
pub open spec fn marker_at(bytes: Seq<u8>, k: int, m: u8) -> bool {
    &&& 1 <= k < bytes.len()
    &&& bytes[k - 1] == 0xff
    &&& bytes[k] == m
}

/// A start- or end-of-image marker of a stream ends at index `k`.
pub open spec fn image_marker_at(bytes: Seq<u8>, k: int) -> bool {
    marker_at(bytes, k, 0xd8) || marker_at(bytes, k, 0xd9)
}

/// A frame stays open in a scanner fed `bytes` from the start: when a
/// start-of-image marker begins at `st` and no start- or end-of-image marker
/// follows it, the open frame starts at `st`.
proof fn lemma_scanner_frame_stays_open(bytes: Seq<u8>, st: int)
    requires
        bytes.len() < usize::MAX,
        0 <= st,
        st + 2 <= bytes.len(),
        bytes[st] == 0xff,
        bytes[st + 1] == 0xd8,
        forall|k: int| st + 1 < k < bytes.len() ==> !#[trigger] image_marker_at(bytes, k),
    ensures
        scanner_over(bytes).frame_start == Some(st as usize),
    decreases bytes.len(),
{
    let prev = bytes.drop_last();
    lemma_scanner_over_tracks(prev);
    if bytes.len() == st + 2 {
        assert(prev.last() == bytes[st]);
    } else {
        assert forall|k: int| st + 1 < k < prev.len() implies !#[trigger] image_marker_at(prev, k) by {
            assert(image_marker_at(prev, k) == image_marker_at(bytes, k));
        }
        lemma_scanner_frame_stays_open(prev, st);
        let k = bytes.len() - 1;
        assert(!image_marker_at(bytes, k));
        assert(prev.last() == bytes[k - 1]);
    }
}

/// Every frame that is closed is reported: when a start-of-image marker
/// begins at `st` of the bytes pushed into a fresh scanner, no start- or
/// end-of-image marker follows it, and the last byte is `FF`, pushing `D9`
/// reports the frame from `st` to the end of the stream, wherever `st` is.
pub proof fn lemma_scanner_reports_closed_frame(bytes: Seq<u8>, st: int)
    requires
        bytes.len() + 1 < usize::MAX,
        0 <= st,
        st + 2 < bytes.len(),
        bytes[st] == 0xff,
        bytes[st + 1] == 0xd8,
        forall|k: int| st + 1 < k < bytes.len() ==> !#[trigger] image_marker_at(bytes, k),
        bytes.last() == 0xff,
    ensures
        scanner_found(scanner_over(bytes), 0xd9) == Some(
            JpegFrameBounds { start: st as usize, end: (bytes.len() + 1) as usize },
        ),
{
    lemma_scanner_frame_stays_open(bytes, st);
    lemma_scanner_over_tracks(bytes);
}

/// Abstract state of a [`JpegAssembler`].
#[derive(Debug, Clone, Copy, PartialEq, Eq, Structural)]
pub struct AssemblerState {
    /// Whether a start-of-image marker has been seen and its frame is open.
    pub in_frame: bool,
    /// Number of bytes of the open frame written to the output.
    pub len: usize,
    /// The byte read last.
    pub last: Option<u8>,
}

/// State of an assembler that has read nothing, and of one after an error.
pub open spec fn assembler_initial() -> AssemblerState {
    AssemblerState { in_frame: false, len: 0, last: None }
}

/// Error of an assembler whose output holds `capacity` bytes.
pub open spec fn too_small(capacity: nat) -> JpegError {
    JpegError::BufferTooSmall { capacity: capacity as usize }
}

/// One byte read by an assembler in state `s` writing into `out`: the next
/// state, the next output, and the result when the byte ends the chunk's
/// processing (an error, or a completed frame of that many bytes).
pub open spec fn assembler_step(s: AssemblerState, out: Seq<u8>, byte: u8) -> (
    AssemblerState,
    Seq<u8>,
    Option<Result<Option<usize>, JpegError>>,
) {
    if !s.in_frame {
        if s.last == Some(0xffu8) && byte == 0xd8 {
            if out.len() == 0 {
                (assembler_initial(), out, Some(Err(too_small(out.len()))))
            } else if out.len() == 1 {
                (assembler_initial(), out.update(0, 0xffu8), Some(Err(too_small(out.len()))))
            } else {
                (
                    AssemblerState { in_frame: true, len: 2, last: Some(byte) },
                    out.update(0, 0xffu8).update(1, 0xd8u8),
                    None,
                )
            }
        } else {
            (AssemblerState { in_frame: false, len: s.len, last: Some(byte) }, out, None)
        }
    } else if s.len >= out.len() {
        (assembler_initial(), out, Some(Err(too_small(out.len()))))
    } else if s.last == Some(0xffu8) && byte == 0xd9 {
        (
            AssemblerState { in_frame: false, len: 0, last: Some(byte) },
            out.update(s.len as int, byte),
            Some(Ok(Some((s.len + 1) as usize))),
        )
    } else {
        (
            AssemblerState { in_frame: true, len: (s.len + 1) as usize, last: Some(byte) },
            out.update(s.len as int, byte),
            None,
        )
    }
}

/// Reading `chunk` by an assembler in state `s` writing into `out`: bytes
/// are read until one completes a frame or an error occurs.
pub open spec fn assemble(s: AssemblerState, out: Seq<u8>, chunk: Seq<u8>) -> (
    AssemblerState,
    Seq<u8>,
    Result<Option<usize>, JpegError>,
)
    decreases chunk.len(),
{
    if chunk.len() == 0 {
        (s, out, Ok(None))
    } else {
        let (s2, out2, r) = assembler_step(s, out, chunk[0]);
        match r {
            Some(res) => (s2, out2, res),
            None => assemble(s2, out2, chunk.drop_first()),
        }
    }
}

/// Copies the bytes of JPEG frames found in a stream of chunks into an
/// output buffer.
#[derive(Debug, Clone, Copy, PartialEq, Eq)]
pub struct JpegAssembler {
    in_frame: bool,
    len: usize,
    last: Option<u8>,
}

impl View for JpegAssembler {
    type V = AssemblerState;

    closed spec fn view(&self) -> AssemblerState {
        AssemblerState { in_frame: self.in_frame, len: self.len, last: self.last }
    }
}

impl JpegAssembler {
    pub fn new() -> (a: Self)
        ensures
            a@ == assembler_initial(),
    {
        JpegAssembler { in_frame: false, len: 0, last: None }
    }

    pub fn in_frame(&self) -> (b: bool)
        ensures
            b == self@.in_frame,
    {
        self.in_frame
    }

    /// Number of bytes of the open frame written so far.
    pub fn len(&self) -> (n: usize)
        ensures
            n == self@.len,
    {
        self.len
    }

    pub fn is_empty(&self) -> (b: bool)
        ensures
            b == (self@.len == 0),
    {
        self.len == 0
    }

    pub fn reset(&mut self)
        ensures
            final(self)@ == assembler_initial(),
    {
        *self = Self::new();
    }

    /// Reads `chunk`, copying the bytes of the frame that a start-of-image
    /// marker opens into `output` from its start; returns the length of the
    /// frame that an end-of-image marker completes. Bytes after it stay
    /// unread. A frame longer than `output` resets the assembler and is an
    /// error.
    pub fn push_chunk(&mut self, chunk: &[u8], output: &mut [u8]) -> (r: Result<
        Option<usize>,
        JpegError,
    >)
        ensures
            (final(self)@, final(output)@, r) == assemble(old(self)@, old(output)@, chunk@),
    {
        let ghost s0 = self@;
        let ghost out0 = output@;
        let mut i: usize = 0;
        assert(chunk@.skip(0) =~= chunk@);
        while i < chunk.len()
            invariant
                i <= chunk@.len(),
                output@.len() == out0.len(),
                s0 == old(self)@,
                out0 == old(output)@,
                assemble(s0, out0, chunk@) == assemble(self@, output@, chunk@.skip(i as int)),
            decreases chunk@.len() - i,
        {
            let ghost rest = chunk@.skip(i as int);
            assert(rest[0] == chunk@[i as int]);
            assert(rest.drop_first() =~= chunk@.skip(i + 1));
            let byte = chunk[i];
            if !self.in_frame {
                if self.last == Some(0xffu8) && byte == 0xd8 {
                    self.in_frame = true;
                    self.len = 0;
                    let w1 = self.write_byte(output, 0xff);
                    if let Err(e) = w1 {
                        return Err(e);
                    }
                    let w2 = self.write_byte(output, 0xd8);
                    if let Err(e) = w2 {
                        return Err(e);
                    }
                    self.last = Some(byte);
                    i = i + 1;
                    continue;
                }
                self.last = Some(byte);
                i = i + 1;
                continue;
            }
            let w = self.write_byte(output, byte);
            if let Err(e) = w {
                return Err(e);
            }
            if self.last == Some(0xffu8) && byte == 0xd9 {
                let bytes = self.len;
                self.in_frame = false;
                self.len = 0;
                self.last = Some(byte);
                return Ok(Some(bytes));
            }
            self.last = Some(byte);
            i = i + 1;
        }
        assert(chunk@.skip(i as int) =~= Seq::<u8>::empty());
        Ok(None)
    }

    fn write_byte(&mut self, output: &mut [u8], byte: u8) -> (r: Result<(), JpegError>)
        ensures
            old(self)@.len < old(output)@.len() ==> {
                &&& r is Ok
                &&& final(output)@ == old(output)@.update(old(self)@.len as int, byte)
                &&& final(self)@ == AssemblerState { len: (old(self)@.len + 1) as usize, ..old(self)@ }
            },
            old(self)@.len >= old(output)@.len() ==> {
                &&& r == Err::<(), JpegError>(too_small(old(output)@.len()))
                &&& final(output)@ == old(output)@
                &&& final(self)@ == assembler_initial()
            },
    {
        if self.len >= output.len() {
            self.reset();
            return Err(JpegError::BufferTooSmall { capacity: output.len() });
        }
        output[self.len] = byte;
        self.len = self.len + 1;
        Ok(())
    }
}

impl Default for JpegAssembler {
    fn default() -> (a: Self)
        ensures
            a@ == assembler_initial(),
    {
        Self::new()
    }
}


/// What an assembler in state `s` knows of its output `out`: an open frame
/// starts with the start-of-image marker, fits the output, and its last
/// byte written is the byte read last.
pub open spec fn assembler_holds(s: AssemblerState, out: Seq<u8>) -> bool {
    s.in_frame ==> {
        &&& 2 <= s.len <= out.len()
        &&& out[0] == 0xff
        &&& out[1] == 0xd8
        &&& s.last == Some(out[s.len - 1])
    }
}

/// Chunk boundaries do not matter to the assembler: reading `a` and then
/// `b`, when `a` completes no frame and meets no error, is reading `a + b`.
pub proof fn lemma_assemble_split(s: AssemblerState, out: Seq<u8>, a: Seq<u8>, b: Seq<u8>)
    requires
        assemble(s, out, a).2 == Ok::<Option<usize>, JpegError>(None),
    ensures
        assemble(s, out, a + b) == assemble(assemble(s, out, a).0, assemble(s, out, a).1, b),
    decreases a.len(),
{
    if a.len() == 0 {
        assert(a + b =~= b);
    } else {
        assert((a + b)[0] == a[0]);
        assert((a + b).drop_first() =~= a.drop_first() + b);
        let (s2, out2, r) = assembler_step(s, out, a[0]);
        if r is None {
            lemma_assemble_split(s2, out2, a.drop_first(), b);
        }
    }
}

/// The byte at `k` of `chunk` completes the marker `FF m`, the byte before
/// it being `last` when `k` is the chunk's first.
pub open spec fn completes_marker(last: Option<u8>, chunk: Seq<u8>, k: int, m: u8) -> bool {
    &&& 0 <= k < chunk.len()
    &&& chunk[k] == m
    &&& if k == 0 {
        last == Some(0xffu8)
    } else {
        chunk[k - 1] == 0xff
    }
}

/// Inside an open frame every byte read is appended to the output, up to
/// and including the end-of-image marker at `e`.
proof fn lemma_assembler_copies_open_frame(s: AssemblerState, out: Seq<u8>, chunk: Seq<u8>, e: int)
    requires
        s.in_frame,
        0 <= e < chunk.len(),
        s.len + e + 1 <= out.len(),
        out.len() <= usize::MAX,
        completes_marker(s.last, chunk, e, 0xd9),
        forall|k: int| 0 <= k < e ==> !#[trigger] completes_marker(s.last, chunk, k, 0xd9),
    ensures
        ({
            let (s2, out2, r) = assemble(s, out, chunk);
            &&& r == Ok::<Option<usize>, JpegError>(Some((s.len + e + 1) as usize))
            &&& !s2.in_frame
            &&& out2.len() == out.len()
            &&& out2.take(s.len as int) == out.take(s.len as int)
            &&& out2.subrange(s.len as int, s.len + e + 1) == chunk.take(e + 1)
        }),
    decreases e,
{
    let byte = chunk[0];
    let (s1, out1, r1) = assembler_step(s, out, byte);
    if e == 0 {
        assert(out1.take(s.len as int) =~= out.take(s.len as int));
        assert(out1.subrange(s.len as int, s.len + 1) =~= chunk.take(1));
    } else {
        assert(!completes_marker(s.last, chunk, 0, 0xd9));
        let rest = chunk.drop_first();
        assert forall|k: int| 0 <= k < e - 1 implies !#[trigger] completes_marker(
            s1.last,
            rest,
            k,
            0xd9,
        ) by {
            assert(completes_marker(s1.last, rest, k, 0xd9) == completes_marker(
                s.last,
                chunk,
                k + 1,
                0xd9,
            ));
        }
        assert(completes_marker(s1.last, rest, e - 1, 0xd9));
        lemma_assembler_copies_open_frame(s1, out1, rest, e - 1);
        let (s2, out2, r) = assemble(s1, out1, rest);
        assert(out2.take(s.len as int) =~= out.take(s.len as int)) by {
            assert(out2.take(s1.len as int).take(s.len as int) =~= out2.take(s.len as int));
            assert(out1.take(s1.len as int).take(s.len as int) =~= out.take(s.len as int));
        }
        assert(out2.subrange(s.len as int, s.len + e + 1) =~= chunk.take(e + 1)) by {
            assert forall|i: int| 0 <= i < e + 1 implies #[trigger] out2.subrange(
                s.len as int,
                s.len + e + 1,
            )[i] == chunk.take(e + 1)[i] by {
                if i == 0 {
                    assert(out2.take(s1.len as int)[s.len as int] == out1.take(
                        s1.len as int,
                    )[s.len as int]);
                } else {
                    assert(out2.subrange(s1.len as int, s1.len + e)[i - 1] == rest.take(e)[i
                        - 1]);
                }
            }
        }
    }
}

/// A frame is copied byte for byte. An assembler outside a frame reads
/// `chunk`, whose first start-of-image marker begins at `st` and whose first
/// end-of-image marker after it ends at `e`, into an output that can hold
/// the frame: it reports the frame's length `e - st + 1`, and the output
/// then starts with exactly the chunk's bytes from `st` through `e`.
pub proof fn lemma_assembler_copies_frame(
    s: AssemblerState,
    out: Seq<u8>,
    chunk: Seq<u8>,
    st: int,
    e: int,
)
    requires
        !s.in_frame,
        0 <= st,
        st + 3 <= e < chunk.len(),
        chunk[st] == 0xff,
        chunk[st + 1] == 0xd8,
        forall|k: int| 0 <= k <= st ==> !#[trigger] completes_marker(s.last, chunk, k, 0xd8),
        chunk[e - 1] == 0xff,
        chunk[e] == 0xd9,
        forall|k: int| st + 1 < k < e ==> !#[trigger] completes_marker(s.last, chunk, k, 0xd9),
        e - st + 1 <= out.len(),
        out.len() <= usize::MAX,
    ensures
        ({
            let (s2, out2, r) = assemble(s, out, chunk);
            &&& r == Ok::<Option<usize>, JpegError>(Some((e - st + 1) as usize))
            &&& !s2.in_frame
            &&& out2.take(e - st + 1) == chunk.subrange(st, e + 1)
        }),
    decreases st,
{
    let rest = chunk.drop_first();
    let (s1, out1, r1) = assembler_step(s, out, chunk[0]);
    assert(!completes_marker(s.last, chunk, 0, 0xd8));
    if st > 0 {
        assert forall|k: int| 0 <= k <= st - 1 implies !#[trigger] completes_marker(
            s1.last,
            rest,
            k,
            0xd8,
        ) by {
            assert(completes_marker(s1.last, rest, k, 0xd8) == completes_marker(
                s.last,
                chunk,
                k + 1,
                0xd8,
            ));
        }
        assert forall|k: int| st - 1 + 1 < k < e - 1 implies !#[trigger] completes_marker(
            s1.last,
            rest,
            k,
            0xd9,
        ) by {
            assert(completes_marker(s1.last, rest, k, 0xd9) == completes_marker(
                s.last,
                chunk,
                k + 1,
                0xd9,
            ));
        }
        lemma_assembler_copies_frame(s1, out1, rest, st - 1, e - 1);
        assert(chunk.subrange(st, e + 1) =~= rest.subrange(st - 1, e));
    } else {
        let (s2, out2, r2) = assembler_step(s1, out1, rest[0]);
        assert(s2.in_frame && s2.len == 2 && s2.last == Some(0xd8u8));
        let body = chunk.skip(2);
        assert(body =~= rest.drop_first());
        assert forall|k: int| 0 <= k < e - 2 implies !#[trigger] completes_marker(
            s2.last,
            body,
            k,
            0xd9,
        ) by {
            if k > 0 {
                assert(completes_marker(s2.last, body, k, 0xd9) == completes_marker(
                    s.last,
                    chunk,
                    k + 2,
                    0xd9,
                ));
            }
        }
        assert(completes_marker(s2.last, body, e - 2, 0xd9));
        lemma_assembler_copies_open_frame(s2, out2, body, e - 2);
        let (s3, out3, r3) = assemble(s2, out2, body);
        assert(out3.take(e + 1) =~= chunk.subrange(0, e + 1)) by {
            assert(out3.take(2)[0] == out2.take(2)[0]);
            assert(out3.take(2)[1] == out2.take(2)[1]);
            assert forall|i: int| 2 <= i < e + 1 implies #[trigger] out3.take(e + 1)[i]
                == chunk.subrange(0, e + 1)[i] by {
                assert(out3.subrange(2, e + 1)[i - 2] == body.take(e - 1)[i - 2]);
            }
        }
    }
}

/// Every frame that the assembler reports is a complete JPEG image at the
/// start of its output, and the assembler keeps track of its open frame
/// across chunks; an error leaves it as new and keeps the output's length.
pub proof fn lemma_assembled_frames_are_complete(s: AssemblerState, out: Seq<u8>, chunk: Seq<u8>)
    requires
        assembler_holds(s, out),
        out.len() <= usize::MAX,
    ensures
        ({
            let (s2, out2, r) = assemble(s, out, chunk);
            &&& out2.len() == out.len()
            &&& assembler_holds(s2, out2)
            &&& (r matches Ok(Some(n)) ==> n <= out.len() && complete_jpeg(out2.take(n as int)))
            &&& (r is Err ==> s2 == assembler_initial())
        }),
    decreases chunk.len(),
{
    if chunk.len() > 0 {
        let byte = chunk[0];
        let (s2, out2, r) = assembler_step(s, out, byte);
        if !s.in_frame {
            if s.last == Some(0xffu8) && byte == 0xd8 && out.len() >= 2 {
                assert(out2[0] == 0xff);
                assert(out2[1] == 0xd8);
                assert(assembler_holds(s2, out2));
            }
        } else if s.len < out.len() {
            assert(out2[0] == out[0]);
            assert(out2[1] == out[1]);
            assert(out2[s.len as int] == byte);
            if s.last == Some(0xffu8) && byte == 0xd9 {
                let n = (s.len + 1) as usize;
                assert(s.len != 2);
                let t = out2.take(n as int);
                assert(t[0] == out2[0]);
                assert(t[1] == out2[1]);
                assert(t[t.len() - 2] == out[s.len - 1]);
                assert(t[t.len() - 1] == byte);
                assert(complete_jpeg(t));
            }
        }
        if r is None {
            assert(assembler_holds(s2, out2));
            lemma_assembled_frames_are_complete(s2, out2, chunk.drop_first());
        }
    }
}

} // verus!
