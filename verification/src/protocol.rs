use vstd::prelude::*;

verus! {

/// Number of bytes peeked from the transport per scan window; always
/// lower than a full JPEG frame.
pub const PEEK_BUF_SIZE: usize = 256;

/// Unread-backlog high-water mark in bytes: once the transport reports
/// more than this much buffered data, the backlog is dropped to bound
/// stream latency.
pub const LEFTOVER_THRESHOLD: u32 = 8192;

/// The fixed four-byte frame header `FF A0 FF A1` starts at index `i`
/// of `s`.
pub open spec fn header_at(s: Seq<u8>, i: int) -> bool {
    &&& 0 <= i
    &&& i + 4 <= s.len()
    &&& s[i] == 0xffu8
    &&& s[i + 1] == 0xa0u8
    &&& s[i + 2] == 0xffu8
    &&& s[i + 3] == 0xa1u8
}

/// `i` is the earliest index of `s` at which the frame header starts.
pub open spec fn first_header_at(s: Seq<u8>, i: int) -> bool {
    header_at(s, i) && forall|j: int| 0 <= j < i ==> !header_at(s, j)
}

/// The little-endian 16-bit value stored at indices `i` and `i + 1`.
pub open spec fn le16_at(s: Seq<u8>, i: int) -> int
    recommends
        0 <= i,
        i + 2 <= s.len(),
{
    s[i] + 256 * s[i + 1]
}

/// A scan window is usable: it holds a full header and both bytes of
/// the length field that follows it.
pub open spec fn window_has_frame_header(s: Seq<u8>) -> bool {
    exists|i: int| #[trigger] header_at(s, i) && i + 6 <= s.len()
}

/// A whole stream contains a complete frame at its first header: the
/// header, the length field, and that many payload bytes.
pub open spec fn stream_has_frame(s: Seq<u8>) -> bool {
    exists|i: int|
        #[trigger] first_header_at(s, i) && i + 6 <= s.len() && i + 6 + le16_at(s, i + 4)
            <= s.len()
}

/// Result of scanning one peek window for the frame header.
pub enum HeaderScan {
    /// The header was found; `rest` holds every byte after the length
    /// field and `payload_len` is the declared payload length.
    Found { rest: Vec<u8>, payload_len: u16 },
    /// No usable header in this window; the caller discards the window
    /// and peeks a fresh one.
    Incomplete,
}

/// At most one index is the first header position.
pub proof fn lemma_first_header_unique(s: Seq<u8>, i: int, j: int)
    requires
        first_header_at(s, i),
        first_header_at(s, j),
    ensures
        i == j,
{
}

fn find_header(input: &[u8]) -> (r: Option<usize>)
    ensures
        r matches Some(i) ==> first_header_at(input@, i as int),
        r is None ==> forall|j: int| !header_at(input@, j),
{
    let n: usize = input.len();
    if n < 4 {
        return None;
    }
    let mut i: usize = 0;
    while i <= n - 4
        invariant
            n == input@.len(),
            4 <= n,
            0 <= i <= n - 3,
            forall|j: int| 0 <= j < i ==> !header_at(input@, j),
        decreases n - i,
    {
        if input[i] == 0xff && input[i + 1] == 0xa0 && input[i + 2] == 0xff && input[i + 3]
            == 0xa1 {
            return Some(i);
        }
        i = i + 1;
    }
    assert(forall|j: int| i <= j ==> !header_at(input@, j));
    None
}

/// Scan one peek window for the frame header and the two-byte
/// little-endian length field after it.
///
/// Mirrors the streaming discipline of the acquisition loop: a window
/// without a usable header is reported `Incomplete` and discarded
/// whole, so a header split across two windows is lost (an accepted
/// trade for simplicity of resynchronization).
pub fn parse_next_header(input: &[u8]) -> (r: HeaderScan)
    ensures
        (r is Incomplete) <==> !window_has_frame_header(input@),
        r matches HeaderScan::Found { rest, payload_len } ==> exists|i: int|
            #[trigger] first_header_at(input@, i) && i + 6 <= input@.len() && payload_len as int
                == le16_at(input@, i + 4) && rest@ == input@.skip(i + 6),
{
    match find_header(input) {
        None => {
            assert(!window_has_frame_header(input@));
            HeaderScan::Incomplete
        },
        Some(i) => {
            if input.len() - i < 6 {
                proof {
                    if window_has_frame_header(input@) {
                        let j = choose|j: int| #[trigger] header_at(input@, j) && j + 6
                            <= input@.len();
                        assert(!(j < i));
                    }
                }
                HeaderScan::Incomplete
            } else {
                let lo: u16 = input[i + 4] as u16;
                let hi: u16 = input[i + 5] as u16;
                let payload_len: u16 = lo + hi * 256;
                let rest = vstd::slice::slice_to_vec(
                    vstd::slice::slice_subrange(input, i + 6, input.len()),
                );
                proof {
                    assert(rest@ =~= input@.skip(i + 6));
                    assert(header_at(input@, i as int) && i + 6 <= input@.len());
                }
                HeaderScan::Found { rest, payload_len }
            }
        },
    }
}

/// Take exactly `len_data` payload bytes from the front of `input`.
///
/// Returns `None` when fewer bytes are available, which the caller
/// reports as an incomplete frame rather than padding the payload.
pub fn parse_jpeg_data(input: &[u8], len_data: u16) -> (r: Option<Vec<u8>>)
    ensures
        (r is Some) <==> len_data as int <= input@.len(),
        r matches Some(payload) ==> payload@ == input@.take(len_data as int),
{
    let want: usize = len_data as usize;
    if want <= input.len() {
        let payload = vstd::slice::slice_to_vec(vstd::slice::slice_subrange(input, 0, want));
        proof {
            assert(payload@ =~= input@.take(len_data as int));
        }
        Some(payload)
    } else {
        None
    }
}

/// How many payload bytes are still missing when `have` bytes are in
/// hand out of a declared length of `len_data`.
pub fn missing_bytes(have: usize, len_data: u16) -> (r: usize)
    ensures
        r == if have < len_data as int {
            len_data as int - have
        } else {
            0int
        },
{
    let want: usize = len_data as usize;
    if have < want {
        want - have
    } else {
        0
    }
}

/// Concatenate the bytes retained after the header with the bytes
/// fetched for the deficit, and take the declared payload from the
/// front.
pub fn complete_frame(rest: &[u8], extra: &[u8], len_data: u16) -> (r: Option<Vec<u8>>)
    ensures
        (r is Some) <==> len_data as int <= rest@.len() + extra@.len(),
        r matches Some(payload) ==> payload@ == (rest@ + extra@).take(len_data as int),
{
    let mut combined = vstd::slice::slice_to_vec(rest);
    combined.extend_from_slice(extra);
    proof {
        assert(combined@ =~= rest@ + extra@);
    }
    parse_jpeg_data(combined.as_slice(), len_data)
}

/// Whether the transport's unread backlog is over the high-water mark
/// and must be dropped to keep the stream's latency bounded.
pub fn should_drop_backlog(leftover: u32) -> (r: bool)
    ensures
        r <==> leftover > LEFTOVER_THRESHOLD,
{
    leftover > LEFTOVER_THRESHOLD
}

/// Index of the first scan window, in a run of peeked windows, that
/// holds a usable frame header.
pub open spec fn first_usable_window(ws: Seq<Seq<u8>>) -> Option<int>
    decreases ws.len(),
{
    if ws.len() == 0 {
        None
    } else if window_has_frame_header(ws[0]) {
        Some(0)
    } else {
        match first_usable_window(ws.skip(1)) {
            None => None,
            Some(k) => Some(k + 1),
        }
    }
}

/// Resynchronization law: when none of the first `k` peeked windows
/// holds a usable header and window `k` does, the header scan discards
/// exactly those `k` windows and locks onto window `k`. Together with
/// `parse_next_header`'s contract, every discarded window is one the
/// scan reported `Incomplete`.
pub proof fn lemma_scan_resync(ws: Seq<Seq<u8>>, k: int)
    requires
        0 <= k < ws.len(),
        forall|j: int| 0 <= j < k ==> !window_has_frame_header(#[trigger] ws[j]),
        window_has_frame_header(ws[k]),
    ensures
        first_usable_window(ws) == Some(k),
    decreases k,
{
    if k > 0 {
        assert forall|j: int| 0 <= j < k - 1 implies !window_has_frame_header(
            #[trigger] ws.skip(1)[j],
        ) by {
            assert(ws.skip(1)[j] == ws[j + 1]);
        }
        assert(ws.skip(1)[k - 1] == ws[k]);
        lemma_scan_resync(ws.skip(1), k - 1);
    }
}

/// The wire encoding of one frame: the fixed header, the payload
/// length as two little-endian bytes, then the payload itself.
pub open spec fn encode_frame(payload: Seq<u8>) -> Seq<u8>
    recommends
        payload.len() <= 0xffff,
{
    seq![
        0xffu8,
        0xa0u8,
        0xffu8,
        0xa1u8,
        (payload.len() % 256) as u8,
        (payload.len() / 256) as u8,
    ] + payload
}

/// Round-trip law: a stream made of garbage bytes, then one encoded
/// frame, then trailing bytes parses back to exactly the embedded
/// payload, consuming the garbage and the frame and nothing more. The
/// garbage must not itself contain a frame header start (including
/// one formed together with the frame's first bytes).
pub proof fn lemma_frame_round_trip(garbage: Seq<u8>, payload: Seq<u8>, trailing: Seq<u8>)
    requires
        payload.len() <= 0xffff,
        forall|j: int|
            0 <= j < garbage.len() ==> !header_at(
                garbage + encode_frame(payload) + trailing,
                j,
            ),
    ensures
        ({
            let s = garbage + encode_frame(payload) + trailing;
            let g = garbage.len() as int;
            &&& first_header_at(s, g)
            &&& le16_at(s, g + 4) == payload.len()
            &&& s.subrange(g + 6, g + 6 + payload.len()) == payload
            &&& stream_has_frame(s)
        }),
{
    let s = garbage + encode_frame(payload) + trailing;
    let g = garbage.len() as int;
    assert(s[g] == 0xffu8 && s[g + 1] == 0xa0u8 && s[g + 2] == 0xffu8 && s[g + 3] == 0xa1u8);
    assert(header_at(s, g));
    assert(s[g + 4] == (payload.len() % 256) as u8 && s[g + 5] == (payload.len() / 256) as u8);
    assert(payload.len() % 256 + 256 * (payload.len() / 256) == payload.len()) by {
        vstd::arithmetic::div_mod::lemma_fundamental_div_mod(payload.len() as int, 256);
    }
    assert(le16_at(s, g + 4) == payload.len());
    assert(s.subrange(g + 6, g + 6 + payload.len()) =~= payload);
    assert(stream_has_frame(s)) by {
        assert(first_header_at(s, g) && g + 6 <= s.len() && g + 6 + le16_at(s, g + 4) <= s.len());
    }
}

/// Result of a one-shot parse of an in-memory stream.
pub enum FrameParse {
    /// A complete frame was found: `payload` holds its bytes and
    /// `consumed` counts every stream byte up to and including the
    /// payload's last byte.
    Frame { payload: Vec<u8>, consumed: usize },
    /// The stream holds no complete frame yet.
    Incomplete,
}

/// Parse one frame out of an in-memory stream: discard everything
/// before the first header, read the length field, and extract that
/// many payload bytes.
///
/// `consumed` reports exactly how many leading stream bytes the frame
/// accounted for, so a caller can resume after them.
pub fn extract_frame(input: &[u8]) -> (r: FrameParse)
    ensures
        (r is Incomplete) <==> !stream_has_frame(input@),
        r matches FrameParse::Frame { payload, consumed } ==> exists|i: int|
            #[trigger] first_header_at(input@, i) && consumed == i + 6 + le16_at(input@, i + 4)
                && consumed <= input@.len() && payload@ == input@.subrange(
                i + 6,
                i + 6 + le16_at(input@, i + 4),
            ),
{
    match find_header(input) {
        None => {
            assert(!stream_has_frame(input@));
            FrameParse::Incomplete
        },
        Some(i) => {
            if input.len() - i < 6 {
                proof {
                    if stream_has_frame(input@) {
                        let j = choose|j: int|
                            #[trigger] first_header_at(input@, j) && j + 6 <= input@.len() && j + 6
                                + le16_at(input@, j + 4) <= input@.len();
                        lemma_first_header_unique(input@, i as int, j);
                    }
                }
                FrameParse::Incomplete
            } else {
                let lo: u16 = input[i + 4] as u16;
                let hi: u16 = input[i + 5] as u16;
                let payload_len: u16 = lo + hi * 256;
                let plen: usize = payload_len as usize;
                if input.len() - (i + 6) < plen {
                    proof {
                        if stream_has_frame(input@) {
                            let j = choose|j: int|
                                #[trigger] first_header_at(input@, j) && j + 6 <= input@.len() && j
                                    + 6 + le16_at(input@, j + 4) <= input@.len();
                            lemma_first_header_unique(input@, i as int, j);
                        }
                    }
                    FrameParse::Incomplete
                } else {
                    let payload = vstd::slice::slice_to_vec(
                        vstd::slice::slice_subrange(input, i + 6, i + 6 + plen),
                    );
                    let consumed: usize = i + 6 + plen;
                    proof {
                        assert(first_header_at(input@, i as int) && i + 6 + le16_at(
                            input@,
                            i + 4,
                        ) <= input@.len());
                    }
                    FrameParse::Frame { payload, consumed }
                }
            }
        },
    }
}

/// State carried by the streaming decoder between reads from the
/// transport.
pub enum ParserState {
    /// Looking for a frame header; the next read is a fresh peek
    /// window.
    Scanning,
    /// A header and length field were seen; `have` holds the payload
    /// bytes already read and `payload_len` the declared length.
    Awaiting { have: Vec<u8>, payload_len: u16 },
}

/// What the streaming decoder asks of its driver after one step.
pub enum DecodeStep {
    /// Peek a fresh window of `PEEK_BUF_SIZE` bytes and step again.
    NeedWindow,
    /// Read exactly this many further bytes and step again.
    NeedBytes(usize),
    /// A complete payload was extracted.
    Frame(Vec<u8>),
    /// The payload could not be completed from the bytes the driver
    /// supplied; the current frame attempt is abandoned.
    Corrupt,
}

/// What one scanning step must produce when the window's first usable
/// header starts at `i`: either the payload completes from the bytes
/// already past the length field, or the decoder waits for exactly the
/// deficit.
pub open spec fn scan_hit_ok(window: Seq<u8>, i: int, r: (ParserState, DecodeStep)) -> bool {
    let plen = le16_at(window, i + 4);
    let rest = window.skip(i + 6);
    if plen <= rest.len() {
        &&& r.0 is Scanning
        &&& r.1 matches DecodeStep::Frame(p) && p@ == rest.take(plen)
    } else {
        &&& r.0 matches ParserState::Awaiting { have, payload_len }
            && have@ == rest && payload_len as int == plen
        &&& r.1 matches DecodeStep::NeedBytes(n) && n == plen - rest.len()
    }
}

/// One step of the streaming decoder: feed it the bytes the driver
/// just read and learn what to read next, or receive a finished
/// payload.
///
/// While scanning, a window without a usable header is discarded
/// whole and a fresh window is requested. Once a header and length
/// are known, the step asks for exactly the missing byte count; any
/// bytes beyond the declared length are discarded with the window.
pub fn decode_step(state: ParserState, chunk: Vec<u8>) -> (r: (ParserState, DecodeStep))
    ensures
        state is Scanning && !window_has_frame_header(chunk@) ==> r.0 is Scanning && r.1
            is NeedWindow,
        state is Scanning && window_has_frame_header(chunk@) ==> exists|i: int|
            #[trigger] first_header_at(chunk@, i) && i + 6 <= chunk@.len() && scan_hit_ok(
                chunk@,
                i,
                r,
            ),
        state matches ParserState::Awaiting { have, payload_len } ==> r.0 is Scanning && (if (
        payload_len as int) <= have@.len() + chunk@.len() {
            r.1 matches DecodeStep::Frame(p) && p@ == (have@ + chunk@).take(payload_len as int)
        } else {
            r.1 is Corrupt
        }),
{
    match state {
        ParserState::Scanning => {
            match parse_next_header(chunk.as_slice()) {
                HeaderScan::Incomplete => (ParserState::Scanning, DecodeStep::NeedWindow),
                HeaderScan::Found { rest, payload_len } => {
                    if (payload_len as usize) <= rest.len() {
                        match parse_jpeg_data(rest.as_slice(), payload_len) {
                            Some(payload) => (ParserState::Scanning, DecodeStep::Frame(payload)),
                            None => {
                                // unreachable: the declared length was just checked
                                (ParserState::Scanning, DecodeStep::Corrupt)
                            },
                        }
                    } else {
                        let deficit = missing_bytes(rest.len(), payload_len);
                        (
                            ParserState::Awaiting { have: rest, payload_len },
                            DecodeStep::NeedBytes(deficit),
                        )
                    }
                },
            }
        },
        ParserState::Awaiting { have, payload_len } => {
            match complete_frame(have.as_slice(), chunk.as_slice(), payload_len) {
                Some(payload) => (ParserState::Scanning, DecodeStep::Frame(payload)),
                None => (ParserState::Scanning, DecodeStep::Corrupt),
            }
        },
    }
}

} // verus!
