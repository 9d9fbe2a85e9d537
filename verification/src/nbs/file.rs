//! The NBS song file format: a header followed by notes grouped by tick and layer.
//!
//! All numbers are little endian. A file starting with a zero 16-bit value uses the
//! newer layout, which adds a version byte, an instrument count byte, loop settings
//! and four extra bytes per note.

use vstd::prelude::*;
use vstd::string::*;
use crate::nbs::defs::{NbsInstrument, NbsPitch, instrument_of_index, pitch_of_ordinal};
use crate::nbs::song::{NbsNote, NbsPositionedNote};
use crate::text::{trim, trimmed, remove_line_breaks, without_line_breaks};

verus! {

/// The part of a song file a read failed in.
#[derive(Debug, Copy, Clone, PartialEq, Eq, Structural)]
pub enum NbsField {
    LengthTicks,
    FormatInfo,
    NewFormatLengthTicks,
    Height,
    Name,
    Author,
    OriginalAuthor,
    Description,
    Tempo,
    Settings,
    ImportFileName,
    LoopFlag,
    MaxLoopCount,
    LoopStartTick,
    Jumps,
    LayerJumps,
    InstrumentId,
    NoteId,
    NoteDetails,
}

/// Why a song file was rejected.
#[derive(Debug, Copy, Clone, PartialEq, Eq, Structural)]
pub enum NbsError {
    /// The file ended inside the given field.
    Truncated(NbsField),
    /// A note used an instrument index this bot does not know.
    UnknownInstrument(u8),
}

/// Whether `n` bytes starting at `p` lie inside `b`.
pub open spec fn fits(b: Seq<u8>, p: int, n: int) -> bool {
    0 <= p && 0 <= n && p + n <= b.len()
}

/// Little endian 16-bit value at `p`.
pub open spec fn le16(b: Seq<u8>, p: int) -> u16 {
    (b[p] as int + 256 * b[p + 1] as int) as u16
}

/// Little endian 32-bit value at `p`.
pub open spec fn le32(b: Seq<u8>, p: int) -> u32 {
    (b[p] as int + 256 * b[p + 1] as int + 65536 * b[p + 2] as int + 16777216 * b[p + 3] as int) as u32
}

/// Whether a length-prefixed string starting at `p` lies inside `b`.
pub open spec fn string_fits(b: Seq<u8>, p: int) -> bool {
    fits(b, p, 4) && fits(b, p + 4, le32(b, p) as int)
}

/// Position just after the length-prefixed string starting at `p`.
pub open spec fn string_end(b: Seq<u8>, p: int) -> int {
    p + 4 + le32(b, p) as int
}

/// What `String::from_utf8_lossy` makes of a byte sequence.
pub uninterp spec fn utf8_lossy(bytes: Seq<u8>) -> Seq<char>;

/// Text of the length-prefixed string starting at `p`.
/// Whether a text read from the string at `p` is, where all its bytes are ASCII (below
/// 128), exactly those bytes as characters.
pub open spec fn ascii_text_at(text: Seq<char>, b: Seq<u8>, p: int) -> bool {
    let bytes = b.subrange(p + 4, string_end(b, p));
    (forall|i: int| 0 <= i < bytes.len() ==> #[trigger] bytes[i] < 128) ==> text == bytes.map_values(|c: u8| c as char)
}

pub open spec fn string_at(b: Seq<u8>, p: int) -> Seq<char> {
    utf8_lossy(b.subrange(p + 4, string_end(b, p)))
}

/// The header fields of a song file and where its notes start.
pub struct NbsHeader {
    pub new_format: bool,
    pub length_ticks: u16,
    pub height: u16,
    /// Positions of the length-prefixed name, author, original author and description.
    pub name_at: int,
    pub author_at: int,
    pub original_author_at: int,
    pub description_at: int,
    pub tempo: u16,
    pub loop_flag: u8,
    pub max_loop_count: u8,
    pub loop_start_tick: u16,
    pub notes_start: int,
}

/// The header of a song file, or the field in which the file ends.
pub open spec fn spec_header(b: Seq<u8>) -> Result<NbsHeader, NbsError> {
    if !fits(b, 0, 2) {
        Err(NbsError::Truncated(NbsField::LengthTicks))
    } else {
        let nf = le16(b, 0) == 0;
        if nf && !fits(b, 2, 2) {
            Err(NbsError::Truncated(NbsField::FormatInfo))
        } else if nf && !fits(b, 4, 2) {
            Err(NbsError::Truncated(NbsField::NewFormatLengthTicks))
        } else {
            let length_ticks = if nf { le16(b, 4) } else { le16(b, 0) };
            let ph: int = if nf { 6 } else { 2 };
            let pn = ph + 2;
            if !fits(b, ph, 2) {
                Err(NbsError::Truncated(NbsField::Height))
            } else if !string_fits(b, pn) {
                Err(NbsError::Truncated(NbsField::Name))
            } else {
                let pa = string_end(b, pn);
                if !string_fits(b, pa) {
                    Err(NbsError::Truncated(NbsField::Author))
                } else {
                    let po = string_end(b, pa);
                    if !string_fits(b, po) {
                        Err(NbsError::Truncated(NbsField::OriginalAuthor))
                    } else {
                        let pd = string_end(b, po);
                        if !string_fits(b, pd) {
                            Err(NbsError::Truncated(NbsField::Description))
                        } else {
                            let pt = string_end(b, pd);
                            if !fits(b, pt, 2) {
                                Err(NbsError::Truncated(NbsField::Tempo))
                            } else if !fits(b, pt + 2, 23) {
                                Err(NbsError::Truncated(NbsField::Settings))
                            } else if !string_fits(b, pt + 25) {
                                Err(NbsError::Truncated(NbsField::ImportFileName))
                            } else {
                                let pl = string_end(b, pt + 25);
                                if nf && !fits(b, pl, 1) {
                                    Err(NbsError::Truncated(NbsField::LoopFlag))
                                } else if nf && !fits(b, pl + 1, 1) {
                                    Err(NbsError::Truncated(NbsField::MaxLoopCount))
                                } else if nf && !fits(b, pl + 2, 2) {
                                    Err(NbsError::Truncated(NbsField::LoopStartTick))
                                } else {
                                    Ok(NbsHeader {
                                        new_format: nf,
                                        length_ticks,
                                        height: le16(b, ph),
                                        name_at: pn,
                                        author_at: pa,
                                        original_author_at: po,
                                        description_at: pd,
                                        tempo: le16(b, pt),
                                        loop_flag: if nf { b[pl] } else { 0 },
                                        max_loop_count: if nf { b[pl + 1] } else { 0 },
                                        loop_start_tick: if nf { le16(b, pl + 2) } else { 0 },
                                        notes_start: if nf { pl + 4 } else { pl },
                                    })
                                }
                            }
                        }
                    }
                }
            }
        }
    }
}

/// A 16-bit value reinterpreted as signed (`as i16`).
pub open spec fn as_signed16(v: u16) -> int {
    if v < 32768 { v as int } else { v as int - 65536 }
}

/// A byte reinterpreted as signed (`as i8`).
pub open spec fn as_signed8(v: u8) -> int {
    if v < 128 { v as int } else { v as int - 256 }
}

/// Two's complement wrap-around into the 16-bit signed range.
pub open spec fn wrap16(x: int) -> int {
    if x > 32767 { x - 65536 } else if x < -32768 { x + 65536 } else { x }
}

/// Whether `(note_id as i8) - 33` overflows the 8-bit signed range.
pub open spec fn note_id_overflows(v: u8) -> bool {
    as_signed8(v) - 33 < -128
}

/// The pitch of a note id: `(note_id as i8) - 33`, clamped to 0..=24.
pub open spec fn pitch_ordinal_of_note_id(v: u8) -> int {
    let x = as_signed8(v) - 33;
    if x < 0 { 0 } else if x > 24 { 24 } else { x }
}

/// Outcome of reading notes.
pub enum NoteScan {
    /// All notes up to the terminating zero jump.
    Done(Seq<NbsPositionedNote>),
    /// The file is malformed.
    Failed(NbsError),
    /// A layer number or a note id computation overflows its type.
    Overflow,
}

/// Reads the note section from position `p`, with the current tick and, inside a
/// tick, the current layer (`None` between ticks); `acc` holds the notes read so far.
pub open spec fn scan_notes(
    b: Seq<u8>,
    nf: bool,
    p: int,
    tick: int,
    layer: Option<int>,
    acc: Seq<NbsPositionedNote>,
) -> NoteScan
    decreases b.len() - p,
{
    if !fits(b, p, 2) {
        NoteScan::Failed(NbsError::Truncated(if layer is None { NbsField::Jumps } else { NbsField::LayerJumps }))
    } else {
        let j = le16(b, p);
        match layer {
            None => {
                if j == 0 {
                    NoteScan::Done(acc)
                } else {
                    scan_notes(b, nf, p + 2, wrap16(tick + as_signed16(j)), Some(-1), acc)
                }
            },
            Some(l) => {
                if j == 0 {
                    scan_notes(b, nf, p + 2, tick, None, acc)
                } else {
                    let nl = l + as_signed16(j);
                    if nl < -32768 || nl > 32767 {
                        NoteScan::Overflow
                    } else if !fits(b, p + 2, 1) {
                        NoteScan::Failed(NbsError::Truncated(NbsField::InstrumentId))
                    } else if instrument_of_index(b[p + 2] as int) is None {
                        NoteScan::Failed(NbsError::UnknownInstrument(b[p + 2]))
                    } else if !fits(b, p + 3, 1) {
                        NoteScan::Failed(NbsError::Truncated(NbsField::NoteId))
                    } else if note_id_overflows(b[p + 3]) {
                        NoteScan::Overflow
                    } else if nf && !fits(b, p + 4, 4) {
                        NoteScan::Failed(NbsError::Truncated(NbsField::NoteDetails))
                    } else {
                        let note = NbsNote {
                            instrument: instrument_of_index(b[p + 2] as int).unwrap(),
                            pitch: pitch_of_ordinal(pitch_ordinal_of_note_id(b[p + 3])).unwrap(),
                        };
                        let placed = NbsPositionedNote {
                            tick: if tick < 0 { 0 } else { tick as u16 },
                            layer: if nl < 0 { 0 } else { nl as u16 },
                            note,
                        };
                        scan_notes(b, nf, if nf { p + 8 } else { p + 4 }, tick, Some(nl), acc.push(placed))
                    }
                }
            },
        }
    }
}

/// Outcome of reading a whole song file.
pub enum NbsScan {
    Song(NbsHeader, Seq<NbsPositionedNote>),
    Failed(NbsError),
    Overflow,
}

/// What the bot reads from a song file's bytes.
pub open spec fn spec_parse(b: Seq<u8>) -> NbsScan {
    match spec_header(b) {
        Err(e) => NbsScan::Failed(e),
        Ok(h) => match scan_notes(b, h.new_format, h.notes_start, -1, None, Seq::empty()) {
            NoteScan::Done(notes) => NbsScan::Song(h, notes),
            NoteScan::Failed(e) => NbsScan::Failed(e),
            NoteScan::Overflow => NbsScan::Overflow,
        },
    }
}

/// Whether reading the file overflows an integer (and panics in the bot).
pub open spec fn parse_overflows(b: Seq<u8>) -> bool {
    spec_parse(b) is Overflow
}

/// The distinct notes of a sequence, in order of first appearance.
pub open spec fn distinct_notes(s: Seq<NbsNote>) -> Seq<NbsNote>
    decreases s.len(),
{
    if s.len() == 0 {
        Seq::empty()
    } else {
        let d = distinct_notes(s.drop_last());
        if d.contains(s.last()) { d } else { d.push(s.last()) }
    }
}

/// A song's unique notes (`distinct_notes` of what it plays) hold no note twice, and
/// hold exactly the notes that are played.
pub proof fn law_unique_notes_form_a_set(s: Seq<NbsNote>)
    ensures
        distinct_notes(s).no_duplicates(),
        forall|n: NbsNote| distinct_notes(s).contains(n) <==> s.contains(n),
    decreases s.len(),
{
    if s.len() > 0 {
        let rest = s.drop_last();
        law_unique_notes_form_a_set(rest);
        let d = distinct_notes(rest);
        assert forall|n: NbsNote| distinct_notes(s).contains(n) <==> s.contains(n) by {
            if s.contains(n) && n != s.last() {
                let k = choose|k: int| 0 <= k < s.len() && s[k] == n;
                assert(rest[k] == n);
            }
            if rest.contains(n) {
                let k = choose|k: int| 0 <= k < rest.len() && rest[k] == n;
                assert(s[k] == n);
            }
            if !d.contains(s.last()) && distinct_notes(s).contains(n) && n != s.last() {
                let k = choose|k: int| 0 <= k < d.push(s.last()).len() && d.push(s.last())[k] == n;
                assert(d[k] == n);
            }
            if !d.contains(s.last()) && d.contains(n) {
                let k = choose|k: int| 0 <= k < d.len() && d[k] == n;
                assert(d.push(s.last())[k] == n);
            }
            if s.contains(n) && n == s.last() && !d.contains(s.last()) {
                assert(d.push(s.last())[d.len() as int] == n);
            }
        }
    }
}

/// The notes played by a sequence of placed notes.
pub open spec fn notes_of(s: Seq<NbsPositionedNote>) -> Seq<NbsNote> {
    s.map_values(|p: NbsPositionedNote| p.note)
}

/// A decoded song.
#[derive(Debug, Clone)]
pub struct NbsSong {
    /// Each note the song plays, once, in order of first appearance.
    pub unique: Vec<NbsNote>,
    /// All notes, in file order.
    pub notes: Vec<NbsPositionedNote>,
    pub length_ticks: u16,
    pub height: u16,
    /// Tempo in ticks per second, times 100.
    pub tempo: u16,
    pub loop_start_tick: u16,
    /// Whether the song loops (newer layout only; 0 otherwise).
    pub loop_flag: u8,
    pub max_loop_count: u8,
    pub file_name: Option<String>,
    pub name: String,
    pub author: String,
    pub original_author: String,
    pub description: String,
}

/// View of an optional string slice.
pub open spec fn opt_str_view(o: Option<&str>) -> Option<Seq<char>> {
    match o {
        Some(s) => Some(s@),
        None => None,
    }
}

/// View of an optional string.
pub open spec fn opt_string_view(o: Option<String>) -> Option<Seq<char>> {
    match o {
        Some(s) => Some(s@),
        None => None,
    }
}

impl NbsSong {
    /// `unique` lists the distinct notes of `notes`.
    pub open spec fn wf(&self) -> bool {
        self.unique@ == distinct_notes(notes_of(self.notes@))
    }

    /// The song holds exactly the given header, notes and file name.
    pub open spec fn is_song_of(
        &self,
        b: Seq<u8>,
        h: NbsHeader,
        notes: Seq<NbsPositionedNote>,
        file_name: Option<Seq<char>>,
    ) -> bool {
        &&& self.wf()
        &&& self.notes@ == notes
        &&& self.length_ticks == h.length_ticks
        &&& self.height == h.height
        &&& self.tempo == h.tempo
        &&& self.loop_start_tick == h.loop_start_tick
        &&& self.loop_flag == h.loop_flag
        &&& self.max_loop_count == h.max_loop_count
        &&& opt_string_view(self.file_name) == file_name
        &&& self.name@ == string_at(b, h.name_at)
        &&& self.author@ == string_at(b, h.author_at)
        &&& self.original_author@ == string_at(b, h.original_author_at)
        &&& self.description@ == string_at(b, h.description_at)
        &&& ascii_text_at(self.name@, b, h.name_at)
        &&& ascii_text_at(self.author@, b, h.author_at)
        &&& ascii_text_at(self.original_author@, b, h.original_author_at)
        &&& ascii_text_at(self.description@, b, h.description_at)
    }
}

/// Decodes bytes as UTF-8, replacing invalid sequences (`String::from_utf8_lossy`).
/// Bytes below 128 are ASCII and decode to the characters with the same code.
#[verifier::external_body]
fn decode_lossy(bytes: &[u8]) -> (s: String)
    ensures
        s@ == utf8_lossy(bytes@),
        (forall|i: int| 0 <= i < bytes@.len() ==> bytes@[i] < 128) ==> s@ == bytes@.map_values(
            |c: u8| c as char,
        ),
{
    String::from_utf8_lossy(bytes).to_string()
}

fn read_u8(b: &[u8], p: usize, field: NbsField) -> (r: Result<u8, NbsError>)
    ensures
        fits(b@, p as int, 1) ==> r == Ok::<u8, NbsError>(b@[p as int]),
        !fits(b@, p as int, 1) ==> r == Err::<u8, NbsError>(NbsError::Truncated(field)),
{
    if p >= b.len() {
        Err(NbsError::Truncated(field))
    } else {
        Ok(b[p])
    }
}

fn read_u16(b: &[u8], p: usize, field: NbsField) -> (r: Result<u16, NbsError>)
    ensures
        fits(b@, p as int, 2) ==> r == Ok::<u16, NbsError>(le16(b@, p as int)),
        !fits(b@, p as int, 2) ==> r == Err::<u16, NbsError>(NbsError::Truncated(field)),
{
    if p > b.len() || b.len() - p < 2 {
        Err(NbsError::Truncated(field))
    } else {
        Ok(b[p] as u16 + 256 * (b[p + 1] as u16))
    }
}

fn read_u32(b: &[u8], p: usize, field: NbsField) -> (r: Result<u32, NbsError>)
    ensures
        fits(b@, p as int, 4) ==> r == Ok::<u32, NbsError>(le32(b@, p as int)),
        !fits(b@, p as int, 4) ==> r == Err::<u32, NbsError>(NbsError::Truncated(field)),
{
    if p > b.len() || b.len() - p < 4 {
        Err(NbsError::Truncated(field))
    } else {
        Ok(b[p] as u32 + 256 * (b[p + 1] as u32) + 65536 * (b[p + 2] as u32) + 16777216 * (b[p + 3] as u32))
    }
}

fn read_string(b: &[u8], p: usize, field: NbsField) -> (r: Result<(String, usize), NbsError>)
    ensures
        string_fits(b@, p as int) ==> (r matches Ok((text, end)) && text@ == string_at(b@, p as int)
            && ascii_text_at(text@, b@, p as int) && end == string_end(b@, p as int)),
        !string_fits(b@, p as int) ==> r == Err::<(String, usize), NbsError>(NbsError::Truncated(field)),
{
    let len = match read_u32(b, p, field) {
        Ok(v) => v,
        Err(e) => return Err(e),
    };
    assert(b@.len() == b.len());
    let start = p + 4;
    if len as usize > b.len() - start {
        return Err(NbsError::Truncated(field));
    }
    let end = start + len as usize;
    let bytes = &b[start..end];
    let s = decode_lossy(bytes);
    proof {
        assert(bytes@ == b@.subrange(p + 4, string_end(b@, p as int)));
    }
    Ok((s, end))
}

/// Header fields as read from a file.
struct HeaderFields {
    new_format: bool,
    length_ticks: u16,
    height: u16,
    name: String,
    author: String,
    original_author: String,
    description: String,
    tempo: u16,
    loop_flag: u8,
    max_loop_count: u8,
    loop_start_tick: u16,
    notes_start: usize,
}

impl HeaderFields {
    spec fn matches(&self, b: Seq<u8>, h: NbsHeader) -> bool {
        &&& self.new_format == h.new_format
        &&& self.length_ticks == h.length_ticks
        &&& self.height == h.height
        &&& self.name@ == string_at(b, h.name_at)
        &&& self.author@ == string_at(b, h.author_at)
        &&& self.original_author@ == string_at(b, h.original_author_at)
        &&& self.description@ == string_at(b, h.description_at)
        &&& ascii_text_at(self.name@, b, h.name_at)
        &&& ascii_text_at(self.author@, b, h.author_at)
        &&& ascii_text_at(self.original_author@, b, h.original_author_at)
        &&& ascii_text_at(self.description@, b, h.description_at)
        &&& self.tempo == h.tempo
        &&& self.loop_flag == h.loop_flag
        &&& self.max_loop_count == h.max_loop_count
        &&& self.loop_start_tick == h.loop_start_tick
        &&& self.notes_start == h.notes_start
    }
}

fn read_header(b: &[u8]) -> (r: Result<HeaderFields, NbsError>)
    ensures
        match spec_header(b@) {
            Ok(h) => (r matches Ok(f) && f.matches(b@, h)),
            Err(e) => r == Err::<HeaderFields, NbsError>(e),
        },
{
    let first = read_u16(b, 0, NbsField::LengthTicks)?;
    let new_format = first == 0;
    let mut length_ticks = first;
    let mut p: usize = 2;
    if new_format {
        let _format_info = read_u16(b, 2, NbsField::FormatInfo)?;
        length_ticks = read_u16(b, 4, NbsField::NewFormatLengthTicks)?;
        p = 6;
    }
    let height = read_u16(b, p, NbsField::Height)?;
    let (name, p) = read_string(b, p + 2, NbsField::Name)?;
    let (author, p) = read_string(b, p, NbsField::Author)?;
    let (original_author, p) = read_string(b, p, NbsField::OriginalAuthor)?;
    let (description, p) = read_string(b, p, NbsField::Description)?;
    let tempo = match read_u16(b, p, NbsField::Tempo) {
        Ok(v) => v,
        Err(e) => return Err(e),
    };
    assert(b@.len() == b.len());
    if p + 2 > b.len() || b.len() - (p + 2) < 23 {
        return Err(NbsError::Truncated(NbsField::Settings));
    }
    let (_import_file_name, p) = read_string(b, p + 25, NbsField::ImportFileName)?;
    let mut loop_flag: u8 = 0;
    let mut max_loop_count: u8 = 0;
    let mut loop_start_tick: u16 = 0;
    let mut p = p;
    if new_format {
        loop_flag = read_u8(b, p, NbsField::LoopFlag)?;
        max_loop_count = read_u8(b, p + 1, NbsField::MaxLoopCount)?;
        loop_start_tick = read_u16(b, p + 2, NbsField::LoopStartTick)?;
        p = p + 4;
    }
    Ok(HeaderFields {
        new_format,
        length_ticks,
        height,
        name,
        author,
        original_author,
        description,
        tempo,
        loop_flag,
        max_loop_count,
        loop_start_tick,
        notes_start: p,
    })
}

fn contains_note(v: &Vec<NbsNote>, n: NbsNote) -> (r: bool)
    ensures
        r == v@.contains(n),
{
    let mut i: usize = 0;
    while i < v.len()
        invariant
            i <= v.len(),
            forall|j: int| 0 <= j < i ==> v@[j] != n,
        decreases v.len() - i,
    {
        if v[i] == n {
            assert(v@[i as int] == n);
            return true;
        }
        i = i + 1;
    }
    false
}

/// Pitch ordinal of a note id byte, for bytes whose signed value minus 33 fits in `i8`.
fn pitch_ordinal_of(v: u8) -> (r: u8)
    requires
        !note_id_overflows(v),
    ensures
        r == pitch_ordinal_of_note_id(v),
        r <= 24,
{
    if v < 33 || v >= 128 {
        0
    } else if v > 57 {
        24
    } else {
        v - 33
    }
}

fn signed16(j: u16) -> (r: i32)
    ensures
        r == as_signed16(j),
{
    if j < 32768 { j as i32 } else { j as i32 - 65536 }
}

/// Result of reading a song file.
#[derive(Debug)]
pub enum NbsParseOutcome {
    Parsed(NbsSong),
    Failed(NbsError),
    /// Reading overflowed an integer (a layer number or a note id); the bot panics here.
    Overflowed,
}

proof fn lemma_notes_of_push(notes: Seq<NbsPositionedNote>, placed: NbsPositionedNote)
    ensures
        notes_of(notes.push(placed)).drop_last() == notes_of(notes),
        notes_of(notes.push(placed)).last() == placed.note,
        notes_of(notes.push(placed)).len() == notes.len() + 1,
{
    assert(notes_of(notes.push(placed)).drop_last() =~= notes_of(notes));
}

impl NbsSong {
    /// Reads a song from the bytes of an NBS file, reporting integer overflow
    /// (where the bot panics) as an outcome of its own.
    pub fn parse(reader: &[u8], file_name: Option<&str>) -> (r: NbsParseOutcome)
        ensures
            match spec_parse(reader@) {
                NbsScan::Song(h, notes) => (r matches NbsParseOutcome::Parsed(song)
                    && song.is_song_of(reader@, h, notes, opt_str_view(file_name))),
                NbsScan::Failed(e) => r == NbsParseOutcome::Failed(e),
                NbsScan::Overflow => r is Overflowed,
            },
    {
        let b = reader;
        proof {
            assert(b@.len() == b.len());
        }
        let header = match read_header(b) {
            Ok(h) => h,
            Err(e) => return NbsParseOutcome::Failed(e),
        };
        let ghost h = spec_header(b@)->Ok_0;
        let nf = header.new_format;
        let ghost total = scan_notes(b@, nf, h.notes_start, -1, None, Seq::empty());
        assert(notes_of(Seq::<NbsPositionedNote>::empty()) =~= Seq::<NbsNote>::empty());
        let mut p: usize = header.notes_start;
        let mut tick: i16 = -1;
        let mut notes: Vec<NbsPositionedNote> = Vec::new();
        let mut unique: Vec<NbsNote> = Vec::new();
        loop
            invariant_except_break
                spec_parse(b@) == match total {
                    NoteScan::Done(ns) => NbsScan::Song(h, ns),
                    NoteScan::Failed(e) => NbsScan::Failed(e),
                    NoteScan::Overflow => NbsScan::Overflow,
                },
                header.matches(b@, h),
                nf == h.new_format,
                b@ == reader@,
                p <= b@.len(),
                b@.len() == b.len(),
                scan_notes(b@, nf, p as int, tick as int, None, notes@) == total,
                unique@ == distinct_notes(notes_of(notes@)),
            ensures
                spec_parse(b@) == match total {
                    NoteScan::Done(ns) => NbsScan::Song(h, ns),
                    NoteScan::Failed(e) => NbsScan::Failed(e),
                    NoteScan::Overflow => NbsScan::Overflow,
                },
                header.matches(b@, h),
                nf == h.new_format,
                b@ == reader@,
                total == NoteScan::Done(notes@),
                unique@ == distinct_notes(notes_of(notes@)),
            decreases b@.len() - p,
        {
            let j = match read_u16(b, p, NbsField::Jumps) {
                Ok(v) => v,
                Err(e) => return NbsParseOutcome::Failed(e),
            };
            if j == 0 {
                break;
            }
            let t: i32 = tick as i32 + signed16(j);
            let wrapped: i32 = if t > 32767 { t - 65536 } else if t < -32768 { t + 65536 } else { t };
            tick = wrapped as i16;
            p = p + 2;
            let ghost outer_p = p;
            let mut layer: i16 = -1;
            loop
                invariant_except_break
                    spec_parse(b@) == match total {
                        NoteScan::Done(ns) => NbsScan::Song(h, ns),
                        NoteScan::Failed(e) => NbsScan::Failed(e),
                        NoteScan::Overflow => NbsScan::Overflow,
                    },
                    header.matches(b@, h),
                    nf == h.new_format,
                    b@ == reader@,
                    p <= b@.len(),
                    p >= outer_p,
                    b@.len() == b.len(),
                    scan_notes(b@, nf, p as int, tick as int, Some(layer as int), notes@) == total,
                    unique@ == distinct_notes(notes_of(notes@)),
                ensures
                    spec_parse(b@) == match total {
                        NoteScan::Done(ns) => NbsScan::Song(h, ns),
                        NoteScan::Failed(e) => NbsScan::Failed(e),
                        NoteScan::Overflow => NbsScan::Overflow,
                    },
                    header.matches(b@, h),
                    nf == h.new_format,
                    b@ == reader@,
                    p <= b@.len(),
                    p > outer_p,
                    scan_notes(b@, nf, p as int, tick as int, None, notes@) == total,
                    unique@ == distinct_notes(notes_of(notes@)),
                decreases b@.len() - p,
            {
                let j = match read_u16(b, p, NbsField::LayerJumps) {
                    Ok(v) => v,
                    Err(e) => return NbsParseOutcome::Failed(e),
                };
                if j == 0 {
                    p = p + 2;
                    break;
                }
                let nl: i32 = layer as i32 + signed16(j);
                if nl < -32768 || nl > 32767 {
                    return NbsParseOutcome::Overflowed;
                }
                let instrument_id = match read_u8(b, p + 2, NbsField::InstrumentId) {
                    Ok(v) => v,
                    Err(e) => return NbsParseOutcome::Failed(e),
                };
                let instrument = match NbsInstrument::from_index(instrument_id) {
                    Some(i) => i,
                    None => return NbsParseOutcome::Failed(NbsError::UnknownInstrument(instrument_id)),
                };
                let note_id = match read_u8(b, p + 3, NbsField::NoteId) {
                    Ok(v) => v,
                    Err(e) => return NbsParseOutcome::Failed(e),
                };
                if 128 <= note_id && note_id <= 160 {
                    return NbsParseOutcome::Overflowed;
                }
                let pitch = match NbsPitch::from_ordinal(pitch_ordinal_of(note_id)) {
                    Some(pitch) => pitch,
                    None => {
                        proof { assert(false); }
                        return NbsParseOutcome::Overflowed;
                    },
                };
                let mut next = p + 4;
                if nf {
                    if b.len() - (p + 4) < 4 {
                        return NbsParseOutcome::Failed(NbsError::Truncated(NbsField::NoteDetails));
                    }
                    next = p + 8;
                }
                layer = nl as i16;
                let note = NbsNote { instrument, pitch };
                let placed = NbsPositionedNote {
                    tick: if tick < 0 { 0 } else { tick as u16 },
                    layer: if layer < 0 { 0 } else { layer as u16 },
                    note,
                };
                let ghost old_notes = notes@;
                if !contains_note(&unique, note) {
                    unique.push(note);
                }
                notes.push(placed);
                proof {
                    lemma_notes_of_push(old_notes, placed);
                    assert(notes@ == old_notes.push(placed));
                }
                p = next;
            }
        }
        let file_name = match file_name {
            Some(f) => Some(String::from_str(f)),
            None => None,
        };
        NbsParseOutcome::Parsed(NbsSong {
            unique,
            notes,
            length_ticks: header.length_ticks,
            height: header.height,
            tempo: header.tempo,
            loop_start_tick: header.loop_start_tick,
            loop_flag: header.loop_flag,
            max_loop_count: header.max_loop_count,
            file_name,
            name: header.name,
            author: header.author,
            original_author: header.original_author,
            description: header.description,
        })
    }

    /// Reads a song from the bytes of an NBS file.
    pub fn from_reader(reader: &[u8], file_name: Option<&str>) -> (r: Result<NbsSong, NbsError>)
        requires
            !parse_overflows(reader@),
        ensures
            match spec_parse(reader@) {
                NbsScan::Song(h, notes) => (r matches Ok(song)
                    && song.is_song_of(reader@, h, notes, opt_str_view(file_name))),
                NbsScan::Failed(e) => r == Err::<NbsSong, NbsError>(e),
                NbsScan::Overflow => false,
            },
    {
        match NbsSong::parse(reader, file_name) {
            NbsParseOutcome::Parsed(song) => Ok(song),
            NbsParseOutcome::Failed(e) => Err(e),
            NbsParseOutcome::Overflowed => {
                proof { assert(false); }
                Err(NbsError::Truncated(NbsField::Jumps))
            },
        }
    }
}

/// The name under which a song is shown: its trimmed title, else its file name,
/// else its description without line breaks, else `<Unknown Song!>`.
pub open spec fn spec_friendly_name(name: Seq<char>, file_name: Option<Seq<char>>, description: Seq<char>) -> Seq<char> {
    if trimmed(name).len() > 0 {
        trimmed(name)
    } else if file_name is Some {
        file_name->0
    } else if trimmed(description).len() > 0 {
        without_line_breaks(description)
    } else {
        "<Unknown Song!>"@
    }
}

impl NbsSong {
    /// The name under which the song is shown.
    pub fn friendly_name(&self) -> (r: String)
        ensures
            r@ == spec_friendly_name(self.name@, opt_string_view(self.file_name), self.description@),
    {
        let name = trim(self.name.as_str());
        if name.unicode_len() > 0 {
            return name;
        }
        if let Some(file_name) = &self.file_name {
            return file_name.clone();
        }
        let description = trim(self.description.as_str());
        if description.unicode_len() > 0 {
            remove_line_breaks(self.description.as_str())
        } else {
            String::from_str("<Unknown Song!>")
        }
    }
}

/// Reading a song file's header: a file of fewer than 2 bytes is cut short in its length.
/// Otherwise, where the header is read in full, the file is of the new format exactly
/// when it starts with two zero bytes; the song's length is the little endian 16-bit
/// number at byte 4 (new format) or at byte 0 (old format); the title's length prefix
/// follows the 2-byte height at byte 8 (new) or 4 (old); the author, original author and
/// description follow one another, each after the 4-byte little endian length and text of
/// the one before; the notes start inside the file; and an old-format file has no loop.
pub proof fn law_header_layout(b: Seq<u8>)
    ensures
        b.len() < 2 ==> spec_header(b) == Err::<NbsHeader, NbsError>(NbsError::Truncated(NbsField::LengthTicks)),
        spec_header(b) matches Ok(h) ==> {
            let nf = b[0] == 0 && b[1] == 0;
            let len32 = |p: int| b[p] as int + 256 * b[p + 1] as int + 65536 * b[p + 2] as int + 16777216 * b[p + 3] as int;
            &&& h.new_format == nf
            &&& h.length_ticks as int == (if nf { b[4] as int + 256 * b[5] as int } else { b[0] as int + 256 * b[1] as int })
            &&& h.name_at == (if nf { 8int } else { 4int })
            &&& h.author_at == h.name_at + 4 + len32(h.name_at)
            &&& h.original_author_at == h.author_at + 4 + len32(h.author_at)
            &&& h.description_at == h.original_author_at + 4 + len32(h.original_author_at)
            &&& h.notes_start <= b.len()
            &&& !nf ==> h.loop_flag == 0 && h.max_loop_count == 0 && h.loop_start_tick == 0
        },
{
    if b.len() >= 2 {
        let v = b[0] as int + 256 * b[1] as int;
        assert(le16(b, 0) as int == v);
        if spec_header(b) is Ok {
            let h = spec_header(b)->Ok_0;
            if b[0] == 0 && b[1] == 0 {
                assert(le16(b, 4) as int == b[4] as int + 256 * b[5] as int);
            }
            assert(le32(b, h.name_at) as int == b[h.name_at] as int + 256 * b[h.name_at + 1] as int
                + 65536 * b[h.name_at + 2] as int + 16777216 * b[h.name_at + 3] as int);
            assert(le32(b, h.author_at) as int == b[h.author_at] as int + 256 * b[h.author_at + 1] as int
                + 65536 * b[h.author_at + 2] as int + 16777216 * b[h.author_at + 3] as int);
            assert(le32(b, h.original_author_at) as int == b[h.original_author_at] as int + 256 * b[h.original_author_at + 1] as int
                + 65536 * b[h.original_author_at + 2] as int + 16777216 * b[h.original_author_at + 3] as int);
        }
    }
}

} // verus!
