//! shairport-sync's metadata pipe: `<item>` records with hex-encoded `type`
//! and `code` tags and a base64 `data` payload that may span lines. The parser
//! gathers track, artist, album, genre and artwork and emits a sample when a
//! new track arrives or artwork arrives for the current one.
use vstd::prelude::*;
use vstd::utf8::*;
use crate::external::{
    base64_standard_decode, base64_standard_decoded, hex_bytes, hex_decode, is_hex_text,
    string_from_utf8,
};
use crate::models::{clone_opt_string, opt_str, opt_string_eq, ShairportMetadataSample, ShairportMetadataSampleView};
use crate::text::{
    chars_of, concat_chars, contains, eq_str, find, find_chars, is_ascii_whitespace, is_ascii_ws,
    lemma_find_from_bounds, string_of, subvec, trim, trim_chars,
};
use crate::clock::now_ms;

verus! {

/// The characters that `raw` holds as hex-encoded UTF-8: `raw` is trimmed,
/// read as hex digit pairs, and the bytes read as UTF-8; empty if either fails.
pub open spec fn xml_hex_text(raw: Seq<char>) -> Seq<char> {
    let bytes = encode_utf8(trim(raw));
    if is_hex_text(bytes) && valid_utf8(hex_bytes(bytes)) {
        decode_utf8(hex_bytes(bytes))
    } else {
        Seq::empty()
    }
}

/// `raw` without ASCII whitespace.
pub open spec fn without_ascii_ws(s: Seq<char>) -> Seq<char> {
    s.filter(|c: char| !is_ascii_ws(c))
}

/// The text of a payload once its base64 was decoded: the decoded bytes read
/// as UTF-8 where they are valid UTF-8; otherwise (also where decoding failed)
/// the trimmed payload itself.
pub open spec fn payload_text(decoded: Option<Seq<u8>>, trimmed: Seq<char>) -> Seq<char> {
    match decoded {
        Some(b) => if valid_utf8(b) {
            decode_utf8(b)
        } else {
            trimmed
        },
        None => trimmed,
    }
}

/// The characters that `raw` holds as base64-encoded UTF-8: `raw` is trimmed,
/// its ASCII whitespace dropped and the rest decoded with the standard
/// alphabet; where decoding or UTF-8 fails, the trimmed text itself.
pub open spec fn xml_b64_text(raw: Seq<char>) -> Seq<char> {
    let t = trim(raw);
    payload_text(base64_standard_decoded(encode_utf8(without_ascii_ws(t))), t)
}

/// The view of optional decoded bytes.
pub open spec fn opt_bytes(o: Option<Vec<u8>>) -> Option<Seq<u8>> {
    match o {
        Some(b) => Some(b@),
        None => None,
    }
}

/// Reads decoded payload bytes as UTF-8 text; where there are none, or they
/// are not valid UTF-8, gives the trimmed payload `trimmed` back.
pub fn payload_text_from_decoded(decoded: Option<Vec<u8>>, trimmed: &str) -> (r: String)
    ensures
        r@ == payload_text(opt_bytes(decoded), trimmed@),
{
    match decoded {
        Some(b) => match string_from_utf8(b) {
            Some(s) => s,
            None => trimmed.to_owned(),
        },
        None => trimmed.to_owned(),
    }
}

/// `extract_tag_content`: the text between the first `<tag` (and the first `>`
/// after it) and the next `</tag>`.
pub open spec fn tag_content(line: Seq<char>, tag: Seq<char>) -> Option<Seq<char>> {
    match find(line, seq!['<'] + tag) {
        None => None,
        Some(start) => match find(line.skip(start), seq!['>']) {
            None => None,
            Some(gt) => {
                let cs = start + gt + 1;
                match find(line.skip(cs), seq!['<', '/'] + tag + seq!['>']) {
                    None => None,
                    Some(k) => Some(line.subrange(cs, cs + k)),
                }
            },
        },
    }
}

/// The UTF-8 bytes of the characters `v`.
fn utf8_bytes(v: &Vec<char>) -> (b: Vec<u8>)
    ensures
        b@ == encode_utf8(v@),
{
    let s = string_of(v);
    let bytes = s.as_str().as_bytes();
    vstd::slice::slice_to_vec(bytes)
}

/// Decodes the hex-encoded UTF-8 text of a `type` or `code` tag; the empty
/// string where `raw` is no such text.
pub fn decode_xml_hex(raw: &str) -> (r: String)
    ensures
        r@ == xml_hex_text(raw@),
{
    let t = trim_chars(&chars_of(raw));
    let bytes = utf8_bytes(&t);
    match hex_decode(bytes.as_slice()) {
        Ok(b) => match string_from_utf8(b) {
            Some(s) => s,
            None => String::new(),
        },
        Err(_) => String::new(),
    }
}

/// Decodes the base64-encoded UTF-8 payload of a `data` tag; the trimmed
/// payload itself where it is not such text.
pub fn decode_xml_b64_utf8(raw: &str) -> (r: String)
    ensures
        r@ == xml_b64_text(raw@),
{
    let t = trim_chars(&chars_of(raw));
    let mut normalized: Vec<char> = Vec::new();
    let n = t.len();
    for i in 0..n
        invariant
            n == t@.len(),
            normalized@ == without_ascii_ws(t@.take(i as int)),
    {
        proof {
            reveal_with_fuel(Seq::filter, 1);
            assert(t@.take(i + 1).drop_last() =~= t@.take(i as int));
        }
        if !is_ascii_whitespace(t[i]) {
            normalized.push(t[i]);
        }
    }
    assert(t@.take(n as int) =~= t@);
    let bytes = utf8_bytes(&normalized);
    let decoded = match base64_standard_decode(bytes.as_slice()) {
        Ok(b) => Some(b),
        Err(_) => None,
    };
    let trimmed = string_of(&t);
    payload_text_from_decoded(decoded, trimmed.as_str())
}

/// The text between `<tag ...>` and `</tag>` in `line`, if both are there.
pub fn extract_tag_content(line: &str, tag: &str) -> (r: Option<String>)
    ensures
        opt_str(r) == tag_content(line@, tag@),
{
    let l = chars_of(line);
    let t = chars_of(tag);
    let lt = vec!['<'];
    assert(lt@ =~= seq!['<']);
    let open = concat_chars(&lt, &t);
    let start = match find_chars(&l, &open) {
        Some(s) => s,
        None => return None,
    };
    proof {
        lemma_find_from_bounds(l@, open@, 0);
    }
    let after = subvec(&l, start, l.len());
    assert(after@ =~= l@.skip(start as int));
    let gt_pat = vec!['>'];
    assert(gt_pat@ =~= seq!['>']);
    let gt = match find_chars(&after, &gt_pat) {
        Some(g) => g,
        None => return None,
    };
    proof {
        lemma_find_from_bounds(after@, gt_pat@, 0);
    }
    let cs = start + gt + 1;
    let rest = subvec(&l, cs, l.len());
    assert(rest@ =~= l@.skip(cs as int));
    let lt_slash = vec!['<', '/'];
    assert(lt_slash@ =~= seq!['<', '/']);
    let close = concat_chars(&concat_chars(&lt_slash, &t), &gt_pat);
    let k = match find_chars(&rest, &close) {
        Some(k) => k,
        None => return None,
    };
    proof {
        lemma_find_from_bounds(rest@, close@, 0);
    }
    Some(string_of(&subvec(&l, cs, cs + k)))
}

/// The state of the metadata parser: the `type` and `code` of the current
/// item, the fields gathered so far, a `data` payload that spans lines, and
/// the fields of the last emitted track.
pub struct MetadataParserState {
    pub current_type: String,
    pub current_code: String,
    pub track: Option<String>,
    pub artist: Option<String>,
    pub album: Option<String>,
    pub genre: Option<String>,
    pub artwork_base64: Option<String>,
    pub data_buffer: String,
    pub in_data_tag: bool,
    pub last_track: Option<String>,
    pub last_artist: Option<String>,
    pub last_album: Option<String>,
    pub last_genre: Option<String>,
}

pub struct MetadataParserView {
    pub current_type: Seq<char>,
    pub current_code: Seq<char>,
    pub track: Option<Seq<char>>,
    pub artist: Option<Seq<char>>,
    pub album: Option<Seq<char>>,
    pub genre: Option<Seq<char>>,
    pub artwork_base64: Option<Seq<char>>,
    pub data_buffer: Seq<char>,
    pub in_data_tag: bool,
    pub last_track: Option<Seq<char>>,
    pub last_artist: Option<Seq<char>>,
    pub last_album: Option<Seq<char>>,
    pub last_genre: Option<Seq<char>>,
}

impl View for MetadataParserState {
    type V = MetadataParserView;

    open spec fn view(&self) -> MetadataParserView {
        MetadataParserView {
            current_type: self.current_type@,
            current_code: self.current_code@,
            track: opt_str(self.track),
            artist: opt_str(self.artist),
            album: opt_str(self.album),
            genre: opt_str(self.genre),
            artwork_base64: opt_str(self.artwork_base64),
            data_buffer: self.data_buffer@,
            in_data_tag: self.in_data_tag,
            last_track: opt_str(self.last_track),
            last_artist: opt_str(self.last_artist),
            last_album: opt_str(self.last_album),
            last_genre: opt_str(self.last_genre),
        }
    }
}

/// The state of a parser that has seen nothing.
pub open spec fn empty_metadata_state() -> MetadataParserView {
    MetadataParserView {
        current_type: Seq::empty(),
        current_code: Seq::empty(),
        track: None,
        artist: None,
        album: None,
        genre: None,
        artwork_base64: None,
        data_buffer: Seq::empty(),
        in_data_tag: false,
        last_track: None,
        last_artist: None,
        last_album: None,
        last_genre: None,
    }
}

/// The sample that state `st` gives at time `now`.
pub open spec fn metadata_sample(st: MetadataParserView, now: u64) -> ShairportMetadataSampleView {
    ShairportMetadataSampleView {
        timestamp_ms: now,
        track: st.track,
        artist: st.artist,
        album: st.album,
        genre: st.genre,
        artwork_base64: st.artwork_base64,
    }
}

/// After a track field changed: if the track differs from the last emitted
/// one, remember the fields as emitted and emit them.
pub open spec fn emit_on_new_track(st: MetadataParserView) -> (
    MetadataParserView,
    Option<MetadataParserView>,
) {
    if st.track != st.last_track {
        (
            MetadataParserView {
                last_track: st.track,
                last_artist: st.artist,
                last_album: st.album,
                last_genre: st.genre,
                ..st
            },
            Some(st),
        )
    } else {
        (st, None)
    }
}

/// What one `data` payload does: the new state, and the state whose fields
/// are emitted, if any.
pub open spec fn process_data_spec(st: MetadataParserView, data: Seq<char>) -> (
    MetadataParserView,
    Option<MetadataParserView>,
) {
    let t = st.current_type;
    let c = st.current_code;
    if t == "core"@ && c == "minm"@ {
        emit_on_new_track(MetadataParserView { track: Some(xml_b64_text(data)), ..st })
    } else if t == "core"@ && c == "asar"@ {
        emit_on_new_track(MetadataParserView { artist: Some(xml_b64_text(data)), ..st })
    } else if t == "core"@ && c == "asal"@ {
        emit_on_new_track(MetadataParserView { album: Some(xml_b64_text(data)), ..st })
    } else if t == "core"@ && c == "asgn"@ {
        emit_on_new_track(MetadataParserView { genre: Some(xml_b64_text(data)), ..st })
    } else if t == "ssnc"@ && c == "PICT"@ {
        let art = trim(data);
        if st.track is Some && st.artwork_base64 != Some(art) {
            let s1 = MetadataParserView { artwork_base64: Some(art), ..st };
            (s1, Some(s1))
        } else {
            (st, None)
        }
    } else {
        (st, None)
    }
}

/// The lines on which taking the content of a single-line `data` tag would
/// slice past its end and panic: the tag's `</data>` comes before the first
/// `>` of the line.
pub open spec fn data_tag_panics(st: MetadataParserView, line: Seq<char>) -> bool {
    &&& !st.in_data_tag
    &&& contains(line, "<data"@)
    &&& find(line, ">"@) is Some
    &&& find(line, "</data>"@) is Some
    &&& find(line, ">"@)->0 + 1 > find(line, "</data>"@)->0
}

/// What one line of the pipe does: the new state, and the state whose fields
/// are emitted, if any.
pub open spec fn parse_line_spec(st: MetadataParserView, line: Seq<char>) -> (
    MetadataParserView,
    Option<MetadataParserView>,
) {
    if st.in_data_tag {
        match find(line, "</data>"@) {
            Some(e) => process_data_spec(
                MetadataParserView { in_data_tag: false, data_buffer: Seq::empty(), ..st },
                trim(st.data_buffer + line.take(e)),
            ),
            None => (
                MetadataParserView { data_buffer: st.data_buffer + line + seq!['\n'], ..st },
                None,
            ),
        }
    } else {
        let st1 = match tag_content(line, "type"@) {
            Some(h) => MetadataParserView { current_type: xml_hex_text(h), ..st },
            None => st,
        };
        let st2 = match tag_content(line, "code"@) {
            Some(h) => MetadataParserView { current_code: xml_hex_text(h), ..st1 },
            None => st1,
        };
        if contains(line, "<data"@) && find(line, ">"@) is Some {
            let cs = find(line, ">"@)->0 + 1;
            match find(line, "</data>"@) {
                Some(e) => process_data_spec(st2, trim(line.subrange(cs, e))),
                None => (
                    MetadataParserView {
                        in_data_tag: true,
                        data_buffer: line.skip(cs) + seq!['\n'],
                        ..st2
                    },
                    None,
                ),
            }
        } else if contains(line, "</item>"@) {
            (
                MetadataParserView {
                    current_type: Seq::empty(),
                    current_code: Seq::empty(),
                    ..st2
                },
                None,
            )
        } else {
            (st2, None)
        }
    }
}

impl Default for MetadataParserState {
    fn default() -> (r: Self)
        ensures
            r@ == empty_metadata_state(),
    {
        MetadataParserState {
            current_type: String::new(),
            current_code: String::new(),
            track: None,
            artist: None,
            album: None,
            genre: None,
            artwork_base64: None,
            data_buffer: String::new(),
            in_data_tag: false,
            last_track: None,
            last_artist: None,
            last_album: None,
            last_genre: None,
        }
    }
}

impl MetadataParserState {
    /// A parser that has seen nothing.
    pub fn new() -> (r: Self)
        ensures
            r@ == empty_metadata_state(),
    {
        Self::default()
    }

    /// Whether the current track differs from the last emitted one.
    pub fn metadata_changed(&self) -> (r: bool)
        ensures
            r == (self@.track != self@.last_track),
    {
        !opt_string_eq(&self.track, &self.last_track)
    }

    /// The sample of the current fields at time `now_ms`.
    fn sample_at(&self, now_ms: u64) -> (r: ShairportMetadataSample)
        ensures
            r@ == metadata_sample(self@, now_ms),
    {
        ShairportMetadataSample {
            timestamp_ms: now_ms,
            track: clone_opt_string(&self.track),
            artist: clone_opt_string(&self.artist),
            album: clone_opt_string(&self.album),
            genre: clone_opt_string(&self.genre),
            artwork_base64: clone_opt_string(&self.artwork_base64),
        }
    }

    fn emit_on_new_track(&mut self, now_ms: u64) -> (r: Option<ShairportMetadataSample>)
        ensures
            final(self)@ == emit_on_new_track(old(self)@).0,
            match emit_on_new_track(old(self)@).1 {
                Some(snap) => r matches Some(s) && s@ == metadata_sample(snap, now_ms),
                None => r is None,
            },
    {
        if self.metadata_changed() {
            let sample = self.sample_at(now_ms);
            self.last_track = clone_opt_string(&self.track);
            self.last_artist = clone_opt_string(&self.artist);
            self.last_album = clone_opt_string(&self.album);
            self.last_genre = clone_opt_string(&self.genre);
            Some(sample)
        } else {
            None
        }
    }

    /// Applies one `data` payload at time `now_ms`: a `core` track, artist,
    /// album or genre field (base64 text), or `ssnc`/`PICT` artwork.
    pub fn process_data_at(&mut self, data: &str, now_ms: u64) -> (r: Option<
        ShairportMetadataSample,
    >)
        ensures
            final(self)@ == process_data_spec(old(self)@, data@).0,
            match process_data_spec(old(self)@, data@).1 {
                Some(snap) => r matches Some(s) && s@ == metadata_sample(snap, now_ms),
                None => r is None,
            },
    {
        let t = chars_of(self.current_type.as_str());
        let c = chars_of(self.current_code.as_str());
        if eq_str(&t, "core") && eq_str(&c, "minm") {
            self.track = Some(decode_xml_b64_utf8(data));
            self.emit_on_new_track(now_ms)
        } else if eq_str(&t, "core") && eq_str(&c, "asar") {
            self.artist = Some(decode_xml_b64_utf8(data));
            self.emit_on_new_track(now_ms)
        } else if eq_str(&t, "core") && eq_str(&c, "asal") {
            self.album = Some(decode_xml_b64_utf8(data));
            self.emit_on_new_track(now_ms)
        } else if eq_str(&t, "core") && eq_str(&c, "asgn") {
            self.genre = Some(decode_xml_b64_utf8(data));
            self.emit_on_new_track(now_ms)
        } else if eq_str(&t, "ssnc") && eq_str(&c, "PICT") {
            let art = string_of(&trim_chars(&chars_of(data)));
            let new_artwork = Some(art.clone());
            if self.track.is_some() && !opt_string_eq(&self.artwork_base64, &new_artwork) {
                self.artwork_base64 = Some(art);
                Some(self.sample_at(now_ms))
            } else {
                None
            }
        } else {
            None
        }
    }

    /// Applies one `data` payload, stamping an emitted sample with the clock.
    pub fn process_data(&mut self, data: &str) -> (r: Option<ShairportMetadataSample>)
        ensures
            final(self)@ == process_data_spec(old(self)@, data@).0,
            match process_data_spec(old(self)@, data@).1 {
                Some(snap) => r matches Some(s) && s@ == metadata_sample(snap, s.timestamp_ms),
                None => r is None,
            },
    {
        let now = now_ms();
        self.process_data_at(data, now)
    }

    /// Whether `parse_line` can take `line` in this state: false exactly for a
    /// single-line `data` tag whose `</data>` precedes the first `>`.
    pub fn accepts_line(&self, line: &str) -> (b: bool)
        ensures
            b == !data_tag_panics(self@, line@),
    {
        if self.in_data_tag {
            return true;
        }
        let l = chars_of(line);
        let open_data = chars_of("<data");
        let gt = chars_of(">");
        let close = chars_of("</data>");
        match (find_chars(&l, &open_data), find_chars(&l, &gt), find_chars(&l, &close)) {
            (Some(_), Some(sp), Some(e)) => sp < e,
            _ => true,
        }
    }

    /// Applies one line of the pipe at time `now_ms`.
    pub fn parse_line_at(&mut self, line: &str, now_ms: u64) -> (r: Option<
        ShairportMetadataSample,
    >)
        requires
            !data_tag_panics(old(self)@, line@),
        ensures
            final(self)@ == parse_line_spec(old(self)@, line@).0,
            match parse_line_spec(old(self)@, line@).1 {
                Some(snap) => r matches Some(s) && s@ == metadata_sample(snap, now_ms),
                None => r is None,
            },
    {
        let l = chars_of(line);
        let n = l.len();
        let close = chars_of("</data>");
        if self.in_data_tag {
            match find_chars(&l, &close) {
                Some(e) => {
                    proof {
                        lemma_find_from_bounds(l@, close@, 0);
                    }
                    let head = subvec(&l, 0, e);
                    let buf = concat_chars(&chars_of(self.data_buffer.as_str()), &head);
                    self.in_data_tag = false;
                    let data = string_of(&trim_chars(&buf));
                    self.data_buffer = String::new();
                    return self.process_data_at(data.as_str(), now_ms);
                },
                None => {
                    let mut buf = concat_chars(&chars_of(self.data_buffer.as_str()), &l);
                    buf.push('\n');
                    assert(buf@ =~= old(self)@.data_buffer + line@ + seq!['\n']);
                    self.data_buffer = string_of(&buf);
                    return None;
                },
            }
        }
        if let Some(type_hex) = extract_tag_content(line, "type") {
            self.current_type = decode_xml_hex(type_hex.as_str());
        }
        if let Some(code_hex) = extract_tag_content(line, "code") {
            self.current_code = decode_xml_hex(code_hex.as_str());
        }
        let open_data = chars_of("<data");
        if find_chars(&l, &open_data).is_some() {
            let gt = chars_of(">");
            if let Some(sp) = find_chars(&l, &gt) {
                proof {
                    reveal_strlit(">");
                    lemma_find_from_bounds(l@, gt@, 0);
                }
                match find_chars(&l, &close) {
                    Some(e) => {
                        proof {
                            lemma_find_from_bounds(l@, close@, 0);
                        }
                        let content = string_of(&trim_chars(&subvec(&l, sp + 1, e)));
                        return self.process_data_at(content.as_str(), now_ms);
                    },
                    None => {
                        self.in_data_tag = true;
                        let mut buf = subvec(&l, sp + 1, l.len());
                        buf.push('\n');
                        assert(buf@ =~= line@.skip(sp + 1) + seq!['\n']);
                        self.data_buffer = string_of(&buf);
                        return None;
                    },
                }
            }
        }
        let close_item = chars_of("</item>");
        if find_chars(&l, &close_item).is_some() {
            self.current_type = String::new();
            self.current_code = String::new();
        }
        None
    }

    /// Applies one line of the pipe, stamping an emitted sample with the clock.
    pub fn parse_line(&mut self, line: &str) -> (r: Option<ShairportMetadataSample>)
        requires
            !data_tag_panics(old(self)@, line@),
        ensures
            final(self)@ == parse_line_spec(old(self)@, line@).0,
            match parse_line_spec(old(self)@, line@).1 {
                Some(snap) => r matches Some(s) && s@ == metadata_sample(snap, s.timestamp_ms),
                None => r is None,
            },
    {
        let now = now_ms();
        self.parse_line_at(line, now)
    }
}

} // verus!
