//! Properties that hold across calls of the parsers and the history.
use vstd::prelude::*;
use vstd::utf8::{decode_utf8, encode_utf8, is_ascii_chars, is_ascii_chars_encode_utf8, valid_utf8};
use crate::history::{
    apply_event_spec, has_track, is_telemetry, keep_newest, replay_spec, restore_spec,
    HistoryView, TimedEventView, HISTORY_MAX_POINTS,
};
use crate::metadata::{
    parse_line_spec, process_data_spec, tag_content, xml_b64_text, MetadataParserView,
};
use crate::models::SampleEventView;
use crate::numbers::{exp_marker_from, is_float_literal, is_mantissa, parse_hex_u32_spec};
use crate::system::throttled_spec;
use crate::text::{
    is_ws, rskip_ws, skip_ws, split_once, trim, contains, find, lemma_find_from_first, lemma_find_from_none, occurs_at, starts_with,
};
use crate::wifi::{
    strip_ansi,
    apply_field, build_sample, clean_line, fresh_record, on_off, station_header, station_step,
    strip_ansi_from, token_float, token_i32, token_u32, token_u64, yes_no, StationRecord,
};

verus! {

/// A track payload is emitted at most once: processing the same `core`/`minm`
/// payload again right after emits nothing.
pub proof fn track_payload_not_emitted_twice(st: MetadataParserView, data: Seq<char>)
    requires
        st.current_type == "core"@,
        st.current_code == "minm"@,
    ensures
        process_data_spec(process_data_spec(st, data).0, data).1 is None,
{
}

/// Artwork is emitted at most once: the same `ssnc`/`PICT` payload right
/// after emits nothing.
pub proof fn artwork_not_emitted_twice(st: MetadataParserView, data: Seq<char>)
    requires
        st.current_type == "ssnc"@,
        st.current_code == "PICT"@,
    ensures
        process_data_spec(process_data_spec(st, data).0, data).1 is None,
{
}

/// After a `core` track, artist, album or genre payload the current track
/// counts as emitted: an emission happens exactly when the track differs from
/// the one last emitted, and afterwards the two agree.
pub proof fn core_payload_settles_track(st: MetadataParserView, data: Seq<char>)
    requires
        st.current_type == "core"@,
        st.current_code == "minm"@ || st.current_code == "asar"@ || st.current_code == "asal"@
            || st.current_code == "asgn"@,
    ensures
        process_data_spec(st, data).0.track == process_data_spec(st, data).0.last_track,
        process_data_spec(st, data).1 matches Some(snap) ==> snap.track != st.last_track,
{
}

/// A payload never touches the item context nor the data-tag buffer.
pub proof fn payload_keeps_item_context(st: MetadataParserView, data: Seq<char>)
    ensures
        process_data_spec(st, data).0.current_type == st.current_type,
        process_data_spec(st, data).0.current_code == st.current_code,
        process_data_spec(st, data).0.in_data_tag == st.in_data_tag,
        process_data_spec(st, data).0.data_buffer == st.data_buffer,
{
}

/// A line with `</item>` and no `<data` outside a data tag ends the item: its
/// `type` and `code` are cleared and nothing is emitted.
pub proof fn closing_item_clears_context(st: MetadataParserView, line: Seq<char>)
    requires
        !st.in_data_tag,
        !contains(line, "<data"@),
        contains(line, "</item>"@),
    ensures
        parse_line_spec(st, line).0.current_type.len() == 0,
        parse_line_spec(st, line).0.current_code.len() == 0,
        parse_line_spec(st, line).1 is None,
{
}

/// Outside a data tag, a line without a complete `type` or `code` tag, without
/// `<data` and without `</item>` changes nothing and emits nothing.
pub proof fn untagged_line_changes_nothing(st: MetadataParserView, line: Seq<char>)
    requires
        !st.in_data_tag,
        tag_content(line, "type"@) is None,
        tag_content(line, "code"@) is None,
        !contains(line, "<data"@),
        !contains(line, "</item>"@),
    ensures
        parse_line_spec(st, line) == (st, None::<MetadataParserView>),
{
}

/// A payload under an item context other than the known fields changes nothing.
pub proof fn unknown_payload_changes_nothing(st: MetadataParserView, data: Seq<char>)
    requires
        !(st.current_type == "core"@ && (st.current_code == "minm"@ || st.current_code == "asar"@
            || st.current_code == "asal"@ || st.current_code == "asgn"@)),
        !(st.current_type == "ssnc"@ && st.current_code == "PICT"@),
    ensures
        process_data_spec(st, data) == (st, None::<MetadataParserView>),
{
}

/// Inside a data tag, a line without `</data>` is only buffered.
pub proof fn open_data_tag_buffers(st: MetadataParserView, line: Seq<char>)
    requires
        st.in_data_tag,
        !contains(line, "</data>"@),
    ensures
        parse_line_spec(st, line).0 == (MetadataParserView {
            data_buffer: st.data_buffer + line + seq!['\n'],
            ..st
        }),
        parse_line_spec(st, line).1 is None,
{
}

/// Recording keeps the newest `HISTORY_MAX_POINTS` telemetry samples, the new
/// one last, and never more.
pub proof fn telemetry_keeps_newest(h: HistoryView, e: TimedEventView)
    requires
        h.telemetry.len() <= HISTORY_MAX_POINTS,
        is_telemetry(e.event),
    ensures
        apply_event_spec(h, e).telemetry == keep_newest(h.telemetry.push(e)),
        apply_event_spec(h, e).telemetry.len() <= HISTORY_MAX_POINTS,
        apply_event_spec(h, e).telemetry.last() == e,
        apply_event_spec(h, e).last_track == h.last_track,
{
    let t = h.telemetry.push(e);
    if t.len() > HISTORY_MAX_POINTS {
        assert(t.skip(1) =~= t.skip(t.len() - HISTORY_MAX_POINTS));
    }
}

/// Metadata without any track data leaves the history as it is.
pub proof fn empty_metadata_not_recorded(h: HistoryView, e: TimedEventView)
    requires
        e.event matches SampleEventView::ShairportMetadata(m) && !has_track(m),
    ensures
        apply_event_spec(h, e) == h,
{
}

/// Saving a history and restoring it gives the same history back.
pub proof fn persist_restore_roundtrip(h: HistoryView)
    requires
        h.telemetry.len() <= HISTORY_MAX_POINTS,
    ensures
        restore_spec(h) == h,
{
}

/// A station header line starts a fresh record, whatever record was open.
pub proof fn header_starts_fresh_record(st: Option<StationRecord>, raw: Seq<char>)
    requires
        station_header(clean_line(raw)) is Some,
    ensures
        station_header(clean_line(raw)) matches Some((mac, iface)) ==> station_step(st, raw).0
            == Some(fresh_record(mac, iface)),
        station_step(st, raw).1 is None,
{
    let line = clean_line(raw);
    reveal_strlit("Station ");
    reveal_strlit("Every ");
    assert(line.len() > 0);
    if starts_with(line, "Every "@) {
        assert(line[0] == "Every "@[0]);
        assert(line[0] == "Station "@[0]);
    }
}

/// Lines seen while no record is open leave none open and give no sample,
/// unless they are a station header.
pub proof fn no_record_without_header(raw: Seq<char>)
    requires
        station_header(clean_line(raw)) is None,
    ensures
        station_step(None, raw) == (None::<StationRecord>, None::<StationRecord>),
{
}

/// A record is closed at most once: after a line that closes a record, no
/// record is open.
pub proof fn closed_record_leaves_none_open(st: Option<StationRecord>, raw: Seq<char>)
    requires
        station_step(st, raw).1 is Some,
    ensures
        station_step(st, raw).0 is None,
{
}

/// Every bitrate a record holds reads as an `f64`.
pub open spec fn bitrates_are_floats(r: StationRecord) -> bool {
    &&& r.tx_bitrate_mbit_s matches Some(t) ==> is_float_literal(t)
    &&& r.rx_bitrate_mbit_s matches Some(t) ==> is_float_literal(t)
}

proof fn zero_is_float()
    ensures
        is_float_literal("0.0"@),
{
    reveal_strlit("0.0");
    let z = "0.0"@;
    assert(z[0] != '+' && z[0] != '-');
    assert(exp_marker_from(z, 3) == 3);
    assert(exp_marker_from(z, 2) == 3);
    assert(exp_marker_from(z, 1) == 3);
    assert(exp_marker_from(z, 0) == 3);
    assert(is_mantissa(z)) by {
        assert(z[0] == '0' && z[1] == '.' && z[2] == '0');
    }
}

/// The bitrates of every sample read as `f64`: the parser only keeps tokens
/// that `f64::from_str` accepts, and a missing bitrate is `0.0`.
pub proof fn samples_carry_float_bitrates(st: Option<StationRecord>, raw: Seq<char>, now: u64)
    requires
        st matches Some(r) ==> bitrates_are_floats(r),
    ensures
        station_step(st, raw).0 matches Some(r) ==> bitrates_are_floats(r),
        station_step(st, raw).1 matches Some(r) ==> is_float_literal(
            build_sample(r, now).tx_bitrate_mbit_s,
        ) && is_float_literal(build_sample(r, now).rx_bitrate_mbit_s),
{
    zero_is_float();
}

/// Control sequences and carriage returns never survive: no character of the
/// cleaned text is ESC or `\r`.
pub proof fn stripped_text_has_no_controls(b: Seq<u8>, i: int, mode: int)
    requires
        0 <= mode <= 2,
    ensures
        forall|k: int|
            0 <= k < strip_ansi_from(b, i, mode).len() ==> #[trigger] strip_ansi_from(b, i, mode)[k]
                != '\r' && strip_ansi_from(b, i, mode)[k] != '\x1B',
    decreases b.len() - i, mode,
{
    if i < 0 || i >= b.len() {
    } else if mode == 0 {
        if b[i] == 0x1B {
            stripped_text_has_no_controls(b, i + 1, 1);
            assert(strip_ansi_from(b, i, mode) == strip_ansi_from(b, i + 1, 1));
        } else if b[i] == 0x0D {
            stripped_text_has_no_controls(b, i + 1, 0);
            assert(strip_ansi_from(b, i, mode) == strip_ansi_from(b, i + 1, 0));
        } else {
            stripped_text_has_no_controls(b, i + 1, 0);
            let rest = strip_ansi_from(b, i + 1, 0);
            assert(strip_ansi_from(b, i, mode) == seq![b[i] as char] + rest);
            assert forall|k: int| 0 <= k < strip_ansi_from(b, i, mode).len() implies #[trigger] strip_ansi_from(b, i, mode)[k]
                != '\r' && strip_ansi_from(b, i, mode)[k] != '\x1B' by {
                if k > 0 {
                    assert(strip_ansi_from(b, i, mode)[k] == rest[k - 1]);
                } else {
                    assert(b[i] as char != '\r' && b[i] as char != '\x1B');
                }
            }
        }
    } else if mode == 1 {
        if b[i] == 0x5B {
            stripped_text_has_no_controls(b, i + 1, 2);
            assert(strip_ansi_from(b, i, mode) == strip_ansi_from(b, i + 1, 2));
        } else {
            stripped_text_has_no_controls(b, i, 0);
            assert(strip_ansi_from(b, i, mode) == strip_ansi_from(b, i, 0));
        }
    } else {
        if 0x40 <= b[i] && b[i] <= 0x7E {
            stripped_text_has_no_controls(b, i + 1, 0);
            assert(strip_ansi_from(b, i, mode) == strip_ansi_from(b, i + 1, 0));
        } else {
            stripped_text_has_no_controls(b, i + 1, 2);
            assert(strip_ansi_from(b, i, mode) == strip_ansi_from(b, i + 1, 2));
        }
    }
}

/// A tag written out as `<tag>c</tag>` gives back `c`, where the tag name
/// holds no `>` and `c` does not hold the closing tag.
pub proof fn tag_content_of_written_tag(tag: Seq<char>, c: Seq<char>)
    requires
        forall|i: int| 0 <= i < tag.len() ==> tag[i] != '>',
        !contains(c, seq!['<', '/'] + tag + seq!['>']),
    ensures
        tag_content(
            seq!['<'] + tag + seq!['>'] + c + (seq!['<', '/'] + tag + seq!['>']),
            tag,
        ) == Some(c),
{
    let open = seq!['<'] + tag;
    let close = seq!['<', '/'] + tag + seq!['>'];
    let line = open + seq!['>'] + c + close;
    let t = tag.len() as int;
    assert(seq!['<'] + tag + seq!['>'] + c + (seq!['<', '/'] + tag + seq!['>']) =~= line);
    // the opening `<tag` is at the start
    assert(line.subrange(0, open.len() as int) =~= open);
    lemma_find_from_first(line, open, 0, 0);
    // the first `>` closes it
    let gt = seq!['>'];
    assert(line.skip(0) =~= line);
    assert(line.subrange(t + 1, t + 2) =~= gt);
    assert forall|j: int| 0 <= j < t + 1 implies !occurs_at(line, gt, j) by {
        if occurs_at(line, gt, j) {
            assert(line.subrange(j, j + 1)[0] == line[j]);
            if j > 0 {
                assert(line[j] == tag[j - 1]);
            }
        }
    }
    lemma_find_from_first(line, gt, 0, t + 1);
    // the closing tag follows `c`
    let rest = line.skip(t + 2);
    assert(rest =~= c + close);
    let l = close.len() as int;
    assert(rest.subrange(c.len() as int, c.len() + l) =~= close);
    assert forall|j: int| 0 <= j < c.len() implies !occurs_at(rest, close, j) by {
        if occurs_at(rest, close, j) {
            if j + l <= c.len() {
                assert(rest.subrange(j, j + l) =~= c.subrange(j, j + l));
                lemma_find_from_none(c, close, 0, j);
            } else {
                let m = j + l - 1 - c.len();
                assert(rest.subrange(j, j + l)[l - 1] == rest[j + l - 1]);
                assert(close[l - 1] == '>');
                assert(rest[j + l - 1] == close[m]);
                if m >= 2 {
                    assert(close[m] == tag[m - 2]);
                }
            }
        }
    }
    lemma_find_from_first(rest, close, 0, c.len() as int);
    assert(line.subrange(t + 2, t + 2 + c.len()) =~= c);
}

/// Without an opening `<tag`, or a `>` after it, or a closing tag after that,
/// there is no tag content.
pub proof fn tag_content_needs_all_parts(line: Seq<char>, tag: Seq<char>)
    ensures
        find(line, seq!['<'] + tag) is None ==> tag_content(line, tag) is None,
        find(line, seq!['<'] + tag) matches Some(start) ==> (find(line.skip(start), seq!['>'])
            is None ==> tag_content(line, tag) is None),
        find(line, seq!['<'] + tag) matches Some(start) ==> (find(line.skip(start), seq!['>'])
            matches Some(gt) ==> (find(
            line.skip(start + gt + 1),
            seq!['<', '/'] + tag + seq!['>'],
        ) is None ==> tag_content(line, tag) is None)),
{
}

/// A header written out as `Station <mac> (on <iface>)` gives back the MAC
/// address and the interface, where the MAC address holds no space.
pub proof fn station_header_of_written_header(mac: Seq<char>, iface: Seq<char>)
    requires
        forall|i: int| 0 <= i < mac.len() ==> mac[i] != ' ',
    ensures
        station_header("Station "@ + mac + " (on "@ + iface + ")"@) == Some((mac, iface)),
{
    reveal_strlit("Station ");
    reveal_strlit(" (on ");
    reveal_strlit("(on ");
    reveal_strlit(")");
    let line = "Station "@ + mac + " (on "@ + iface + ")"@;
    let p = "Station "@;
    assert(line.subrange(0, p.len() as int) =~= p);
    let rest = line.skip(p.len() as int);
    assert(rest =~= mac + " (on "@ + iface + ")"@);
    let sp = seq![' '];
    let m = mac.len() as int;
    assert(rest.subrange(m, m + 1) =~= sp);
    assert forall|j: int| 0 <= j < m implies !occurs_at(rest, sp, j) by {
        if occurs_at(rest, sp, j) {
            assert(rest.subrange(j, j + 1)[0] == rest[j]);
            assert(rest[j] == mac[j]);
        }
    }
    lemma_find_from_first(rest, sp, 0, m);
    let tail = rest.subrange(m + 1, rest.len() as int);
    assert(tail =~= "(on "@ + iface + ")"@);
    assert(!is_ws(tail[0]));
    assert(skip_ws(tail, 0) == 0);
    assert(!is_ws(tail[tail.len() - 1]));
    assert(rskip_ws(tail, 0, tail.len() as int) == tail.len());
    assert(trim(tail) =~= tail);
    assert(tail.subrange(0, "(on "@.len() as int) =~= "(on "@);
    let u = tail.skip("(on "@.len() as int);
    assert(u =~= iface + ")"@);
    assert(u.subrange(u.len() - 1, u.len() as int) =~= ")"@);
    assert(u.take(u.len() - 1) =~= iface);
    assert(split_once(rest, ' ') == Some((mac, tail))) by {
        assert(rest.subrange(0, m) =~= mac);
    }
}

proof fn lemma_strip_keeps_ascii(b: Seq<u8>, i: int, mode: int)
    requires
        0 <= mode <= 2,
        forall|k: int| 0 <= k < b.len() ==> b[k] < 128,
    ensures
        is_ascii_chars(strip_ansi_from(b, i, mode)),
    decreases b.len() - i, mode,
{
    if i < 0 || i >= b.len() {
    } else if mode == 0 {
        if b[i] == 0x1B {
            lemma_strip_keeps_ascii(b, i + 1, 1);
        } else if b[i] == 0x0D {
            lemma_strip_keeps_ascii(b, i + 1, 0);
        } else {
            lemma_strip_keeps_ascii(b, i + 1, 0);
            let rest = strip_ansi_from(b, i + 1, 0);
            let out = strip_ansi_from(b, i, mode);
            assert(out == seq![b[i] as char] + rest);
            assert forall|k: int| 0 <= k < out.len() implies '\0' <= #[trigger] out[k] <= '\u{7f}' by {
                if k > 0 {
                    assert(out[k] == rest[k - 1]);
                }
            }
        }
    } else if mode == 1 {
        if b[i] == 0x5B {
            lemma_strip_keeps_ascii(b, i + 1, 2);
        } else {
            lemma_strip_keeps_ascii(b, i, 0);
        }
    } else {
        if 0x40 <= b[i] && b[i] <= 0x7E {
            lemma_strip_keeps_ascii(b, i + 1, 0);
        } else {
            lemma_strip_keeps_ascii(b, i + 1, 2);
        }
    }
}

proof fn lemma_strip_plain_text(b: Seq<u8>, i: int)
    requires
        0 <= i <= b.len(),
        forall|k: int| i <= k < b.len() ==> b[k] != 0x1B && b[k] != 0x0D,
    ensures
        strip_ansi_from(b, i, 0) == Seq::new((b.len() - i) as nat, |k: int| b[i + k] as char),
    decreases b.len() - i,
{
    if i < b.len() {
        lemma_strip_plain_text(b, i + 1);
        assert(strip_ansi_from(b, i, 0) =~= Seq::new((b.len() - i) as nat, |k: int| b[i + k] as char));
    } else {
        assert(strip_ansi_from(b, i, 0) =~= Seq::new((b.len() - i) as nat, |k: int| b[i + k] as char));
    }
}

/// `strip_ansi_and_cr` is idempotent on ASCII input: for every ASCII `s`,
/// stripping the stripped text again gives the same text (`strip_ansi` is the
/// exact result of `strip_ansi_and_cr`).
pub proof fn strip_ansi_idempotent_on_ascii(s: Seq<char>)
    requires
        is_ascii_chars(s),
    ensures
        strip_ansi(strip_ansi(s)) == strip_ansi(s),
{
    let b = encode_utf8(s);
    is_ascii_chars_encode_utf8(s);
    assert forall|k: int| 0 <= k < b.len() implies b[k] < 128 by {
        assert(s[k] as u8 == b[k]);
    }
    let t = strip_ansi_from(b, 0, 0);
    lemma_strip_keeps_ascii(b, 0, 0);
    stripped_text_has_no_controls(b, 0, 0);
    let b2 = encode_utf8(t);
    is_ascii_chars_encode_utf8(t);
    assert forall|k: int| 0 <= k < b2.len() implies b2[k] != 0x1B && b2[k] != 0x0D by {
        assert(t[k] as u8 == b2[k]);
        assert(t[k] != '\r' && t[k] != '\x1B');
    }
    lemma_strip_plain_text(b2, 0);
    assert forall|k: int| 0 <= k < t.len() implies (b2[k] as char) == t[k] by {
        assert(t[k] as u8 == b2[k]);
    }
    assert(strip_ansi_from(b2, 0, 0) =~= t);
}

/// A `core`/`minm` payload sets the track to the decoded text and leaves the
/// artist, album, genre and artwork as they were; a sample is emitted exactly
/// when the new track differs from the last emitted one, and it carries the
/// new track with the other fields as they were.
pub proof fn track_payload_sets_track(st: MetadataParserView, data: Seq<char>)
    requires
        st.current_type == "core"@,
        st.current_code == "minm"@,
    ensures
        process_data_spec(st, data).0.track == Some(xml_b64_text(data)),
        process_data_spec(st, data).0.artist == st.artist,
        process_data_spec(st, data).0.album == st.album,
        process_data_spec(st, data).0.genre == st.genre,
        process_data_spec(st, data).0.artwork_base64 == st.artwork_base64,
        process_data_spec(st, data).1 is Some <==> Some(xml_b64_text(data)) != st.last_track,
        process_data_spec(st, data).1 matches Some(snap) ==> snap.track == Some(xml_b64_text(data))
            && snap.artist == st.artist && snap.album == st.album && snap.genre == st.genre
            && snap.artwork_base64 == st.artwork_base64,
{
}

/// A `core`/`asar` payload sets the artist to the decoded text and leaves the
/// track, album, genre and artwork as they were; a sample is emitted exactly
/// when the track differs from the last emitted one, and it carries the new
/// artist with the other fields as they were.
pub proof fn artist_payload_sets_artist(st: MetadataParserView, data: Seq<char>)
    requires
        st.current_type == "core"@,
        st.current_code == "asar"@,
    ensures
        process_data_spec(st, data).0.artist == Some(xml_b64_text(data)),
        process_data_spec(st, data).0.track == st.track,
        process_data_spec(st, data).0.album == st.album,
        process_data_spec(st, data).0.genre == st.genre,
        process_data_spec(st, data).0.artwork_base64 == st.artwork_base64,
        process_data_spec(st, data).1 is Some <==> st.track != st.last_track,
        process_data_spec(st, data).1 matches Some(snap) ==> snap.artist == Some(
            xml_b64_text(data),
        ) && snap.track == st.track && snap.album == st.album && snap.genre == st.genre
            && snap.artwork_base64 == st.artwork_base64,
{
    reveal_strlit("minm");
    reveal_strlit("asar");
    assert("asar"@[0] != "minm"@[0]);
}

/// A `core`/`asal` payload sets the album to the decoded text and leaves the
/// track, artist, genre and artwork as they were; a sample is emitted exactly
/// when the track differs from the last emitted one, and it carries the new
/// album with the other fields as they were.
pub proof fn album_payload_sets_album(st: MetadataParserView, data: Seq<char>)
    requires
        st.current_type == "core"@,
        st.current_code == "asal"@,
    ensures
        process_data_spec(st, data).0.album == Some(xml_b64_text(data)),
        process_data_spec(st, data).0.track == st.track,
        process_data_spec(st, data).0.artist == st.artist,
        process_data_spec(st, data).0.genre == st.genre,
        process_data_spec(st, data).0.artwork_base64 == st.artwork_base64,
        process_data_spec(st, data).1 is Some <==> st.track != st.last_track,
        process_data_spec(st, data).1 matches Some(snap) ==> snap.album == Some(
            xml_b64_text(data),
        ) && snap.track == st.track && snap.artist == st.artist && snap.genre == st.genre
            && snap.artwork_base64 == st.artwork_base64,
{
    reveal_strlit("minm");
    reveal_strlit("asar");
    reveal_strlit("asal");
    assert("asal"@[0] != "minm"@[0]);
    assert("asal"@[3] != "asar"@[3]);
}

/// A `core`/`asgn` payload sets the genre to the decoded text and leaves the
/// track, artist, album and artwork as they were; a sample is emitted exactly
/// when the track differs from the last emitted one, and it carries the new
/// genre with the other fields as they were.
pub proof fn genre_payload_sets_genre(st: MetadataParserView, data: Seq<char>)
    requires
        st.current_type == "core"@,
        st.current_code == "asgn"@,
    ensures
        process_data_spec(st, data).0.genre == Some(xml_b64_text(data)),
        process_data_spec(st, data).0.track == st.track,
        process_data_spec(st, data).0.artist == st.artist,
        process_data_spec(st, data).0.album == st.album,
        process_data_spec(st, data).0.artwork_base64 == st.artwork_base64,
        process_data_spec(st, data).1 is Some <==> st.track != st.last_track,
        process_data_spec(st, data).1 matches Some(snap) ==> snap.genre == Some(
            xml_b64_text(data),
        ) && snap.track == st.track && snap.artist == st.artist && snap.album == st.album
            && snap.artwork_base64 == st.artwork_base64,
{
    reveal_strlit("minm");
    reveal_strlit("asar");
    reveal_strlit("asal");
    reveal_strlit("asgn");
    assert("asgn"@[0] != "minm"@[0]);
    assert("asgn"@[2] != "asar"@[2]);
    assert("asgn"@[2] != "asal"@[2]);
}

/// Metadata that carries track data becomes the latest track whatever the
/// history held before, leaves the telemetry as it was, and is the last event
/// a new client is sent.
pub proof fn track_metadata_becomes_latest(h: HistoryView, e: TimedEventView)
    requires
        e.event matches SampleEventView::ShairportMetadata(m) && has_track(m),
    ensures
        apply_event_spec(h, e).last_track == Some(e),
        apply_event_spec(h, e).telemetry == h.telemetry,
        replay_spec(apply_event_spec(h, e)).last() == e,
        replay_spec(apply_event_spec(h, e)).drop_last() == h.telemetry,
{
    assert(h.telemetry.push(e).drop_last() =~= h.telemetry);
}

/// `throttled=0x<f>` output, whatever surrounds it in whitespace, reads as
/// bit 2 of the hex flags `f`: `Some(true)` exactly when that bit is set.
pub proof fn throttled_reads_bit_two(stdout: Seq<u8>, h: Seq<char>, f: u32)
    requires
        valid_utf8(stdout),
        trim(decode_utf8(stdout)) == "throttled=0x"@ + h,
        !contains(h, "0x"@),
        parse_hex_u32_spec(h) == Some(f),
    ensures
        throttled_spec(stdout) == Some((f / 4) % 2 == 1),
{
    let t = "throttled=0x"@ + h;
    let pat = "0x"@;
    reveal_strlit("throttled=0x");
    reveal_strlit("0x");
    assert(t.subrange(10, 12) =~= pat);
    assert forall|j: int| 0 <= j < 10 implies !occurs_at(t, pat, j) by {
        if occurs_at(t, pat, j) {
            assert(t.subrange(j, j + 2)[0] == t[j]);
        }
    }
    lemma_find_from_first(t, pat, 0, 10);
    assert(t.skip(12) =~= h);
    assert((f & 4 != 0) == ((f / 4) % 2 == 1)) by (bit_vector);
}

/// Each known `key: value` line of a station writes its own field, read from
/// the value, and leaves every other field of the record as it was.
pub proof fn each_key_writes_its_own_field(r: StationRecord, v: Seq<char>)
    ensures
        apply_field(r, "power save"@, v) == (StationRecord { power_save_enabled: on_off(v), ..r }),
        apply_field(r, "inactive time"@, v) == (StationRecord {
            inactive_time_ms: token_u64(v), ..r
        }),
        apply_field(r, "rx bytes"@, v) == (StationRecord { rx_bytes: token_u64(v), ..r }),
        apply_field(r, "rx packets"@, v) == (StationRecord { rx_packets: token_u64(v), ..r }),
        apply_field(r, "tx bytes"@, v) == (StationRecord { tx_bytes: token_u64(v), ..r }),
        apply_field(r, "tx packets"@, v) == (StationRecord { tx_packets: token_u64(v), ..r }),
        apply_field(r, "tx failed"@, v) == (StationRecord { tx_failed: token_u64(v), ..r }),
        apply_field(r, "signal"@, v) == (StationRecord { signal_dbm: token_i32(v), ..r }),
        apply_field(r, "tx bitrate"@, v) == (StationRecord {
            tx_bitrate_mbit_s: token_float(v), ..r
        }),
        apply_field(r, "rx bitrate"@, v) == (StationRecord {
            rx_bitrate_mbit_s: token_float(v), ..r
        }),
        apply_field(r, "authorized"@, v) == (StationRecord { authorized: yes_no(v), ..r }),
        apply_field(r, "authenticated"@, v) == (StationRecord { authenticated: yes_no(v), ..r }),
        apply_field(r, "associated"@, v) == (StationRecord { associated: yes_no(v), ..r }),
        apply_field(r, "WMM/WME"@, v) == (StationRecord { wmm_wme: yes_no(v), ..r }),
        apply_field(r, "TDLS peer"@, v) == (StationRecord { tdls_peer: yes_no(v), ..r }),
        apply_field(r, "DTIM period"@, v) == (StationRecord { dtim_period: token_u32(v), ..r }),
        apply_field(r, "beacon interval"@, v) == (StationRecord {
            beacon_interval: token_u32(v), ..r
        }),
        apply_field(r, "short preamble"@, v) == (StationRecord { short_preamble: yes_no(v), ..r }),
        apply_field(r, "short slot time"@, v) == (StationRecord {
            short_slot_time: yes_no(v), ..r
        }),
        apply_field(r, "connected time"@, v) == (StationRecord {
            connected_time_seconds: token_u64(v), ..r
        }),
{
    reveal_strlit("power save");
    reveal_strlit("inactive time");
    reveal_strlit("rx bytes");
    reveal_strlit("rx packets");
    reveal_strlit("tx bytes");
    reveal_strlit("tx packets");
    reveal_strlit("tx failed");
    reveal_strlit("signal");
    reveal_strlit("tx bitrate");
    reveal_strlit("rx bitrate");
    reveal_strlit("authorized");
    reveal_strlit("authenticated");
    reveal_strlit("associated");
    reveal_strlit("WMM/WME");
    reveal_strlit("TDLS peer");
    reveal_strlit("DTIM period");
    reveal_strlit("beacon interval");
    reveal_strlit("short preamble");
    reveal_strlit("short slot time");
    reveal_strlit("connected time");
    assert("inactive time"@ != "power save"@) by {
        assert("inactive time"@[0] != "power save"@[0]);
    }
    assert({
        &&& "rx bytes"@ != "power save"@
        &&& "rx bytes"@ != "inactive time"@
    }) by {
        assert("rx bytes"@[0] != "power save"@[0]);
        assert("rx bytes"@[0] != "inactive time"@[0]);
    }
    assert({
        &&& "rx packets"@ != "power save"@
        &&& "rx packets"@ != "inactive time"@
        &&& "rx packets"@ != "rx bytes"@
    }) by {
        assert("rx packets"@[0] != "power save"@[0]);
        assert("rx packets"@[0] != "inactive time"@[0]);
        assert("rx packets"@[3] != "rx bytes"@[3]);
    }
    assert({
        &&& "tx bytes"@ != "power save"@
        &&& "tx bytes"@ != "inactive time"@
        &&& "tx bytes"@ != "rx bytes"@
        &&& "tx bytes"@ != "rx packets"@
    }) by {
        assert("tx bytes"@[0] != "power save"@[0]);
        assert("tx bytes"@[0] != "inactive time"@[0]);
        assert("tx bytes"@[0] != "rx bytes"@[0]);
        assert("tx bytes"@[0] != "rx packets"@[0]);
    }
    assert({
        &&& "tx packets"@ != "power save"@
        &&& "tx packets"@ != "inactive time"@
        &&& "tx packets"@ != "rx bytes"@
        &&& "tx packets"@ != "rx packets"@
        &&& "tx packets"@ != "tx bytes"@
    }) by {
        assert("tx packets"@[0] != "power save"@[0]);
        assert("tx packets"@[0] != "inactive time"@[0]);
        assert("tx packets"@[0] != "rx bytes"@[0]);
        assert("tx packets"@[0] != "rx packets"@[0]);
        assert("tx packets"@[3] != "tx bytes"@[3]);
    }
    assert({
        &&& "tx failed"@ != "power save"@
        &&& "tx failed"@ != "inactive time"@
        &&& "tx failed"@ != "rx bytes"@
        &&& "tx failed"@ != "rx packets"@
        &&& "tx failed"@ != "tx bytes"@
        &&& "tx failed"@ != "tx packets"@
    }) by {
        assert("tx failed"@[0] != "power save"@[0]);
        assert("tx failed"@[0] != "inactive time"@[0]);
        assert("tx failed"@[0] != "rx bytes"@[0]);
        assert("tx failed"@[0] != "rx packets"@[0]);
        assert("tx failed"@[3] != "tx bytes"@[3]);
        assert("tx failed"@[3] != "tx packets"@[3]);
    }
    assert({
        &&& "signal"@ != "power save"@
        &&& "signal"@ != "inactive time"@
        &&& "signal"@ != "rx bytes"@
        &&& "signal"@ != "rx packets"@
        &&& "signal"@ != "tx bytes"@
        &&& "signal"@ != "tx packets"@
        &&& "signal"@ != "tx failed"@
    }) by {
        assert("signal"@[0] != "power save"@[0]);
        assert("signal"@[0] != "inactive time"@[0]);
        assert("signal"@[0] != "rx bytes"@[0]);
        assert("signal"@[0] != "rx packets"@[0]);
        assert("signal"@[0] != "tx bytes"@[0]);
        assert("signal"@[0] != "tx packets"@[0]);
        assert("signal"@[0] != "tx failed"@[0]);
    }
    assert({
        &&& "tx bitrate"@ != "power save"@
        &&& "tx bitrate"@ != "inactive time"@
        &&& "tx bitrate"@ != "rx bytes"@
        &&& "tx bitrate"@ != "rx packets"@
        &&& "tx bitrate"@ != "tx bytes"@
        &&& "tx bitrate"@ != "tx packets"@
        &&& "tx bitrate"@ != "tx failed"@
        &&& "tx bitrate"@ != "signal"@
    }) by {
        assert("tx bitrate"@[0] != "power save"@[0]);
        assert("tx bitrate"@[0] != "inactive time"@[0]);
        assert("tx bitrate"@[0] != "rx bytes"@[0]);
        assert("tx bitrate"@[0] != "rx packets"@[0]);
        assert("tx bitrate"@[4] != "tx bytes"@[4]);
        assert("tx bitrate"@[3] != "tx packets"@[3]);
        assert("tx bitrate"@[3] != "tx failed"@[3]);
        assert("tx bitrate"@[0] != "signal"@[0]);
    }
    assert({
        &&& "rx bitrate"@ != "power save"@
        &&& "rx bitrate"@ != "inactive time"@
        &&& "rx bitrate"@ != "rx bytes"@
        &&& "rx bitrate"@ != "rx packets"@
        &&& "rx bitrate"@ != "tx bytes"@
        &&& "rx bitrate"@ != "tx packets"@
        &&& "rx bitrate"@ != "tx failed"@
        &&& "rx bitrate"@ != "signal"@
        &&& "rx bitrate"@ != "tx bitrate"@
    }) by {
        assert("rx bitrate"@[0] != "power save"@[0]);
        assert("rx bitrate"@[0] != "inactive time"@[0]);
        assert("rx bitrate"@[4] != "rx bytes"@[4]);
        assert("rx bitrate"@[3] != "rx packets"@[3]);
        assert("rx bitrate"@[0] != "tx bytes"@[0]);
        assert("rx bitrate"@[0] != "tx packets"@[0]);
        assert("rx bitrate"@[0] != "tx failed"@[0]);
        assert("rx bitrate"@[0] != "signal"@[0]);
        assert("rx bitrate"@[0] != "tx bitrate"@[0]);
    }
    assert({
        &&& "authorized"@ != "power save"@
        &&& "authorized"@ != "inactive time"@
        &&& "authorized"@ != "rx bytes"@
        &&& "authorized"@ != "rx packets"@
        &&& "authorized"@ != "tx bytes"@
        &&& "authorized"@ != "tx packets"@
        &&& "authorized"@ != "tx failed"@
        &&& "authorized"@ != "signal"@
        &&& "authorized"@ != "tx bitrate"@
        &&& "authorized"@ != "rx bitrate"@
    }) by {
        assert("authorized"@[0] != "power save"@[0]);
        assert("authorized"@[0] != "inactive time"@[0]);
        assert("authorized"@[0] != "rx bytes"@[0]);
        assert("authorized"@[0] != "rx packets"@[0]);
        assert("authorized"@[0] != "tx bytes"@[0]);
        assert("authorized"@[0] != "tx packets"@[0]);
        assert("authorized"@[0] != "tx failed"@[0]);
        assert("authorized"@[0] != "signal"@[0]);
        assert("authorized"@[0] != "tx bitrate"@[0]);
        assert("authorized"@[0] != "rx bitrate"@[0]);
    }
    assert({
        &&& "authenticated"@ != "power save"@
        &&& "authenticated"@ != "inactive time"@
        &&& "authenticated"@ != "rx bytes"@
        &&& "authenticated"@ != "rx packets"@
        &&& "authenticated"@ != "tx bytes"@
        &&& "authenticated"@ != "tx packets"@
        &&& "authenticated"@ != "tx failed"@
        &&& "authenticated"@ != "signal"@
        &&& "authenticated"@ != "tx bitrate"@
        &&& "authenticated"@ != "rx bitrate"@
        &&& "authenticated"@ != "authorized"@
    }) by {
        assert("authenticated"@[0] != "power save"@[0]);
        assert("authenticated"@[0] != "inactive time"@[0]);
        assert("authenticated"@[0] != "rx bytes"@[0]);
        assert("authenticated"@[0] != "rx packets"@[0]);
        assert("authenticated"@[0] != "tx bytes"@[0]);
        assert("authenticated"@[0] != "tx packets"@[0]);
        assert("authenticated"@[0] != "tx failed"@[0]);
        assert("authenticated"@[0] != "signal"@[0]);
        assert("authenticated"@[0] != "tx bitrate"@[0]);
        assert("authenticated"@[0] != "rx bitrate"@[0]);
        assert("authenticated"@[4] != "authorized"@[4]);
    }
    assert({
        &&& "associated"@ != "power save"@
        &&& "associated"@ != "inactive time"@
        &&& "associated"@ != "rx bytes"@
        &&& "associated"@ != "rx packets"@
        &&& "associated"@ != "tx bytes"@
        &&& "associated"@ != "tx packets"@
        &&& "associated"@ != "tx failed"@
        &&& "associated"@ != "signal"@
        &&& "associated"@ != "tx bitrate"@
        &&& "associated"@ != "rx bitrate"@
        &&& "associated"@ != "authorized"@
        &&& "associated"@ != "authenticated"@
    }) by {
        assert("associated"@[0] != "power save"@[0]);
        assert("associated"@[0] != "inactive time"@[0]);
        assert("associated"@[0] != "rx bytes"@[0]);
        assert("associated"@[0] != "rx packets"@[0]);
        assert("associated"@[0] != "tx bytes"@[0]);
        assert("associated"@[0] != "tx packets"@[0]);
        assert("associated"@[0] != "tx failed"@[0]);
        assert("associated"@[0] != "signal"@[0]);
        assert("associated"@[0] != "tx bitrate"@[0]);
        assert("associated"@[0] != "rx bitrate"@[0]);
        assert("associated"@[1] != "authorized"@[1]);
        assert("associated"@[1] != "authenticated"@[1]);
    }
    assert({
        &&& "WMM/WME"@ != "power save"@
        &&& "WMM/WME"@ != "inactive time"@
        &&& "WMM/WME"@ != "rx bytes"@
        &&& "WMM/WME"@ != "rx packets"@
        &&& "WMM/WME"@ != "tx bytes"@
        &&& "WMM/WME"@ != "tx packets"@
        &&& "WMM/WME"@ != "tx failed"@
        &&& "WMM/WME"@ != "signal"@
        &&& "WMM/WME"@ != "tx bitrate"@
        &&& "WMM/WME"@ != "rx bitrate"@
        &&& "WMM/WME"@ != "authorized"@
        &&& "WMM/WME"@ != "authenticated"@
        &&& "WMM/WME"@ != "associated"@
    }) by {
        assert("WMM/WME"@[0] != "power save"@[0]);
        assert("WMM/WME"@[0] != "inactive time"@[0]);
        assert("WMM/WME"@[0] != "rx bytes"@[0]);
        assert("WMM/WME"@[0] != "rx packets"@[0]);
        assert("WMM/WME"@[0] != "tx bytes"@[0]);
        assert("WMM/WME"@[0] != "tx packets"@[0]);
        assert("WMM/WME"@[0] != "tx failed"@[0]);
        assert("WMM/WME"@[0] != "signal"@[0]);
        assert("WMM/WME"@[0] != "tx bitrate"@[0]);
        assert("WMM/WME"@[0] != "rx bitrate"@[0]);
        assert("WMM/WME"@[0] != "authorized"@[0]);
        assert("WMM/WME"@[0] != "authenticated"@[0]);
        assert("WMM/WME"@[0] != "associated"@[0]);
    }
    assert({
        &&& "TDLS peer"@ != "power save"@
        &&& "TDLS peer"@ != "inactive time"@
        &&& "TDLS peer"@ != "rx bytes"@
        &&& "TDLS peer"@ != "rx packets"@
        &&& "TDLS peer"@ != "tx bytes"@
        &&& "TDLS peer"@ != "tx packets"@
        &&& "TDLS peer"@ != "tx failed"@
        &&& "TDLS peer"@ != "signal"@
        &&& "TDLS peer"@ != "tx bitrate"@
        &&& "TDLS peer"@ != "rx bitrate"@
        &&& "TDLS peer"@ != "authorized"@
        &&& "TDLS peer"@ != "authenticated"@
        &&& "TDLS peer"@ != "associated"@
        &&& "TDLS peer"@ != "WMM/WME"@
    }) by {
        assert("TDLS peer"@[0] != "power save"@[0]);
        assert("TDLS peer"@[0] != "inactive time"@[0]);
        assert("TDLS peer"@[0] != "rx bytes"@[0]);
        assert("TDLS peer"@[0] != "rx packets"@[0]);
        assert("TDLS peer"@[0] != "tx bytes"@[0]);
        assert("TDLS peer"@[0] != "tx packets"@[0]);
        assert("TDLS peer"@[0] != "tx failed"@[0]);
        assert("TDLS peer"@[0] != "signal"@[0]);
        assert("TDLS peer"@[0] != "tx bitrate"@[0]);
        assert("TDLS peer"@[0] != "rx bitrate"@[0]);
        assert("TDLS peer"@[0] != "authorized"@[0]);
        assert("TDLS peer"@[0] != "authenticated"@[0]);
        assert("TDLS peer"@[0] != "associated"@[0]);
        assert("TDLS peer"@[0] != "WMM/WME"@[0]);
    }
    assert({
        &&& "DTIM period"@ != "power save"@
        &&& "DTIM period"@ != "inactive time"@
        &&& "DTIM period"@ != "rx bytes"@
        &&& "DTIM period"@ != "rx packets"@
        &&& "DTIM period"@ != "tx bytes"@
        &&& "DTIM period"@ != "tx packets"@
        &&& "DTIM period"@ != "tx failed"@
        &&& "DTIM period"@ != "signal"@
        &&& "DTIM period"@ != "tx bitrate"@
        &&& "DTIM period"@ != "rx bitrate"@
        &&& "DTIM period"@ != "authorized"@
        &&& "DTIM period"@ != "authenticated"@
        &&& "DTIM period"@ != "associated"@
        &&& "DTIM period"@ != "WMM/WME"@
        &&& "DTIM period"@ != "TDLS peer"@
    }) by {
        assert("DTIM period"@[0] != "power save"@[0]);
        assert("DTIM period"@[0] != "inactive time"@[0]);
        assert("DTIM period"@[0] != "rx bytes"@[0]);
        assert("DTIM period"@[0] != "rx packets"@[0]);
        assert("DTIM period"@[0] != "tx bytes"@[0]);
        assert("DTIM period"@[0] != "tx packets"@[0]);
        assert("DTIM period"@[0] != "tx failed"@[0]);
        assert("DTIM period"@[0] != "signal"@[0]);
        assert("DTIM period"@[0] != "tx bitrate"@[0]);
        assert("DTIM period"@[0] != "rx bitrate"@[0]);
        assert("DTIM period"@[0] != "authorized"@[0]);
        assert("DTIM period"@[0] != "authenticated"@[0]);
        assert("DTIM period"@[0] != "associated"@[0]);
        assert("DTIM period"@[0] != "WMM/WME"@[0]);
        assert("DTIM period"@[0] != "TDLS peer"@[0]);
    }
    assert({
        &&& "beacon interval"@ != "power save"@
        &&& "beacon interval"@ != "inactive time"@
        &&& "beacon interval"@ != "rx bytes"@
        &&& "beacon interval"@ != "rx packets"@
        &&& "beacon interval"@ != "tx bytes"@
        &&& "beacon interval"@ != "tx packets"@
        &&& "beacon interval"@ != "tx failed"@
        &&& "beacon interval"@ != "signal"@
        &&& "beacon interval"@ != "tx bitrate"@
        &&& "beacon interval"@ != "rx bitrate"@
        &&& "beacon interval"@ != "authorized"@
        &&& "beacon interval"@ != "authenticated"@
        &&& "beacon interval"@ != "associated"@
        &&& "beacon interval"@ != "WMM/WME"@
        &&& "beacon interval"@ != "TDLS peer"@
        &&& "beacon interval"@ != "DTIM period"@
    }) by {
        assert("beacon interval"@[0] != "power save"@[0]);
        assert("beacon interval"@[0] != "inactive time"@[0]);
        assert("beacon interval"@[0] != "rx bytes"@[0]);
        assert("beacon interval"@[0] != "rx packets"@[0]);
        assert("beacon interval"@[0] != "tx bytes"@[0]);
        assert("beacon interval"@[0] != "tx packets"@[0]);
        assert("beacon interval"@[0] != "tx failed"@[0]);
        assert("beacon interval"@[0] != "signal"@[0]);
        assert("beacon interval"@[0] != "tx bitrate"@[0]);
        assert("beacon interval"@[0] != "rx bitrate"@[0]);
        assert("beacon interval"@[0] != "authorized"@[0]);
        assert("beacon interval"@[0] != "authenticated"@[0]);
        assert("beacon interval"@[0] != "associated"@[0]);
        assert("beacon interval"@[0] != "WMM/WME"@[0]);
        assert("beacon interval"@[0] != "TDLS peer"@[0]);
        assert("beacon interval"@[0] != "DTIM period"@[0]);
    }
    assert({
        &&& "short preamble"@ != "power save"@
        &&& "short preamble"@ != "inactive time"@
        &&& "short preamble"@ != "rx bytes"@
        &&& "short preamble"@ != "rx packets"@
        &&& "short preamble"@ != "tx bytes"@
        &&& "short preamble"@ != "tx packets"@
        &&& "short preamble"@ != "tx failed"@
        &&& "short preamble"@ != "signal"@
        &&& "short preamble"@ != "tx bitrate"@
        &&& "short preamble"@ != "rx bitrate"@
        &&& "short preamble"@ != "authorized"@
        &&& "short preamble"@ != "authenticated"@
        &&& "short preamble"@ != "associated"@
        &&& "short preamble"@ != "WMM/WME"@
        &&& "short preamble"@ != "TDLS peer"@
        &&& "short preamble"@ != "DTIM period"@
        &&& "short preamble"@ != "beacon interval"@
    }) by {
        assert("short preamble"@[0] != "power save"@[0]);
        assert("short preamble"@[0] != "inactive time"@[0]);
        assert("short preamble"@[0] != "rx bytes"@[0]);
        assert("short preamble"@[0] != "rx packets"@[0]);
        assert("short preamble"@[0] != "tx bytes"@[0]);
        assert("short preamble"@[0] != "tx packets"@[0]);
        assert("short preamble"@[0] != "tx failed"@[0]);
        assert("short preamble"@[1] != "signal"@[1]);
        assert("short preamble"@[0] != "tx bitrate"@[0]);
        assert("short preamble"@[0] != "rx bitrate"@[0]);
        assert("short preamble"@[0] != "authorized"@[0]);
        assert("short preamble"@[0] != "authenticated"@[0]);
        assert("short preamble"@[0] != "associated"@[0]);
        assert("short preamble"@[0] != "WMM/WME"@[0]);
        assert("short preamble"@[0] != "TDLS peer"@[0]);
        assert("short preamble"@[0] != "DTIM period"@[0]);
        assert("short preamble"@[0] != "beacon interval"@[0]);
    }
    assert({
        &&& "short slot time"@ != "power save"@
        &&& "short slot time"@ != "inactive time"@
        &&& "short slot time"@ != "rx bytes"@
        &&& "short slot time"@ != "rx packets"@
        &&& "short slot time"@ != "tx bytes"@
        &&& "short slot time"@ != "tx packets"@
        &&& "short slot time"@ != "tx failed"@
        &&& "short slot time"@ != "signal"@
        &&& "short slot time"@ != "tx bitrate"@
        &&& "short slot time"@ != "rx bitrate"@
        &&& "short slot time"@ != "authorized"@
        &&& "short slot time"@ != "authenticated"@
        &&& "short slot time"@ != "associated"@
        &&& "short slot time"@ != "WMM/WME"@
        &&& "short slot time"@ != "TDLS peer"@
        &&& "short slot time"@ != "DTIM period"@
        &&& "short slot time"@ != "beacon interval"@
        &&& "short slot time"@ != "short preamble"@
    }) by {
        assert("short slot time"@[0] != "power save"@[0]);
        assert("short slot time"@[0] != "inactive time"@[0]);
        assert("short slot time"@[0] != "rx bytes"@[0]);
        assert("short slot time"@[0] != "rx packets"@[0]);
        assert("short slot time"@[0] != "tx bytes"@[0]);
        assert("short slot time"@[0] != "tx packets"@[0]);
        assert("short slot time"@[0] != "tx failed"@[0]);
        assert("short slot time"@[1] != "signal"@[1]);
        assert("short slot time"@[0] != "tx bitrate"@[0]);
        assert("short slot time"@[0] != "rx bitrate"@[0]);
        assert("short slot time"@[0] != "authorized"@[0]);
        assert("short slot time"@[0] != "authenticated"@[0]);
        assert("short slot time"@[0] != "associated"@[0]);
        assert("short slot time"@[0] != "WMM/WME"@[0]);
        assert("short slot time"@[0] != "TDLS peer"@[0]);
        assert("short slot time"@[0] != "DTIM period"@[0]);
        assert("short slot time"@[0] != "beacon interval"@[0]);
        assert("short slot time"@[6] != "short preamble"@[6]);
    }
    assert({
        &&& "connected time"@ != "power save"@
        &&& "connected time"@ != "inactive time"@
        &&& "connected time"@ != "rx bytes"@
        &&& "connected time"@ != "rx packets"@
        &&& "connected time"@ != "tx bytes"@
        &&& "connected time"@ != "tx packets"@
        &&& "connected time"@ != "tx failed"@
        &&& "connected time"@ != "signal"@
        &&& "connected time"@ != "tx bitrate"@
        &&& "connected time"@ != "rx bitrate"@
        &&& "connected time"@ != "authorized"@
        &&& "connected time"@ != "authenticated"@
        &&& "connected time"@ != "associated"@
        &&& "connected time"@ != "WMM/WME"@
        &&& "connected time"@ != "TDLS peer"@
        &&& "connected time"@ != "DTIM period"@
        &&& "connected time"@ != "beacon interval"@
        &&& "connected time"@ != "short preamble"@
        &&& "connected time"@ != "short slot time"@
    }) by {
        assert("connected time"@[0] != "power save"@[0]);
        assert("connected time"@[0] != "inactive time"@[0]);
        assert("connected time"@[0] != "rx bytes"@[0]);
        assert("connected time"@[0] != "rx packets"@[0]);
        assert("connected time"@[0] != "tx bytes"@[0]);
        assert("connected time"@[0] != "tx packets"@[0]);
        assert("connected time"@[0] != "tx failed"@[0]);
        assert("connected time"@[0] != "signal"@[0]);
        assert("connected time"@[0] != "tx bitrate"@[0]);
        assert("connected time"@[0] != "rx bitrate"@[0]);
        assert("connected time"@[0] != "authorized"@[0]);
        assert("connected time"@[0] != "authenticated"@[0]);
        assert("connected time"@[0] != "associated"@[0]);
        assert("connected time"@[0] != "WMM/WME"@[0]);
        assert("connected time"@[0] != "TDLS peer"@[0]);
        assert("connected time"@[0] != "DTIM period"@[0]);
        assert("connected time"@[0] != "beacon interval"@[0]);
        assert("connected time"@[0] != "short preamble"@[0]);
        assert("connected time"@[0] != "short slot time"@[0]);
    }
}

/// A `tx packets: N` line while a record is open sets the record's transmitted
/// packet count to the first number of `N` and leaves every other field,
/// the received packet count among them, as it was; it closes nothing.
pub proof fn tx_packets_line_sets_tx_packets(b: StationRecord, raw: Seq<char>, v: Seq<char>)
    requires
        clean_line(raw) == "tx packets:"@ + v,
    ensures
        station_step(Some(b), raw) == (
            Some(StationRecord { tx_packets: token_u64(trim(v)), ..b }),
            None::<StationRecord>,
        ),
{
    let line = "tx packets:"@ + v;
    let key = "tx packets"@;
    reveal_strlit("tx packets:");
    reveal_strlit("tx packets");
    reveal_strlit("Every ");
    reveal_strlit("Station ");
    reveal_strlit("current time");
    assert(line[0] == 't');
    if starts_with(line, "Every "@) {
        assert(line.subrange(0, 6)[0] == line[0]);
    }
    if starts_with(line, "Station "@) {
        assert(line.subrange(0, 8)[0] == line[0]);
    }
    let colon = seq![':'];
    assert(line.subrange(10, 11) =~= colon);
    assert forall|j: int| 0 <= j < 10 implies !occurs_at(line, colon, j) by {
        if occurs_at(line, colon, j) {
            assert(line.subrange(j, j + 1)[0] == line[j]);
        }
    }
    lemma_find_from_first(line, colon, 0, 10);
    assert(line.subrange(0, 10) =~= key);
    assert(line.subrange(11, line.len() as int) =~= v);
    assert(skip_ws(key, 0) == 0);
    assert(rskip_ws(key, 0, 10) == 10);
    assert(key.subrange(0, 10) =~= key);
    assert(trim(key) == key);
    assert(key[0] != "current time"@[0]);
    each_key_writes_its_own_field(b, trim(v));
}

/// Inside a data tag, the line that closes it, `p</data>q` with no `</data>`
/// in `p`, ends the tag: the text `p` before `</data>` is part of the payload,
/// and the payload processed is the buffered lines followed by `p`, trimmed.
/// So a track whose base64 ends on the closing line decodes from all of it.
pub proof fn closing_data_line_completes_payload(
    st: MetadataParserView,
    p: Seq<char>,
    q: Seq<char>,
)
    requires
        st.in_data_tag,
        !contains(p, "</data>"@),
    ensures
        parse_line_spec(st, p + "</data>"@ + q) == process_data_spec(
            MetadataParserView { in_data_tag: false, data_buffer: Seq::empty(), ..st },
            trim(st.data_buffer + p),
        ),
        st.current_type == "core"@ && st.current_code == "minm"@ ==> parse_line_spec(
            st,
            p + "</data>"@ + q,
        ).0.track == Some(xml_b64_text(trim(st.data_buffer + p))),
{
    let close = "</data>"@;
    reveal_strlit("</data>");
    let line = p + close + q;
    let n = p.len() as int;
    assert(line.subrange(n, n + 7) =~= close);
    assert forall|j: int| 0 <= j < n implies !occurs_at(line, close, j) by {
        if j + 7 <= n {
            lemma_find_from_none(p, close, 0, j);
            assert(line.subrange(j, j + 7) =~= p.subrange(j, j + 7));
        } else if occurs_at(line, close, j) {
            let k = n - j;
            assert(line.subrange(j, j + 7)[k] == line[n]);
            assert(line[n] == close[0]);
        }
    }
    lemma_find_from_first(line, close, 0, n);
    assert(line.take(n) =~= p);
}

} // verus!
