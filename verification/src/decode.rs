//! Decoding one input line into a [`LogRecord`], and the whole per-line pass.

use vstd::prelude::*;
use crate::clock::{local_time_of, rfc3339_ok};
use crate::json::{doc_text, get_member_compact, get_string_member, json_ok, member_string,
    member_text, parse_doc};
use crate::record::{DecodeError, LogRecord, level_from_token, spec_level_of};
use crate::render::rendered_line;

verus! {

/// Whether a line carries a whole log record: it is a valid JSON document
/// whose `time` member is a string in RFC 3339 form, whose `level` member is
/// a string naming one of the four recognized severities, whose `message`
/// member is a string, and which has an `extra` member of any JSON kind.
pub open spec fn line_has_record(s: Seq<char>) -> bool {
    &&& json_ok(s)
    &&& member_string(s, "time"@) matches Some(t) && rfc3339_ok(t)
    &&& member_string(s, "level"@) matches Some(l) && spec_level_of(l) is Some
    &&& member_string(s, "message"@) is Some
    &&& member_text(s, "extra"@) is Some
}

/// The decoded record's fields are the line's own members: the message text
/// verbatim, the level its token names, the `extra` member as its compact
/// JSON text — valid JSON that re-parses and re-serializes to itself — and a
/// well-formed clock reading. (The clock fields are the `time` member's
/// instant converted to the machine's local timezone, so only their
/// well-formedness is stated.)
pub open spec fn record_matches_line(rec: LogRecord, s: Seq<char>) -> bool {
    &&& rec.wf()
    &&& member_string(s, "level"@) matches Some(l) && spec_level_of(l) == Some(rec.level)
    &&& Some(rec.message@) == member_string(s, "message"@)
    &&& Some(rec.extra_text@) == member_text(s, "extra"@)
    &&& json_ok(rec.extra_text@) && doc_text(rec.extra_text@) == rec.extra_text@
}

/// Decode one line of text into a [`LogRecord`].
///
/// Decoding succeeds exactly on the lines that carry a whole record, and the
/// record's fields are then the line's own members. A line that is not
/// valid JSON fails with `MalformedJson` — exactly those lines do; a valid
/// JSON line without the record's shape fails with `SchemaMismatch` —
/// exactly those lines do.
pub fn decode_line(line: &str) -> (r: Result<LogRecord, DecodeError>)
    ensures
        r is Ok <==> line_has_record(line@),
        r matches Ok(rec) ==> record_matches_line(rec, line@),
        !json_ok(line@) <==> (r matches Err(e) && e == DecodeError::MalformedJson),
        (json_ok(line@) && !line_has_record(line@)) <==> (r matches Err(e) && e
            == DecodeError::SchemaMismatch),
{
    let d = match parse_doc(line) {
        Some(d) => d,
        None => {
            return Err(DecodeError::MalformedJson);
        },
    };
    let time_s = match get_string_member(&d, "time") {
        Some(s) => s,
        None => {
            return Err(DecodeError::SchemaMismatch);
        },
    };
    let level_s = match get_string_member(&d, "level") {
        Some(s) => s,
        None => {
            return Err(DecodeError::SchemaMismatch);
        },
    };
    let message = match get_string_member(&d, "message") {
        Some(s) => s,
        None => {
            return Err(DecodeError::SchemaMismatch);
        },
    };
    let extra_text = match get_member_compact(&d, "extra") {
        Some(t) => t,
        None => {
            return Err(DecodeError::SchemaMismatch);
        },
    };
    let level = match level_from_token(level_s.as_str()) {
        Some(l) => l,
        None => {
            return Err(DecodeError::SchemaMismatch);
        },
    };
    let time = match local_time_of(time_s.as_str()) {
        Some(t) => t,
        None => {
            return Err(DecodeError::SchemaMismatch);
        },
    };
    Ok(LogRecord { time, level, message, extra_text })
}

/// The whole per-line pass: decode the line and render the record.
///
/// It succeeds exactly on the lines that carry a whole record, the errors
/// classify the line as [`decode_line`]'s do, and the output is the rendered
/// line of this line's own record: a record whose level, message and extra
/// text are the line's members (the clock reading is the `time` member in
/// the machine's local timezone, so it is existential here, bound to the
/// record being rendered).
pub fn process_line(line: &str) -> (r: Result<String, DecodeError>)
    ensures
        r is Ok <==> line_has_record(line@),
        !json_ok(line@) <==> (r matches Err(e) && e == DecodeError::MalformedJson),
        (json_ok(line@) && !line_has_record(line@)) <==> (r matches Err(e) && e
            == DecodeError::SchemaMismatch),
        r matches Ok(out) ==> exists|rec: LogRecord|
            record_matches_line(rec, line@) && out@ == rendered_line(rec),
{
    match decode_line(line) {
        Ok(rec) => {
            let out = rec.render();
            proof {
                assert(record_matches_line(rec, line@) && out@ == rendered_line(rec));
            }
            Ok(out)
        },
        Err(e) => Err(e),
    }
}

} // verus!
