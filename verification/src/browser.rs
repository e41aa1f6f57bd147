//! The scripts that the wallet hands to the browser (dumping the graph database,
//! saving a file), the texts it shows of their answers, and the QR images it draws.

use vstd::prelude::*;
use crate::language::Language;
use crate::i18n::{UiI18n, UiStr, ui_str, ui_i18n};
use crate::text::{concat, str_equal, strip_prefix, strip_prefix_str};

verus! {

/// How character `c` is written inside a single-quoted script string: a backslash
/// and a quote are escaped with a backslash.
pub open spec fn js_escape_char(c: char) -> Seq<char> {
    if c == '\\' {
        seq!['\\', '\\']
    } else if c == '\'' {
        seq!['\\', '\'']
    } else {
        seq![c]
    }
}

/// `s` written inside a single-quoted script string.
pub open spec fn js_escaped(s: Seq<char>) -> Seq<char>
    decreases s.len(),
{
    if s.len() == 0 {
        Seq::empty()
    } else {
        js_escape_char(s[0]) + js_escaped(s.skip(1))
    }
}

/// How the browser reads the rest `t` of a single-quoted script string, up to its
/// closing quote: the text it denotes and what follows the quote. Only the escapes
/// `\\` and `\'` are read; another escape, a line break or a missing closing quote
/// gives nothing.
pub open spec fn js_read_quoted(t: Seq<char>) -> Option<(Seq<char>, Seq<char>)>
    decreases t.len(),
{
    if t.len() == 0 {
        None
    } else if t[0] == '\'' {
        Some((Seq::empty(), t.skip(1)))
    } else if t[0] == '\n' || t[0] == '\r' {
        None
    } else if t[0] == '\\' {
        if t.len() >= 2 && (t[1] == '\\' || t[1] == '\'') {
            match js_read_quoted(t.skip(2)) {
                Some((body, rest)) => Some((seq![t[1]] + body, rest)),
                None => None,
            }
        } else {
            None
        }
    } else {
        match js_read_quoted(t.skip(1)) {
            Some((body, rest)) => Some((seq![t[0]] + body, rest)),
            None => None,
        }
    }
}

/// Whether `s` holds no line break.
pub open spec fn one_line(s: Seq<char>) -> bool {
    forall|i: int| 0 <= i < s.len() ==> s[i] != '\n' && s[i] != '\r'
}

/// Escaping keeps the text: the browser reads the escaped text of a one-line `s`,
/// closed by a quote, as exactly `s`, and goes on with what follows the quote.
pub proof fn lemma_js_escape_roundtrip(s: Seq<char>, rest: Seq<char>)
    requires
        one_line(s),
    ensures
        js_read_quoted(js_escaped(s) + seq!['\''] + rest) == Some((s, rest)),
    decreases s.len(),
{
    let t = js_escaped(s) + seq!['\''] + rest;
    if s.len() == 0 {
        assert(t =~= seq!['\''] + rest);
        assert(t.skip(1) =~= rest);
    } else {
        let tail = s.skip(1);
        assert(one_line(tail));
        lemma_js_escape_roundtrip(tail, rest);
        let e = js_escape_char(s[0]);
        assert(t =~= e + (js_escaped(tail) + seq!['\''] + rest));
        assert(t.skip(e.len() as int) =~= js_escaped(tail) + seq!['\''] + rest);
        assert(seq![s[0]] + tail =~= s);
    }
}

proof fn lemma_js_escaped_push(s: Seq<char>, c: char)
    ensures
        js_escaped(s.push(c)) == js_escaped(s) + js_escape_char(c),
    decreases s.len(),
{
    if s.len() == 0 {
        assert(s.push(c).skip(1) =~= Seq::<char>::empty());
        assert(js_escaped(Seq::<char>::empty()) == Seq::<char>::empty());
        assert(s.push(c)[0] == c);
        assert(js_escaped(s) == Seq::<char>::empty());
        assert(js_escaped(s.push(c)) =~= js_escape_char(c));
    } else {
        lemma_js_escaped_push(s.skip(1), c);
        assert(s.push(c).skip(1) =~= s.skip(1).push(c));
        assert(js_escaped(s.push(c)) =~= js_escape_char(s[0]) + (js_escaped(s.skip(1)) + js_escape_char(c)));
    }
}

/// `s` written inside a single-quoted script string.
pub fn js_escape(s: &str) -> (r: String)
    ensures
        r@ == js_escaped(s@),
{
    let n = s.unicode_len();
    let mut r = String::new();
    let mut i: usize = 0;
    while i < n
        invariant
            n == s@.len(),
            i <= n,
            r@ == js_escaped(s@.take(i as int)),
        decreases n - i,
    {
        let c = s.get_char(i);
        proof {
            lemma_js_escaped_push(s@.take(i as int), c);
            assert(s@.take(i as int).push(c) =~= s@.take(i + 1));
        }
        if c == '\\' {
            r.append("\\\\");
            proof { reveal_strlit("\\\\"); }
        } else if c == '\'' {
            r.append("\\'");
            proof { reveal_strlit("\\'"); }
        } else {
            r.append(s.substring_char(i, i + 1));
            assert(s@.subrange(i as int, i + 1) =~= seq![c]);
        }
        i = i + 1;
    }
    assert(s@.take(n as int) =~= s@);
    r
}

/// The script that dumps the local graph database, decrypting with the SEA key pair
/// `pair_json` (its JSON form) when there is one.
pub open spec fn gun_dump_script_text(pair_json: Option<Seq<char>>) -> Seq<char> {
    match pair_json {
        Some(pj) => "window.__gun_bridge && window.__gun_bridge.dump('"@ + js_escaped(pj) + "')"@,
        None => "window.__gun_bridge && window.__gun_bridge.dump(null)"@,
    }
}

/// The script that dumps the local graph database, decrypting with the SEA key pair
/// `pair_json` (its JSON form) when there is one.
pub fn gun_dump_script(pair_json: Option<&str>) -> (r: String)
    ensures
        r@ == gun_dump_script_text(match pair_json { Some(pj) => Some(pj@), None => None }),
{
    match pair_json {
        Some(pj) => {
            let mut r = concat("window.__gun_bridge && window.__gun_bridge.dump('", js_escape(pj).as_str());
            r.append("')");
            r
        },
        None => "window.__gun_bridge && window.__gun_bridge.dump(null)".to_owned(),
    }
}

/// The hexadecimal digit of `n` (below 16), in lower case.
pub open spec fn hex_digit(n: int) -> char {
    if n < 10 {
        (n + 48) as char
    } else {
        (n + 87) as char
    }
}

/// How character `c` is written inside a JSON string.
pub open spec fn json_escape_char(c: char) -> Seq<char> {
    if c == '"' {
        seq!['\\', '"']
    } else if c == '\\' {
        seq!['\\', '\\']
    } else if c == '\x08' {
        seq!['\\', 'b']
    } else if c == '\t' {
        seq!['\\', 't']
    } else if c == '\n' {
        seq!['\\', 'n']
    } else if c == '\x0C' {
        seq!['\\', 'f']
    } else if c == '\r' {
        seq!['\\', 'r']
    } else if (c as int) < 32 {
        seq!['\\', 'u', '0', '0', hex_digit((c as int) / 16), hex_digit((c as int) % 16)]
    } else {
        seq![c]
    }
}

/// `s` written inside a JSON string.
pub open spec fn json_escaped(s: Seq<char>) -> Seq<char>
    decreases s.len(),
{
    if s.len() == 0 {
        Seq::empty()
    } else {
        json_escaped(s.drop_last()) + json_escape_char(s.last())
    }
}

/// `s` as a JSON string.
pub open spec fn json_string_literal(s: Seq<char>) -> Seq<char> {
    seq!['"'] + json_escaped(s) + seq!['"']
}

/// Writes `text` as a JSON string with `serde_json::to_string`. Its source writes a
/// quote, the text with `"` and `\` escaped by a backslash, the control characters
/// backspace, tab, line feed, form feed and carriage return as `\b`, `\t`, `\n`, `\f`,
/// `\r` and the other characters below U+0020 as `\u00` and two lower-case
/// hexadecimal digits, every other character as it is, and a quote; writing into
/// memory never fails.
#[verifier::external_body]
fn json_string(text: &str) -> (r: Option<String>)
    ensures
        r is Some,
        r.unwrap()@ == json_string_literal(text@),
{
    serde_json::to_string(text).ok()
}

/// The script that offers `content` for download as file `filename`, with the two
/// values written as JSON strings.
pub open spec fn save_file_script_text(content_json: Seq<char>, filename_json: Seq<char>) -> Seq<char> {
    "(function() {\n            try {\n                var blob = new Blob(["@
        + content_json
        + "], { type: 'application/json; charset=utf-8' });\n                var url = URL.createObjectURL(blob);\n                var a = document.createElement('a');\n                a.href = url;\n                a.download = "@
        + filename_json
        + ";\n                document.body.appendChild(a);\n                a.click();\n                document.body.removeChild(a);\n                URL.revokeObjectURL(url);\n                return 'OK';\n            } catch (err) {\n                return 'ERR:' + (err.message || err);\n            }\n        })()"@
}

/// The script that offers `content` for download as file `filename`; it answers `OK`,
/// or `ERR:` and the reason.
pub fn save_file_script(content: &str, filename: &str) -> (r: String)
    ensures
        r@ == save_file_script_text(json_string_literal(content@), json_string_literal(filename@)),
{
    let content_json = match json_string(content) {
        Some(t) => t,
        None => "\"\"".to_owned(),
    };
    let filename_json = match json_string(filename) {
        Some(t) => t,
        None => "\"dump.json\"".to_owned(),
    };
    let mut r = concat("(function() {\n            try {\n                var blob = new Blob([", content_json.as_str());
    r.append("], { type: 'application/json; charset=utf-8' });\n                var url = URL.createObjectURL(blob);\n                var a = document.createElement('a');\n                a.href = url;\n                a.download = ");
    r.append(filename_json.as_str());
    r.append(";\n                document.body.appendChild(a);\n                a.click();\n                document.body.removeChild(a);\n                URL.revokeObjectURL(url);\n                return 'OK';\n            } catch (err) {\n                return 'ERR:' + (err.message || err);\n            }\n        })()");
    r
}

/// The status line for a failure `t`.
pub open spec fn failure_line(t: Seq<char>) -> Seq<char> {
    "\u{274C} "@ + t
}

/// The status line after saving the log answered `result`: saved, nothing to save, or
/// the failure.
pub fn log_save_status(lang: Language, result: &str) -> (r: String)
    ensures
        r@ == if result@ == "OK"@ {
            ui_str(lang, UiStr::LogSaveOk)
        } else if result@ == "EMPTY"@ {
            ui_str(lang, UiStr::LogSaveEmpty)
        } else {
            failure_line(result@)
        },
{
    let i18n = ui_i18n(lang);
    if str_equal(result, "OK") {
        i18n.log_save_ok().to_owned()
    } else if str_equal(result, "EMPTY") {
        i18n.log_save_empty().to_owned()
    } else {
        concat("\u{274C} ", result)
    }
}

/// The file that a dump of the graph database is saved as.
pub open spec fn dump_file_name() -> Seq<char> {
    "zsozso-gundb-dump.json"@
}

/// What to do with the answer of a graph database dump.
pub enum DumpOutcome {
    /// The dump failed: the status line.
    Failed(String),
    /// The dump succeeded: the script that saves it as a file.
    Save(String),
}

/// What to do with the answer `result` of a graph database dump: an answer that
/// begins with `ERR:` is a failure, any other is the dump, to be saved as a file.
pub fn dump_outcome(result: &str) -> (r: DumpOutcome)
    ensures
        strip_prefix(result@, "ERR:"@) is Some ==> (r matches DumpOutcome::Failed(line) && line@ == failure_line(result@)),
        strip_prefix(result@, "ERR:"@) is None ==> (r matches DumpOutcome::Save(script)
            && script@ == save_file_script_text(json_string_literal(result@), json_string_literal(dump_file_name()))),
{
    if strip_prefix_str(result, "ERR:").is_some() {
        DumpOutcome::Failed(concat("\u{274C} ", result))
    } else {
        DumpOutcome::Save(save_file_script(result, "zsozso-gundb-dump.json"))
    }
}

/// The status line after saving the dump answered `result`: saved, or the failure.
pub fn dump_save_status(lang: Language, result: &str) -> (r: String)
    ensures
        r@ == if result@ == "OK"@ { ui_str(lang, UiStr::LogDumpOk) } else { failure_line(result@) },
{
    let i18n = ui_i18n(lang);
    if str_equal(result, "OK") {
        i18n.log_dump_ok().to_owned()
    } else {
        concat("\u{274C} ", result)
    }
}

/// How every SVG image of the `qrcode` renderer begins.
pub open spec fn svg_head() -> Seq<char> {
    "<?xml version=\"1.0\" standalone=\"yes\"?><svg xmlns=\"http://www.w3.org/2000/svg\""@
}

/// How every SVG image of the `qrcode` renderer ends.
pub open spec fn svg_tail() -> Seq<char> {
    "\"/></svg>"@
}

/// Whether `t` begins and ends as the `qrcode` renderer's SVG images do.
pub open spec fn is_qr_svg(t: Seq<char>) -> bool {
    &&& t.len() >= svg_head().len() + svg_tail().len()
    &&& t.take(svg_head().len() as int) == svg_head()
    &&& t.skip(t.len() - svg_tail().len()) == svg_tail()
}

/// The SVG image that the `qrcode` crate draws of the QR code of the UTF-8 bytes of
/// `text`, sized between `min_size` and `max_size` pixels a side, with or without its
/// quiet zone; nothing when the text does not fit in a QR code.
pub uninterp spec fn qr_code_svg(text: Seq<char>, min_size: u32, max_size: u32, quiet_zone: bool) -> Option<Seq<char>>;

/// Draws the QR code of `text` with `qrcode`: `QrCode::new` on its bytes, then the SVG
/// renderer with `min_dimensions`, `max_dimensions` and `quiet_zone`, in that order.
/// The contract names the image, and states what the renderer's source shows of every
/// image: it begins with the XML declaration and the `svg` element, and ends by closing
/// them. Which texts fit in a QR code is left unsaid. `min_size` is bounded so that the
/// renderer's size arithmetic stays within `u32`.
#[verifier::external_body]
fn render_qr_svg(text: &str, min_size: u32, max_size: u32, quiet_zone: bool) -> (r: Option<String>)
    requires
        min_size <= 0xFFFF_0000,
    ensures
        qr_code_svg(text@, min_size, max_size, quiet_zone) == match r {
            Some(t) => Some(t@),
            None => None,
        },
        r matches Some(t) ==> is_qr_svg(t@),
{
    let code = qrcode::QrCode::new(text.as_bytes()).ok()?;
    Some(
        code.render::<qrcode::render::svg::Color>()
            .min_dimensions(min_size, min_size)
            .max_dimensions(max_size, max_size)
            .quiet_zone(quiet_zone)
            .build(),
    )
}

/// The smallest side of a QR image, in pixels.
pub const QR_MIN_SIZE: u32 = 200;

/// The largest side of a QR image, in pixels.
pub const QR_MAX_SIZE: u32 = 280;

/// The QR image of `text` as the wallet shows it: between 200 and 280 pixels a side,
/// with its quiet zone; empty when the text does not fit in a QR code.
pub open spec fn qr_image_text(text: Seq<char>) -> Seq<char> {
    match qr_code_svg(text, QR_MIN_SIZE, QR_MAX_SIZE, true) {
        Some(t) => t,
        None => Seq::empty(),
    }
}

/// The image shown for a text is the one `qrcode` draws of that whole text, unchanged,
/// 200 to 280 pixels a side with its quiet zone: two texts whose drawings differ are
/// never shown alike, and an image is shown only where `qrcode` draws one.
pub proof fn lemma_qr_image_draws_whole_text(text: Seq<char>, other: Seq<char>)
    ensures
        qr_code_svg(text, 200, 280, true) matches Some(t) ==> qr_image_text(text) == t,
        qr_code_svg(text, 200, 280, true) is None ==> qr_image_text(text).len() == 0,
        qr_code_svg(text, 200, 280, true) is Some && qr_code_svg(other, 200, 280, true) is Some
            && qr_code_svg(text, 200, 280, true) != qr_code_svg(other, 200, 280, true)
            ==> qr_image_text(text) != qr_image_text(other),
{
}

/// The QR image of `text` as the wallet shows it (of a public key, or of a revealed
/// secret): between 200 and 280 pixels a side, with its quiet zone; empty when the
/// text does not fit in a QR code.
pub fn qr_image(text: &str) -> (r: String)
    ensures
        r@ == qr_image_text(text@),
        qr_code_svg(text@, 200, 280, true) matches Some(t) ==> r@ == t,
        qr_code_svg(text@, 200, 280, true) is None ==> r@.len() == 0,
        r@.len() == 0 || is_qr_svg(r@),
{
    match render_qr_svg(text, QR_MIN_SIZE, QR_MAX_SIZE, true) {
        Some(t) => t,
        None => String::new(),
    }
}

} // verus!
