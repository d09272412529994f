//! Logging settings and the masking of sensitive values. Installing the
//! subscriber is the caller's.

use vstd::prelude::*;
use vstd::string::StringSliceAdditionalSpecFns;
use crate::text::{
    byte_prefix, byte_prefix_chars, contains_seq, lowercase_of, push_str, replace_all,
    opt_view, replace_all_seq, str_contains, str_eq, to_lowercase, to_owned_string,
};

verus! {

/// How log lines are written.
#[derive(Debug, Clone, Copy, PartialEq, Eq, Structural)]
pub enum LogFormat {
    /// Human-readable lines.
    Text,
    /// One JSON object per line.
    Json,
    /// Short lines for CI logs.
    Compact,
}

impl Default for LogFormat {
    fn default() -> (r: Self)
        ensures
            r == LogFormat::Text,
    {
        LogFormat::Text
    }
}

/// The format a name stands for, ignoring case: "text" or "pretty",
/// "json", "compact".
pub open spec fn log_format_named(s: Seq<char>) -> Option<LogFormat> {
    let l = lowercase_of(s);
    if l == "text"@ || l == "pretty"@ {
        Some(LogFormat::Text)
    } else if l == "json"@ {
        Some(LogFormat::Json)
    } else if l == "compact"@ {
        Some(LogFormat::Compact)
    } else {
        None
    }
}

impl LogFormat {
    /// Reads a format name; an unknown name gives a message that lists the known ones.
    pub fn parse(s: &str) -> (r: Result<LogFormat, String>)
        ensures
            match log_format_named(s@) {
                Some(f) => r == Ok::<LogFormat, String>(f),
                None => r matches Err(m) && m@ == "Unknown log format: "@ + s@
                    + ". Use 'text', 'json', or 'compact'"@,
            },
    {
        let l = to_lowercase(s);
        if str_eq(l.as_str(), "text") || str_eq(l.as_str(), "pretty") {
            Ok(LogFormat::Text)
        } else if str_eq(l.as_str(), "json") {
            Ok(LogFormat::Json)
        } else if str_eq(l.as_str(), "compact") {
            Ok(LogFormat::Compact)
        } else {
            let mut m = to_owned_string("Unknown log format: ");
            push_str(&mut m, s);
            push_str(&mut m, ". Use 'text', 'json', or 'compact'");
            Err(m)
        }
    }
}

impl std::str::FromStr for LogFormat {
    type Err = String;

    fn from_str(s: &str) -> Result<LogFormat, String> {
        LogFormat::parse(s)
    }
}

/// Logging settings.
#[derive(Debug, Clone)]
pub struct LogConfig {
    pub format: LogFormat,
    /// Level filter, such as "info" or "pmp_deploy=debug".
    pub level: String,
    pub timestamps: bool,
    /// Whether file and line are written.
    pub file_info: bool,
    /// Whether span openings and closings are written.
    pub span_events: bool,
}

impl Default for LogConfig {
    fn default() -> (r: Self)
        ensures
            r.format == LogFormat::Text,
            r.level@ == "info"@,
            r.timestamps,
            !r.file_info,
            !r.span_events,
    {
        LogConfig {
            format: LogFormat::Text,
            level: to_owned_string("info"),
            timestamps: true,
            file_info: false,
            span_events: false,
        }
    }
}

impl LogConfig {
    /// The default settings: text at level "info", with timestamps.
    pub fn new() -> (r: Self)
        ensures
            r.format == LogFormat::Text,
            r.level@ == "info"@,
            r.timestamps,
            !r.file_info,
            !r.span_events,
    {
        LogConfig::default()
    }

    pub fn with_format(self, format: LogFormat) -> (r: Self)
        ensures
            r.format == format,
            r.level == self.level && r.timestamps == self.timestamps,
            r.file_info == self.file_info && r.span_events == self.span_events,
    {
        LogConfig { format, ..self }
    }

    pub fn with_level(self, level: &str) -> (r: Self)
        ensures
            r.level@ == level@,
            r.format == self.format && r.timestamps == self.timestamps,
            r.file_info == self.file_info && r.span_events == self.span_events,
    {
        LogConfig { level: to_owned_string(level), ..self }
    }

    pub fn with_timestamps(self, enabled: bool) -> (r: Self)
        ensures
            r.timestamps == enabled,
            r.format == self.format && r.level == self.level,
            r.file_info == self.file_info && r.span_events == self.span_events,
    {
        LogConfig { timestamps: enabled, ..self }
    }

    pub fn with_file_info(self, enabled: bool) -> (r: Self)
        ensures
            r.file_info == enabled,
            r.format == self.format && r.level == self.level,
            r.timestamps == self.timestamps && r.span_events == self.span_events,
    {
        LogConfig { file_info: enabled, ..self }
    }

    pub fn with_span_events(self, enabled: bool) -> (r: Self)
        ensures
            r.span_events == enabled,
            r.format == self.format && r.level == self.level,
            r.timestamps == self.timestamps && r.file_info == self.file_info,
    {
        LogConfig { span_events: enabled, ..self }
    }

    /// Everything at level "debug", as text.
    pub fn verbose() -> (r: Self)
        ensures
            r.format == LogFormat::Text,
            r.level@ == "debug"@,
            r.timestamps && r.file_info && r.span_events,
    {
        LogConfig {
            format: LogFormat::Text,
            level: to_owned_string("debug"),
            timestamps: true,
            file_info: true,
            span_events: true,
        }
    }

    /// Warnings only, compact, without timestamps.
    pub fn quiet() -> (r: Self)
        ensures
            r.format == LogFormat::Compact,
            r.level@ == "warn"@,
            !r.timestamps && !r.file_info && !r.span_events,
    {
        LogConfig {
            format: LogFormat::Compact,
            level: to_owned_string("warn"),
            timestamps: false,
            file_info: false,
            span_events: false,
        }
    }

    /// JSON at level "info", with everything included.
    pub fn json() -> (r: Self)
        ensures
            r.format == LogFormat::Json,
            r.level@ == "info"@,
            r.timestamps && r.file_info && r.span_events,
    {
        LogConfig {
            format: LogFormat::Json,
            level: to_owned_string("info"),
            timestamps: true,
            file_info: true,
            span_events: true,
        }
    }
}

/// The words that mark a key or a logged text as sensitive.
pub open spec fn sensitive_pattern_texts() -> Seq<Seq<char>> {
    seq![
        "password"@, "secret"@, "token"@, "api_key"@, "apikey"@, "api-key"@, "auth"@,
        "credential"@, "private_key"@, "privatekey"@, "private-key"@, "access_key"@,
        "accesskey"@, "access-key"@, "bearer"@, "jwt"@, "session"@, "cookie"@,
    ]
}

/// The words that mark a key or a logged text as sensitive, in order.
pub fn sensitive_patterns() -> (r: Vec<&'static str>)
    ensures
        r@.len() == sensitive_pattern_texts().len(),
        forall|i: int| 0 <= i < r@.len() ==> #[trigger] r@[i]@ == sensitive_pattern_texts()[i],
{
    let mut v: Vec<&'static str> = Vec::new();
    v.push("password");
    v.push("secret");
    v.push("token");
    v.push("api_key");
    v.push("apikey");
    v.push("api-key");
    v.push("auth");
    v.push("credential");
    v.push("private_key");
    v.push("privatekey");
    v.push("private-key");
    v.push("access_key");
    v.push("accesskey");
    v.push("access-key");
    v.push("bearer");
    v.push("jwt");
    v.push("session");
    v.push("cookie");
    v
}

/// A value as it may be logged: four stars when it has at most four
/// bytes, else its first four bytes followed by four stars.
pub open spec fn masked_text(value: Seq<char>) -> Seq<char> {
    if vstd::utf8::encode_utf8(value).len() <= 4 {
        "****"@
    } else {
        byte_prefix_chars(value, 4) + "****"@
    }
}

/// Masks a value. Its fourth byte must end a character when it is longer.
pub fn mask_value(value: &str) -> (r: String)
    requires
        value.spec_bytes().len() <= 4 || vstd::utf8::is_char_boundary(value.spec_bytes(), 4),
    ensures
        r@ == masked_text(value@),
{
    let bytes = value.as_bytes();
    if bytes.len() <= 4 {
        to_owned_string("****")
    } else {
        let mut m = to_owned_string(byte_prefix(value, 4));
        push_str(&mut m, "****");
        m
    }
}

/// Whether a key names a sensitive value: its lowercase form contains
/// one of the sensitive words.
pub open spec fn sensitive_key(key: Seq<char>) -> bool {
    exists|i: int| 0 <= i < sensitive_pattern_texts().len()
        && contains_seq(lowercase_of(key), #[trigger] sensitive_pattern_texts()[i])
}

pub fn is_sensitive_key(key: &str) -> (r: bool)
    ensures
        r == sensitive_key(key@),
{
    let lower = to_lowercase(key);
    let patterns = sensitive_patterns();
    let mut i: usize = 0;
    while i < patterns.len()
        invariant
            lower@ == lowercase_of(key@),
            patterns@.len() == sensitive_pattern_texts().len(),
            forall|k: int| 0 <= k < patterns@.len() ==> #[trigger] patterns@[k]@ == sensitive_pattern_texts()[k],
            i <= patterns@.len(),
            forall|k: int| 0 <= k < i ==> !contains_seq(lowercase_of(key@), #[trigger] sensitive_pattern_texts()[k]),
        decreases patterns.len() - i,
    {
        let p = patterns[i];
        assert(p@ == sensitive_pattern_texts()[i as int]);
        if str_contains(lower.as_str(), p) {
            return true;
        }
        i = i + 1;
    }
    false
}

/// The two expressions that find the value given to a sensitive word in a
/// logged text: unquoted (up to a quote, blank, comma or closing brace),
/// and quoted.
pub open spec fn value_expressions(word: Seq<char>) -> (Seq<char>, Seq<char>) {
    (
        word + "[\"']?\\s*[:=]\\s*[\"']?([^\"'\\s,}]+)"@,
        word + "[\"']?\\s*[:=]\\s*[\"']([^\"']+)[\"']"@,
    )
}

/// The expressions that find the value given to `word`.
pub fn sensitive_value_patterns(word: &str) -> (r: (String, String))
    ensures
        r.0@ == value_expressions(word@).0,
        r.1@ == value_expressions(word@).1,
{
    let mut a = to_owned_string(word);
    push_str(&mut a, "[\"']?\\s*[:=]\\s*[\"']?([^\"'\\s,}]+)");
    let mut b = to_owned_string(word);
    push_str(&mut b, "[\"']?\\s*[:=]\\s*[\"']([^\"']+)[\"']");
    (a, b)
}

/// What a found value is replaced by: its first two bytes and three
/// stars when it has more than four bytes, else three stars.
pub open spec fn value_mask(value: Seq<char>) -> Seq<char> {
    if vstd::utf8::encode_utf8(value).len() > 4 {
        byte_prefix_chars(value, 2) + "***"@
    } else {
        "***"@
    }
}

/// Masks one finding: every occurrence of the found (non-empty) value in
/// the found text is replaced by its mask. A value of more than four bytes
/// must have its second byte end a character.
pub fn mask_capture(full: &str, value: &str) -> (r: String)
    requires
        value@.len() > 0,
        value.spec_bytes().len() <= 4 || vstd::utf8::is_char_boundary(value.spec_bytes(), 2),
    ensures
        r@ == replace_all_seq(full@, value@, value_mask(value@)),
{
    let bytes = value.as_bytes();
    if bytes.len() > 4 {
        let mut m = to_owned_string(byte_prefix(value, 2));
        push_str(&mut m, "***");
        replace_all(full, value, m.as_str())
    } else {
        replace_all(full, value, "***")
    }
}

/// What `{:?}` writes for a string slice: the text quoted, with escapes.
pub uninterp spec fn debug_quoted(s: Seq<char>) -> Seq<char>;

/// `format!("{:?}", s)`. Trusted: the result depends on `s` alone and is named.
#[verifier::external_body]
fn debug_text(s: &str) -> (r: String)
    ensures
        r@ == debug_quoted(s@),
{
    format!("{:?}", s)
}

/// A value that is written masked, or as it is.
pub struct SensitiveValue<'a> {
    pub value: &'a str,
    pub masked: bool,
}

impl<'a> SensitiveValue<'a> {
    pub fn new(value: &'a str, mask: bool) -> (r: Self)
        ensures
            r.value == value,
            r.masked == mask,
    {
        SensitiveValue { value, masked: mask }
    }

    pub fn masked(value: &'a str) -> (r: Self)
        ensures
            r.value == value,
            r.masked,
    {
        SensitiveValue { value, masked: true }
    }

    pub fn visible(value: &'a str) -> (r: Self)
        ensures
            r.value == value,
            !r.masked,
    {
        SensitiveValue { value, masked: false }
    }

    /// The value as it is written: masked or as it is.
    pub fn to_string(&self) -> (r: String)
        requires
            self.masked ==> (self.value.spec_bytes().len() <= 4
                || vstd::utf8::is_char_boundary(self.value.spec_bytes(), 4)),
        ensures
            r@ == (if self.masked { masked_text(self.value@) } else { self.value@ }),
    {
        if self.masked {
            mask_value(self.value)
        } else {
            to_owned_string(self.value)
        }
    }

    /// The value as its debug form writes it: masked in quotes, or quoted
    /// with escapes.
    pub fn debug_string(&self) -> (r: String)
        requires
            self.masked ==> (self.value.spec_bytes().len() <= 4
                || vstd::utf8::is_char_boundary(self.value.spec_bytes(), 4)),
        ensures
            r@ == (if self.masked { "\""@ + masked_text(self.value@) + "\""@ } else { debug_quoted(self.value@) }),
    {
        if self.masked {
            let mut m = to_owned_string("\"");
            let v = mask_value(self.value);
            push_str(&mut m, v.as_str());
            push_str(&mut m, "\"");
            m
        } else {
            debug_text(self.value)
        }
    }
}

} // verus!

verus! {

/// Where one match of an expression lies in a text: the byte range of the
/// whole match and, when its first group took part, the byte range of that
/// group.
pub type CaptureSpan = (usize, usize, Option<(usize, usize)>);

/// The successive non-overlapping matches that the `regex` crate finds for
/// `pattern` in `text`, leftmost first, as byte ranges; `None` when the
/// pattern does not compile.
pub uninterp spec fn regex_capture_spans(pattern: Seq<char>, text: Seq<char>) -> Option<Seq<CaptureSpan>>;

/// Whether a list of spans lies in `text` as the `regex` crate promises of
/// its matches: each range is ordered, within the text and on character
/// boundaries, and each match ends before the next one starts.
pub open spec fn spans_in_text(spans: Seq<CaptureSpan>, text: Seq<char>) -> bool {
    let b = vstd::utf8::encode_utf8(text);
    &&& forall|i: int| 0 <= i < spans.len() ==> {
        &&& #[trigger] spans[i].0 <= spans[i].1
        &&& spans[i].1 <= b.len()
        &&& vstd::utf8::is_char_boundary(b, spans[i].0 as int)
        &&& vstd::utf8::is_char_boundary(b, spans[i].1 as int)
        &&& (spans[i].2 matches Some(g) ==> g.0 <= g.1 && g.1 <= b.len()
            && vstd::utf8::is_char_boundary(b, g.0 as int)
            && vstd::utf8::is_char_boundary(b, g.1 as int))
    }
    &&& forall|i: int, j: int| 0 <= i < j < spans.len() ==> #[trigger] spans[i].1 <= #[trigger] spans[j].0
}

/// `Regex::new(pattern)` and then `captures_iter(text)`, each capture
/// handed out as the byte offsets of its whole match and of its first group.
/// Trusted: the matches depend on the two texts alone and are named; the
/// `regex` documentation promises that match offsets satisfy `start <= end`,
/// fall on UTF-8 boundaries of the haystack, and that successive matches do
/// not overlap.
#[verifier::external_body]
fn capture_spans(pattern: &str, text: &str) -> (r: Option<Vec<CaptureSpan>>)
    ensures
        match (r, regex_capture_spans(pattern@, text@)) {
            (None, None) => true,
            (Some(v), Some(s)) => v@ == s,
            _ => false,
        },
        r matches Some(v) ==> spans_in_text(v@, text@),
{
    match regex::Regex::new(pattern) {
        Err(_) => None,
        Ok(re) => Some(
            re.captures_iter(text)
                .map(|c| (c.get_match().start(), c.get_match().end(), c.get(1).map(|g| (g.start(), g.end()))))
                .collect(),
        ),
    }
}

/// The characters of the bytes `a..b` of the UTF-8 encoding of `s`.
pub open spec fn byte_range_chars(s: Seq<char>, a: int, b: int) -> Seq<char> {
    vstd::utf8::decode_utf8(vstd::utf8::encode_utf8(s).subrange(a, b))
}

/// `&s[a..b]`; both ends must be character boundaries.
pub fn byte_slice(s: &str, a: usize, b: usize) -> (r: &str)
    requires
        a <= b,
        b <= vstd::utf8::encode_utf8(s@).len(),
        vstd::utf8::is_char_boundary(vstd::utf8::encode_utf8(s@), a as int),
        vstd::utf8::is_char_boundary(vstd::utf8::encode_utf8(s@), b as int),
    ensures
        r@ == byte_range_chars(s@, a as int, b as int),
{
    let ghost bytes = vstd::utf8::encode_utf8(s@);
    proof {
        vstd::utf8::encode_utf8_valid_utf8(s@);
        vstd::utf8::valid_utf8_split(bytes, b as int);
        let head = bytes.subrange(0, b as int);
        if a == b {
            vstd::utf8::is_char_boundary_start_end_of_seq(head);
        } else if a > 0 {
            vstd::utf8::is_char_boundary_iff_not_is_continuation_byte(bytes, a as int);
            vstd::utf8::is_char_boundary_iff_not_is_continuation_byte(head, a as int);
        }
    }
    let (head, _rest) = s.split_at(b);
    let (_front, piece) = head.split_at(a);
    proof {
        assert(piece.spec_bytes() =~= bytes.subrange(a as int, b as int));
        vstd::utf8::encode_utf8_decode_utf8(piece@);
    }
    piece
}

/// `s` with `rep` before, between and after its characters (what
/// `str::replace` gives for an empty pattern).
pub open spec fn interleave(s: Seq<char>, rep: Seq<char>) -> Seq<char>
    decreases s.len(),
{
    if s.len() == 0 {
        rep
    } else {
        interleave(s.drop_last(), rep) + seq![s.last()] + rep
    }
}

/// Puts `rep` before, between and after the characters of `s`.
pub fn interleave_text(s: &str, rep: &str) -> (r: String)
    ensures
        r@ == interleave(s@, rep@),
{
    let cs = crate::text::chars_of(s);
    let mut out = to_owned_string(rep);
    let mut i: usize = 0;
    assert(s@.subrange(0, 0) =~= Seq::<char>::empty());
    while i < cs.len()
        invariant
            cs@ == s@,
            i <= cs@.len(),
            out@ == interleave(s@.subrange(0, i as int), rep@),
        decreases cs.len() - i,
    {
        let c = cs[i];
        crate::text::push_char(&mut out, c);
        push_str(&mut out, rep);
        proof {
            let next = s@.subrange(0, i + 1);
            assert(next.drop_last() =~= s@.subrange(0, i as int));
            assert(next.last() == c);
        }
        i = i + 1;
    }
    assert(s@.subrange(0, s@.len() as int) =~= s@);
    out
}

/// Whether masking a found value cuts a character: a value of more than
/// four bytes whose second byte does not end a character.
pub open spec fn finding_cuts_char(value: Seq<char>) -> bool {
    vstd::utf8::encode_utf8(value).len() > 4 && !vstd::utf8::is_char_boundary(vstd::utf8::encode_utf8(value), 2)
}

/// What a whole match is replaced by: every occurrence of its found value
/// replaced by the value's mask (three stars inserted around each
/// character when the value is empty).
pub open spec fn masked_finding(full: Seq<char>, value: Seq<char>) -> Seq<char> {
    if value.len() == 0 {
        interleave(full, "***"@)
    } else {
        replace_all_seq(full, value, value_mask(value))
    }
}

/// Masks one match; `None` where the mask would cut a character.
pub fn mask_finding(full: &str, value: &str) -> (r: Option<String>)
    ensures
        r is None <==> finding_cuts_char(value@),
        r matches Some(t) ==> t@ == masked_finding(full@, value@),
{
    if value.is_empty() {
        proof {
            reveal_strlit("***");
            assert(vstd::utf8::encode_utf8(value@) =~= Seq::<u8>::empty());
        }
        return Some(interleave_text(full, "***"));
    }
    let n = value.as_bytes().len();
    if n > 4 && !value.is_char_boundary(2) {
        return None;
    }
    Some(mask_capture(full, value))
}

/// Whether a match stops the masking: its first group did not take part,
/// or masking the group's value would cut a character.
pub open spec fn span_fails(text: Seq<char>, sp: CaptureSpan) -> bool {
    match sp.2 {
        None => true,
        Some(g) => finding_cuts_char(byte_range_chars(text, g.0 as int, g.1 as int)),
    }
}

/// Where the text kept before match `k` starts: after the previous match.
pub open spec fn gap_start(spans: Seq<CaptureSpan>, k: int) -> int {
    if k <= 0 { 0 } else { spans[k - 1].1 as int }
}

/// The masked text up to the end of match `k`.
pub open spec fn replaced_prefix(text: Seq<char>, spans: Seq<CaptureSpan>, k: nat) -> Seq<char>
    decreases k,
{
    if k == 0 {
        seq![]
    } else {
        let sp = spans[k - 1];
        let value = match sp.2 {
            Some(g) => byte_range_chars(text, g.0 as int, g.1 as int),
            None => seq![],
        };
        replaced_prefix(text, spans, (k - 1) as nat)
            + byte_range_chars(text, gap_start(spans, k - 1), sp.0 as int)
            + masked_finding(byte_range_chars(text, sp.0 as int, sp.1 as int), value)
    }
}

/// `text` with each match masked and the text between matches kept; `None`
/// when some match stops the masking.
pub open spec fn masked_pass(text: Seq<char>, spans: Seq<CaptureSpan>) -> Option<Seq<char>> {
    if exists|i: int| 0 <= i < spans.len() && span_fails(text, #[trigger] spans[i]) {
        None
    } else {
        Some(replaced_prefix(text, spans, spans.len())
            + byte_range_chars(text, gap_start(spans, spans.len() as int), vstd::utf8::encode_utf8(text).len() as int))
    }
}

/// One expression applied: the text unchanged when the expression does not
/// compile, else its matches masked.
pub open spec fn masked_by_expression(text: Seq<char>, expression: Seq<char>) -> Option<Seq<char>> {
    match regex_capture_spans(expression, text) {
        None => Some(text),
        Some(spans) => masked_pass(text, spans),
    }
}

/// The two expressions of each word applied in turn, word after word.
pub open spec fn masked_by_words(text: Seq<char>, words: Seq<Seq<char>>) -> Option<Seq<char>>
    decreases words.len(),
{
    if words.len() == 0 {
        Some(text)
    } else {
        match masked_by_expression(text, value_expressions(words[0]).0) {
            None => None,
            Some(t1) => match masked_by_expression(t1, value_expressions(words[0]).1) {
                None => None,
                Some(t2) => masked_by_words(t2, words.drop_first()),
            },
        }
    }
}

/// A logged text with the values of its sensitive `key: value` and
/// `key=value` pairs masked; `None` where masking a value would cut a
/// character (or a match has no value).
pub open spec fn masked_log(input: Seq<char>) -> Option<Seq<char>> {
    masked_by_words(input, sensitive_pattern_texts())
}

/// Masks every match of one expression in `text`.
fn mask_matches(text: &str, expression: &str) -> (r: Option<String>)
    ensures
        opt_view(r) == masked_by_expression(text@, expression@),
{
    let spans = match capture_spans(expression, text) {
        None => return Some(to_owned_string(text)),
        Some(v) => v,
    };
    let ghost sp = spans@;
    let ghost bytes = vstd::utf8::encode_utf8(text@);
    proof {
        vstd::utf8::encode_utf8_valid_utf8(text@);
        vstd::utf8::is_char_boundary_start_end_of_seq(bytes);
        assert(regex_capture_spans(expression@, text@) == Some(sp));
    }
    let n = spans.len();
    let mut out = String::new();
    let mut last: usize = 0;
    let mut k: usize = 0;
    while k < n
        invariant
            n == sp.len(),
            spans@ == sp,
            spans_in_text(sp, text@),
            bytes == vstd::utf8::encode_utf8(text@),
            vstd::utf8::valid_utf8(bytes),
            vstd::utf8::is_char_boundary(bytes, 0),
            vstd::utf8::is_char_boundary(bytes, bytes.len() as int),
            regex_capture_spans(expression@, text@) == Some(sp),
            k <= n,
            last as int == gap_start(sp, k as int),
            last <= bytes.len(),
            vstd::utf8::is_char_boundary(bytes, last as int),
            out@ == replaced_prefix(text@, sp, k as nat),
            forall|j: int| 0 <= j < k ==> !span_fails(text@, #[trigger] sp[j]),
        decreases n - k,
    {
        let (s0, e0, g) = spans[k];
        assert(sp[k as int] == (s0, e0, g));
        let (a, b) = match g {
            None => {
                assert(span_fails(text@, sp[k as int]));
                assert(masked_pass(text@, sp) is None);
                return None;
            },
            Some(p) => p,
        };
        proof {
            if k > 0 {
                assert(sp[k - 1].1 <= sp[k as int].0);
            }
        }
        let full = byte_slice(text, s0, e0);
        let value = byte_slice(text, a, b);
        let piece = match mask_finding(full, value) {
            None => {
                assert(span_fails(text@, sp[k as int]));
                assert(masked_pass(text@, sp) is None);
                return None;
            },
            Some(p) => p,
        };
        let gap = byte_slice(text, last, s0);
        push_str(&mut out, gap);
        push_str(&mut out, piece.as_str());
        proof {
            assert(!span_fails(text@, sp[k as int]));
            assert(out@ == replaced_prefix(text@, sp, (k + 1) as nat));
        }
        last = e0;
        k = k + 1;
    }
    let len = text.as_bytes().len();
    let tail = byte_slice(text, last, len);
    push_str(&mut out, tail);
    proof {
        assert(!(exists|i: int| 0 <= i < sp.len() && span_fails(text@, #[trigger] sp[i])));
        assert(masked_pass(text@, sp) == Some(out@));
    }
    Some(out)
}

/// `input` with the values of sensitive `key: value` and `key=value` pairs
/// masked: for each sensitive word in turn, its unquoted and then its quoted
/// expression, each match replaced by its text with the found value masked.
/// `None` exactly where masking a value would cut a character in two.
pub fn mask_sensitive(input: &str) -> (r: Option<String>)
    ensures
        opt_view(r) == masked_log(input@),
{
    let words = sensitive_patterns();
    let ghost all = sensitive_pattern_texts();
    let mut cur = to_owned_string(input);
    let mut i: usize = 0;
    assert(all.skip(0) =~= all);
    while i < words.len()
        invariant
            all == sensitive_pattern_texts(),
            words@.len() == all.len(),
            forall|k: int| 0 <= k < words@.len() ==> #[trigger] words@[k]@ == all[k],
            i <= words@.len(),
            masked_by_words(input@, all) == masked_by_words(cur@, all.skip(i as int)),
        decreases words.len() - i,
    {
        let word = words[i];
        let ghost rest = all.skip(i as int);
        proof {
            assert(rest[0] == all[i as int]);
            assert(rest.drop_first() =~= all.skip(i + 1));
        }
        let (unquoted, quoted) = sensitive_value_patterns(word);
        assert(word@ == rest[0]);
        let t1 = match mask_matches(cur.as_str(), unquoted.as_str()) {
            None => {
                assert(unquoted@ == value_expressions(rest[0]).0);
                assert(masked_by_expression(cur@, value_expressions(rest[0]).0) is None);
                assert(masked_by_words(cur@, rest) is None);
                return None;
            },
            Some(t) => t,
        };
        let t2 = match mask_matches(t1.as_str(), quoted.as_str()) {
            None => {
                assert(quoted@ == value_expressions(rest[0]).1);
                assert(masked_by_expression(t1@, value_expressions(rest[0]).1) is None);
                assert(masked_by_words(cur@, rest) is None);
                return None;
            },
            Some(t) => t,
        };
        proof {
            assert(masked_by_words(cur@, rest) == masked_by_words(t2@, all.skip(i + 1)));
        }
        cur = t2;
        i = i + 1;
    }
    proof {
        assert(all.skip(all.len() as int) =~= Seq::<Seq<char>>::empty());
    }
    Some(cur)
}

} // verus!
